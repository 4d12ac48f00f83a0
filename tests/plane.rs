use nc_visual::plane::{notcurses_stddim_yx, notcurses_term_dim_yx, NcPlane, Notcurses};

#[test]
fn fresh_plane_reports_its_size() {
    let p = NcPlane::new(24, 80);
    let (mut y, mut x) = (-1, -1);
    p.dim_yx(&mut y, &mut x);
    assert_eq!((y, x), (24, 80));
}

#[test]
fn resized_plane_reports_the_new_size() {
    let mut p = NcPlane::new(24, 80);
    p.resize(50, 132);
    let (mut y, mut x) = (0, 0);
    p.dim_yx(&mut y, &mut x);
    assert_eq!((y, x), (50, 132));
}

#[test]
fn stddim_returns_plane_and_size() {
    let mut nc = Notcurses::new(30, 100);
    let (mut y, mut x) = (0, 0);
    let p = notcurses_stddim_yx(&mut nc, &mut y, &mut x);
    assert_eq!((y, x), (30, 100));
    assert_eq!(p, NcPlane::new(30, 100));
    assert_eq!(nc.stdplane, NcPlane::new(30, 100));
}

#[test]
fn term_dim_follows_a_resize() {
    let mut nc = Notcurses::new(30, 100);
    let (mut rows, mut cols) = (0, 0);
    notcurses_term_dim_yx(&nc, &mut rows, &mut cols);
    assert_eq!((rows, cols), (30, 100));
    nc.stdplane.resize(40, 120);
    notcurses_term_dim_yx(&nc, &mut rows, &mut cols);
    assert_eq!((rows, cols), (40, 120));
}

#[test]
fn empty_plane_reports_zero() {
    let nc = Notcurses::new(0, 0);
    let (mut rows, mut cols) = (7, 7);
    notcurses_term_dim_yx(&nc, &mut rows, &mut cols);
    assert_eq!((rows, cols), (0, 0));
}
