use nc_visual::align::NcAlign;
use nc_visual::plane::NcPlane;
use nc_visual::visual::{
    NcBlitter, NcScale, NcVisualOptions, NcVisualOptionsBuilder, NCVISUAL_OPTION_ADDALPHA, NCVISUAL_OPTION_BLEND,
    NCVISUAL_OPTION_CHILDPLANE, NCVISUAL_OPTION_HORALIGNED, NCVISUAL_OPTION_NODEGRADE,
    NCVISUAL_OPTION_NOINTERPOLATE, NCVISUAL_OPTION_VERALIGNED,
};

#[test]
fn defaults() {
    let o = NcVisualOptionsBuilder::new().build();
    assert_eq!(o.plane, None);
    assert_eq!(o.scale, NcScale::NoScale);
    assert_eq!((o.y, o.x), (0, 0));
    assert_eq!(o.region_yx_lenyx, None);
    assert_eq!(o.cell_offset_yx, None);
    assert_eq!(o.blitter, NcBlitter::Default);
    assert_eq!(o.flags, 0);
    assert_eq!(o.transcolor, None);
    assert_eq!(NcVisualOptionsBuilder::default().build(), o);
    assert_eq!(NcVisualOptions::builder().build(), o);
}

#[test]
fn alignment_after_coordinate_wins() {
    let o = NcVisualOptionsBuilder::new().y(3).valign(NcAlign::TOP).build();
    assert_ne!(o.flags & NCVISUAL_OPTION_VERALIGNED, 0);
    assert_eq!(o.y, NcAlign::TOP.code());
    assert_eq!(o.flags & NCVISUAL_OPTION_HORALIGNED, 0);
}

#[test]
fn coordinate_after_alignment_wins() {
    let o = NcVisualOptionsBuilder::new().align(NcAlign::Center, NcAlign::Right).yx(5, 7).build();
    assert_eq!(o.flags & (NCVISUAL_OPTION_VERALIGNED | NCVISUAL_OPTION_HORALIGNED), 0);
    assert_eq!((o.y, o.x), (5, 7));
    let o = NcVisualOptionsBuilder::new().halign(NcAlign::Right).x(9).valign(NcAlign::Center).build();
    assert_eq!(o.flags, NCVISUAL_OPTION_VERALIGNED);
    assert_eq!((o.y, o.x), (2, 9));
}

#[test]
fn other_calls_keep_the_aligned_bits() {
    let o = NcVisualOptionsBuilder::new()
        .align(NcAlign::Center, NcAlign::Center)
        .scale(NcScale::Stretch)
        .blend(true)
        .pixel()
        .region(1, 2, 3, 4)
        .build();
    assert_eq!(
        o.flags,
        NCVISUAL_OPTION_VERALIGNED | NCVISUAL_OPTION_HORALIGNED | NCVISUAL_OPTION_BLEND
    );
    assert_eq!((o.y, o.x), (2, 2));
}

#[test]
fn transcolor_sets_and_clears_alpha() {
    let o = NcVisualOptionsBuilder::new().transcolor(Some(0xff00ff)).build();
    assert_eq!(o.flags, NCVISUAL_OPTION_ADDALPHA);
    assert_eq!(o.transcolor, Some(0xff00ff));
    let o = NcVisualOptionsBuilder::new().transcolor(Some(0xff00ff)).transcolor(None).build();
    assert_eq!(o.flags & NCVISUAL_OPTION_ADDALPHA, 0);
    assert_eq!(o.transcolor, None);
}

#[test]
fn degrade_is_inverted() {
    let o = NcVisualOptionsBuilder::new().degrade(true).build();
    assert_eq!(o.flags & NCVISUAL_OPTION_NODEGRADE, 0);
    let o = NcVisualOptionsBuilder::new().degrade(false).build();
    assert_eq!(o.flags, NCVISUAL_OPTION_NODEGRADE);
    let o = NcVisualOptionsBuilder::new().degrade(false).degrade(true).build();
    assert_eq!(o.flags, 0);
}

#[test]
fn interpolate_is_inverted_independently() {
    let o = NcVisualOptionsBuilder::new().interpolate(true).build();
    assert_eq!(o.flags & NCVISUAL_OPTION_NOINTERPOLATE, 0);
    let o = NcVisualOptionsBuilder::new().interpolate(false).build();
    assert_eq!(o.flags, NCVISUAL_OPTION_NOINTERPOLATE);
    let o = NcVisualOptionsBuilder::new().degrade(false).interpolate(true).build();
    assert_eq!(o.flags, NCVISUAL_OPTION_NODEGRADE);
}

#[test]
fn same_call_twice_is_once() {
    let p = NcPlane::new(10, 20);
    let once = NcVisualOptionsBuilder::new()
        .parent(&p)
        .scale(NcScale::Scale)
        .y(4)
        .halign(NcAlign::Right)
        .blitter(NcBlitter::Braille)
        .transcolor(Some(7))
        .blend(true)
        .degrade(false)
        .interpolate(false)
        .region(1, 1, 5, 5)
        .cell_offset(2, 3)
        .build();
    let twice = NcVisualOptionsBuilder::new()
        .parent(&p)
        .parent(&p)
        .scale(NcScale::Scale)
        .scale(NcScale::Scale)
        .y(4)
        .y(4)
        .halign(NcAlign::Right)
        .halign(NcAlign::Right)
        .blitter(NcBlitter::Braille)
        .blitter(NcBlitter::Braille)
        .transcolor(Some(7))
        .transcolor(Some(7))
        .blend(true)
        .blend(true)
        .degrade(false)
        .degrade(false)
        .interpolate(false)
        .interpolate(false)
        .region(1, 1, 5, 5)
        .region(1, 1, 5, 5)
        .cell_offset(2, 3)
        .cell_offset(2, 3)
        .build();
    assert_eq!(once, twice);
    assert_eq!(
        once.flags,
        NCVISUAL_OPTION_CHILDPLANE
            | NCVISUAL_OPTION_HORALIGNED
            | NCVISUAL_OPTION_ADDALPHA
            | NCVISUAL_OPTION_BLEND
            | NCVISUAL_OPTION_NODEGRADE
            | NCVISUAL_OPTION_NOINTERPOLATE
    );
    assert_eq!((once.y, once.x), (4, 3));
}

#[test]
fn plane_child_and_no_plane() {
    let p = NcPlane::new(3, 4);
    let o = NcVisualOptionsBuilder::new().plane(&p).build();
    assert_eq!(o.plane, Some(&p));
    assert_eq!(o.flags, 0);
    let o = NcVisualOptionsBuilder::new().child(true).build();
    assert_eq!(o.plane, None);
    assert_eq!(o.flags, NCVISUAL_OPTION_CHILDPLANE);
    let o = NcVisualOptionsBuilder::new().parent(&p).child(false).build();
    assert_eq!(o.plane, Some(&p));
    assert_eq!(o.flags, 0);
    let o = NcVisualOptionsBuilder::new().parent(&p).no_plane().build();
    assert_eq!(o.plane, None);
    assert_eq!(o.flags, 0);
}

#[test]
fn blitter_region_and_offset() {
    let o = NcVisualOptionsBuilder::new().pixel().build();
    assert_eq!(o.blitter, NcBlitter::Pixel);
    let o = NcVisualOptionsBuilder::new().pixel().blitter(NcBlitter::Blit2x1).build();
    assert_eq!(o.blitter, NcBlitter::Blit2x1);
    let o = NcVisualOptionsBuilder::new()
        .region(u32::MAX, 0, 9, 8)
        .cell_offset(100, u32::MAX)
        .build();
    assert_eq!(o.region_yx_lenyx, Some((u32::MAX, 0, 9, 8)));
    assert_eq!(o.cell_offset_yx, Some((100, u32::MAX)));
    assert_eq!(o.flags, 0);
}
