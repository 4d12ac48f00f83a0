//! The blit options descriptor and the builder that assembles it.

use vstd::prelude::*;

use crate::align::{NcAlign, NcOffset};
use crate::plane::NcPlane;

verus! {

/// Unsigned extent or position, in cells or pixels.
pub type NcDim = u32;

/// A packed RGBA color.
pub type NcRgba = u32;

/// Flag: fail rather than degrade when the chosen blitter is unsupported.
pub const NCVISUAL_OPTION_NODEGRADE: u32 = 0x1;

/// Flag: composite with the colors underneath.
pub const NCVISUAL_OPTION_BLEND: u32 = 0x2;

/// Flag: the horizontal slot holds an [`NcAlign`] code, not a column.
pub const NCVISUAL_OPTION_HORALIGNED: u32 = 0x4;

/// Flag: the vertical slot holds an [`NcAlign`] code, not a row.
pub const NCVISUAL_OPTION_VERALIGNED: u32 = 0x8;

/// Flag: treat the transparent color as fully transparent.
pub const NCVISUAL_OPTION_ADDALPHA: u32 = 0x10;

/// Flag: blit into a new child of the target surface.
pub const NCVISUAL_OPTION_CHILDPLANE: u32 = 0x20;

/// Flag: scale without interpolation.
pub const NCVISUAL_OPTION_NOINTERPOLATE: u32 = 0x40;

/// How content is resized relative to the target surface.
#[derive(Clone, Copy, Debug, PartialEq, Eq, Structural)]
pub enum NcScale {
    /// Keep the source size.
    NoScale,
    /// Scale, keeping the aspect ratio.
    Scale,
    /// Stretch to fill, ignoring the aspect ratio.
    Stretch,
    /// Keep the source size, at high resolution.
    NoScaleHires,
    /// Scale at high resolution, keeping the aspect ratio.
    ScaleHires,
}

/// The algorithm that turns pixels into cells.
#[derive(Clone, Copy, Debug, PartialEq, Eq, Structural)]
pub enum NcBlitter {
    /// Picked by the engine for the terminal at hand.
    Default,
    /// One pixel per cell.
    Blit1x1,
    /// Two pixels per cell, stacked.
    Blit2x1,
    /// Four pixels per cell.
    Blit2x2,
    /// Six pixels per cell.
    Blit3x2,
    /// Braille patterns.
    Braille,
    /// Terminal pixel graphics.
    Pixel,
    /// Four stacked pixels per cell.
    Blit4x1,
    /// Eight stacked pixels per cell.
    Blit8x1,
}

/// What one axis's placement slot holds: an explicit offset, or an alignment
/// that the engine resolves against the space available.
#[derive(Clone, Copy, Debug, PartialEq, Eq, Structural)]
pub enum NcPlacement {
    Coord(NcOffset),
    Aligned(NcAlign),
}

impl NcPlacement {
    /// The numeric value of the slot.
    pub open spec fn spec_slot(self) -> NcOffset {
        match self {
            NcPlacement::Coord(v) => v,
            NcPlacement::Aligned(a) => a.spec_code(),
        }
    }

    /// Returns the numeric value of the slot: the offset, or the alignment's
    /// code.
    pub fn slot(self) -> (r: NcOffset)
        ensures
            r == self.spec_slot(),
    {
        match self {
            NcPlacement::Coord(v) => v,
            NcPlacement::Aligned(a) => a.code(),
        }
    }
}

/// `mask` where `on` holds, else no bit.
pub open spec fn flag_bit(on: bool, mask: u32) -> u32 {
    if on {
        mask
    } else {
        0
    }
}

fn flag(on: bool, mask: u32) -> (r: u32)
    ensures
        r == flag_bit(on, mask),
{
    if on {
        mask
    } else {
        0
    }
}

/// The finished options for one blit, as the engine reads them.
#[derive(Debug, PartialEq, Eq)]
pub struct NcVisualOptions<'ncplane> {
    /// The target surface; with none, the engine creates one that fits.
    pub plane: Option<&'ncplane NcPlane>,
    pub scale: NcScale,
    /// A row, or an alignment code where `VERALIGNED` is set.
    pub y: NcOffset,
    /// A column, or an alignment code where `HORALIGNED` is set.
    pub x: NcOffset,
    /// `(start_y, start_x, len_y, len_x)` of the source to render; with
    /// none, all of it.
    pub region_yx_lenyx: Option<(NcDim, NcDim, NcDim, NcDim)>,
    /// `(y, x)` pixel offset within the first cell.
    pub cell_offset_yx: Option<(NcDim, NcDim)>,
    pub blitter: NcBlitter,
    pub flags: u32,
    /// The color treated as transparent, present iff `ADDALPHA` is set.
    pub transcolor: Option<NcRgba>,
}

impl<'ncplane> NcVisualOptions<'ncplane> {
    /// Returns a builder with every option at its default.
    pub fn builder() -> (r: NcVisualOptionsBuilder<'ncplane>)
        ensures
            r@ == BuilderView::initial(),
    {
        NcVisualOptionsBuilder::new()
    }
}

/// What a builder holds, with the target surface by value.
pub struct BuilderView {
    pub plane: Option<NcPlane>,
    pub scale: NcScale,
    pub y: NcPlacement,
    pub x: NcPlacement,
    pub region_yx_lenyx: Option<(NcDim, NcDim, NcDim, NcDim)>,
    pub cell_offset_yx: Option<(NcDim, NcDim)>,
    pub blitter: NcBlitter,
    pub child: bool,
    pub transcolor: Option<NcRgba>,
    pub blend: bool,
    pub degrade: bool,
    pub interpolate: bool,
}

impl BuilderView {
    /// The view of a fresh builder: no surface, no scaling, placed at `(0, 0)`,
    /// default blitter, degrading and interpolating, nothing else set.
    pub open spec fn initial() -> BuilderView {
        BuilderView {
            plane: None,
            scale: NcScale::NoScale,
            y: NcPlacement::Coord(0),
            x: NcPlacement::Coord(0),
            region_yx_lenyx: None,
            cell_offset_yx: None,
            blitter: NcBlitter::Default,
            child: false,
            transcolor: None,
            blend: false,
            degrade: true,
            interpolate: true,
        }
    }

    /// After targeting `plane`.
    pub open spec fn with_plane(self, plane: NcPlane) -> BuilderView {
        BuilderView { plane: Some(plane), ..self }
    }

    /// After asking for (or against) a child of the target surface.
    pub open spec fn with_child(self, child: bool) -> BuilderView {
        BuilderView { child, ..self }
    }

    /// After dropping the target surface, and with it the child request.
    pub open spec fn without_plane(self) -> BuilderView {
        BuilderView { plane: None, child: false, ..self }
    }

    /// After choosing the scale mode.
    pub open spec fn with_scale(self, scale: NcScale) -> BuilderView {
        BuilderView { scale, ..self }
    }

    /// After setting the vertical slot.
    pub open spec fn with_y(self, y: NcPlacement) -> BuilderView {
        BuilderView { y, ..self }
    }

    /// After setting the horizontal slot.
    pub open spec fn with_x(self, x: NcPlacement) -> BuilderView {
        BuilderView { x, ..self }
    }

    /// After choosing the blitter.
    pub open spec fn with_blitter(self, blitter: NcBlitter) -> BuilderView {
        BuilderView { blitter, ..self }
    }

    /// After choosing the transparent color, or none.
    pub open spec fn with_transcolor(self, transcolor: Option<NcRgba>) -> BuilderView {
        BuilderView { transcolor, ..self }
    }

    /// After choosing whether to blend.
    pub open spec fn with_blend(self, blend: bool) -> BuilderView {
        BuilderView { blend, ..self }
    }

    /// After choosing whether to degrade.
    pub open spec fn with_degrade(self, degrade: bool) -> BuilderView {
        BuilderView { degrade, ..self }
    }

    /// After choosing whether to interpolate.
    pub open spec fn with_interpolate(self, interpolate: bool) -> BuilderView {
        BuilderView { interpolate, ..self }
    }

    /// After choosing the source region.
    pub open spec fn with_region(self, region: (NcDim, NcDim, NcDim, NcDim)) -> BuilderView {
        BuilderView { region_yx_lenyx: Some(region), ..self }
    }

    /// After choosing the pixel offset within the cell.
    pub open spec fn with_cell_offset(self, offset: (NcDim, NcDim)) -> BuilderView {
        BuilderView { cell_offset_yx: Some(offset), ..self }
    }

    /// The flag word of the descriptor built from this view. `degrade` and
    /// `interpolate` are inverted here, and only here: their bits forbid.
    pub open spec fn flags(self) -> u32 {
        flag_bit(!self.degrade, NCVISUAL_OPTION_NODEGRADE) | flag_bit(
            self.blend,
            NCVISUAL_OPTION_BLEND,
        ) | flag_bit(self.x is Aligned, NCVISUAL_OPTION_HORALIGNED) | flag_bit(
            self.y is Aligned,
            NCVISUAL_OPTION_VERALIGNED,
        ) | flag_bit(self.transcolor is Some, NCVISUAL_OPTION_ADDALPHA) | flag_bit(
            self.child,
            NCVISUAL_OPTION_CHILDPLANE,
        ) | flag_bit(!self.interpolate, NCVISUAL_OPTION_NOINTERPOLATE)
    }
}

/// Builder for [`NcVisualOptions`]: each call returns the updated builder,
/// and [`build`](NcVisualOptionsBuilder::build) consumes it.
#[derive(Debug)]
pub struct NcVisualOptionsBuilder<'ncplane> {
    plane: Option<&'ncplane NcPlane>,
    scale: NcScale,
    y: NcPlacement,
    x: NcPlacement,
    region_yx_lenyx: Option<(NcDim, NcDim, NcDim, NcDim)>,
    cell_offset_yx: Option<(NcDim, NcDim)>,
    blitter: NcBlitter,
    child: bool,
    transcolor: Option<NcRgba>,
    blend: bool,
    degrade: bool,
    interpolate: bool,
}

/// The surface behind an optional reference.
pub open spec fn deref_plane(p: Option<&NcPlane>) -> Option<NcPlane> {
    match p {
        Some(r) => Some(*r),
        None => None,
    }
}

impl<'ncplane> View for NcVisualOptionsBuilder<'ncplane> {
    type V = BuilderView;

    closed spec fn view(&self) -> BuilderView {
        BuilderView {
            plane: deref_plane(self.plane),
            scale: self.scale,
            y: self.y,
            x: self.x,
            region_yx_lenyx: self.region_yx_lenyx,
            cell_offset_yx: self.cell_offset_yx,
            blitter: self.blitter,
            child: self.child,
            transcolor: self.transcolor,
            blend: self.blend,
            degrade: self.degrade,
            interpolate: self.interpolate,
        }
    }
}

impl<'ncplane> Default for NcVisualOptionsBuilder<'ncplane> {
    fn default() -> (r: Self)
        ensures
            r@ == BuilderView::initial(),
    {
        NcVisualOptionsBuilder::new()
    }
}

impl<'ncplane> NcVisualOptionsBuilder<'ncplane> {
    /// Returns a builder with every option at its default.
    pub fn new() -> (r: Self)
        ensures
            r@ == BuilderView::initial(),
    {
        NcVisualOptionsBuilder {
            plane: None,
            scale: NcScale::NoScale,
            y: NcPlacement::Coord(0),
            x: NcPlacement::Coord(0),
            region_yx_lenyx: None,
            cell_offset_yx: None,
            blitter: NcBlitter::Default,
            child: false,
            transcolor: None,
            blend: false,
            degrade: true,
            interpolate: true,
        }
    }

    /// Sets the surface where the blitting will be done, or the parent of a
    /// new one with [`child`](Self::child). Leaves the flags as they are.
    pub fn plane(self, plane: &'ncplane NcPlane) -> (r: Self)
        ensures
            r@ == self@.with_plane(*plane),
    {
        NcVisualOptionsBuilder { plane: Some(plane), ..self }
    }

    /// If true, a [`plane`](Self::plane) must also be given: it becomes the
    /// parent of a new surface into which the blitting will be done.
    ///
    /// Effect: (un)sets the `CHILDPLANE` flag; leaves the surface as it is.
    pub fn child(self, child: bool) -> (r: Self)
        ensures
            r@ == self@.with_child(child),
    {
        NcVisualOptionsBuilder { child, ..self }
    }

    /// Sets the surface that will be the parent of a new one where the
    /// blitting will be done: [`plane`](Self::plane) and
    /// [`child`](Self::child) at once.
    pub fn parent(self, plane: &'ncplane NcPlane) -> (r: Self)
        ensures
            r@ == self@.with_plane(*plane).with_child(true),
    {
        NcVisualOptionsBuilder { plane: Some(plane), child: true, ..self }
    }

    /// Unsets the surface and the `CHILDPLANE` flag: the engine will create a
    /// surface that fits the content.
    pub fn no_plane(self) -> (r: Self)
        ensures
            r@ == self@.without_plane(),
    {
        NcVisualOptionsBuilder { plane: None, child: false, ..self }
    }

    /// Sets the scale mode. Default: [`NcScale::NoScale`].
    pub fn scale(self, scale: NcScale) -> (r: Self)
        ensures
            r@ == self@.with_scale(scale),
    {
        NcVisualOptionsBuilder { scale, ..self }
    }

    /// Sets the row, and unsets the `VERALIGNED` flag. Default: `0`.
    pub fn y(self, y: NcOffset) -> (r: Self)
        ensures
            r@ == self@.with_y(NcPlacement::Coord(y)),
    {
        NcVisualOptionsBuilder { y: NcPlacement::Coord(y), ..self }
    }

    /// Sets the column, and unsets the `HORALIGNED` flag. Default: `0`.
    pub fn x(self, x: NcOffset) -> (r: Self)
        ensures
            r@ == self@.with_x(NcPlacement::Coord(x)),
    {
        NcVisualOptionsBuilder { x: NcPlacement::Coord(x), ..self }
    }

    /// Sets the row and the column, and unsets both aligned flags.
    /// Default: `(0, 0)`.
    pub fn yx(self, y: NcOffset, x: NcOffset) -> (r: Self)
        ensures
            r@ == self@.with_y(NcPlacement::Coord(y)).with_x(NcPlacement::Coord(x)),
    {
        NcVisualOptionsBuilder { y: NcPlacement::Coord(y), x: NcPlacement::Coord(x), ..self }
    }

    /// Sets the vertical alignment, and the `VERALIGNED` flag.
    pub fn valign(self, valign: NcAlign) -> (r: Self)
        ensures
            r@ == self@.with_y(NcPlacement::Aligned(valign)),
    {
        NcVisualOptionsBuilder { y: NcPlacement::Aligned(valign), ..self }
    }

    /// Sets the horizontal alignment, and the `HORALIGNED` flag.
    pub fn halign(self, halign: NcAlign) -> (r: Self)
        ensures
            r@ == self@.with_x(NcPlacement::Aligned(halign)),
    {
        NcVisualOptionsBuilder { x: NcPlacement::Aligned(halign), ..self }
    }

    /// Sets both alignments, and both aligned flags.
    pub fn align(self, valign: NcAlign, halign: NcAlign) -> (r: Self)
        ensures
            r@ == self@.with_y(NcPlacement::Aligned(valign)).with_x(
                NcPlacement::Aligned(halign),
            ),
    {
        NcVisualOptionsBuilder {
            y: NcPlacement::Aligned(valign),
            x: NcPlacement::Aligned(halign),
            ..self
        }
    }

    /// Chooses the blitter. Default: [`NcBlitter::Default`].
    pub fn blitter(self, blitter: NcBlitter) -> (r: Self)
        ensures
            r@ == self@.with_blitter(blitter),
    {
        NcVisualOptionsBuilder { blitter, ..self }
    }

    /// Chooses [`NcBlitter::Pixel`] for the blitter.
    pub fn pixel(self) -> (r: Self)
        ensures
            r@ == self@.with_blitter(NcBlitter::Pixel),
    {
        NcVisualOptionsBuilder { blitter: NcBlitter::Pixel, ..self }
    }

    /// Chooses the color to be considered transparent, or none.
    ///
    /// Effect: (un)sets the transparent color and the `ADDALPHA` flag
    /// together.
    pub fn transcolor(self, color: Option<NcRgba>) -> (r: Self)
        ensures
            r@ == self@.with_transcolor(color),
    {
        NcVisualOptionsBuilder { transcolor: color, ..self }
    }

    /// Chooses whether to composite with the colors underneath.
    ///
    /// Effect: (un)sets the `BLEND` flag. Default: false.
    pub fn blend(self, blend: bool) -> (r: Self)
        ensures
            r@ == self@.with_blend(blend),
    {
        NcVisualOptionsBuilder { blend, ..self }
    }

    /// Chooses between degrading the blitter gracefully and failing when the
    /// chosen one is not supported by the terminal.
    ///
    /// Effect: true unsets the `NODEGRADE` flag, false sets it. Default: true.
    pub fn degrade(self, degrade: bool) -> (r: Self)
        ensures
            r@ == self@.with_degrade(degrade),
    {
        NcVisualOptionsBuilder { degrade, ..self }
    }

    /// Chooses whether to interpolate when scaling.
    ///
    /// Effect: true unsets the `NOINTERPOLATE` flag, false sets it.
    /// Default: true.
    pub fn interpolate(self, interpolate: bool) -> (r: Self)
        ensures
            r@ == self@.with_interpolate(interpolate),
    {
        NcVisualOptionsBuilder { interpolate, ..self }
    }

    /// Sets the region of the source to render:
    /// `(start_y, start_x, len_y, len_x)`. Not checked against the source.
    pub fn region(self, beg_y: NcDim, beg_x: NcDim, len_y: NcDim, len_x: NcDim) -> (r: Self)
        ensures
            r@ == self@.with_region((beg_y, beg_x, len_y, len_x)),
    {
        NcVisualOptionsBuilder { region_yx_lenyx: Some((beg_y, beg_x, len_y, len_x)), ..self }
    }

    /// Sets the pixel offset within the first cell. Not checked against the
    /// cell size.
    pub fn cell_offset(self, y: NcDim, x: NcDim) -> (r: Self)
        ensures
            r@ == self@.with_cell_offset((y, x)),
    {
        NcVisualOptionsBuilder { cell_offset_yx: Some((y, x)), ..self }
    }

    /// Finishes the building and returns the [`NcVisualOptions`].
    pub fn build(self) -> (r: NcVisualOptions<'ncplane>)
        ensures
            deref_plane(r.plane) == self@.plane,
            r.scale == self@.scale,
            r.y == self@.y.spec_slot(),
            r.x == self@.x.spec_slot(),
            r.region_yx_lenyx == self@.region_yx_lenyx,
            r.cell_offset_yx == self@.cell_offset_yx,
            r.blitter == self@.blitter,
            r.flags == self@.flags(),
            r.transcolor == self@.transcolor,
    {
        let flags = flag(!self.degrade, NCVISUAL_OPTION_NODEGRADE) | flag(
            self.blend,
            NCVISUAL_OPTION_BLEND,
        ) | flag(
            matches!(self.x, NcPlacement::Aligned(_)),
            NCVISUAL_OPTION_HORALIGNED,
        ) | flag(
            matches!(self.y, NcPlacement::Aligned(_)),
            NCVISUAL_OPTION_VERALIGNED,
        ) | flag(self.transcolor.is_some(), NCVISUAL_OPTION_ADDALPHA) | flag(
            self.child,
            NCVISUAL_OPTION_CHILDPLANE,
        ) | flag(!self.interpolate, NCVISUAL_OPTION_NOINTERPOLATE);
        NcVisualOptions {
            plane: self.plane,
            scale: self.scale,
            y: self.y.slot(),
            x: self.x.slot(),
            region_yx_lenyx: self.region_yx_lenyx,
            cell_offset_yx: self.cell_offset_yx,
            blitter: self.blitter,
            flags,
            transcolor: self.transcolor,
        }
    }
}


/// Each bit of a built descriptor's flag word is set exactly when the option
/// it stands for asks for it: `NODEGRADE` and `NOINTERPOLATE` when degrading
/// and interpolating are off, the aligned bits when the slot holds an
/// alignment, `ADDALPHA` when a transparent color is present.
pub proof fn lemma_flags_decode(v: BuilderView)
    ensures
        (v.flags() & NCVISUAL_OPTION_NODEGRADE != 0) <==> !v.degrade,
        (v.flags() & NCVISUAL_OPTION_BLEND != 0) <==> v.blend,
        (v.flags() & NCVISUAL_OPTION_HORALIGNED != 0) <==> v.x is Aligned,
        (v.flags() & NCVISUAL_OPTION_VERALIGNED != 0) <==> v.y is Aligned,
        (v.flags() & NCVISUAL_OPTION_ADDALPHA != 0) <==> v.transcolor is Some,
        (v.flags() & NCVISUAL_OPTION_CHILDPLANE != 0) <==> v.child,
        (v.flags() & NCVISUAL_OPTION_NOINTERPOLATE != 0) <==> !v.interpolate,
        v.flags() & !0x7fu32 == 0,
{
    let a = flag_bit(!v.degrade, NCVISUAL_OPTION_NODEGRADE);
    let b = flag_bit(v.blend, NCVISUAL_OPTION_BLEND);
    let c = flag_bit(v.x is Aligned, NCVISUAL_OPTION_HORALIGNED);
    let d = flag_bit(v.y is Aligned, NCVISUAL_OPTION_VERALIGNED);
    let e = flag_bit(v.transcolor is Some, NCVISUAL_OPTION_ADDALPHA);
    let f = flag_bit(v.child, NCVISUAL_OPTION_CHILDPLANE);
    let g = flag_bit(!v.interpolate, NCVISUAL_OPTION_NOINTERPOLATE);
    assert({
        let w = a | b | c | d | e | f | g;
        &&& (w & 0x1 != 0) <==> a == 0x1
        &&& (w & 0x2 != 0) <==> b == 0x2
        &&& (w & 0x4 != 0) <==> c == 0x4
        &&& (w & 0x8 != 0) <==> d == 0x8
        &&& (w & 0x10 != 0) <==> e == 0x10
        &&& (w & 0x20 != 0) <==> f == 0x20
        &&& (w & 0x40 != 0) <==> g == 0x40
        &&& w & !0x7fu32 == 0
    }) by (bit_vector)
        requires
            a == 0 || a == 0x1,
            b == 0 || b == 0x2,
            c == 0 || c == 0x4,
            d == 0 || d == 0x8,
            e == 0 || e == 0x10,
            f == 0 || f == 0x20,
            g == 0 || g == 0x40,
    ;
}

/// An aligned bit is set exactly when the last call that touched its axis set
/// an alignment: a coordinate on the axis clears it, an alignment sets it and
/// leaves the alignment's code in the slot, and the other calls leave the
/// slot, hence the bit, as it was.
pub proof fn lemma_aligned_flags_track_placement(v: BuilderView, n: NcOffset, a: NcAlign)
    ensures
        (v.flags() & NCVISUAL_OPTION_VERALIGNED != 0) <==> v.y is Aligned,
        (v.flags() & NCVISUAL_OPTION_HORALIGNED != 0) <==> v.x is Aligned,
        v.with_y(NcPlacement::Coord(n)).flags() & NCVISUAL_OPTION_VERALIGNED == 0,
        v.with_y(NcPlacement::Coord(n)).y.spec_slot() == n,
        v.with_y(NcPlacement::Aligned(a)).flags() & NCVISUAL_OPTION_VERALIGNED != 0,
        v.with_y(NcPlacement::Aligned(a)).y.spec_slot() == a.spec_code(),
        v.with_x(NcPlacement::Coord(n)).flags() & NCVISUAL_OPTION_HORALIGNED == 0,
        v.with_x(NcPlacement::Coord(n)).x.spec_slot() == n,
        v.with_x(NcPlacement::Aligned(a)).flags() & NCVISUAL_OPTION_HORALIGNED != 0,
        v.with_x(NcPlacement::Aligned(a)).x.spec_slot() == a.spec_code(),
        v.with_x(NcPlacement::Coord(n)).y == v.y,
        v.with_x(NcPlacement::Aligned(a)).y == v.y,
        v.with_y(NcPlacement::Coord(n)).x == v.x,
        v.with_y(NcPlacement::Aligned(a)).x == v.x,
{
    lemma_flags_decode(v);
    lemma_flags_decode(v.with_y(NcPlacement::Coord(n)));
    lemma_flags_decode(v.with_y(NcPlacement::Aligned(a)));
    lemma_flags_decode(v.with_x(NcPlacement::Coord(n)));
    lemma_flags_decode(v.with_x(NcPlacement::Aligned(a)));
}

/// A transparent color sets `ADDALPHA` and is kept; choosing none afterwards
/// clears both the color and the bit.
pub proof fn lemma_transcolor_sets_alpha(v: BuilderView, color: NcRgba)
    ensures
        v.with_transcolor(Some(color)).flags() & NCVISUAL_OPTION_ADDALPHA != 0,
        v.with_transcolor(Some(color)).transcolor == Some(color),
        v.with_transcolor(Some(color)).with_transcolor(None).flags() & NCVISUAL_OPTION_ADDALPHA
            == 0,
        v.with_transcolor(Some(color)).with_transcolor(None).transcolor is None,
{
    lemma_flags_decode(v.with_transcolor(Some(color)));
    lemma_flags_decode(v.with_transcolor(Some(color)).with_transcolor(None));
}

/// Degrading and interpolating map to their bits inverted, each independently
/// of the other: true clears the bit, false sets it.
pub proof fn lemma_degrade_interpolate_inverted(v: BuilderView, on: bool)
    ensures
        (v.with_degrade(on).flags() & NCVISUAL_OPTION_NODEGRADE == 0) <==> on,
        (v.with_interpolate(on).flags() & NCVISUAL_OPTION_NOINTERPOLATE == 0) <==> on,
        (v.with_degrade(on).flags() & NCVISUAL_OPTION_NOINTERPOLATE == 0) <==> (v.flags()
            & NCVISUAL_OPTION_NOINTERPOLATE == 0),
        (v.with_interpolate(on).flags() & NCVISUAL_OPTION_NODEGRADE == 0) <==> (v.flags()
            & NCVISUAL_OPTION_NODEGRADE == 0),
        BuilderView::initial().flags() & NCVISUAL_OPTION_NODEGRADE == 0,
        BuilderView::initial().flags() & NCVISUAL_OPTION_NOINTERPOLATE == 0,
{
    lemma_flags_decode(v);
    lemma_flags_decode(v.with_degrade(on));
    lemma_flags_decode(v.with_interpolate(on));
    lemma_flags_decode(BuilderView::initial());
}

/// Making the same call twice leaves the builder, hence the descriptor built
/// from it, as making it once does.
pub proof fn lemma_setters_idempotent(
    v: BuilderView,
    plane: NcPlane,
    flag: bool,
    scale: NcScale,
    p: NcPlacement,
    blitter: NcBlitter,
    color: Option<NcRgba>,
    region: (NcDim, NcDim, NcDim, NcDim),
    offset: (NcDim, NcDim),
)
    ensures
        v.with_plane(plane).with_plane(plane) == v.with_plane(plane),
        v.with_child(flag).with_child(flag) == v.with_child(flag),
        v.with_plane(plane).with_child(true).with_plane(plane).with_child(true) == v.with_plane(
            plane,
        ).with_child(true),
        v.without_plane().without_plane() == v.without_plane(),
        v.with_scale(scale).with_scale(scale) == v.with_scale(scale),
        v.with_y(p).with_y(p) == v.with_y(p),
        v.with_x(p).with_x(p) == v.with_x(p),
        v.with_blitter(blitter).with_blitter(blitter) == v.with_blitter(blitter),
        v.with_transcolor(color).with_transcolor(color) == v.with_transcolor(color),
        v.with_blend(flag).with_blend(flag) == v.with_blend(flag),
        v.with_degrade(flag).with_degrade(flag) == v.with_degrade(flag),
        v.with_interpolate(flag).with_interpolate(flag) == v.with_interpolate(flag),
        v.with_region(region).with_region(region) == v.with_region(region),
        v.with_cell_offset(offset).with_cell_offset(offset) == v.with_cell_offset(offset),
{
}

} // verus!
