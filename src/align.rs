//! Alignment of a run of cells inside the space available along one axis.

use vstd::prelude::*;

verus! {

/// Signed offset along one axis, in cells.
pub type NcOffset = i32;

/// Alignment intent along one axis.
///
/// Horizontally the variants read as left, center, right; vertically as
/// top, center, bottom ([`NcAlign::TOP`], [`NcAlign::BOTTOM`]).
#[derive(Clone, Copy, Debug, PartialEq, Eq, Structural)]
pub enum NcAlign {
    Left,
    Center,
    Right,
}

impl NcAlign {
    /// Anchored at the top edge (the vertical name of [`NcAlign::Left`]).
    pub const TOP: NcAlign = NcAlign::Left;

    /// Anchored at the bottom edge (the vertical name of [`NcAlign::Right`]).
    pub const BOTTOM: NcAlign = NcAlign::Right;

    /// The numeric code of the alignment, as stored in a placement slot.
    pub open spec fn spec_code(self) -> NcOffset {
        match self {
            NcAlign::Left => 1,
            NcAlign::Center => 2,
            NcAlign::Right => 3,
        }
    }

    /// Returns the numeric code of the alignment: 1 left/top, 2 center,
    /// 3 right/bottom.
    pub fn code(self) -> (r: NcOffset)
        ensures
            r == self.spec_code(),
    {
        match self {
            NcAlign::Left => 1,
            NcAlign::Center => 2,
            NcAlign::Right => 3,
        }
    }
}

/// The offset at which `cols` cells start inside `availcols` cells.
pub open spec fn align_offset(availcols: int, align: NcAlign, cols: int) -> int {
    if align == NcAlign::Left || cols > availcols {
        0
    } else if align == NcAlign::Center {
        (availcols - cols) / 2
    } else {
        availcols - cols
    }
}

/// Returns the offset into `availcols` at which `cols` ought to be output
/// given the requirements of `align`.
///
/// Left-anchored content, and content longer than the space available, start
/// at `0`; centered content starts at the floor of half the spare space;
/// right-anchored content ends at the far edge.
pub fn notcurses_align(availcols: i32, align: NcAlign, cols: i32) -> (r: i32)
    requires
        availcols - cols <= i32::MAX,
    ensures
        r == align_offset(availcols as int, align, cols as int),
{
    if align == NcAlign::Left {
        return 0;
    }
    if cols > availcols {
        return 0;
    }
    if align == NcAlign::Center {
        return (availcols - cols) / 2;
    }
    availcols - cols
}

/// Left-anchored content starts at `0`; content longer than the space
/// available starts at `0` whatever the alignment; otherwise centered content
/// starts at the floor of half the spare space, and right-anchored content at
/// the spare space itself.
pub proof fn lemma_align_offset(availcols: int, cols: int)
    requires
        availcols >= 0,
        cols >= 0,
    ensures
        align_offset(availcols, NcAlign::Left, cols) == 0,
        cols > availcols ==> align_offset(availcols, NcAlign::Center, cols) == 0
            && align_offset(availcols, NcAlign::Right, cols) == 0,
        cols <= availcols ==> align_offset(availcols, NcAlign::Center, cols) == (availcols
            - cols) / 2,
        cols <= availcols ==> align_offset(availcols, NcAlign::Right, cols) == availcols - cols,
        0 <= align_offset(availcols, NcAlign::Center, cols) <= availcols,
        0 <= align_offset(availcols, NcAlign::Right, cols) <= availcols,
{
}

} // verus!
