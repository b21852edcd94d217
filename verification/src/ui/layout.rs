//! Measures of the screen: margins of a centred popup, and the blank lines
//! above a vertically centred text.

use vstd::prelude::*;

verus! {

/// The whole of a length, in percent.
pub const TOTAL_PERCENTAGE: u16 = 100;

/// The share of the width that a popup takes, in percent.
pub const POPUP_WIDTH_PERCENT: u16 = 60;

/// The share of the height that a popup takes, in percent.
pub const POPUP_HEIGHT_PERCENT: u16 = 20;

/// The margin, in percent, on either side of a part that takes `percent` of
/// a length and is centred in it: half of what the part leaves, rounded
/// down. A part of more than the whole has no margin.
pub open spec fn margin_of(percent: u16) -> u16 {
    if percent >= TOTAL_PERCENTAGE {
        0
    } else {
        ((TOTAL_PERCENTAGE - percent) / 2) as u16
    }
}

/// The blank lines above a text of `lines` lines that is centred in `height`
/// rows: half of the rows the text leaves, rounded down; none where the text
/// fills the rows or does not fit.
pub open spec fn padding_of(lines: nat, height: u16) -> nat {
    if lines >= height {
        0
    } else {
        ((height - lines) / 2) as nat
    }
}

/// The margin on either side of a centred part that takes `percent` of a
/// length.
pub fn centered_margin(percent: u16) -> (margin: u16)
    ensures
        margin == margin_of(percent),
        percent <= TOTAL_PERCENTAGE ==> margin + percent + margin <= TOTAL_PERCENTAGE,
{
    if percent >= TOTAL_PERCENTAGE {
        0
    } else {
        (TOTAL_PERCENTAGE - percent) / 2
    }
}

/// The number of blank lines to put above a text of `lines` lines so that it
/// stands centred in `height` rows.
pub fn pad_vertical(lines: usize, height: u16) -> (padding: usize)
    ensures
        padding == padding_of(lines as nat, height),
        padding + lines <= height || padding == 0,
{
    if lines >= height as usize {
        0
    } else {
        (height as usize - lines) / 2
    }
}

} // verus!
