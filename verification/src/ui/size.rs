//! The smallest terminal the screen fits in, and what is said to a user
//! whose terminal is smaller.

use crate::utils::text::{decimal, decimal_text};
use vstd::prelude::*;
use vstd::string::StringExecFns;

verus! {

/// The fewest columns the screen needs.
pub const MIN_WIDTH: u16 = 110;

/// The fewest rows the screen needs.
pub const MIN_HEIGHT: u16 = 30;

/// Whether a terminal of this size is too small for the screen.
pub open spec fn too_small(width: u16, height: u16) -> bool {
    width < MIN_WIDTH || height < MIN_HEIGHT
}

/// The line that states a size.
pub open spec fn size_line(width: u16, height: u16) -> Seq<char> {
    "Width = "@ + decimal(width as nat) + " Height = "@ + decimal(height as nat)
}

/// The warning shown in a terminal of the given size that is too small: the
/// size it has, and the size the screen needs.
pub open spec fn warning_lines(width: u16, height: u16) -> Seq<Seq<char>> {
    seq![
        "Terminal size too small:"@,
        size_line(width, height),
        ""@,
        "Needed to display properly:"@,
        size_line(MIN_WIDTH, MIN_HEIGHT),
    ]
}

/// Tells whether a terminal of this size is too small for the screen.
pub fn is_terminal_too_small(width: u16, height: u16) -> (small: bool)
    ensures
        small == too_small(width, height),
{
    width < MIN_WIDTH || height < MIN_HEIGHT
}

/// Writes the line that states a size.
pub fn format_warning_line(width: u16, height: u16) -> (line: String)
    ensures
        line@ == size_line(width, height),
{
    let line = String::from_str("Width = ")
        .concat(decimal_text(width as u64).as_str())
        .concat(" Height = ")
        .concat(decimal_text(height as u64).as_str());
    assert(line@ =~= size_line(width, height));
    line
}

/// Writes the warning for a terminal of the given size.
pub fn create_warning_text(width: u16, height: u16) -> (lines: Vec<String>)
    ensures
        lines@.map_values(|line: String| line@) == warning_lines(width, height),
{
    let mut lines: Vec<String> = Vec::new();
    lines.push(String::from_str("Terminal size too small:"));
    lines.push(format_warning_line(width, height));
    lines.push(String::from_str(""));
    lines.push(String::from_str("Needed to display properly:"));
    lines.push(format_warning_line(MIN_WIDTH, MIN_HEIGHT));
    assert(lines@.map_values(|line: String| line@) =~= warning_lines(width, height));
    lines
}

} // verus!
