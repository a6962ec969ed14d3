//! The device strategy: the size that the terminal driver reports for
//! standard output.

use vstd::prelude::*;
use crate::size::{Height, Width};

verus! {

/// What the terminal driver writes when it is asked for the window size.
///
/// Only the rows and the columns are read; the two pixel fields are carried
/// and ignored.
#[derive(Debug, Copy, Clone, PartialEq, Eq, Structural)]
pub struct WinSize {
    /// Rows, in characters.
    pub ws_row: u16,
    /// Columns, in characters.
    pub ws_col: u16,
    /// Width, in pixels.
    pub ws_xpixel: u16,
    /// Height, in pixels.
    pub ws_ypixel: u16,
}

/// A raw field made safe to read as a count: itself where it is strictly
/// positive, and 0 otherwise.
pub open spec fn normalized(raw: int) -> int {
    if raw > 0 {
        raw
    } else {
        0
    }
}

/// The size that a report stands for: its columns, then its rows, each
/// normalized.
pub open spec fn reported_size(report: WinSize) -> (Width, Height) {
    (
        Width(normalized(report.ws_col as int) as u16),
        Height(normalized(report.ws_row as int) as u16),
    )
}

/// The answer of the device strategy: nothing without a terminal, and with
/// one the size that its report stands for, zeros included.
pub open spec fn device_size(device: Option<WinSize>) -> Option<(Width, Height)> {
    match device {
        Some(report) => Some(reported_size(report)),
        None => None,
    }
}

/// A normalized field is never negative, is 0 for every raw value that is not
/// strictly positive, and is the raw value otherwise.
pub proof fn lemma_normalized_clamps_at_zero(raw: int)
    ensures
        normalized(raw) >= 0,
        raw <= 0 ==> normalized(raw) == 0,
        raw > 0 ==> normalized(raw) == raw,
{
}

/// A report's size is its columns and rows as they stand: a field of 16
/// unsigned bits is its own normalized value, and a report that was never
/// filled in, all zeros, stands for no columns and no rows.
pub proof fn lemma_reported_size_keeps_fields(report: WinSize)
    ensures
        reported_size(report) == (Width(report.ws_col), Height(report.ws_row)),
        report.ws_col == 0 && report.ws_row == 0 ==> reported_size(report) == (
            Width(0u16),
            Height(0u16),
        ),
{
}

/// The size of the terminal as the driver reports it.
///
/// `device` is `None` where standard output is no terminal, and otherwise
/// holds the report that the driver filled in. Without a terminal there is
/// nothing to measure and the answer is `None`. With one the answer is always
/// present: the columns and rows of the report, each normalized, even where
/// both are 0. Whether a size of zeros is worth anything is for the caller
/// to decide.
pub fn terminal_size_using_fd(device: Option<WinSize>) -> (size: Option<(Width, Height)>)
    ensures
        size == device_size(device),
        device is None <==> size is None,
{
    match device {
        None => None,
        Some(report) => {
            let rows: u16 = if report.ws_row > 0 {
                report.ws_row
            } else {
                0
            };
            let cols: u16 = if report.ws_col > 0 {
                report.ws_col
            } else {
                0
            };
            Some((Width(cols), Height(rows)))
        },
    }
}

} // verus!
