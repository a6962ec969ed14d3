//! The dispatcher: the device first, the environment only where the device
//! knows nothing.

use vstd::prelude::*;
use crate::device::{device_size, reported_size, terminal_size_using_fd, WinSize};
use crate::environment::{
    environment_size,
    terminal_size_using_env,
    text_of,
    variable_count,
    MalformedEnvironmentValue,
};
use crate::size::{is_degenerate, Height, Width};

verus! {

/// Whether the device strategy found a terminal that reports no columns and
/// no rows: the one answer that sends the dispatcher to the environment.
pub open spec fn device_is_silent(device: Option<WinSize>) -> bool {
    device matches Some(report) && is_degenerate(reported_size(report))
}

/// The answer of the dispatcher.
///
/// A silent device hands the question to the environment, whose answer
/// stands, error included. Any other answer of the device stands as it is,
/// and the environment is not looked at: not where there is no terminal, and
/// not where the terminal reports a column or a row.
pub open spec fn resolved_size(
    device: Option<WinSize>,
    columns: Option<Seq<u8>>,
    lines: Option<Seq<u8>>,
) -> Result<Option<(Width, Height)>, MalformedEnvironmentValue> {
    if device_is_silent(device) {
        environment_size(columns, lines)
    } else {
        Ok(device_size(device))
    }
}

/// Whether the environment has to be read to answer for `device`: only where
/// a terminal is there and reports no columns and no rows.
pub fn consults_environment(device: Option<WinSize>) -> (asked: bool)
    ensures
        asked == device_is_silent(device),
{
    match terminal_size_using_fd(device) {
        Some((Width(0), Height(0))) => true,
        _ => false,
    }
}

/// The size of the terminal behind standard output.
///
/// `device` is `None` where standard output is no terminal and otherwise
/// holds the driver's report; `columns` and `lines` are the values of
/// `COLUMNS` and `LINES`, `None` where unset. The report wins wherever it
/// holds a column or a row. Where it holds neither, the environment answers
/// in its place. Without a terminal the answer is `None` and the environment
/// is not asked. The environment can only fail where it is asked, and a size
/// of no columns and no rows is never returned.
pub fn terminal_size(
    device: Option<WinSize>,
    columns: Option<&[u8]>,
    lines: Option<&[u8]>,
) -> (size: Result<Option<(Width, Height)>, MalformedEnvironmentValue>)
    ensures
        size == resolved_size(device, text_of(columns), text_of(lines)),
        (size is Err) <==> (device_is_silent(device) && ((variable_count(text_of(columns)) is None)
            || (variable_count(text_of(lines)) is None))),
        !(size matches Ok(Some(pair)) && is_degenerate(pair)),
{
    if consults_environment(device) {
        terminal_size_using_env(columns, lines)
    } else {
        Ok(terminal_size_using_fd(device))
    }
}

/// Without a terminal there is no size. The environment does not change
/// that: not where both variables are unset or zero, and not where they name
/// a size or hold text that is no count.
pub proof fn lemma_no_terminal_no_size(columns: Option<Seq<u8>>, lines: Option<Seq<u8>>)
    ensures
        resolved_size(None, columns, lines) matches Ok(None),
{
}

/// A report that holds a column or a row is the answer, columns first, just
/// as the driver wrote it. Nothing in the environment changes it, and text
/// there that is no count does no harm.
pub proof fn lemma_report_takes_precedence(
    report: WinSize,
    columns: Option<Seq<u8>>,
    lines: Option<Seq<u8>>,
)
    requires
        report.ws_row != 0 || report.ws_col != 0,
    ensures
        resolved_size(Some(report), columns, lines) matches Ok(Some(size)) && size == (
            Width(report.ws_col),
            Height(report.ws_row),
        ),
{
}

/// A report of no columns and no rows leaves the answer to the environment,
/// whatever that answer is. With both variables unset it is that there is no
/// size.
pub proof fn lemma_silent_report_defers_to_environment(
    report: WinSize,
    columns: Option<Seq<u8>>,
    lines: Option<Seq<u8>>,
)
    requires
        report.ws_row == 0,
        report.ws_col == 0,
    ensures
        resolved_size(Some(report), columns, lines) == environment_size(columns, lines),
        resolved_size(Some(report), None, None) matches Ok(None),
{
}

/// The environment is read for a silent device and for no other: whatever
/// the two variables hold, the answer for any other device is the same.
pub proof fn lemma_environment_counts_only_for_silent_device(
    device: Option<WinSize>,
    columns: Option<Seq<u8>>,
    lines: Option<Seq<u8>>,
    other_columns: Option<Seq<u8>>,
    other_lines: Option<Seq<u8>>,
)
    requires
        !device_is_silent(device),
    ensures
        resolved_size(device, columns, lines) == resolved_size(device, other_columns, other_lines),
        resolved_size(device, columns, lines) is Ok,
{
}

/// Asking again changes nothing: as long as the driver reports the same and
/// the two variables hold the same, the answer is the same.
pub proof fn lemma_same_observation_same_size(
    first_device: Option<WinSize>,
    first_columns: Option<Seq<u8>>,
    first_lines: Option<Seq<u8>>,
    second_device: Option<WinSize>,
    second_columns: Option<Seq<u8>>,
    second_lines: Option<Seq<u8>>,
)
    requires
        first_device == second_device,
        first_columns == second_columns,
        first_lines == second_lines,
    ensures
        resolved_size(first_device, first_columns, first_lines) == resolved_size(
            second_device,
            second_columns,
            second_lines,
        ),
{
}

} // verus!
