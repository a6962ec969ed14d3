//! The environment strategy: the size that the variables `COLUMNS` and
//! `LINES` name.
//!
//! A value is taken as the bytes that the process environment holds, so a
//! value that is not even text is malformed like any other that is no
//! numeral.

use vstd::prelude::*;
use crate::decimal::{parse_u16, parsed_u16};
use crate::size::{Height, Width};

verus! {

/// The name of the variable that holds the columns.
pub const COLUMNS: &'static str = "COLUMNS";

/// The name of the variable that holds the rows.
pub const LINES: &'static str = "LINES";

/// The variable whose value is set and names no 16-bit count.
#[derive(Debug, Copy, Clone, PartialEq, Eq, Structural)]
pub enum MalformedEnvironmentValue {
    /// `COLUMNS` is malformed.
    Columns,
    /// `COLUMNS` is in order and `LINES` is malformed.
    Lines,
}

/// A value as contracts see it: its bytes where the variable is set.
pub open spec fn text_of(value: Option<&[u8]>) -> Option<Seq<u8>> {
    match value {
        Some(bytes) => Some(bytes@),
        None => None,
    }
}

/// The count of one variable: 0 where it is unset, the count that its value
/// names where it is set, and nothing where it is set to anything else.
pub open spec fn variable_count(value: Option<Seq<u8>>) -> Option<u16> {
    match value {
        Some(text) => parsed_u16(text),
        None => Some(0u16),
    }
}

/// The answer of the environment strategy.
///
/// `COLUMNS` is looked at first, so where both values are malformed the error
/// names `COLUMNS`. Two counts of 0 are no size at all; one count of 0 beside
/// another that is not stays as it is.
pub open spec fn environment_size(
    columns: Option<Seq<u8>>,
    lines: Option<Seq<u8>>,
) -> Result<Option<(Width, Height)>, MalformedEnvironmentValue> {
    match (variable_count(columns), variable_count(lines)) {
        (None, _) => Err(MalformedEnvironmentValue::Columns),
        (Some(_), None) => Err(MalformedEnvironmentValue::Lines),
        (Some(c), Some(r)) => if c == 0 && r == 0 {
            Ok(None)
        } else {
            Ok(Some((Width(c), Height(r))))
        },
    }
}

/// The count of one variable, from its value where it is set.
///
/// An unset variable counts 0. A set one must hold a numeral that fits in 16
/// bits; `None` says that it does not.
pub fn count_from_value(value: Option<&[u8]>) -> (count: Option<u16>)
    ensures
        count == variable_count(text_of(value)),
{
    match value {
        Some(bytes) => parse_u16(bytes),
        None => Some(0),
    }
}

/// The size of the terminal as the environment names it.
///
/// `columns` and `lines` are the values of `COLUMNS` and `LINES`, `None`
/// where the variable is unset. The answer is `Ok(None)` where both counts
/// are 0, which covers two unset variables, and otherwise the two counts as
/// they are, also where one of them is 0. A value that is set and malformed
/// is an error, that of `COLUMNS` first; nothing is put in its place.
pub fn terminal_size_using_env(
    columns: Option<&[u8]>,
    lines: Option<&[u8]>,
) -> (size: Result<Option<(Width, Height)>, MalformedEnvironmentValue>)
    ensures
        size == environment_size(text_of(columns), text_of(lines)),
        (size matches Err(MalformedEnvironmentValue::Columns)) <==> (variable_count(
            text_of(columns),
        ) is None),
        (size matches Err(MalformedEnvironmentValue::Lines)) <==> ((variable_count(
            text_of(columns),
        ) is Some) && (variable_count(text_of(lines)) is None)),
        (size matches Ok(None)) <==> (variable_count(text_of(columns)) == Some(0u16)
            && variable_count(text_of(lines)) == Some(0u16)),
{
    let c: u16 = match count_from_value(columns) {
        Some(count) => count,
        None => {
            return Err(MalformedEnvironmentValue::Columns);
        },
    };
    let r: u16 = match count_from_value(lines) {
        Some(count) => count,
        None => {
            return Err(MalformedEnvironmentValue::Lines);
        },
    };
    if r == 0 && c == 0 {
        Ok(None)
    } else {
        Ok(Some((Width(c), Height(r))))
    }
}

} // verus!
