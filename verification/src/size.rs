//! Columns and rows, each under a name of its own.

use vstd::prelude::*;

verus! {

/// A number of character columns.
#[derive(Debug, Copy, Clone, PartialEq, Eq, Structural, PartialOrd, Ord, Hash)]
pub struct Width(pub u16);

/// A number of character rows.
#[derive(Debug, Copy, Clone, PartialEq, Eq, Structural, PartialOrd, Ord, Hash)]
pub struct Height(pub u16);

/// Whether `size` is the pair of no columns and no rows, which a terminal
/// reports when it knows nothing of its window.
pub open spec fn is_degenerate(size: (Width, Height)) -> bool {
    size.0.0 == 0 && size.1.0 == 0
}

} // verus!
