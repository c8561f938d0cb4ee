//! The kinds of request the viewer serves.

use vstd::prelude::*;

verus! {

/// What the viewer is asked to do.
#[derive(Debug, Clone, Copy, PartialEq, Eq, Structural)]
pub enum CommandType {
    Head,
    Tail,
    ColumnName,
    ColumnIndex,
    Help,
}

} // verus!
