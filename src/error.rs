//! The ways a request can fail.

use vstd::prelude::*;

verus! {

/// Why a table could not be shown.
#[derive(Debug, Clone, Copy, PartialEq, Eq, Structural)]
pub enum ViewError {
    /// The input could not be decoded into records.
    MalformedRecord,
    /// A column was named but the table has no header.
    MissingHeader,
    /// No header field equals the requested column name.
    ColumnNotFound,
    /// The column index lies outside a row that must supply it.
    OutOfRange,
    /// The configuration does not describe a request of this kind.
    InvalidRequest,
}

} // verus!
