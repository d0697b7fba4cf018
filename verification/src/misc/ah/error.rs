//! Errors of the catalogue operations.

use vstd::prelude::*;

verus! {

/// Why a catalogue operation failed. Database and cache failures carry the
/// text of the underlying error.
#[derive(Debug)]
pub enum Error {
    SqlxError { message: String },
    RedisError { message: String },
    OperationFailed { msg: &'static str },
}

} // verus!
