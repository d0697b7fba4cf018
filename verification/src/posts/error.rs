//! Errors of the post operations.

use vstd::prelude::*;

verus! {

/// Why a post operation failed. Database failures carry the text of the
/// underlying error.
#[derive(Debug)]
pub enum Error {
    SqlxError { message: String },
    InvalidData { msg: &'static str },
    OperationFailed { msg: &'static str },
}

} // verus!
