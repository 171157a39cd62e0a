//! What the request handlers learn of a failed database query.

use vstd::prelude::*;

verus! {

/// A database query that failed, with the text of its error.
pub struct DbError {
    pub message: String,
}

} // verus!
