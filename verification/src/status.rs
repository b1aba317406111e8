//! Status codes.
//!
//! Every call into the native library answers with a signed status. Zero and
//! positive values report success, negative values report an error. The
//! negative value itself belongs to the native library and is handed on as it
//! came. For a step of the journal cursor the sign says more: positive means
//! that a record was reached, zero that none is left in that direction.

use vstd::prelude::*;

verus! {

/// What one step of the journal cursor came to.
#[derive(Clone, Copy, Debug, PartialEq, Eq)]
pub enum CursorMove {
    /// The cursor stands on a record.
    Reached,
    /// No record is left in the direction of the step.
    Exhausted,
    /// The native library reported an error.
    Failed,
}

/// A status reports an error exactly when it is negative.
pub open spec fn is_error(status: i32) -> bool {
    status < 0
}

/// What a status means as the answer to a cursor step.
pub open spec fn cursor_move(status: i32) -> CursorMove {
    if status > 0 {
        CursorMove::Reached
    } else if status == 0 {
        CursorMove::Exhausted
    } else {
        CursorMove::Failed
    }
}

/// Tells whether `status` reports an error.
#[verifier::when_used_as_spec(is_error)]
pub fn status_is_error(status: i32) -> (failed: bool)
    ensures
        failed == is_error(status),
{
    status < 0
}

/// Reads `status` as the answer to a cursor step.
#[verifier::when_used_as_spec(cursor_move)]
pub fn classify_move(status: i32) -> (step: CursorMove)
    ensures
        step == cursor_move(status),
{
    if status > 0 {
        CursorMove::Reached
    } else if status == 0 {
        CursorMove::Exhausted
    } else {
        CursorMove::Failed
    }
}

/// A cursor step fails exactly when its status reports an error, and reaches
/// a record only on success.
pub proof fn lemma_move_agrees_with_status(status: i32)
    ensures
        cursor_move(status) is Failed <==> is_error(status),
        cursor_move(status) is Reached ==> !is_error(status),
        cursor_move(status) is Exhausted <==> status == 0,
{
}

} // verus!
