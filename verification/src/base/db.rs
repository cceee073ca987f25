//! How a unit of work on a transaction ends.
use vstd::prelude::*;

verus! {

/// How a transaction ends.
#[derive(Clone, Copy, Debug, PartialEq, Eq, Structural)]
pub enum TxEnd {
    Commit,
    Rollback,
}

/// A unit of work that succeeded is committed, one that failed is rolled
/// back.
pub open spec fn tx_end_spec<R, E>(outcome: Result<R, E>) -> TxEnd {
    match outcome {
        Ok(_) => TxEnd::Commit,
        Err(_) => TxEnd::Rollback,
    }
}

pub fn tx_end_for<R, E>(outcome: &Result<R, E>) -> (r: TxEnd)
    ensures
        r == tx_end_spec(*outcome),
{
    match outcome {
        Ok(_) => TxEnd::Commit,
        Err(_) => TxEnd::Rollback,
    }
}

/// The answer of a unit of work once its transaction has ended: its own
/// outcome, or `failure` when ending the transaction failed.
pub fn after_end<R, E>(outcome: Result<R, E>, ended: bool, failure: E) -> (r: Result<R, E>)
    ensures
        ended ==> r == outcome,
        !ended ==> r == Err::<R, E>(failure),
{
    if ended {
        outcome
    } else {
        Err(failure)
    }
}

} // verus!
