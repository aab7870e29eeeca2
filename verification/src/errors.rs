//! Error types of the audit.
//!
//! A failed primary listing call is fatal on its own. Failures of individual
//! detail fetches inside a fan-out stage are collected, and once the stage
//! has completed they abort the whole run as one aggregated error that names
//! every underlying failure: a partial report is never an accepted outcome.

use vstd::prelude::*;

verus! {

/// One failed per-entity fetch inside a fan-out stage: which operation was
/// called, the identifying key it was called with (when one was known), and
/// the transport's own message.
#[derive(Debug, PartialEq, Eq)]
pub struct FetchFailure {
    pub operation: String,
    pub key: Option<String>,
    pub message: String,
}

/// A fatal outcome of an audit pipeline run.
#[derive(Debug, PartialEq, Eq)]
pub enum AuditError {
    /// The primary listing call itself failed; nothing was fetched.
    ListFailure { message: String },
    /// A fan-out stage completed with one or more per-entity failures; the
    /// list holds every one of them, in the order they were collected.
    AggregatedFailure { failures: Vec<FetchFailure> },
}

/// The failures among a sequence of per-entity fetch results, in order.
pub open spec fn spec_failures<T>(rs: Seq<Result<T, FetchFailure>>) -> Seq<FetchFailure>
    decreases rs.len(),
{
    if rs.len() == 0 {
        Seq::empty()
    } else {
        match rs.last() {
            Ok(_) => spec_failures(rs.drop_last()),
            Err(e) => spec_failures(rs.drop_last()).push(e),
        }
    }
}

/// A fan-out stage ends without failures exactly when every one of its
/// per-entity fetches succeeded: one failed fetch is enough to fail the
/// stage, however many others succeeded.
pub proof fn lemma_no_failures_means_all_ok<T>(rs: Seq<Result<T, FetchFailure>>)
    ensures
        (spec_failures(rs).len() == 0) <==> (forall|i: int|
            0 <= i < rs.len() ==> rs[i] is Ok),
    decreases rs.len(),
{
    if rs.len() > 0 {
        lemma_no_failures_means_all_ok(rs.drop_last());
        assert(forall|i: int| 0 <= i < rs.len() - 1 ==> rs.drop_last()[i] == rs[i]);
        assert(rs.last() == rs[rs.len() - 1]);
    }
}

/// The aggregated error of a fan-out stage references every underlying
/// failure: whichever fetch failed, its failure record stands in the
/// collected list.
pub proof fn lemma_every_failure_is_reported<T>(rs: Seq<Result<T, FetchFailure>>, i: int)
    requires
        0 <= i < rs.len(),
        rs[i] is Err,
    ensures
        spec_failures(rs).contains(rs[i]->Err_0),
    decreases rs.len(),
{
    let x = rs[i]->Err_0;
    let init = spec_failures(rs.drop_last());
    if i == rs.len() - 1 {
        assert(rs.last() == rs[i]);
        assert(spec_failures(rs) == init.push(x));
        assert(spec_failures(rs)[init.len() as int] == x);
    } else {
        lemma_every_failure_is_reported(rs.drop_last(), i);
        assert(rs.drop_last()[i] == rs[i]);
        let j = choose|j: int| 0 <= j < init.len() && init[j] == x;
        if rs.last() is Err {
            assert(spec_failures(rs) == init.push(rs.last()->Err_0));
        } else {
            assert(spec_failures(rs) == init);
        }
        assert(spec_failures(rs)[j] == x);
    }
}

} // verus!
