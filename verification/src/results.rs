//! The aggregated-result handling: each worker appends its local outcomes
//! to a single shared collection guarded by a lock, and the owner drains
//! that collection once every worker has finished.

use vstd::prelude::*;
use std::sync::Arc;
use std::sync::Mutex;

use crate::limits::States;

verus! {

/// A worker's reaction to one outcome: a terminal outcome stops the
/// worker's stream and is not recorded; any other outcome is appended to
/// the worker's local results and the stream goes on.
pub fn record_outcome(outcome: States, local: &mut Vec<States>) -> (stop: bool)
    ensures
        stop == (outcome is Finish),
        stop ==> final(local)@ == old(local)@,
        !stop ==> final(local)@ == old(local)@.push(outcome),
{
    match outcome {
        States::Finish => true,
        state => {
            local.push(state);
            false
        },
    }
}

/// The lock that guards the shared result collection.
#[verifier::external_type_specification]
#[verifier::external_body]
#[verifier::reject_recursive_types(T)]
pub struct ExMutex<T: ?Sized>(Mutex<T>);

/// The collection that the shared lock guards.
pub uninterp spec fn mutex_contents(m: Mutex<Vec<States>>) -> Seq<States>;

/// Relies on `std::sync::Arc::try_unwrap`: returns the inner value when the
/// caller held the only strong reference, and hands the pointer back
/// untouched otherwise.
#[verifier::external_body]
fn arc_try_unwrap(v: Arc<Mutex<Vec<States>>>) -> (r: Result<
    Mutex<Vec<States>>,
    Arc<Mutex<Vec<States>>>,
>)
    ensures
        r matches Ok(m) ==> mutex_contents(m) == mutex_contents(*v),
        r matches Err(e) ==> mutex_contents(*e) == mutex_contents(*v),
{
    Arc::try_unwrap(v)
}

/// Relies on `std::sync::Mutex::into_inner`: consumes the lock and returns
/// the collection it guarded, or nothing when the lock was poisoned.
#[verifier::external_body]
fn mutex_into_inner(m: Mutex<Vec<States>>) -> (r: Option<Vec<States>>)
    ensures
        r matches Some(v) ==> v@ == mutex_contents(m),
{
    m.into_inner().ok()
}

/// Extracts the aggregated results from the shared storage. When the
/// storage is still shared by another owner, or its lock was poisoned, an
/// empty collection is returned instead: partial output is preferred over
/// a crash.
pub fn unwrap_results(results: Arc<Mutex<Vec<States>>>) -> (r: Vec<States>)
    ensures
        r@ == mutex_contents(*results) || r@ == Seq::<States>::empty(),
{
    match arc_try_unwrap(results) {
        Ok(mutex) => match mutex_into_inner(mutex) {
            Some(collected) => collected,
            None => Vec::new(),
        },
        Err(_) => Vec::new(),
    }
}

/// The numbered report lines from one result listing, starting at position
/// `i`: every in-progress entry contributes its one-based position and its
/// message; a terminal entry keeps its place in the numbering but
/// contributes no line.
pub open spec fn spec_numbered_signatures(results: Seq<States>, i: int) -> Seq<(usize, Seq<char>)>
    decreases results.len() - i,
{
    if i < 0 || results.len() <= i {
        Seq::empty()
    } else {
        match results[i] {
            States::InProgres(message) => seq![((i + 1) as usize, message@)] + spec_numbered_signatures(
                results,
                i + 1,
            ),
            States::Finish => spec_numbered_signatures(results, i + 1),
        }
    }
}

/// The report lines as mathematical values: each line's position with the
/// characters of its message.
pub open spec fn lines_view(lines: Seq<(usize, String)>) -> Seq<(usize, Seq<char>)> {
    lines.map_values(|l: (usize, String)| (l.0, l.1@))
}

/// Selects the signatures to display: each in-progress message paired with
/// its one-based position in the listing. Terminal entries produce no line
/// but keep their place in the numbering.
pub fn numbered_signatures(results: &Vec<States>) -> (lines: Vec<(usize, String)>)
    ensures
        lines_view(lines@) == spec_numbered_signatures(results@, 0),
{
    let mut lines: Vec<(usize, String)> = Vec::new();
    let mut i: usize = 0;
    while i < results.len()
        invariant
            i <= results@.len(),
            spec_numbered_signatures(results@, 0) == lines_view(lines@)
                + spec_numbered_signatures(results@, i as int),
        decreases results@.len() - i,
    {
        match &results[i] {
            States::InProgres(message) => {
                let line = (i + 1, message.clone());
                let ghost previous = lines@;
                lines.push(line);
                proof {
                    assert(lines_view(lines@) =~= lines_view(previous) + seq![
                        (line.0, line.1@),
                    ]);
                    assert(spec_numbered_signatures(results@, i as int) =~= seq![
                        (line.0, line.1@),
                    ] + spec_numbered_signatures(results@, i as int + 1));
                    assert(lines_view(lines@) + spec_numbered_signatures(results@, i as int + 1)
                        =~= spec_numbered_signatures(results@, 0));
                }
            },
            States::Finish => {},
        }
        i = i + 1;
    }
    lines
}

} // verus!
