//! Proof-of-work search over a range of nonces.
use vstd::prelude::*;
use crate::transaction::{work_valid, RaiWork};
use crate::types::Work;

verus! {

/// Tries the nonces `first`, `first + 1`, ... below `last` on `tx`, and
/// returns the first one that is valid work; `None` where none in the range is.
pub fn search_work<T: RaiWork>(tx: &T, first: u64, last: u64) -> (r: Option<Work>)
    ensures
        match r {
            Some(w) => first <= w.0 < last && work_valid(w, tx.work_element_bytes())
                && forall|n: u64| first <= n < w.0 ==> !work_valid(Work(n), tx.work_element_bytes()),
            None => forall|n: u64| first <= n < last ==> !work_valid(Work(n), tx.work_element_bytes()),
        },
{
    let mut n: u64 = first;
    while n < last
        invariant
            first <= n,
            forall|m: u64| first <= m < n ==> !work_valid(Work(m), tx.work_element_bytes()),
        decreases last - n,
    {
        let w = Work(n);
        if tx.work_calculate(w).verify() {
            return Some(w);
        }
        n = n + 1;
    }
    None
}

} // verus!
