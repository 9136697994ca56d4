//! The run's configuration and the workers it starts.
use crate::worker::{Phase, Worker};
use vstd::prelude::*;

verus! {

/// What a run is given: the URLs to request, and how many workers request
/// them at once.
#[derive(Debug, Clone)]
pub struct Bench {
    pub urls: Vec<String>,
    pub concurrency: usize,
}

/// A copy of `urls` that the caller owns.
fn copy_urls(urls: &Vec<String>) -> (r: Vec<String>)
    ensures
        r@ == urls@,
{
    let mut r: Vec<String> = Vec::new();
    let mut i: usize = 0;
    while i < urls.len()
        invariant
            i <= urls.len(),
            r@ == urls@.take(i as int),
        decreases urls.len() - i,
    {
        r.push(urls[i].clone());
        i = i + 1;
        assert(r@ =~= urls@.take(i as int));
    }
    assert(urls@.take(i as int) =~= urls@);
    r
}

/// The workers of a run: one for each index below `concurrency`, identified
/// by that index, each with its own copy of the URL list and about to
/// shuffle it. With a concurrency of zero there are none.
pub fn plan_workers(bench: &Bench) -> (r: Vec<Worker>)
    ensures
        r.len() == bench.concurrency,
        forall|i: int|
            0 <= i < r.len() ==> {
                &&& #[trigger] r[i].wf()
                &&& r[i].id_spec() == i
                &&& r[i].config() == bench.urls@
                &&& r[i].urls() == bench.urls@
                &&& r[i].phase() == Phase::Shuffle
                &&& r[i].pass() == Seq::<String>::empty()
            },
{
    let mut r: Vec<Worker> = Vec::new();
    let mut i: usize = 0;
    while i < bench.concurrency
        invariant
            i <= bench.concurrency,
            r.len() == i,
            forall|j: int|
                0 <= j < r.len() ==> {
                    &&& #[trigger] r[j].wf()
                    &&& r[j].id_spec() == j
                    &&& r[j].config() == bench.urls@
                    &&& r[j].urls() == bench.urls@
                    &&& r[j].phase() == Phase::Shuffle
                    &&& r[j].pass() == Seq::<String>::empty()
                },
        decreases bench.concurrency - i,
    {
        r.push(Worker::new(i, copy_urls(&bench.urls)));
        i = i + 1;
    }
    r
}

} // verus!
