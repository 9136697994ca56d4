//! A worker: it shuffles its own copy of the URL list, then requests each
//! URL of it in turn, and starts over, until a fatal outcome stops it.
use crate::transfer::{RequestOutcome, connect_failure_outcome};
use rand::seq::SliceRandom;
use vstd::prelude::*;

verus! {

/// Where a worker stands in its cycle.
#[derive(Debug, Clone, Copy, PartialEq, Eq, Structural)]
pub enum Phase {
    /// The list is to be shuffled before the next pass.
    Shuffle,
    /// The URL at `next` is the next to be requested in this pass.
    Ready { next: usize },
    /// The URL at `index` has been handed out and its outcome is awaited.
    Awaiting { index: usize },
    /// A fatal outcome ended the worker.
    Stopped,
}

/// What a worker asks of its driver.
#[derive(Debug, Clone, PartialEq, Eq)]
pub enum Step {
    /// The list was shuffled for a new pass.
    Shuffled,
    /// Request this URL and report its outcome.
    Fetch { url: String },
    /// Every URL of the pass has been requested.
    PassComplete,
    /// The worker has ended and asks for nothing more.
    Stopped,
}

/// One log record: which worker, what the request came to, how long it took.
#[derive(Debug, Clone, PartialEq, Eq)]
pub struct Record {
    pub worker: usize,
    pub outcome: RequestOutcome,
    pub elapsed_nanos: u64,
}

pub struct Worker {
    id: usize,
    urls: Vec<String>,
    phase: Phase,
    config: Ghost<Seq<String>>,
    pass: Ghost<Seq<String>>,
}

/// Relies on rand's `SliceRandom::shuffle` over the thread-local generator:
/// it only swaps elements, so the list afterwards is a permutation of the
/// list before.
#[verifier::external_body]
fn shuffle_urls(urls: &mut Vec<String>)
    ensures
        final(urls)@.to_multiset() == old(urls)@.to_multiset(),
{
    urls.shuffle(&mut rand::thread_rng());
}

/// The phase that follows the outcome of the request being awaited.
pub open spec fn phase_after(phase: Phase, outcome: RequestOutcome) -> Phase {
    match phase {
        Phase::Awaiting { index } => match outcome {
            RequestOutcome::Completed { .. } => Phase::Ready { next: (index + 1) as usize },
            RequestOutcome::Fatal { .. } => Phase::Stopped,
        },
        _ => phase,
    }
}

impl Worker {
    /// The worker's identity, used to attribute its records.
    pub closed spec fn id_spec(&self) -> usize {
        self.id
    }

    /// The worker's list in its current order.
    pub closed spec fn urls(&self) -> Seq<String> {
        self.urls@
    }

    pub closed spec fn phase(&self) -> Phase {
        self.phase
    }

    /// The list the worker was given.
    pub closed spec fn config(&self) -> Seq<String> {
        self.config@
    }

    /// The URLs handed out in the current pass, in order.
    pub closed spec fn pass(&self) -> Seq<String> {
        self.pass@
    }

    pub closed spec fn wf(&self) -> bool {
        &&& self.urls@.to_multiset() == self.config@.to_multiset()
        &&& match self.phase {
            Phase::Ready { next } => next <= self.urls@.len() && self.pass@ == self.urls@.take(
                next as int,
            ),
            Phase::Awaiting { index } => index < self.urls@.len() && self.pass@
                == self.urls@.take(index + 1),
            _ => true,
        }
    }

    /// A worker with identity `id` over its own list `urls`, about to shuffle.
    pub fn new(id: usize, urls: Vec<String>) -> (r: Worker)
        ensures
            r.wf(),
            r.id_spec() == id,
            r.config() == urls@,
            r.urls() == urls@,
            r.phase() == Phase::Shuffle,
            r.pass() == Seq::<String>::empty(),
    {
        let ghost config = urls@;
        Worker { id, urls, phase: Phase::Shuffle, config: Ghost(config), pass: Ghost(Seq::empty()) }
    }

    pub fn id(&self) -> (r: usize)
        ensures
            r == self.id_spec(),
    {
        self.id
    }

    /// Whether the worker waits for the outcome of a request.
    pub fn is_awaiting(&self) -> (r: bool)
        ensures
            r == self.phase() is Awaiting,
    {
        matches!(self.phase, Phase::Awaiting { .. })
    }

    /// Moves the cycle on by one step: shuffle before a pass, hand out the
    /// next URL of the pass, or close the pass once every URL was handed out.
    /// A stopped worker stays stopped and asks for nothing.
    pub fn advance(&mut self) -> (r: Step)
        requires
            old(self).wf(),
            !(old(self).phase() is Awaiting),
        ensures
            final(self).wf(),
            final(self).id_spec() == old(self).id_spec(),
            final(self).config() == old(self).config(),
            match old(self).phase() {
                Phase::Shuffle => {
                    &&& r == Step::Shuffled
                    &&& final(self).phase() == (Phase::Ready { next: 0 })
                    &&& final(self).pass() == Seq::<String>::empty()
                },
                Phase::Ready { next } => if next < old(self).urls().len() {
                    &&& r == (Step::Fetch { url: old(self).urls()[next as int] })
                    &&& final(self).phase() == (Phase::Awaiting { index: next })
                    &&& final(self).urls() == old(self).urls()
                    &&& final(self).pass() == old(self).pass().push(old(self).urls()[next as int])
                } else {
                    &&& r == Step::PassComplete
                    &&& old(self).pass() == old(self).urls()
                    &&& final(self).phase() == Phase::Shuffle
                    &&& final(self).urls() == old(self).urls()
                },
                _ => {
                    &&& r == Step::Stopped
                    &&& *final(self) == *old(self)
                },
            },
    {
        match self.phase {
            Phase::Shuffle => {
                shuffle_urls(&mut self.urls);
                self.phase = Phase::Ready { next: 0 };
                self.pass = Ghost(Seq::empty());
                assert(self.pass@ =~= self.urls@.take(0));
                Step::Shuffled
            },
            Phase::Ready { next } => {
                if next < self.urls.len() {
                    let url = self.urls[next].clone();
                    self.phase = Phase::Awaiting { index: next };
                    self.pass = Ghost(self.pass@.push(self.urls@[next as int]));
                    assert(self.pass@ =~= self.urls@.take(next + 1));
                    Step::Fetch { url }
                } else {
                    assert(self.pass@ =~= self.urls@);
                    self.phase = Phase::Shuffle;
                    Step::PassComplete
                }
            },
            _ => Step::Stopped,
        }
    }

    /// Takes the outcome of the request being awaited and returns its record.
    /// A completed request moves the pass on to the next URL, a connection
    /// failure included; a fatal one stops the worker.
    pub fn on_outcome(&mut self, outcome: RequestOutcome, elapsed_nanos: u64) -> (r: Record)
        requires
            old(self).wf(),
            old(self).phase() is Awaiting,
        ensures
            final(self).wf(),
            r == (Record { worker: old(self).id_spec(), outcome, elapsed_nanos }),
            final(self).phase() == phase_after(old(self).phase(), outcome),
            final(self).id_spec() == old(self).id_spec(),
            final(self).config() == old(self).config(),
            final(self).urls() == old(self).urls(),
            final(self).pass() == old(self).pass(),
    {
        match &outcome {
            RequestOutcome::Completed { .. } => {
                if let Phase::Awaiting { index } = self.phase {
                    assert(index < self.urls.len());
                    self.phase = Phase::Ready { next: index + 1 };
                }
            },
            RequestOutcome::Fatal { .. } => {
                self.phase = Phase::Stopped;
            },
        }
        Record { worker: self.id, outcome, elapsed_nanos }
    }

    /// Whether a fatal outcome has ended the worker.
    pub fn is_stopped(&self) -> (r: bool)
        ensures
            r == (self.phase() == Phase::Stopped),
    {
        matches!(self.phase, Phase::Stopped)
    }
}

/// A pass requests each URL of the worker's list exactly once: when a pass
/// has reached its end, the URLs handed out in it are the given list in some
/// order, each as often as it was given.
pub proof fn lemma_pass_visits_each_once(w: Worker, next: usize)
    requires
        w.wf(),
        w.phase() == (Phase::Ready { next }),
        next == w.urls().len(),
    ensures
        w.pass().to_multiset() == w.config().to_multiset(),
        w.pass().len() == w.config().len(),
{
    broadcast use vstd::seq_lib::group_to_multiset_ensures;

    assert(w.urls().take(next as int) =~= w.urls());
    assert(w.urls().len() == w.urls().to_multiset().len());
    assert(w.config().len() == w.config().to_multiset().len());
}

/// A connection failure does not end a worker: the request counts as zero
/// bytes and the pass goes on with the next URL.
pub proof fn lemma_connect_failure_continues(w: Worker, index: usize)
    requires
        w.wf(),
        w.phase() == (Phase::Awaiting { index }),
    ensures
        connect_failure_outcome() == (RequestOutcome::Completed { bytes: 0 }),
        phase_after(w.phase(), connect_failure_outcome()) == (Phase::Ready {
            next: (index + 1) as usize,
        }),
        index + 1 <= w.urls().len(),
{
}

/// A failure while a body streams ends the worker for good: it stops, and
/// no outcome moves a stopped worker on, so it hands out no further request
/// and yields no further record.
pub proof fn lemma_fatal_ends_worker(w: Worker, detail: String)
    requires
        w.wf(),
        w.phase() is Awaiting,
    ensures
        phase_after(w.phase(), RequestOutcome::Fatal { detail }) == Phase::Stopped,
        forall|o: RequestOutcome| phase_after(Phase::Stopped, o) == Phase::Stopped,
{
}

} // verus!
