//! The refresh cycle of one feed as a state machine. The caller performs the
//! action each step asks for (fetch the listing, fetch one item, rest) and
//! hands back its outcome as the next event; the machine decides what the
//! outcome changes in the feed and what to do next.
use crate::feed::{lemma_swept_keeps_page, sweep_of, FeedCache, FeedItem, FeedView};
use vstd::prelude::*;

verus! {

/// What the refresher waits for.
#[derive(Clone, Copy, Debug, PartialEq, Eq, Structural)]
pub enum RefreshPhase {
    Listing,
    Hydrating,
    Resting,
}

/// What the caller is to do next.
#[derive(Clone, Copy, Debug, PartialEq, Eq, Structural)]
pub enum RefreshAction {
    /// Fetch the feed's identifier list.
    FetchListing,
    /// Fetch the item `id`, shown at position `index`.
    FetchItem { index: usize, id: u32 },
    /// Rest for the refetch delay.
    Rest,
}

/// The outcome of the last action.
pub enum RefreshEvent {
    /// The identifier list, or `None` if fetching it failed.
    Listed(Option<Vec<u32>>),
    /// The requested item, or `None` if fetching it failed.
    Fetched(Option<FeedItem>),
    /// The rest is over.
    Rested,
}

/// The abstract state of a refresher.
pub ghost struct RefresherView {
    pub phase: RefreshPhase,
    /// The listing of the cycle under way.
    pub ids: Seq<u32>,
    /// The positions and identifiers this cycle hydrates.
    pub targets: Seq<(usize, u32)>,
    /// How many of them have been fetched.
    pub next: nat,
}

/// The refresher of one feed.
pub struct Refresher {
    phase: RefreshPhase,
    ids: Vec<u32>,
    targets: Vec<(usize, u32)>,
    next: usize,
}

impl View for Refresher {
    type V = RefresherView;

    closed spec fn view(&self) -> RefresherView {
        RefresherView {
            phase: self.phase,
            ids: self.ids@,
            targets: self.targets@,
            next: self.next as nat,
        }
    }
}

impl RefresherView {
    /// While hydrating, the next target exists.
    pub open spec fn wf(self) -> bool {
        self.phase == RefreshPhase::Hydrating ==> self.next < self.targets.len()
    }

    /// The action the phase waits on.
    pub open spec fn awaited(self) -> RefreshAction {
        match self.phase {
            RefreshPhase::Listing => RefreshAction::FetchListing,
            RefreshPhase::Hydrating => RefreshAction::FetchItem {
                index: self.targets[self.next as int].0,
                id: self.targets[self.next as int].1,
            },
            RefreshPhase::Resting => RefreshAction::Rest,
        }
    }

    /// The refresher after the cycle has ended and the rest begins.
    pub open spec fn resting(self) -> RefresherView {
        RefresherView { phase: RefreshPhase::Resting, ..self }
    }
}

/// One step of the refresher: the state of the refresher and of its feed
/// after `event` arrives in state `s` with feed `f`.
pub open spec fn transition(s: RefresherView, f: FeedView, event: RefreshEvent) -> (
    RefresherView,
    FeedView,
) {
    match (s.phase, event) {
        (RefreshPhase::Listing, RefreshEvent::Listed(None)) => (s.resting(), f.finished(None)),
        (RefreshPhase::Listing, RefreshEvent::Listed(Some(ids))) => {
            let targets = sweep_of(ids@, f.page);
            let started = RefresherView {
                phase: RefreshPhase::Hydrating,
                ids: ids@,
                targets,
                next: 0,
            };
            if targets.len() == 0 {
                (started.resting(), f.finished(Some(ids@)))
            } else {
                (started, f)
            }
        },
        (RefreshPhase::Hydrating, RefreshEvent::Fetched(fetched)) => {
            let recorded = f.recorded(s.targets[s.next as int].0, fetched);
            let advanced = RefresherView { next: s.next + 1, ..s };
            if s.next + 1 == s.targets.len() {
                (advanced.resting(), recorded.finished(Some(s.ids)))
            } else {
                (advanced, recorded)
            }
        },
        (RefreshPhase::Resting, RefreshEvent::Rested) => (
            RefresherView { phase: RefreshPhase::Listing, ..s },
            f,
        ),
        _ => (s, f),
    }
}

/// The refresher and its feed after a sequence of events.
pub open spec fn run(s: RefresherView, f: FeedView, events: Seq<RefreshEvent>) -> (
    RefresherView,
    FeedView,
)
    decreases events.len(),
{
    if events.len() == 0 {
        (s, f)
    } else {
        let n = events.len() - 1;
        let (s1, f1) = run(s, f, events.take(n));
        transition(s1, f1, events[n])
    }
}

/// The events of one cycle whose listing succeeded: the listing, then the
/// outcome of each item fetch.
pub open spec fn cycle_events(ids: Vec<u32>, results: Seq<Option<FeedItem>>) -> Seq<
    RefreshEvent,
> {
    seq![RefreshEvent::Listed(Some(ids))] + results.map_values(
        |o: Option<FeedItem>| RefreshEvent::Fetched(o),
    )
}

/// A cycle whose listing succeeded, run through the refresher from the
/// listing phase, leaves the refresher resting and the feed exactly as
/// recording each outcome in turn and then ending the cycle would: the laws
/// of `lemma_refresh_cycle` hold of the refresher's runs.
pub proof fn lemma_refresher_cycle(
    s: RefresherView,
    f: FeedView,
    ids: Vec<u32>,
    results: Seq<Option<FeedItem>>,
)
    requires
        s.phase == RefreshPhase::Listing,
        f.wf(),
        results.len() == sweep_of(ids@, f.page).len(),
    ensures
        run(s, f, cycle_events(ids, results)).0.phase == RefreshPhase::Resting,
        run(s, f, cycle_events(ids, results)).1 == f.swept(results).finished(Some(ids@)),
        run(s, f, cycle_events(ids, results)).1 == f.after_cycle(Some(ids@), results),
{
    let n = results.len() as int;
    if n == 0 {
        let events = cycle_events(ids, results);
        assert(events.take(0) =~= Seq::<RefreshEvent>::empty());
        assert(events.len() == 1);
        assert(events[0] == RefreshEvent::Listed(Some(ids)));
        assert(run(s, f, events.take(0)) == (s, f));
        assert(results =~= Seq::<Option<FeedItem>>::empty());
        assert(f.swept(results) == f);
    } else {
        lemma_cycle_prefix(s, f, ids, results, n - 1);
        lemma_cycle_step(s, f, ids, results, n - 1);
        let events = cycle_events(ids, results);
        assert(events.len() == n + 1);
        assert(events.take(n - 1 + 2) =~= events);
        assert(results.take(n - 1 + 1) =~= results);
    }
}

/// Before the outcome at position `k` arrives, the refresher is hydrating
/// position `k` and the feed holds the outcomes before it.
proof fn lemma_cycle_prefix(
    s: RefresherView,
    f: FeedView,
    ids: Vec<u32>,
    results: Seq<Option<FeedItem>>,
    k: int,
)
    requires
        s.phase == RefreshPhase::Listing,
        0 <= k < results.len(),
        f.wf(),
        results.len() == sweep_of(ids@, f.page).len(),
    ensures
        run(s, f, cycle_events(ids, results).take(k + 1)) == (
            RefresherView {
                phase: RefreshPhase::Hydrating,
                ids: ids@,
                targets: sweep_of(ids@, f.page),
                next: k as nat,
            },
            f.swept(results.take(k)),
        ),
    decreases k,
{
    let events = cycle_events(ids, results);
    if k == 0 {
        assert(events.take(1).take(0) =~= Seq::<RefreshEvent>::empty());
        assert(events.take(1)[0] == RefreshEvent::Listed(Some(ids)));
        assert(results.take(0) =~= Seq::<Option<FeedItem>>::empty());
        assert(f.swept(results.take(0)) == f);
        assert(run(s, f, events.take(1).take(0)) == (s, f));
        assert(run(s, f, events.take(1)) == transition(s, f, RefreshEvent::Listed(Some(ids))));
        assert(sweep_of(ids@, f.page).len() > 0);
    } else {
        lemma_cycle_prefix(s, f, ids, results, k - 1);
        lemma_cycle_step(s, f, ids, results, k - 1);
    }
}

/// One item outcome of a cycle: from hydrating position `k`, the refresher
/// records it and moves on, or ends the cycle after the last one.
proof fn lemma_cycle_step(
    s: RefresherView,
    f: FeedView,
    ids: Vec<u32>,
    results: Seq<Option<FeedItem>>,
    k: int,
)
    requires
        0 <= k < results.len(),
        f.wf(),
        results.len() == sweep_of(ids@, f.page).len(),
        run(s, f, cycle_events(ids, results).take(k + 1)) == (
            RefresherView {
                phase: RefreshPhase::Hydrating,
                ids: ids@,
                targets: sweep_of(ids@, f.page),
                next: k as nat,
            },
            f.swept(results.take(k)),
        ),
    ensures
        ({
            let r = run(s, f, cycle_events(ids, results).take(k + 2));
            let g = f.swept(results.take(k + 1));
            let hydrating = RefresherView {
                phase: RefreshPhase::Hydrating,
                ids: ids@,
                targets: sweep_of(ids@, f.page),
                next: (k + 1) as nat,
            };
            if k + 1 == results.len() {
                r == (hydrating.resting(), g.finished(Some(ids@)))
            } else {
                r == (hydrating, g)
            }
        }),
{
    let events = cycle_events(ids, results);
    assert(events.take(k + 2).take(k + 1) =~= events.take(k + 1));
    assert(events.take(k + 2)[k + 1] == RefreshEvent::Fetched(results[k]));
    assert(results.take(k + 1).take(k) =~= results.take(k));
    lemma_swept_keeps_page(f, results.take(k));
}

impl Refresher {
    #[verifier::type_invariant]
    spec fn inv(&self) -> bool {
        self.phase == RefreshPhase::Hydrating ==> self.next < self.targets@.len()
    }

    /// A refresher about to fetch the listing.
    pub fn new() -> (r: (Refresher, RefreshAction))
        ensures
            r.0@.wf(),
            r.0@.phase == RefreshPhase::Listing,
            r.1 == RefreshAction::FetchListing,
    {
        (
            Refresher { phase: RefreshPhase::Listing, ids: Vec::new(), targets: Vec::new(), next: 0 },
            RefreshAction::FetchListing,
        )
    }

    /// What the refresher waits for.
    pub fn phase(&self) -> (r: RefreshPhase)
        ensures
            r == self@.phase,
    {
        self.phase
    }

    /// The action the refresher waits on.
    pub fn awaited(&self) -> (r: RefreshAction)
        ensures
            r == self@.awaited(),
            self@.wf(),
    {
        proof {
            use_type_invariant(self);
        }
        match self.phase {
            RefreshPhase::Listing => RefreshAction::FetchListing,
            RefreshPhase::Hydrating => {
                let (index, id) = self.targets[self.next];
                RefreshAction::FetchItem { index, id }
            },
            RefreshPhase::Resting => RefreshAction::Rest,
        }
    }

    /// Takes the outcome of the last action, updates `feed` by it, and returns
    /// the next action.
    ///
    /// - A failed listing ends the cycle with no change to the feed.
    /// - A listing starts the sweep of its leading window; with nothing to
    ///   fetch it ends the cycle at once.
    /// - An item outcome is recorded at its position; after the last one the
    ///   cycle ends: the feed takes the listing and advances its page.
    /// - The end of a rest starts the next cycle.
    /// - An event the phase does not wait for changes nothing.
    pub fn step(&mut self, feed: &mut FeedCache, event: RefreshEvent) -> (r: RefreshAction)
        ensures
            final(self)@.wf(),
            r == final(self)@.awaited(),
            (final(self)@, final(feed)@) == transition(old(self)@, old(feed)@, event),
    {
        proof {
            use_type_invariant(&*self);
        }
        match event {
            RefreshEvent::Listed(listing) => {
                if self.phase != RefreshPhase::Listing {
                    return self.awaited();
                }
                match listing {
                    None => {
                        feed.finish_cycle(None);
                        self.phase = RefreshPhase::Resting;
                    },
                    Some(ids) => {
                        self.targets = feed.sweep_targets(&ids);
                        self.next = 0;
                        if self.targets.len() == 0 {
                            let listing = Some(ids.clone());
                            self.ids = ids;
                            feed.finish_cycle(listing);
                            self.phase = RefreshPhase::Resting;
                        } else {
                            self.ids = ids;
                            self.phase = RefreshPhase::Hydrating;
                        }
                    },
                }
            },
            RefreshEvent::Fetched(fetched) => {
                if self.phase != RefreshPhase::Hydrating {
                    return self.awaited();
                }
                let count = self.targets.len();
                feed.record_item(self.targets[self.next].0, fetched);
                let next = self.next + 1;
                if next == count {
                    feed.finish_cycle(Some(self.ids.clone()));
                    self.phase = RefreshPhase::Resting;
                }
                self.next = next;
            },
            RefreshEvent::Rested => {
                if self.phase == RefreshPhase::Resting {
                    self.phase = RefreshPhase::Listing;
                }
            },
        }
        self.awaited()
    }
}

} // verus!
