//! The comment cache: each comment identifier is absent, loading, loaded or
//! errored. A render pass claims an absent identifier, which marks it loading
//! and tells the caller to start the one fetch for it; the fetch's outcome
//! then resolves it. Nothing is ever removed, and an error is final.
use crate::feed::{FeedItem, LocalComment};
use std::collections::HashMap;
use vstd::prelude::*;

verus! {

broadcast use vstd::std_specs::hash::group_hash_axioms;

/// The state of one comment in the cache.
#[derive(Clone, Debug)]
pub enum CommentState {
    Loading,
    Loaded(LocalComment),
    Errored,
}

/// The state a fetch outcome leaves a loading comment in: loaded if a comment
/// came back, errored on a failure or on an item of another kind.
pub open spec fn outcome_state(fetched: Option<FeedItem>) -> CommentState {
    match fetched {
        Some(FeedItem::Comment(c)) => CommentState::Loaded(c),
        _ => CommentState::Errored,
    }
}

/// One operation on the cache: a render pass claiming an identifier, or a
/// fetch outcome landing for one.
pub enum CacheStep {
    Claim(u32),
    Resolve(u32, Option<FeedItem>),
}

/// Whether `step`, taken on `m`, starts a fetch for `id`.
pub open spec fn starts_fetch(m: Map<u32, CommentState>, step: CacheStep, id: u32) -> bool {
    match step {
        CacheStep::Claim(x) => x == id && !m.contains_key(id),
        CacheStep::Resolve(_, _) => false,
    }
}

/// The cache after `step`: a claim marks an absent identifier loading and
/// leaves a present one alone; an outcome settles a loading identifier and
/// leaves any other alone.
pub open spec fn after_step(m: Map<u32, CommentState>, step: CacheStep) -> Map<u32, CommentState> {
    match step {
        CacheStep::Claim(id) => if m.contains_key(id) {
            m
        } else {
            m.insert(id, CommentState::Loading)
        },
        CacheStep::Resolve(id, fetched) => if m.contains_key(id) && m[id] is Loading {
            m.insert(id, outcome_state(fetched))
        } else {
            m
        },
    }
}

/// The cache after a sequence of steps.
pub open spec fn after_steps(m: Map<u32, CommentState>, steps: Seq<CacheStep>) -> Map<
    u32,
    CommentState,
>
    decreases steps.len(),
{
    if steps.len() == 0 {
        m
    } else {
        let n = steps.len() - 1;
        after_step(after_steps(m, steps.take(n)), steps[n])
    }
}

/// How many fetches for `id` a sequence of steps starts.
pub open spec fn fetches_started(m: Map<u32, CommentState>, steps: Seq<CacheStep>, id: u32) -> nat
    decreases steps.len(),
{
    if steps.len() == 0 {
        0
    } else {
        let n = steps.len() - 1;
        let before = fetches_started(m, steps.take(n), id);
        if starts_fetch(after_steps(m, steps.take(n)), steps[n], id) {
            before + 1
        } else {
            before
        }
    }
}

/// The comment cache.
pub struct CommentCache {
    states: HashMap<u32, CommentState>,
}

impl View for CommentCache {
    type V = Map<u32, CommentState>;

    closed spec fn view(&self) -> Map<u32, CommentState> {
        self.states@
    }
}

impl CommentCache {
    /// A cache with no comment in it.
    pub fn new() -> (r: CommentCache)
        ensures
            r@ == Map::<u32, CommentState>::empty(),
    {
        let r = CommentCache { states: HashMap::new() };
        assert(r@ =~= Map::empty());
        r
    }

    /// The state of a comment, or `None` while it is absent.
    pub fn get(&self, id: u32) -> (r: Option<&CommentState>)
        ensures
            r == (if self@.contains_key(id) {
                Some(&self@[id])
            } else {
                None
            }),
    {
        self.states.get(&id)
    }

    /// Claims a comment for fetching. An absent comment is marked loading and
    /// `true` is returned: the caller starts its one fetch. A comment already
    /// in the cache is left as it is and `false` is returned.
    pub fn claim(&mut self, id: u32) -> (r: bool)
        ensures
            r == starts_fetch(old(self)@, CacheStep::Claim(id), id),
            r == !old(self)@.contains_key(id),
            final(self)@ == after_step(old(self)@, CacheStep::Claim(id)),
    {
        if self.states.contains_key(&id) {
            false
        } else {
            self.states.insert(id, CommentState::Loading);
            true
        }
    }

    /// Settles a loading comment with the outcome of its fetch: loaded if a
    /// comment came back, errored otherwise. A comment that is not loading is
    /// left as it is.
    pub fn resolve(&mut self, id: u32, fetched: Option<FeedItem>)
        ensures
            final(self)@ == after_step(old(self)@, CacheStep::Resolve(id, fetched)),
    {
        let loading = match self.states.get(&id) {
            Some(CommentState::Loading) => true,
            _ => false,
        };
        if loading {
            let state = match fetched {
                Some(FeedItem::Comment(c)) => CommentState::Loaded(c),
                _ => CommentState::Errored,
            };
            self.states.insert(id, state);
        }
    }
}

/// No step removes an identifier from the cache.
proof fn lemma_keys_kept(m: Map<u32, CommentState>, steps: Seq<CacheStep>, id: u32)
    requires
        m.contains_key(id),
    ensures
        after_steps(m, steps).contains_key(id),
    decreases steps.len(),
{
    if steps.len() > 0 {
        lemma_keys_kept(m, steps.take(steps.len() - 1), id);
    }
}

/// Whatever the render passes and outcomes, and in whatever order they come,
/// at most one fetch is ever started for a comment, and none for one that is
/// already in the cache; once a fetch has started the comment stays in the cache.
pub proof fn lemma_one_fetch_per_comment(
    m: Map<u32, CommentState>,
    steps: Seq<CacheStep>,
    id: u32,
)
    ensures
        fetches_started(m, steps, id) <= 1,
        m.contains_key(id) ==> fetches_started(m, steps, id) == 0,
        fetches_started(m, steps, id) == 1 ==> after_steps(m, steps).contains_key(id),
    decreases steps.len(),
{
    if steps.len() > 0 {
        let n = steps.len() - 1;
        let prefix = steps.take(n);
        lemma_one_fetch_per_comment(m, prefix, id);
        if m.contains_key(id) {
            lemma_keys_kept(m, prefix, id);
        }
    }
}

/// An errored comment stays errored whatever steps follow, and no fetch is
/// ever started for it again.
pub proof fn lemma_errored_is_final(m: Map<u32, CommentState>, steps: Seq<CacheStep>, id: u32)
    requires
        m.contains_key(id),
        m[id] is Errored,
    ensures
        after_steps(m, steps).contains_key(id),
        after_steps(m, steps)[id] is Errored,
        fetches_started(m, steps, id) == 0,
    decreases steps.len(),
{
    lemma_one_fetch_per_comment(m, steps, id);
    if steps.len() > 0 {
        lemma_errored_is_final(m, steps.take(steps.len() - 1), id);
    }
}

} // verus!
