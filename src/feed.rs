//! Per-category story feeds: an ordered identifier list refreshed wholesale,
//! and a positional map of the items hydrated from its leading window.
use std::collections::HashMap;
use vstd::prelude::*;

verus! {

broadcast use vstd::std_specs::hash::group_hash_axioms;

/// Number of list positions hydrated per page.
pub const WINDOW: usize = 50;

/// Number of pages the refresher alternates between.
pub const PAGE_CYCLE: usize = 2;

/// Largest window any page can ask for.
pub const MAX_WINDOW: usize = WINDOW * PAGE_CYCLE;

/// Seconds a refresher rests between two cycles.
pub const REFETCH_DELAY_SECONDS: u64 = 60;

/// One of the story feeds.
#[derive(Clone, Copy, Debug, PartialEq, Eq, Structural)]
pub enum Category {
    Top,
    New,
    Show,
}

/// A story as the reader keeps it.
#[derive(Clone, Debug)]
pub struct LocalStory {
    pub id: u32,
    pub by: Option<String>,
    pub time: u64,
    pub kids: Option<Vec<u32>>,
    pub score: Option<u32>,
    pub title: Option<String>,
    pub url: Option<String>,
}

/// A comment as the reader keeps it.
#[derive(Clone, Debug)]
pub struct LocalComment {
    pub id: u32,
    pub by: Option<String>,
    pub time: u64,
    pub kids: Option<Vec<u32>>,
    pub text: Option<String>,
}

/// A fetched item: a story, a comment, or some other kind the reader does not show.
#[derive(Clone, Debug)]
pub enum FeedItem {
    Story(LocalStory),
    Comment(LocalComment),
    Other,
}

/// Number of list positions hydrated when the page counter is `page`.
pub open spec fn window_size(page: nat) -> nat {
    (WINDOW * (page + 1)) as nat
}

/// The positions and identifiers a sweep over `ids` fetches on page `page`:
/// the leading window of the list, each paired with its zero-based position.
pub open spec fn sweep_of(ids: Seq<u32>, page: nat) -> Seq<(usize, u32)> {
    let n = if ids.len() < window_size(page) {
        ids.len()
    } else {
        window_size(page)
    };
    Seq::new(n, |i: int| (i as usize, ids[i]))
}

/// The abstract state of one feed.
pub ghost struct FeedView {
    /// Fetched items by zero-based display position.
    pub items: Map<usize, FeedItem>,
    /// The identifier list of the last successful cycle.
    pub ids: Seq<u32>,
    /// The page counter.
    pub page: nat,
}

impl FeedView {
    /// Page counter in range, and no entry beyond the widest window.
    pub open spec fn wf(self) -> bool {
        &&& self.page < PAGE_CYCLE
        &&& forall|k: usize| #[trigger] self.items.contains_key(k) ==> k < MAX_WINDOW
    }

    /// The state after one item fetch of a sweep: a fetched item inside the
    /// current window lands at its position; anything else changes nothing.
    pub open spec fn recorded(self, index: usize, fetched: Option<FeedItem>) -> FeedView {
        match fetched {
            Some(item) if index < window_size(self.page) => FeedView {
                items: self.items.insert(index, item),
                ..self
            },
            _ => self,
        }
    }

    /// The state at the end of a cycle: on a listed feed the identifier list is
    /// replaced and the page advances; a failed listing changes nothing.
    pub open spec fn finished(self, listing: Option<Seq<u32>>) -> FeedView {
        match listing {
            Some(ids) => FeedView {
                ids,
                page: ((self.page + 1) % (PAGE_CYCLE as nat)) as nat,
                ..self
            },
            None => self,
        }
    }

    /// The state after one refresh cycle: a failed listing changes nothing; a
    /// listing has the outcome of each item fetch recorded, then ends the cycle.
    pub open spec fn after_cycle(
        self,
        listing: Option<Seq<u32>>,
        results: Seq<Option<FeedItem>>,
    ) -> FeedView {
        match listing {
            Some(ids) => self.swept(results).finished(Some(ids)),
            None => self.finished(None),
        }
    }

    /// The state after a run of refresh cycles, each a listing outcome and the
    /// outcomes of its item fetches.
    pub open spec fn after_cycles(
        self,
        cycles: Seq<(Option<Seq<u32>>, Seq<Option<FeedItem>>)>,
    ) -> FeedView
        decreases cycles.len(),
    {
        if cycles.len() == 0 {
            self
        } else {
            let n = cycles.len() - 1;
            self.after_cycles(cycles.take(n)).after_cycle(cycles[n].0, cycles[n].1)
        }
    }

    /// The state after recording the outcome of each fetch of a sweep, in order:
    /// `results[i]` is the outcome of fetching position `i`.
    pub open spec fn swept(self, results: Seq<Option<FeedItem>>) -> FeedView
        decreases results.len(),
    {
        if results.len() == 0 {
            self
        } else {
            let n = (results.len() - 1) as int;
            self.swept(results.take(n)).recorded(n as usize, results[n])
        }
    }
}

/// The cache of one feed.
pub struct FeedCache {
    items: HashMap<usize, FeedItem>,
    ids: Vec<u32>,
    page: usize,
}

impl View for FeedCache {
    type V = FeedView;

    closed spec fn view(&self) -> FeedView {
        FeedView { items: self.items@, ids: self.ids@, page: self.page as nat }
    }
}

impl FeedCache {
    #[verifier::type_invariant]
    spec fn inv(&self) -> bool {
        &&& self.page < PAGE_CYCLE
        &&& forall|k: usize| #[trigger] self.items@.contains_key(k) ==> k < MAX_WINDOW
    }

    /// An empty feed on the first page.
    pub fn new() -> (r: FeedCache)
        ensures
            r@.wf(),
            r@.items.is_empty(),
            r@.ids.len() == 0,
            r@.page == 0,
    {
        let r = FeedCache { items: HashMap::new(), ids: Vec::new(), page: 0 };
        assert(r@.items =~= Map::empty());
        r
    }

    /// The page counter.
    pub fn page(&self) -> (r: usize)
        ensures
            r as nat == self@.page,
    {
        self.page
    }

    /// The identifier list of the last successful cycle.
    pub fn ids(&self) -> (r: &Vec<u32>)
        ensures
            r@ == self@.ids,
    {
        &self.ids
    }

    /// Number of positions that hold an item.
    pub fn item_count(&self) -> (r: usize)
        ensures
            r as nat == self@.items.len(),
    {
        self.items.len()
    }

    /// The item at a display position, if one was fetched.
    pub fn item(&self, index: usize) -> (r: Option<&FeedItem>)
        ensures
            r == (if self@.items.contains_key(index) {
                Some(&self@.items[index])
            } else {
                None
            }),
    {
        self.items.get(&index)
    }

    /// Number of positions the next sweep hydrates.
    pub fn window(&self) -> (r: usize)
        ensures
            r as nat == window_size(self@.page),
            r <= MAX_WINDOW,
    {
        proof {
            use_type_invariant(self);
        }
        WINDOW * (self.page + 1)
    }

    /// The positions and identifiers a sweep over `ids` fetches: the leading
    /// window of the list, each paired with its zero-based position.
    pub fn sweep_targets(&self, ids: &Vec<u32>) -> (r: Vec<(usize, u32)>)
        ensures
            r@ == sweep_of(ids@, self@.page),
    {
        let w = self.window();
        let n: usize = if ids.len() < w { ids.len() } else { w };
        let mut r: Vec<(usize, u32)> = Vec::new();
        let mut i: usize = 0;
        while i < n
            invariant
                n <= ids@.len(),
                i <= n,
                r@.len() == i,
                forall|j: int| 0 <= j < i ==> #[trigger] r@[j] == (j as usize, ids@[j]),
            decreases n - i,
        {
            r.push((i, ids[i]));
            i = i + 1;
        }
        assert(r@ =~= sweep_of(ids@, self@.page));
        r
    }

    /// Records the outcome of fetching the item at `index` during a sweep.
    /// A fetched item inside the current window is stored at its position,
    /// replacing what was there; a failed fetch, or a position outside the
    /// window, leaves the feed as it was.
    pub fn record_item(&mut self, index: usize, fetched: Option<FeedItem>)
        ensures
            final(self)@ == old(self)@.recorded(index, fetched),
            final(self)@.wf(),
    {
        proof {
            use_type_invariant(&*self);
        }
        if let Some(item) = fetched {
            if index < self.window() {
                // The map is moved out while it grows, so that the feed is
                // well formed at every point where it can be observed.
                let mut items: HashMap<usize, FeedItem> = HashMap::new();
                assert(items@ =~= Map::empty());
                std::mem::swap(&mut items, &mut self.items);
                items.insert(index, item);
                assert(forall|k: usize| #[trigger] items@.contains_key(k) ==> k < MAX_WINDOW);
                std::mem::swap(&mut items, &mut self.items);
            }
        }
    }

    /// Ends a cycle. On a listed feed the identifier list becomes exactly the
    /// listing and the page counter advances modulo the page cycle; a failed
    /// listing leaves the feed as it was. Stored items are never removed.
    pub fn finish_cycle(&mut self, listing: Option<Vec<u32>>)
        ensures
            final(self)@ == old(self)@.finished(
                match listing {
                    Some(v) => Some(v@),
                    None => None,
                },
            ),
            final(self)@.wf(),
    {
        proof {
            use_type_invariant(&*self);
        }
        if let Some(ids) = listing {
            let page = (self.page + 1) % PAGE_CYCLE;
            self.ids = ids;
            self.page = page;
        }
    }

    /// The positions that hold a story, in increasing order.
    pub fn story_positions(&self) -> (r: Vec<usize>)
        ensures
            forall|i: int, j: int| 0 <= i < j < r@.len() ==> r@[i] < r@[j],
            forall|k: usize|
                r@.contains(k) <==> (self@.items.contains_key(k) && self@.items[k] is Story),
    {
        proof {
            use_type_invariant(self);
        }
        let mut r: Vec<usize> = Vec::new();
        let mut k: usize = 0;
        while k < MAX_WINDOW
            invariant
                self@.wf(),
                k <= MAX_WINDOW,
                forall|i: int| 0 <= i < r@.len() ==> r@[i] < k,
                forall|i: int, j: int| 0 <= i < j < r@.len() ==> r@[i] < r@[j],
                forall|m: usize|
                    r@.contains(m) <==> (m < k && self@.items.contains_key(m)
                        && self@.items[m] is Story),
            decreases MAX_WINDOW - k,
        {
            let ghost prev = r@;
            match self.items.get(&k) {
                Some(FeedItem::Story(_)) => {
                    r.push(k);
                    assert(r@ == prev.push(k));
                    assert(self@.items.contains_key(k) && self@.items[k] is Story);
                },
                other => {
                    assert(!(self@.items.contains_key(k) && self@.items[k] is Story));
                },
            }
            assert forall|m: usize|
                r@.contains(m) <==> (m < k + 1 && self@.items.contains_key(m)
                    && self@.items[m] is Story) by {
                if m == k && self@.items.contains_key(m) && self@.items[m] is Story {
                    assert(r@[r@.len() - 1] == m);
                }
                if r@.contains(m) {
                    let i = choose|i: int| 0 <= i < r@.len() && r@[i] == m;
                    if i < prev.len() {
                        assert(prev[i] == m);
                        assert(prev.contains(m));
                    }
                }
                if m < k && self@.items.contains_key(m) && self@.items[m] is Story {
                    assert(prev.contains(m));
                    let i = choose|i: int| 0 <= i < prev.len() && prev[i] == m;
                    assert(r@[i] == m);
                }
            }
            k = k + 1;
        }
        r
    }
}

/// How many cycles of a run had their listing succeed.
pub open spec fn successes(cycles: Seq<(Option<Seq<u32>>, Seq<Option<FeedItem>>)>) -> nat
    decreases cycles.len(),
{
    if cycles.len() == 0 {
        0
    } else {
        let n = cycles.len() - 1;
        successes(cycles.take(n)) + if cycles[n].0 is Some {
            1nat
        } else {
            0nat
        }
    }
}

/// Recording fetch outcomes keeps a feed well formed and never changes its page.
pub proof fn lemma_swept_keeps_page(f: FeedView, results: Seq<Option<FeedItem>>)
    requires
        f.wf(),
    ensures
        f.swept(results).wf(),
        f.swept(results).page == f.page,
    decreases results.len(),
{
    if results.len() > 0 {
        lemma_swept_keeps_page(f, results.take(results.len() - 1));
    }
}

/// Over any run of cycles, successful and failed in any order, the feed stays
/// well formed and its page is the starting page advanced once per successful
/// listing, modulo the page cycle. From the first page, the cycle after `k`
/// successful ones thus reads page `k % 2` and hydrates
/// `min(len, WINDOW * (k % 2 + 1))` positions of its listing: 50, 100, 50, ...
pub proof fn lemma_page_after_cycles(
    f: FeedView,
    cycles: Seq<(Option<Seq<u32>>, Seq<Option<FeedItem>>)>,
    ids: Seq<u32>,
)
    requires
        f.wf(),
    ensures
        f.after_cycles(cycles).wf(),
        f.after_cycles(cycles).page == (f.page + successes(cycles)) % (PAGE_CYCLE as nat),
        f.page == 0 ==> sweep_of(ids, f.after_cycles(cycles).page).len() == if ids.len() < WINDOW
            * (successes(cycles) % 2 + 1) {
            ids.len() as int
        } else {
            WINDOW * (successes(cycles) % 2 + 1)
        },
    decreases cycles.len(),
{
    if cycles.len() > 0 {
        let n = cycles.len() - 1;
        let prefix = cycles.take(n);
        lemma_page_after_cycles(f, prefix, ids);
        let g = f.after_cycles(prefix);
        lemma_swept_keeps_page(g, cycles[n].1);
        assert(f.page + successes(cycles) == f.page + successes(prefix) + if cycles[n].0 is Some {
            1nat
        } else {
            0nat
        });
        assert(((f.page + successes(prefix)) % 2 + 1) % 2 == (f.page + successes(prefix) + 1) % 2);
    }
}

/// Recording the outcomes of a sweep no longer than the window keeps the page,
/// the list and well-formedness; each successful position holds its item, and
/// any other entry either was there before or lies inside the sweep.
proof fn lemma_swept(f: FeedView, results: Seq<Option<FeedItem>>)
    requires
        f.wf(),
        results.len() <= window_size(f.page),
    ensures
        f.swept(results).wf(),
        f.swept(results).page == f.page,
        f.swept(results).ids == f.ids,
        forall|i: int|
            0 <= i < results.len() && #[trigger] results[i] is Some ==> {
                &&& f.swept(results).items.contains_key(i as usize)
                &&& f.swept(results).items[i as usize] == results[i]->0
            },
        forall|k: usize| #[trigger]
            f.swept(results).items.contains_key(k) ==> f.items.contains_key(k) || k
                < results.len(),
    decreases results.len(),
{
    if results.len() > 0 {
        let n = (results.len() - 1) as int;
        let prefix = results.take(n);
        lemma_swept(f, prefix);
        let g = f.swept(prefix);
        assert forall|i: int|
            0 <= i < results.len() && #[trigger] results[i] is Some implies {
                &&& f.swept(results).items.contains_key(i as usize)
                &&& f.swept(results).items[i as usize] == results[i]->0
            } by {
            if i < n {
                assert(prefix[i] == results[i]);
            }
        }
        assert forall|k: usize| #[trigger]
            f.swept(results).items.contains_key(k) implies f.items.contains_key(k) || k
                < results.len() by {
            if k != n as usize {
                assert(g.items.contains_key(k));
            }
        }
    }
}

/// After a successful refresh cycle (a listing `ids`, then one fetch outcome
/// per position of the leading window, in order, then the end of the cycle),
/// the identifier list equals the listing, every position whose fetch
/// succeeded holds the fetched item, the page has advanced, and no position
/// beyond the window holds an entry, provided none did before the cycle.
pub proof fn lemma_refresh_cycle(f: FeedView, ids: Seq<u32>, results: Seq<Option<FeedItem>>)
    requires
        f.wf(),
        results.len() == if ids.len() < window_size(f.page) {
            ids.len()
        } else {
            window_size(f.page)
        },
        forall|k: usize| #[trigger] f.items.contains_key(k) ==> k < window_size(f.page),
    ensures
        ({
            let g = f.swept(results).finished(Some(ids));
            &&& g.wf()
            &&& g.ids == ids
            &&& g.page == (f.page + 1) % (PAGE_CYCLE as nat)
            &&& forall|i: int|
                0 <= i < results.len() && #[trigger] results[i] is Some ==> {
                    &&& g.items.contains_key(i as usize)
                    &&& g.items[i as usize] == results[i]->0
                }
            &&& forall|k: usize| k >= window_size(f.page) ==> !#[trigger] g.items.contains_key(k)
        }),
{
    lemma_swept(f, results);
}

/// The page counter alternates between two values: a successful cycle moves
/// it to the other one, two successful cycles bring it back, and a cycle whose
/// listing failed leaves the feed, page included, as it was.
pub proof fn lemma_page_alternates(f: FeedView, a: Seq<u32>, b: Seq<u32>)
    requires
        f.wf(),
    ensures
        f.finished(Some(a)).wf(),
        f.finished(Some(a)).page != f.page,
        f.finished(Some(a)).finished(Some(b)).page == f.page,
        f.finished(None) == f,
{
}

} // verus!
