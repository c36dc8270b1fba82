use y_reader::feed::{FeedCache, FeedItem, LocalStory, WINDOW};
use y_reader::refresh::{RefreshAction, RefreshEvent, RefreshPhase, Refresher};

fn story(id: u32) -> FeedItem {
    FeedItem::Story(LocalStory {
        id,
        by: None,
        time: 0,
        kids: None,
        score: None,
        title: Some("t".to_string()),
        url: None,
    })
}

/// Runs one cycle through the refresher; `ok(index)` says whether that
/// item's fetch succeeds. Returns the item fetches asked for.
fn cycle(
    refresher: &mut Refresher,
    feed: &mut FeedCache,
    listing: Option<Vec<u32>>,
    ok: impl Fn(usize) -> bool,
) -> Vec<(usize, u32)> {
    assert_eq!(refresher.awaited(), RefreshAction::FetchListing);
    let mut asked = Vec::new();
    let mut action = refresher.step(feed, RefreshEvent::Listed(listing));
    while let RefreshAction::FetchItem { index, id } = action {
        asked.push((index, id));
        let fetched = if ok(index) { Some(story(id)) } else { None };
        action = refresher.step(feed, RefreshEvent::Fetched(fetched));
    }
    assert_eq!(action, RefreshAction::Rest);
    assert_eq!(refresher.step(feed, RefreshEvent::Rested), RefreshAction::FetchListing);
    asked
}

fn ids(n: u32) -> Vec<u32> {
    (0..n).map(|i| 500 + i).collect()
}

#[test]
fn refresher_first_cycle_hydrates_one_window() {
    let mut feed = FeedCache::new();
    let (mut refresher, first) = Refresher::new();
    assert_eq!(first, RefreshAction::FetchListing);
    let asked = cycle(&mut refresher, &mut feed, Some(ids(100)), |i| i < 50);
    assert_eq!(asked.len(), WINDOW);
    assert_eq!(asked[0], (0, 500));
    assert_eq!(asked[49], (49, 549));
    assert_eq!(feed.item_count(), 50);
    assert!(feed.item(49).is_some());
    assert!(feed.item(50).is_none());
    assert_eq!(feed.ids().len(), 100);
    assert_eq!(feed.page(), 1);
}

#[test]
fn refresher_alternates_window_sizes() {
    let mut feed = FeedCache::new();
    let (mut refresher, _) = Refresher::new();
    let sizes: Vec<usize> = (0..4)
        .map(|_| cycle(&mut refresher, &mut feed, Some(ids(300)), |_| true).len())
        .collect();
    assert_eq!(sizes, vec![50, 100, 50, 100]);
    assert_eq!(feed.item_count(), 100);
}

#[test]
fn refresher_failed_listing_rests_without_change() {
    let mut feed = FeedCache::new();
    let (mut refresher, _) = Refresher::new();
    cycle(&mut refresher, &mut feed, Some(ids(3)), |_| true);
    let asked = cycle(&mut refresher, &mut feed, None, |_| true);
    assert!(asked.is_empty());
    assert_eq!(feed.page(), 1);
    assert_eq!(feed.ids(), &ids(3));
    assert_eq!(feed.item_count(), 3);
}

#[test]
fn refresher_empty_listing_ends_cycle_at_once() {
    let mut feed = FeedCache::new();
    let (mut refresher, _) = Refresher::new();
    let asked = cycle(&mut refresher, &mut feed, Some(Vec::new()), |_| true);
    assert!(asked.is_empty());
    assert_eq!(feed.page(), 1);
    assert!(feed.ids().is_empty());
}

#[test]
fn refresher_ignores_unexpected_events() {
    let mut feed = FeedCache::new();
    let (mut refresher, _) = Refresher::new();
    assert_eq!(refresher.step(&mut feed, RefreshEvent::Rested), RefreshAction::FetchListing);
    assert_eq!(
        refresher.step(&mut feed, RefreshEvent::Fetched(Some(story(1)))),
        RefreshAction::FetchListing
    );
    assert_eq!(feed.item_count(), 0);
    let action = refresher.step(&mut feed, RefreshEvent::Listed(Some(vec![7, 8])));
    assert_eq!(action, RefreshAction::FetchItem { index: 0, id: 7 });
    assert_eq!(
        refresher.step(&mut feed, RefreshEvent::Listed(Some(vec![1]))),
        RefreshAction::FetchItem { index: 0, id: 7 }
    );
    assert_eq!(refresher.phase(), RefreshPhase::Hydrating);
}

#[test]
fn refresher_failed_cycles_do_not_shift_the_window() {
    let mut feed = FeedCache::new();
    let (mut refresher, _) = Refresher::new();
    let outcomes = [true, false, true, false, false, true, true];
    let sizes: Vec<usize> = outcomes
        .iter()
        .map(|&listed| {
            let listing = if listed { Some(ids(300)) } else { None };
            cycle(&mut refresher, &mut feed, listing, |_| true).len()
        })
        .collect();
    assert_eq!(sizes, vec![50, 0, 100, 0, 0, 50, 100]);
    assert_eq!(feed.page(), 0);
}
