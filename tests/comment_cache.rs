use y_reader::comments::{CommentCache, CommentState};
use y_reader::feed::{FeedItem, LocalComment, LocalStory};

fn comment(id: u32, kids: Option<Vec<u32>>) -> FeedItem {
    FeedItem::Comment(LocalComment {
        id,
        by: Some("dang".to_string()),
        time: 5,
        kids,
        text: Some("hi".to_string()),
    })
}

#[test]
fn absent_comment_is_claimed_once() {
    let mut cache = CommentCache::new();
    assert!(cache.get(42).is_none());
    assert!(cache.claim(42));
    assert!(matches!(cache.get(42), Some(CommentState::Loading)));
    for _ in 0..10 {
        assert!(!cache.claim(42));
    }
    assert!(matches!(cache.get(42), Some(CommentState::Loading)));
}

#[test]
fn loaded_comment_keeps_its_snapshot() {
    let mut cache = CommentCache::new();
    assert!(cache.claim(1));
    cache.resolve(1, Some(comment(1, Some(vec![2, 3]))));
    match cache.get(1) {
        Some(CommentState::Loaded(c)) => {
            assert_eq!(c.id, 1);
            assert_eq!(c.by.as_deref(), Some("dang"));
            assert_eq!(c.kids, Some(vec![2, 3]));
            assert_eq!(c.text.as_deref(), Some("hi"));
        }
        other => panic!("unexpected state {:?}", other),
    }
    assert!(!cache.claim(1));
}

#[test]
fn failed_fetch_is_errored_for_good() {
    let mut cache = CommentCache::new();
    assert!(cache.claim(9));
    cache.resolve(9, None);
    assert!(matches!(cache.get(9), Some(CommentState::Errored)));
    assert!(!cache.claim(9));
    cache.resolve(9, Some(comment(9, None)));
    assert!(matches!(cache.get(9), Some(CommentState::Errored)));
}

#[test]
fn item_of_another_kind_is_errored() {
    let mut cache = CommentCache::new();
    assert!(cache.claim(5));
    let story = FeedItem::Story(LocalStory {
        id: 5,
        by: None,
        time: 0,
        kids: None,
        score: None,
        title: None,
        url: None,
    });
    cache.resolve(5, Some(story));
    assert!(matches!(cache.get(5), Some(CommentState::Errored)));
}

#[test]
fn outcome_for_unclaimed_comment_is_ignored() {
    let mut cache = CommentCache::new();
    cache.resolve(3, Some(comment(3, None)));
    assert!(cache.get(3).is_none());
    assert!(cache.claim(3));
}
