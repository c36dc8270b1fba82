use y_reader::display::{relative_time, story_link, user_url};
use y_reader::text::{
    comment_fragments, fragments_from_captures, paragraph_fragments, AnchorCapture, Fragment,
};

fn is_text(f: &Fragment, s: &str) -> bool {
    matches!(f, Fragment::Text(t) if t == s)
}

fn is_link(f: &Fragment, label: &str, target: &str) -> bool {
    matches!(f, Fragment::Link { label: l, target: t } if l == label && t == target)
}

#[test]
fn anchor_in_paragraph_drops_adjacent_text() {
    let rows = comment_fragments("<p>hello <a href='http://x.com'>x</a></p>");
    assert_eq!(rows.len(), 2);
    assert_eq!(rows[0].len(), 1);
    assert!(is_text(&rows[0][0], ""));
    assert_eq!(rows[1].len(), 1);
    assert!(is_link(&rows[1][0], "x", "http://x.com"));
}

#[test]
fn double_quoted_anchors_and_plain_paragraphs() {
    let rows = comment_fragments(
        "first<p>see <a href=\"https://a.org\" rel=\"nofollow\">a</a> and <a href=\"https://b.org\">b</a>",
    );
    assert_eq!(rows.len(), 2);
    assert!(is_text(&rows[0][0], "first"));
    assert_eq!(rows[1].len(), 2);
    assert!(is_link(&rows[1][0], "a", "https://a.org"));
    assert!(is_link(&rows[1][1], "b", "https://b.org"));
}

#[test]
fn entities_are_decoded_before_splitting() {
    let rows = comment_fragments("a &amp; b&#x2F;c&lt;p&gt;d");
    assert_eq!(rows.len(), 2);
    assert!(is_text(&rows[0][0], "a & b/c"));
    assert!(is_text(&rows[1][0], "d"));
}

#[test]
fn every_marker_splits() {
    let rows = comment_fragments("a<p>b<p>");
    assert_eq!(rows.len(), 3);
    assert!(is_text(&rows[0][0], "a"));
    assert!(is_text(&rows[1][0], "b"));
    assert!(is_text(&rows[2][0], ""));
    let rows = comment_fragments("");
    assert_eq!(rows.len(), 1);
    assert!(is_text(&rows[0][0], ""));
}

#[test]
fn captures_become_links() {
    let caps = vec![
        AnchorCapture {
            double_quoted: Some("https://d".to_string()),
            single_quoted: Some("https://s".to_string()),
            label: Some("d".to_string()),
        },
        AnchorCapture { double_quoted: None, single_quoted: None, label: Some("gone".to_string()) },
        AnchorCapture { double_quoted: None, single_quoted: Some("https://s".to_string()), label: None },
    ];
    let frags = fragments_from_captures("ignored", &caps);
    assert_eq!(frags.len(), 2);
    assert!(is_link(&frags[0], "d", "https://d"));
    assert!(matches!(&frags[1], Fragment::Url(t) if t == "https://s"));
    let plain = fragments_from_captures("just text", &Vec::new());
    assert_eq!(plain.len(), 1);
    assert!(is_text(&plain[0], "just text"));
}

#[test]
fn story_link_uses_domain() {
    let l = story_link("https://Example.com/a?b=1").unwrap();
    assert_eq!(l.label, "example.com");
    assert_eq!(l.target, "https://example.com/a?b=1");
}

#[test]
fn story_link_without_domain_shows_url() {
    let l = story_link("http://127.0.0.1:8080/x").unwrap();
    assert_eq!(l.label, "http://127.0.0.1:8080/x");
    assert_eq!(l.target, "http://127.0.0.1:8080/x");
    assert!(story_link("not a url").is_none());
}

#[test]
fn relative_time_in_words() {
    assert_eq!(relative_time(1_000_000 - 3600, 1_000_000), "an hour ago");
    assert_eq!(relative_time(1_000_000, 1_000_000), "now");
}

#[test]
fn user_url_appends_name() {
    assert_eq!(user_url("pg"), "https://news.ycombinator.com/user?id=pg");
}

#[test]
fn paragraph_with_anchor_yields_link_only() {
    let frags = paragraph_fragments("hello <a href='http://x.com'>x</a></p>");
    assert_eq!(frags.len(), 1);
    assert!(is_link(&frags[0], "x", "http://x.com"));
    let plain = paragraph_fragments("no links here");
    assert_eq!(plain.len(), 1);
    assert!(is_text(&plain[0], "no links here"));
}
