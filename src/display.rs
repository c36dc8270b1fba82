//! What the reader shows beside a story or a comment: where a story links
//! to, how long ago something was posted, and an author's profile page.
use vstd::prelude::*;

verus! {

/// Start of an author's profile address; the author's name follows.
pub const USER_PAGE_PREFIX: &'static str = "https://news.ycombinator.com/user?id=";

/// What `url::Url::parse` makes of a text: `None` if it is no URL, else the
/// URL's domain (if its host is one) and its serialization.
pub uninterp spec fn url_parsed(s: Seq<char>) -> Option<(Option<Seq<char>>, Seq<char>)>;

/// What `time_humanize::HumanTime::from_seconds` displays for a signed
/// number of seconds from now.
pub uninterp spec fn humanized(seconds: int) -> Seq<char>;

/// Relies on `url::Url::parse`, `url::Url::domain` and the URL's serialization.
#[verifier::external_body]
fn parse_url(s: &str) -> (r: Option<(Option<String>, String)>)
    ensures
        match r {
            Some(p) => url_parsed(s@) == Some((p.0.deep_view(), p.1@)),
            None => url_parsed(s@) is None,
        },
{
    let u = url::Url::parse(s).ok()?;
    Some((u.domain().map(|d| d.to_string()), u.to_string()))
}

/// Relies on `time_humanize::HumanTime::from_seconds` and its `Display`.
#[verifier::external_body]
fn humanize(seconds: i64) -> (r: String)
    ensures
        r@ == humanized(seconds as int),
{
    time_humanize::HumanTime::from_seconds(seconds).to_string()
}

/// A hyperlink: the text shown and the address it leads to.
#[derive(Clone, Debug)]
pub struct StoryLink {
    pub label: String,
    pub target: String,
}

/// The link shown beside a story's title: `None` when the story's URL does
/// not parse; otherwise labelled with the URL's domain, or with the URL as
/// given when it has none, and leading to the parsed URL.
pub fn story_link(url: &str) -> (r: Option<StoryLink>)
    ensures
        match url_parsed(url@) {
            None => r is None,
            Some((domain, target)) => r matches Some(l) && l.target@ == target && l.label@ == (
            match domain {
                Some(d) => d,
                None => url@,
            }),
        },
{
    match parse_url(url) {
        None => None,
        Some((domain, target)) => {
            let label = match domain {
                Some(d) => d,
                None => url.to_owned(),
            };
            Some(StoryLink { label, target })
        },
    }
}

/// How long ago (or ahead of `now`) something posted at `time` was, both in
/// seconds since the epoch.
pub fn relative_time(time: u64, now: u64) -> (r: String)
    requires
        time <= i64::MAX,
        now <= i64::MAX,
    ensures
        r@ == humanized(time - now),
{
    humanize(time as i64 - now as i64)
}

/// The profile address of an author.
pub fn user_url(user: &str) -> (r: String)
    ensures
        r@ == USER_PAGE_PREFIX@ + user@,
{
    let mut r = String::from_str(USER_PAGE_PREFIX);
    r.append(user);
    r
}

} // verus!
