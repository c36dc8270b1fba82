//! Comment bodies: entity decoding, paragraphs, and the links found in them.
use vstd::prelude::*;

verus! {

/// Paragraph marker in a comment body.
pub const PARAGRAPH_MARKER: &'static str = "<p>";

/// An anchor element: group 1 is a double-quoted target, group 2 a
/// single-quoted one, group 3 the label.
pub const ANCHOR_PATTERN: &'static str = r#"<a\s+href=(?:"([^"]+)"|'([^']+)').*?>(.*?)</a>"#;

/// What `html_escape::decode_html_entities` makes of a text.
pub uninterp spec fn entities_decoded(s: Seq<char>) -> Seq<char>;

/// Groups 1, 2 and 3 of each successive match of a regular expression in a
/// text, as `regex::Regex::captures_iter` reports them.
pub uninterp spec fn regex_captures(pattern: Seq<char>, text: Seq<char>) -> Seq<
    (Option<Seq<char>>, Option<Seq<char>>, Option<Seq<char>>),
>;

/// Whether `d` occurs in `s` at position `i`.
pub open spec fn occurs_at(s: Seq<char>, d: Seq<char>, i: int) -> bool {
    0 <= i && i + d.len() <= s.len() && s.subrange(i, i + d.len()) == d
}

/// The pieces of `s[start..]` between non-overlapping occurrences of `d`,
/// found from the left, where no occurrence starts in `s[start..i]`.
pub open spec fn split_from(s: Seq<char>, d: Seq<char>, start: int, i: int) -> Seq<Seq<char>>
    decreases s.len() - i,
{
    if d.len() == 0 || i + d.len() > s.len() || i < start || start < 0 {
        seq![s.subrange(start, s.len() as int)]
    } else if occurs_at(s, d, i) {
        seq![s.subrange(start, i)] + split_from(s, d, i + d.len(), i + d.len())
    } else {
        split_from(s, d, start, i + 1)
    }
}

/// The pieces of `s` between the occurrences of a non-empty delimiter `d`,
/// as `str::split` yields them: always at least one piece.
pub open spec fn split_on(s: Seq<char>, d: Seq<char>) -> Seq<Seq<char>> {
    split_from(s, d, 0, 0)
}

/// Relies on `html_escape::decode_html_entities`, whose result depends on the text alone.
#[verifier::external_body]
fn decode_entities(s: &str) -> (r: String)
    ensures
        r@ == entities_decoded(s@),
{
    html_escape::decode_html_entities(s).into_owned()
}

/// Relies on `str::split` with a string pattern: the pieces between
/// non-overlapping occurrences of the delimiter, searched from the left.
#[verifier::external_body]
fn split_text(s: &str, d: &str) -> (r: Vec<String>)
    requires
        d@.len() > 0,
    ensures
        r@.len() == split_on(s@, d@).len(),
        forall|i: int| 0 <= i < r@.len() ==> #[trigger] r@[i]@ == split_on(s@, d@)[i],
{
    s.split(d).map(|p| p.to_string()).collect()
}

/// The captures of one match of the anchor pattern.
#[derive(Clone, Debug)]
pub struct AnchorCapture {
    pub double_quoted: Option<String>,
    pub single_quoted: Option<String>,
    pub label: Option<String>,
}

impl AnchorCapture {
    pub open spec fn groups(&self) -> (Option<Seq<char>>, Option<Seq<char>>, Option<Seq<char>>) {
        (self.double_quoted.deep_view(), self.single_quoted.deep_view(), self.label.deep_view())
    }
}

/// Relies on `regex::Regex::new` and `regex::Regex::captures_iter`: `None` when
/// the pattern does not compile, otherwise groups 1 to 3 of every match. The
/// anchor pattern is valid syntax and far below the size limit, so it compiles.
#[verifier::external_body]
fn find_captures(pattern: &str, text: &str) -> (r: Option<Vec<AnchorCapture>>)
    ensures
        pattern@ == ANCHOR_PATTERN@ ==> r is Some,
        r matches Some(v) ==> {
            &&& v@.len() == regex_captures(pattern@, text@).len()
            &&& forall|i: int|
                0 <= i < v@.len() ==> #[trigger] v@[i].groups() == regex_captures(
                    pattern@,
                    text@,
                )[i]
        },
{
    let re = regex::Regex::new(pattern).ok()?;
    Some(re.captures_iter(text).map(|c| AnchorCapture {
        double_quoted: c.get(1).map(|m| m.as_str().to_string()),
        single_quoted: c.get(2).map(|m| m.as_str().to_string()),
        label: c.get(3).map(|m| m.as_str().to_string()),
    }).collect())
}

/// A piece of a rendered paragraph.
#[derive(Clone, Debug)]
pub enum Fragment {
    /// Plain text.
    Text(String),
    /// A hyperlink with a label.
    Link { label: String, target: String },
    /// A hyperlink shown as its own target.
    Url(String),
}

/// The abstract value of a fragment.
pub ghost enum FragmentView {
    Text(Seq<char>),
    Link(Seq<char>, Seq<char>),
    Url(Seq<char>),
}

impl View for Fragment {
    type V = FragmentView;

    open spec fn view(&self) -> FragmentView {
        match self {
            Fragment::Text(t) => FragmentView::Text(t@),
            Fragment::Link { label, target } => FragmentView::Link(label@, target@),
            Fragment::Url(t) => FragmentView::Url(t@),
        }
    }
}

/// The abstract values of a sequence of fragments.
pub open spec fn fragment_views(v: Seq<Fragment>) -> Seq<FragmentView> {
    v.map_values(|f: Fragment| f@)
}

/// The link one anchor match stands for: its target is the double-quoted one
/// if present, else the single-quoted one; a match with no target gives none.
pub open spec fn capture_link(
    g: (Option<Seq<char>>, Option<Seq<char>>, Option<Seq<char>>),
) -> Option<FragmentView> {
    let target = match g.0 {
        Some(t) => Some(t),
        None => g.1,
    };
    match target {
        Some(t) => match g.2 {
            Some(l) => Some(FragmentView::Link(l, t)),
            None => Some(FragmentView::Url(t)),
        },
        None => None,
    }
}

/// The links of a sequence of anchor matches, in order.
pub open spec fn capture_links(
    caps: Seq<(Option<Seq<char>>, Option<Seq<char>>, Option<Seq<char>>)>,
) -> Seq<FragmentView>
    decreases caps.len(),
{
    if caps.len() == 0 {
        Seq::empty()
    } else {
        let n = caps.len() - 1;
        capture_links(caps.take(n)) + match capture_link(caps[n]) {
            Some(f) => seq![f],
            None => Seq::empty(),
        }
    }
}

/// A paragraph with its anchor matches: the paragraph as plain text when
/// nothing matched, else only the links (text beside an anchor is not kept).
pub open spec fn paragraph_view(
    part: Seq<char>,
    caps: Seq<(Option<Seq<char>>, Option<Seq<char>>, Option<Seq<char>>)>,
) -> Seq<FragmentView> {
    if caps.len() == 0 {
        seq![FragmentView::Text(part)]
    } else {
        capture_links(caps)
    }
}

fn clone_text(s: &String) -> (r: String)
    ensures
        r@ == s@,
{
    s.clone()
}

/// The fragments of a paragraph, given the anchor matches found in it.
pub fn fragments_from_captures(part: &str, captures: &Vec<AnchorCapture>) -> (r: Vec<Fragment>)
    ensures
        fragment_views(r@) == paragraph_view(
            part@,
            captures@.map_values(|c: AnchorCapture| c.groups()),
        ),
{
    let ghost caps = captures@.map_values(|c: AnchorCapture| c.groups());
    let mut r: Vec<Fragment> = Vec::new();
    if captures.len() == 0 {
        r.push(Fragment::Text(part.to_owned()));
        assert(fragment_views(r@) =~= seq![FragmentView::Text(part@)]);
        return r;
    }
    let mut i: usize = 0;
    while i < captures.len()
        invariant
            i <= captures@.len(),
            caps == captures@.map_values(|c: AnchorCapture| c.groups()),
            fragment_views(r@) == capture_links(caps.take(i as int)),
        decreases captures@.len() - i,
    {
        let c = &captures[i];
        let ghost before = r@;
        let target = match &c.double_quoted {
            Some(t) => Some(t),
            None => c.single_quoted.as_ref(),
        };
        match target {
            Some(t) => match &c.label {
                Some(l) => r.push(Fragment::Link { label: clone_text(l), target: clone_text(t) }),
                None => r.push(Fragment::Url(clone_text(t))),
            },
            None => {},
        }
        assert(caps.take(i + 1).take(i as int) =~= caps.take(i as int));
        assert(caps.take(i + 1)[i as int] == c.groups());
        assert(fragment_views(r@) =~= fragment_views(before) + match capture_link(c.groups()) {
            Some(f) => seq![f],
            None => Seq::<FragmentView>::empty(),
        });
        i = i + 1;
    }
    assert(caps.take(captures@.len() as int) =~= caps);
    r
}

/// The fragments of one paragraph: those of the paragraph with the matches of
/// the anchor pattern in it.
pub fn paragraph_fragments(part: &str) -> (r: Vec<Fragment>)
    ensures
        fragment_views(r@) == paragraph_view(part@, regex_captures(ANCHOR_PATTERN@, part@)),
{
    let captures = find_captures(ANCHOR_PATTERN, part).unwrap();
    let r = fragments_from_captures(part, &captures);
    assert(captures@.map_values(|c: AnchorCapture| c.groups()) =~= regex_captures(
        ANCHOR_PATTERN@,
        part@,
    ));
    r
}

/// The paragraphs of a comment body, each as its fragments: the body's HTML
/// entities are decoded, the result is split at each paragraph marker, and
/// each piece is rendered as `paragraph_fragments` does.
pub fn comment_fragments(body: &str) -> (r: Vec<Vec<Fragment>>)
    ensures
        r@.len() == split_on(entities_decoded(body@), PARAGRAPH_MARKER@).len(),
        forall|i: int|
            0 <= i < r@.len() ==> {
                let p = #[trigger] split_on(entities_decoded(body@), PARAGRAPH_MARKER@)[i];
                fragment_views(r@[i]@) == paragraph_view(p, regex_captures(ANCHOR_PATTERN@, p))
            },
{
    let decoded = decode_entities(body);
    proof {
        reveal_strlit("<p>");
    }
    let parts = split_text(decoded.as_str(), PARAGRAPH_MARKER);
    let ghost pieces = split_on(entities_decoded(body@), PARAGRAPH_MARKER@);
    let mut r: Vec<Vec<Fragment>> = Vec::new();
    let mut i: usize = 0;
    while i < parts.len()
        invariant
            i <= parts@.len(),
            parts@.len() == pieces.len(),
            forall|j: int| 0 <= j < parts@.len() ==> #[trigger] parts@[j]@ == pieces[j],
            r@.len() == i,
            forall|j: int|
                0 <= j < i ==> {
                    let p = #[trigger] pieces[j];
                    fragment_views(r@[j]@) == paragraph_view(p, regex_captures(ANCHOR_PATTERN@, p))
                },
        decreases parts@.len() - i,
    {
        let f = paragraph_fragments(parts[i].as_str());
        r.push(f);
        i = i + 1;
    }
    r
}

} // verus!
