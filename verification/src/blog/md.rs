//! The parts of Markdown processing that the blog adds: image links are
//! rebased into the post's directory, and paragraphs of the form `{{...}}`
//! hold custom elements.
use vstd::prelude::*;
use vstd::string::StringExecFns;

use crate::text::{chars_of, replace_all, replace_chars, string_from_chars};

verus! {

/// The front matter of a post.
#[derive(Clone, Debug)]
pub struct Metadata {
    pub title: String,
    pub commit: String,
}

/// One image with a caption.
#[derive(Clone, Debug)]
pub struct ImageSingle {
    pub image: String,
    pub text: String,
}

/// Two images side by side, each with a caption.
#[derive(Clone, Debug)]
pub struct ImagePair {
    pub left: String,
    pub left_text: String,
    pub right: String,
    pub right_text: String,
}

/// A video in two encodings.
#[derive(Clone, Debug)]
pub struct Video {
    pub h265: String,
    pub vp9: String,
}

/// An SVG file inlined into the page.
#[derive(Clone, Debug)]
pub struct InlineSvg {
    pub svg: String,
}

/// A custom element of a post.
#[derive(Clone, Debug)]
pub enum Element {
    Meta(Metadata),
    ImageSingle(ImageSingle),
    ImagePair(ImagePair),
    Video(Video),
    InlineSvg(InlineSvg),
}

/// What Markdown processing needs to know of the post being processed.
pub struct EventContext {
    pub dir: String,
}

/// A URL relative to a post, made relative to the blog.
pub open spec fn rebased_url(dir: Seq<char>, url: Seq<char>) -> Seq<char> {
    "posts/"@ + dir + "/"@ + url
}

/// Line breaks written `{{br}}` in captions become `<br/>` tags.
pub open spec fn unescape_text_spec(text: Seq<char>) -> Seq<char> {
    replace_all(text, "{{br}}"@, "<br/>"@)
}

/// Undoes the escaping of line breaks in captions.
pub fn unescape_text(text: &str) -> (r: String)
    ensures
        r@ == unescape_text_spec(text@),
{
    proof {
        reveal_strlit("{{br}}");
    }
    let replaced = replace_chars(&chars_of(text), &chars_of("{{br}}"), &chars_of("<br/>"));
    string_from_chars(replaced.as_slice())
}

/// Text that starts with `{{` and ends with `}}`.
pub open spec fn is_custom_element_spec(text: Seq<char>) -> bool {
    &&& text.len() >= 2
    &&& text[0] == '{' && text[1] == '{'
    &&& text[text.len() - 2] == '}' && text[text.len() - 1] == '}'
}

/// Whether a paragraph is a custom element.
pub fn is_custom_element(text: &str) -> (b: bool)
    ensures
        b == is_custom_element_spec(text@),
{
    let chars = chars_of(text);
    let n = chars.len();
    n >= 2 && chars[0] == '{' && chars[1] == '{' && chars[n - 2] == '}' && chars[n - 1] == '}'
}

/// The source of a custom element for the RON parser: backslashes doubled,
/// then the surrounding `{{` and `}}` taken off.
pub open spec fn custom_element_source_spec(text: Seq<char>) -> Seq<char> {
    let escaped = replace_all(text, "\\"@, "\\\\"@);
    escaped.subrange(2, escaped.len() - 2)
}

/// A custom element that starts with `{{` and ends with `}}` holds at least
/// four characters.
proof fn lemma_custom_element_len(text: Seq<char>)
    requires
        is_custom_element_spec(text),
    ensures
        text.len() >= 4,
{
    if text.len() == 2 {
        assert(text[0] == '}');
    }
    if text.len() == 3 {
        assert(text[1] == '}');
    }
}

/// Doubling backslashes keeps the two first and the two last characters when
/// they are braces.
proof fn lemma_escape_keeps_braces(text: Seq<char>)
    requires
        "\\"@ == seq!['\\'],
        "\\\\"@ == seq!['\\', '\\'],
        is_custom_element_spec(text),
    ensures
        is_custom_element_spec(replace_all(text, "\\"@, "\\\\"@)),
{
    lemma_custom_element_len(text);
    lemma_replace_backslash_ends(text);
}

/// Doubling backslashes in a text keeps its length at least, and keeps its
/// first two and last two characters when none of them is a backslash.
proof fn lemma_replace_backslash_ends(text: Seq<char>)
    requires
        "\\"@ == seq!['\\'],
        "\\\\"@ == seq!['\\', '\\'],
        text.len() >= 2,
        text[0] != '\\' && text[1] != '\\',
        text[text.len() - 2] != '\\' && text[text.len() - 1] != '\\',
    ensures
        ({
            let r = replace_all(text, "\\"@, "\\\\"@);
            &&& r.len() >= text.len()
            &&& r[0] == text[0] && r[1] == text[1]
            &&& r[r.len() - 2] == text[text.len() - 2] && r[r.len() - 1] == text[text.len() - 1]
        }),
{
    let from = "\\"@;
    let to = "\\\\"@;
    lemma_replace_backslash_suffix(text, text.len() - 2);
    assert(!crate::text::occurs_at(text, 0, from)) by {
        assert(text.subrange(0, 1)[0] == text[0]);
    }
    assert(replace_all(text, from, to) == seq![text[0]] + replace_all(text.skip(1), from, to));
    let t1 = text.skip(1);
    assert(!crate::text::occurs_at(t1, 0, from)) by {
        assert(t1.subrange(0, 1)[0] == text[1]);
    }
    if t1.len() > 0 {
        assert(replace_all(t1, from, to) == seq![t1[0]] + replace_all(t1.skip(1), from, to));
    }
}

/// Doubling backslashes in a text whose last two characters, from `k` on,
/// are not backslashes ends with those two characters, and does not shorten
/// the text.
proof fn lemma_replace_backslash_suffix(text: Seq<char>, k: int)
    requires
        "\\"@ == seq!['\\'],
        "\\\\"@ == seq!['\\', '\\'],
        0 <= k == text.len() - 2,
        text[k] != '\\' && text[k + 1] != '\\',
    ensures
        ({
            let r = replace_all(text, "\\"@, "\\\\"@);
            &&& r.len() >= text.len()
            &&& r[r.len() - 2] == text[k] && r[r.len() - 1] == text[k + 1]
        }),
    decreases text.len(),
{
    let from = "\\"@;
    let to = "\\\\"@;
    let r = replace_all(text, from, to);
    if k == 0 {
        assert(!crate::text::occurs_at(text, 0, from)) by {
            assert(text.subrange(0, 1)[0] == text[0]);
        }
        let t1 = text.skip(1);
        assert(!crate::text::occurs_at(t1, 0, from)) by {
            assert(t1.subrange(0, 1)[0] == text[1]);
        }
        let t2 = t1.skip(1);
        assert(t2.len() == 0);
        assert(replace_all(t2, from, to) == t2);
        assert(replace_all(t1, from, to) == seq![t1[0]] + replace_all(t2, from, to));
        assert(r == seq![text[0]] + replace_all(t1, from, to));
    } else {
        let t1 = text.skip(1);
        lemma_replace_backslash_suffix(t1, k - 1);
        if crate::text::occurs_at(text, 0, from) {
            assert(r == to + replace_all(t1, from, to));
        } else {
            assert(r == seq![text[0]] + replace_all(t1, from, to));
        }
    }
}

/// The RON source of a custom element.
pub fn custom_element_source(text: &str) -> (src: String)
    requires
        is_custom_element_spec(text@),
    ensures
        src@ == custom_element_source_spec(text@),
{
    proof {
        reveal_strlit("\\");
        reveal_strlit("\\\\");
        assert("\\"@ =~= seq!['\\']);
        assert("\\\\"@ =~= seq!['\\', '\\']);
        lemma_escape_keeps_braces(text@);
        lemma_custom_element_len(replace_all(text@, "\\"@, "\\\\"@));
    }
    let escaped = replace_chars(&chars_of(text), &chars_of("\\"), &chars_of("\\\\"));
    let n = escaped.len();
    let mut inner: Vec<char> = Vec::new();
    let mut i: usize = 2;
    while i < n - 2
        invariant
            n == escaped@.len(),
            n >= 4,
            2 <= i <= n - 2,
            inner@ == escaped@.subrange(2, i as int),
        decreases n - 2 - i,
    {
        inner.push(escaped[i]);
        i += 1;
        assert(inner@ =~= escaped@.subrange(2, i as int));
    }
    string_from_chars(inner.as_slice())
}

impl EventContext {
    /// Makes a URL relative to the post's directory relative to the blog.
    pub fn rebase_url(&self, url: &str) -> (r: String)
        ensures
            r@ == rebased_url(self.dir@, url@),
    {
        let mut r = String::from_str("posts/");
        r.append(self.dir.as_str());
        r.append("/");
        r.append(url);
        r
    }

    /// Prepares a custom element for its template: its URLs rebased and the
    /// line breaks of its captions unescaped. Front matter is left as it is.
    pub fn prepare_element(&self, element: Element) -> (r: Element)
        ensures
            match (element, r) {
                (Element::Meta(m), Element::Meta(m2)) => m2.title@ == m.title@ && m2.commit@
                    == m.commit@,
                (Element::ImageSingle(p), Element::ImageSingle(q)) => q.image@ == rebased_url(
                    self.dir@,
                    p.image@,
                ) && q.text@ == unescape_text_spec(p.text@),
                (Element::ImagePair(p), Element::ImagePair(q)) => q.left@ == rebased_url(
                    self.dir@,
                    p.left@,
                ) && q.right@ == rebased_url(self.dir@, p.right@) && q.left_text@
                    == unescape_text_spec(p.left_text@) && q.right_text@ == unescape_text_spec(
                    p.right_text@,
                ),
                (Element::Video(p), Element::Video(q)) => q.h265@ == rebased_url(self.dir@, p.h265@)
                    && q.vp9@ == rebased_url(self.dir@, p.vp9@),
                (Element::InlineSvg(p), Element::InlineSvg(q)) => q.svg@ == rebased_url(
                    self.dir@,
                    p.svg@,
                ),
                _ => false,
            },
    {
        match element {
            Element::Meta(m) => Element::Meta(m),
            Element::ImageSingle(p) => Element::ImageSingle(
                ImageSingle {
                    image: self.rebase_url(p.image.as_str()),
                    text: unescape_text(p.text.as_str()),
                },
            ),
            Element::ImagePair(p) => Element::ImagePair(
                ImagePair {
                    left: self.rebase_url(p.left.as_str()),
                    left_text: unescape_text(p.left_text.as_str()),
                    right: self.rebase_url(p.right.as_str()),
                    right_text: unescape_text(p.right_text.as_str()),
                },
            ),
            Element::Video(p) => Element::Video(
                Video { h265: self.rebase_url(p.h265.as_str()), vp9: self.rebase_url(p.vp9.as_str()) },
            ),
            Element::InlineSvg(p) => Element::InlineSvg(
                InlineSvg { svg: self.rebase_url(p.svg.as_str()) },
            ),
        }
    }
}

#[verifier::external_type_specification]
#[verifier::external_body]
pub struct ExMarkdownEvent<'a>(pulldown_cmark::Event<'a>);

#[verifier::external_type_specification]
#[verifier::external_body]
pub struct ExLinkType(pulldown_cmark::LinkType);

/// A Markdown event, as the parser gives it and the HTML writer takes it:
/// the events the blog changes are spelled out, the others carried as they
/// are.
pub enum MdEvent<'a> {
    /// A text node.
    Text(String),
    /// A piece of raw HTML.
    Html(String),
    /// The start of an image, with its link type, URL and title.
    Image { link_type: pulldown_cmark::LinkType, url: String, title: String },
    /// Any other event.
    Other(pulldown_cmark::Event<'a>),
}

/// The mathematical value of a Markdown event.
pub enum MdEventView<'a> {
    Text(Seq<char>),
    Html(Seq<char>),
    Image { link_type: pulldown_cmark::LinkType, url: Seq<char>, title: Seq<char> },
    Other(pulldown_cmark::Event<'a>),
}

impl<'a> View for MdEvent<'a> {
    type V = MdEventView<'a>;

    open spec fn view(&self) -> MdEventView<'a> {
        match self {
            MdEvent::Text(t) => MdEventView::Text(t@),
            MdEvent::Html(h) => MdEventView::Html(h@),
            MdEvent::Image { link_type, url, title } => MdEventView::Image {
                link_type: *link_type,
                url: url@,
                title: title@,
            },
            MdEvent::Other(e) => MdEventView::Other(*e),
        }
    }
}

/// The views of a list of events.
pub open spec fn event_views<'a>(ev: Seq<MdEvent<'a>>) -> Seq<MdEventView<'a>> {
    ev.map_values(|e: MdEvent<'a>| e@)
}

/// The events that pulldown-cmark parses from a post's Markdown, without
/// extensions.
pub uninterp spec fn markdown_events(md: Seq<char>) -> Seq<MdEventView<'static>>;

/// The HTML that pulldown-cmark writes for a list of events.
pub uninterp spec fn events_html(ev: Seq<MdEventView<'static>>) -> Seq<char>;

/// `pulldown_cmark::Parser::new_ext` without extensions, its events
/// collected. Trusted: the events depend on the Markdown alone.
#[verifier::external_body]
fn parse_markdown<'a>(md: &'a str) -> (ev: Vec<MdEvent<'a>>)
    ensures
        event_views(ev@) == markdown_events(md@),
{
    pulldown_cmark::Parser::new_ext(md, pulldown_cmark::Options::empty()).map(|e| match e {
        pulldown_cmark::Event::Text(t) => MdEvent::Text(t.to_string()),
        pulldown_cmark::Event::Html(h) => MdEvent::Html(h.to_string()),
        pulldown_cmark::Event::Start(pulldown_cmark::Tag::Image(link_type, url, title)) => {
            MdEvent::Image { link_type, url: url.to_string(), title: title.to_string() }
        },
        e => MdEvent::Other(e),
    }).collect()
}

/// `pulldown_cmark::html::push_html` into an empty string. Trusted: the HTML
/// depends on the events alone (writing into a `String` cannot fail).
#[verifier::external_body]
fn render_events<'a>(ev: Vec<MdEvent<'a>>) -> (html: String)
    ensures
        html@ == events_html(event_views(ev@)),
{
    let mut html = String::new();
    pulldown_cmark::html::push_html(&mut html, ev.into_iter().map(|e| match e {
        MdEvent::Text(t) => pulldown_cmark::Event::Text(t.into()),
        MdEvent::Html(h) => pulldown_cmark::Event::Html(h.into()),
        MdEvent::Image { link_type, url, title } => pulldown_cmark::Event::Start(
            pulldown_cmark::Tag::Image(link_type, url.into(), title.into()),
        ),
        MdEvent::Other(e) => e,
    }));
    html
}

/// A text event that holds a custom element.
pub open spec fn is_custom_text<'a>(e: MdEventView<'a>) -> bool {
    match e {
        MdEventView::Text(t) => is_custom_element_spec(t),
        _ => false,
    }
}

/// The number of custom elements among the events.
pub open spec fn custom_count<'a>(ev: Seq<MdEventView<'a>>) -> nat
    decreases ev.len(),
{
    if ev.len() == 0 {
        0
    } else {
        custom_count(ev.drop_last()) + if is_custom_text(ev.last()) {
            1nat
        } else {
            0nat
        }
    }
}

/// The RON sources of the custom elements among the events, in order.
pub open spec fn custom_sources<'a>(ev: Seq<MdEventView<'a>>) -> Seq<Seq<char>>
    decreases ev.len(),
{
    if ev.len() == 0 {
        seq![]
    } else {
        let before = custom_sources(ev.drop_last());
        match ev.last() {
            MdEventView::Text(t) => if is_custom_element_spec(t) {
                before.push(custom_element_source_spec(t))
            } else {
                before
            },
            _ => before,
        }
    }
}

/// There is one source per custom element.
proof fn lemma_custom_sources_len<'a>(ev: Seq<MdEventView<'a>>)
    ensures
        custom_sources(ev).len() == custom_count(ev),
    decreases ev.len(),
{
    if ev.len() > 0 {
        lemma_custom_sources_len(ev.drop_last());
    }
}

/// The RON sources of the custom elements of a post's Markdown, in the order
/// they come: what has to be read and expanded before `to_html` runs.
pub fn custom_element_sources(markdown: &str) -> (sources: Vec<String>)
    ensures
        sources@.map_values(|s: String| s@) == custom_sources(markdown_events(markdown@)),
        sources@.len() == custom_count(markdown_events(markdown@)),
{
    let ev = parse_markdown(markdown);
    let ghost evv = event_views(ev@);
    let mut sources: Vec<String> = Vec::new();
    let mut i: usize = 0;
    while i < ev.len()
        invariant
            evv == event_views(ev@),
            0 <= i <= ev@.len(),
            sources@.map_values(|s: String| s@) == custom_sources(evv.take(i as int)),
        decreases ev@.len() - i,
    {
        let ghost before = sources@.map_values(|s: String| s@);
        assert(evv.take(i + 1).drop_last() =~= evv.take(i as int));
        assert(evv.take(i + 1).last() == ev@[i as int]@);
        match &ev[i] {
            MdEvent::Text(t) => {
                if is_custom_element(t.as_str()) {
                    let source = custom_element_source(t.as_str());
                    sources.push(source);
                    assert(sources@.map_values(|s: String| s@) =~= before.push(source@));
                }
            },
            _ => {},
        }
        i += 1;
    }
    assert(evv.take(ev@.len() as int) =~= evv);
    proof {
        lemma_custom_sources_len(evv);
    }
    sources
}

/// What a custom element expands to: HTML, or front matter, which leaves no
/// HTML behind.
pub enum Expansion {
    Html(String),
    Meta(Metadata),
}

/// The HTML that an expansion leaves in the page.
pub open spec fn expansion_html(x: Expansion) -> Seq<char> {
    match x {
        Expansion::Html(h) => h@,
        Expansion::Meta(_) => seq![],
    }
}

/// The front matter of the first expansion that is one.
pub open spec fn first_meta(xs: Seq<Expansion>) -> Option<Metadata>
    decreases xs.len(),
{
    if xs.len() == 0 {
        None
    } else {
        match first_meta(xs.drop_last()) {
            Some(m) => Some(m),
            None => match xs.last() {
                Expansion::Meta(m) => Some(m),
                _ => None,
            },
        }
    }
}

/// An event of a post as the page shows it: image URLs rebased into the
/// post's directory with the title dropped, the custom element of rank
/// `rank` replaced by its expansion, other events kept.
pub open spec fn processed_event<'a>(e: MdEventView<'a>, dir: Seq<char>, xs: Seq<Expansion>, rank: int) -> MdEventView<'a> {
    match e {
        MdEventView::Image { link_type, url, title } => MdEventView::Image {
            link_type,
            url: rebased_url(dir, url),
            title: seq![],
        },
        MdEventView::Text(t) => if is_custom_element_spec(t) {
            MdEventView::Html(expansion_html(xs[rank]))
        } else {
            e
        },
        _ => e,
    }
}

/// The events of a post as the page shows them.
pub open spec fn processed_events<'a>(ev: Seq<MdEventView<'a>>, dir: Seq<char>, xs: Seq<Expansion>) -> Seq<MdEventView<'a>> {
    Seq::new(ev.len(), |i: int| processed_event(ev[i], dir, xs, custom_count(ev.take(i)) as int))
}

/// Why a post's Markdown could not be turned into HTML.
#[derive(Clone, Copy, Debug, PartialEq, Eq, Structural)]
pub enum MdError {
    /// The number of expansions is not the number of custom elements.
    ExpansionCount,
    /// No custom element is the post's front matter.
    MissingMeta,
}

/// Pops every element of `v`, giving them back last first.
fn reversed<T>(v: Vec<T>) -> (r: Vec<T>)
    ensures
        r@ == v@.reverse(),
{
    let ghost orig = v@;
    let mut v = v;
    let mut r: Vec<T> = Vec::new();
    while v.len() > 0
        invariant
            v@ == orig.take(v@.len() as int),
            v@.len() <= orig.len(),
            r@ == orig.skip(v@.len() as int).reverse(),
        decreases v@.len(),
    {
        let ghost n = v@.len();
        let x = v.pop().unwrap();
        proof {
            assert(v@ =~= orig.take(v@.len() as int));
            assert(orig.skip(v@.len() as int) =~= seq![x] + orig.skip(n as int));
            assert((seq![x] + orig.skip(n as int)).reverse() =~= orig.skip(n as int).reverse().push(x));
        }
        r.push(x);
    }
    assert(orig.skip(0) =~= orig);
    r
}

/// The events of a post with image URLs rebased and custom elements
/// replaced by their expansions, given in the order the elements come, and
/// the post's front matter: the first expansion that is one.
pub fn process_events<'a>(ev: Vec<MdEvent<'a>>, dir_name: &str, expansions: Vec<Expansion>) -> (res:
    Result<(Vec<MdEvent<'a>>, Metadata), MdError>)
    ensures
        custom_count(event_views(ev@)) != expansions@.len() ==> res == Err::<
            (Vec<MdEvent<'a>>, Metadata),
            MdError,
        >(MdError::ExpansionCount),
        custom_count(event_views(ev@)) == expansions@.len() && first_meta(expansions@) is None
            ==> res == Err::<(Vec<MdEvent<'a>>, Metadata), MdError>(MdError::MissingMeta),
        custom_count(event_views(ev@)) == expansions@.len() && first_meta(expansions@) is Some
            ==> (res matches Ok((out, meta)) && event_views(out@) == processed_events(
            event_views(ev@),
            dir_name@,
            expansions@,
        ) && first_meta(expansions@) == Some(meta)),
{
    let ghost evv = event_views(ev@);
    let ghost xs = expansions@;
    let n = ev.len();
    // Count the custom elements.
    let mut count: usize = 0;
    let mut i: usize = 0;
    while i < n
        invariant
            n == ev@.len(),
            evv == event_views(ev@),
            0 <= i <= n,
            count == custom_count(evv.take(i as int)),
            count <= i,
        decreases n - i,
    {
        assert(evv.take(i + 1).drop_last() =~= evv.take(i as int));
        assert(evv.take(i + 1).last() == ev@[i as int]@);
        match &ev[i] {
            MdEvent::Text(t) => {
                if is_custom_element(t.as_str()) {
                    count += 1;
                }
            },
            _ => {},
        }
        i += 1;
    }
    assert(evv.take(n as int) =~= evv);
    if count != expansions.len() {
        return Err(MdError::ExpansionCount);
    }
    let ctx = EventContext { dir: dir_name.to_string() };
    let mut rest_ev = reversed(ev);
    let mut rest_xs = reversed(expansions);
    let mut out: Vec<MdEvent<'a>> = Vec::new();
    let mut meta: Option<Metadata> = None;
    let mut rank: usize = 0;
    let mut k: usize = 0;
    while k < n
        invariant
            n == evv.len(),
            ctx.dir@ == dir_name@,
            0 <= k <= n,
            rest_ev@.len() == n - k,
            forall|j: int| 0 <= j < n - k ==> #[trigger] rest_ev@[j]@ == evv[n - 1 - j],
            rank == custom_count(evv.take(k as int)),
            custom_count(evv) == xs.len(),
            xs.len() == count,
            rank <= xs.len(),
            rest_xs@.len() == xs.len() - rank,
            forall|j: int| 0 <= j < xs.len() - rank ==> #[trigger] rest_xs@[j] == xs[xs.len() - 1 - j],
            meta == first_meta(xs.take(rank as int)),
            event_views(out@) == processed_events(evv, dir_name@, xs).take(k as int),
        decreases n - k,
    {
        proof {
            assert(evv.take(k + 1).drop_last() =~= evv.take(k as int));
            lemma_custom_count_prefix(evv, k + 1);
        }
        let e = rest_ev.pop().unwrap();
        assert(e@ == evv[k as int]);
        let ghost expected = processed_event(evv[k as int], dir_name@, xs, rank as int);
        let ghost out_before = event_views(out@);
        match e {
            MdEvent::Image { link_type, url, title } => {
                let url = ctx.rebase_url(url.as_str());
                out.push(MdEvent::Image { link_type, url, title: String::new() });
            },
            MdEvent::Text(t) => {
                if is_custom_element(t.as_str()) {
                    assert(rank < xs.len());
                    let x = rest_xs.pop().unwrap();
                    assert(x == xs[rank as int]);
                    proof {
                        assert(xs.take(rank + 1).drop_last() =~= xs.take(rank as int));
                    }
                    match x {
                        Expansion::Html(h) => {
                            out.push(MdEvent::Html(h));
                        },
                        Expansion::Meta(m) => {
                            out.push(MdEvent::Html(String::new()));
                            if meta.is_none() {
                                meta = Some(m);
                            }
                        },
                    }
                    rank += 1;
                } else {
                    out.push(MdEvent::Text(t));
                }
            },
            MdEvent::Html(h) => {
                out.push(MdEvent::Html(h));
            },
            MdEvent::Other(o) => {
                out.push(MdEvent::Other(o));
            },
        }
        proof {
            assert(event_views(out@) =~= out_before.push(expected));
            assert(processed_events(evv, dir_name@, xs).take(k + 1) =~= processed_events(
                evv,
                dir_name@,
                xs,
            ).take(k as int).push(expected));
        }
        k += 1;
    }
    assert(processed_events(evv, dir_name@, xs).take(n as int) =~= processed_events(
        evv,
        dir_name@,
        xs,
    ));
    assert(xs.take(rank as int) =~= xs);
    match meta {
        Some(m) => Ok((out, m)),
        None => Err(MdError::MissingMeta),
    }
}

/// Counting the custom elements of a longer prefix adds the next event.
proof fn lemma_custom_count_prefix<'a>(ev: Seq<MdEventView<'a>>, k: int)
    requires
        0 < k <= ev.len(),
    ensures
        custom_count(ev.take(k)) == custom_count(ev.take(k - 1)) + if is_custom_text(ev[k - 1]) {
            1nat
        } else {
            0nat
        },
        custom_count(ev.take(k)) <= custom_count(ev),
    decreases ev.len() - k,
{
    assert(ev.take(k).drop_last() =~= ev.take(k - 1));
    if k < ev.len() {
        lemma_custom_count_prefix(ev, k + 1);
    } else {
        assert(ev.take(k) =~= ev);
    }
}

/// The HTML of a post and its front matter: the Markdown parsed, image URLs
/// rebased into the post's directory, custom elements replaced by their
/// expansions (given in the order `custom_element_sources` lists the
/// elements), and the events written as HTML.
pub fn to_html(markdown: &str, dir_name: &str, expansions: Vec<Expansion>) -> (res: Result<(String, Metadata), MdError>)
    ensures
        ({
            let ev = markdown_events(markdown@);
            &&& custom_count(ev) != expansions@.len() ==> res == Err::<(String, Metadata), MdError>(
                MdError::ExpansionCount,
            )
            &&& custom_count(ev) == expansions@.len() && first_meta(expansions@) is None ==> res
                == Err::<(String, Metadata), MdError>(MdError::MissingMeta)
            &&& custom_count(ev) == expansions@.len() && first_meta(expansions@) is Some ==> (res
                matches Ok((html, meta)) && html@ == events_html(
                processed_events(ev, dir_name@, expansions@),
            ) && first_meta(expansions@) == Some(meta))
        }),
{
    let ev = parse_markdown(markdown);
    match process_events(ev, dir_name, expansions) {
        Ok((out, meta)) => {
            let html = render_events(out);
            Ok((html, meta))
        },
        Err(e) => Err(e),
    }
}

} // verus!