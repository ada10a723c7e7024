//! The blog: posts written in Markdown with math, turned into one page.
use vstd::prelude::*;
use vstd::string::{StringExecFns, StringSliceAdditionalSpecFns};

pub mod expr;
pub mod input;
pub mod md;

verus! {

/// What creating a new post needs.
#[derive(Clone, Debug)]
pub struct NewArgs {
    pub title: String,
    pub link_name: String,
}

/// The directory name and the Markdown of a new post.
#[derive(Clone, Debug)]
pub struct NewPost {
    pub dir_name: String,
    pub markdown: String,
}

/// The commit hash that a new post starts with: forty zeros.
pub open spec fn zero_commit_spec() -> Seq<char> {
    Seq::new(40, |i: int| '0')
}

/// Forty zeros.
pub fn zero_commit() -> (c: String)
    ensures
        c@ == zero_commit_spec(),
{
    let mut chars: Vec<char> = Vec::new();
    let mut i: usize = 0;
    while i < 40
        invariant
            0 <= i <= 40,
            chars@ == Seq::new(i as nat, |k: int| '0'),
        decreases 40 - i,
    {
        chars.push('0');
        i += 1;
        assert(chars@ =~= Seq::new(i as nat, |k: int| '0'));
    }
    crate::text::string_from_chars(chars.as_slice())
}

/// The Markdown of a new post: a front matter element with its title and
/// commit.
pub open spec fn new_post_markdown(title: Seq<char>, commit: Seq<char>) -> Seq<char> {
    "{{Meta((title:\""@ + title + "\", commit:\""@ + commit + "\"))}}"@
}

/// The directory name and Markdown of a new post created at `timestamp`.
pub fn new_post(args: &NewArgs, timestamp: &str) -> (post: NewPost)
    ensures
        post.dir_name@ == timestamp@ + "-"@ + args.link_name@,
        post.markdown@ == new_post_markdown(args.title@, zero_commit_spec()),
{
    let commit = zero_commit();
    let mut dir_name = String::from_str(timestamp);
    dir_name.append("-");
    dir_name.append(args.link_name.as_str());
    let mut markdown = String::from_str("{{Meta((title:\"");
    markdown.append(args.title.as_str());
    markdown.append("\", commit:\"");
    markdown.append(commit.as_str());
    markdown.append("\"))}}");
    NewPost { dir_name, markdown }
}

/// The articles of the page, separated by rules.
pub open spec fn joined_articles(htmls: Seq<Seq<char>>) -> Seq<char>
    decreases htmls.len(),
{
    if htmls.len() == 0 {
        seq![]
    } else if htmls.len() == 1 {
        htmls[0]
    } else {
        joined_articles(htmls.drop_last()) + "<hr>"@ + htmls.last()
    }
}

/// Joins the HTML of the posts, a rule between each two.
pub fn join_articles(htmls: &Vec<String>) -> (articles: String)
    ensures
        articles@ == joined_articles(htmls@.map_values(|h: String| h@)),
{
    let ghost hs = htmls@.map_values(|h: String| h@);
    let mut articles = String::new();
    let post_count = htmls.len();
    let mut index: usize = 0;
    while index < post_count
        invariant
            post_count == htmls@.len(),
            hs == htmls@.map_values(|h: String| h@),
            0 <= index <= post_count,
            articles@ == joined_articles(hs.take(index as int)) + if 0 < index < post_count {
                "<hr>"@
            } else {
                Seq::<char>::empty()
            },
        decreases post_count - index,
    {
        let ghost before = articles@;
        articles.append(htmls[index].as_str());
        if index < post_count - 1 {
            articles.append("<hr>");
        }
        proof {
            let t = hs.take(index + 1);
            assert(t.drop_last() =~= hs.take(index as int));
            if index == 0 {
                assert(joined_articles(t) == t[0]);
            }
        }
        assert(articles@ =~= joined_articles(hs.take(index + 1)) + if 0 < index + 1 < post_count {
            "<hr>"@
        } else {
            Seq::<char>::empty()
        });
        index += 1;
    }
    assert(hs.take(post_count as int) =~= hs);
    assert(articles@ =~= joined_articles(hs));
    articles
}

/// The short form of a commit hash shown under a post: its first eight
/// bytes.
pub fn commit_short(commit: &str) -> (short: &str)
    requires
        commit.spec_bytes().len() >= 8,
        vstd::utf8::is_char_boundary(commit.spec_bytes(), 8),
    ensures
        short.spec_bytes() == commit.spec_bytes().subrange(0, 8),
        short@ == vstd::utf8::decode_utf8(commit.spec_bytes().subrange(0, 8)),
{
    proof {
        vstd::utf8::encode_utf8_valid_utf8(commit@);
        vstd::utf8::is_char_boundary_start_end_of_seq(commit.spec_bytes());
    }
    crate::text::substring_bytes(commit, 0, 8)
}

/// Doubling backslashes leaves a text without backslashes as it is.
proof fn lemma_no_backslash_unchanged(s: Seq<char>)
    requires
        "\\"@ == seq!['\\'],
        forall|i: int| 0 <= i < s.len() ==> s[i] != '\\',
    ensures
        crate::text::replace_all(s, "\\"@, "\\\\"@) == s,
    decreases s.len(),
{
    if s.len() > 0 {
        assert(!crate::text::occurs_at(s, 0, "\\"@)) by {
            assert(s.subrange(0, 1)[0] == s[0]);
        }
        lemma_no_backslash_unchanged(s.skip(1));
        assert(seq![s[0]] + s.skip(1) =~= s);
    }
}

/// Law: the Markdown of a new post is one custom element, whose source is
/// the post's front matter, `Meta((title:"..", commit:".."))`, when neither
/// the title nor the commit holds a backslash.
pub proof fn lemma_new_post_front_matter(title: Seq<char>, commit: Seq<char>)
    requires
        forall|i: int| 0 <= i < title.len() ==> title[i] != '\\',
        forall|i: int| 0 <= i < commit.len() ==> commit[i] != '\\',
    ensures
        md::is_custom_element_spec(new_post_markdown(title, commit)),
        md::custom_element_source_spec(new_post_markdown(title, commit)) == "Meta((title:\""@
            + title + "\", commit:\""@ + commit + "\"))"@,
{
    reveal_strlit("{{Meta((title:\"");
    reveal_strlit("\", commit:\"");
    reveal_strlit("\"))}}");
    reveal_strlit("Meta((title:\"");
    reveal_strlit("\"))");
    reveal_strlit("\\");
    reveal_strlit("\\\\");
    assert("\\"@ =~= seq!['\\']);
    let md_text = new_post_markdown(title, commit);
    assert forall|i: int| 0 <= i < md_text.len() implies md_text[i] != '\\' by {
        let a = "{{Meta((title:\""@;
        let b = "\", commit:\""@;
        if i < a.len() {
        } else if i < a.len() + title.len() {
            assert(md_text[i] == title[i - a.len()]);
        } else if i < a.len() + title.len() + b.len() {
        } else if i < a.len() + title.len() + b.len() + commit.len() {
            assert(md_text[i] == commit[i - a.len() - title.len() - b.len()]);
        } else {
        }
    }
    lemma_no_backslash_unchanged(md_text);
    assert(md::custom_element_source_spec(md_text) =~= "Meta((title:\""@ + title + "\", commit:\""@
        + commit + "\"))"@);
}

} // verus!
