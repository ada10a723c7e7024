//! Rendering the math of a post: text between `$$` pairs is display math,
//! text between `$` pairs inline math, both rendered by KaTeX.
use vstd::prelude::*;

use crate::text::{chars_of, occurs_at, replace_all, replace_chars, string_from_chars};

verus! {

/// The pieces of `s` between occurrences of `d`, occurrences being found
/// from left to right without overlapping (what `str::split` gives), with
/// `cur` put in front of the first piece.
pub open spec fn split_acc(s: Seq<char>, d: Seq<char>, cur: Seq<char>) -> Seq<Seq<char>>
    decreases s.len(),
{
    if d.len() == 0 || s.len() == 0 {
        seq![cur + s]
    } else if occurs_at(s, 0, d) {
        seq![cur] + split_acc(s.skip(d.len() as int), d, seq![])
    } else {
        split_acc(s.skip(1), d, cur.push(s[0]))
    }
}

/// The pieces of `s` between occurrences of `d`.
pub open spec fn split_on(s: Seq<char>, d: Seq<char>) -> Seq<Seq<char>> {
    split_acc(s, d, seq![])
}

/// The HTML that KaTeX renders for a LaTeX expression, in display or inline
/// mode, with HTML output and trusted commands allowed, or `None` when KaTeX
/// refuses the expression.
pub uninterp spec fn katex_html(expr: Seq<char>, display_mode: bool) -> Option<Seq<char>>;

#[verifier::external_type_specification]
#[verifier::external_body]
pub struct ExKatexError(katex::Error);

/// `katex::render_with_opts`, with options built as the blog builds them:
/// the given display mode, HTML output, trusted commands. Trusted: whether it
/// succeeds, and the HTML it gives, depend on the expression and the options
/// alone (KaTeX runs as a pure function of them); what the error holds is not
/// stated.
#[verifier::external_body]
fn katex_render(expr: &str, display_mode: bool) -> (res: Result<String, katex::Error>)
    ensures
        match res {
            Ok(html) => katex_html(expr@, display_mode) == Some(html@),
            Err(_) => katex_html(expr@, display_mode) is None,
        },
{
    let mut opts = katex::Opts::default();
    opts.set_display_mode(display_mode);
    opts.set_output_type(katex::OutputType::Html);
    opts.set_trust(true);
    katex::render_with_opts(expr, &opts)
}

/// Why the math of a post could not be rendered.
#[derive(Debug)]
pub enum MathError {
    /// A delimiter has no closing partner.
    OddDelimiterCount,
    /// KaTeX refused an expression.
    Katex(katex::Error),
}

/// What undoing the escapes of the Markdown renderer does: `&amp;` becomes
/// `&`, Windows line ends become `\n`, and a backslash before a line end
/// becomes a double backslash.
pub open spec fn unescape_expression_spec(expr: Seq<char>) -> Seq<char> {
    replace_all(
        replace_all(replace_all(expr, "&amp;"@, "&"@), "\r\n"@, "\n"@),
        "\\\n"@,
        "\\\\"@,
    )
}

fn unescape_expression_chars(expr: &Vec<char>) -> (r: Vec<char>)
    ensures
        r@ == unescape_expression_spec(expr@),
{
    proof {
        reveal_strlit("&amp;");
        reveal_strlit("\r\n");
        reveal_strlit("\\\n");
    }
    let r1 = replace_chars(expr, &chars_of("&amp;"), &chars_of("&"));
    let r2 = replace_chars(&r1, &chars_of("\r\n"), &chars_of("\n"));
    replace_chars(&r2, &chars_of("\\\n"), &chars_of("\\\\"))
}

/// Undoes the escapes that the Markdown renderer puts into math.
pub fn unescape_expression(expr: &str) -> (r: String)
    ensures
        r@ == unescape_expression_spec(expr@),
{
    let chars = unescape_expression_chars(&chars_of(expr));
    string_from_chars(chars.as_slice())
}

/// The text between delimiter pairs replaced by its rendering: pieces at even
/// positions are kept, pieces at odd positions rendered; `None` as soon as
/// KaTeX refuses one of them.
pub open spec fn weave_math(pieces: Seq<Seq<char>>, display_mode: bool) -> Option<Seq<char>>
    decreases pieces.len(),
{
    if pieces.len() == 0 {
        Some(seq![])
    } else {
        match weave_math(pieces.drop_last(), display_mode) {
            None => None,
            Some(prefix) => if (pieces.len() - 1) % 2 == 0 {
                Some(prefix + pieces.last())
            } else {
                match katex_html(unescape_expression_spec(pieces.last()), display_mode) {
                    Some(html) => Some(prefix + html),
                    None => None,
                }
            },
        }
    }
}

/// Once a piece is refused, so is every longer run of pieces.
proof fn lemma_weave_refused_stays_refused(pieces: Seq<Seq<char>>, k: int, display_mode: bool)
    requires
        0 <= k <= pieces.len(),
        weave_math(pieces.take(k), display_mode) is None,
    ensures
        weave_math(pieces, display_mode) is None,
    decreases pieces.len() - k,
{
    if k < pieces.len() {
        assert(pieces.take(k + 1).drop_last() =~= pieces.take(k));
        lemma_weave_refused_stays_refused(pieces, k + 1, display_mode);
    } else {
        assert(pieces.take(k) =~= pieces);
    }
}

/// `split_acc` always gives at least one piece.
proof fn lemma_split_acc_nonempty(s: Seq<char>, d: Seq<char>, cur: Seq<char>)
    ensures
        split_acc(s, d, cur).len() >= 1,
    decreases s.len(),
{
    if d.len() == 0 || s.len() == 0 {
    } else if occurs_at(s, 0, d) {
        lemma_split_acc_nonempty(s.skip(d.len() as int), d, seq![]);
    } else {
        lemma_split_acc_nonempty(s.skip(1), d, cur.push(s[0]));
    }
}

/// Splits `s` at the occurrences of `d`.
fn split_chars(s: &Vec<char>, d: &Vec<char>) -> (pieces: Vec<Vec<char>>)
    requires
        d@.len() > 0,
    ensures
        pieces@.map_values(|p: Vec<char>| p@) == split_on(s@, d@),
        pieces@.len() >= 1,
{
    let mut pieces: Vec<Vec<char>> = Vec::new();
    let mut cur: Vec<char> = Vec::new();
    let mut i: usize = 0;
    assert(s@.skip(0) =~= s@);
    assert(pieces@.map_values(|p: Vec<char>| p@) + split_acc(s@, d@, cur@) =~= split_on(s@, d@));
    while i < s.len()
        invariant
            d@.len() > 0,
            0 <= i <= s@.len(),
            pieces@.map_values(|p: Vec<char>| p@) + split_acc(s@.skip(i as int), d@, cur@)
                == split_on(s@, d@),
        decreases s@.len() - i,
    {
        let ghost rest = s@.skip(i as int);
        let ghost before = pieces@.map_values(|p: Vec<char>| p@);
        let found = matches_at_checked(s, i, d);
        assert(found == occurs_at(rest, 0, d@)) by {
            if i + d@.len() <= s@.len() {
                assert(s@.subrange(i as int, i + d@.len()) =~= rest.subrange(0, d@.len() as int));
            }
        }
        if found {
            let piece = cur;
            cur = Vec::new();
            pieces.push(piece);
            assert(rest.skip(d@.len() as int) =~= s@.skip(i + d@.len()));
            assert(pieces@.map_values(|p: Vec<char>| p@) =~= before.push(piece@));
            assert(cur@ =~= Seq::<char>::empty());
            assert(before + split_acc(rest, d@, piece@) =~= before.push(piece@) + split_acc(
                s@.skip(i + d@.len()),
                d@,
                cur@,
            ));
            i = i + d.len();
        } else {
            let ghost old_cur = cur@;
            cur.push(s[i]);
            assert(rest.skip(1) =~= s@.skip(i + 1));
            assert(cur@ == old_cur.push(rest[0]));
            i = i + 1;
        }
    }
    let ghost before = pieces@.map_values(|p: Vec<char>| p@);
    assert(s@.skip(i as int) =~= Seq::<char>::empty());
    assert(split_acc(s@.skip(i as int), d@, cur@) =~= seq![cur@ + Seq::<char>::empty()]);
    assert(cur@ + Seq::<char>::empty() =~= cur@);
    let last = cur;
    pieces.push(last);
    assert(pieces@.map_values(|p: Vec<char>| p@) =~= before + seq![last@]);
    pieces
}

/// Whether `d` occurs in `s` at `i`.
fn matches_at_checked(s: &Vec<char>, i: usize, d: &Vec<char>) -> (b: bool)
    ensures
        b == occurs_at(s@, i as int, d@),
{
    crate::text::matches_at(s, i, d)
}

/// Renders the math between pairs of `delim` in `html`, leaving the rest as it
/// is; fails when a delimiter has no partner, before rendering anything.
pub fn render_inner(html: &str, delim: &str, display_mode: bool) -> (res: Result<String, MathError>)
    requires
        delim@.len() > 0,
    ensures
        (split_on(html@, delim@).len() - 1) % 2 != 0 ==> res matches Err(
            MathError::OddDelimiterCount,
        ),
        (split_on(html@, delim@).len() - 1) % 2 == 0 ==> match weave_math(
            split_on(html@, delim@),
            display_mode,
        ) {
            Some(w) => res matches Ok(out) && out@ == w,
            None => res matches Err(MathError::Katex(_)),
        },
{
    let html_chars = chars_of(html);
    let delim_chars = chars_of(delim);
    let pieces = split_chars(&html_chars, &delim_chars);
    let ghost ps = pieces@.map_values(|p: Vec<char>| p@);
    if (pieces.len() - 1) % 2 != 0 {
        return Err(MathError::OddDelimiterCount);
    }
    let mut out: Vec<char> = Vec::new();
    let mut k: usize = 0;
    while k < pieces.len()
        invariant
            ps == pieces@.map_values(|p: Vec<char>| p@),
            ps == split_on(html@, delim@),
            (ps.len() - 1) % 2 == 0,
            0 <= k <= pieces@.len(),
            weave_math(ps.take(k as int), display_mode) == Some(out@),
        decreases pieces@.len() - k,
    {
        let ghost before = out@;
        let addition: Vec<char> = if k % 2 == 0 {
            pieces[k].clone()
        } else {
            let math = unescape_expression_chars(&pieces[k]);
            let math = string_from_chars(math.as_slice());
            match katex_render(math.as_str(), display_mode) {
                Ok(rendered) => chars_of(rendered.as_str()),
                Err(e) => {
                    proof {
                        assert(ps.take(k + 1).drop_last() =~= ps.take(k as int));
                        lemma_weave_refused_stays_refused(ps, k + 1, display_mode);
                    }
                    return Err(MathError::Katex(e));
                },
            }
        };
        let mut j: usize = 0;
        while j < addition.len()
            invariant
                0 <= j <= addition@.len(),
                out@ == before + addition@.take(j as int),
            decreases addition@.len() - j,
        {
            out.push(addition[j]);
            j += 1;
            assert(out@ =~= before + addition@.take(j as int));
        }
        assert(addition@.take(addition@.len() as int) =~= addition@);
        assert(ps.take(k + 1).drop_last() =~= ps.take(k as int));
        k += 1;
    }
    assert(ps.take(pieces@.len() as int) =~= ps);
    Ok(string_from_chars(out.as_slice()))
}

/// Renders display math (between `$$` pairs).
pub fn render_display_math(html: &str) -> (res: Result<String, MathError>)
    ensures
        (split_on(html@, "$$"@).len() - 1) % 2 != 0 ==> res matches Err(
            MathError::OddDelimiterCount,
        ),
        (split_on(html@, "$$"@).len() - 1) % 2 == 0 ==> match weave_math(
            split_on(html@, "$$"@),
            true,
        ) {
            Some(w) => res matches Ok(out) && out@ == w,
            None => res matches Err(MathError::Katex(_)),
        },
{
    proof {
        reveal_strlit("$$");
    }
    render_inner(html, "$$", true)
}

/// Renders inline math (between `$` pairs).
pub fn render_inline_math(html: &str) -> (res: Result<String, MathError>)
    ensures
        (split_on(html@, "$"@).len() - 1) % 2 != 0 ==> res matches Err(
            MathError::OddDelimiterCount,
        ),
        (split_on(html@, "$"@).len() - 1) % 2 == 0 ==> match weave_math(
            split_on(html@, "$"@),
            false,
        ) {
            Some(w) => res matches Ok(out) && out@ == w,
            None => res matches Err(MathError::Katex(_)),
        },
{
    proof {
        reveal_strlit("$");
    }
    render_inner(html, "$", false)
}

/// Renders the math of a post: display math first, then inline math in the
/// result.
pub fn render_math(html: &str) -> (res: Result<String, MathError>)
    ensures
        (split_on(html@, "$$"@).len() - 1) % 2 != 0 ==> res matches Err(
            MathError::OddDelimiterCount,
        ),
        (split_on(html@, "$$"@).len() - 1) % 2 == 0 ==> match weave_math(
            split_on(html@, "$$"@),
            true,
        ) {
            None => res matches Err(MathError::Katex(_)),
            Some(display) => if (split_on(display, "$"@).len() - 1) % 2 != 0 {
                res matches Err(MathError::OddDelimiterCount)
            } else {
                match weave_math(split_on(display, "$"@), false) {
                    Some(w) => res matches Ok(out) && out@ == w,
                    None => res matches Err(MathError::Katex(_)),
                }
            },
        },
{
    let html = render_display_math(html)?;
    let html = render_inline_math(html.as_str())?;
    Ok(html)
}

} // verus!
