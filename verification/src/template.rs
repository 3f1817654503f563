//! What the page templates ask of the library: Markdown as HTML, and the
//! parity of a row number.

use vstd::prelude::*;

verus! {

/// The HTML that `pulldown_cmark` writes for the Markdown text `source`,
/// parsed with no option enabled.
pub uninterp spec fn markdown_html(source: Seq<char>) -> Seq<char>;

/// `pulldown_cmark::Parser::new` followed by `pulldown_cmark::html::push_html`
/// into an empty string: the HTML of a Markdown text. It depends on the
/// characters of `source` alone.
#[verifier::external_body]
fn push_markdown(source: &str) -> (html: String)
    ensures
        html@ == markdown_html(source@),
{
    let parser = pulldown_cmark::Parser::new(source);
    let mut html = String::new();
    pulldown_cmark::html::push_html(&mut html, parser);
    html
}

/// The HTML of the Markdown text `source`.
pub fn markdown(source: &str) -> (html: String)
    ensures
        html@ == markdown_html(source@),
{
    push_markdown(source)
}

/// How one character is written so that it cannot open or close a tag.
pub open spec fn escaped_angle(c: char) -> Seq<char> {
    if c == '>' {
        "&gt;"@
    } else if c == '<' {
        "&lt;"@
    } else {
        seq![c]
    }
}

/// `text` with every angle bracket written as its entity.
pub open spec fn escaped_angles(text: Seq<char>) -> Seq<char>
    decreases text.len(),
{
    if text.len() == 0 {
        Seq::empty()
    } else {
        escaped_angles(text.drop_last()) + escaped_angle(text.last())
    }
}

/// `text` with every angle bracket written as its entity.
pub fn escape_angles(text: &str) -> (escaped: String)
    ensures
        escaped@ == escaped_angles(text@),
{
    let mut escaped = String::new();
    let ghost mut done: int = 0;
    for c in it: text.chars()
        invariant
            it.seq() == text@,
            done == it.index(),
            0 <= done <= text@.len(),
            escaped@ == escaped_angles(text@.take(done)),
    {
        proof {
            assert(text@.take(done + 1).drop_last() =~= text@.take(done));
            assert(text@.take(done + 1).last() == c);
        }
        if c == '>' {
            escaped.append("&gt;");
        } else if c == '<' {
            escaped.append("&lt;");
        } else {
            let ghost before = escaped@;
            escaped.push(c);
            assert(escaped@ =~= before + seq![c]);
        }
        proof {
            done = done + 1;
        }
    }
    assert(text@.take(done) =~= text@);
    escaped
}

/// The HTML of a Markdown text in which no tag of the writer's own gets
/// through: the angle brackets are escaped before the text is parsed.
pub fn markdown_escaped(source: &str) -> (html: String)
    ensures
        html@ == markdown_html(escaped_angles(source@)),
{
    let escaped = escape_angles(source);
    markdown(escaped.as_str())
}

/// Whether `n` is even.
pub fn is_even(n: i64) -> (even: bool)
    ensures
        even == (n % 2 == 0),
{
    n % 2 == 0
}

/// Whether `n` is odd and not negative. A negative number is never taken
/// for odd.
pub fn is_odd(n: i64) -> (odd: bool)
    ensures
        odd == (n >= 0 && n % 2 == 1),
{
    n >= 0 && n % 2 == 1
}

} // verus!
