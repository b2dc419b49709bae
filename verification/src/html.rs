//! Text made safe for an HTML body.

use vstd::prelude::*;

verus! {

/// What one character becomes in HTML text: `&`, `<` and `>` become their
/// entities, every other character stays.
pub open spec fn escape_char(c: char) -> Seq<char> {
    if c == '&' {
        seq!['&', 'a', 'm', 'p', ';']
    } else if c == '<' {
        seq!['&', 'l', 't', ';']
    } else if c == '>' {
        seq!['&', 'g', 't', ';']
    } else {
        seq![c]
    }
}

/// `s` with each character escaped for HTML text, in order.
pub open spec fn escape_text(s: Seq<char>) -> Seq<char>
    decreases s.len(),
{
    if s.len() == 0 {
        Seq::empty()
    } else {
        escape_text(s.drop_last()) + escape_char(s.last())
    }
}

/// Calls `html_escape::encode_text`. Trusted: that the result is the input
/// with every `&`, `<` and `>` replaced by `&amp;`, `&lt;` and `&gt;`, and
/// nothing else changed.
#[verifier::external_body]
pub(crate) fn encode_text(s: &str) -> (r: String)
    ensures
        r@ == escape_text(s@),
{
    html_escape::encode_text(s).into_owned()
}

} // verus!
