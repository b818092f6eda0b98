//! HTML escaping of text that is spliced into markup.

use vstd::prelude::*;

verus! {

/// What one character becomes when it is escaped: the four characters that
/// are special in HTML turn into entities, every other character stays.
pub open spec fn escaped_char(c: char) -> Seq<char> {
    if c == '&' {
        "&amp;"@
    } else if c == '<' {
        "&lt;"@
    } else if c == '>' {
        "&gt;"@
    } else if c == '"' {
        "&quot;"@
    } else {
        seq![c]
    }
}

/// The text with every character escaped.
pub open spec fn escaped(text: Seq<char>) -> Seq<char>
    decreases text.len(),
{
    if text.len() == 0 {
        Seq::empty()
    } else {
        escaped(text.drop_last()) + escaped_char(text.last())
    }
}

/// Appends `text` to `out` as maud splices a string into a template: through
/// maud's `Render::render_to` for `str`, which escapes `&`, `<`, `>` and `"`
/// as `&amp;`, `&lt;`, `&gt;` and `&quot;` and passes every other character
/// on unchanged.
#[verifier::external_body]
pub(crate) fn push_escaped(out: &mut String, text: &str)
    ensures
        final(out)@ == old(out)@ + escaped(text@),
{
    maud::Render::render_to(text, out)
}

/// The text with the characters that are special in HTML escaped.
pub fn escape(text: &str) -> (out: String)
    ensures
        out@ == escaped(text@),
{
    let mut out = String::new();
    push_escaped(&mut out, text);
    out
}

} // verus!
