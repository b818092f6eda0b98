//! The front matter: the block that the document's metadata keywords
//! leave at the top of the page.

use vstd::prelude::*;
use vstd::std_specs::iter::IteratorSpec;
use vstd::string::StringExecFns;
use crate::markup::{escaped, push_escaped};
use crate::text::{same_text, uppercase};

verus! {

/// One metadata line of the source: a key and its value.
#[derive(Debug, PartialEq, Eq)]
pub struct Keyword {
    pub key: String,
    pub value: String,
}

/// The mathematical model of a [`Keyword`].
pub struct Pair {
    pub key: Seq<char>,
    pub value: Seq<char>,
}

impl View for Keyword {
    type V = Pair;

    open spec fn view(&self) -> Pair {
        Pair { key: self.key@, value: self.value@ }
    }
}

/// The models of a sequence of keywords.
pub open spec fn pairs(keywords: Seq<Keyword>) -> Seq<Pair> {
    keywords.map_values(|k: Keyword| k@)
}

/// The pieces of a value between its spaces. Every space separates two
/// pieces, so a value with `n` spaces has `n + 1` pieces, some of which may
/// be empty.
pub open spec fn tokens(value: Seq<char>) -> Seq<Seq<char>>
    decreases value.len(),
{
    if value.len() == 0 {
        seq![Seq::empty()]
    } else {
        let before = tokens(value.drop_last());
        if value.last() == ' ' {
            before.push(Seq::empty())
        } else {
            before.drop_last().push(before.last().push(value.last()))
        }
    }
}

/// The tag chips of a list of tokens: each token in a `code` element,
/// followed by a space.
pub open spec fn chips_markup(tokens: Seq<Seq<char>>) -> Seq<char>
    decreases tokens.len(),
{
    if tokens.len() == 0 {
        Seq::empty()
    } else {
        chips_markup(tokens.drop_last()) + "<code>"@ + escaped(tokens.last()) + "</code> "@
    }
}

/// The fragment of a `TITLE` keyword: the page title and the visible
/// heading.
pub open spec fn title_fragment(value: Seq<char>) -> Seq<char> {
    "<div id=\"title-div\"><title>"@ + escaped(value) + "</title><h1 class=\"title\">"@ + escaped(
        value,
    ) + "</h1><hr id=\"title-hr\"></div>"@
}

/// The fragment of a `KEYWORDS` keyword: the hidden block of tag chips, one
/// for each token of the value.
pub open spec fn keywords_fragment(value: Seq<char>) -> Seq<char> {
    "<div id=\"keywords\" hidden><p><i class=\"fas fa-tags\"></i> "@ + chips_markup(tokens(value))
        + "</p></div>"@
}

/// The fragment of a `REF` keyword: the citation line.
pub open spec fn reference_fragment(value: Seq<char>) -> Seq<char> {
    "<p><i class=\"fas fa-book\"></i> <span style=\"font-size 5pt; color: gray; font-style: italic\">"@
        + escaped(value) + "</span></p>"@
}

/// Whether a key, already in upper case, is one that the front matter
/// shows.
pub open spec fn recognised(key: Seq<char>) -> bool {
    key == "TITLE"@ || key == "KEYWORDS"@ || key == "REF"@
}

/// The fragment for a key that is already in upper case. A key outside the
/// recognised set leaves nothing.
pub open spec fn fragment_markup(key: Seq<char>, value: Seq<char>) -> Seq<char> {
    if key == "TITLE"@ {
        title_fragment(value)
    } else if key == "KEYWORDS"@ {
        keywords_fragment(value)
    } else if key == "REF"@ {
        reference_fragment(value)
    } else {
        Seq::empty()
    }
}

/// The fragments of a sequence of keywords, in the order of the sequence.
/// The keys are compared in upper case.
pub open spec fn fragments_markup(pairs: Seq<Pair>) -> Seq<char>
    decreases pairs.len(),
{
    if pairs.len() == 0 {
        Seq::empty()
    } else {
        fragments_markup(pairs.drop_last()) + fragment_markup(
            uppercase(pairs.last().key),
            pairs.last().value,
        )
    }
}

/// The front matter of a sequence of keywords: their fragments in one
/// container.
pub open spec fn front_matter_markup(pairs: Seq<Pair>) -> Seq<char> {
    "<div id='header'>"@ + fragments_markup(pairs) + "</div>"@
}

/// The tokens put together again, with one space between neighbours.
pub open spec fn joined(tokens: Seq<Seq<char>>) -> Seq<char>
    decreases tokens.len(),
{
    if tokens.len() == 0 {
        Seq::empty()
    } else if tokens.len() == 1 {
        tokens[0]
    } else {
        joined(tokens.drop_last()) + seq![' '] + tokens.last()
    }
}

/// A value falls into at least one token; no token holds a space; and the
/// tokens, joined by single spaces, give the value back.
pub proof fn lemma_tokens_split_at_spaces(value: Seq<char>)
    ensures
        tokens(value).len() >= 1,
        forall|i: int, j: int|
            0 <= i < tokens(value).len() && 0 <= j < tokens(value)[i].len() ==> tokens(
                value,
            )[i][j] != ' ',
        joined(tokens(value)) == value,
    decreases value.len(),
{
    if value.len() > 0 {
        let rest = value.drop_last();
        let before = tokens(rest);
        lemma_tokens_split_at_spaces(rest);
        if value.last() == ' ' {
            assert(before.push(Seq::empty()).drop_last() =~= before);
        } else {
            let grown = before.last().push(value.last());
            let after = before.drop_last().push(grown);
            assert(after.drop_last() =~= before.drop_last());
            if before.len() > 1 {
                assert(joined(after) =~= joined(before).push(value.last()));
            }
        }
    }
}

/// The fragments of two sequences of keywords, one after the other, are
/// the fragments of the sequences put together.
pub proof fn lemma_fragments_in_order(first: Seq<Pair>, second: Seq<Pair>)
    ensures
        fragments_markup(first + second) == fragments_markup(first) + fragments_markup(second),
    decreases second.len(),
{
    if second.len() > 0 {
        lemma_fragments_in_order(first, second.drop_last());
        assert((first + second).drop_last() =~= first + second.drop_last());
    }
}

/// Keywords with keys outside the recognised set leave no trace: the front
/// matter of such a sequence, and of the empty sequence with it, is the
/// empty container.
pub proof fn lemma_unrecognised_keys_leave_nothing(pairs: Seq<Pair>)
    requires
        forall|i: int| 0 <= i < pairs.len() ==> !recognised(uppercase(#[trigger] pairs[i].key)),
    ensures
        fragments_markup(pairs) == Seq::<char>::empty(),
        front_matter_markup(pairs) == "<div id='header'>"@ + "</div>"@,
    decreases pairs.len(),
{
    if pairs.len() > 0 {
        lemma_unrecognised_keys_leave_nothing(pairs.drop_last());
    }
}

fn push_chips(out: &mut String, value: &str)
    ensures
        final(out)@ == old(out)@ + chips_markup(tokens(value@)),
{
    let mut token = String::new();
    let mut chars = value.chars();
    let ghost mut done: Seq<char> = Seq::empty();
    loop
        invariant
            chars.obeys_prophetic_iter_laws(),
            done + chars.remaining() == value@,
            out@ == old(out)@ + chips_markup(tokens(done).drop_last()),
            tokens(done).len() > 0,
            token@ == tokens(done).last(),
            chars.decrease() is Some,
        decreases chars.decrease()->0,
    {
        match chars.next() {
            Some(c) => {
                proof {
                    assert(done.push(c).drop_last() =~= done);
                }
                if c == ' ' {
                    out.append("<code>");
                    push_escaped(out, token.as_str());
                    out.append("</code> ");
                    token = String::new();
                    proof {
                        assert(tokens(done.push(c)).drop_last() =~= tokens(done));
                    }
                } else {
                    token.push(c);
                    proof {
                        assert(tokens(done.push(c)).drop_last() =~= tokens(done).drop_last());
                    }
                }
                proof {
                    done = done.push(c);
                }
            },
            None => {
                out.append("<code>");
                push_escaped(out, token.as_str());
                out.append("</code> ");
                return ;
            },
        }
    }
}

/// The fragment that one keyword contributes, for a key that is already in
/// upper case: the title block, the tag chips, the citation line, or
/// nothing for any other key.
pub fn fragment(key: &str, value: &str) -> (markup: String)
    ensures
        markup@ == fragment_markup(key@, value@),
{
    let mut out = String::new();
    if same_text(key, "TITLE") {
        out.append("<div id=\"title-div\"><title>");
        push_escaped(&mut out, value);
        out.append("</title><h1 class=\"title\">");
        push_escaped(&mut out, value);
        out.append("</h1><hr id=\"title-hr\"></div>");
    } else if same_text(key, "KEYWORDS") {
        out.append("<div id=\"keywords\" hidden><p><i class=\"fas fa-tags\"></i> ");
        push_chips(&mut out, value);
        out.append("</p></div>");
    } else if same_text(key, "REF") {
        out.append(
            "<p><i class=\"fas fa-book\"></i> <span style=\"font-size 5pt; color: gray; font-style: italic\">",
        );
        push_escaped(&mut out, value);
        out.append("</span></p>");
    }
    out
}

/// Renders the front matter: the fragments of the recognised keywords, in
/// the order in which the keywords stand in the source, inside one
/// container. Keys are compared in upper case; a keyword with any other key
/// is passed over.
pub fn front_matter(keywords: &Vec<Keyword>) -> (markup: String)
    ensures
        markup@ == front_matter_markup(pairs(keywords@)),
{
    let mut out = String::new();
    out.append("<div id='header'>");
    let mut i: usize = 0;
    while i < keywords.len()
        invariant
            i <= keywords.len(),
            out@ == "<div id='header'>"@ + fragments_markup(pairs(keywords@).take(i as int)),
        decreases keywords.len() - i,
    {
        let ghost all = pairs(keywords@);
        let keyword = &keywords[i];
        let key = keyword.key.as_str().to_uppercase();
        let piece = fragment(key.as_str(), keyword.value.as_str());
        out.append(piece.as_str());
        proof {
            assert(all.take(i + 1).drop_last() =~= all.take(i as int));
        }
        i += 1;
    }
    assert(pairs(keywords@).take(i as int) =~= pairs(keywords@));
    out.append("</div>");
    out
}

} // verus!
