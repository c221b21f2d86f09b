//! Suggested edits, and replacements that keep the capitalization of
//! what they replace.

use vstd::prelude::*;
use crate::chars::{
    char_is_lower, char_is_upper, is_lower, is_upper, lower, lower_all, to_lower, to_upper, upper,
    upper_all,
};
use crate::span::Span;

verus! {

/// A proposed edit of the text that a lint covers.
#[derive(Debug, Clone)]
pub enum Suggestion {
    /// Put these characters in place of the covered text.
    ReplaceWith(Vec<char>),
}

impl View for Suggestion {
    type V = Seq<char>;

    /// The characters that the suggestion puts in place.
    open spec fn view(&self) -> Seq<char> {
        match self {
            Suggestion::ReplaceWith(replacement) => replacement@,
        }
    }
}

/// No letter of the text is lower case.
pub open spec fn no_lower(text: Seq<char>) -> bool {
    forall|i: int| 0 <= i < text.len() ==> !is_lower(#[trigger] text[i])
}

/// No letter of the text is upper case.
pub open spec fn no_upper(text: Seq<char>) -> bool {
    forall|i: int| 0 <= i < text.len() ==> !is_upper(#[trigger] text[i])
}

/// The text starts with an upper-case letter and has no other.
pub open spec fn capitalized(text: Seq<char>) -> bool {
    text.len() > 0 && is_upper(text[0]) && forall|i: int|
        1 <= i < text.len() ==> !is_upper(#[trigger] text[i])
}

/// The text with its first character in upper case and the rest in
/// lower case.
pub open spec fn capitalize(text: Seq<char>) -> Seq<char> {
    Seq::new(
        text.len(),
        |i: int|
            if i == 0 {
                upper(text[i])
            } else {
                lower(text[i])
            },
    )
}

/// `replacement` in the capitalization of `original`: unchanged where
/// `original` is empty, in upper case where `original` has no lower-case
/// letter, capitalized where `original` is, and in lower case otherwise.
pub open spec fn match_case(replacement: Seq<char>, original: Seq<char>) -> Seq<char> {
    if original.len() == 0 {
        replacement
    } else if no_lower(original) {
        upper_all(replacement)
    } else if capitalized(original) {
        capitalize(replacement)
    } else {
        lower_all(replacement)
    }
}

/// The source with the characters under `span` replaced.
pub open spec fn spliced(source: Seq<char>, span: Span, replacement: Seq<char>) -> Seq<char> {
    source.take(span.start as int) + replacement + source.skip(span.end as int)
}

fn has_no_lower(text: &[char]) -> (r: bool)
    ensures
        r == no_lower(text@),
{
    let mut i: usize = 0;
    while i < text.len()
        invariant
            i <= text@.len(),
            forall|j: int| 0 <= j < i ==> !is_lower(#[trigger] text@[j]),
        decreases text@.len() - i,
    {
        if char_is_lower(text[i]) {
            return false;
        }
        i = i + 1;
    }
    true
}

fn is_capitalized(text: &[char]) -> (r: bool)
    ensures
        r == capitalized(text@),
{
    if text.len() == 0 || !char_is_upper(text[0]) {
        return false;
    }
    let mut i: usize = 1;
    while i < text.len()
        invariant
            1 <= i <= text@.len(),
            forall|j: int| 1 <= j < i ==> !is_upper(#[trigger] text@[j]),
        decreases text@.len() - i,
    {
        if char_is_upper(text[i]) {
            return false;
        }
        i = i + 1;
    }
    true
}

/// How each character of a replacement is to be written.
#[derive(Clone, Copy, PartialEq, Eq, Structural)]
enum Casing {
    Keep,
    Upper,
    Capitalized,
    Lower,
}

impl Casing {
    spec fn of(self, text: Seq<char>) -> Seq<char> {
        match self {
            Casing::Keep => text,
            Casing::Upper => upper_all(text),
            Casing::Capitalized => capitalize(text),
            Casing::Lower => lower_all(text),
        }
    }

    spec fn of_char(self, c: char, first: bool) -> char {
        match self {
            Casing::Keep => c,
            Casing::Upper => upper(c),
            Casing::Capitalized => if first {
                upper(c)
            } else {
                lower(c)
            },
            Casing::Lower => lower(c),
        }
    }
}

impl Suggestion {
    /// A replacement that mirrors the capitalization of the text it
    /// replaces.
    pub fn replace_with_match_case(replacement: Vec<char>, original: &[char]) -> (r: Suggestion)
        ensures
            r@ == match_case(replacement@, original@),
    {
        let casing = if original.len() == 0 {
            Casing::Keep
        } else if has_no_lower(original) {
            Casing::Upper
        } else if is_capitalized(original) {
            Casing::Capitalized
        } else {
            Casing::Lower
        };
        assert(casing.of(replacement@) == match_case(replacement@, original@));
        let mut out: Vec<char> = Vec::new();
        let mut i: usize = 0;
        while i < replacement.len()
            invariant
                i <= replacement@.len(),
                out@.len() == i,
                forall|j: int|
                    0 <= j < i ==> out@[j] == casing.of_char(#[trigger] replacement@[j], j == 0),
            decreases replacement@.len() - i,
        {
            let c = replacement[i];
            let written = match casing {
                Casing::Keep => c,
                Casing::Upper => to_upper(c),
                Casing::Capitalized => if i == 0 {
                    to_upper(c)
                } else {
                    to_lower(c)
                },
                Casing::Lower => to_lower(c),
            };
            out.push(written);
            i = i + 1;
        }
        assert(out@ =~= casing.of(replacement@));
        Suggestion::ReplaceWith(out)
    }

    /// Carries the suggestion out on `source`: the characters under
    /// `span` give way to the replacement.
    pub fn apply(&self, span: Span, source: &mut Vec<char>)
        requires
            span.fits(old(source)@.len()),
            old(source)@.len() + self@.len() <= usize::MAX,
        ensures
            final(source)@ == spliced(old(source)@, span, self@),
    {
        let mut out: Vec<char> = Vec::new();
        let mut i: usize = 0;
        while i < span.start
            invariant
                i <= span.start <= source@.len(),
                out@ == source@.take(i as int),
            decreases span.start - i,
        {
            out.push(source[i]);
            assert(out@ =~= source@.take(i + 1));
            i = i + 1;
        }
        match self {
            Suggestion::ReplaceWith(replacement) => {
                let mut j: usize = 0;
                while j < replacement.len()
                    invariant
                        j <= replacement@.len(),
                        out@ == source@.take(span.start as int) + replacement@.take(j as int),
                    decreases replacement@.len() - j,
                {
                    out.push(replacement[j]);
                    assert(out@ =~= source@.take(span.start as int) + replacement@.take(j + 1));
                    j = j + 1;
                }
                assert(replacement@.take(replacement@.len() as int) =~= replacement@);
            },
        }
        let mut k: usize = span.end;
        while k < source.len()
            invariant
                span.end <= k <= source@.len(),
                out@ == source@.take(span.start as int) + self@ + source@.subrange(
                    span.end as int,
                    k as int,
                ),
            decreases source@.len() - k,
        {
            out.push(source[k]);
            assert(out@ =~= source@.take(span.start as int) + self@ + source@.subrange(
                span.end as int,
                k + 1,
            ));
            k = k + 1;
        }
        assert(source@.subrange(span.end as int, source@.len() as int) =~= source@.skip(
            span.end as int,
        ));
        *source = out;
    }
}

/// A text whose capitalization the case-matching policy can produce:
/// it is empty, has no lower-case letter, is capitalized, or has no
/// upper-case letter.
pub open spec fn uniformly_cased(text: Seq<char>) -> bool {
    text.len() == 0 || no_lower(text) || capitalized(text) || no_upper(text)
}

/// Matching the case of a text to itself gives the text back exactly
/// when the text is uniformly cased. A text of mixed case, such as
/// `tHe`, comes back in lower case.
pub proof fn lemma_match_case_idempotent(text: Seq<char>)
    ensures
        uniformly_cased(text) <==> match_case(text, text) == text,
{
    if text.len() == 0 {
    } else if no_lower(text) {
        assert(upper_all(text) =~= text);
    } else if capitalized(text) {
        assert(capitalize(text) =~= text);
    } else if no_upper(text) {
        assert(lower_all(text) =~= text);
    } else {
        let i = choose|i: int| 0 <= i < text.len() && is_upper(#[trigger] text[i]);
        assert(lower_all(text)[i] != text[i]);
    }
}

} // verus!
