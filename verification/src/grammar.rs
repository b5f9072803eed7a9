//! The grammar of one line: which text is a section header, an entry, a
//! comment, or none of them, and where its parts begin and end.
//!
//! A line is read from the left. White space comes first. If `[` follows, the
//! line is a header when a `]` closes the name, and whatever follows the `]`
//! is its suffix. If `;` or `#` follows, the line is a comment. Anything else
//! but `=` begins a key, which runs up to white space or `=`. The separator
//! is the white space behind the key, one `=`, and the white space behind
//! that; the value runs from there to the last character of the line that is
//! not white space. A line without text, one that begins with `=`, a header
//! that is not closed, and a key that no `=` follows are none of the three:
//! such a line keeps its text as it is.

use crate::model::{Comment, Content, Entry, Other, Section};
use crate::text::{
    content_end, first_from, is_char, lemma_content_end, lemma_first_from, not_space, white_space,
};
use vstd::prelude::*;

verus! {

/// The characters that end a key: white space and `=`.
pub open spec fn ends_key() -> spec_fn(char) -> bool {
    |c: char| white_space(c) || c == '='
}

/// Index of the first character of `s` that is not white space.
pub open spec fn text_start(s: Seq<char>) -> int {
    first_from(s, 0, not_space())
}

/// Index of the first `]` behind the character at `text_start`.
pub open spec fn header_close(s: Seq<char>) -> int {
    first_from(s, text_start(s) + 1, is_char(']'))
}

/// Index behind the key that begins at `text_start`.
pub open spec fn key_end(s: Seq<char>) -> int {
    first_from(s, text_start(s), ends_key())
}

/// Index of the first character behind the key that is not white space: the
/// place of the `=`, if the line is an entry.
pub open spec fn assign_at(s: Seq<char>) -> int {
    first_from(s, key_end(s), not_space())
}

/// Whether a `=` follows the key.
pub open spec fn assigned(s: Seq<char>) -> bool {
    assign_at(s) < s.len() && s[assign_at(s)] == '='
}

/// Index of the first character behind the `=` that is not white space: the
/// place where the value begins.
pub open spec fn value_start(s: Seq<char>) -> int {
    first_from(s, assign_at(s) + 1, not_space())
}

/// Index behind the value: behind the last character of the line that is not
/// white space, or `value_start` if only white space follows the `=`.
pub open spec fn value_end(s: Seq<char>) -> int {
    if content_end(s) > value_start(s) {
        content_end(s)
    } else {
        value_start(s)
    }
}

/// The line that keeps `s` as it is.
pub open spec fn unparsed(s: Seq<char>) -> Content {
    Content::Other(Other { text: s })
}

/// The header that `s` holds, if the character at `text_start` is `[`.
pub open spec fn classify_header(s: Seq<char>) -> Content {
    let start = text_start(s);
    let close = header_close(s);
    if close < s.len() {
        Content::Section(
            Section {
                prefix: s.take(start),
                prelude: seq!['['],
                name: s.subrange(start + 1, close),
                postlude: seq![']'],
                suffix: s.skip(close + 1),
            },
        )
    } else {
        unparsed(s)
    }
}

/// The entry that `s` holds, if the character at `text_start` begins a key.
pub open spec fn classify_entry(s: Seq<char>) -> Content {
    if assigned(s) {
        Content::Entry(
            Entry {
                prefix: s.take(text_start(s)),
                key: s.subrange(text_start(s), key_end(s)),
                separator: s.subrange(key_end(s), value_start(s)),
                value: s.subrange(value_start(s), value_end(s)),
                suffix: s.skip(value_end(s)),
            },
        )
    } else {
        unparsed(s)
    }
}

/// What the line with the text `s` holds.
pub open spec fn classify(s: Seq<char>) -> Content {
    let start = text_start(s);
    if start >= s.len() {
        unparsed(s)
    } else if s[start] == '[' {
        classify_header(s)
    } else if s[start] == ';' || s[start] == '#' {
        Content::Comment(
            Comment { prefix: s.take(start), prelude: seq![s[start]], text: s.skip(start + 1) },
        )
    } else if s[start] == '=' {
        unparsed(s)
    } else {
        classify_entry(s)
    }
}

/// Where the places that the grammar names lie, and what stands before and
/// at each of them.
pub proof fn lemma_places(s: Seq<char>)
    ensures
        0 <= text_start(s) <= s.len(),
        forall|j: int| 0 <= j < text_start(s) ==> white_space(#[trigger] s[j]),
        text_start(s) < s.len() ==> {
            &&& !white_space(s[text_start(s)])
            &&& text_start(s) < header_close(s) <= s.len()
            &&& text_start(s) <= key_end(s) <= assign_at(s) <= s.len()
            &&& assign_at(s) < value_start(s) || assign_at(s) == s.len()
            &&& value_start(s) <= value_end(s) <= s.len()
        },
        forall|j: int| text_start(s) < j < header_close(s) ==> #[trigger] s[j] != ']',
        header_close(s) < s.len() ==> s[header_close(s)] == ']',
        forall|j: int|
            text_start(s) <= j < key_end(s) ==> !white_space(#[trigger] s[j]) && s[j] != '=',
        key_end(s) < s.len() ==> white_space(s[key_end(s)]) || s[key_end(s)] == '=',
        forall|j: int| key_end(s) <= j < assign_at(s) ==> white_space(#[trigger] s[j]),
        assign_at(s) < s.len() ==> !white_space(s[assign_at(s)]),
        forall|j: int| assign_at(s) < j < value_start(s) ==> white_space(#[trigger] s[j]),
        value_start(s) < s.len() ==> !white_space(s[value_start(s)]),
{
    lemma_first_from(s, 0, not_space());
    lemma_content_end(s);
    if text_start(s) < s.len() {
        lemma_first_from(s, text_start(s) + 1, is_char(']'));
        lemma_first_from(s, text_start(s), ends_key());
        lemma_first_from(s, key_end(s), not_space());
        if assign_at(s) < s.len() {
            lemma_first_from(s, assign_at(s) + 1, not_space());
        }
    }
}

/// Classifying a line loses nothing: the parts, written one after the other,
/// are the text that was classified.
pub proof fn lemma_classify_render(s: Seq<char>)
    ensures
        classify(s).render() == s,
{
    lemma_places(s);
}

} // verus!
