//! The mathematical model of a document: what a line holds, how it is
//! written out, and what its canonical and its trimmed form are.
//!
//! A document is a `Seq<Line>`. The executable types of this crate have these
//! types as their views.

use crate::text::trimmed;
use vstd::prelude::*;

verus! {

/// A section header `[name]` with what surrounds it on its line.
pub struct Section {
    pub prefix: Seq<char>,
    pub prelude: Seq<char>,
    pub name: Seq<char>,
    pub postlude: Seq<char>,
    pub suffix: Seq<char>,
}

/// An entry `key=value` with what surrounds it on its line. The separator
/// holds the `=` and the white space around it.
pub struct Entry {
    pub prefix: Seq<char>,
    pub key: Seq<char>,
    pub separator: Seq<char>,
    pub value: Seq<char>,
    pub suffix: Seq<char>,
}

/// A comment: the white space before it, the comment character, and the text.
pub struct Comment {
    pub prefix: Seq<char>,
    pub prelude: Seq<char>,
    pub text: Seq<char>,
}

/// A line that is none of the others: blank, or not understood.
pub struct Other {
    pub text: Seq<char>,
}

/// What a line holds.
pub enum Content {
    Section(Section),
    Entry(Entry),
    Comment(Comment),
    Other(Other),
}

/// A line: its content and its line ending.
pub struct Line {
    pub content: Content,
    pub ending: Seq<char>,
}

impl Section {
    /// The text of the line.
    pub open spec fn render(self) -> Seq<char> {
        self.prefix + self.prelude + self.name + self.postlude + self.suffix
    }

    /// The header `[name]` with nothing around it.
    pub open spec fn bare(name: Seq<char>) -> Section {
        Section {
            prefix: Seq::empty(),
            prelude: seq!['['],
            name,
            postlude: seq![']'],
            suffix: Seq::empty(),
        }
    }

    /// The canonical form: nothing before the header and nothing after it.
    pub open spec fn reformatted(self) -> Section {
        Section { prefix: Seq::empty(), suffix: Seq::empty(), ..self }
    }

    /// The trimmed form, which for a header is the canonical form.
    pub open spec fn trimmed(self) -> Section {
        Section { prefix: Seq::empty(), suffix: Seq::empty(), ..self }
    }
}

impl Entry {
    /// The text of the line.
    pub open spec fn render(self) -> Seq<char> {
        self.prefix + self.key + self.separator + self.value + self.suffix
    }

    /// The entry `key=value` with nothing around it.
    pub open spec fn bare(key: Seq<char>, value: Seq<char>) -> Entry {
        Entry { prefix: Seq::empty(), key, separator: seq!['='], value, suffix: Seq::empty() }
    }

    /// The canonical form: `key=value` with nothing around it.
    pub open spec fn reformatted(self) -> Entry {
        Entry::bare(self.key, self.value)
    }

    /// The trimmed form: nothing before the key and nothing after the value;
    /// the separator stays as it is.
    pub open spec fn trimmed(self) -> Entry {
        Entry { prefix: Seq::empty(), suffix: Seq::empty(), ..self }
    }

    /// The entry with the raw value `value`, and nothing before the key or
    /// after the value.
    pub open spec fn with_value(self, value: Seq<char>) -> Entry {
        Entry { prefix: Seq::empty(), value, suffix: Seq::empty(), ..self }
    }
}

impl Comment {
    /// The text of the line.
    pub open spec fn render(self) -> Seq<char> {
        self.prefix + self.prelude + self.text
    }

    /// The canonical prelude: the comment character and one space. A prelude
    /// without a comment character stays empty.
    pub open spec fn spaced(prelude: Seq<char>) -> Seq<char> {
        if prelude.len() == 0 {
            prelude
        } else {
            seq![prelude[0], ' ']
        }
    }

    /// The canonical form: the comment character, one space, and the text
    /// without white space around it.
    pub open spec fn reformatted(self) -> Comment {
        Comment {
            prefix: Seq::empty(),
            prelude: Comment::spaced(self.prelude),
            text: trimmed(self.text),
        }
    }

    /// The trimmed form, which for a comment is the canonical form.
    pub open spec fn trimmed(self) -> Comment {
        self.reformatted()
    }
}

impl Other {
    /// The text of the line.
    pub open spec fn render(self) -> Seq<char> {
        self.text
    }

    /// The blank line.
    pub open spec fn blank() -> Other {
        Other { text: Seq::empty() }
    }

    /// The trimmed form: the text without white space around it.
    pub open spec fn trimmed(self) -> Other {
        Other { text: trimmed(self.text) }
    }
}

impl Content {
    /// The text of the line.
    pub open spec fn render(self) -> Seq<char> {
        match self {
            Content::Section(section) => section.render(),
            Content::Entry(entry) => entry.render(),
            Content::Comment(comment) => comment.render(),
            Content::Other(other) => other.render(),
        }
    }

    /// The canonical form. That of a line that is none of the others is the
    /// blank line.
    pub open spec fn reformatted(self) -> Content {
        match self {
            Content::Section(section) => Content::Section(section.reformatted()),
            Content::Entry(entry) => Content::Entry(entry.reformatted()),
            Content::Comment(comment) => Content::Comment(comment.reformatted()),
            Content::Other(_) => Content::Other(Other::blank()),
        }
    }

    /// The trimmed form.
    pub open spec fn trimmed(self) -> Content {
        match self {
            Content::Section(section) => Content::Section(section.trimmed()),
            Content::Entry(entry) => Content::Entry(entry.trimmed()),
            Content::Comment(comment) => Content::Comment(comment.trimmed()),
            Content::Other(other) => Content::Other(other.trimmed()),
        }
    }
}

impl Line {
    /// The text of the line with its line ending.
    pub open spec fn render(self) -> Seq<char> {
        self.content.render() + self.ending
    }

    /// The blank line with the line ending `ending`.
    pub open spec fn blank(ending: Seq<char>) -> Line {
        Line { content: Content::Other(Other::blank()), ending }
    }

    /// The canonical form, with the line ending `ending`.
    pub open spec fn reformatted(self, ending: Seq<char>) -> Line {
        Line { content: self.content.reformatted(), ending }
    }

    /// The trimmed form; the line ending stays as it is.
    pub open spec fn trimmed(self) -> Line {
        Line { content: self.content.trimmed(), ending: self.ending }
    }
}

} // verus!
