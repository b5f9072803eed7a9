//! The scanner: the state machine that reads a line one character at a time.
//!
//! The scanner is in one state at a time and keeps the parts of the line
//! that it has read. Each character moves it on, depending on the state, on
//! the character, and on whether the character is white space. When the line
//! has been read, what the scanner holds is what the grammar says of the
//! line.

use crate::content::{IniComment, IniContent, IniEntry, IniOther, IniSection};
use crate::grammar::{
    assign_at, assigned, classify, header_close, key_end, lemma_places, text_start, value_end,
    value_start,
};
use crate::model::{Comment, Content, Entry, Other, Section};
use crate::text::{lemma_content_end_is, white_space};
use vstd::prelude::*;

verus! {

/// What the scanner is reading.
pub enum State {
    Prefix,
    Suffix,
    SectionName,
    Key,
    Separator,
    Value,
    CommentText,
}

/// What the scanner takes the line for.
pub enum Kind {
    Section,
    Entry,
    Comment,
    Other,
}

/// What the scanner holds: its state, what it takes the line for, whether it
/// has read the `=` of an entry, and the parts of the line read so far.
pub struct Scan {
    pub state: State,
    pub kind: Kind,
    pub assigned: bool,
    pub prefix: Seq<char>,
    pub suffix: Seq<char>,
    pub section_name: Seq<char>,
    pub key: Seq<char>,
    pub separator: Seq<char>,
    pub value: Seq<char>,
    pub comment_prelude: Seq<char>,
    pub comment_text: Seq<char>,
}

impl Scan {
    /// The scanner before the first character.
    pub open spec fn start() -> Scan {
        Scan {
            state: State::Prefix,
            kind: Kind::Other,
            assigned: false,
            prefix: Seq::empty(),
            suffix: Seq::empty(),
            section_name: Seq::empty(),
            key: Seq::empty(),
            separator: Seq::empty(),
            value: Seq::empty(),
            comment_prelude: Seq::empty(),
            comment_text: Seq::empty(),
        }
    }

    /// The scanner after the character `c`, of which `space` says whether it
    /// is white space.
    pub open spec fn step(self, c: char, space: bool) -> Scan {
        match self.state {
            State::Prefix => if space {
                Scan { prefix: self.prefix.push(c), ..self }
            } else if c == '[' {
                Scan { kind: Kind::Section, state: State::SectionName, ..self }
            } else if c == ';' || c == '#' {
                Scan {
                    comment_prelude: self.comment_prelude.push(c),
                    kind: Kind::Comment,
                    state: State::CommentText,
                    ..self
                }
            } else if c == '=' {
                Scan { suffix: self.suffix.push(c), state: State::Suffix, ..self }
            } else {
                Scan { key: self.key.push(c), kind: Kind::Entry, state: State::Key, ..self }
            },
            State::Suffix => if !space && self.kind is Entry {
                Scan {
                    value: (self.value + self.suffix).push(c),
                    suffix: Seq::empty(),
                    state: State::Value,
                    ..self
                }
            } else {
                Scan { suffix: self.suffix.push(c), ..self }
            },
            State::SectionName => if c == ']' {
                Scan { state: State::Suffix, ..self }
            } else {
                Scan { section_name: self.section_name.push(c), ..self }
            },
            State::Key => if space {
                Scan { separator: self.separator.push(c), state: State::Separator, ..self }
            } else if c == '=' {
                Scan {
                    separator: self.separator.push(c),
                    assigned: true,
                    state: State::Separator,
                    ..self
                }
            } else {
                Scan { key: self.key.push(c), ..self }
            },
            State::Separator => if space {
                Scan { separator: self.separator.push(c), ..self }
            } else if c == '=' && !self.assigned {
                Scan { separator: self.separator.push(c), assigned: true, ..self }
            } else {
                Scan { value: self.value.push(c), state: State::Value, ..self }
            },
            State::Value => if space {
                Scan { suffix: self.suffix.push(c), state: State::Suffix, ..self }
            } else {
                Scan { value: self.value.push(c), ..self }
            },
            State::CommentText => Scan { comment_text: self.comment_text.push(c), ..self },
        }
    }

    /// Whether the line ended before the scanner had what makes a header or
    /// an entry: the `]` of a header, or the `=` of an entry.
    pub open spec fn unfinished(self) -> bool {
        self.state is SectionName || (self.kind is Entry && !self.assigned)
    }

    /// All that the scanner has read, in the order in which it stood in the
    /// line, where the line is neither header nor entry nor comment.
    pub open spec fn all_read(self) -> Seq<char> {
        if self.state is SectionName {
            self.prefix.push('[') + self.section_name + self.suffix
        } else {
            self.prefix + self.key + self.separator + self.value + self.suffix
        }
    }

    /// What the line holds, if the scanner has read all of it. An unfinished
    /// header and an unfinished entry give their characters back: such a
    /// line keeps its text as it is.
    pub open spec fn finish(self) -> Content {
        if self.unfinished() {
            Content::Other(Other { text: self.all_read() })
        } else {
            match self.kind {
                Kind::Section => Content::Section(
                    Section {
                        prefix: self.prefix,
                        prelude: seq!['['],
                        name: self.section_name,
                        postlude: seq![']'],
                        suffix: self.suffix,
                    },
                ),
                Kind::Entry => Content::Entry(
                    Entry {
                        prefix: self.prefix,
                        key: self.key,
                        separator: self.separator,
                        value: self.value,
                        suffix: self.suffix,
                    },
                ),
                Kind::Comment => Content::Comment(
                    Comment {
                        prefix: self.prefix,
                        prelude: self.comment_prelude,
                        text: self.comment_text,
                    },
                ),
                Kind::Other => Content::Other(Other { text: self.prefix + self.suffix }),
            }
        }
    }

    /// Whether the key and the separator have been read to their ends.
    spec fn holds_key(self, s: Seq<char>) -> bool {
        &&& self.kind is Entry
        &&& begins_key(s)
        &&& self.assigned == assigned(s)
        &&& self.prefix == s.take(text_start(s))
        &&& self.key == s.subrange(text_start(s), key_end(s))
        &&& self.separator == s.subrange(key_end(s), value_from(s))
    }

    /// What holds of the scanner when it has read the first `i` characters
    /// of `s`: each part holds its stretch of the line.
    spec fn reads(self, s: Seq<char>, i: int) -> bool {
        let start = text_start(s);
        &&& 0 <= i <= s.len()
        &&& match self.state {
            State::Prefix => {
                &&& self == Scan { prefix: self.prefix, ..Scan::start() }
                &&& i <= start
                &&& self.prefix == s.take(i)
            },
            State::SectionName => {
                &&& self.kind is Section
                &&& start < i <= header_close(s)
                &&& s[start] == '['
                &&& self.prefix == s.take(start)
                &&& self.section_name == s.subrange(start + 1, i)
                &&& self.suffix.len() == 0
            },
            State::CommentText => {
                &&& self.kind is Comment
                &&& start < i
                &&& (s[start] == ';' || s[start] == '#')
                &&& self.prefix == s.take(start)
                &&& self.comment_prelude == seq![s[start]]
                &&& self.comment_text == s.subrange(start + 1, i)
            },
            State::Key => {
                &&& self.kind is Entry
                &&& begins_key(s)
                &&& start < i <= key_end(s)
                &&& !self.assigned
                &&& self.prefix == s.take(start)
                &&& self.key == s.subrange(start, i)
                &&& self.separator.len() == 0
                &&& self.value.len() == 0
                &&& self.suffix.len() == 0
            },
            State::Separator => {
                &&& self.kind is Entry
                &&& begins_key(s)
                &&& key_end(s) < i
                &&& self.assigned == (assign_at(s) < i)
                &&& if self.assigned {
                    s[assign_at(s)] == '=' && i <= value_start(s)
                } else {
                    i <= assign_at(s)
                }
                &&& self.prefix == s.take(start)
                &&& self.key == s.subrange(start, key_end(s))
                &&& self.separator == s.subrange(key_end(s), i)
                &&& self.value.len() == 0
                &&& self.suffix.len() == 0
            },
            State::Value => {
                &&& self.holds_key(s)
                &&& value_from(s) < i
                &&& self.value == s.subrange(value_from(s), i)
                &&& !white_space(s[i - 1])
                &&& self.suffix.len() == 0
            },
            State::Suffix => match self.kind {
                Kind::Other => {
                    &&& start < i
                    &&& s[start] == '='
                    &&& self.prefix == s.take(start)
                    &&& self.suffix == s.subrange(start, i)
                },
                Kind::Section => {
                    &&& header_close(s) < i
                    &&& s[start] == '['
                    &&& self.prefix == s.take(start)
                    &&& self.section_name == s.subrange(start + 1, header_close(s))
                    &&& self.suffix == s.subrange(header_close(s) + 1, i)
                },
                Kind::Entry => {
                    let to = value_from(s) + self.value.len();
                    &&& self.holds_key(s)
                    &&& value_from(s) < to < i
                    &&& self.value == s.subrange(value_from(s), to)
                    &&& !white_space(s[to - 1])
                    &&& self.suffix == s.subrange(to, i)
                    &&& forall|j: int| to <= j < i ==> white_space(#[trigger] s[j])
                },
                Kind::Comment => false,
            },
        }
    }
}

/// Whether the first text of `s` begins a key.
spec fn begins_key(s: Seq<char>) -> bool {
    let c = s[text_start(s)];
    text_start(s) < s.len() && c != '[' && c != ';' && c != '#' && c != '='
}

/// Index at which the scanner begins the value: behind the separator,
/// whether that holds a `=` or not.
spec fn value_from(s: Seq<char>) -> int {
    if assigned(s) {
        value_start(s)
    } else {
        assign_at(s)
    }
}

/// The scanner after the first `n` characters of the line `s`.
pub open spec fn scanned(s: Seq<char>, n: int) -> Scan
    decreases n,
{
    if n <= 0 {
        Scan::start()
    } else {
        scanned(s, n - 1).step(s[n - 1], white_space(s[n - 1]))
    }
}

/// One character on, each part still holds its stretch of the line.
proof fn lemma_step_reads(scan: Scan, s: Seq<char>, i: int)
    requires
        scan.reads(s, i),
        i < s.len(),
    ensures
        scan.step(s[i], white_space(s[i])).reads(s, i + 1),
{
    lemma_places(s);
    let c = s[i];
    let space = white_space(c);
    let next = scan.step(c, space);
    let start = text_start(s);
    match scan.state {
        State::Prefix => {
            if space {
                assert(next.prefix =~= s.take(i + 1));
            } else if c == '[' {
                assert(next.section_name =~= s.subrange(start + 1, i + 1));
            } else if c == ';' || c == '#' {
                assert(next.comment_text =~= s.subrange(start + 1, i + 1));
            } else if c == '=' {
                assert(next.suffix =~= s.subrange(start, i + 1));
            } else {
                assert(next.key =~= s.subrange(start, i + 1));
            }
        },
        State::Suffix => {
            match scan.kind {
                Kind::Entry => {
                    let to = value_from(s) + scan.value.len();
                    if space {
                        assert(next.suffix =~= s.subrange(to, i + 1));
                    } else {
                        assert(next.value =~= s.subrange(value_from(s), i + 1));
                    }
                },
                Kind::Section => {
                    assert(next.suffix =~= s.subrange(header_close(s) + 1, i + 1));
                },
                _ => {
                    assert(next.suffix =~= s.subrange(start, i + 1));
                },
            }
        },
        State::SectionName => {
            if c == ']' {
                assert(next.suffix =~= s.subrange(header_close(s) + 1, i + 1));
            } else {
                assert(next.section_name =~= s.subrange(start + 1, i + 1));
            }
        },
        State::Key => {
            if space {
                assert(next.separator =~= s.subrange(key_end(s), i + 1));
            } else if c == '=' {
                assert(next.separator =~= s.subrange(key_end(s), i + 1));
            } else {
                assert(next.key =~= s.subrange(start, i + 1));
            }
        },
        State::Separator => {
            if space {
                assert(next.separator =~= s.subrange(key_end(s), i + 1));
            } else if c == '=' && !scan.assigned {
                assert(next.separator =~= s.subrange(key_end(s), i + 1));
            } else {
                assert(next.value =~= s.subrange(value_from(s), i + 1));
            }
        },
        State::Value => {
            if space {
                assert(next.suffix =~= s.subrange(i, i + 1));
            } else {
                assert(next.value =~= s.subrange(value_from(s), i + 1));
            }
        },
        State::CommentText => {
            assert(next.comment_text =~= s.subrange(start + 1, i + 1));
        },
    }
}

/// When all of the line has been read, the scanner holds what the grammar
/// says of the line.
proof fn lemma_finish_classifies(scan: Scan, s: Seq<char>)
    requires
        scan.reads(s, s.len() as int),
    ensures
        scan.finish() == classify(s),
{
    lemma_places(s);
    if scan.unfinished() {
        assert(scan.all_read() =~= s);
    } else {
        match scan.kind {
            Kind::Entry => {
                match scan.state {
                    State::Separator => {
                        assert(scan.value =~= s.subrange(value_start(s), value_end(s)));
                    },
                    State::Value => {
                        lemma_content_end_is(s, s.len() as int);
                    },
                    _ => {
                        lemma_content_end_is(s, value_start(s) + scan.value.len());
                    },
                }
                assert(scan.suffix =~= s.skip(value_end(s)));
            },
            Kind::Other => {
                assert(scan.prefix + scan.suffix =~= s);
            },
            _ => {},
        }
    }
}

/// While it reads a line, each part of the scanner holds its stretch of the
/// line.
proof fn lemma_scanned_reads(s: Seq<char>, n: int)
    requires
        0 <= n <= s.len(),
    ensures
        scanned(s, n).reads(s, n),
    decreases n,
{
    if n > 0 {
        lemma_scanned_reads(s, n - 1);
        lemma_step_reads(scanned(s, n - 1), s, n - 1);
    } else {
        lemma_places(s);
        assert(Scan::start().prefix =~= s.take(0));
    }
}

/// The scanner reads what the grammar says: when it has read every
/// character of a line, it holds what the line is classified as.
pub proof fn lemma_scanned_classifies(s: Seq<char>)
    ensures
        scanned(s, s.len() as int).finish() == classify(s),
{
    lemma_scanned_reads(s, s.len() as int);
    lemma_finish_classifies(scanned(s, s.len() as int), s);
}

/// The scanner.
pub struct Scanner {
    state: State,
    kind: Kind,
    assigned: bool,
    prefix: Vec<char>,
    suffix: Vec<char>,
    section_name: Vec<char>,
    key: Vec<char>,
    separator: Vec<char>,
    value: Vec<char>,
    comment_prelude: Vec<char>,
    comment_text: Vec<char>,
}

impl View for Scanner {
    type V = Scan;

    closed spec fn view(&self) -> Scan {
        Scan {
            state: self.state,
            kind: self.kind,
            assigned: self.assigned,
            prefix: self.prefix@,
            suffix: self.suffix@,
            section_name: self.section_name@,
            key: self.key@,
            separator: self.separator@,
            value: self.value@,
            comment_prelude: self.comment_prelude@,
            comment_text: self.comment_text@,
        }
    }
}

impl Scanner {
    /// The scanner before the first character.
    pub fn start() -> (scanner: Scanner)
        ensures
            scanner@ == Scan::start(),
    {
        Scanner {
            state: State::Prefix,
            kind: Kind::Other,
            assigned: false,
            prefix: Vec::new(),
            suffix: Vec::new(),
            section_name: Vec::new(),
            key: Vec::new(),
            separator: Vec::new(),
            value: Vec::new(),
            comment_prelude: Vec::new(),
            comment_text: Vec::new(),
        }
    }

    /// Reads the character `c`, of which `space` says whether it is white
    /// space.
    pub fn step(&mut self, c: char, space: bool)
        ensures
            final(self)@ == old(self)@.step(c, space),
    {
        match self.state {
            State::Prefix => {
                if space {
                    self.prefix.push(c);
                } else if c == '[' {
                    self.kind = Kind::Section;
                    self.state = State::SectionName;
                } else if c == ';' || c == '#' {
                    self.comment_prelude.push(c);
                    self.kind = Kind::Comment;
                    self.state = State::CommentText;
                } else if c == '=' {
                    self.suffix.push(c);
                    self.state = State::Suffix;
                } else {
                    self.key.push(c);
                    self.kind = Kind::Entry;
                    self.state = State::Key;
                }
            },
            State::Suffix => {
                if !space {
                    match self.kind {
                        Kind::Entry => {
                            self.value.append(&mut self.suffix);
                            self.value.push(c);
                            self.state = State::Value;
                        },
                        _ => {
                            self.suffix.push(c);
                        },
                    }
                } else {
                    self.suffix.push(c);
                }
            },
            State::SectionName => {
                if c == ']' {
                    self.state = State::Suffix;
                } else {
                    self.section_name.push(c);
                }
            },
            State::Key => {
                if space {
                    self.separator.push(c);
                    self.state = State::Separator;
                } else if c == '=' {
                    self.separator.push(c);
                    self.assigned = true;
                    self.state = State::Separator;
                } else {
                    self.key.push(c);
                }
            },
            State::Separator => {
                if space {
                    self.separator.push(c);
                } else if c == '=' && !self.assigned {
                    self.separator.push(c);
                    self.assigned = true;
                } else {
                    self.value.push(c);
                    self.state = State::Value;
                }
            },
            State::Value => {
                if space {
                    self.suffix.push(c);
                    self.state = State::Suffix;
                } else {
                    self.value.push(c);
                }
            },
            State::CommentText => {
                self.comment_text.push(c);
            },
        }
    }

    /// What the line holds, once all of it has been read.
    pub fn finish(self) -> (content: IniContent)
        ensures
            content@ == self@.finish(),
    {
        let Scanner {
            state,
            kind,
            assigned,
            mut prefix,
            mut suffix,
            mut section_name,
            mut key,
            mut separator,
            mut value,
            comment_prelude,
            comment_text,
        } = self;
        match state {
            State::SectionName => {
                prefix.push('[');
                prefix.append(&mut section_name);
                prefix.append(&mut suffix);
                return IniContent::Other(IniOther::new(&prefix));
            },
            _ => {},
        }
        match kind {
            Kind::Section => {
                let mut prelude: Vec<char> = Vec::new();
                prelude.push('[');
                let mut postlude: Vec<char> = Vec::new();
                postlude.push(']');
                IniContent::Section(
                    IniSection::new(&prefix, &prelude, &section_name, &postlude, &suffix),
                )
            },
            Kind::Entry => {
                if assigned {
                    IniContent::Entry(IniEntry::new(&prefix, &key, &separator, &value, &suffix))
                } else {
                    prefix.append(&mut key);
                    prefix.append(&mut separator);
                    prefix.append(&mut value);
                    prefix.append(&mut suffix);
                    IniContent::Other(IniOther::new(&prefix))
                }
            },
            Kind::Comment => {
                IniContent::Comment(IniComment::new(&prefix, &comment_prelude, &comment_text))
            },
            Kind::Other => {
                prefix.append(&mut suffix);
                IniContent::Other(IniOther::new(&prefix))
            },
        }
    }
}

} // verus!
