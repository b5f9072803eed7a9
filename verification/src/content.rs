//! What a line holds: a section header, an entry, a comment, or anything
//! else. Each type keeps the exact characters of its line, part by part.

use crate::model::{Comment, Content, Entry, Other, Section};
use crate::quote::{unquote, unquoted};
use crate::text::{from_chars, to_chars};
use vstd::prelude::*;
use vstd::string::StringExecFns;

verus! {

/// A section header `[name]`, with what surrounds it on its line.
pub struct IniSection {
    prefix: String,
    prelude: String,
    name: String,
    postlude: String,
    suffix: String,
}

impl View for IniSection {
    type V = Section;

    closed spec fn view(&self) -> Section {
        Section {
            prefix: self.prefix@,
            prelude: self.prelude@,
            name: self.name@,
            postlude: self.postlude@,
            suffix: self.suffix@,
        }
    }
}

impl Clone for IniSection {
    fn clone(&self) -> (copy: Self)
        ensures
            copy@ == self@,
    {
        IniSection {
            prefix: self.prefix.clone(),
            prelude: self.prelude.clone(),
            name: self.name.clone(),
            postlude: self.postlude.clone(),
            suffix: self.suffix.clone(),
        }
    }
}

impl IniSection {
    /// The header whose parts hold the given characters.
    pub fn new(
        prefix: &Vec<char>,
        prelude: &Vec<char>,
        name: &Vec<char>,
        postlude: &Vec<char>,
        suffix: &Vec<char>,
    ) -> (made: IniSection)
        ensures
            made@ == (Section {
                prefix: prefix@,
                prelude: prelude@,
                name: name@,
                postlude: postlude@,
                suffix: suffix@,
            }),
    {
        IniSection {
            prefix: from_chars(prefix),
            prelude: from_chars(prelude),
            name: from_chars(name),
            postlude: from_chars(postlude),
            suffix: from_chars(suffix),
        }
    }

    /// The white space before the opening bracket.
    pub fn get_prefix(&self) -> (part: &str)
        ensures
            part@ == self@.prefix,
    {
        self.prefix.as_str()
    }

    /// The opening bracket.
    pub fn get_prelude(&self) -> (part: &str)
        ensures
            part@ == self@.prelude,
    {
        self.prelude.as_str()
    }

    /// The name between the brackets.
    pub fn get_name(&self) -> (part: &str)
        ensures
            part@ == self@.name,
    {
        self.name.as_str()
    }

    /// The closing bracket.
    pub fn get_postlude(&self) -> (part: &str)
        ensures
            part@ == self@.postlude,
    {
        self.postlude.as_str()
    }

    /// What follows the closing bracket.
    pub fn get_suffix(&self) -> (part: &str)
        ensures
            part@ == self@.suffix,
    {
        self.suffix.as_str()
    }

    /// The header `[name]` with nothing around it.
    pub fn create(name: &str) -> (made: IniSection)
        ensures
            made@ == Section::bare(name@),
    {
        proof {
            reveal_strlit("[");
            reveal_strlit("]");
        }
        let made = IniSection {
            prefix: String::new(),
            prelude: "[".to_owned(),
            name: name.to_owned(),
            postlude: "]".to_owned(),
            suffix: String::new(),
        };
        assert(made.prelude@ =~= seq!['[']);
        assert(made.postlude@ =~= seq![']']);
        made
    }

    /// The canonical form: nothing before the header and nothing after it.
    pub fn reformatted(&self) -> (made: IniSection)
        ensures
            made@ == self@.reformatted(),
    {
        IniSection {
            prefix: String::new(),
            prelude: self.prelude.clone(),
            name: self.name.clone(),
            postlude: self.postlude.clone(),
            suffix: String::new(),
        }
    }

    /// The trimmed form: nothing before the header and nothing after it.
    pub fn trimmed(&self) -> (made: IniSection)
        ensures
            made@ == self@.trimmed(),
    {
        IniSection {
            prefix: String::new(),
            prelude: self.prelude.clone(),
            name: self.name.clone(),
            postlude: self.postlude.clone(),
            suffix: String::new(),
        }
    }

    /// The text of the line.
    pub fn to_string(&self) -> (line: String)
        ensures
            line@ == self@.render(),
    {
        let mut line = self.prefix.clone();
        line.append(self.prelude.as_str());
        line.append(self.name.as_str());
        line.append(self.postlude.as_str());
        line.append(self.suffix.as_str());
        line
    }
}

/// An entry `key=value`, with what surrounds it on its line.
pub struct IniEntry {
    prefix: String,
    key: String,
    separator: String,
    value: String,
    suffix: String,
}

impl View for IniEntry {
    type V = Entry;

    closed spec fn view(&self) -> Entry {
        Entry {
            prefix: self.prefix@,
            key: self.key@,
            separator: self.separator@,
            value: self.value@,
            suffix: self.suffix@,
        }
    }
}

impl Clone for IniEntry {
    fn clone(&self) -> (copy: Self)
        ensures
            copy@ == self@,
    {
        IniEntry {
            prefix: self.prefix.clone(),
            key: self.key.clone(),
            separator: self.separator.clone(),
            value: self.value.clone(),
            suffix: self.suffix.clone(),
        }
    }
}

impl IniEntry {
    /// The entry whose parts hold the given characters.
    pub fn new(
        prefix: &Vec<char>,
        key: &Vec<char>,
        separator: &Vec<char>,
        value: &Vec<char>,
        suffix: &Vec<char>,
    ) -> (made: IniEntry)
        ensures
            made@ == (Entry {
                prefix: prefix@,
                key: key@,
                separator: separator@,
                value: value@,
                suffix: suffix@,
            }),
    {
        IniEntry {
            prefix: from_chars(prefix),
            key: from_chars(key),
            separator: from_chars(separator),
            value: from_chars(value),
            suffix: from_chars(suffix),
        }
    }

    /// The white space before the key.
    pub fn get_prefix(&self) -> (part: &str)
        ensures
            part@ == self@.prefix,
    {
        self.prefix.as_str()
    }

    /// The key.
    pub fn get_key(&self) -> (part: &str)
        ensures
            part@ == self@.key,
    {
        self.key.as_str()
    }

    /// The `=` with the white space around it.
    pub fn get_separator(&self) -> (part: &str)
        ensures
            part@ == self@.separator,
    {
        self.separator.as_str()
    }

    /// The white space after the value.
    pub fn get_suffix(&self) -> (part: &str)
        ensures
            part@ == self@.suffix,
    {
        self.suffix.as_str()
    }

    /// The raw value, quotes included.
    pub fn get_value(&self) -> (value: &str)
        ensures
            value@ == self@.value,
    {
        self.value.as_str()
    }

    /// What the value stands for: the raw value if it is not quoted, and
    /// else what the text between the quotes decodes to.
    pub fn get_value_unquoted(&self) -> (text: String)
        ensures
            text@ == unquoted(self@.value),
    {
        unquote(self.value.as_str())
    }

    /// The entry `key=value` with nothing around it.
    pub fn create(key: &str, value: &str) -> (made: IniEntry)
        ensures
            made@ == Entry::bare(key@, value@),
    {
        proof {
            reveal_strlit("=");
        }
        let made = IniEntry {
            prefix: String::new(),
            key: key.to_owned(),
            separator: "=".to_owned(),
            value: value.to_owned(),
            suffix: String::new(),
        };
        assert(made.separator@ =~= seq!['=']);
        made
    }

    /// The canonical form: `key=value` with nothing around it.
    pub fn reformatted(&self) -> (made: IniEntry)
        ensures
            made@ == self@.reformatted(),
    {
        IniEntry::create(self.key.as_str(), self.value.as_str())
    }

    /// The trimmed form: nothing before the key and nothing after the value;
    /// the separator stays as it is.
    pub fn trimmed(&self) -> (made: IniEntry)
        ensures
            made@ == self@.trimmed(),
    {
        IniEntry {
            prefix: String::new(),
            key: self.key.clone(),
            separator: self.separator.clone(),
            value: self.value.clone(),
            suffix: String::new(),
        }
    }

    /// The entry with the raw value `value`, and nothing before the key or
    /// after the value. The value is taken as it is: it is not quoted.
    pub fn with_modified_value(&self, value: &str) -> (made: IniEntry)
        ensures
            made@ == self@.with_value(value@),
    {
        IniEntry {
            prefix: String::new(),
            key: self.key.clone(),
            separator: self.separator.clone(),
            value: value.to_owned(),
            suffix: String::new(),
        }
    }

    /// The text of the line.
    pub fn to_string(&self) -> (line: String)
        ensures
            line@ == self@.render(),
    {
        let mut line = self.prefix.clone();
        line.append(self.key.as_str());
        line.append(self.separator.as_str());
        line.append(self.value.as_str());
        line.append(self.suffix.as_str());
        line
    }
}

/// A comment line.
pub struct IniComment {
    prefix: String,
    prelude: String,
    text: String,
}

impl View for IniComment {
    type V = Comment;

    closed spec fn view(&self) -> Comment {
        Comment {
            prefix: self.prefix@,
            prelude: self.prelude@,
            text: self.text@,
        }
    }
}

impl Clone for IniComment {
    fn clone(&self) -> (copy: Self)
        ensures
            copy@ == self@,
    {
        IniComment {
            prefix: self.prefix.clone(),
            prelude: self.prelude.clone(),
            text: self.text.clone(),
        }
    }
}

impl IniComment {
    /// The comment whose parts hold the given characters.
    pub fn new(prefix: &Vec<char>, prelude: &Vec<char>, text: &Vec<char>) -> (made: IniComment)
        ensures
            made@ == (Comment {
                prefix: prefix@,
                prelude: prelude@,
                text: text@,
            }),
    {
        IniComment {
            prefix: from_chars(prefix),
            prelude: from_chars(prelude),
            text: from_chars(text),
        }
    }

    /// The white space before the comment character.
    pub fn get_prefix(&self) -> (part: &str)
        ensures
            part@ == self@.prefix,
    {
        self.prefix.as_str()
    }

    /// The comment character, in the canonical form followed by a space.
    pub fn get_prelude(&self) -> (part: &str)
        ensures
            part@ == self@.prelude,
    {
        self.prelude.as_str()
    }

    /// What follows the prelude.
    pub fn get_text(&self) -> (part: &str)
        ensures
            part@ == self@.text,
    {
        self.text.as_str()
    }

    /// The comment that begins with `prelude` and goes on with `text`, with
    /// nothing before it.
    pub fn create(prelude: &str, text: &str) -> (made: IniComment)
        ensures
            made@ == (Comment { prefix: Seq::empty(), prelude: prelude@, text: text@ }),
    {
        IniComment { prefix: String::new(), prelude: prelude.to_owned(), text: text.to_owned() }
    }

    /// The canonical form: the comment character, one space, and the text
    /// without white space around it.
    pub fn reformatted(&self) -> (made: IniComment)
        ensures
            made@ == self@.reformatted(),
    {
        let marker = to_chars(self.prelude.as_str());
        let mut prelude = String::new();
        if marker.len() > 0 {
            prelude.push(marker[0]);
            prelude.push(' ');
        }
        assert(prelude@ =~= Comment::spaced(self.prelude@));
        IniComment {
            prefix: String::new(),
            prelude,
            text: self.text.as_str().trim().to_owned(),
        }
    }

    /// The trimmed form, which for a comment is the canonical form.
    pub fn trimmed(&self) -> (made: IniComment)
        ensures
            made@ == self@.trimmed(),
    {
        self.reformatted()
    }

    /// The text of the line.
    pub fn to_string(&self) -> (line: String)
        ensures
            line@ == self@.render(),
    {
        let mut line = self.prefix.clone();
        line.append(self.prelude.as_str());
        line.append(self.text.as_str());
        line
    }
}

/// A line that is none of the others: blank, or not understood.
pub struct IniOther {
    text: String,
}

impl View for IniOther {
    type V = Other;

    closed spec fn view(&self) -> Other {
        Other {
            text: self.text@,
        }
    }
}

impl Clone for IniOther {
    fn clone(&self) -> (copy: Self)
        ensures
            copy@ == self@,
    {
        IniOther {
            text: self.text.clone(),
        }
    }
}

impl IniOther {
    /// The line whose text holds the given characters.
    pub fn new(text: &Vec<char>) -> (made: IniOther)
        ensures
            made@ == (Other {
                text: text@,
            }),
    {
        IniOther {
            text: from_chars(text),
        }
    }

    /// The text of the line.
    pub fn get_text(&self) -> (part: &str)
        ensures
            part@ == self@.text,
    {
        self.text.as_str()
    }

    /// The line with the text `text`.
    pub fn create(text: &str) -> (made: IniOther)
        ensures
            made@ == (Other { text: text@ }),
    {
        IniOther { text: text.to_owned() }
    }

    /// The blank line.
    pub fn empty() -> (made: IniOther)
        ensures
            made@ == Other::blank(),
    {
        IniOther { text: String::new() }
    }

    /// The trimmed form: the text without white space around it.
    pub fn trimmed(&self) -> (made: IniOther)
        ensures
            made@ == self@.trimmed(),
    {
        IniOther { text: self.text.as_str().trim().to_owned() }
    }

    /// The text of the line.
    pub fn to_string(&self) -> (line: String)
        ensures
            line@ == self@.render(),
    {
        self.text.clone()
    }
}

/// What a line holds.
pub enum IniContent {
    Section(IniSection),
    Entry(IniEntry),
    Comment(IniComment),
    Other(IniOther),
}

impl View for IniContent {
    type V = Content;

    open spec fn view(&self) -> Content {
        match self {
            IniContent::Section(section) => Content::Section(section@),
            IniContent::Entry(entry) => Content::Entry(entry@),
            IniContent::Comment(comment) => Content::Comment(comment@),
            IniContent::Other(other) => Content::Other(other@),
        }
    }
}

impl Clone for IniContent {
    fn clone(&self) -> (copy: Self)
        ensures
            copy@ == self@,
    {
        match self {
            IniContent::Section(section) => IniContent::Section(section.clone()),
            IniContent::Entry(entry) => IniContent::Entry(entry.clone()),
            IniContent::Comment(comment) => IniContent::Comment(comment.clone()),
            IniContent::Other(other) => IniContent::Other(other.clone()),
        }
    }
}

impl IniContent {
    /// The text of the line.
    pub fn to_string(&self) -> (line: String)
        ensures
            line@ == self@.render(),
    {
        match self {
            IniContent::Section(section) => section.to_string(),
            IniContent::Entry(entry) => entry.to_string(),
            IniContent::Comment(comment) => comment.to_string(),
            IniContent::Other(other) => other.to_string(),
        }
    }
}

} // verus!
