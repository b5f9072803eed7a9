//! One line of a document.

use crate::content::{IniContent, IniOther};
use crate::grammar::{classify, lemma_classify_render};
use crate::model::Line;
use crate::scanner::{lemma_scanned_classifies, scanned, Scanner};
use vstd::prelude::*;
use vstd::std_specs::iter::IteratorSpec;

verus! {

/// One line of a document: what it holds, and its line ending.
pub struct IniLine {
    content: IniContent,
    line_ending: String,
}

impl View for IniLine {
    type V = Line;

    closed spec fn view(&self) -> Line {
        Line { content: self.content@, ending: self.line_ending@ }
    }
}

impl Clone for IniLine {
    fn clone(&self) -> (copy: Self)
        ensures
            copy@ == self@,
    {
        IniLine { content: self.content.clone(), line_ending: self.line_ending.clone() }
    }
}

impl IniLine {
    /// The line with the text `raw_content` and the line ending
    /// `line_ending`. Every text is some line, and the line keeps every
    /// character of it: written out, it is `raw_content` again.
    pub fn new(raw_content: &str, line_ending: &str) -> (line: IniLine)
        ensures
            line@ == (Line { content: classify(raw_content@), ending: line_ending@ }),
            line@.content.render() == raw_content@,
            line@.render() == raw_content@ + line_ending@,
    {
        broadcast use vstd::string::group_string_axioms;

        let mut scanner = Scanner::start();
        for c in it: raw_content.chars()
            invariant
                it.seq() == raw_content@,
                scanner@ == scanned(raw_content@, it.index() as int),
        {
            scanner.step(c, c.is_whitespace());
        }
        let content = scanner.finish();
        proof {
            lemma_scanned_classifies(raw_content@);
            lemma_classify_render(raw_content@);
        }
        IniLine { content, line_ending: line_ending.to_owned() }
    }

    /// The line that holds `content` and ends with `line_ending`.
    pub fn with_content(content: IniContent, line_ending: &str) -> (line: IniLine)
        ensures
            line@ == (Line { content: content@, ending: line_ending@ }),
    {
        IniLine { content, line_ending: line_ending.to_owned() }
    }

    /// The blank line with the line ending `line_ending`.
    pub fn empty(line_ending: &str) -> (line: IniLine)
        ensures
            line@ == Line::blank(line_ending@),
    {
        IniLine { content: IniContent::Other(IniOther::empty()), line_ending: line_ending.to_owned() }
    }

    /// The canonical form of the line, with the line ending `line_ending`.
    pub fn reformatted(&self, line_ending: &str) -> (line: IniLine)
        ensures
            line@ == self@.reformatted(line_ending@),
    {
        let content = match &self.content {
            IniContent::Section(section) => IniContent::Section(section.reformatted()),
            IniContent::Entry(entry) => IniContent::Entry(entry.reformatted()),
            IniContent::Comment(comment) => IniContent::Comment(comment.reformatted()),
            IniContent::Other(_) => IniContent::Other(IniOther::empty()),
        };
        IniLine { content, line_ending: line_ending.to_owned() }
    }

    /// The trimmed form of the line. The line ending stays as it is.
    pub fn trimmed(&self) -> (line: IniLine)
        ensures
            line@ == self@.trimmed(),
    {
        let content = match &self.content {
            IniContent::Section(section) => IniContent::Section(section.trimmed()),
            IniContent::Entry(entry) => IniContent::Entry(entry.trimmed()),
            IniContent::Comment(comment) => IniContent::Comment(comment.trimmed()),
            IniContent::Other(other) => IniContent::Other(other.trimmed()),
        };
        IniLine { content, line_ending: self.line_ending.clone() }
    }

    /// The line ending.
    pub fn get_line_ending(&self) -> (ending: &str)
        ensures
            ending@ == self@.ending,
    {
        self.line_ending.as_str()
    }

    /// A copy of what the line holds.
    pub fn get_content(&self) -> (content: IniContent)
        ensures
            content@ == self@.content,
    {
        self.content.clone()
    }

    /// What the line holds.
    pub fn content(&self) -> (content: &IniContent)
        ensures
            content@ == self@.content,
    {
        &self.content
    }
}

} // verus!
