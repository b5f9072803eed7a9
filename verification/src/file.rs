//! The document: an ordered sequence of lines, and the operations that
//! rewrite it. Every operation leaves the lines that it does not target
//! exactly as they were.

use crate::content::{IniContent, IniEntry, IniSection};
use crate::document::{
    blank_run, block_end, delete_keeps, deleted, edited, filter_keeps, filtered, first_ending,
    follows_entry, has_entry, has_section, inserted, insertion_point, is_entry_of, is_header,
    is_other_header, modified, modified_line, new_entry, not_comment, parsed, parsed_line,
    reformatted,
    reformatted_line, reformatted_to, rendered, section_at, select, text_of, texts_of, trimmed,
    without_comments,
};
use crate::line::IniLine;
use crate::model::Line;
use crate::text::{first_from, from_chars, lemma_first_from_is, same_text, to_chars};
use vstd::prelude::*;
use vstd::string::StringExecFns;

verus! {

/// A document.
pub struct IniFile {
    lines: Vec<IniLine>,
}

/// What a vector of lines holds.
spec fn views(lines: Seq<IniLine>) -> Seq<Line> {
    lines.map_values(|line: IniLine| line@)
}

/// Pushing a line onto a vector pushes what it holds onto what the vector
/// holds.
proof fn lemma_views_push(lines: Seq<IniLine>, line: IniLine)
    ensures
        views(lines.push(line)) == views(lines).push(line@),
{
    assert(views(lines.push(line)) =~= views(lines).push(line@));
}

impl View for IniFile {
    type V = Seq<Line>;

    closed spec fn view(&self) -> Seq<Line> {
        views(self.lines@)
    }
}

impl IniFile {
    /// The document that holds `lines`.
    pub fn new(lines: Vec<IniLine>) -> (file: IniFile)
        ensures
            file@.len() == lines@.len(),
            forall|i: int| 0 <= i < lines@.len() ==> file@[i] == (#[trigger] lines@[i])@,
    {
        IniFile { lines }
    }

    /// The document that the raw lines `raw_lines` hold. A raw line is a
    /// line as it was read, line ending included; the last one may have
    /// none.
    pub fn parse(raw_lines: &Vec<String>) -> (file: IniFile)
        ensures
            file@ == parsed(texts_of(raw_lines@)),
    {
        let mut lines: Vec<IniLine> = Vec::new();
        let mut i: usize = 0;
        while i < raw_lines.len()
            invariant
                i <= raw_lines.len(),
                lines@.len() == i,
                forall|j: int| 0 <= j < i ==> (#[trigger] lines@[j])@ == parsed_line(raw_lines@[j]@),
            decreases raw_lines.len() - i,
        {
            let mut chars = to_chars(raw_lines[i].as_str());
            let ghost raw = chars@;
            let n = chars.len();
            let line = if n >= 2 && chars[n - 2] == '\r' && chars[n - 1] == '\n' {
                chars.truncate(n - 2);
                proof {
                    reveal_strlit("\r\n");
                    assert("\r\n"@ =~= seq!['\r', '\n']);
                }
                IniLine::new(from_chars(&chars).as_str(), "\r\n")
            } else if n >= 1 && chars[n - 1] == '\n' {
                chars.truncate(n - 1);
                proof {
                    reveal_strlit("\n");
                    assert("\n"@ =~= seq!['\n']);
                }
                IniLine::new(from_chars(&chars).as_str(), "\n")
            } else if n >= 1 && chars[n - 1] == '\r' {
                chars.truncate(n - 1);
                proof {
                    reveal_strlit("\r");
                    assert("\r"@ =~= seq!['\r']);
                }
                IniLine::new(from_chars(&chars).as_str(), "\r")
            } else {
                proof {
                    reveal_strlit("");
                    assert(""@ =~= Seq::<char>::empty());
                    assert(raw.take(raw.len() as int) =~= raw);
                }
                IniLine::new(from_chars(&chars).as_str(), "")
            };
            assert(line@ == parsed_line(raw));
            lines.push(line);
            i += 1;
        }
        assert(views(lines@) =~= parsed(texts_of(raw_lines@)));
        IniFile { lines }
    }

    /// The text of the document: the text of each line with its line ending,
    /// one after the other.
    pub fn render(&self) -> (text: String)
        ensures
            text@ == rendered(self@),
    {
        let mut text = String::new();
        let mut i: usize = 0;
        while i < self.lines.len()
            invariant
                i <= self.lines.len(),
                text@ == rendered(self@.take(i as int)),
            decreases self.lines.len() - i,
        {
            let line = &self.lines[i];
            text.append(line.content().to_string().as_str());
            text.append(line.get_line_ending());
            proof {
                let read = self@.take(i as int).map_values(|line: Line| line.render());
                assert(self@.take(i + 1).map_values(|line: Line| line.render()) =~= read.push(
                    self@[i as int].render(),
                ));
                read.lemma_flatten_push(self@[i as int].render());
            }
            i += 1;
        }
        assert(self@.take(i as int) =~= self@);
        text
    }

    /// The lines of the document, in their order.
    pub fn lines(&self) -> (lines: &Vec<IniLine>)
        ensures
            lines@.len() == self@.len(),
            forall|i: int| 0 <= i < lines@.len() ==> (#[trigger] lines@[i])@ == self@[i],
    {
        &self.lines
    }

    /// The number of lines.
    pub fn line_count(&self) -> (count: usize)
        ensures
            count == self@.len(),
    {
        self.lines.len()
    }

    /// Brings the document into its canonical form: headers, entries and
    /// comments in their canonical form, one blank line before each header
    /// that follows an entry, no other line, and every line ending as the
    /// first line did.
    pub fn reformat(&mut self)
        ensures
            final(self)@ == reformatted(old(self)@),
    {
        let ghost before = self@;
        if self.lines.len() > 0 {
            let line_ending = self.lines[0].get_line_ending().to_owned();
            let ghost ending = line_ending@;
            let mut lines: Vec<IniLine> = Vec::new();
            let mut had_entries = false;
            let mut i: usize = 0;
            while i < self.lines.len()
                invariant
                    self@ == before,
                    i <= self.lines.len(),
                    ending == line_ending@,
                    views(lines@) == reformatted_to(before, i as int, ending),
                    had_entries == follows_entry(before, i as int),
                decreases self.lines.len() - i,
            {
                let line = &self.lines[i];
                let ghost so_far = views(lines@);
                match line.content() {
                    IniContent::Section(_) => {
                        if had_entries {
                            let blank = IniLine::empty(line_ending.as_str());
                            proof {
                                lemma_views_push(lines@, blank);
                            }
                            lines.push(blank);
                        }
                        let made = line.reformatted(line_ending.as_str());
                        proof {
                            lemma_views_push(lines@, made);
                        }
                        lines.push(made);
                        had_entries = false;
                    },
                    IniContent::Entry(_) => {
                        let made = line.reformatted(line_ending.as_str());
                        proof {
                            lemma_views_push(lines@, made);
                        }
                        lines.push(made);
                        had_entries = true;
                    },
                    IniContent::Comment(_) => {
                        let made = line.reformatted(line_ending.as_str());
                        proof {
                            lemma_views_push(lines@, made);
                        }
                        lines.push(made);
                    },
                    IniContent::Other(_) => {},
                }
                assert(views(lines@) =~= so_far + reformatted_line(before, i as int, ending));
                i += 1;
            }
            self.lines = lines;
        }
    }

    /// Trims every line: no white space before or after what the line holds.
    /// No line is added or removed, and the separators and line endings stay
    /// as they are.
    pub fn trim(&mut self)
        ensures
            final(self)@ == trimmed(old(self)@),
    {
        let ghost before = self@;
        let mut lines: Vec<IniLine> = Vec::new();
        let mut i: usize = 0;
        while i < self.lines.len()
            invariant
                self@ == before,
                i <= self.lines.len(),
                views(lines@) =~= trimmed(before).take(i as int),
            decreases self.lines.len() - i,
        {
            let made = self.lines[i].trimmed();
            proof {
                lemma_views_push(lines@, made);
            }
            lines.push(made);
            i += 1;
        }
        self.lines = lines;
    }

    /// Removes the comments. Every other line stays as it is.
    pub fn remove_comments(&mut self)
        ensures
            final(self)@ == without_comments(old(self)@),
    {
        let ghost before = self@;
        let mut lines: Vec<IniLine> = Vec::new();
        let mut i: usize = 0;
        while i < self.lines.len()
            invariant
                self@ == before,
                i <= self.lines.len(),
                views(lines@) == before.take(i as int).filter(not_comment()),
            decreases self.lines.len() - i,
        {
            let line = &self.lines[i];
            proof {
                assert(before.take(i + 1) =~= before.take(i as int).push(before[i as int]));
                before.take(i as int).lemma_filter_push(before[i as int], not_comment());
            }
            match line.content() {
                IniContent::Comment(_) => {},
                _ => {
                    let copy = line.clone();
                    proof {
                        lemma_views_push(lines@, copy);
                    }
                    lines.push(copy);
                },
            }
            i += 1;
        }
        assert(before.take(i as int) =~= before);
        self.lines = lines;
    }

    /// Keeps what matches and drops the rest: the headers with the name
    /// `filter_section` if no key is given, and the entries with the key
    /// `filter_key` under such a header. Without a name every header matches;
    /// without a key every entry does. Comments and other lines are dropped.
    pub fn filter(&mut self, filter_section: Option<&str>, filter_key: Option<&str>)
        requires
            filter_section is Some || filter_key is Some,
        ensures
            final(self)@ == filtered(old(self)@, text_of(filter_section), text_of(filter_key)),
    {
        let ghost before = self@;
        let ghost section = text_of(filter_section);
        let ghost keep = filter_keeps(before, section, text_of(filter_key));
        let mut is_section_matched = false;
        let mut lines: Vec<IniLine> = Vec::new();
        let mut i: usize = 0;
        while i < self.lines.len()
            invariant
                self@ == before,
                i <= self.lines.len(),
                section == text_of(filter_section),
                keep == filter_keeps(before, section, text_of(filter_key)),
                views(lines@) == select(before, keep, i as int),
                is_section_matched == {
                    &&& section_at(before, i as int) is Some
                    &&& section is None || section == section_at(before, i as int)
                },
            decreases self.lines.len() - i,
        {
            let line = &self.lines[i];
            let mut kept = false;
            match line.content() {
                IniContent::Section(header) => {
                    match filter_section {
                        Some(name) => {
                            is_section_matched = same_text(header.get_name(), name);
                            kept = is_section_matched && filter_key.is_none();
                        },
                        None => {
                            is_section_matched = true;
                        },
                    }
                },
                IniContent::Entry(entry) => {
                    if is_section_matched {
                        match filter_key {
                            Some(key) => {
                                kept = same_text(entry.get_key(), key);
                            },
                            None => {
                                kept = true;
                            },
                        }
                    }
                },
                IniContent::Other(_) => {},
                IniContent::Comment(_) => {},
            }
            assert(kept == keep(i as int));
            if kept {
                let copy = line.clone();
                proof {
                    lemma_views_push(lines@, copy);
                }
                lines.push(copy);
            }
            i += 1;
        }
        self.lines = lines;
    }

    /// Removes what matches and keeps the rest. With a name and no key, the
    /// headers with the name `filter_section` go, and every line under
    /// them. With a name and a key, the entries with the key `filter_key`
    /// under such a header go, and nothing else. Without a name no header
    /// matches, so nothing is removed, whatever the key.
    pub fn delete(&mut self, filter_section: Option<&str>, filter_key: Option<&str>)
        requires
            filter_section is Some || filter_key is Some,
        ensures
            final(self)@ == deleted(old(self)@, text_of(filter_section), text_of(filter_key)),
    {
        let ghost before = self@;
        let ghost section = text_of(filter_section);
        let ghost keep = delete_keeps(before, section, text_of(filter_key));
        let mut is_section_matched = false;
        let mut lines: Vec<IniLine> = Vec::new();
        let mut i: usize = 0;
        while i < self.lines.len()
            invariant
                self@ == before,
                i <= self.lines.len(),
                section == text_of(filter_section),
                keep == delete_keeps(before, section, text_of(filter_key)),
                views(lines@) == select(before, keep, i as int),
                is_section_matched == (section is Some && section == section_at(before, i as int)),
            decreases self.lines.len() - i,
        {
            let line = &self.lines[i];
            let mut kept = true;
            match line.content() {
                IniContent::Section(header) => {
                    match filter_section {
                        Some(name) => {
                            is_section_matched = same_text(header.get_name(), name);
                            kept = !is_section_matched || filter_key.is_some();
                        },
                        None => {
                            is_section_matched = false;
                        },
                    }
                },
                IniContent::Entry(entry) => {
                    if is_section_matched {
                        match filter_key {
                            Some(key) => {
                                kept = !same_text(entry.get_key(), key);
                            },
                            None => {
                                kept = false;
                            },
                        }
                    }
                },
                IniContent::Comment(_) => {
                    kept = !is_section_matched || filter_key.is_some();
                },
                IniContent::Other(_) => {
                    kept = !is_section_matched || filter_key.is_some();
                },
            }
            assert(kept == keep(i as int));
            if kept {
                let copy = line.clone();
                proof {
                    lemma_views_push(lines@, copy);
                }
                lines.push(copy);
            }
            i += 1;
        }
        self.lines = lines;
    }

    /// Whether the document has a header with the name `section_name`, and
    /// whether it has an entry with the key `key` under such a header.
    fn find(&self, section_name: &str, key: &str) -> (found: (bool, bool))
        ensures
            found.0 == has_section(self@, section_name@),
            found.1 == has_entry(self@, section_name@, key@),
    {
        let mut had_section_matched = false;
        let mut had_key_matched = false;
        let mut is_section_matched = false;
        let mut i: usize = 0;
        while i < self.lines.len()
            invariant
                i <= self.lines.len(),
                is_section_matched == (section_at(self@, i as int) == Some(section_name@)),
                had_section_matched == exists|j: int|
                    0 <= j < i && is_header(section_name@)(#[trigger] self@[j]),
                had_key_matched == exists|j: int|
                    0 <= j < i && #[trigger] is_entry_of(self@, j, section_name@, key@),
            decreases self.lines.len() - i,
        {
            match self.lines[i].content() {
                IniContent::Section(header) => {
                    is_section_matched = same_text(header.get_name(), section_name);
                    had_section_matched = had_section_matched || is_section_matched;
                },
                IniContent::Entry(entry) => {
                    had_key_matched = had_key_matched || (is_section_matched && same_text(
                        entry.get_key(),
                        key,
                    ));
                },
                IniContent::Comment(_) => {},
                IniContent::Other(_) => {},
            }
            proof {
                let at = i as int;
                if is_header(section_name@)(self@[at]) {
                    assert(had_section_matched);
                }
                if is_entry_of(self@, at, section_name@, key@) {
                    assert(had_key_matched);
                }
            }
            i += 1;
        }
        (had_section_matched, had_key_matched)
    }

    /// Gives every entry with the key `key` under a header with the name
    /// `section_name` the value `value`. Such an entry loses what stood
    /// before its key and after its value, and keeps its separator and its
    /// place.
    fn modify_entries(&mut self, section_name: &str, key: &str, value: &str)
        ensures
            final(self)@ == modified(old(self)@, section_name@, key@, value@),
    {
        let ghost before = self@;
        let ghost after = modified(before, section_name@, key@, value@);
        let mut lines: Vec<IniLine> = Vec::new();
        let mut is_section_matched = false;
        let mut i: usize = 0;
        while i < self.lines.len()
            invariant
                self@ == before,
                i <= self.lines.len(),
                after == modified(before, section_name@, key@, value@),
                views(lines@) =~= after.take(i as int),
                is_section_matched == (section_at(before, i as int) == Some(section_name@)),
            decreases self.lines.len() - i,
        {
            let line = &self.lines[i];
            let made = match line.content() {
                IniContent::Section(header) => {
                    is_section_matched = same_text(header.get_name(), section_name);
                    line.clone()
                },
                IniContent::Entry(entry) => {
                    if is_section_matched && same_text(entry.get_key(), key) {
                        IniLine::with_content(
                            IniContent::Entry(entry.with_modified_value(value)),
                            line.get_line_ending(),
                        )
                    } else {
                        line.clone()
                    }
                },
                IniContent::Comment(_) => line.clone(),
                IniContent::Other(_) => line.clone(),
            };
            proof {
                assert(made@ == modified_line(before, i as int, section_name@, key@, value@));
                lemma_views_push(lines@, made);
            }
            lines.push(made);
            i += 1;
        }
        self.lines = lines;
    }

    /// Puts a new entry into the first block of the section `section_name`:
    /// behind the last line of the block that is a header, an entry or a
    /// comment, so that the blank lines that trail the block stay behind the
    /// new entry.
    fn insert_entry(&mut self, section_name: &str, key: &str, value: &str, line_ending: &str)
        requires
            has_section(old(self)@, section_name@),
            line_ending@ == first_ending(old(self)@),
        ensures
            final(self)@ == inserted(old(self)@, section_name@, key@, value@),
    {
        let ghost before = self@;
        let ghost section = section_name@;
        let ghost entry = new_entry(key@, value@, line_ending@);
        let ghost mut head: int = 0;
        let mut lines: Vec<IniLine> = Vec::new();
        let mut was_section_matched = false;
        let mut consecutive_other_count: usize = 0;
        let mut done = false;
        let mut i: usize = 0;
        while i < self.lines.len()
            invariant
                self@ == before,
                i <= self.lines.len(),
                section == section_name@,
                entry == new_entry(key@, value@, line_ending@),
                consecutive_other_count == blank_run(before, i as int),
                consecutive_other_count <= i,
                !done ==> views(lines@) == before.take(i as int),
                done ==> {
                    &&& 0 <= insertion_point(before, section) <= i
                    &&& views(lines@) == before.take(i as int).insert(
                        insertion_point(before, section),
                        entry,
                    )
                },
                !done && !was_section_matched ==> forall|j: int|
                    0 <= j < i ==> !is_header(section)(#[trigger] before[j]),
                !done && was_section_matched ==> {
                    &&& 0 <= head < i
                    &&& first_from(before, 0, is_header(section)) == head
                    &&& forall|j: int|
                        head < j < i ==> !is_other_header(section)(#[trigger] before[j])
                },
            decreases self.lines.len() - i,
        {
            let line = &self.lines[i];
            let ghost at = i as int;
            match line.content() {
                IniContent::Section(header) => {
                    let named = same_text(header.get_name(), section_name);
                    if !done && was_section_matched && !named {
                        proof {
                            lemma_first_from_is(before, head + 1, is_other_header(section), at);
                            assert(block_end(before, section) == at);
                        }
                        let new_index = lines.len() - consecutive_other_count;
                        let made = IniLine::with_content(
                            IniContent::Entry(IniEntry::create(key, value)),
                            line_ending,
                        );
                        proof {
                            assert(views(lines@.insert(new_index as int, made))
                                =~= views(lines@).insert(new_index as int, made@));
                        }
                        lines.insert(new_index, made);
                        done = true;
                    }
                    proof {
                        if !done && !was_section_matched && named {
                            head = at;
                            lemma_first_from_is(before, 0, is_header(section), at);
                        }
                    }
                    was_section_matched = named;
                    consecutive_other_count = 0;
                },
                IniContent::Entry(_) => {
                    consecutive_other_count = 0;
                },
                IniContent::Comment(_) => {
                    consecutive_other_count = 0;
                },
                IniContent::Other(_) => {
                    consecutive_other_count += 1;
                },
            }
            let copy = line.clone();
            proof {
                lemma_views_push(lines@, copy);
                if done {
                    let point = insertion_point(before, section);
                    assert(before.take(at).insert(point, entry).push(before[at])
                        =~= before.take(at + 1).insert(point, entry));
                }
            }
            lines.push(copy);
            i += 1;
        }
        if !done {
            let ghost end = self@.len() as int;
            proof {
                assert(was_section_matched);
                lemma_first_from_is(before, head + 1, is_other_header(section), end);
                assert(block_end(before, section) == end);
                assert(before.take(end) =~= before);
            }
            let new_index = lines.len() - consecutive_other_count;
            let made = IniLine::with_content(
                IniContent::Entry(IniEntry::create(key, value)),
                line_ending,
            );
            proof {
                assert(views(lines@.insert(new_index as int, made)) =~= views(lines@).insert(
                    new_index as int,
                    made@,
                ));
            }
            lines.insert(new_index, made);
        }
        self.lines = lines;
    }

    /// Sets the value of the entry `key` of the section `section_name`.
    ///
    /// If `modify_existing` holds and the section has such an entry, each
    /// one gets the value and nothing is added. Else, if `create_new` holds,
    /// a new entry is added: in the first block of the section, before the
    /// blank lines that trail it, or, where the document has no such
    /// section, behind a new header at the end of the document. Else nothing
    /// changes. A new line ends as the first line of the document does, and
    /// with a line feed if there is none.
    pub fn edit(
        &mut self,
        section_name: &str,
        key: &str,
        value: &str,
        modify_existing: bool,
        create_new: bool,
    )
        ensures
            final(self)@ == edited(
                old(self)@,
                section_name@,
                key@,
                value@,
                modify_existing,
                create_new,
            ),
    {
        let line_ending = if self.lines.len() > 0 {
            self.lines[0].get_line_ending().to_owned()
        } else {
            proof {
                reveal_strlit("\n");
                assert("\n"@ =~= seq!['\n']);
            }
            "\n".to_owned()
        };
        let (had_section_matched, had_key_matched) = self.find(section_name, key);
        if modify_existing && had_key_matched {
            self.modify_entries(section_name, key, value);
        } else if create_new {
            if !had_section_matched {
                let header = IniLine::with_content(
                    IniContent::Section(IniSection::create(section_name)),
                    line_ending.as_str(),
                );
                let entry = IniLine::with_content(
                    IniContent::Entry(IniEntry::create(key, value)),
                    line_ending.as_str(),
                );
                proof {
                    lemma_views_push(self.lines@, header);
                    lemma_views_push(self.lines@.push(header), entry);
                }
                self.lines.push(header);
                self.lines.push(entry);
            } else {
                self.insert_entry(section_name, key, value, line_ending.as_str());
            }
        }
    }

    /// Hands the lines out one by one, in their order.
    pub fn into_iter(self) -> (lines: IniFileIntoIterator)
        ensures
            lines@ == self@,
    {
        let lines = IniFileIntoIterator { lines: self.lines, index: 0 };
        lines
    }
}

/// The lines of a document that are still to be handed out.
pub struct IniFileIntoIterator {
    lines: Vec<IniLine>,
    index: usize,
}

impl View for IniFileIntoIterator {
    type V = Seq<Line>;

    closed spec fn view(&self) -> Seq<Line> {
        if self.index <= self.lines@.len() {
            views(self.lines@).skip(self.index as int)
        } else {
            Seq::empty()
        }
    }
}

impl IniFileIntoIterator {
    /// The next line, if there is one.
    pub fn next(&mut self) -> (line: Option<IniLine>)
        ensures
            match line {
                Some(next) => {
                    &&& old(self)@.len() > 0
                    &&& next@ == old(self)@[0]
                    &&& final(self)@ == old(self)@.skip(1)
                },
                None => old(self)@.len() == 0 && final(self)@ == old(self)@,
            },
    {
        if self.index < self.lines.len() {
            let line = self.lines[self.index].clone();
            self.index += 1;
            Some(line)
        } else {
            None
        }
    }
}

} // verus!
