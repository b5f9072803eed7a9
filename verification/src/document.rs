//! What the operations on a document do, stated on the model: a document is
//! a `Seq<Line>`, and each operation is a function from documents to
//! documents.
//!
//! A header scopes the lines that follow it, up to the next header. Whether a
//! line is kept, changed or dropped depends on what it holds and on the
//! header that it stands under.

use crate::grammar::classify;
use crate::model::{Content, Entry, Line, Section};
use crate::text::first_from;
use vstd::prelude::*;

verus! {

/// The text that an optional string holds.
pub open spec fn text_of(name: Option<&str>) -> Option<Seq<char>> {
    match name {
        Some(text) => Some(text@),
        None => None,
    }
}

/// Name of the header that the line at index `i` stands under: that of the
/// nearest header before it. The lines before the first header stand under
/// none.
pub open spec fn section_at(lines: Seq<Line>, i: int) -> Option<Seq<char>>
    decreases i,
{
    if i <= 0 {
        None
    } else {
        match lines[i - 1].content {
            Content::Section(section) => Some(section.name),
            _ => section_at(lines, i - 1),
        }
    }
}

/// The lines among the first `n` of `lines` whose index `keep` holds of, in
/// their order.
pub open spec fn select(lines: Seq<Line>, keep: spec_fn(int) -> bool, n: int) -> Seq<Line>
    decreases n,
{
    if n <= 0 {
        Seq::empty()
    } else if keep(n - 1) {
        select(lines, keep, n - 1).push(lines[n - 1])
    } else {
        select(lines, keep, n - 1)
    }
}

/// The lines that are not comments.
pub open spec fn not_comment() -> spec_fn(Line) -> bool {
    |line: Line| !(line.content is Comment)
}

/// The document without its comments. Every other line stays, blank lines
/// too.
pub open spec fn without_comments(lines: Seq<Line>) -> Seq<Line> {
    lines.filter(not_comment())
}

/// Whether `filter` keeps the line at index `i`.
///
/// A header is kept if it has the name asked for and no key is asked for. An
/// entry is kept if it stands under a header that has the name asked for
/// (under any header, if no name is asked for) and has the key asked for (any
/// key, if none is asked for). Nothing else is kept.
pub open spec fn filter_keeps(
    lines: Seq<Line>,
    section: Option<Seq<char>>,
    key: Option<Seq<char>>,
) -> spec_fn(int) -> bool {
    |i: int|
        match lines[i].content {
            Content::Section(header) => section == Some(header.name) && key is None,
            Content::Entry(entry) => {
                &&& section_at(lines, i) is Some
                &&& section is None || section == section_at(lines, i)
                &&& key is None || key == Some(entry.key)
            },
            _ => false,
        }
}

/// What `filter` leaves of the document.
pub open spec fn filtered(
    lines: Seq<Line>,
    section: Option<Seq<char>>,
    key: Option<Seq<char>>,
) -> Seq<Line> {
    select(lines, filter_keeps(lines, section, key), lines.len() as int)
}

/// Whether `delete` keeps the line at index `i`.
///
/// Only lines under a header with the name asked for are deleted, so without
/// a name nothing is. With a name and no key, the header goes and all that
/// stands under it. With a name and a key, the entries with that key go, and
/// the header, the comments and the other lines stay.
pub open spec fn delete_keeps(
    lines: Seq<Line>,
    section: Option<Seq<char>>,
    key: Option<Seq<char>>,
) -> spec_fn(int) -> bool {
    |i: int|
        match lines[i].content {
            Content::Section(header) => !(section == Some(header.name) && key is None),
            Content::Entry(entry) => {
                ||| section is None
                ||| section != section_at(lines, i)
                ||| key is Some && key != Some(entry.key)
            },
            _ => section is None || section != section_at(lines, i) || key is Some,
        }
}

/// What `delete` leaves of the document.
pub open spec fn deleted(
    lines: Seq<Line>,
    section: Option<Seq<char>>,
    key: Option<Seq<char>>,
) -> Seq<Line> {
    select(lines, delete_keeps(lines, section, key), lines.len() as int)
}

/// The document with each line trimmed.
pub open spec fn trimmed(lines: Seq<Line>) -> Seq<Line> {
    lines.map_values(|line: Line| line.trimmed())
}

/// The line ending of the first line; a line feed if there is no line.
pub open spec fn first_ending(lines: Seq<Line>) -> Seq<char> {
    if lines.len() > 0 {
        lines[0].ending
    } else {
        seq!['\n']
    }
}

/// Whether an entry stands between the line at index `i` and the nearest
/// header before it, or the beginning of the document.
pub open spec fn follows_entry(lines: Seq<Line>, i: int) -> bool
    decreases i,
{
    if i <= 0 {
        false
    } else {
        match lines[i - 1].content {
            Content::Section(_) => false,
            Content::Entry(_) => true,
            _ => follows_entry(lines, i - 1),
        }
    }
}

/// What becomes of the line at index `i` in the canonical form of the
/// document: a header, an entry and a comment become their canonical form, a
/// header that follows an entry gets one blank line before it, and any other
/// line goes.
pub open spec fn reformatted_line(lines: Seq<Line>, i: int, ending: Seq<char>) -> Seq<Line> {
    match lines[i].content {
        Content::Section(_) => if follows_entry(lines, i) {
            seq![Line::blank(ending), lines[i].reformatted(ending)]
        } else {
            seq![lines[i].reformatted(ending)]
        },
        Content::Other(_) => Seq::empty(),
        _ => seq![lines[i].reformatted(ending)],
    }
}

/// The canonical form of the first `n` lines, with the line ending `ending`.
pub open spec fn reformatted_to(lines: Seq<Line>, n: int, ending: Seq<char>) -> Seq<Line>
    decreases n,
{
    if n <= 0 {
        Seq::empty()
    } else {
        reformatted_to(lines, n - 1, ending) + reformatted_line(lines, n - 1, ending)
    }
}

/// The canonical form of the document. All its lines end as the first line
/// of the document did.
pub open spec fn reformatted(lines: Seq<Line>) -> Seq<Line> {
    reformatted_to(lines, lines.len() as int, first_ending(lines))
}

/// Whether `line` is a header with the name `section`.
pub open spec fn is_header(section: Seq<char>) -> spec_fn(Line) -> bool {
    |line: Line|
        match line.content {
            Content::Section(header) => header.name == section,
            _ => false,
        }
}

/// Whether `line` is a header with another name than `section`.
pub open spec fn is_other_header(section: Seq<char>) -> spec_fn(Line) -> bool {
    |line: Line|
        match line.content {
            Content::Section(header) => header.name != section,
            _ => false,
        }
}

/// Whether the line at index `i` is an entry with the key `key` under a
/// header with the name `section`.
pub open spec fn is_entry_of(lines: Seq<Line>, i: int, section: Seq<char>, key: Seq<char>) -> bool {
    match lines[i].content {
        Content::Entry(entry) => entry.key == key && section_at(lines, i) == Some(section),
        _ => false,
    }
}

/// Whether the document has a header with the name `section`.
pub open spec fn has_section(lines: Seq<Line>, section: Seq<char>) -> bool {
    exists|i: int| 0 <= i < lines.len() && is_header(section)(#[trigger] lines[i])
}

/// Whether the document has an entry with the key `key` under a header with
/// the name `section`.
pub open spec fn has_entry(lines: Seq<Line>, section: Seq<char>, key: Seq<char>) -> bool {
    exists|i: int| 0 <= i < lines.len() && #[trigger] is_entry_of(lines, i, section, key)
}

/// The line at index `i` after a change of value: an entry with the key
/// `key` under a header with the name `section` gets the value `value` and
/// loses what stood before its key and after its value; any other line stays
/// as it is.
pub open spec fn modified_line(
    lines: Seq<Line>,
    i: int,
    section: Seq<char>,
    key: Seq<char>,
    value: Seq<char>,
) -> Line {
    match lines[i].content {
        Content::Entry(entry) if is_entry_of(lines, i, section, key) => Line {
            content: Content::Entry(entry.with_value(value)),
            ending: lines[i].ending,
        },
        _ => lines[i],
    }
}

/// The document with the value of every entry `key` under a header `section`
/// changed to `value`.
pub open spec fn modified(
    lines: Seq<Line>,
    section: Seq<char>,
    key: Seq<char>,
    value: Seq<char>,
) -> Seq<Line> {
    Seq::new(lines.len(), |i: int| modified_line(lines, i, section, key, value))
}

/// A new header line.
pub open spec fn new_header(section: Seq<char>, ending: Seq<char>) -> Line {
    Line { content: Content::Section(Section::bare(section)), ending }
}

/// A new entry line.
pub open spec fn new_entry(key: Seq<char>, value: Seq<char>, ending: Seq<char>) -> Line {
    Line { content: Content::Entry(Entry::bare(key, value)), ending }
}

/// The document with a new header `section` and a new entry under it at its
/// end.
pub open spec fn appended(
    lines: Seq<Line>,
    section: Seq<char>,
    key: Seq<char>,
    value: Seq<char>,
) -> Seq<Line> {
    lines.push(new_header(section, first_ending(lines))).push(
        new_entry(key, value, first_ending(lines)),
    )
}

/// Number of lines directly before index `at` that are neither header nor
/// entry nor comment: the blank lines that trail what stands before `at`.
pub open spec fn blank_run(lines: Seq<Line>, at: int) -> int
    decreases at,
{
    if at <= 0 {
        0
    } else if lines[at - 1].content is Other {
        1 + blank_run(lines, at - 1)
    } else {
        0
    }
}

/// Index behind the first block of the section `section`: the block begins
/// with the first header of that name and goes on to the next header of
/// another name, or to the end of the document.
pub open spec fn block_end(lines: Seq<Line>, section: Seq<char>) -> int {
    first_from(lines, first_from(lines, 0, is_header(section)) + 1, is_other_header(section))
}

/// Index at which a new entry of the section `section` goes: at the end of
/// the first block of that section, before the blank lines that trail it.
pub open spec fn insertion_point(lines: Seq<Line>, section: Seq<char>) -> int {
    block_end(lines, section) - blank_run(lines, block_end(lines, section))
}

/// The document with a new entry in the first block of the section
/// `section`.
pub open spec fn inserted(
    lines: Seq<Line>,
    section: Seq<char>,
    key: Seq<char>,
    value: Seq<char>,
) -> Seq<Line> {
    lines.insert(insertion_point(lines, section), new_entry(key, value, first_ending(lines)))
}

/// What `edit` makes of the document.
///
/// If existing entries may be modified and there is one, every such entry
/// gets the new value and nothing is added. Else, if a new entry may be
/// created, it goes into the first block of its section, or, where the
/// document has no such section, behind a new header at its end. Else the
/// document stays as it is.
pub open spec fn edited(
    lines: Seq<Line>,
    section: Seq<char>,
    key: Seq<char>,
    value: Seq<char>,
    modify_existing: bool,
    create_new: bool,
) -> Seq<Line> {
    if modify_existing && has_entry(lines, section, key) {
        modified(lines, section, key, value)
    } else if create_new {
        if has_section(lines, section) {
            inserted(lines, section, key, value)
        } else {
            appended(lines, section, key, value)
        }
    } else {
        lines
    }
}

/// The line ending that a raw line ends with: carriage return and line feed,
/// one of the two alone, or none.
pub open spec fn ending_of(raw: Seq<char>) -> Seq<char> {
    let n = raw.len() as int;
    if n >= 2 && raw[n - 2] == '\r' && raw[n - 1] == '\n' {
        seq!['\r', '\n']
    } else if n >= 1 && raw[n - 1] == '\n' {
        seq!['\n']
    } else if n >= 1 && raw[n - 1] == '\r' {
        seq!['\r']
    } else {
        Seq::empty()
    }
}

/// The line that a raw line holds: its text up to the line ending,
/// classified, and the line ending.
pub open spec fn parsed_line(raw: Seq<char>) -> Line {
    let ending = ending_of(raw);
    Line { content: classify(raw.take(raw.len() - ending.len())), ending }
}

/// The texts that a vector of strings holds.
pub open spec fn texts_of(strings: Seq<String>) -> Seq<Seq<char>> {
    strings.map_values(|string: String| string@)
}

/// The document that the raw lines `raw_lines` hold.
pub open spec fn parsed(raw_lines: Seq<Seq<char>>) -> Seq<Line> {
    raw_lines.map_values(|raw: Seq<char>| parsed_line(raw))
}

/// The text of the document: the text of each line with its line ending,
/// one after the other.
pub open spec fn rendered(lines: Seq<Line>) -> Seq<char> {
    lines.map_values(|line: Line| line.render()).flatten()
}

} // verus!
