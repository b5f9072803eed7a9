//! What holds of the operations on every document: reading loses nothing,
//! the canonical and the trimmed form are fixed points, and a deletion
//! without a section name deletes nothing.

use crate::document::{
    delete_keeps, deleted, ending_of, first_ending, follows_entry, parsed, parsed_line,
    reformatted, reformatted_line, reformatted_to, rendered, select, trimmed,
};
use crate::grammar::lemma_classify_render;
use crate::model::{Comment, Content, Line};
use crate::text::lemma_trimmed_twice;
use vstd::prelude::*;

verus! {

/// A raw line and the line read from it have the same text: the content,
/// written out, followed by the line ending, is the raw line.
pub proof fn lemma_parsed_line_render(raw: Seq<char>)
    ensures
        parsed_line(raw).render() == raw,
{
    lemma_classify_render(raw.take(raw.len() - ending_of(raw).len()));
}

/// Reading loses nothing: the text of the document that raw lines hold is
/// the raw lines, one after the other.
pub proof fn lemma_parsed_rendered(raw_lines: Seq<Seq<char>>)
    ensures
        rendered(parsed(raw_lines)) == raw_lines.flatten(),
{
    assert forall|i: int| 0 <= i < raw_lines.len() implies #[trigger] parsed(
        raw_lines,
    )[i].render() == raw_lines[i] by {
        lemma_parsed_line_render(raw_lines[i]);
    }
    assert(parsed(raw_lines).map_values(|line: Line| line.render()) =~= raw_lines);
}

/// The canonical form of a line is its own canonical form.
pub proof fn lemma_line_reformatted_twice(line: Line, ending: Seq<char>)
    ensures
        line.reformatted(ending).reformatted(ending) == line.reformatted(ending),
{
    match line.content {
        Content::Comment(comment) => {
            lemma_trimmed_twice(comment.text);
        },
        _ => {},
    }
}

/// The trimmed form of a line is its own trimmed form.
pub proof fn lemma_line_trimmed_twice(line: Line)
    ensures
        line.trimmed().trimmed() == line.trimmed(),
{
    match line.content {
        Content::Comment(comment) => {
            lemma_trimmed_twice(comment.text);
        },
        Content::Other(other) => {
            lemma_trimmed_twice(other.text);
        },
        _ => {},
    }
}

/// The canonical form of the first `n` lines depends on those lines alone.
proof fn lemma_reformatted_local(a: Seq<Line>, b: Seq<Line>, n: int, ending: Seq<char>)
    requires
        0 <= n <= a.len(),
        n <= b.len(),
        forall|j: int| 0 <= j < n ==> a[j] == b[j],
    ensures
        reformatted_to(a, n, ending) == reformatted_to(b, n, ending),
        follows_entry(a, n) == follows_entry(b, n),
    decreases n,
{
    if n > 0 {
        lemma_reformatted_local(a, b, n - 1, ending);
    }
}

/// The canonical form of the first `n` lines is its own canonical form; an
/// entry precedes its end where one preceded the end of the `n` lines; and
/// all its lines end with `ending`.
proof fn lemma_reformatted_to_twice(lines: Seq<Line>, n: int, ending: Seq<char>)
    requires
        0 <= n <= lines.len(),
    ensures
        ({
            let made = reformatted_to(lines, n, ending);
            &&& reformatted_to(made, made.len() as int, ending) == made
            &&& follows_entry(made, made.len() as int) == follows_entry(lines, n)
            &&& forall|k: int| 0 <= k < made.len() ==> (#[trigger] made[k]).ending == ending
        }),
    decreases n,
{
    if n > 0 {
        lemma_reformatted_to_twice(lines, n - 1, ending);
        lemma_line_reformatted_twice(lines[n - 1], ending);
        let head = reformatted_to(lines, n - 1, ending);
        let size = head.len() as int;
        let made = reformatted_to(lines, n, ending);
        let line = lines[n - 1].reformatted(ending);
        lemma_reformatted_local(made, head, size, ending);
        if lines[n - 1].content is Section && follows_entry(lines, n - 1) {
            assert(reformatted_to(made, size + 1, ending) =~= head);
            assert(reformatted_line(made, size + 1, ending) =~= seq![
                Line::blank(ending),
                line,
            ]);
        }
    }
}

/// Bringing a document into its canonical form a second time changes
/// nothing.
pub proof fn lemma_reformat_twice(lines: Seq<Line>)
    ensures
        reformatted(reformatted(lines)) == reformatted(lines),
{
    lemma_reformatted_to_twice(lines, lines.len() as int, first_ending(lines));
}

/// Trimming a document a second time changes nothing.
pub proof fn lemma_trim_twice(lines: Seq<Line>)
    ensures
        trimmed(trimmed(lines)) == trimmed(lines),
{
    assert forall|i: int| 0 <= i < lines.len() implies #[trigger] trimmed(trimmed(lines))[i]
        == trimmed(lines)[i] by {
        lemma_line_trimmed_twice(lines[i]);
    }
}

/// Selecting with a test that holds of every index keeps every line.
proof fn lemma_select_all(lines: Seq<Line>, keep: spec_fn(int) -> bool, n: int)
    requires
        0 <= n <= lines.len(),
        forall|i: int| 0 <= i < n ==> #[trigger] keep(i),
    ensures
        select(lines, keep, n) == lines.take(n),
    decreases n,
{
    if n > 0 {
        lemma_select_all(lines, keep, n - 1);
        assert(lines.take(n) =~= lines.take(n - 1).push(lines[n - 1]));
    }
}

/// A deletion without a section name removes no line, whatever the key: no
/// header matches, so no line stands under a header that does.
pub proof fn lemma_delete_without_section(lines: Seq<Line>, key: Option<Seq<char>>)
    ensures
        deleted(lines, None, key) == lines,
{
    lemma_select_all(lines, delete_keeps(lines, None, key), lines.len() as int);
}

} // verus!
