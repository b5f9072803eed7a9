//! Quoted values: when the raw value of an entry counts as quoted, and what
//! it stands for.
//!
//! A raw value is quoted when it has at least two characters, begins and ends
//! with the same quote character, and what lies between decodes. Between the
//! quotes a backslash joins with the character after it: `\t`, `\n` and `\r`
//! stand for tab, line feed and carriage return, `\"` and `\'` for the quote
//! character, and any other pair for itself. The enclosing quote character
//! must come doubled and then stands for one; alone it makes the value
//! unquoted, and such a value stands for itself.

use crate::text::{from_chars, to_chars};
use vstd::prelude::*;

verus! {

/// The two quote characters.
pub open spec fn is_quote(c: char) -> bool {
    c == '\'' || c == '"'
}

/// What a backslash followed by `c` stands for.
pub open spec fn escaped(c: char) -> Seq<char> {
    if c == 't' {
        seq!['\t']
    } else if c == 'n' {
        seq!['\n']
    } else if c == 'r' {
        seq!['\r']
    } else if is_quote(c) {
        seq![c]
    } else {
        seq!['\\', c]
    }
}

/// What the text `s` between two quote characters `q` stands for; `None` if
/// `q` occurs in it alone.
pub open spec fn decoded(s: Seq<char>, q: char) -> Option<Seq<char>>
    decreases s.len(),
{
    if s.len() == 0 {
        Some(Seq::empty())
    } else if s[0] == '\\' && s.len() >= 2 {
        match decoded(s.skip(2), q) {
            Some(rest) => Some(escaped(s[1]) + rest),
            None => None,
        }
    } else if s[0] == q {
        if s.len() >= 2 && s[1] == q {
            match decoded(s.skip(2), q) {
                Some(rest) => Some(seq![q] + rest),
                None => None,
            }
        } else {
            None
        }
    } else {
        match decoded(s.skip(1), q) {
            Some(rest) => Some(seq![s[0]] + rest),
            None => None,
        }
    }
}

/// Whether `raw` begins and ends with the same quote character.
pub open spec fn enclosed(raw: Seq<char>) -> bool {
    raw.len() >= 2 && is_quote(raw[0]) && raw.last() == raw[0]
}

/// The text between the first and the last character of `raw`.
pub open spec fn interior(raw: Seq<char>) -> Seq<char> {
    raw.subrange(1, raw.len() - 1)
}

/// Whether `raw` is a quoted value.
pub open spec fn is_quoted(raw: Seq<char>) -> bool {
    enclosed(raw) && decoded(interior(raw), raw[0]) is Some
}

/// What the raw value `raw` stands for: the decoded interior if it is quoted,
/// and `raw` itself if it is not.
pub open spec fn unquoted(raw: Seq<char>) -> Seq<char> {
    if is_quoted(raw) {
        decoded(interior(raw), raw[0])->0
    } else {
        raw
    }
}

/// How one character is written between two quote characters `q`.
pub open spec fn encoded_char(c: char, q: char) -> Seq<char> {
    if c == '\t' {
        seq!['\\', 't']
    } else if c == '\n' {
        seq!['\\', 'n']
    } else if c == '\r' {
        seq!['\\', 'r']
    } else if c == q {
        seq![q, q]
    } else {
        seq![c]
    }
}

/// How the text `t` is written between two quote characters `q`: tab, line
/// feed and carriage return escaped, `q` doubled.
pub open spec fn encoded(t: Seq<char>, q: char) -> Seq<char>
    decreases t.len(),
{
    if t.len() == 0 {
        Seq::empty()
    } else {
        encoded_char(t[0], q) + encoded(t.skip(1), q)
    }
}

/// The text `t` as a value quoted with `q`.
pub open spec fn quoted(t: Seq<char>, q: char) -> Seq<char> {
    seq![q] + encoded(t, q) + seq![q]
}

/// Tab, line feed and carriage return: the characters that `encoded` escapes.
pub open spec fn is_control(c: char) -> bool {
    c == '\t' || c == '\n' || c == '\r'
}

/// Whether the text `s` between two quote characters `q` is written the way
/// `encoded` writes: no control character stands for itself, `q` comes
/// doubled, and no quote character is escaped with a backslash.
pub open spec fn plainly_written(s: Seq<char>, q: char) -> bool
    decreases s.len(),
{
    if s.len() == 0 {
        true
    } else if s[0] == '\\' && s.len() >= 2 {
        !is_quote(s[1]) && !is_control(s[1]) && plainly_written(s.skip(2), q)
    } else if s[0] == q {
        s.len() >= 2 && s[1] == q && plainly_written(s.skip(2), q)
    } else {
        !is_control(s[0]) && plainly_written(s.skip(1), q)
    }
}

/// Writing two texts one after the other is writing their concatenation.
pub proof fn lemma_encoded_concat(a: Seq<char>, b: Seq<char>, q: char)
    ensures
        encoded(a + b, q) == encoded(a, q) + encoded(b, q),
    decreases a.len(),
{
    if a.len() > 0 {
        assert((a + b).skip(1) =~= a.skip(1) + b);
        lemma_encoded_concat(a.skip(1), b, q);
    }
}

/// A plainly written text decodes, and writing what it stands for gives the
/// text back.
pub proof fn lemma_decoded_encoded(s: Seq<char>, q: char)
    requires
        is_quote(q),
        plainly_written(s, q),
    ensures
        decoded(s, q) is Some,
        encoded(decoded(s, q)->0, q) == s,
    decreases s.len(),
{
    if s.len() == 0 {
    } else if s[0] == '\\' && s.len() >= 2 {
        let rest = s.skip(2);
        lemma_decoded_encoded(rest, q);
        let head = escaped(s[1]);
        lemma_encoded_concat(head, decoded(rest, q)->0, q);
        assert(encoded(head, q) =~= seq![s[0], s[1]]) by {
            reveal_with_fuel(encoded, 3);
        }
    } else if s[0] == q {
        let rest = s.skip(2);
        lemma_decoded_encoded(rest, q);
        lemma_encoded_concat(seq![q], decoded(rest, q)->0, q);
        assert(encoded(seq![q], q) =~= seq![q, q]) by {
            reveal_with_fuel(encoded, 2);
        }
    } else {
        let rest = s.skip(1);
        lemma_decoded_encoded(rest, q);
        lemma_encoded_concat(seq![s[0]], decoded(rest, q)->0, q);
        assert(encoded(seq![s[0]], q) =~= seq![s[0]]) by {
            reveal_with_fuel(encoded, 2);
        }
    }
}

/// Decoding a quoted value and writing the result between the same quotes,
/// with the control characters escaped and the quote character doubled, gives
/// the value back, provided that it was written that way.
pub proof fn lemma_unquoted_quoted(raw: Seq<char>)
    requires
        enclosed(raw),
        plainly_written(interior(raw), raw[0]),
    ensures
        is_quoted(raw),
        quoted(unquoted(raw), raw[0]) == raw,
{
    lemma_decoded_encoded(interior(raw), raw[0]);
}

/// What the raw value `raw` stands for. Every raw value stands for something:
/// one that is not quoted stands for itself.
pub fn unquote(raw: &str) -> (text: String)
    ensures
        text@ == unquoted(raw@),
{
    let chars = to_chars(raw);
    let n = chars.len();
    if n < 2 {
        return from_chars(&chars);
    }
    let q = chars[0];
    if !(q == '\'' || q == '"') || chars[n - 1] != q {
        return from_chars(&chars);
    }
    let ghost inner = interior(raw@);
    let mut out: Vec<char> = Vec::new();
    let mut i: usize = 1;
    assert(inner.skip(0) =~= inner);
    while i < n - 1
        invariant
            chars@ == raw@,
            n == chars.len(),
            n >= 2,
            q == chars[0],
            inner == interior(raw@),
            1 <= i <= n - 1,
            decoded(inner, q) == match decoded(inner.skip(i - 1), q) {
                Some(rest) => Some(out@ + rest),
                None => None,
            },
        decreases n - i,
    {
        let ghost tail = inner.skip(i - 1);
        let c = chars[i];
        if c == '\\' && i + 1 < n - 1 {
            let d = chars[i + 1];
            assert(tail.skip(2) =~= inner.skip(i + 1));
            if d == 't' {
                out.push('\t');
            } else if d == 'n' {
                out.push('\n');
            } else if d == 'r' {
                out.push('\r');
            } else if d == '"' || d == '\'' {
                out.push(d);
            } else {
                out.push('\\');
                out.push(d);
            }
            i += 2;
        } else if c == q {
            if i + 1 < n - 1 && chars[i + 1] == q {
                assert(tail.skip(2) =~= inner.skip(i + 1));
                out.push(q);
                i += 2;
            } else {
                return from_chars(&chars);
            }
        } else {
            assert(tail.skip(1) =~= inner.skip(i as int));
            out.push(c);
            i += 1;
        }
    }
    from_chars(&out)
}

} // verus!
