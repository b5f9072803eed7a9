//! Characters and strings: white space, scanning, trimming, and the
//! conversions between `str`, `String` and `Vec<char>` that the rest of the
//! crate is built on.

use vstd::prelude::*;
use vstd::std_specs::iter::IteratorSpec;

verus! {

/// Whether `c` carries the Unicode property `White_Space`.
///
/// The set is fixed by the Unicode Character Database, not by this crate, so
/// it is left without a definition: everything proved here holds whichever
/// characters it contains.
pub uninterp spec fn white_space(c: char) -> bool;

/// `char::is_whitespace` of the standard library. Its documentation says that
/// it returns true exactly for the characters with the property `White_Space`;
/// the contract gives that answer the name `white_space`.
pub assume_specification[ char::is_whitespace ](c: char) -> (r: bool)
    ensures
        r == white_space(c),
;

/// `String::push` of the standard library, which appends one character to the
/// end of the string and leaves the rest as it was.
pub assume_specification[ String::push ](s: &mut String, c: char)
    ensures
        final(s)@ == old(s)@.push(c),
;

/// `str::trim` of the standard library. Its documentation says that it returns
/// the slice with leading and trailing white space removed, white space being
/// the property `White_Space` again: the part from the first character that is
/// not white space to the last one, or nothing if there is no such character.
pub assume_specification<'a>[ str::trim ](s: &'a str) -> (r: &'a str)
    ensures
        r@ == trimmed(s@),
;

/// The characters that are not white space.
pub open spec fn not_space() -> spec_fn(char) -> bool {
    |c: char| !white_space(c)
}

/// The one character `x`.
pub open spec fn is_char(x: char) -> spec_fn(char) -> bool {
    |c: char| c == x
}

/// Index of the first item of `s` at or after `from` that `stop` holds of;
/// `s.len()` if there is none.
pub open spec fn first_from<A>(s: Seq<A>, from: int, stop: spec_fn(A) -> bool) -> int
    recommends
        0 <= from,
    decreases s.len() - from,
{
    if from >= s.len() {
        s.len() as int
    } else if stop(s[from]) {
        from
    } else {
        first_from(s, from + 1, stop)
    }
}

/// Index just behind the last character of `s` that is not white space; 0 if
/// there is none.
pub open spec fn content_end(s: Seq<char>) -> int
    decreases s.len(),
{
    if s.len() == 0 {
        0
    } else if white_space(s.last()) {
        content_end(s.drop_last())
    } else {
        s.len() as int
    }
}

/// `s` without its leading and trailing white space.
pub open spec fn trimmed(s: Seq<char>) -> Seq<char> {
    let from = first_from(s, 0, not_space());
    let to = content_end(s);
    if from < to {
        s.subrange(from, to)
    } else {
        Seq::empty()
    }
}

/// What `first_from` finds: nothing before it stops the scan, and the item
/// there, if there is one, does.
pub proof fn lemma_first_from<A>(s: Seq<A>, from: int, stop: spec_fn(A) -> bool)
    requires
        0 <= from <= s.len(),
    ensures
        from <= first_from(s, from, stop) <= s.len(),
        forall|j: int| from <= j < first_from(s, from, stop) ==> !stop(#[trigger] s[j]),
        first_from(s, from, stop) < s.len() ==> stop(s[first_from(s, from, stop)]),
    decreases s.len() - from,
{
    if from < s.len() && !stop(s[from]) {
        lemma_first_from(s, from + 1, stop);
    }
}

/// `first_from` is the only index of which `lemma_first_from` holds.
pub proof fn lemma_first_from_is<A>(s: Seq<A>, from: int, stop: spec_fn(A) -> bool, at: int)
    requires
        0 <= from <= at <= s.len(),
        forall|j: int| from <= j < at ==> !stop(#[trigger] s[j]),
        at < s.len() ==> stop(s[at]),
    ensures
        first_from(s, from, stop) == at,
    decreases at - from,
{
    if from < at {
        lemma_first_from_is(s, from + 1, stop, at);
    }
}

/// What `content_end` finds: only white space follows it, and the character
/// before it, if there is one, is not white space.
pub proof fn lemma_content_end(s: Seq<char>)
    ensures
        0 <= content_end(s) <= s.len(),
        forall|j: int| content_end(s) <= j < s.len() ==> white_space(#[trigger] s[j]),
        content_end(s) > 0 ==> !white_space(s[content_end(s) - 1]),
    decreases s.len(),
{
    if s.len() > 0 && white_space(s.last()) {
        let t = s.drop_last();
        lemma_content_end(t);
        assert forall|j: int| content_end(s) <= j < s.len() implies white_space(
            #[trigger] s[j],
        ) by {
            if j < t.len() {
                assert(t[j] == s[j]);
            }
        }
    }
}

/// `content_end` is the only index of which `lemma_content_end` holds.
pub proof fn lemma_content_end_is(s: Seq<char>, at: int)
    requires
        0 <= at <= s.len(),
        forall|j: int| at <= j < s.len() ==> white_space(#[trigger] s[j]),
        at > 0 ==> !white_space(s[at - 1]),
    ensures
        content_end(s) == at,
    decreases s.len(),
{
    if at < s.len() {
        let t = s.drop_last();
        assert(forall|j: int| at <= j < t.len() ==> white_space(#[trigger] t[j]));
        lemma_content_end_is(t, at);
    }
}

/// A trimmed text is empty, or begins and ends with a character that is not
/// white space.
pub proof fn lemma_trimmed_ends(s: Seq<char>)
    ensures
        trimmed(s).len() > 0 ==> !white_space(trimmed(s).first()) && !white_space(
            trimmed(s).last(),
        ),
{
    lemma_first_from(s, 0, not_space());
    lemma_content_end(s);
}

/// Trimming a second time changes nothing.
pub proof fn lemma_trimmed_twice(s: Seq<char>)
    ensures
        trimmed(trimmed(s)) == trimmed(s),
{
    let t = trimmed(s);
    lemma_trimmed_ends(s);
    if t.len() > 0 {
        lemma_first_from_is(t, 0, not_space(), 0);
        lemma_content_end_is(t, t.len() as int);
    }
}

/// The characters of `s`, in order.
pub fn to_chars(s: &str) -> (v: Vec<char>)
    ensures
        v@ == s@,
{
    broadcast use vstd::string::group_string_axioms;

    let mut v: Vec<char> = Vec::new();
    for c in it: s.chars()
        invariant
            it.seq() == s@,
            v@ == s@.take(it.index() as int),
    {
        v.push(c);
    }
    v
}

/// The string made of the characters of `v`, in order.
pub fn from_chars(v: &Vec<char>) -> (s: String)
    ensures
        s@ == v@,
{
    let mut s = String::new();
    let mut i: usize = 0;
    while i < v.len()
        invariant
            i <= v.len(),
            s@ == v@.take(i as int),
        decreases v.len() - i,
    {
        s.push(v[i]);
        i += 1;
    }
    s
}

/// Whether `a` and `b` hold the same characters.
pub fn same_text(a: &str, b: &str) -> (r: bool)
    ensures
        r == (a@ == b@),
{
    broadcast use vstd::string::group_string_axioms;

    let mut x = a.chars();
    let mut y = b.chars();
    let ghost mut n: int = 0;
    loop
        invariant
            x.obeys_prophetic_iter_laws(),
            y.obeys_prophetic_iter_laws(),
            x.decrease() is Some,
            0 <= n <= a@.len(),
            n <= b@.len(),
            a@.take(n) == b@.take(n),
            x.remaining() == a@.skip(n),
            y.remaining() == b@.skip(n),
        decreases x.decrease()->0,
    {
        let p = x.next();
        let q = y.next();
        match (p, q) {
            (Some(c), Some(d)) => {
                if c != d {
                    return false;
                }
                proof {
                    n = n + 1;
                }
            },
            (None, None) => {
                assert(a@.take(n) == a@);
                assert(b@.take(n) == b@);
                return true;
            },
            _ => {
                return false;
            },
        }
    }
}

} // verus!
