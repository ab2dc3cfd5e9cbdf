//! Text handling shared by the parser: comparing string slices, cutting a
//! slice at a character, and splitting text into lines.
//!
//! Everything is specified over `Seq<char>`, the view of `str`.

use vstd::prelude::*;
use vstd::std_specs::iter::IteratorSpec;
use vstd::string::StrSliceExecFns;

verus! {

/// Number of characters of `s` that stand before the first `c`; the whole
/// length when `c` does not occur.
pub open spec fn prefix_len(s: Seq<char>, c: char) -> nat
    decreases s.len(),
{
    if s.len() == 0 || s[0] == c {
        0
    } else {
        1 + prefix_len(s.drop_first(), c)
    }
}

/// `s` cut at its first `c`: what stands before it and what stands after it.
/// `None` when `c` does not occur.
pub open spec fn cut(s: Seq<char>, c: char) -> Option<(Seq<char>, Seq<char>)> {
    let at = prefix_len(s, c) as int;
    if at < s.len() {
        Some((s.take(at), s.skip(at + 1)))
    } else {
        None
    }
}

/// `line` without its last character, if that is a carriage return.
pub open spec fn without_carriage_return(line: Seq<char>) -> Seq<char> {
    if line.len() > 0 && line.last() == '\r' {
        line.drop_last()
    } else {
        line
    }
}

/// The lines of `text`. A line ends at a line feed or at the end of the
/// text; the line feed, and a carriage return directly before it, belong to
/// no line. A line feed at the very end of the text starts no further line,
/// so the empty text has no lines.
pub open spec fn lines(text: Seq<char>) -> Seq<Seq<char>>
    decreases text.len(),
{
    if text.len() == 0 {
        Seq::empty()
    } else {
        let at = prefix_len(text, '\n') as int;
        if at < text.len() {
            seq![without_carriage_return(text.take(at))] + lines(text.skip(at + 1))
        } else {
            seq![text]
        }
    }
}

/// The views of a vector of string slices.
pub open spec fn views(v: Seq<&str>) -> Seq<Seq<char>> {
    Seq::new(v.len(), |i: int| v[i]@)
}

/// `prefix_len` is the one index that has no `c` before it and either holds
/// `c` or is the length of `s`.
pub proof fn lemma_prefix_len(s: Seq<char>, c: char)
    ensures
        prefix_len(s, c) <= s.len(),
        forall|j: int| 0 <= j < prefix_len(s, c) ==> s[j] != c,
        prefix_len(s, c) < s.len() ==> s[prefix_len(s, c) as int] == c,
    decreases s.len(),
{
    if s.len() == 0 || s[0] == c {
    } else {
        let rest = s.drop_first();
        lemma_prefix_len(rest, c);
        assert forall|j: int| 0 <= j < prefix_len(s, c) implies s[j] != c by {
            if j > 0 {
                assert(s[j] == rest[j - 1]);
            }
        }
    }
}

/// An index with no `c` before it that holds `c`, or is the length of `s`, is
/// `prefix_len`.
pub proof fn lemma_prefix_len_is(s: Seq<char>, c: char, at: int)
    requires
        0 <= at <= s.len(),
        forall|j: int| 0 <= j < at ==> s[j] != c,
        at < s.len() ==> s[at] == c,
    ensures
        prefix_len(s, c) == at,
{
    lemma_prefix_len(s, c);
    let found = prefix_len(s, c) as int;
    if found < at {
        assert(s[found] != c);
    } else if at < found {
        assert(s[at] != c);
    }
}

/// Whether two string slices hold the same text.
pub fn same_text(a: &str, b: &str) -> (same: bool)
    ensures
        same == (a@ == b@),
{
    let mut left = a.chars();
    let mut right = b.chars();
    let ghost mut seen: int = 0;
    loop
        invariant
            0 <= seen <= a@.len(),
            seen <= b@.len(),
            left.remaining() == a@.skip(seen),
            right.remaining() == b@.skip(seen),
            a@.take(seen) == b@.take(seen),
        decreases a@.len() - seen,
    {
        let x = left.next();
        let y = right.next();
        match (x, y) {
            (Some(c), Some(d)) => {
                if c != d {
                    return false;
                }
                proof {
                    seen = seen + 1;
                }
            },
            (None, None) => {
                proof {
                    assert(a@.take(seen) =~= a@);
                    assert(b@.take(seen) =~= b@);
                }
                return true;
            },
            _ => {
                return false;
            },
        }
    }
}

/// Cuts `s` at its first `c`. The two parts leave `c` itself out.
pub fn split_once<'a>(s: &'a str, c: char) -> (parts: Option<(&'a str, &'a str)>)
    ensures
        match parts {
            Some((head, tail)) => cut(s@, c) == Some((head@, tail@)),
            None => cut(s@, c) is None,
        },
{
    let n: usize = s.unicode_len();
    let mut rest = s.chars();
    let mut at: usize = 0;
    while at < n
        invariant
            n == s@.len(),
            at <= n,
            rest.remaining() == s@.skip(at as int),
            forall|j: int| 0 <= j < at ==> s@[j] != c,
        decreases n - at,
    {
        let next = rest.next();
        if next == Some(c) {
            proof {
                lemma_prefix_len_is(s@, c, at as int);
            }
            let head = s.substring_char(0, at);
            let tail = s.substring_char(at + 1, n);
            return Some((head, tail));
        }
        at += 1;
    }
    proof {
        lemma_prefix_len_is(s@, c, n as int);
    }
    None
}

/// Drops one carriage return from the end of `line`, if there is one.
pub fn strip_carriage_return<'a>(line: &'a str) -> (stripped: &'a str)
    ensures
        stripped@ == without_carriage_return(line@),
{
    let n: usize = line.unicode_len();
    if n > 0 && line.get_char(n - 1) == '\r' {
        line.substring_char(0, n - 1)
    } else {
        line
    }
}

/// Splits `text` into its lines.
pub fn split_lines<'a>(text: &'a str) -> (found: Vec<&'a str>)
    ensures
        views(found@) == lines(text@),
{
    let mut found: Vec<&'a str> = Vec::new();
    let mut rest = text;
    while !rest.is_empty()
        invariant
            views(found@) + lines(rest@) == lines(text@),
        decreases rest@.len(),
    {
        proof {
            lemma_prefix_len(rest@, '\n');
        }
        match split_once(rest, '\n') {
            Some((head, tail)) => {
                let line = strip_carriage_return(head);
                found.push(line);
                rest = tail;
            },
            None => {
                found.push(rest);
                return found;
            },
        }
    }
    found
}

} // verus!
