//! Splitting text at the first occurrence of a character.

use vstd::prelude::*;
use vstd::string::*;

verus! {

/// `i` is the first position of `c` in `s`.
pub open spec fn first_at(s: Seq<char>, c: char, i: int) -> bool {
    &&& 0 <= i < s.len()
    &&& s[i] == c
    &&& forall|j: int| 0 <= j < i ==> s[j] != c
}

/// The first position of `c` in `s`, where `s` holds `c`.
pub open spec fn position(s: Seq<char>, c: char) -> int {
    choose|i: int| first_at(s, c, i)
}

/// The text of `s` in front of its first `c`.
pub open spec fn before(s: Seq<char>, c: char) -> Seq<char> {
    s.take(position(s, c))
}

/// `s` begins with `prefix`.
pub open spec fn begins_with(s: Seq<char>, prefix: Seq<char>) -> bool {
    s.len() >= prefix.len() && s.take(prefix.len() as int) == prefix
}

/// The text of `s` behind its first `c`.
pub open spec fn after(s: Seq<char>, c: char) -> Seq<char> {
    s.skip(position(s, c) + 1)
}

/// A first position is the only one: it is what `position` names.
pub proof fn lemma_first_at_is_position(s: Seq<char>, c: char, i: int)
    requires
        first_at(s, c, i),
    ensures
        s.contains(c),
        position(s, c) == i,
{
    let p = position(s, c);
    assert(first_at(s, c, p));
    if p < i {
        assert(s[p] == c);
    } else if i < p {
        assert(s[i] == c);
    }
}

/// The first position of `c` in `s` at or behind `start`, if there is one.
fn find_from(s: &str, len: usize, start: usize, c: char) -> (found: Option<usize>)
    requires
        len == s@.len(),
        start <= len,
    ensures
        match found {
            Some(i) => start <= i < len && s@[i as int] == c && forall|j: int|
                start <= j < i ==> s@[j] != c,
            None => forall|j: int| start <= j < len ==> s@[j] != c,
        },
{
    let mut i: usize = start;
    while i < len
        invariant
            len == s@.len(),
            start <= i <= len,
            forall|j: int| start <= j < i ==> s@[j] != c,
        decreases len - i,
    {
        if s.get_char(i) == c {
            return Some(i);
        }
        i += 1;
    }
    None
}

/// Splits `s` around its first `c`; `None` where `s` holds no `c`.
pub fn split_once<'a>(s: &'a str, c: char) -> (parts: Option<(&'a str, &'a str)>)
    ensures
        parts is Some <==> s@.contains(c),
        parts is Some ==> parts.unwrap().0@ == before(s@, c) && parts.unwrap().1@ == after(
            s@,
            c,
        ),
{
    let len = s.unicode_len();
    match find_from(s, len, 0, c) {
        Some(i) => {
            proof {
                lemma_first_at_is_position(s@, c, i as int);
            }
            let head = s.substring_char(0, i);
            let tail = s.substring_char(i + 1, len);
            Some((head, tail))
        },
        None => {
            None
        },
    }
}

} // verus!
