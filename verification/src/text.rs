//! Character-level helpers shared by the rest of the crate.
//!
//! Strings are modelled by their sequence of characters, lists of strings by
//! the sequence of those sequences.

use vstd::prelude::*;
use vstd::string::StringExecFns;

verus! {

/// The character sequences of a list of strings.
pub open spec fn views(items: Seq<String>) -> Seq<Seq<char>> {
    Seq::new(items.len(), |i: int| items[i]@)
}

/// The character sequence of an optional string.
pub open spec fn optional(text: Option<String>) -> Option<Seq<char>> {
    match text {
        Some(t) => Some(t@),
        None => None,
    }
}

/// The character sequences of an optional list of strings.
pub open spec fn optional_views(list: Option<Vec<String>>) -> Option<Seq<Seq<char>>> {
    match list {
        Some(l) => Some(views(l@)),
        None => None,
    }
}

/// `needle` occurs in `hay` starting at index `at`.
pub open spec fn occurs_at(hay: Seq<char>, at: int, needle: Seq<char>) -> bool {
    &&& 0 <= at
    &&& at + needle.len() <= hay.len()
    &&& hay.subrange(at, at + needle.len()) == needle
}

/// `needle` occurs somewhere in `hay`.
pub open spec fn is_substring(needle: Seq<char>, hay: Seq<char>) -> bool {
    exists|at: int| occurs_at(hay, at, needle)
}

/// The decimal digit for `d < 10`.
pub open spec fn digit(d: nat) -> char {
    if d == 0 {
        '0'
    } else if d == 1 {
        '1'
    } else if d == 2 {
        '2'
    } else if d == 3 {
        '3'
    } else if d == 4 {
        '4'
    } else if d == 5 {
        '5'
    } else if d == 6 {
        '6'
    } else if d == 7 {
        '7'
    } else if d == 8 {
        '8'
    } else {
        '9'
    }
}

/// The decimal numeral of `n`, without sign or leading zeros.
pub open spec fn decimal(n: nat) -> Seq<char>
    decreases n,
{
    if n < 10 {
        seq![digit(n)]
    } else {
        decimal(n / 10).push(digit(n % 10))
    }
}

/// `items` written one after the other with `sep` between neighbours.
pub open spec fn joined(items: Seq<Seq<char>>, sep: Seq<char>) -> Seq<char>
    decreases items.len(),
{
    if items.len() == 0 {
        Seq::empty()
    } else if items.len() == 1 {
        items[0]
    } else {
        joined(items.drop_last(), sep) + sep + items.last()
    }
}

/// Collects the characters of `s`.
pub fn to_chars(s: &str) -> (out: Vec<char>)
    ensures
        out@ == s@,
{
    let mut out: Vec<char> = Vec::new();
    for c in it: s.chars()
        invariant
            out@ == it.seq().take(it.index()),
            it.seq() == s@,
    {
        out.push(c);
    }
    out
}

/// `String::from_iter` over the characters of `chars`: the string made of
/// exactly those characters, in order.
#[verifier::external_body]
pub(crate) fn from_chars(chars: &Vec<char>) -> (out: String)
    ensures
        out@ == chars@,
{
    chars.iter().collect()
}

/// Whether `needle` occurs in `hay` at index `at`.
pub fn chars_occur_at(hay: &Vec<char>, at: usize, needle: &Vec<char>) -> (found: bool)
    ensures
        found == occurs_at(hay@, at as int, needle@),
{
    if at > hay.len() || needle.len() > hay.len() - at {
        return false;
    }
    let mut k: usize = 0;
    while k < needle.len()
        invariant
            k <= needle.len(),
            at + needle.len() <= hay.len(),
            forall|j: int| 0 <= j < k ==> hay@[at + j] == needle@[j],
        decreases needle.len() - k,
    {
        if hay[at + k] != needle[k] {
            proof {
                let window = hay@.subrange(at as int, at + needle.len());
                assert(window[k as int] == hay@[at + k]);
            }
            return false;
        }
        k += 1;
    }
    assert(hay@.subrange(at as int, at + needle.len()) =~= needle@);
    true
}

/// Whether two strings hold the same characters.
pub fn equal(a: &str, b: &str) -> (same: bool)
    ensures
        same == (a@ == b@),
{
    let left = to_chars(a);
    let right = to_chars(b);
    if left.len() != right.len() {
        return false;
    }
    let found = chars_occur_at(&left, 0, &right);
    proof {
        assert(left@.subrange(0, left@.len() as int) =~= left@);
    }
    found
}

/// Whether `s` begins with `prefix`, character for character.
pub fn starts_with(s: &str, prefix: &str) -> (found: bool)
    ensures
        found == prefix@.is_prefix_of(s@),
{
    let hay = to_chars(s);
    let needle = to_chars(prefix);
    let found = chars_occur_at(&hay, 0, &needle);
    proof {
        if needle@.len() <= hay@.len() {
            assert(hay@.subrange(0, needle@.len() as int) == needle@ <==> needle@.is_prefix_of(
                hay@,
            )) by {
                if needle@.is_prefix_of(hay@) {
                    assert(hay@.subrange(0, needle@.len() as int) =~= needle@);
                }
            }
        }
    }
    found
}

/// Whether `needle` occurs anywhere in `s`.
pub fn contains(s: &str, needle: &str) -> (found: bool)
    ensures
        found == is_substring(needle@, s@),
{
    let hay = to_chars(s);
    let pat = to_chars(needle);
    if pat.len() > hay.len() {
        return false;
    }
    let last: usize = hay.len() - pat.len();
    let mut at: usize = 0;
    loop
        invariant
            at <= last,
            last == hay.len() - pat.len(),
            pat.len() <= hay.len(),
            hay@ == s@,
            pat@ == needle@,
            forall|j: int| 0 <= j < at ==> !occurs_at(hay@, j, pat@),
        decreases last - at,
    {
        if chars_occur_at(&hay, at, &pat) {
            return true;
        }
        if at == last {
            return false;
        }
        at += 1;
    }
}

/// Whether `item` is one of `list`.
pub fn list_contains(list: &[String], item: &str) -> (found: bool)
    ensures
        found == views(list@).contains(item@),
{
    let mut i: usize = 0;
    while i < list.len()
        invariant
            i <= list.len(),
            forall|j: int| 0 <= j < i ==> list@[j]@ != item@,
        decreases list.len() - i,
    {
        if equal(list[i].as_str(), item) {
            assert(views(list@)[i as int] == item@);
            return true;
        }
        i += 1;
    }
    false
}

/// A copy of `list` holding the same strings in the same order.
pub fn clone_list(list: &Vec<String>) -> (out: Vec<String>)
    ensures
        views(out@) == views(list@),
{
    let mut out: Vec<String> = Vec::new();
    let mut i: usize = 0;
    while i < list.len()
        invariant
            i <= list.len(),
            out@.len() == i,
            forall|j: int| 0 <= j < i ==> out@[j]@ == list@[j]@,
        decreases list.len() - i,
    {
        out.push(list[i].clone());
        i += 1;
    }
    assert(views(out@) =~= views(list@));
    out
}

fn digit_char(d: u64) -> (c: char)
    requires
        d < 10,
    ensures
        c == digit(d as nat),
{
    if d == 0 {
        '0'
    } else if d == 1 {
        '1'
    } else if d == 2 {
        '2'
    } else if d == 3 {
        '3'
    } else if d == 4 {
        '4'
    } else if d == 5 {
        '5'
    } else if d == 6 {
        '6'
    } else if d == 7 {
        '7'
    } else if d == 8 {
        '8'
    } else {
        '9'
    }
}

fn push_decimal(n: u64, out: &mut Vec<char>)
    ensures
        final(out)@ == old(out)@ + decimal(n as nat),
    decreases n,
{
    if n >= 10 {
        push_decimal(n / 10, out);
    }
    out.push(digit_char(n % 10));
    assert(out@ =~= old(out)@ + decimal(n as nat));
}

/// The decimal numeral of `n`.
pub fn decimal_string(n: u64) -> (out: String)
    ensures
        out@ == decimal(n as nat),
{
    let mut digits: Vec<char> = Vec::new();
    push_decimal(n, &mut digits);
    from_chars(&digits)
}

/// Joins `items` with `sep` between neighbours.
pub fn join(items: &Vec<String>, sep: &str) -> (out: String)
    ensures
        out@ == joined(views(items@), sep@),
{
    let mut out = String::new();
    let mut i: usize = 0;
    while i < items.len()
        invariant
            i <= items.len(),
            out@ == joined(views(items@).take(i as int), sep@),
        decreases items.len() - i,
    {
        if i > 0 {
            out.append(sep);
        }
        out.append(items[i].as_str());
        proof {
            let before = views(items@).take(i as int);
            let after = views(items@).take(i + 1);
            assert(after.drop_last() =~= before);
            assert(after.last() == items@[i as int]@);
            if i == 0 {
                assert(after[0] == items@[0]@);
                assert(out@ =~= after[0]);
            }
        }
        i += 1;
    }
    assert(views(items@).take(items@.len() as int) =~= views(items@));
    out
}

} // verus!
