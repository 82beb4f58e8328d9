//! Small verified helpers on text: reading a string's characters, joining a
//! message, writing a number in decimal and finding the `::` separator.

use vstd::prelude::*;
use vstd::string::*;

verus! {

/// The characters of a string, in order.
pub fn chars_of(s: &str) -> (res: Vec<char>)
    ensures
        res@ == s@,
{
    let n = s.unicode_len();
    let mut out: Vec<char> = Vec::new();
    let mut i: usize = 0;
    while i < n
        invariant
            n == s@.len(),
            i <= n,
            out@.len() == i,
            forall|j: int| 0 <= j < i ==> out@[j] == s@[j],
        decreases n - i,
    {
        out.push(s.get_char(i));
        i = i + 1;
    }
    assert(out@ =~= s@);
    out
}

/// A message made of a fixed head and a detail that follows it.
pub fn with_detail(head: &str, detail: &str) -> (res: String)
    ensures
        res@ == head@ + detail@,
{
    let mut out = String::from_str(head);
    out.append(detail);
    out
}

/// The decimal digit that stands for `d`.
pub open spec fn digit_char(d: nat) -> char
    recommends
        d < 10,
{
    if d == 0 {
        '0'
    } else if d == 1 {
        '1'
    } else if d == 2 {
        '2'
    } else if d == 3 {
        '3'
    } else if d == 4 {
        '4'
    } else if d == 5 {
        '5'
    } else if d == 6 {
        '6'
    } else if d == 7 {
        '7'
    } else if d == 8 {
        '8'
    } else {
        '9'
    }
}

/// A number written in decimal, without leading zeros.
pub open spec fn decimal_digits(n: nat) -> Seq<char>
    decreases n,
{
    if n < 10 {
        seq![digit_char(n)]
    } else {
        decimal_digits(n / 10).push(digit_char(n % 10))
    }
}

fn digit_of(d: u64) -> (c: char)
    requires
        d < 10,
    ensures
        c == digit_char(d as nat),
{
    if d == 0 {
        '0'
    } else if d == 1 {
        '1'
    } else if d == 2 {
        '2'
    } else if d == 3 {
        '3'
    } else if d == 4 {
        '4'
    } else if d == 5 {
        '5'
    } else if d == 6 {
        '6'
    } else if d == 7 {
        '7'
    } else if d == 8 {
        '8'
    } else {
        '9'
    }
}

/// `String::push` of std: the character is added at the end and the rest
/// of the text stays as it was.
#[verifier::external_body]
fn push_char(text: &mut String, c: char)
    ensures
        final(text)@ == old(text)@.push(c),
{
    text.push(c);
}

/// Writes `n` in decimal.
pub fn decimal_text(n: u64) -> (res: String)
    ensures
        res@ == decimal_digits(n as nat),
    decreases n,
{
    if n < 10 {
        let mut out = String::new();
        push_char(&mut out, digit_of(n));
        assert(out@ =~= seq![digit_char(n as nat)]);
        out
    } else {
        let mut out = decimal_text(n / 10);
        push_char(&mut out, digit_of(n % 10));
        out
    }
}

/// Whether the two characters `::` stand at position `i` of `s`.
pub open spec fn separator_at(s: Seq<char>, i: int) -> bool {
    0 <= i && i + 1 < s.len() && s[i] == ':' && s[i + 1] == ':'
}

/// Whether `i` is the first position of `s` at which `::` stands.
pub open spec fn first_separator(s: Seq<char>, i: int) -> bool {
    separator_at(s, i) && forall|j: int| 0 <= j < i ==> !separator_at(s, j)
}

/// Whether `::` occurs anywhere in `s`.
pub open spec fn has_separator(s: Seq<char>) -> bool {
    exists|i: int| separator_at(s, i)
}

/// Finds the first `::` in `s`.
pub fn find_separator(s: &Vec<char>) -> (res: Option<usize>)
    ensures
        res is Some <==> has_separator(s@),
        res matches Some(i) ==> first_separator(s@, i as int),
{
    if s.len() < 2 {
        assert(forall|j: int| !separator_at(s@, j));
        return None;
    }
    let last: usize = s.len() - 1;
    let mut i: usize = 0;
    while i < last
        invariant
            last + 1 == s@.len(),
            i <= last,
            forall|j: int| 0 <= j < i ==> !separator_at(s@, j),
        decreases last - i,
    {
        if s[i] == ':' && s[i + 1] == ':' {
            assert(separator_at(s@, i as int));
            return Some(i);
        }
        i = i + 1;
    }
    assert(forall|j: int| !separator_at(s@, j));
    None
}

} // verus!
