//! Character-level helpers: building strings, comparing them, and writing
//! integers in decimal.
use vstd::prelude::*;

verus! {

/// Whether two string slices hold the same characters.
pub(crate) fn str_equal(a: &str, b: &str) -> (r: bool)
    ensures
        r == (a@ == b@),
{
    let ca = chars_of(a);
    let cb = chars_of(b);
    if ca.len() != cb.len() {
        return false;
    }
    let mut i: usize = 0;
    while i < ca.len()
        invariant
            ca@ == a@,
            cb@ == b@,
            ca.len() == cb.len(),
            i <= ca.len(),
            forall|j: int| 0 <= j < i ==> ca@[j] == cb@[j],
        decreases ca.len() - i,
    {
        if ca[i] != cb[i] {
            return false;
        }
        i += 1;
    }
    assert(a@ =~= b@);
    true
}

/// Appends one character at the end of a string (std's `String::push`).
#[verifier::external_body]
pub(crate) fn push_char(s: &mut String, c: char)
    ensures
        final(s)@ == old(s)@.push(c),
{
    s.push(c)
}

/// The characters of a string slice, in order.
pub fn chars_of(s: &str) -> (v: Vec<char>)
    ensures
        v@ == s@,
{
    let mut v: Vec<char> = Vec::new();
    for c in it: s.chars()
        invariant
            v@ == it.seq().take(it.index() as int),
            it.seq() == s@,
    {
        v.push(c);
        assert(v@ == it.seq().take(it.index() as int + 1));
    }
    v
}

/// The string made of the characters `v[lo..hi]`.
pub fn string_of_chars(v: &Vec<char>, lo: usize, hi: usize) -> (r: String)
    requires
        lo <= hi <= v.len(),
    ensures
        r@ == v@.subrange(lo as int, hi as int),
{
    let mut r = String::new();
    let mut i = lo;
    while i < hi
        invariant
            lo <= i <= hi <= v.len(),
            r@ == v@.subrange(lo as int, i as int),
        decreases hi - i,
    {
        push_char(&mut r, v[i]);
        assert(r@ == v@.subrange(lo as int, i + 1));
        i += 1;
    }
    r
}

/// A copy of a string slice as an owned string.
pub fn owned(s: &str) -> (r: String)
    ensures
        r@ == s@,
{
    String::from_str(s)
}

/// The string `a` followed by `b`.
pub fn concat2(a: &str, b: &str) -> (r: String)
    ensures
        r@ == a@ + b@,
{
    let mut r = String::from_str(a);
    r.append(b);
    r
}

/// The string `a`, then `b`, then `c`.
pub fn concat3(a: &str, b: &str, c: &str) -> (r: String)
    ensures
        r@ == a@ + b@ + c@,
{
    let mut r = String::from_str(a);
    r.append(b);
    r.append(c);
    r
}

/// Whether `s` holds the two characters `{{` at position `i`.
pub open spec fn open_at(s: Seq<char>, i: int) -> bool {
    0 <= i && i + 1 < s.len() && s[i] == '{' && s[i + 1] == '{'
}

/// Whether `s` holds the two characters `}}` at position `i`.
pub open spec fn close_at(s: Seq<char>, i: int) -> bool {
    0 <= i && i + 1 < s.len() && s[i] == '}' && s[i + 1] == '}'
}

/// Whether `s` holds two consecutive `{` characters somewhere.
pub open spec fn has_open_braces(s: Seq<char>) -> bool {
    exists|i: int| #[trigger] open_at(s, i)
}

/// Whether the string holds `{{` (std's `str::contains` with that pattern).
pub fn contains_open_braces(s: &str) -> (r: bool)
    ensures
        r == has_open_braces(s@),
{
    let v = chars_of(s);
    let mut i: usize = 0;
    while i < v.len() && i + 1 < v.len()
        invariant
            v@ == s@,
            i <= v.len(),
            forall|j: int| 0 <= j < i ==> !#[trigger] open_at(s@, j),
        decreases v.len() - i,
    {
        if v[i] == '{' && v[i + 1] == '{' {
            assert(open_at(s@, i as int));
            return true;
        }
        i += 1;
    }
    assert forall|j: int| !#[trigger] open_at(s@, j) by {
        if 0 <= j < i {
        }
    }
    false
}

/// Whether `p` is a prefix of `s`.
pub open spec fn starts_with(s: Seq<char>, p: Seq<char>) -> bool {
    p.len() <= s.len() && s.subrange(0, p.len() as int) == p
}

/// The decimal digit character for `d` in `0..10`.
pub open spec fn digit_char(d: int) -> char {
    if d == 0 {
        '0'
    } else if d == 1 {
        '1'
    } else if d == 2 {
        '2'
    } else if d == 3 {
        '3'
    } else if d == 4 {
        '4'
    } else if d == 5 {
        '5'
    } else if d == 6 {
        '6'
    } else if d == 7 {
        '7'
    } else if d == 8 {
        '8'
    } else {
        '9'
    }
}

/// The decimal writing of a natural number, without leading zeros.
pub open spec fn decimal_nat(n: nat) -> Seq<char>
    decreases n,
{
    if n < 10 {
        seq![digit_char(n as int)]
    } else {
        decimal_nat(n / 10).push(digit_char(n as int % 10))
    }
}

/// The decimal writing of an integer, with a leading `-` when it is negative
/// (what `to_string` gives for Rust's integer types).
pub open spec fn decimal_int(i: int) -> Seq<char> {
    if i < 0 {
        seq!['-'] + decimal_nat((-i) as nat)
    } else {
        decimal_nat(i as nat)
    }
}

fn digit_to_char(d: u128) -> (c: char)
    requires
        d < 10,
    ensures
        c == digit_char(d as int),
{
    if d == 0 {
        '0'
    } else if d == 1 {
        '1'
    } else if d == 2 {
        '2'
    } else if d == 3 {
        '3'
    } else if d == 4 {
        '4'
    } else if d == 5 {
        '5'
    } else if d == 6 {
        '6'
    } else if d == 7 {
        '7'
    } else if d == 8 {
        '8'
    } else {
        '9'
    }
}

/// The decimal writing of an unsigned integer.
pub fn u128_to_decimal(n: u128) -> (r: String)
    ensures
        r@ == decimal_nat(n as nat),
    decreases n,
{
    if n < 10 {
        let mut r = String::new();
        push_char(&mut r, digit_to_char(n));
        r
    } else {
        let mut r = u128_to_decimal(n / 10);
        push_char(&mut r, digit_to_char(n % 10));
        r
    }
}

/// The decimal writing of a signed integer.
pub fn i128_to_decimal(i: i128) -> (r: String)
    ensures
        r@ == decimal_int(i as int),
{
    if i < 0 {
        let magnitude: u128 = (-(i + 1)) as u128 + 1;
        let digits = u128_to_decimal(magnitude);
        proof {
            reveal_strlit("-");
        }
        concat2("-", digits.as_str())
    } else {
        u128_to_decimal(i as u128)
    }
}

} // verus!
