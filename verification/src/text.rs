//! Text helpers: comparisons on string slices, decimal rendering and
//! whitespace classification, each with a contract over `Seq<char>`.

use vstd::prelude::*;
use vstd::string::StringExecFns;

verus! {

/// `needle` occurs in `hay` as a contiguous run of characters.
pub open spec fn contains_subseq(hay: Seq<char>, needle: Seq<char>) -> bool {
    exists|i: int|
        0 <= i && i + needle.len() <= hay.len() && #[trigger] hay.subrange(
            i,
            i + needle.len(),
        ) == needle
}

/// The code point of `c`, with `A`..`Z` mapped onto `a`..`z`.
pub open spec fn ascii_lower_code(c: char) -> u32 {
    if 'A' as u32 <= c as u32 && c as u32 <= 'Z' as u32 {
        (c as u32 + 32) as u32
    } else {
        c as u32
    }
}

/// The code points of `s` after ASCII lower-casing.
pub open spec fn ascii_lower(s: Seq<char>) -> Seq<u32> {
    s.map_values(|c: char| ascii_lower_code(c))
}

/// Two texts are equal up to the case of ASCII letters.
pub open spec fn eq_ignoring_ascii_case(a: Seq<char>, b: Seq<char>) -> bool {
    ascii_lower(a) == ascii_lower(b)
}

/// Calls `str::eq`. Trusted: the result is true exactly when both slices hold
/// the same characters.
#[verifier::external_body]
pub(crate) fn str_eq(a: &str, b: &str) -> (same: bool)
    ensures
        same == (a@ == b@),
{
    a == b
}

/// Calls `str::starts_with` with a string pattern. Trusted: the result is true
/// exactly when `prefix` matches the beginning of `s`.
#[verifier::external_body]
pub(crate) fn str_starts_with(s: &str, prefix: &str) -> (found: bool)
    ensures
        found == prefix@.is_prefix_of(s@),
{
    s.starts_with(prefix)
}

/// Calls `str::contains` with a string pattern. Trusted: the result is true
/// exactly when `needle` matches some sub-slice of `s`.
#[verifier::external_body]
pub(crate) fn str_contains(s: &str, needle: &str) -> (found: bool)
    ensures
        found == contains_subseq(s@, needle@),
{
    s.contains(needle)
}

/// Calls `str::eq_ignore_ascii_case`. Trusted: the result is true exactly when
/// the two slices are equal after ASCII lower-casing.
#[verifier::external_body]
pub(crate) fn str_eq_ignore_ascii_case(a: &str, b: &str) -> (same: bool)
    ensures
        same == eq_ignoring_ascii_case(a@, b@),
{
    a.eq_ignore_ascii_case(b)
}

/// The character for one decimal digit.
pub open spec fn digit_char(d: nat) -> char {
    if d == 0 {
        '0'
    } else if d == 1 {
        '1'
    } else if d == 2 {
        '2'
    } else if d == 3 {
        '3'
    } else if d == 4 {
        '4'
    } else if d == 5 {
        '5'
    } else if d == 6 {
        '6'
    } else if d == 7 {
        '7'
    } else if d == 8 {
        '8'
    } else {
        '9'
    }
}

/// The decimal numeral of `n`, most significant digit first, without leading
/// zeros (`0` is written `"0"`).
pub open spec fn decimal(n: nat) -> Seq<char>
    decreases n,
{
    if n < 10 {
        seq![digit_char(n)]
    } else {
        decimal(n / 10).push(digit_char(n % 10))
    }
}

fn digit_str(d: u8) -> (s: &'static str)
    requires
        d < 10,
    ensures
        s@ == seq![digit_char(d as nat)],
{
    proof {
        reveal_strlit("0");
        reveal_strlit("1");
        reveal_strlit("2");
        reveal_strlit("3");
        reveal_strlit("4");
        reveal_strlit("5");
        reveal_strlit("6");
        reveal_strlit("7");
        reveal_strlit("8");
        reveal_strlit("9");
    }
    let s = if d == 0 {
        "0"
    } else if d == 1 {
        "1"
    } else if d == 2 {
        "2"
    } else if d == 3 {
        "3"
    } else if d == 4 {
        "4"
    } else if d == 5 {
        "5"
    } else if d == 6 {
        "6"
    } else if d == 7 {
        "7"
    } else if d == 8 {
        "8"
    } else {
        "9"
    };
    assert(s@ =~= seq![digit_char(d as nat)]);
    s
}

/// Appends the decimal numeral of `n` to `out`.
pub fn push_decimal(out: &mut String, n: u128)
    ensures
        final(out)@ == old(out)@ + decimal(n as nat),
    decreases n,
{
    if n >= 10 {
        push_decimal(out, n / 10);
    }
    let d: u8 = (n % 10) as u8;
    out.append(digit_str(d));
    proof {
        if n >= 10 {
            assert(old(out)@ + decimal((n / 10) as nat) + seq![digit_char((n % 10) as nat)]
                =~= old(out)@ + decimal(n as nat));
        }
    }
}

/// The decimal numeral of `n` as an owned string.
pub fn decimal_string(n: u128) -> (s: String)
    ensures
        s@ == decimal(n as nat),
{
    let mut s = String::new();
    push_decimal(&mut s, n);
    assert(Seq::<char>::empty() + decimal(n as nat) =~= decimal(n as nat));
    s
}

/// Characters with the Unicode `White_Space` property.
pub open spec fn is_whitespace_char(c: char) -> bool {
    let u = c as u32;
    ||| 0x09 <= u <= 0x0D
    ||| u == 0x20
    ||| u == 0x85
    ||| u == 0xA0
    ||| u == 0x1680
    ||| 0x2000 <= u <= 0x200A
    ||| u == 0x2028
    ||| u == 0x2029
    ||| u == 0x202F
    ||| u == 0x205F
    ||| u == 0x3000
}

/// A text is blank when nothing is left of it once surrounding whitespace is
/// removed, that is when every character of it is whitespace.
pub open spec fn is_blank_text(s: Seq<char>) -> bool {
    forall|i: int| 0 <= i < s.len() ==> is_whitespace_char(#[trigger] s[i])
}

/// Does `c` have the Unicode `White_Space` property?
pub fn is_whitespace(c: char) -> (w: bool)
    ensures
        w == is_whitespace_char(c),
{
    let u: u32 = c as u32;
    (0x09 <= u && u <= 0x0D) || u == 0x20 || u == 0x85 || u == 0xA0 || u == 0x1680 || (0x2000 <= u
        && u <= 0x200A) || u == 0x2028 || u == 0x2029 || u == 0x202F || u == 0x205F || u == 0x3000
}

/// Is `s` empty or made of whitespace only?
pub fn is_blank(s: &str) -> (blank: bool)
    ensures
        blank == is_blank_text(s@),
{
    broadcast use vstd::string::group_string_axioms;

    let mut blank: bool = true;
    for c in it: s.chars()
        invariant
            it.seq() == s@,
            blank == (forall|i: int| 0 <= i < it.index() ==> is_whitespace_char(#[trigger] s@[i])),
    {
        let w = is_whitespace(c);
        blank = blank && w;
    }
    blank
}

/// Does the character `c` occur in `s`?
pub fn contains_char(s: &str, c: char) -> (found: bool)
    ensures
        found == s@.contains(c),
{
    broadcast use vstd::string::group_string_axioms;

    let mut found: bool = false;
    for x in it: s.chars()
        invariant
            it.seq() == s@,
            found == (exists|i: int| 0 <= i < it.index() && #[trigger] s@[i] == c),
    {
        found = found || x == c;
    }
    found
}

} // verus!
