//! Small verified text utilities shared by the rest of the library:
//! decimal rendering of integers and a containment predicate over
//! character sequences.

use vstd::prelude::*;
use vstd::string::*;

verus! {

/// The character for one decimal digit.
pub open spec fn dec_digit(d: nat) -> char {
    if d == 0 {
        '0'
    } else if d == 1 {
        '1'
    } else if d == 2 {
        '2'
    } else if d == 3 {
        '3'
    } else if d == 4 {
        '4'
    } else if d == 5 {
        '5'
    } else if d == 6 {
        '6'
    } else if d == 7 {
        '7'
    } else if d == 8 {
        '8'
    } else {
        '9'
    }
}

/// The usual decimal rendering of `n`, most significant digit first,
/// with no leading zeros (and `0` rendered as "0").
pub open spec fn dec_rep(n: nat) -> Seq<char>
    decreases n,
{
    if n < 10 {
        seq![dec_digit(n)]
    } else {
        dec_rep(n / 10).push(dec_digit(n % 10))
    }
}

/// `needle` occurs contiguously somewhere inside `haystack`.
pub open spec fn contains_seq(haystack: Seq<char>, needle: Seq<char>) -> bool {
    exists|i: int|
        0 <= i && i + needle.len() <= haystack.len() && #[trigger] haystack.subrange(
            i,
            i + needle.len(),
        ) == needle
}

/// A sequence that occurs at a known offset is contained.
pub proof fn lemma_contains_at(haystack: Seq<char>, needle: Seq<char>, i: int)
    requires
        0 <= i,
        i + needle.len() <= haystack.len(),
        haystack.subrange(i, i + needle.len()) == needle,
    ensures
        contains_seq(haystack, needle),
{
}

fn digit_str(d: u32) -> (r: &'static str)
    requires
        d < 10,
    ensures
        r@ == seq![dec_digit(d as nat)],
{
    let r: &'static str = match d {
        0 => "0",
        1 => "1",
        2 => "2",
        3 => "3",
        4 => "4",
        5 => "5",
        6 => "6",
        7 => "7",
        8 => "8",
        _ => "9",
    };
    proof {
        reveal_strlit("0");
        reveal_strlit("1");
        reveal_strlit("2");
        reveal_strlit("3");
        reveal_strlit("4");
        reveal_strlit("5");
        reveal_strlit("6");
        reveal_strlit("7");
        reveal_strlit("8");
        reveal_strlit("9");
        assert(r@ =~= seq![dec_digit(d as nat)]);
    }
    r
}

/// The whitespace characters stripped from the echoed IP address.
pub open spec fn is_space(c: char) -> bool {
    c == ' ' || c == '\n' || c == '\r' || c == '\t'
}

/// `s` with every leading and trailing whitespace character removed.
pub open spec fn trim_of(s: Seq<char>) -> Seq<char>
    decreases s.len(),
{
    if s.len() > 0 && is_space(s[0]) {
        trim_of(s.drop_first())
    } else if s.len() > 0 && is_space(s[s.len() - 1]) {
        trim_of(s.drop_last())
    } else {
        s
    }
}

fn is_space_char(c: char) -> (r: bool)
    ensures
        r == is_space(c),
{
    c == ' ' || c == '\n' || c == '\r' || c == '\t'
}

/// The trimmed text is exactly the subrange that drops a fully-spaced
/// prefix and suffix.
proof fn lemma_trim_range(s: Seq<char>, start: int, end: int)
    requires
        0 <= start <= end <= s.len(),
        forall|j: int| 0 <= j < start ==> is_space(s[j]),
        forall|j: int| end <= j < s.len() ==> is_space(s[j]),
        start < end ==> !is_space(s[start]),
        start < end ==> !is_space(s[end - 1]),
    ensures
        trim_of(s) == s.subrange(start, end),
    decreases s.len(),
{
    if s.len() == 0 {
        assert(s.subrange(start, end) =~= s);
    } else if is_space(s[0]) {
        if start > 0 {
            lemma_trim_range(s.drop_first(), start - 1, end - 1);
            assert(s.drop_first().subrange(start - 1, end - 1) =~= s.subrange(start, end));
        } else {
            // start == 0 and s[0] is a space, so the range is empty and
            // every character of s is a space.
            lemma_trim_range(s.drop_first(), 0, 0);
            assert(s.drop_first().subrange(0, 0) =~= s.subrange(start, end));
        }
    } else if is_space(s[s.len() - 1]) {
        // here start == 0 and end < s.len()
        lemma_trim_range(s.drop_last(), start, end);
        assert(s.drop_last().subrange(start, end) =~= s.subrange(start, end));
    } else {
        assert(s.subrange(start, end) =~= s);
    }
}

/// Strips leading and trailing whitespace, as the IP echo response
/// carries a trailing newline.
pub fn trim_text(s: &str) -> (r: String)
    ensures
        r@ == trim_of(s@),
{
    let n: usize = s.unicode_len();
    let mut start: usize = 0;
    while start < n && is_space_char(s.get_char(start))
        invariant
            n == s@.len(),
            0 <= start <= n,
            forall|j: int| 0 <= j < start ==> is_space(s@[j]),
        decreases n - start,
    {
        start = start + 1;
    }
    let mut end: usize = n;
    while end > start && is_space_char(s.get_char(end - 1))
        invariant
            n == s@.len(),
            start <= end <= n,
            forall|j: int| end <= j < n ==> is_space(s@[j]),
        decreases end,
    {
        end = end - 1;
    }
    proof {
        lemma_trim_range(s@, start as int, end as int);
    }
    String::from_str(s.substring_char(start, end))
}

/// Renders `n` in decimal.
pub fn decimal_string(n: u32) -> (r: String)
    ensures
        r@ == dec_rep(n as nat),
    decreases n,
{
    if n < 10 {
        String::from_str(digit_str(n))
    } else {
        let mut s = decimal_string(n / 10);
        s.append(digit_str(n % 10));
        s
    }
}

} // verus!
