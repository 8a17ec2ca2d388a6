//! Computing the registrable domain of a fully qualified domain name:
//! the last two dot-separated labels, rejoined with a dot. A name with
//! at most one label (no dot, or a single trailing label) is returned
//! unchanged.

use vstd::prelude::*;
use vstd::string::*;

verus! {

/// Index of the last '.' in `s`, or -1 when `s` holds none.
pub open spec fn last_dot(s: Seq<char>) -> int
    decreases s.len(),
{
    if s.len() == 0 {
        -1
    } else if s[s.len() - 1] == '.' {
        s.len() - 1
    } else {
        last_dot(s.drop_last())
    }
}

/// The registrable domain of `s`: the suffix that starts right after the
/// second-to-last '.', or `s` itself when it holds fewer than two dots.
pub open spec fn registrable_of(s: Seq<char>) -> Seq<char> {
    let l1 = last_dot(s);
    if l1 < 0 {
        s
    } else {
        let l2 = last_dot(s.take(l1));
        if l2 < 0 {
            s
        } else {
            s.subrange(l2 + 1, s.len() as int)
        }
    }
}

pub proof fn lemma_last_dot_bounds(s: Seq<char>)
    ensures
        -1 <= last_dot(s) < s.len(),
    decreases s.len(),
{
    if s.len() > 0 && s[s.len() - 1] != '.' {
        lemma_last_dot_bounds(s.drop_last());
    }
}

pub proof fn lemma_last_dot_is_dot(s: Seq<char>)
    requires
        last_dot(s) >= 0,
    ensures
        s[last_dot(s)] == '.',
    decreases s.len(),
{
    if s.len() > 0 && s[s.len() - 1] != '.' {
        lemma_last_dot_bounds(s.drop_last());
        lemma_last_dot_is_dot(s.drop_last());
    }
}

/// Any '.' in `s` stands at or before `last_dot(s)`.
pub proof fn lemma_dot_le_last(s: Seq<char>, j: int)
    requires
        0 <= j < s.len(),
        s[j] == '.',
    ensures
        last_dot(s) >= j,
    decreases s.len(),
{
    if s.len() > 0 && s[s.len() - 1] != '.' {
        lemma_dot_le_last(s.drop_last(), j);
    }
}

/// A sequence without a '.' has no last dot.
pub proof fn lemma_no_dot(s: Seq<char>)
    requires
        forall|j: int| 0 <= j < s.len() ==> s[j] != '.',
    ensures
        last_dot(s) == -1,
{
    lemma_last_dot_bounds(s);
    if last_dot(s) >= 0 {
        lemma_last_dot_is_dot(s);
    }
}

/// Appending one character moves the last dot to the end when that
/// character is a dot, and keeps it otherwise.
proof fn lemma_last_dot_push(t: Seq<char>, c: char)
    ensures
        last_dot(t.push(c)) == if c == '.' {
            t.len() as int
        } else {
            last_dot(t)
        },
{
    assert(t.push(c).drop_last() =~= t);
    assert(t.push(c)[t.push(c).len() - 1] == c);
}

/// Computes the registrable domain of `domain`: the last two
/// dot-separated labels joined by '.', or `domain` itself when it has
/// fewer than two labels.
pub fn registrable_domain(domain: &str) -> (r: String)
    ensures
        r@ == registrable_of(domain@),
{
    let n: usize = domain.unicode_len();
    let mut has1: bool = false;
    let mut l1: usize = 0;
    let mut has2: bool = false;
    let mut l2: usize = 0;
    let mut i: usize = 0;
    while i < n
        invariant
            n == domain@.len(),
            0 <= i <= n,
            has1 <==> last_dot(domain@.take(i as int)) >= 0,
            has1 ==> l1 == last_dot(domain@.take(i as int)) && l1 < i,
            has2 ==> has1 && l2 == last_dot(domain@.take(l1 as int)) && l2 < l1,
            has1 && !has2 ==> last_dot(domain@.take(l1 as int)) < 0,
        decreases n - i,
    {
        let c = domain.get_char(i);
        proof {
            assert(domain@.take(i + 1 as int) =~= domain@.take(i as int).push(domain@[i as int]));
            lemma_last_dot_push(domain@.take(i as int), domain@[i as int]);
        }
        if c == '.' {
            if has1 {
                l2 = l1;
                has2 = true;
            }
            l1 = i;
            has1 = true;
        }
        i = i + 1;
    }
    proof {
        assert(domain@.take(n as int) =~= domain@);
    }
    if has2 {
        let r = String::from_str(domain.substring_char(l2 + 1, n));
        proof {
            assert(r@ =~= registrable_of(domain@));
        }
        r
    } else {
        let r = String::from_str(domain);
        r
    }
}

/// A name made of exactly two dot-free labels is its own registrable
/// domain.
pub proof fn lemma_registrable_two_labels(b: Seq<char>, c: Seq<char>)
    requires
        forall|j: int| 0 <= j < b.len() ==> b[j] != '.',
        forall|j: int| 0 <= j < c.len() ==> c[j] != '.',
    ensures
        registrable_of(b + seq!['.'] + c) == b + seq!['.'] + c,
{
    let s = b + seq!['.'] + c;
    assert(s[b.len() as int] == '.');
    lemma_dot_le_last(s, b.len() as int);
    lemma_last_dot_bounds(s);
    lemma_last_dot_is_dot(s);
    let l1 = last_dot(s);
    assert(l1 == b.len()) by {
        if l1 > b.len() {
            assert(s[l1] == c[l1 - b.len() - 1]);
        }
    }
    assert(s.take(l1) =~= b);
    lemma_no_dot(b);
}

/// For a name of three or more labels whose last two labels are
/// dot-free, the registrable domain is exactly those two labels joined
/// by '.', whatever stands before them.
pub proof fn lemma_registrable_deeper(p: Seq<char>, b: Seq<char>, c: Seq<char>)
    requires
        forall|j: int| 0 <= j < b.len() ==> b[j] != '.',
        forall|j: int| 0 <= j < c.len() ==> c[j] != '.',
    ensures
        registrable_of(p + seq!['.'] + b + seq!['.'] + c) == b + seq!['.'] + c,
{
    let s = p + seq!['.'] + b + seq!['.'] + c;
    let d2 = p.len() + 1 + b.len();
    assert(s[d2 as int] == '.');
    lemma_dot_le_last(s, d2 as int);
    lemma_last_dot_bounds(s);
    lemma_last_dot_is_dot(s);
    let l1 = last_dot(s);
    assert(l1 == d2) by {
        if l1 > d2 {
            assert(s[l1] == c[l1 - d2 - 1]);
        }
    }
    let t = s.take(l1);
    assert(t =~= p + seq!['.'] + b);
    assert(t[p.len() as int] == '.');
    lemma_dot_le_last(t, p.len() as int);
    lemma_last_dot_bounds(t);
    lemma_last_dot_is_dot(t);
    let l2 = last_dot(t);
    assert(l2 == p.len()) by {
        if l2 > p.len() {
            assert(t[l2] == b[l2 - p.len() - 1]);
        }
    }
    assert(s.subrange(l2 + 1, s.len() as int) =~= b + seq!['.'] + c);
}

} // verus!
