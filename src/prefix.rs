//! The part of an input that is printed: its first bytes, or its first lines.

use vstd::prelude::*;

verus! {

/// How many newlines `s` holds.
pub open spec fn newline_count(s: Seq<u8>) -> nat
    decreases s.len(),
{
    if s.len() == 0 {
        0
    } else {
        newline_count(s.drop_last()) + if s.last() == 10u8 { 1nat } else { 0nat }
    }
}

proof fn lemma_newline_count_step(s: Seq<u8>, i: int)
    requires
        0 <= i < s.len(),
    ensures
        newline_count(s.take(i + 1)) == newline_count(s.take(i)) + if s[i] == 10u8 { 1nat } else { 0nat },
{
    assert(s.take(i + 1).drop_last() =~= s.take(i));
}

proof fn lemma_newline_count_grows(s: Seq<u8>, i: int)
    requires
        0 <= i <= s.len(),
    ensures
        newline_count(s.take(i)) <= newline_count(s),
    decreases s.len() - i,
{
    if i < s.len() {
        lemma_newline_count_step(s, i);
        lemma_newline_count_grows(s, i + 1);
    } else {
        assert(s.take(i) =~= s);
    }
}

/// The first `n` lines of `s`, each with its newline; all of `s` when it has
/// fewer than `n` newlines.
pub open spec fn is_lines_prefix(r: Seq<u8>, s: Seq<u8>, n: nat) -> bool {
    &&& r == s.take(r.len() as int)
    &&& if newline_count(s) < n {
        r == s
    } else {
        &&& newline_count(r) == n
        &&& n == 0 ==> r.len() == 0
        &&& n > 0 ==> r.len() > 0 && r.last() == 10u8
    }
}

/// The first `n` bytes of `data`, or all of it where it is shorter.
pub fn head_bytes(data: &[u8], n: usize) -> (r: Vec<u8>)
    ensures
        r@ == data@.take(if n < data@.len() { n as int } else { data@.len() as int }),
{
    let end: usize = if n < data.len() { n } else { data.len() };
    let mut r: Vec<u8> = Vec::new();
    let mut i: usize = 0;
    while i < end
        invariant
            end <= data@.len(),
            i <= end,
            r@ == data@.take(i as int),
        decreases end - i,
    {
        r.push(data[i]);
        i = i + 1;
        assert(r@ =~= data@.take(i as int));
    }
    r
}

/// The first `n` lines of `data`, each with its newline, or all of it where it
/// has fewer.
pub fn head_lines(data: &[u8], n: usize) -> (r: Vec<u8>)
    ensures
        is_lines_prefix(r@, data@, n as nat),
{
    let mut r: Vec<u8> = Vec::new();
    let mut i: usize = 0;
    let mut seen: usize = 0;
    while i < data.len() && seen < n
        invariant
            i <= data@.len(),
            seen <= n,
            r@ == data@.take(i as int),
            seen as nat == newline_count(data@.take(i as int)),
            seen == n && n > 0 ==> i > 0 && data@[i - 1] == 10u8,
            n == 0 ==> i == 0,
        decreases data@.len() - i,
    {
        proof {
            lemma_newline_count_step(data@, i as int);
        }
        let b = data[i];
        r.push(b);
        if b == 10u8 {
            seen = seen + 1;
        }
        i = i + 1;
        assert(r@ =~= data@.take(i as int));
    }
    proof {
        lemma_newline_count_grows(data@, i as int);
        if i == data@.len() {
            assert(data@.take(i as int) =~= data@);
        }
        if seen == n && n > 0 {
            assert(r@.last() == data@[i - 1]);
        }
    }
    r
}

} // verus!
