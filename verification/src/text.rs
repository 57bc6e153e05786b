//! Comparing, cutting and assembling strings, character by character.

use vstd::prelude::*;
use vstd::string::*;

verus! {

/// Whether two strings hold the same characters.
pub fn str_eq(a: &str, b: &str) -> (r: bool)
    ensures
        r == (a@ == b@),
{
    let n = a.unicode_len();
    if n != b.unicode_len() {
        return false;
    }
    let mut i: usize = 0;
    while i < n
        invariant
            n == a@.len(),
            n == b@.len(),
            i <= n,
            forall|j: int| 0 <= j < i ==> a@[j] == b@[j],
        decreases n - i,
    {
        if a.get_char(i) != b.get_char(i) {
            return false;
        }
        i = i + 1;
    }
    assert(a@ =~= b@);
    true
}

/// Whether `s` begins with `prefix`.
pub fn starts_with(s: &str, prefix: &str) -> (r: bool)
    ensures
        r == prefix@.is_prefix_of(s@),
{
    let n = prefix.unicode_len();
    if n > s.unicode_len() {
        return false;
    }
    let mut i: usize = 0;
    while i < n
        invariant
            n == prefix@.len(),
            n <= s@.len(),
            i <= n,
            forall|j: int| 0 <= j < i ==> prefix@[j] == s@[j],
        decreases n - i,
    {
        if prefix.get_char(i) != s.get_char(i) {
            return false;
        }
        i = i + 1;
    }
    true
}

/// `n` spaces.
pub open spec fn blank(n: nat) -> Seq<char> {
    Seq::new(n, |_i: int| ' ')
}

/// A string of `n` spaces.
pub fn spaces(n: usize) -> (r: String)
    ensures
        r@ == blank(n as nat),
{
    proof {
        reveal_strlit(" ");
    }
    let mut r = String::new();
    let mut i: usize = 0;
    while i < n
        invariant
            i <= n,
            r@ == blank(i as nat),
            " "@ == seq![' '],
        decreases n - i,
    {
        r.append(" ");
        i = i + 1;
        assert(r@ =~= blank(i as nat));
    }
    r
}

/// The words of `ws` joined with single spaces between them.
pub open spec fn join_words(ws: Seq<Seq<char>>) -> Seq<char>
    decreases ws.len(),
{
    if ws.len() == 0 {
        seq![]
    } else if ws.len() == 1 {
        ws[0]
    } else {
        join_words(ws.drop_last()) + " "@ + ws.last()
    }
}

/// The characters of each string of `v`.
pub open spec fn words(v: Seq<String>) -> Seq<Seq<char>> {
    v.map_values(|s: String| s@)
}

/// The strings of `v[from..]` joined with single spaces between them.
pub fn join_from(v: &Vec<String>, from: usize) -> (r: String)
    requires
        from <= v.len(),
    ensures
        r@ == join_words(words(v@).skip(from as int)),
{
    let ghost ws = words(v@).skip(from as int);
    let mut r = String::new();
    let mut i: usize = from;
    while i < v.len()
        invariant
            from <= i <= v.len(),
            ws == words(v@).skip(from as int),
            r@ == join_words(ws.take(i - from)),
        decreases v.len() - i,
    {
        if i > from {
            r.append(" ");
        }
        r.append(v[i].as_str());
        i = i + 1;
        assert(ws.take(i - from).drop_last() =~= ws.take(i - from - 1));
    }
    assert(ws.take(i - from) =~= ws);
    r
}

} // verus!
