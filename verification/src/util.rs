//! Small verified helpers over lists of strings.
//!
//! Policy axes store explicit string sets as vectors; containment and
//! subset tests over them are stated against the element sequences, so
//! the order and multiplicity of the stored values never matter to a
//! contract.

use vstd::prelude::*;

verus! {

/// Every element of `a` occurs somewhere in `b`.
pub open spec fn seq_subset(a: Seq<Seq<char>>, b: Seq<Seq<char>>) -> bool {
    forall|i: int| 0 <= i < a.len() ==> b.contains(a[i])
}

/// Equality between an owned string and a borrowed slice.
pub fn str_eq(a: &String, b: &str) -> (r: bool)
    ensures
        r == (a@ == b@),
{
    let b_owned: String = b.to_owned();
    *a == b_owned
}

/// Membership of `item` in `list`, by string value.
pub fn string_list_contains(list: &Vec<String>, item: &str) -> (r: bool)
    ensures
        r == list.deep_view().contains(item@),
{
    let mut i: usize = 0;
    while i < list.len()
        invariant
            i <= list.len(),
            forall|j: int| 0 <= j < i ==> list.deep_view()[j] != item@,
        decreases list.len() - i,
    {
        if str_eq(&list[i], item) {
            assert(list.deep_view()[i as int] == item@);
            return true;
        }
        i += 1;
    }
    false
}

/// Subset test: every string of `sub` occurs in `sup`.
pub fn string_list_subset(sub: &Vec<String>, sup: &Vec<String>) -> (r: bool)
    ensures
        r == seq_subset(sub.deep_view(), sup.deep_view()),
{
    let mut i: usize = 0;
    while i < sub.len()
        invariant
            i <= sub.len(),
            forall|j: int| 0 <= j < i ==> sup.deep_view().contains(sub.deep_view()[j]),
        decreases sub.len() - i,
    {
        if !string_list_contains(sup, sub[i].as_str()) {
            assert(!sup.deep_view().contains(sub.deep_view()[i as int]));
            return false;
        }
        i += 1;
    }
    true
}

/// Character-wise prefix test.
pub fn has_prefix(s: &str, prefix: &str) -> (r: bool)
    ensures
        r == (s@.len() >= prefix@.len() && s@.subrange(0, prefix@.len() as int) == prefix@),
{
    let p = prefix.unicode_len();
    let n = s.unicode_len();
    if n < p {
        return false;
    }
    let mut i: usize = 0;
    while i < p
        invariant
            n == s@.len(),
            p == prefix@.len(),
            p <= n,
            i <= p,
            forall|j: int| 0 <= j < i ==> s@[j] == prefix@[j],
        decreases p - i,
    {
        if s.get_char(i) != prefix.get_char(i) {
            assert(s@.subrange(0, p as int)[i as int] == s@[i as int]);
            return false;
        }
        i += 1;
    }
    proof {
        assert(s@.subrange(0, p as int) =~= prefix@);
    }
    true
}

} // verus!
