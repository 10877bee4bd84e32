use vstd::prelude::*;

verus! {

/// Holds when `needle` occurs contiguously somewhere inside `hay`.
pub open spec fn contains_seq(hay: Seq<char>, needle: Seq<char>) -> bool {
    exists|i: int|
        0 <= i && i + needle.len() <= hay.len() && #[trigger] hay.subrange(i, i + needle.len())
            == needle
}

/// The middle part of a three-way concatenation occurs in the whole.
pub proof fn lemma_concat_contains(a: Seq<char>, b: Seq<char>, c: Seq<char>)
    ensures
        contains_seq(a + b + c, b),
{
    let h = a + b + c;
    let i = a.len() as int;
    assert(h.subrange(i, i + b.len()) =~= b);
}

/// Containment survives extending the haystack on the right.
pub proof fn lemma_contains_extend_right(hay: Seq<char>, suffix: Seq<char>, needle: Seq<char>)
    requires
        contains_seq(hay, needle),
    ensures
        contains_seq(hay + suffix, needle),
{
    let i = choose|i: int|
        0 <= i && i + needle.len() <= hay.len() && #[trigger] hay.subrange(i, i + needle.len())
            == needle;
    assert((hay + suffix).subrange(i, i + needle.len()) =~= needle);
}

/// Containment survives extending the haystack on the left.
pub proof fn lemma_contains_extend_left(prefix: Seq<char>, hay: Seq<char>, needle: Seq<char>)
    requires
        contains_seq(hay, needle),
    ensures
        contains_seq(prefix + hay, needle),
{
    let i = choose|i: int|
        0 <= i && i + needle.len() <= hay.len() && #[trigger] hay.subrange(i, i + needle.len())
            == needle;
    let j = prefix.len() + i;
    assert((prefix + hay).subrange(j, j + needle.len()) =~= needle);
}

/// Containment is transitive.
pub proof fn lemma_contains_trans(a: Seq<char>, b: Seq<char>, c: Seq<char>)
    requires
        contains_seq(a, b),
        contains_seq(b, c),
    ensures
        contains_seq(a, c),
{
    let i = choose|i: int|
        0 <= i && i + b.len() <= a.len() && #[trigger] a.subrange(i, i + b.len()) == b;
    let j = choose|j: int|
        0 <= j && j + c.len() <= b.len() && #[trigger] b.subrange(j, j + c.len()) == c;
    assert(a.subrange(i + j, i + j + c.len()) =~= c) by {
        assert forall|k: int| 0 <= k < c.len() implies a[i + j + k] == c[k] by {
            assert(b[j + k] == c[k]);
            assert(a[i + (j + k)] == b[j + k]);
        }
    }
}

} // verus!
