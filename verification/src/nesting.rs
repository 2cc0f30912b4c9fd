//! Angle brackets and commas in a text: how deep inside brackets each comma
//! stands, and where a map's interior parts into key and value.

use vstd::prelude::*;
use vstd::string::*;
use crate::grammar::{depth, is_top_comma, lemma_split_unique, splits_at, top_comma, value_part};

verus! {

/// Whether `s` closes every bracket it opens and holds each comma inside
/// at least `least` open brackets.
pub open spec fn nested(s: Seq<char>, least: int) -> bool {
    &&& depth(s) == 0
    &&& forall|i: int| 0 <= i < s.len() && s[i] == ',' ==> depth(#[trigger] s.take(i)) >= least
}

/// The depth of two texts joined is the sum of their depths.
pub proof fn lemma_depth_concat(a: Seq<char>, b: Seq<char>)
    ensures
        depth(a + b) == depth(a) + depth(b),
    decreases b.len(),
{
    if b.len() == 0 {
        assert(a + b =~= a);
    } else {
        lemma_depth_concat(a, b.drop_last());
        assert((a + b).drop_last() =~= a + b.drop_last());
    }
}

/// A text without angle brackets has depth zero.
pub proof fn lemma_depth_plain(s: Seq<char>)
    requires
        forall|i: int| 0 <= i < s.len() ==> s[i] != '<' && s[i] != '>',
    ensures
        depth(s) == 0,
    decreases s.len(),
{
    if s.len() > 0 {
        lemma_depth_plain(s.drop_last());
    }
}

/// A text whose only bracket is an opening one at its end has depth one.
pub proof fn lemma_depth_opener(s: Seq<char>)
    requires
        s.len() > 0,
        s.last() == '<',
        forall|i: int| 0 <= i < s.len() - 1 ==> s[i] != '<' && s[i] != '>',
    ensures
        depth(s) == 1,
{
    lemma_depth_plain(s.drop_last());
}

/// Putting a nested text between an opener and `>` keeps every comma inside a
/// bracket.
pub proof fn lemma_wrapped(open: Seq<char>, x: Seq<char>)
    requires
        depth(open) == 1,
        forall|i: int| 0 <= i < open.len() ==> open[i] != ',',
        nested(x, 0),
    ensures
        nested(open + x + ">"@, 1),
{
    reveal_strlit(">");
    let s = open + x + ">"@;
    lemma_depth_concat(open, x);
    lemma_depth_concat(open + x, ">"@);
    lemma_depth_plain(">"@.drop_last());
    assert(depth(">"@) == -1);
    assert forall|i: int| 0 <= i < s.len() && s[i] == ',' implies depth(#[trigger] s.take(i))
        >= 1 by {
        let j = i - open.len();
        assert(0 <= j < x.len());
        assert(x[j] == ',');
        assert(s.take(i) =~= open + x.take(j));
        lemma_depth_concat(open, x.take(j));
    }
}

/// A key, a comma, at most one space and a value, each of the two nested,
/// part at that comma.
pub proof fn lemma_parted(inner: Seq<char>, c: int)
    requires
        0 <= c < inner.len(),
        inner[c] == ',',
        nested(inner.take(c), 1),
        nested(value_part(inner, c), 1),
    ensures
        nested(inner, 0),
        top_comma(inner) == Some(c),
{
    let k = inner.take(c);
    let v = value_part(inner, c);
    let gap = inner.len() - c - v.len();
    assert(gap == 1 || gap == 2);
    let mid = inner.subrange(c, c + gap);
    assert(inner =~= k + mid + v);
    lemma_depth_plain(mid);
    lemma_depth_concat(k, mid);
    lemma_depth_concat(k + mid, v);
    assert forall|i: int| 0 <= i < inner.len() && inner[i] == ',' implies depth(
        #[trigger] inner.take(i),
    ) >= 0 by {
        if i < c {
            assert(inner.take(i) =~= k.take(i));
        } else if i == c {
        } else if i >= c + gap {
            let j = i - c - gap;
            assert(v[j] == ',');
            assert(inner.take(i) =~= k + mid + v.take(j));
            lemma_depth_concat(k + mid, v.take(j));
        }
    }
    assert forall|j: int| 0 <= j < c implies !is_top_comma(inner, j) by {
        assert(inner.take(j) =~= k.take(j));
    }
    assert(splits_at(inner, c));
    lemma_split_unique(inner, c, choose|i: int| splits_at(inner, i));
}

} // verus!
