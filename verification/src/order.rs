//! The order of texts, and sorting by it.

use vstd::prelude::*;
use vstd::string::*;
use crate::text::{chars_of, spec_texts};

verus! {

/// Whether `a` comes before `b` or is `b`, in the order of the dictionary
/// over the code points of the characters: the first character in which the
/// texts differ decides, and a text comes before every text that it begins.
pub open spec fn spec_text_le(a: Seq<char>, b: Seq<char>) -> bool
    decreases a.len(),
{
    if a.len() == 0 {
        true
    } else if b.len() == 0 {
        false
    } else if a[0] != b[0] {
        a[0] < b[0]
    } else {
        spec_text_le(a.drop_first(), b.drop_first())
    }
}

/// Whether the texts stand in order.
pub open spec fn spec_sorted(texts: Seq<Seq<char>>) -> bool {
    forall|i: int, j: int| 0 <= i < j < texts.len() ==> spec_text_le(texts[i], texts[j])
}

/// Every text comes before itself or is itself.
pub proof fn lemma_text_le_reflexive(a: Seq<char>)
    ensures
        spec_text_le(a, a),
    decreases a.len(),
{
    if a.len() > 0 {
        lemma_text_le_reflexive(a.drop_first());
    }
}

/// Of two texts one comes before the other or is the other.
pub proof fn lemma_text_le_total(a: Seq<char>, b: Seq<char>)
    ensures
        spec_text_le(a, b) || spec_text_le(b, a),
    decreases a.len(),
{
    if a.len() > 0 && b.len() > 0 && a[0] == b[0] {
        lemma_text_le_total(a.drop_first(), b.drop_first());
    }
}

/// What comes before a text comes before what that text comes before.
pub proof fn lemma_text_le_transitive(a: Seq<char>, b: Seq<char>, c: Seq<char>)
    requires
        spec_text_le(a, b),
        spec_text_le(b, c),
    ensures
        spec_text_le(a, c),
    decreases a.len(),
{
    if a.len() > 0 && b.len() > 0 && c.len() > 0 && a[0] == b[0] && b[0] == c[0] {
        lemma_text_le_transitive(a.drop_first(), b.drop_first(), c.drop_first());
    }
}

/// Whether `a` comes before `b` or is `b`.
pub fn text_le(a: &Vec<char>, b: &Vec<char>) -> (le: bool)
    ensures
        le == spec_text_le(a@, b@),
{
    let mut i: usize = 0;
    assert(a@.skip(0) =~= a@);
    assert(b@.skip(0) =~= b@);
    while i < a.len() && i < b.len()
        invariant
            i <= a@.len(),
            i <= b@.len(),
            spec_text_le(a@, b@) == spec_text_le(a@.skip(i as int), b@.skip(i as int)),
        decreases a@.len() - i,
    {
        proof {
            assert(a@.skip(i as int)[0] == a@[i as int]);
            assert(b@.skip(i as int)[0] == b@[i as int]);
            assert(a@.skip(i as int).drop_first() =~= a@.skip(i + 1));
            assert(b@.skip(i as int).drop_first() =~= b@.skip(i + 1));
        }
        if a[i] != b[i] {
            return a[i] < b[i];
        }
        i = i + 1;
    }
    i >= a.len()
}

/// The texts in order. Nothing is lost and nothing is added: every text
/// stands in the result as often as among `texts`.
pub fn sort_texts(texts: &Vec<String>) -> (sorted: Vec<String>)
    ensures
        spec_sorted(spec_texts(sorted@)),
        spec_texts(sorted@).to_multiset() == spec_texts(texts@).to_multiset(),
        sorted@.len() == texts@.len(),
{
    let mut sorted: Vec<String> = Vec::new();
    let mut k: usize = 0;
    proof {
        assert(spec_texts(texts@).take(0) =~= spec_texts(sorted@));
    }
    while k < texts.len()
        invariant
            k <= texts@.len(),
            sorted@.len() == k,
            spec_sorted(spec_texts(sorted@)),
            spec_texts(sorted@).to_multiset() == spec_texts(texts@).take(k as int).to_multiset(),
        decreases texts@.len() - k,
    {
        let item = texts[k].clone();
        let item_chars = chars_of(item.as_str());
        let mut at: usize = 0;
        while at < sorted.len() && text_le(&chars_of(sorted[at].as_str()), &item_chars)
            invariant
                at <= sorted@.len(),
                item_chars@ == item@,
                forall|i: int| 0 <= i < at ==> spec_text_le(spec_texts(sorted@)[i], item@),
            decreases sorted@.len() - at,
        {
            at = at + 1;
        }
        let ghost before = spec_texts(sorted@);
        sorted.insert(at, item);
        proof {
            let after = spec_texts(sorted@);
            assert(after =~= before.insert(at as int, item@));
            assert forall|i: int, j: int| 0 <= i < j < after.len() implies spec_text_le(
                after[i],
                after[j],
            ) by {
                if j == at {
                } else if i == at {
                    // the text that stopped the search comes after the item
                    lemma_text_le_total(before[at as int], item@);
                    if j - 1 > at {
                        assert(spec_text_le(before[at as int], before[j - 1]));
                    } else {
                        lemma_text_le_reflexive(before[at as int]);
                    }
                    lemma_text_le_transitive(item@, before[at as int], before[j - 1]);
                } else {
                    let bi = if i < at {
                        i
                    } else {
                        i - 1
                    };
                    let bj = if j < at {
                        j
                    } else {
                        j - 1
                    };
                    assert(spec_text_le(before[bi], before[bj]));
                }
            }
            broadcast use vstd::seq_lib::group_to_multiset_ensures;

            assert(after.remove(at as int) =~= before);
            assert(after.to_multiset().count(item@) > 0) by {
                assert(after[at as int] == item@);
                assert(after.contains(item@));
            }
            assert(after.to_multiset() =~= before.to_multiset().insert(item@));
            let taken = spec_texts(texts@).take(k as int);
            assert(spec_texts(texts@).take(k + 1) =~= taken.push(item@));
        }
        k = k + 1;
    }
    proof {
        assert(spec_texts(texts@).take(k as int) =~= spec_texts(texts@));
    }
    sorted
}

} // verus!
