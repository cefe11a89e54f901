//! The order in which artifact paths are passed where a command must not
//! depend on the order they were found in: lexicographic by character.

use vstd::prelude::*;
use vstd::relations::{sorted_by, total_ordering};
use vstd::seq_lib::{lemma_sorted_unique, to_multiset_build, to_multiset_insert};

verus! {

/// `left` comes no later than `right` in the lexicographic order of their
/// characters: a text precedes every text it is a proper prefix of, and
/// otherwise the first character that differs decides.
pub open spec fn text_le(left: Seq<char>, right: Seq<char>) -> bool
    decreases left.len(),
{
    if left.len() == 0 {
        true
    } else if right.len() == 0 {
        false
    } else if left[0] != right[0] {
        left[0] < right[0]
    } else {
        text_le(left.drop_first(), right.drop_first())
    }
}

/// `text_le` as a relation.
pub open spec fn text_order() -> spec_fn(Seq<char>, Seq<char>) -> bool {
    |left: Seq<char>, right: Seq<char>| text_le(left, right)
}

/// The texts in lexicographic order.
pub open spec fn sorted_texts(texts: Seq<Seq<char>>) -> Seq<Seq<char>> {
    texts.sort_by(text_order())
}

/// Every text comes no later than itself.
pub proof fn lemma_text_le_reflexive(text: Seq<char>)
    ensures
        text_le(text, text),
    decreases text.len(),
{
    if text.len() > 0 {
        lemma_text_le_reflexive(text.drop_first());
    }
}

/// Two texts that each come no later than the other are the same text.
pub proof fn lemma_text_le_antisymmetric(left: Seq<char>, right: Seq<char>)
    requires
        text_le(left, right),
        text_le(right, left),
    ensures
        left == right,
    decreases left.len(),
{
    if left.len() == 0 || right.len() == 0 {
        assert(left =~= right);
    } else {
        lemma_text_le_antisymmetric(left.drop_first(), right.drop_first());
        assert(left =~= seq![left[0]] + left.drop_first());
        assert(right =~= seq![right[0]] + right.drop_first());
    }
}

/// The order is transitive.
pub proof fn lemma_text_le_transitive(first: Seq<char>, second: Seq<char>, third: Seq<char>)
    requires
        text_le(first, second),
        text_le(second, third),
    ensures
        text_le(first, third),
    decreases first.len(),
{
    if first.len() > 0 && second.len() > 0 && third.len() > 0 {
        if first[0] == second[0] && second[0] == third[0] {
            lemma_text_le_transitive(
                first.drop_first(),
                second.drop_first(),
                third.drop_first(),
            );
        }
    }
}

/// Of two texts, one comes no later than the other.
pub proof fn lemma_text_le_total(left: Seq<char>, right: Seq<char>)
    ensures
        text_le(left, right) || text_le(right, left),
    decreases left.len(),
{
    if left.len() > 0 && right.len() > 0 && left[0] == right[0] {
        lemma_text_le_total(left.drop_first(), right.drop_first());
    }
}

/// The lexicographic order is a total order.
pub proof fn lemma_text_order_total()
    ensures
        total_ordering(text_order()),
{
    let order = text_order();
    assert forall|text: Seq<char>| #[trigger] order(text, text) by {
        lemma_text_le_reflexive(text);
    }
    assert forall|left: Seq<char>, right: Seq<char>|
        #[trigger] order(left, right) && #[trigger] order(right, left) implies left == right by {
        lemma_text_le_antisymmetric(left, right);
    }
    assert forall|first: Seq<char>, second: Seq<char>, third: Seq<char>|
        #[trigger] order(first, second) && #[trigger] order(second, third) implies order(
        first,
        third,
    ) by {
        lemma_text_le_transitive(first, second, third);
    }
    assert forall|left: Seq<char>, right: Seq<char>|
        #[trigger] order(left, right) || #[trigger] order(right, left) by {
        lemma_text_le_total(left, right);
    }
}

/// Sorting gives a sorted list of the same texts, each as often as before.
pub proof fn lemma_sorted_texts(texts: Seq<Seq<char>>)
    ensures
        sorted_by(sorted_texts(texts), text_order()),
        sorted_texts(texts).to_multiset() == texts.to_multiset(),
        sorted_texts(texts).len() == texts.len(),
{
    lemma_text_order_total();
    texts.lemma_sort_by_ensures(text_order());
    texts.to_multiset_ensures();
    sorted_texts(texts).to_multiset_ensures();
}

/// A sorted list of the same texts is the sorted list: the order in which
/// the texts were given leaves no trace.
pub proof fn lemma_sorted_texts_unique(texts: Seq<Seq<char>>, sorted: Seq<Seq<char>>)
    requires
        sorted_by(sorted, text_order()),
        sorted.to_multiset() == texts.to_multiset(),
    ensures
        sorted == sorted_texts(texts),
{
    lemma_text_order_total();
    lemma_sorted_texts(texts);
    lemma_sorted_unique(sorted, sorted_texts(texts), text_order());
}

/// The characters of a text, one by one.
pub fn chars_of(text: &str) -> (chars: Vec<char>)
    ensures
        chars@ == text@,
{
    let mut chars: Vec<char> = Vec::new();
    for c in it: text.chars()
        invariant
            it.seq() == text@,
            chars@ == it.seq().take(it.index() as int),
    {
        chars.push(c);
        assert(chars@ =~= it.seq().take(it.index() + 1));
    }
    assert(chars@ =~= text@);
    chars
}

/// Whether `left` comes no later than `right`.
pub fn chars_le(left: &Vec<char>, right: &Vec<char>) -> (le: bool)
    ensures
        le == text_le(left@, right@),
{
    let mut i: usize = 0;
    assert(left@.skip(0) =~= left@);
    assert(right@.skip(0) =~= right@);
    while i < left.len() && i < right.len()
        invariant
            i <= left.len(),
            i <= right.len(),
            text_le(left@, right@) == text_le(left@.skip(i as int), right@.skip(i as int)),
        decreases left.len() - i,
    {
        let ghost left_rest = left@.skip(i as int);
        let ghost right_rest = right@.skip(i as int);
        assert(left_rest[0] == left@[i as int]);
        assert(right_rest[0] == right@[i as int]);
        if left[i] != right[i] {
            return left[i] < right[i];
        }
        assert(left_rest.drop_first() =~= left@.skip(i + 1));
        assert(right_rest.drop_first() =~= right@.skip(i + 1));
        i += 1;
    }
    assert(left@.skip(i as int).len() == left.len() - i);
    assert(right@.skip(i as int).len() == right.len() - i);
    left.len() <= right.len()
}

/// Whether the text `left` comes no later than the text `right`.
pub fn text_le_exec(left: &str, right: &str) -> (le: bool)
    ensures
        le == text_le(left@, right@),
{
    let left_chars = chars_of(left);
    let right_chars = chars_of(right);
    chars_le(&left_chars, &right_chars)
}

/// The texts in lexicographic order, whatever order they were given in.
pub fn sort_texts(texts: &[String]) -> (sorted: Vec<String>)
    ensures
        sorted.deep_view() == sorted_texts(texts.deep_view()),
{
    let mut sorted: Vec<String> = Vec::new();
    let mut i: usize = 0;
    assert(texts.deep_view().take(0) =~= sorted.deep_view());
    while i < texts.len()
        invariant
            i <= texts.len(),
            sorted_by(sorted.deep_view(), text_order()),
            sorted.deep_view().to_multiset() == texts.deep_view().take(i as int).to_multiset(),
        decreases texts.len() - i,
    {
        let text = texts[i].as_str();
        let mut place: usize = sorted.len();
        while place > 0 && !text_le_exec(sorted[place - 1].as_str(), text)
            invariant
                place <= sorted.len(),
                forall|k: int|
                    place <= k < sorted.len() ==> text_le(text@, #[trigger] sorted.deep_view()[k]),
            decreases place,
        {
            proof {
                lemma_text_le_total(sorted.deep_view()[place - 1], text@);
            }
            place -= 1;
        }
        let ghost before = sorted.deep_view();
        proof {
            assert forall|k: int| 0 <= k < place implies text_le(#[trigger] before[k], text@) by {
                if k < place - 1 {
                    assert(text_order()(before[k], before[place - 1]));
                } else {
                    lemma_text_le_reflexive(before[k]);
                }
                lemma_text_le_transitive(before[k], before[place - 1], text@);
            }
        }
        sorted.insert(place, texts[i].clone());
        proof {
            let after = sorted.deep_view();
            assert(after =~= before.insert(place as int, text@));
            assert forall|a: int, b: int| 0 <= a < b < after.len() implies #[trigger] text_order()(
                after[a],
                after[b],
            ) by {
                if a < place && b > place {
                    assert(text_order()(before[a], before[b - 1]));
                } else if a > place {
                    assert(text_order()(before[a - 1], before[b - 1]));
                } else if b < place {
                    assert(text_order()(before[a], before[b]));
                }
            }
            let taken = texts.deep_view().take(i as int);
            assert(texts.deep_view().take(i + 1) =~= taken.push(text@));
            to_multiset_insert(before, place as int, text@);
            to_multiset_build(taken, text@);
        }
        i += 1;
    }
    proof {
        assert(texts.deep_view().take(i as int) =~= texts.deep_view());
        lemma_sorted_texts_unique(texts.deep_view(), sorted.deep_view());
    }
    sorted
}

} // verus!
