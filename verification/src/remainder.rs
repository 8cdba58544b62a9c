//! What is left of a list when items are taken out of it.

use vstd::prelude::*;

verus! {

/// `part` holds some of the items of `whole`, in the order they have there:
/// `picks[j]` is the place in `whole` of item `j` of `part`.
pub open spec fn picked_from<T>(part: Seq<T>, whole: Seq<T>, picks: Seq<int>) -> bool {
    &&& picks.len() == part.len()
    &&& forall|j: int|
        0 <= j < part.len() ==> 0 <= #[trigger] picks[j] < whole.len() && part[j] == whole[picks[j]]
    &&& forall|j: int, k: int| 0 <= j < k < part.len() ==> picks[j] < picks[k]
}

/// `part` is `whole` with some items taken out.
pub open spec fn is_remainder<T>(part: Seq<T>, whole: Seq<T>) -> bool {
    exists|picks: Seq<int>| picked_from(part, whole, picks)
}

/// `whole` is parted into `stay` and `left`: each item of `whole` is in
/// exactly one of the two, and both keep the order that the items have in
/// `whole`. Nothing is lost and nothing is added.
pub open spec fn parted<T>(whole: Seq<T>, stay: Seq<T>, left: Seq<T>) -> bool
    decreases whole.len(),
{
    if whole.len() == 0 {
        stay.len() == 0 && left.len() == 0
    } else {
        ||| (stay.len() > 0 && stay.last() == whole.last() && parted(
            whole.drop_last(),
            stay.drop_last(),
            left,
        ))
        ||| (left.len() > 0 && left.last() == whole.last() && parted(
            whole.drop_last(),
            stay,
            left.drop_last(),
        ))
    }
}

/// Items that all stay can be added at the end of a parted list.
pub proof fn lemma_parted_rest<T>(whole: Seq<T>, stay: Seq<T>, left: Seq<T>, rest: Seq<T>)
    requires
        parted(whole, stay, left),
    ensures
        parted(whole + rest, stay + rest, left),
    decreases rest.len(),
{
    if rest.len() == 0 {
        assert(whole + rest =~= whole);
        assert(stay + rest =~= stay);
    } else {
        lemma_parted_rest(whole, stay, left, rest.drop_last());
        assert((whole + rest).drop_last() =~= whole + rest.drop_last());
        assert((stay + rest).drop_last() =~= stay + rest.drop_last());
        assert((whole + rest).last() == rest.last());
        assert((stay + rest).last() == rest.last());
    }
}

/// The sizes of the two parts add up to the size of the whole.
pub proof fn lemma_parted_sizes<T>(whole: Seq<T>, stay: Seq<T>, left: Seq<T>)
    requires
        parted(whole, stay, left),
    ensures
        whole.len() == stay.len() + left.len(),
    decreases whole.len(),
{
    if whole.len() > 0 {
        if stay.len() > 0 && stay.last() == whole.last() && parted(
            whole.drop_last(),
            stay.drop_last(),
            left,
        ) {
            lemma_parted_sizes(whole.drop_last(), stay.drop_last(), left);
        } else {
            lemma_parted_sizes(whole.drop_last(), stay, left.drop_last());
        }
    }
}

/// The step of a walk through a list in which the item at hand stays.
pub proof fn lemma_parted_stays<T>(whole: Seq<T>, stay: Seq<T>, left: Seq<T>, place: int)
    requires
        0 <= place < stay.len(),
        place + left.len() < whole.len(),
        parted(whole.subrange(0, place + left.len()), stay.subrange(0, place), left),
        stay[place] == whole[place + left.len()],
    ensures
        parted(whole.subrange(0, place + 1 + left.len()), stay.subrange(0, place + 1), left),
{
    let more = whole.subrange(0, place + 1 + left.len());
    let kept = stay.subrange(0, place + 1);
    assert(more.drop_last() =~= whole.subrange(0, place + left.len()));
    assert(kept.drop_last() =~= stay.subrange(0, place));
    assert(more.last() == kept.last());
}

/// The step of a walk through a list in which the item at hand leaves.
pub proof fn lemma_parted_leaves<T>(whole: Seq<T>, stay: Seq<T>, left: Seq<T>, place: int)
    requires
        0 <= place < stay.len(),
        place + left.len() < whole.len(),
        parted(whole.subrange(0, place + left.len()), stay.subrange(0, place), left),
        stay[place] == whole[place + left.len()],
    ensures
        parted(
            whole.subrange(0, place + left.len() + 1),
            stay.remove(place).subrange(0, place),
            left.push(stay[place]),
        ),
{
    let more = whole.subrange(0, place + left.len() + 1);
    let gone = left.push(stay[place]);
    assert(more.drop_last() =~= whole.subrange(0, place + left.len()));
    assert(gone.drop_last() =~= left);
    assert(stay.remove(place).subrange(0, place) =~= stay.subrange(0, place));
    assert(more.last() == gone.last());
}

/// Every list is what remains of itself when nothing is taken out.
pub proof fn lemma_whole_is_remainder<T>(whole: Seq<T>)
    ensures
        is_remainder(whole, whole),
{
    let picks = Seq::new(whole.len(), |j: int| j);
    assert(picked_from(whole, whole, picks));
}

/// Taking one more item out of a remainder leaves a remainder.
pub proof fn lemma_remove_keeps_picks<T>(part: Seq<T>, whole: Seq<T>, picks: Seq<int>, i: int)
    requires
        picked_from(part, whole, picks),
        0 <= i < part.len(),
    ensures
        is_remainder(part.remove(i), whole),
{
    let rest = picks.remove(i);
    assert forall|j: int| 0 <= j < part.remove(i).len() implies 0 <= #[trigger] rest[j]
        < whole.len() && part.remove(i)[j] == whole[rest[j]] by {
        if j < i {
            assert(rest[j] == picks[j]);
        } else {
            assert(rest[j] == picks[j + 1]);
        }
    }
    assert forall|j: int, k: int| 0 <= j < k < part.remove(i).len() implies rest[j] < rest[k] by {
        let j0 = if j < i { j } else { j + 1 };
        let k0 = if k < i { k } else { k + 1 };
        assert(rest[j] == picks[j0]);
        assert(rest[k] == picks[k0]);
    }
    assert(picked_from(part.remove(i), whole, rest));
}

} // verus!
