//! Facts about the models of vectors.

use vstd::prelude::*;

verus! {

/// Pushing an element pushes its model.
pub broadcast proof fn lemma_deep_push<T: DeepView>(before: Vec<T>, after: Vec<T>, item: T)
    requires
        #[trigger] after@ == #[trigger] before@.push(item),
    ensures
        after.deep_view() == before.deep_view().push(item.deep_view()),
{
    assert(after.deep_view() =~= before.deep_view().push(item.deep_view()));
}

/// One more element of the prefix is the prefix with that element pushed.
pub proof fn lemma_take_push<T>(items: Seq<T>, index: int)
    requires
        0 <= index < items.len(),
    ensures
        items.take(index + 1) == items.take(index).push(items[index]),
        items.take(index + 1).drop_last() == items.take(index),
        items.take(index + 1).last() == items[index],
{
    assert(items.take(index + 1) =~= items.take(index).push(items[index]));
    assert(items.take(index + 1).drop_last() =~= items.take(index));
}

/// The prefix of the full length is the whole.
pub proof fn lemma_take_all<T>(items: Seq<T>)
    ensures
        items.take(items.len() as int) == items,
        items.take(0) == Seq::<T>::empty(),
{
    assert(items.take(items.len() as int) =~= items);
    assert(items.take(0) =~= Seq::<T>::empty());
}

/// What one item contributes to a collection that stops at the first failure.
pub enum Step<T, E> {
    Keep(T),
    Skip,
    Fail(E),
}

/// The kept items in order, or the first failure.
pub open spec fn collected<T, E>(steps: Seq<Step<T, E>>) -> Result<Seq<T>, E>
    decreases steps.len(),
{
    if steps.len() == 0 {
        Ok(Seq::empty())
    } else {
        match collected(steps.drop_last()) {
            Err(error) => Err(error),
            Ok(kept) => match steps.last() {
                Step::Keep(item) => Ok(kept.push(item)),
                Step::Skip => Ok(kept),
                Step::Fail(error) => Err(error),
            },
        }
    }
}

/// Steps after others collect after them, unless an earlier step failed.
pub proof fn lemma_collected_concat<T, E>(first: Seq<Step<T, E>>, second: Seq<Step<T, E>>)
    ensures
        collected(first + second) == match collected(first) {
            Err(error) => Err(error),
            Ok(kept) => match collected(second) {
                Err(error) => Err(error),
                Ok(more) => Ok(kept + more),
            },
        },
    decreases second.len(),
{
    if second.len() == 0 {
        assert(first + second =~= first);
        if let Ok(kept) = collected(first) {
            assert(kept + Seq::empty() =~= kept);
        }
    } else {
        lemma_collected_concat(first, second.drop_last());
        assert((first + second).drop_last() =~= first + second.drop_last());
        assert((first + second).last() == second.last());
        if let (Ok(kept), Ok(more)) = (collected(first), collected(second.drop_last())) {
            if let Step::Keep(item) = second.last() {
                assert((kept + more).push(item) =~= kept + more.push(item));
            }
        }
    }
}

/// One more step of a prefix.
pub proof fn lemma_collected_step<T, E>(steps: Seq<Step<T, E>>, index: int)
    requires
        0 <= index < steps.len(),
    ensures
        collected(steps.take(index + 1)) == match collected(steps.take(index)) {
            Err(error) => Err(error),
            Ok(kept) => match steps[index] {
                Step::Keep(item) => Ok(kept.push(item)),
                Step::Skip => Ok(kept),
                Step::Fail(error) => Err(error),
            },
        },
        collected(steps.take(index + 1)) is Err ==> collected(steps) == collected(steps.take(index + 1)),
{
    lemma_take_push(steps, index);
    let rest = steps.skip(index + 1);
    assert(steps =~= steps.take(index + 1) + rest);
    lemma_collected_concat(steps.take(index + 1), rest);
}

/// A collection that succeeded met no failure.
pub proof fn lemma_collected_has_no_failure<T, E>(steps: Seq<Step<T, E>>, index: int)
    requires
        collected(steps) is Ok,
        0 <= index < steps.len(),
    ensures
        !(steps[index] is Fail),
    decreases steps.len(),
{
    if index < steps.len() - 1 {
        lemma_collected_has_no_failure(steps.drop_last(), index);
    }
}

/// Every collected item was kept by some step.
pub proof fn lemma_collected_source<T, E>(steps: Seq<Step<T, E>>, index: int) -> (source: int)
    requires
        collected(steps) is Ok,
        0 <= index < collected(steps)->Ok_0.len(),
    ensures
        0 <= source < steps.len(),
        steps[source] == Step::<T, E>::Keep(collected(steps)->Ok_0[index]),
    decreases steps.len(),
{
    let kept = collected(steps.drop_last())->Ok_0;
    if index < kept.len() {
        lemma_collected_source(steps.drop_last(), index)
    } else {
        steps.len() - 1
    }
}

/// A collection without a failing step is gathered whole.
pub proof fn lemma_collected_without_failure<T, E>(steps: Seq<Step<T, E>>)
    requires
        forall|index: int| 0 <= index < steps.len() ==> !((#[trigger] steps[index]) is Fail),
    ensures
        collected(steps) is Ok,
    decreases steps.len(),
{
    if steps.len() > 0 {
        let rest = steps.drop_last();
        assert forall|index: int| 0 <= index < rest.len() implies !((#[trigger] rest[index]) is Fail) by {
            assert(rest[index] == steps[index]);
        }
        lemma_collected_without_failure(rest);
        assert(!(steps[steps.len() - 1] is Fail));
    }
}

} // verus!
