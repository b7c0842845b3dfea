//! How the placeholders of a list of conditions are numbered, and where the
//! operands stand in the list of bound values.

use crate::{Assignment, Condition};
use vstd::prelude::*;

verus! {

/// The number of placeholders that the conditions take together.
pub open spec fn total_arity<V: Clone>(conditions: Seq<Condition<V>>) -> nat
    decreases conditions.len(),
{
    if conditions.len() == 0 {
        0
    } else {
        total_arity(conditions.drop_last()) + conditions.last().1.arity()
    }
}

/// The number of the first placeholder of the condition at position `k`,
/// where the first condition starts at `offset`: each condition starts where
/// the one before it has ended.
pub open spec fn first_index<V: Clone>(conditions: Seq<Condition<V>>, offset: nat, k: int) -> nat {
    offset + total_arity(conditions.take(k))
}

/// The operands of all the conditions, in the order of the conditions.
pub open spec fn bound_values<V: Clone>(conditions: Seq<Condition<V>>) -> Seq<V>
    decreases conditions.len(),
{
    if conditions.len() == 0 {
        Seq::empty()
    } else {
        bound_values(conditions.drop_last()) + conditions.last().1.values()
    }
}

/// The assigned values, in the order of the assignments.
pub open spec fn assignment_values<V: Clone>(assignments: Seq<Assignment<V>>) -> Seq<V> {
    Seq::new(assignments.len(), |k: int| assignments[k].1)
}

/// The condition at position `k` ends where the next one starts, and none
/// starts after the end of the last.
pub proof fn lemma_first_index_step<V: Clone>(conditions: Seq<Condition<V>>, offset: nat, k: int)
    requires
        0 <= k < conditions.len(),
    ensures
        first_index(conditions, offset, k + 1) == first_index(conditions, offset, k)
            + conditions[k].1.arity(),
        first_index(conditions, offset, k + 1) <= offset + total_arity(conditions),
    decreases conditions.len(),
{
    assert(conditions.take(k + 1).drop_last() =~= conditions.take(k));
    if k + 1 < conditions.len() {
        lemma_first_index_step(conditions.drop_last(), offset, k);
        assert(conditions.drop_last().take(k + 1) =~= conditions.take(k + 1));
    }
}

/// The conditions have as many operands as placeholders.
pub proof fn lemma_bound_values_len<V: Clone>(conditions: Seq<Condition<V>>)
    ensures
        bound_values(conditions).len() == total_arity(conditions),
    decreases conditions.len(),
{
    if conditions.len() > 0 {
        lemma_bound_values_len(conditions.drop_last());
    }
}

/// The operand at position `j` of the condition at position `k` is written
/// as the placeholder numbered `n = first_index(conditions, offset, k) + j`,
/// and the list of bound values holds it at index `n - offset`.
pub proof fn lemma_operand_position<V: Clone>(
    conditions: Seq<Condition<V>>,
    offset: nat,
    k: int,
    j: int,
)
    requires
        0 <= k < conditions.len(),
        0 <= j < conditions[k].1.arity(),
    ensures
        conditions[k].1.slots(first_index(conditions, offset, k))[j] == first_index(
            conditions,
            offset,
            k,
        ) + j,
        first_index(conditions, offset, k) + j < offset + bound_values(conditions).len(),
        bound_values(conditions)[first_index(conditions, offset, k) + j - offset]
            == conditions[k].1.values()[j],
    decreases conditions.len(),
{
    let front = conditions.drop_last();
    lemma_bound_values_len(front);
    if k < conditions.len() - 1 {
        lemma_operand_position(front, offset, k, j);
        assert(front.take(k) =~= conditions.take(k));
    }
}

/// The placeholder index after each condition in turn has taken its
/// placeholders, the first of them from `index` on.
pub open spec fn index_after<V: Clone>(conditions: Seq<Condition<V>>, index: nat) -> nat
    decreases conditions.len(),
{
    if conditions.len() == 0 {
        index
    } else {
        index_after(conditions.drop_first(), index + conditions.first().1.arity())
    }
}

/// After the whole list of conditions is rendered, the placeholder index
/// stands at the offset it started from plus the arities of all the
/// predicates.
pub proof fn lemma_index_after_conditions<V: Clone>(conditions: Seq<Condition<V>>, offset: nat)
    ensures
        index_after(conditions, offset) == offset + total_arity(conditions),
        index_after(conditions, offset) == first_index(
            conditions,
            offset,
            conditions.len() as int,
        ),
    decreases conditions.len(),
{
    assert(conditions.take(conditions.len() as int) =~= conditions);
    if conditions.len() > 0 {
        let rest = conditions.drop_first();
        lemma_index_after_conditions(rest, offset + conditions.first().1.arity());
        lemma_total_arity_from_front(conditions);
    }
}

/// The arities add up the same from either end.
proof fn lemma_total_arity_from_front<V: Clone>(conditions: Seq<Condition<V>>)
    requires
        conditions.len() > 0,
    ensures
        total_arity(conditions) == conditions.first().1.arity() + total_arity(
            conditions.drop_first(),
        ),
    decreases conditions.len(),
{
    if conditions.len() == 1 {
        assert(conditions.drop_first() =~= conditions.drop_last());
    } else {
        lemma_total_arity_from_front(conditions.drop_last());
        assert(conditions.drop_last().drop_first() =~= conditions.drop_first().drop_last());
    }
}

} // verus!
