//! Fragments that differ at most in the values they bind give the same
//! text.

use crate::numbering::{first_index, total_arity};
use crate::util::{
    assignment_list_text, assignment_names, assignment_text, condition_list_text, condition_text,
    order_list_text, order_text, where_text,
};
use crate::{Assignment, Condition, Order};
use vstd::prelude::*;

verus! {

/// Whether two lists of conditions differ at most in the values of the
/// operands: the conditions at each position name the same column and have
/// predicates of the same form.
pub open spec fn same_conditions<V: Clone>(
    left: Seq<Condition<V>>,
    right: Seq<Condition<V>>,
) -> bool {
    &&& left.len() == right.len()
    &&& forall|k: int|
        0 <= k < left.len() ==> (#[trigger] left[k]).0@ == right[k].0@ && left[k].1.same_form(
            &right[k].1,
        )
}

/// Whether two lists of orderings name the same columns and directions.
pub open spec fn same_orders(left: Seq<Order>, right: Seq<Order>) -> bool {
    &&& left.len() == right.len()
    &&& forall|k: int|
        0 <= k < left.len() ==> (#[trigger] left[k]).0@ == right[k].0@ && left[k].1 == right[k].1
}

/// Conditions that differ at most in the values of the operands take the
/// same number of placeholders.
pub proof fn lemma_same_conditions_same_arity<V: Clone>(
    left: Seq<Condition<V>>,
    right: Seq<Condition<V>>,
)
    requires
        same_conditions(left, right),
    ensures
        total_arity(left) == total_arity(right),
    decreases left.len(),
{
    if left.len() > 0 {
        lemma_same_conditions_same_arity(left.drop_last(), right.drop_last());
    }
}

/// The text of a list of conditions does not depend on the values of the
/// operands.
pub proof fn lemma_same_conditions_same_text<V: Clone>(
    left: Seq<Condition<V>>,
    right: Seq<Condition<V>>,
    offset: nat,
)
    requires
        same_conditions(left, right),
    ensures
        condition_list_text(left, offset) == condition_list_text(right, offset),
        where_text(left, offset) == where_text(right, offset),
{
    let left_parts = Seq::new(left.len(), |k: int| condition_text(left, offset, k));
    let right_parts = Seq::new(right.len(), |k: int| condition_text(right, offset, k));
    assert forall|k: int| 0 <= k < left.len() implies left_parts[k] == right_parts[k] by {
        assert(same_conditions(left.take(k), right.take(k)));
        lemma_same_conditions_same_arity(left.take(k), right.take(k));
    }
    assert(left_parts =~= right_parts);
}

/// The text of a list of assignments depends on the columns only.
pub proof fn lemma_same_columns_same_text<V>(
    left: Seq<Assignment<V>>,
    right: Seq<Assignment<V>>,
    offset: nat,
)
    requires
        assignment_names(left) == assignment_names(right),
    ensures
        left.len() == right.len(),
        assignment_list_text(left, offset) == assignment_list_text(right, offset),
{
    assert(left.len() == assignment_names(left).len());
    let left_parts = Seq::new(
        left.len(),
        |k: int| assignment_text(left[k], (offset + k) as nat),
    );
    let right_parts = Seq::new(
        right.len(),
        |k: int| assignment_text(right[k], (offset + k) as nat),
    );
    assert forall|k: int| 0 <= k < left.len() implies left_parts[k] == right_parts[k] by {
        assert(assignment_names(left)[k] == assignment_names(right)[k]);
    }
    assert(left_parts =~= right_parts);
}

/// The text of a list of orderings depends on the columns and directions
/// only.
pub proof fn lemma_same_orders_same_text(left: Seq<Order>, right: Seq<Order>)
    requires
        same_orders(left, right),
    ensures
        order_list_text(left) == order_list_text(right),
{
    let left_parts = Seq::new(left.len(), |k: int| order_text(left[k]));
    let right_parts = Seq::new(right.len(), |k: int| order_text(right[k]));
    assert(left_parts =~= right_parts);
}

} // verus!
