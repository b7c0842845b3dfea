//! Rendering of the sub-clauses shared by all statements.

use crate::numbering::{
    assignment_values, bound_values, first_index, lemma_first_index_step, total_arity,
};
use crate::text::{as_str, join, joined, numbers, placeholder, placeholder_string};
use crate::{
    Assignment, Assignments, Condition, Conditions, Order, Orders, Selection, Selections,
};
use std::borrow::Cow;
use vstd::prelude::*;

verus! {

/// The text in which every double quote of `text` stands twice.
pub open spec fn doubled_quotes(text: Seq<char>) -> Seq<char>
    decreases text.len(),
{
    if text.len() == 0 {
        Seq::empty()
    } else if text.last() == '"' {
        doubled_quotes(text.drop_last()) + seq!['"', '"']
    } else {
        doubled_quotes(text.drop_last()).push(text.last())
    }
}

/// An identifier as a quoted identifier: between double quotes, each double
/// quote of its own doubled.
pub open spec fn escaped(keyword: Seq<char>) -> Seq<char> {
    seq!['"'] + doubled_quotes(keyword) + seq!['"']
}

/// Quotes an identifier, so that it can stand as a table or column name
/// whatever characters it holds.
pub fn escape(keyword: &str) -> (s: String)
    ensures
        s@ == escaped(keyword@),
{
    let mut result = String::new();
    result.push('"');
    for c in it: keyword.chars()
        invariant
            it.seq() == keyword@,
            result@ == seq!['"'] + doubled_quotes(keyword@.take(it.index() as int)),
    {
        proof {
            assert(keyword@.take(it.index() + 1).drop_last() =~= keyword@.take(it.index() as int));
        }
        if c == '"' {
            result.push('"');
            result.push('"');
        } else {
            result.push(c);
        }
    }
    result.push('"');
    proof {
        assert(keyword@.take(keyword@.len() as int) =~= keyword@);
    }
    result
}

/// The text of [`placeholders`]: the placeholders of `n` values in a row,
/// the first of them numbered `offset`.
pub open spec fn placeholders_text(offset: nat, n: nat) -> Seq<char> {
    joined(numbers(offset, n).map_values(|m: nat| placeholder(m)), ", "@)
}

/// Renders the placeholders of `n` values in a row, the first of them
/// numbered `offset`: `$3, $4, $5` for three values from 3 on.
pub fn placeholders(offset: usize, n: usize) -> (s: String)
    requires
        offset + n <= usize::MAX,
    ensures
        s@ == placeholders_text(offset as nat, n as nat),
{
    let mut parts: Vec<String> = Vec::new();
    let mut k: usize = 0;
    while k < n
        invariant
            k <= n,
            offset + n <= usize::MAX,
            parts@.len() == k,
            forall|i: int|
                0 <= i < k ==> (#[trigger] parts@[i])@ == placeholder((offset + i) as nat),
        decreases n - k,
    {
        parts.push(placeholder_string(offset + k));
        k += 1;
    }
    proof {
        reveal_strlit(", ");
        assert(parts.deep_view() =~= numbers(offset as nat, n as nat).map_values(
            |m: nat| placeholder(m),
        ));
    }
    join(&parts, ", ")
}

/// The text of [`keyword_list`]: the keywords in order, with `, ` between
/// them.
pub open spec fn keyword_list_text(keywords: Seq<Seq<char>>) -> Seq<char> {
    joined(keywords, ", "@)
}

/// The texts of the keywords.
pub open spec fn keyword_texts(keywords: Seq<&Cow<'static, str>>) -> Seq<Seq<char>> {
    Seq::new(keywords.len(), |k: int| keywords[k]@)
}

/// Renders a list of column names.
pub fn keyword_list(keywords: &Vec<&Cow<'static, str>>) -> (s: String)
    ensures
        s@ == keyword_list_text(keyword_texts(keywords@)),
{
    let mut parts: Vec<String> = Vec::new();
    let mut k: usize = 0;
    while k < keywords.len()
        invariant
            k <= keywords.len(),
            parts@.len() == k,
            forall|i: int| 0 <= i < k ==> (#[trigger] parts@[i])@ == keywords@[i]@,
        decreases keywords.len() - k,
    {
        parts.push(as_str(keywords[k]).to_owned());
        k += 1;
    }
    proof {
        reveal_strlit(", ");
        assert(parts.deep_view() =~= keyword_texts(keywords@));
    }
    join(&parts, ", ")
}

/// The text of one assignment whose value is bound to the placeholder
/// numbered `n`.
pub open spec fn assignment_text<V>(assignment: Assignment<V>, n: nat) -> Seq<char> {
    assignment.0@ + " = "@ + placeholder(n)
}

/// The text of [`assignment_list`]: the assignment at position `k` takes the
/// placeholder numbered `offset + k`.
pub open spec fn assignment_list_text<V>(assignments: Seq<Assignment<V>>, offset: nat) -> Seq<
    char,
> {
    joined(
        Seq::new(
            assignments.len(),
            |k: int| assignment_text(assignments[k], (offset + k) as nat),
        ),
        ", "@,
    )
}

/// Renders the assignments of an `UPDATE`, whose values are bound to the
/// placeholders numbered `offset`, `offset + 1`, ...
pub fn assignment_list<V>(assignments: &Assignments<V>, offset: usize) -> (s: String)
    requires
        assignments.len() > 0 ==> offset + assignments.len() - 1 <= usize::MAX,
    ensures
        s@ == assignment_list_text(assignments@, offset as nat),
{
    let mut parts: Vec<String> = Vec::new();
    let mut k: usize = 0;
    while k < assignments.len()
        invariant
            k <= assignments.len(),
            assignments.len() > 0 ==> offset + assignments.len() - 1 <= usize::MAX,
            parts@.len() == k,
            forall|i: int|
                0 <= i < k ==> (#[trigger] parts@[i])@ == assignment_text(
                    assignments@[i],
                    (offset + i) as nat,
                ),
        decreases assignments.len() - k,
    {
        let mut part = as_str(&assignments[k].0).to_owned();
        part.append(" = ");
        part.append(placeholder_string(offset + k).as_str());
        parts.push(part);
        k += 1;
    }
    proof {
        reveal_strlit(", ");
        assert(parts.deep_view() =~= Seq::new(
            assignments@.len(),
            |k: int| assignment_text(assignments@[k], (offset + k) as nat),
        ));
    }
    join(&parts, ", ")
}

/// The text of the condition at position `k`.
pub open spec fn condition_text<V: Clone>(
    conditions: Seq<Condition<V>>,
    offset: nat,
    k: int,
) -> Seq<char> {
    conditions[k].0@ + " "@ + conditions[k].1.placeholder_text(first_index(conditions, offset, k))
}

/// The text of [`condition_list`]: the conditions in order, with ` AND `
/// between them, numbered from `offset` on without a gap.
pub open spec fn condition_list_text<V: Clone>(
    conditions: Seq<Condition<V>>,
    offset: nat,
) -> Seq<char> {
    joined(
        Seq::new(conditions.len(), |k: int| condition_text(conditions, offset, k)),
        " AND "@,
    )
}

/// Renders the conditions of a `WHERE` clause, the first placeholder
/// numbered `*placeholder_idx`, and moves the index past the placeholders of
/// all the conditions: by the sum of the arities of their predicates.
pub fn render_conditions<V: Clone>(
    conditions: &Conditions<V>,
    placeholder_idx: &mut usize,
) -> (s: String)
    requires
        *old(placeholder_idx) + total_arity(conditions@) <= usize::MAX,
    ensures
        s@ == condition_list_text(conditions@, *old(placeholder_idx) as nat),
        *final(placeholder_idx) == *old(placeholder_idx) + total_arity(conditions@),
{
    let ghost offset = *placeholder_idx as nat;
    let mut parts: Vec<String> = Vec::new();
    let mut k: usize = 0;
    while k < conditions.len()
        invariant
            k <= conditions.len(),
            offset + total_arity(conditions@) <= usize::MAX,
            *placeholder_idx == first_index(conditions@, offset, k as int),
            parts@.len() == k,
            forall|i: int|
                0 <= i < k ==> (#[trigger] parts@[i])@ == condition_text(conditions@, offset, i),
        decreases conditions.len() - k,
    {
        proof {
            lemma_first_index_step(conditions@, offset, k as int);
        }
        let mut part = as_str(&conditions[k].0).to_owned();
        part.append(" ");
        part.append(as_str(&conditions[k].1.to_placeholder_string(placeholder_idx)));
        parts.push(part);
        k += 1;
    }
    proof {
        reveal_strlit(" AND ");
        assert(conditions@.take(conditions@.len() as int) =~= conditions@);
        assert(parts.deep_view() =~= Seq::new(
            conditions@.len(),
            |k: int| condition_text(conditions@, offset, k),
        ));
    }
    join(&parts, " AND ")
}

/// Renders the conditions of a `WHERE` clause, whose placeholders are
/// numbered from `offset` on.
pub fn condition_list<V: Clone>(conditions: &Conditions<V>, offset: usize) -> (s: String)
    requires
        offset + total_arity(conditions@) <= usize::MAX,
    ensures
        s@ == condition_list_text(conditions@, offset as nat),
{
    let mut placeholder_idx = offset;
    render_conditions(conditions, &mut placeholder_idx)
}

/// The text of one ordering.
pub open spec fn order_text(order: Order) -> Seq<char> {
    order.0@ + " "@ + order.1.text()
}

/// The text of [`order_list`]: the orderings in order, with `, ` between
/// them.
pub open spec fn order_list_text(orders: Seq<Order>) -> Seq<char> {
    joined(Seq::new(orders.len(), |k: int| order_text(orders[k])), ", "@)
}

/// Renders the orderings of an `ORDER BY` clause.
pub fn order_list(orders: &Orders) -> (s: String)
    ensures
        s@ == order_list_text(orders@),
{
    let mut parts: Vec<String> = Vec::new();
    let mut k: usize = 0;
    while k < orders.len()
        invariant
            k <= orders.len(),
            parts@.len() == k,
            forall|i: int| 0 <= i < k ==> (#[trigger] parts@[i])@ == order_text(orders@[i]),
        decreases orders.len() - k,
    {
        let mut part = as_str(&orders[k].0).to_owned();
        part.append(" ");
        part.append(orders[k].1.to_string().as_str());
        parts.push(part);
        k += 1;
    }
    proof {
        reveal_strlit(", ");
        assert(parts.deep_view() =~= Seq::new(orders@.len(), |k: int| order_text(orders@[k])));
    }
    join(&parts, ", ")
}

/// The `WHERE` clause of a statement: nothing where there is no condition.
pub open spec fn where_text<V: Clone>(conditions: Seq<Condition<V>>, offset: nat) -> Seq<char> {
    if conditions.len() > 0 {
        " WHERE "@ + condition_list_text(conditions, offset)
    } else {
        Seq::empty()
    }
}

/// Appends the `WHERE` clause of the conditions to a statement.
pub fn push_where<V: Clone>(query: &mut String, conditions: &Conditions<V>, offset: usize)
    requires
        offset + total_arity(conditions@) <= usize::MAX,
    ensures
        final(query)@ == old(query)@ + where_text(conditions@, offset as nat),
{
    if !conditions.is_empty() {
        query.append(" WHERE ");
        query.append(condition_list(conditions, offset).as_str());
    }
}

/// The names of the selected columns.
pub open spec fn selection_names(selections: Seq<Selection>) -> Seq<Seq<char>> {
    Seq::new(selections.len(), |k: int| selections[k].0@)
}

/// The names of the selected columns, in order.
pub fn selected_columns(selections: &Selections) -> (names: Vec<&Cow<'static, str>>)
    ensures
        keyword_texts(names@) == selection_names(selections@),
{
    let mut names: Vec<&Cow<'static, str>> = Vec::new();
    let mut k: usize = 0;
    while k < selections.len()
        invariant
            k <= selections.len(),
            names@.len() == k,
            forall|i: int| 0 <= i < k ==> (#[trigger] names@[i])@ == selections@[i].0@,
        decreases selections.len() - k,
    {
        names.push(&selections[k].0);
        k += 1;
    }
    names
}

/// The `RETURNING` clause of a statement: nothing where no column is
/// selected.
pub open spec fn returning_text(selections: Seq<Selection>) -> Seq<char> {
    if selections.len() > 0 {
        " RETURNING "@ + keyword_list_text(selection_names(selections))
    } else {
        Seq::empty()
    }
}

/// Appends the `RETURNING` clause of the selected columns to a statement.
pub fn push_returning(query: &mut String, selections: &Selections)
    ensures
        final(query)@ == old(query)@ + returning_text(selections@),
{
    if !selections.is_empty() {
        query.append(" RETURNING ");
        query.append(keyword_list(&selected_columns(selections)).as_str());
    }
}

/// The names of the assigned columns.
pub open spec fn assignment_names<V>(assignments: Seq<Assignment<V>>) -> Seq<Seq<char>> {
    Seq::new(assignments.len(), |k: int| assignments[k].0@)
}

/// The names of the assigned columns, in order.
pub fn assigned_columns<V>(assignments: &Assignments<V>) -> (names: Vec<&Cow<'static, str>>)
    ensures
        keyword_texts(names@) == assignment_names(assignments@),
{
    let mut names: Vec<&Cow<'static, str>> = Vec::new();
    let mut k: usize = 0;
    while k < assignments.len()
        invariant
            k <= assignments.len(),
            names@.len() == k,
            forall|i: int| 0 <= i < k ==> (#[trigger] names@[i])@ == assignments@[i].0@,
        decreases assignments.len() - k,
    {
        names.push(&assignments[k].0);
        k += 1;
    }
    names
}

/// Collects the assigned values, in the order of the assignments.
pub fn assigned_values<V: Copy>(assignments: &Assignments<V>) -> (values: Vec<V>)
    ensures
        values@ == assignment_values(assignments@),
{
    let mut values: Vec<V> = Vec::new();
    let mut k: usize = 0;
    while k < assignments.len()
        invariant
            k <= assignments.len(),
            values@.len() == k,
            forall|i: int| 0 <= i < k ==> #[trigger] values@[i] == assignments@[i].1,
        decreases assignments.len() - k,
    {
        values.push(assignments[k].1);
        k += 1;
    }
    values
}

/// Collects the operands of all the conditions, in the order of the
/// conditions and, within one condition, from left to right.
pub fn condition_values<V: Copy>(conditions: Conditions<V>) -> (values: Vec<V>)
    ensures
        values@ == bound_values(conditions@),
{
    let mut values: Vec<V> = Vec::new();
    for condition in it: conditions
        invariant
            it.seq() == conditions@,
            values@ == bound_values(conditions@.take(it.index() as int)),
    {
        let ghost before = values@;
        let ghost operands = condition.1.values();
        let mut operands_iter = condition.1.into_values_iter();
        loop
            invariant
                values@ + operands_iter.remaining() == before + operands,
            ensures
                values@ == before + operands,
            decreases operands_iter.remaining().len(),
        {
            match operands_iter.next() {
                Some(value) => {
                    values.push(value);
                },
                None => {
                    break ;
                },
            }
        }
        proof {
            assert(conditions@.take(it.index() + 1).drop_last() =~= conditions@.take(
                it.index() as int,
            ));
        }
    }
    proof {
        assert(conditions@.take(conditions@.len() as int) =~= conditions@);
    }
    values
}

/// Whether the placeholders of the conditions can be numbered from `offset`
/// on: whether the index behind the last of them is a `usize`.
pub fn total_arity_fits<V: Clone>(conditions: &Conditions<V>, offset: usize) -> (fits: bool)
    ensures
        fits == (offset + total_arity(conditions@) <= usize::MAX),
{
    let mut end = offset;
    let mut k: usize = 0;
    while k < conditions.len()
        invariant
            k <= conditions.len(),
            end == first_index(conditions@, offset as nat, k as int),
        decreases conditions.len() - k,
    {
        proof {
            lemma_first_index_step(conditions@, offset as nat, k as int);
        }
        match end.checked_add(conditions[k].1.operand_count()) {
            Some(sum) => {
                end = sum;
            },
            None => {
                return false;
            },
        }
        k += 1;
    }
    proof {
        assert(conditions@.take(conditions@.len() as int) =~= conditions@);
    }
    true
}

} // verus!
