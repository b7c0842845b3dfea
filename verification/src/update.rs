//! The `UPDATE` statement.

use crate::numbering::{
    assignment_values, bound_values, first_index, lemma_bound_values_len, lemma_operand_position,
};
use crate::pieces::{
    assignment_list_pieces, lemma_assignment_list_pieces, lemma_pieces_in_a_row, lemma_text_piece,
    lemma_where_pieces, numbers_in, rendered, where_pieces,
};
use crate::shape::{lemma_same_columns_same_text, lemma_same_conditions_same_text, same_conditions};
use crate::text::{as_str, numbers};
use crate::util::{
    assigned_values, assignment_list, assignment_list_text, assignment_names, condition_values,
    push_returning, push_where, returning_text, selection_names, total_arity_fits, where_text,
};
use crate::{
    Assignment, Assignments, Condition, Conditions, Piece, Query, Selection, Selections, Statement,
};
use std::borrow::Cow;
use vstd::prelude::*;

verus! {

/// An `UPDATE` statement under construction.
#[verifier::reject_recursive_types(V)]
pub struct Update<'a, V: Clone> {
    table: Cow<'static, str>,
    assignments: Assignments<V>,
    conditions: Conditions<'a, V>,
    selections: Selections,
}

/// What an [`Update`] holds.
#[verifier::reject_recursive_types(V)]
pub struct UpdateView<'a, V: Clone> {
    pub table: Seq<char>,
    pub assignments: Seq<Assignment<V>>,
    pub conditions: Seq<Condition<'a, V>>,
    pub selections: Seq<Selection>,
}

impl<'a, V: Clone> View for Update<'a, V> {
    type V = UpdateView<'a, V>;

    closed spec fn view(&self) -> UpdateView<'a, V> {
        UpdateView {
            table: self.table@,
            assignments: self.assignments@,
            conditions: self.conditions@,
            selections: self.selections@,
        }
    }
}

impl<'a, V: Clone> Update<'a, V> {
    /// A statement that updates `table`, with nothing assigned, no condition
    /// and nothing selected yet.
    pub fn new(table: Cow<'static, str>) -> (update: Update<'a, V>)
        ensures
            update@ == (UpdateView::<V> {
                table: table@,
                assignments: Seq::empty(),
                conditions: Seq::empty(),
                selections: Seq::empty(),
            }),
    {
        Update { table: table, assignments: vec![], conditions: vec![], selections: vec![] }
    }

    /// Attaches an assignment behind those that are there.
    pub fn add_assignment(&mut self, assignment: Assignment<V>)
        ensures
            final(self)@ == (UpdateView {
                assignments: old(self)@.assignments.push(assignment),
                ..old(self)@
            }),
    {
        self.assignments.push(assignment);
    }

    /// Attaches assignments, in their order, behind those that are there.
    pub fn add_assignments(&mut self, assignments: Assignments<V>)
        ensures
            final(self)@ == (UpdateView {
                assignments: old(self)@.assignments + assignments@,
                ..old(self)@
            }),
    {
        let mut assignments = assignments;
        self.assignments.append(&mut assignments);
    }

    /// Attaches a condition behind those that are there.
    pub fn add_condition(&mut self, condition: Condition<'a, V>)
        ensures
            final(self)@ == (UpdateView {
                conditions: old(self)@.conditions.push(condition),
                ..old(self)@
            }),
    {
        self.conditions.push(condition);
    }

    /// Attaches conditions, in their order, behind those that are there.
    pub fn add_conditions(&mut self, conditions: Conditions<'a, V>)
        ensures
            final(self)@ == (UpdateView {
                conditions: old(self)@.conditions + conditions@,
                ..old(self)@
            }),
    {
        let mut conditions = conditions;
        self.conditions.append(&mut conditions);
    }

    /// Attaches a selected column behind those that are there.
    pub fn add_selection(&mut self, selection: Selection)
        ensures
            final(self)@ == (UpdateView {
                selections: old(self)@.selections.push(selection),
                ..old(self)@
            }),
    {
        self.selections.push(selection);
    }

    /// Attaches selected columns, in their order, behind those that are
    /// there.
    pub fn add_selections(&mut self, selections: Selections)
        ensures
            final(self)@ == (UpdateView {
                selections: old(self)@.selections + selections@,
                ..old(self)@
            }),
    {
        let mut selections = selections;
        self.selections.append(&mut selections);
    }
}

impl<'a, V: Clone> UpdateView<'a, V> {
    /// Whether two statements differ at most in the values that they bind.
    pub open spec fn same_shape(self, other: UpdateView<'a, V>) -> bool {
        &&& self.table == other.table
        &&& assignment_names(self.assignments) == assignment_names(other.assignments)
        &&& same_conditions(self.conditions, other.conditions)
        &&& selection_names(self.selections) == selection_names(other.selections)
    }
}

impl<'a, V: Copy> Update<'a, V> {
    /// Statements that are built from the same fragments have the same
    /// text, whatever values they bind.
    pub proof fn lemma_same_shape_same_text(&self, other: &Update<'a, V>)
        requires
            self@.same_shape(other@),
        ensures
            self.text() == other.text(),
    {
        lemma_same_columns_same_text(self@.assignments, other@.assignments, 1);
        lemma_same_conditions_same_text(
            self@.conditions,
            other@.conditions,
            self@.assignments.len() + 1,
        );
    }

    /// The placeholders of the conditions go on where those of the
    /// assignments end. The value of the assignment at position `i` is
    /// written as `$i+1`; the operand at position `j` of the condition at
    /// position `k` is written as `$n`, where `n` is
    /// `first_index(conditions, assignments.len() + 1, k) + j`. Each is bound
    /// at the index one below its placeholder's number.
    pub proof fn lemma_values_follow_placeholders(&self, i: int, k: int, j: int)
        requires
            self@.assignments.len() > 0,
        ensures
            0 <= i < self@.assignments.len() ==> self.values()[i] == self@.assignments[i].1,
            0 <= k < self@.conditions.len() && 0 <= j < self@.conditions[k].1.arity() ==> {
                let n = first_index(self@.conditions, self@.assignments.len() + 1, k) + j;
                &&& self@.assignments.len() < n <= self.values().len()
                &&& self.values()[n - 1] == self@.conditions[k].1.values()[j]
            },
    {
        if 0 <= k < self@.conditions.len() && 0 <= j < self@.conditions[k].1.arity() {
            lemma_operand_position(self@.conditions, self@.assignments.len() + 1, k, j);
        }
    }

    /// The pieces make up the text, and hold the placeholders of the
    /// assigned values, then those of the conditions, numbered from 1 on.
    proof fn lemma_pieces(&self)
        ensures
            rendered(self.pieces()) == self.text(),
            numbers_in(self.pieces()) == numbers(1, self.values().len()),
    {
        if self@.assignments.len() == 0 {
            lemma_text_piece("NULL;"@);
        } else {
            let head_text = "UPDATE "@ + self@.table + " SET "@;
            let tail_text = returning_text(self@.selections) + ";"@;
            let head = seq![Piece::Text(head_text)];
            let sets = assignment_list_pieces(self@.assignments, 1);
            let clause = where_pieces(self@.conditions, self@.assignments.len() + 1);
            let tail = seq![Piece::Text(tail_text)];
            lemma_text_piece(head_text);
            lemma_text_piece(tail_text);
            lemma_assignment_list_pieces(self@.assignments, 1);
            lemma_where_pieces(self@.conditions, self@.assignments.len() + 1);
            lemma_bound_values_len(self@.conditions);
            lemma_pieces_in_a_row(head, sets);
            lemma_pieces_in_a_row(head + sets, clause);
            lemma_pieces_in_a_row(head + sets + clause, tail);
        }
    }
}

impl<'a, V: Copy> Statement<V> for Update<'a, V> {
    /// With nothing assigned the statement is the no-op `NULL;`, whatever
    /// conditions and selected columns it holds.
    open spec fn text(&self) -> Seq<char> {
        if self@.assignments.len() == 0 {
            "NULL;"@
        } else {
            "UPDATE "@ + self@.table + " SET "@ + assignment_list_text(self@.assignments, 1)
                + where_text(self@.conditions, self@.assignments.len() + 1) + returning_text(
                self@.selections,
            ) + ";"@
        }
    }

    /// The assigned values, then the operands of the conditions; none where
    /// nothing is assigned.
    open spec fn values(&self) -> Seq<V> {
        if self@.assignments.len() == 0 {
            Seq::empty()
        } else {
            assignment_values(self@.assignments) + bound_values(self@.conditions)
        }
    }

    open spec fn pieces(&self) -> Seq<Piece> {
        if self@.assignments.len() == 0 {
            seq![Piece::Text("NULL;"@)]
        } else {
            seq![Piece::Text("UPDATE "@ + self@.table + " SET "@)] + assignment_list_pieces(
                self@.assignments,
                1,
            ) + where_pieces(self@.conditions, self@.assignments.len() + 1) + seq![
                Piece::Text(returning_text(self@.selections) + ";"@),
            ]
        }
    }

    proof fn lemma_text_in_pieces(&self) {
        self.lemma_pieces();
    }

    proof fn lemma_placeholders_number_values(&self) {
        self.lemma_pieces();
    }

    fn fits(&self) -> (fits: bool) {
        proof {
            lemma_bound_values_len(self@.conditions);
        }
        if self.assignments.is_empty() {
            true
        } else if self.assignments.len() == usize::MAX {
            false
        } else {
            total_arity_fits(&self.conditions, self.assignments.len() + 1)
        }
    }

    fn into_query(self) -> (query: Query<V>) {
        proof {
            self.lemma_pieces();
            lemma_bound_values_len(self@.conditions);
        }
        if self.assignments.is_empty() {
            return Query("NULL;".to_owned(), vec![]);
        }
        let mut query = String::new();
        query.append("UPDATE ");
        query.append(as_str(&self.table));
        query.append(" SET ");
        query.append(assignment_list(&self.assignments, 1).as_str());
        let offset = self.assignments.len() + 1;
        push_where(&mut query, &self.conditions, offset);
        push_returning(&mut query, &self.selections);
        query.push(';');
        proof {
            reveal_strlit(";");
        }
        let mut values = assigned_values(&self.assignments);
        let mut operands = condition_values(self.conditions);
        values.append(&mut operands);
        Query(query, values)
    }
}

} // verus!
