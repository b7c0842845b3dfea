//! The `DELETE` statement.

use crate::numbering::{
    bound_values, first_index, lemma_bound_values_len, lemma_operand_position,
};
use crate::pieces::{
    lemma_pieces_in_a_row, lemma_text_piece, lemma_where_pieces, numbers_in, rendered,
    where_pieces,
};
use crate::shape::{lemma_same_conditions_same_text, same_conditions};
use crate::text::{as_str, numbers};
use crate::util::{condition_values, push_where, total_arity_fits, where_text};
use crate::{Condition, Conditions, Piece, Query, Statement};
use std::borrow::Cow;
use vstd::prelude::*;

verus! {

/// A `DELETE` statement under construction.
#[verifier::reject_recursive_types(V)]
pub struct Delete<'a, V: Clone> {
    table: Cow<'static, str>,
    conditions: Conditions<'a, V>,
}

/// What a [`Delete`] holds.
#[verifier::reject_recursive_types(V)]
pub struct DeleteView<'a, V: Clone> {
    pub table: Seq<char>,
    pub conditions: Seq<Condition<'a, V>>,
}

impl<'a, V: Clone> View for Delete<'a, V> {
    type V = DeleteView<'a, V>;

    closed spec fn view(&self) -> DeleteView<'a, V> {
        DeleteView { table: self.table@, conditions: self.conditions@ }
    }
}

impl<'a, V: Clone> Delete<'a, V> {
    /// A statement that deletes from `table`, with no condition yet.
    pub fn new(table: Cow<'static, str>) -> (delete: Delete<'a, V>)
        ensures
            delete@ == (DeleteView::<V> { table: table@, conditions: Seq::empty() }),
    {
        Delete { table: table, conditions: vec![] }
    }

    /// Attaches a condition behind those that are there.
    pub fn add_condition(&mut self, condition: Condition<'a, V>)
        ensures
            final(self)@ == (DeleteView {
                conditions: old(self)@.conditions.push(condition),
                ..old(self)@
            }),
    {
        self.conditions.push(condition);
    }

    /// Attaches conditions, in their order, behind those that are there.
    pub fn add_conditions(&mut self, conditions: Conditions<'a, V>)
        ensures
            final(self)@ == (DeleteView {
                conditions: old(self)@.conditions + conditions@,
                ..old(self)@
            }),
    {
        let mut conditions = conditions;
        self.conditions.append(&mut conditions);
    }
}

impl<'a, V: Clone> DeleteView<'a, V> {
    /// Whether two statements differ at most in the values that they bind.
    pub open spec fn same_shape(self, other: DeleteView<'a, V>) -> bool {
        &&& self.table == other.table
        &&& same_conditions(self.conditions, other.conditions)
    }
}

impl<'a, V: Copy> Delete<'a, V> {
    /// Statements that are built from the same fragments have the same
    /// text, whatever values they bind.
    pub proof fn lemma_same_shape_same_text(&self, other: &Delete<'a, V>)
        requires
            self@.same_shape(other@),
        ensures
            self.text() == other.text(),
    {
        lemma_same_conditions_same_text(self@.conditions, other@.conditions, 1);
    }

    /// The operand at position `j` of the condition at position `k` is
    /// written as `$n`, where `n` is `first_index(conditions, 1, k) + j`,
    /// and is bound at the index one below that number.
    pub proof fn lemma_values_follow_placeholders(&self, k: int, j: int)
        requires
            0 <= k < self@.conditions.len(),
            0 <= j < self@.conditions[k].1.arity(),
        ensures
            0 < first_index(self@.conditions, 1, k) + j <= self.values().len(),
            self.values()[first_index(self@.conditions, 1, k) + j - 1]
                == self@.conditions[k].1.values()[j],
    {
        lemma_operand_position(self@.conditions, 1, k, j);
    }

    /// The pieces make up the text, and hold the placeholders of the
    /// conditions, numbered from 1 on.
    proof fn lemma_pieces(&self)
        ensures
            rendered(self.pieces()) == self.text(),
            numbers_in(self.pieces()) == numbers(1, self.values().len()),
    {
        let head = seq![Piece::Text("DELETE FROM "@ + self@.table)];
        let clause = where_pieces(self@.conditions, 1);
        let tail = seq![Piece::Text(";"@)];
        lemma_text_piece("DELETE FROM "@ + self@.table);
        lemma_text_piece(";"@);
        lemma_where_pieces(self@.conditions, 1);
        lemma_bound_values_len(self@.conditions);
        lemma_pieces_in_a_row(head, clause);
        lemma_pieces_in_a_row(head + clause, tail);
    }
}

impl<'a, V: Copy> Statement<V> for Delete<'a, V> {
    open spec fn text(&self) -> Seq<char> {
        "DELETE FROM "@ + self@.table + where_text(self@.conditions, 1) + ";"@
    }

    open spec fn values(&self) -> Seq<V> {
        bound_values(self@.conditions)
    }

    open spec fn pieces(&self) -> Seq<Piece> {
        seq![Piece::Text("DELETE FROM "@ + self@.table)] + where_pieces(self@.conditions, 1)
            + seq![Piece::Text(";"@)]
    }

    proof fn lemma_text_in_pieces(&self) {
        self.lemma_pieces();
    }

    proof fn lemma_placeholders_number_values(&self) {
        self.lemma_pieces();
    }

    fn fits(&self) -> (fits: bool) {
        proof {
            lemma_bound_values_len(self@.conditions);
        }
        total_arity_fits(&self.conditions, 1)
    }

    fn into_query(self) -> (query: Query<V>) {
        proof {
            self.lemma_pieces();
            lemma_bound_values_len(self@.conditions);
        }
        let mut query = String::new();
        query.append("DELETE FROM ");
        query.append(as_str(&self.table));
        push_where(&mut query, &self.conditions, 1);
        query.push(';');
        proof {
            reveal_strlit(";");
        }
        Query(query, condition_values(self.conditions))
    }
}

} // verus!
