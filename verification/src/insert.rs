//! The `INSERT` statement.

use crate::numbering::assignment_values;
use crate::pieces::{
    lemma_pieces_in_a_row, lemma_placeholder_pieces, lemma_text_piece, numbers_in,
    placeholder_pieces, rendered,
};
use crate::text::{as_str, numbers};
use crate::util::{
    assigned_columns, assigned_values, assignment_names, keyword_list, keyword_list_text,
    placeholders, placeholders_text, push_returning, returning_text, selection_names,
};
use crate::{Assignment, Assignments, Piece, Query, Selection, Selections, Statement};
use std::borrow::Cow;
use vstd::prelude::*;

verus! {

/// An `INSERT` statement under construction.
pub struct Insert<V> {
    table: Cow<'static, str>,
    assignments: Assignments<V>,
    selections: Selections,
}

/// What an [`Insert`] holds.
pub struct InsertView<V> {
    pub table: Seq<char>,
    pub assignments: Seq<Assignment<V>>,
    pub selections: Seq<Selection>,
}

impl<V> InsertView<V> {
    /// The columns and their placeholders, or `DEFAULT VALUES` where nothing
    /// is assigned.
    pub open spec fn values_text(self) -> Seq<char> {
        if self.assignments.len() == 0 {
            "DEFAULT VALUES"@
        } else {
            "("@ + keyword_list_text(assignment_names(self.assignments)) + ") VALUES ("@
                + placeholders_text(1, self.assignments.len()) + ")"@
        }
    }

    /// Whether two statements differ at most in the values that they bind.
    pub open spec fn same_shape(self, other: InsertView<V>) -> bool {
        &&& self.table == other.table
        &&& assignment_names(self.assignments) == assignment_names(other.assignments)
        &&& selection_names(self.selections) == selection_names(other.selections)
    }

    /// The pieces of [`values_text`](InsertView::values_text).
    pub open spec fn values_pieces(self) -> Seq<Piece> {
        if self.assignments.len() == 0 {
            seq![Piece::Text("DEFAULT VALUES"@)]
        } else {
            seq![
                Piece::Text(
                    "("@ + keyword_list_text(assignment_names(self.assignments))
                        + ") VALUES ("@,
                ),
            ] + placeholder_pieces(1, self.assignments.len()) + seq![Piece::Text(")"@)]
        }
    }

    /// The pieces of the columns and their placeholders make up their text,
    /// with one placeholder for each assignment, numbered from 1 on.
    pub proof fn lemma_values_pieces(self)
        ensures
            rendered(self.values_pieces()) == self.values_text(),
            numbers_in(self.values_pieces()) == numbers(1, self.assignments.len()),
    {
        if self.assignments.len() == 0 {
            lemma_text_piece("DEFAULT VALUES"@);
        } else {
            let head_text = "("@ + keyword_list_text(assignment_names(self.assignments))
                + ") VALUES ("@;
            let head = seq![Piece::Text(head_text)];
            let row = placeholder_pieces(1, self.assignments.len());
            let tail = seq![Piece::Text(")"@)];
            lemma_text_piece(head_text);
            lemma_text_piece(")"@);
            lemma_placeholder_pieces(1, self.assignments.len());
            lemma_pieces_in_a_row(head, row);
            lemma_pieces_in_a_row(head + row, tail);
        }
    }
}

impl<V> View for Insert<V> {
    type V = InsertView<V>;

    closed spec fn view(&self) -> InsertView<V> {
        InsertView {
            table: self.table@,
            assignments: self.assignments@,
            selections: self.selections@,
        }
    }
}

impl<V> Insert<V> {
    /// A statement that inserts into `table`, with nothing assigned or
    /// selected yet.
    pub fn new(table: Cow<'static, str>) -> (insert: Insert<V>)
        ensures
            insert@ == (InsertView::<V> {
                table: table@,
                assignments: Seq::empty(),
                selections: Seq::empty(),
            }),
    {
        Insert { table: table, assignments: vec![], selections: vec![] }
    }

    /// Attaches an assignment behind those that are there.
    pub fn add_assignment(&mut self, assignment: Assignment<V>)
        ensures
            final(self)@ == (InsertView {
                assignments: old(self)@.assignments.push(assignment),
                ..old(self)@
            }),
    {
        self.assignments.push(assignment);
    }

    /// Attaches assignments, in their order, behind those that are there.
    pub fn add_assignments(&mut self, assignments: Assignments<V>)
        ensures
            final(self)@ == (InsertView {
                assignments: old(self)@.assignments + assignments@,
                ..old(self)@
            }),
    {
        let mut assignments = assignments;
        self.assignments.append(&mut assignments);
    }

    /// Attaches a selected column behind those that are there.
    pub fn add_selection(&mut self, selection: Selection)
        ensures
            final(self)@ == (InsertView {
                selections: old(self)@.selections.push(selection),
                ..old(self)@
            }),
    {
        self.selections.push(selection);
    }

    /// Attaches selected columns, in their order, behind those that are
    /// there.
    pub fn add_selections(&mut self, selections: Selections)
        ensures
            final(self)@ == (InsertView {
                selections: old(self)@.selections + selections@,
                ..old(self)@
            }),
    {
        let mut selections = selections;
        self.selections.append(&mut selections);
    }
}

impl<V: Copy> Insert<V> {
    /// Statements that are built from the same fragments have the same
    /// text, whatever values they bind.
    pub proof fn lemma_same_shape_same_text(&self, other: &Insert<V>)
        requires
            self@.same_shape(other@),
        ensures
            self.text() == other.text(),
    {
    }

    /// The value of the assignment at position `i` is written as `$i+1`, and
    /// is bound at index `i`.
    pub proof fn lemma_values_follow_placeholders(&self, i: int)
        requires
            0 <= i < self@.assignments.len(),
        ensures
            numbers_in(self@.values_pieces())[i] == i + 1,
            self.values()[i] == self@.assignments[i].1,
    {
        self@.lemma_values_pieces();
    }

    /// The pieces make up the text, and hold the placeholders of the
    /// assigned values, numbered from 1 on.
    proof fn lemma_pieces(&self)
        ensures
            rendered(self.pieces()) == self.text(),
            numbers_in(self.pieces()) == numbers(1, self.values().len()),
    {
        let head_text = "INSERT INTO "@ + self@.table + " "@;
        let tail_text = returning_text(self@.selections) + ";"@;
        let head = seq![Piece::Text(head_text)];
        let tail = seq![Piece::Text(tail_text)];
        lemma_text_piece(head_text);
        lemma_text_piece(tail_text);
        self@.lemma_values_pieces();
        lemma_pieces_in_a_row(head, self@.values_pieces());
        lemma_pieces_in_a_row(head + self@.values_pieces(), tail);
    }
}

impl<V: Copy> Statement<V> for Insert<V> {
    open spec fn text(&self) -> Seq<char> {
        "INSERT INTO "@ + self@.table + " "@ + self@.values_text() + returning_text(
            self@.selections,
        ) + ";"@
    }

    open spec fn values(&self) -> Seq<V> {
        assignment_values(self@.assignments)
    }

    open spec fn pieces(&self) -> Seq<Piece> {
        seq![Piece::Text("INSERT INTO "@ + self@.table + " "@)] + self@.values_pieces() + seq![
            Piece::Text(returning_text(self@.selections) + ";"@),
        ]
    }

    proof fn lemma_text_in_pieces(&self) {
        self.lemma_pieces();
    }

    proof fn lemma_placeholders_number_values(&self) {
        self.lemma_pieces();
    }

    fn fits(&self) -> (fits: bool) {
        self.assignments.len() < usize::MAX
    }

    fn into_query(self) -> (query: Query<V>) {
        proof {
            self.lemma_pieces();
        }
        let mut query = String::new();
        query.append("INSERT INTO ");
        query.append(as_str(&self.table));
        query.push(' ');
        if self.assignments.is_empty() {
            query.append("DEFAULT VALUES");
        } else {
            query.push('(');
            query.append(keyword_list(&assigned_columns(&self.assignments)).as_str());
            query.append(") VALUES (");
            query.append(placeholders(1, self.assignments.len()).as_str());
            query.push(')');
        }
        proof {
            reveal_strlit(" ");
            reveal_strlit("(");
            reveal_strlit(")");
        }
        push_returning(&mut query, &self.selections);
        query.push(';');
        proof {
            reveal_strlit(";");
        }
        Query(query, assigned_values(&self.assignments))
    }
}

} // verus!
