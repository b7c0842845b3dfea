//! The `SELECT` statement.

use crate::numbering::{
    bound_values, first_index, lemma_bound_values_len, lemma_operand_position,
};
use crate::pieces::{
    lemma_pieces_in_a_row, lemma_text_piece, lemma_where_pieces, numbers_in, rendered,
    where_pieces,
};
use crate::shape::{
    lemma_same_conditions_same_text, lemma_same_orders_same_text, same_conditions, same_orders,
};
use crate::text::{as_str, numbers};
use crate::util::{
    condition_values, keyword_list, keyword_list_text, order_list, order_list_text, push_where,
    selected_columns, selection_names, total_arity_fits, where_text,
};
use crate::{
    Condition, Conditions, Limit, Offset, Order, Orders, Piece, Query, Selection, Selections,
    Statement,
};
use std::borrow::Cow;
use vstd::prelude::*;

verus! {

/// A `SELECT` statement under construction.
#[verifier::reject_recursive_types(V)]
pub struct Select<'a, V: Clone> {
    table: Cow<'static, str>,
    conditions: Conditions<'a, V>,
    selections: Selections,
    orders: Orders,
    limit: Option<Limit>,
    offset: Option<Offset>,
}

/// What a [`Select`] holds.
#[verifier::reject_recursive_types(V)]
pub struct SelectView<'a, V: Clone> {
    pub table: Seq<char>,
    pub conditions: Seq<Condition<'a, V>>,
    pub selections: Seq<Selection>,
    pub orders: Seq<Order>,
    pub limit: Option<Limit>,
    pub offset: Option<Offset>,
}

impl<'a, V: Clone> SelectView<'a, V> {
    /// The selected columns, or `*` where none is selected.
    pub open spec fn columns_text(self) -> Seq<char> {
        if self.selections.len() > 0 {
            keyword_list_text(selection_names(self.selections))
        } else {
            "*"@
        }
    }

    /// The `ORDER BY` clause: nothing where there is no ordering.
    pub open spec fn order_by_text(self) -> Seq<char> {
        if self.orders.len() > 0 {
            " ORDER BY "@ + order_list_text(self.orders)
        } else {
            Seq::empty()
        }
    }

    /// The `LIMIT` clause: nothing where no limit is set.
    pub open spec fn limit_text(self) -> Seq<char> {
        match self.limit {
            Some(limit) => " LIMIT "@ + limit.text(),
            None => Seq::empty(),
        }
    }

    /// The `OFFSET` clause: nothing where no offset is set.
    pub open spec fn offset_text(self) -> Seq<char> {
        match self.offset {
            Some(offset) => " OFFSET "@ + offset.text(),
            None => Seq::empty(),
        }
    }
}

impl<'a, V: Clone> View for Select<'a, V> {
    type V = SelectView<'a, V>;

    closed spec fn view(&self) -> SelectView<'a, V> {
        SelectView {
            table: self.table@,
            conditions: self.conditions@,
            selections: self.selections@,
            orders: self.orders@,
            limit: self.limit,
            offset: self.offset,
        }
    }
}

impl<'a, V: Clone> Select<'a, V> {
    /// A statement that selects from `table`: every column of every row, in
    /// no order, until fragments are attached.
    pub fn new(table: Cow<'static, str>) -> (select: Select<'a, V>)
        ensures
            select@ == (SelectView::<V> {
                table: table@,
                conditions: Seq::empty(),
                selections: Seq::empty(),
                orders: Seq::empty(),
                limit: None,
                offset: None,
            }),
    {
        Select {
            table: table,
            conditions: vec![],
            selections: vec![],
            orders: vec![],
            limit: None,
            offset: None,
        }
    }

    /// Attaches a condition behind those that are there.
    pub fn add_condition(&mut self, condition: Condition<'a, V>)
        ensures
            final(self)@ == (SelectView {
                conditions: old(self)@.conditions.push(condition),
                ..old(self)@
            }),
    {
        self.conditions.push(condition);
    }

    /// Attaches conditions, in their order, behind those that are there.
    pub fn add_conditions(&mut self, conditions: Conditions<'a, V>)
        ensures
            final(self)@ == (SelectView {
                conditions: old(self)@.conditions + conditions@,
                ..old(self)@
            }),
    {
        let mut conditions = conditions;
        self.conditions.append(&mut conditions);
    }

    /// Attaches a selected column behind those that are there.
    pub fn add_selection(&mut self, selection: Selection)
        ensures
            final(self)@ == (SelectView {
                selections: old(self)@.selections.push(selection),
                ..old(self)@
            }),
    {
        self.selections.push(selection);
    }

    /// Attaches selected columns, in their order, behind those that are
    /// there.
    pub fn add_selections(&mut self, selections: Selections)
        ensures
            final(self)@ == (SelectView {
                selections: old(self)@.selections + selections@,
                ..old(self)@
            }),
    {
        let mut selections = selections;
        self.selections.append(&mut selections);
    }

    /// Attaches an ordering behind those that are there.
    pub fn add_order(&mut self, order: Order)
        ensures
            final(self)@ == (SelectView { orders: old(self)@.orders.push(order), ..old(self)@ }),
    {
        self.orders.push(order);
    }

    /// Attaches orderings, in their order, behind those that are there.
    pub fn add_orders(&mut self, orders: Orders)
        ensures
            final(self)@ == (SelectView { orders: old(self)@.orders + orders@, ..old(self)@ }),
    {
        let mut orders = orders;
        self.orders.append(&mut orders);
    }

    /// Sets the limit, in place of the one that was set before, if any.
    pub fn set_limit(&mut self, limit: Limit)
        ensures
            final(self)@ == (SelectView { limit: Some(limit), ..old(self)@ }),
    {
        self.limit = Some(limit);
    }

    /// Sets the offset, in place of the one that was set before, if any.
    pub fn set_offset(&mut self, offset: Offset)
        ensures
            final(self)@ == (SelectView { offset: Some(offset), ..old(self)@ }),
    {
        self.offset = Some(offset);
    }
}

impl<'a, V: Clone> SelectView<'a, V> {
    /// Whether two statements differ at most in the values that they bind.
    pub open spec fn same_shape(self, other: SelectView<'a, V>) -> bool {
        &&& self.table == other.table
        &&& same_conditions(self.conditions, other.conditions)
        &&& selection_names(self.selections) == selection_names(other.selections)
        &&& same_orders(self.orders, other.orders)
        &&& self.limit == other.limit
        &&& self.offset == other.offset
    }
}

impl<'a, V: Copy> Select<'a, V> {
    /// Statements that are built from the same fragments have the same
    /// text, whatever values they bind.
    pub proof fn lemma_same_shape_same_text(&self, other: &Select<'a, V>)
        requires
            self@.same_shape(other@),
        ensures
            self.text() == other.text(),
    {
        lemma_same_conditions_same_text(self@.conditions, other@.conditions, 1);
        lemma_same_orders_same_text(self@.orders, other@.orders);
    }

    /// The operand at position `j` of the condition at position `k` is
    /// written as `$n`, where `n` is `first_index(conditions, 1, k) + j`,
    /// and is bound at the index one below that number.
    pub proof fn lemma_values_follow_placeholders(&self, k: int, j: int)
        requires
            0 <= k < self@.conditions.len(),
            0 <= j < self@.conditions[k].1.arity(),
        ensures
            0 < first_index(self@.conditions, 1, k) + j <= self.values().len(),
            self.values()[first_index(self@.conditions, 1, k) + j - 1]
                == self@.conditions[k].1.values()[j],
    {
        lemma_operand_position(self@.conditions, 1, k, j);
    }

    /// The pieces make up the text, and hold the placeholders of the
    /// conditions, numbered from 1 on.
    proof fn lemma_pieces(&self)
        ensures
            rendered(self.pieces()) == self.text(),
            numbers_in(self.pieces()) == numbers(1, self.values().len()),
    {
        let head_text = "SELECT "@ + self@.columns_text() + " FROM "@ + self@.table;
        let tail_text = self@.order_by_text() + self@.limit_text() + self@.offset_text() + ";"@;
        let head = seq![Piece::Text(head_text)];
        let clause = where_pieces(self@.conditions, 1);
        let tail = seq![Piece::Text(tail_text)];
        lemma_text_piece(head_text);
        lemma_text_piece(tail_text);
        lemma_where_pieces(self@.conditions, 1);
        lemma_bound_values_len(self@.conditions);
        lemma_pieces_in_a_row(head, clause);
        lemma_pieces_in_a_row(head + clause, tail);
        assert(self.text() =~= head_text + where_text(self@.conditions, 1) + tail_text);
        assert(numbers_in(self.pieces()) =~= numbers(1, self.values().len()));
    }
}

impl<'a, V: Copy> Statement<V> for Select<'a, V> {
    open spec fn text(&self) -> Seq<char> {
        "SELECT "@ + self@.columns_text() + " FROM "@ + self@.table + where_text(
            self@.conditions,
            1,
        ) + self@.order_by_text() + self@.limit_text() + self@.offset_text() + ";"@
    }

    open spec fn values(&self) -> Seq<V> {
        bound_values(self@.conditions)
    }

    open spec fn pieces(&self) -> Seq<Piece> {
        seq![Piece::Text("SELECT "@ + self@.columns_text() + " FROM "@ + self@.table)]
            + where_pieces(self@.conditions, 1) + seq![
            Piece::Text(
                self@.order_by_text() + self@.limit_text() + self@.offset_text() + ";"@,
            ),
        ]
    }

    proof fn lemma_text_in_pieces(&self) {
        self.lemma_pieces();
    }

    proof fn lemma_placeholders_number_values(&self) {
        self.lemma_pieces();
    }

    fn fits(&self) -> (fits: bool) {
        proof {
            lemma_bound_values_len(self@.conditions);
        }
        total_arity_fits(&self.conditions, 1)
    }

    fn into_query(self) -> (query: Query<V>) {
        proof {
            self.lemma_pieces();
            lemma_bound_values_len(self@.conditions);
        }
        let mut query = String::new();
        query.append("SELECT ");
        if !self.selections.is_empty() {
            query.append(keyword_list(&selected_columns(&self.selections)).as_str());
        } else {
            query.push('*');
        }
        query.append(" FROM ");
        query.append(as_str(&self.table));
        push_where(&mut query, &self.conditions, 1);
        proof {
            reveal_strlit("*");
        }
        if !self.orders.is_empty() {
            query.append(" ORDER BY ");
            query.append(order_list(&self.orders).as_str());
        }
        if let Some(limit) = &self.limit {
            query.append(" LIMIT ");
            query.append(limit.to_string().as_str());
        }
        if let Some(offset) = &self.offset {
            query.append(" OFFSET ");
            query.append(offset.to_string().as_str());
        }
        query.push(';');
        proof {
            reveal_strlit(";");
        }
        Query(query, condition_values(self.conditions))
    }
}

} // verus!
