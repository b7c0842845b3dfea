//! The text of a statement as a row of pieces: text that stands for itself,
//! and placeholders. This is what ties the placeholders in a text to the
//! values that the statement binds.

use crate::numbering::{first_index, lemma_first_index_step, total_arity};
use crate::predicate::Predicate;
use crate::text::{joined, numbers, placeholder};
use crate::util::{
    assignment_list_text, assignment_text, condition_list_text, condition_text, placeholders_text,
    where_text,
};
use crate::{Assignment, Condition};
use vstd::prelude::*;

verus! {

/// One piece of a statement's text.
pub enum Piece {
    /// Text that stands for itself: a keyword, a name, punctuation.
    Text(Seq<char>),
    /// The placeholder of the bound value with this number.
    Placeholder(nat),
}

impl Piece {
    /// The piece as it is written.
    pub open spec fn text(self) -> Seq<char> {
        match self {
            Piece::Text(text) => text,
            Piece::Placeholder(n) => placeholder(n),
        }
    }
}

/// The text that the pieces make up, one after the other.
pub open spec fn rendered(pieces: Seq<Piece>) -> Seq<char>
    decreases pieces.len(),
{
    if pieces.len() == 0 {
        Seq::empty()
    } else {
        rendered(pieces.drop_last()) + pieces.last().text()
    }
}

/// The numbers of the placeholders among the pieces, from left to right.
pub open spec fn numbers_in(pieces: Seq<Piece>) -> Seq<nat>
    decreases pieces.len(),
{
    if pieces.len() == 0 {
        Seq::empty()
    } else {
        match pieces.last() {
            Piece::Placeholder(n) => numbers_in(pieces.drop_last()).push(n),
            Piece::Text(_) => numbers_in(pieces.drop_last()),
        }
    }
}

/// The rows of pieces one after the other, with the separator between each
/// two neighbours.
pub open spec fn separated(parts: Seq<Seq<Piece>>, sep: Seq<char>) -> Seq<Piece>
    decreases parts.len(),
{
    if parts.len() == 0 {
        Seq::empty()
    } else if parts.len() == 1 {
        parts[0]
    } else {
        separated(parts.drop_last(), sep) + seq![Piece::Text(sep)] + parts.last()
    }
}

/// The numbers of the placeholders in all the rows, from left to right.
pub open spec fn all_numbers(parts: Seq<Seq<Piece>>) -> Seq<nat>
    decreases parts.len(),
{
    if parts.len() == 0 {
        Seq::empty()
    } else {
        all_numbers(parts.drop_last()) + numbers_in(parts.last())
    }
}

/// Two rows of pieces in a row make up the two texts in a row, and hold the
/// placeholders of the first, then those of the second.
pub proof fn lemma_pieces_in_a_row(left: Seq<Piece>, right: Seq<Piece>)
    ensures
        rendered(left + right) == rendered(left) + rendered(right),
        numbers_in(left + right) == numbers_in(left) + numbers_in(right),
    decreases right.len(),
{
    if right.len() > 0 {
        lemma_pieces_in_a_row(left, right.drop_last());
        assert((left + right).drop_last() =~= left + right.drop_last());
    }
}

/// A row of pieces without a placeholder.
pub open spec fn is_plain(pieces: Seq<Piece>) -> bool {
    forall|i: int| 0 <= i < pieces.len() ==> #[trigger] pieces[i] is Text
}

/// A row of pieces without a placeholder holds no placeholder number.
pub proof fn lemma_plain_pieces(pieces: Seq<Piece>)
    requires
        is_plain(pieces),
    ensures
        numbers_in(pieces) == Seq::<nat>::empty(),
    decreases pieces.len(),
{
    if pieces.len() > 0 {
        lemma_plain_pieces(pieces.drop_last());
    }
}

/// A text that stands for itself makes up that text, and holds no
/// placeholder.
pub proof fn lemma_text_piece(text: Seq<char>)
    ensures
        rendered(seq![Piece::Text(text)]) == text,
        numbers_in(seq![Piece::Text(text)]) == Seq::<nat>::empty(),
{
    let row = seq![Piece::Text(text)];
    assert(rendered(row.drop_last()) =~= Seq::empty());
    lemma_plain_pieces(row);
}

/// Separated rows make up their texts joined by the separator, and hold the
/// placeholders of all the rows in order: the separator adds none.
pub proof fn lemma_separated(parts: Seq<Seq<Piece>>, sep: Seq<char>)
    ensures
        rendered(separated(parts, sep)) == joined(
            Seq::new(parts.len(), |k: int| rendered(parts[k])),
            sep,
        ),
        numbers_in(separated(parts, sep)) == all_numbers(parts),
    decreases parts.len(),
{
    let texts = Seq::new(parts.len(), |k: int| rendered(parts[k]));
    if parts.len() == 1 {
        assert(all_numbers(parts.drop_last()) =~= Seq::empty());
    } else if parts.len() > 1 {
        let front = parts.drop_last();
        lemma_separated(front, sep);
        assert(texts.drop_last() =~= Seq::new(front.len(), |k: int| rendered(front[k])));
        let gap = seq![Piece::Text(sep)];
        lemma_text_piece(sep);
        lemma_pieces_in_a_row(separated(front, sep), gap);
        lemma_pieces_in_a_row(separated(front, sep) + gap, parts.last());
    }
}

impl<'a, V: Clone> Predicate<'a, V> {
    /// The pieces of the predicate's text, where `first` is the first
    /// placeholder number that is free.
    pub open spec fn pieces(&self, first: nat) -> Seq<Piece> {
        match self {
            Predicate::Equal(_) => seq![Piece::Text("= "@), Piece::Placeholder(first)],
            Predicate::NotEqual(_) => seq![Piece::Text("<> "@), Piece::Placeholder(first)],
            Predicate::Greater(_) => seq![Piece::Text("> "@), Piece::Placeholder(first)],
            Predicate::GreaterOrEqual(_) => seq![Piece::Text(">= "@), Piece::Placeholder(first)],
            Predicate::Less(_) => seq![Piece::Text("< "@), Piece::Placeholder(first)],
            Predicate::LessOrEqual(_) => seq![Piece::Text("<= "@), Piece::Placeholder(first)],
            Predicate::In(_) => seq![Piece::Text("IN ("@)] + placeholder_pieces(
                first,
                self.arity(),
            ) + seq![Piece::Text(")"@)],
            Predicate::Between(_, _) => seq![
                Piece::Text("BETWEEN "@),
                Piece::Placeholder(first),
                Piece::Text(" AND "@),
                Piece::Placeholder(first + 1),
            ],
            Predicate::Like(_) => seq![Piece::Text("LIKE "@), Piece::Placeholder(first)],
            Predicate::IsNull => seq![Piece::Text("IS NULL"@)],
            Predicate::IsNotNull => seq![Piece::Text("IS NOT NULL"@)],
        }
    }

    /// The pieces of a predicate make up its text, and its placeholders are
    /// numbered `slots(first)`.
    pub proof fn lemma_pieces(&self, first: nat)
        ensures
            rendered(self.pieces(first)) == self.placeholder_text(first),
            numbers_in(self.pieces(first)) == self.slots(first),
    {
        reveal_with_fuel(rendered, 5);
        reveal_with_fuel(numbers_in, 5);
        match self {
            Predicate::In(_) => {
                let open = seq![Piece::Text("IN ("@)];
                let close = seq![Piece::Text(")"@)];
                let row = placeholder_pieces(first, self.arity());
                lemma_placeholder_pieces(first, self.arity());
                lemma_pieces_in_a_row(open, row);
                lemma_pieces_in_a_row(open + row, close);
            },
            _ => {},
        }
    }
}

/// The pieces of `n` placeholders in a row, the first of them numbered
/// `offset`.
pub open spec fn placeholder_pieces(offset: nat, n: nat) -> Seq<Piece> {
    separated(Seq::new(n, |k: int| seq![Piece::Placeholder((offset + k) as nat)]), ", "@)
}

/// Placeholders in a row make up the text of
/// [`placeholders`](crate::util::placeholders), and are numbered from
/// `offset` on.
pub proof fn lemma_placeholder_pieces(offset: nat, n: nat)
    ensures
        rendered(placeholder_pieces(offset, n)) == placeholders_text(offset, n),
        numbers_in(placeholder_pieces(offset, n)) == numbers(offset, n),
{
    reveal_with_fuel(rendered, 2);
    let parts = Seq::new(n, |k: int| seq![Piece::Placeholder((offset + k) as nat)]);
    lemma_separated(parts, ", "@);
    assert(Seq::new(parts.len(), |k: int| rendered(parts[k])) =~= numbers(offset, n).map_values(
        |m: nat| placeholder(m),
    ));
    lemma_single_numbers(offset, n);
}

/// The rows that hold one placeholder each, numbered from `offset` on, hold
/// the numbers from `offset` on.
proof fn lemma_single_numbers(offset: nat, n: nat)
    ensures
        all_numbers(Seq::new(n, |k: int| seq![Piece::Placeholder((offset + k) as nat)]))
            == numbers(offset, n),
    decreases n,
{
    reveal_with_fuel(numbers_in, 2);
    let parts = Seq::new(n, |k: int| seq![Piece::Placeholder((offset + k) as nat)]);
    if n > 0 {
        lemma_single_numbers(offset, (n - 1) as nat);
        assert(parts.drop_last() =~= Seq::new(
            (n - 1) as nat,
            |k: int| seq![Piece::Placeholder((offset + k) as nat)],
        ));
    }
}

/// The pieces of the condition at position `k`.
pub open spec fn condition_pieces<V: Clone>(
    conditions: Seq<Condition<V>>,
    offset: nat,
    k: int,
) -> Seq<Piece> {
    seq![Piece::Text(conditions[k].0@), Piece::Text(" "@)] + conditions[k].1.pieces(
        first_index(conditions, offset, k),
    )
}

/// The pieces of a list of conditions.
pub open spec fn condition_list_pieces<V: Clone>(conditions: Seq<Condition<V>>, offset: nat) -> Seq<
    Piece,
> {
    separated(
        Seq::new(conditions.len(), |k: int| condition_pieces(conditions, offset, k)),
        " AND "@,
    )
}

/// The pieces of one condition make up its text, and its placeholders are
/// numbered from where the condition starts.
pub proof fn lemma_condition_pieces<V: Clone>(conditions: Seq<Condition<V>>, offset: nat, k: int)
    requires
        0 <= k < conditions.len(),
    ensures
        rendered(condition_pieces(conditions, offset, k)) == condition_text(
            conditions,
            offset,
            k,
        ),
        numbers_in(condition_pieces(conditions, offset, k)) == numbers(
            first_index(conditions, offset, k),
            conditions[k].1.arity(),
        ),
{
    reveal_with_fuel(rendered, 3);
    reveal_with_fuel(numbers_in, 3);
    let head = seq![Piece::Text(conditions[k].0@), Piece::Text(" "@)];
    let first = first_index(conditions, offset, k);
    conditions[k].1.lemma_pieces(first);
    lemma_pieces_in_a_row(head, conditions[k].1.pieces(first));
}

/// The first `m` conditions hold the placeholders numbered from `offset` up
/// to where the condition at position `m` starts.
proof fn lemma_condition_numbers<V: Clone>(conditions: Seq<Condition<V>>, offset: nat, m: int)
    requires
        0 <= m <= conditions.len(),
    ensures
        all_numbers(Seq::new(m as nat, |k: int| condition_pieces(conditions, offset, k)))
            == numbers(offset, total_arity(conditions.take(m))),
    decreases m,
{
    let parts = Seq::new(m as nat, |k: int| condition_pieces(conditions, offset, k));
    if m > 0 {
        lemma_condition_numbers(conditions, offset, m - 1);
        lemma_condition_pieces(conditions, offset, m - 1);
        lemma_first_index_step(conditions, offset, m - 1);
        assert(parts.drop_last() =~= Seq::new(
            (m - 1) as nat,
            |k: int| condition_pieces(conditions, offset, k),
        ));
    }
}

/// The pieces of a list of conditions make up its text, and its
/// placeholders are numbered from `offset` on, from left to right, without a
/// gap and none twice.
pub proof fn lemma_condition_list_pieces<V: Clone>(conditions: Seq<Condition<V>>, offset: nat)
    ensures
        rendered(condition_list_pieces(conditions, offset)) == condition_list_text(
            conditions,
            offset,
        ),
        numbers_in(condition_list_pieces(conditions, offset)) == numbers(
            offset,
            total_arity(conditions),
        ),
{
    let parts = Seq::new(conditions.len(), |k: int| condition_pieces(conditions, offset, k));
    lemma_separated(parts, " AND "@);
    assert forall|k: int| 0 <= k < conditions.len() implies rendered(#[trigger] parts[k])
        == condition_text(conditions, offset, k) by {
        lemma_condition_pieces(conditions, offset, k);
    }
    assert(Seq::new(parts.len(), |k: int| rendered(parts[k])) =~= Seq::new(
        conditions.len(),
        |k: int| condition_text(conditions, offset, k),
    ));
    lemma_condition_numbers(conditions, offset, conditions.len() as int);
    assert(conditions.take(conditions.len() as int) =~= conditions);
}

/// The pieces of a `WHERE` clause.
pub open spec fn where_pieces<V: Clone>(conditions: Seq<Condition<V>>, offset: nat) -> Seq<Piece> {
    if conditions.len() > 0 {
        seq![Piece::Text(" WHERE "@)] + condition_list_pieces(conditions, offset)
    } else {
        Seq::empty()
    }
}

/// The pieces of a `WHERE` clause make up its text, and its placeholders
/// are numbered from `offset` on.
pub proof fn lemma_where_pieces<V: Clone>(conditions: Seq<Condition<V>>, offset: nat)
    ensures
        rendered(where_pieces(conditions, offset)) == where_text(conditions, offset),
        numbers_in(where_pieces(conditions, offset)) == numbers(offset, total_arity(conditions)),
{
    if conditions.len() > 0 {
        let head = seq![Piece::Text(" WHERE "@)];
        lemma_condition_list_pieces(conditions, offset);
        lemma_pieces_in_a_row(head, condition_list_pieces(conditions, offset));
        lemma_text_piece(" WHERE "@);
    }
}

/// The pieces of the assignment at position `k`.
pub open spec fn assignment_pieces<V>(assignment: Assignment<V>, n: nat) -> Seq<Piece> {
    seq![Piece::Text(assignment.0@), Piece::Text(" = "@), Piece::Placeholder(n)]
}

/// The pieces of a list of assignments.
pub open spec fn assignment_list_pieces<V>(assignments: Seq<Assignment<V>>, offset: nat) -> Seq<
    Piece,
> {
    separated(
        Seq::new(
            assignments.len(),
            |k: int| assignment_pieces(assignments[k], (offset + k) as nat),
        ),
        ", "@,
    )
}

/// The first `m` assignments hold the placeholders numbered from `offset`
/// on.
proof fn lemma_assignment_numbers<V>(assignments: Seq<Assignment<V>>, offset: nat, m: nat)
    requires
        m <= assignments.len(),
    ensures
        all_numbers(
            Seq::new(m, |k: int| assignment_pieces(assignments[k], (offset + k) as nat)),
        ) == numbers(offset, m),
    decreases m,
{
    reveal_with_fuel(numbers_in, 4);
    let parts = Seq::new(m, |k: int| assignment_pieces(assignments[k], (offset + k) as nat));
    if m > 0 {
        lemma_assignment_numbers(assignments, offset, (m - 1) as nat);
        assert(parts.drop_last() =~= Seq::new(
            (m - 1) as nat,
            |k: int| assignment_pieces(assignments[k], (offset + k) as nat),
        ));
    }
}

/// The pieces of a list of assignments make up its text, and its
/// placeholders are numbered from `offset` on, one for each assignment.
pub proof fn lemma_assignment_list_pieces<V>(assignments: Seq<Assignment<V>>, offset: nat)
    ensures
        rendered(assignment_list_pieces(assignments, offset)) == assignment_list_text(
            assignments,
            offset,
        ),
        numbers_in(assignment_list_pieces(assignments, offset)) == numbers(
            offset,
            assignments.len(),
        ),
{
    reveal_with_fuel(rendered, 4);
    let parts = Seq::new(
        assignments.len(),
        |k: int| assignment_pieces(assignments[k], (offset + k) as nat),
    );
    lemma_separated(parts, ", "@);
    assert(Seq::new(parts.len(), |k: int| rendered(parts[k])) =~= Seq::new(
        assignments.len(),
        |k: int| assignment_text(assignments[k], (offset + k) as nat),
    ));
    lemma_assignment_numbers(assignments, offset, assignments.len());
}

} // verus!
