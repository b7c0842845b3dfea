//! A builder of parameterized SQL statements with positional placeholders.
//!
//! A statement is assembled from small fragments (conditions, assignments,
//! selected columns, orderings, a limit and an offset) and finalized into a
//! [`Query`]: the statement text, in which every bound value is written as
//! `$1`, `$2`, ..., and the list of those values, in the order of their
//! placeholders. The values themselves are never looked at: a statement is
//! generic in their type, which is most often a reference to what a database
//! driver can bind.
//!
//! Table and column names go into the text as they are; [`escape`] quotes
//! one that needs it.
//!
//! The modules:
//! - [`predicate`]: the comparison operators and their operands;
//! - [`select`], [`insert`], [`update`], [`delete`]: the four statements;
//! - [`util`]: the lists and clauses that the statements share;
//! - [`text`]: decimal numbers, placeholders, joining with a separator;
//! - [`numbering`]: how the placeholders of conditions are numbered;
//! - [`pieces`]: a statement's text as literal text and placeholders, which
//!   ties the placeholders to the bound values;
//! - [`shape`]: the text of a statement does not depend on the bound values.
//!
//! What is proved of a statement is stated by
//! [`Statement::into_query`]: the text is a function of the fragments alone,
//! and it holds exactly the placeholders `$1` to `$n` for `n` bound values,
//! from left to right.

pub mod delete;
pub mod insert;
pub mod numbering;
pub mod pieces;
pub mod predicate;
pub mod select;
pub mod shape;
pub mod text;
pub mod update;
pub mod util;

pub use delete::Delete;
pub use insert::Insert;
pub use pieces::Piece;
pub use predicate::{Predicate, ValuesIter};
pub use select::Select;
pub use update::Update;
pub use util::escape;

use std::borrow::Cow;
use vstd::prelude::*;

verus! {

/// A column and the value to store in it.
#[derive(Debug)]
pub struct Assignment<V>(pub Cow<'static, str>, pub V);

/// Assignments, in the order in which they are rendered and bound.
pub type Assignments<V> = Vec<Assignment<V>>;

/// A column and the predicate that its value has to meet.
#[derive(Debug)]
#[verifier::reject_recursive_types(V)]
pub struct Condition<'a, V: Clone>(pub Cow<'static, str>, pub Predicate<'a, V>);

/// Conditions, in the order in which they are rendered and bound.
pub type Conditions<'a, V> = Vec<Condition<'a, V>>;

/// A column that the statement hands back.
#[derive(Debug)]
pub struct Selection(pub Cow<'static, str>);

/// Selected columns, in the order in which they are rendered.
pub type Selections = Vec<Selection>;

/// A column to order by, and the direction.
#[derive(Debug)]
pub struct Order(pub Cow<'static, str>, pub Dir);

/// Orderings, the first of them the most significant.
pub type Orders = Vec<Order>;

/// A finalized statement: its text and the values to bind, where the value at
/// index `k` belongs to the placeholder `$k+1`.
#[derive(Debug)]
pub struct Query<V>(pub String, pub Vec<V>);

/// The greatest number of rows to hand back.
#[derive(Debug)]
pub struct Limit(pub usize);

/// The number of rows to skip.
#[derive(Debug)]
pub struct Offset(pub usize);

/// The direction of an ordering.
#[derive(Debug)]
pub enum Dir {
    Asc,
    Desc,
}

/// A statement under construction, which finalization turns into a
/// [`Query`].
pub trait Statement<V>: Sized {
    /// The text of the finalized statement.
    spec fn text(&self) -> Seq<char>;

    /// The values that the finalized statement binds, in the order of their
    /// placeholders.
    spec fn values(&self) -> Seq<V>;

    /// The text in pieces: what stands for itself, and the placeholders. The
    /// placeholder at position `k` among them, counted from 0 and from the
    /// left, stands for the value at position `k` of `values()`.
    spec fn pieces(&self) -> Seq<Piece>;

    /// The pieces make up the text.
    proof fn lemma_text_in_pieces(&self)
        ensures
            self.text() == pieces::rendered(self.pieces()),
    ;

    /// The placeholders of a statement are numbered 1, 2, ... from left to
    /// right, without a gap and none twice, and there are as many of them as
    /// bound values: the placeholder `$k` stands for the value at index
    /// `k - 1`.
    proof fn lemma_placeholders_number_values(&self)
        ensures
            pieces::numbers_in(self.pieces()) == text::numbers(1, self.values().len()),
    ;

    /// Whether the placeholders can be numbered: there are fewer than
    /// `usize::MAX` values to bind, so that every placeholder number and the
    /// index behind the last one are a `usize`.
    fn fits(&self) -> (fits: bool)
        ensures
            fits == (self.values().len() < usize::MAX),
    ;

    /// Finalizes the statement: renders its text and hands the bound values
    /// over in the order of their placeholders. The text holds one
    /// placeholder for each value, numbered 1, 2, ... from left to right.
    fn into_query(self) -> (query: Query<V>)
        requires
            self.values().len() < usize::MAX,
        ensures
            query.0@ == self.text(),
            query.1@ == self.values(),
            query.0@ == pieces::rendered(self.pieces()),
            pieces::numbers_in(self.pieces()) == text::numbers(1, query.1@.len()),
    ;
}

impl Limit {
    /// The limit as it stands in a statement.
    pub open spec fn text(&self) -> Seq<char> {
        text::decimal(self.0 as nat)
    }

    /// Renders the limit as a decimal number.
    pub fn to_string(&self) -> (s: String)
        ensures
            s@ == self.text(),
    {
        text::decimal_string(self.0)
    }
}

impl Offset {
    /// The offset as it stands in a statement.
    pub open spec fn text(&self) -> Seq<char> {
        text::decimal(self.0 as nat)
    }

    /// Renders the offset as a decimal number.
    pub fn to_string(&self) -> (s: String)
        ensures
            s@ == self.text(),
    {
        text::decimal_string(self.0)
    }
}

impl Dir {
    /// The keyword of the direction.
    pub open spec fn text(&self) -> Seq<char> {
        match self {
            Dir::Asc => "ASC"@,
            Dir::Desc => "DESC"@,
        }
    }

    /// Renders the keyword of the direction.
    pub fn to_string(&self) -> (s: String)
        ensures
            s@ == self.text(),
    {
        match self {
            Dir::Asc => "ASC".to_owned(),
            Dir::Desc => "DESC".to_owned(),
        }
    }
}

} // verus!
