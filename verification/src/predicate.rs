//! Predicates: a comparison operator with its operands.

use crate::text::{joined, numbers, placeholder, placeholder_string};
use crate::util::placeholders;
use std::borrow::Cow;
use vstd::prelude::*;

verus! {

/// A comparison of a column with bound values.
#[derive(Debug)]
#[verifier::reject_recursive_types(V)]
pub enum Predicate<'a, V: Clone> {
    Equal(V),
    NotEqual(V),
    Greater(V),
    GreaterOrEqual(V),
    Less(V),
    LessOrEqual(V),
    In(Cow<'a, [V]>),
    Between(V, V),
    Like(V),
    IsNull,
    IsNotNull,
}

/// The operands that a list holds, in order.
pub open spec fn listed<V: Clone>(list: Cow<'_, [V]>) -> Seq<V> {
    match list {
        Cow::Borrowed(borrowed) => borrowed@,
        Cow::Owned(owned) => owned@,
    }
}

/// The number of operands that a list holds.
fn list_len<V: Clone>(list: &Cow<'_, [V]>) -> (len: usize)
    ensures
        len == listed(*list).len(),
{
    match list {
        Cow::Borrowed(borrowed) => borrowed.len(),
        Cow::Owned(owned) => owned.len(),
    }
}

/// The operand at a position of a list.
fn list_item<V: Copy>(list: &Cow<'_, [V]>, index: usize) -> (item: V)
    requires
        index < listed(*list).len(),
    ensures
        item == listed(*list)[index as int],
{
    match list {
        Cow::Borrowed(borrowed) => borrowed[index],
        Cow::Owned(owned) => owned[index],
    }
}

/// An operator and the placeholder of its one operand.
fn unary(operator: &str, first: usize) -> (text: String)
    ensures
        text@ == operator@ + placeholder(first as nat),
{
    let mut text = operator.to_owned();
    text.append(placeholder_string(first).as_str());
    text
}

impl<'a, V: Clone> Predicate<'a, V> {
    /// The operands, from left to right.
    pub open spec fn values(&self) -> Seq<V> {
        match self {
            Predicate::Equal(value) => seq![*value],
            Predicate::NotEqual(value) => seq![*value],
            Predicate::Greater(value) => seq![*value],
            Predicate::GreaterOrEqual(value) => seq![*value],
            Predicate::Less(value) => seq![*value],
            Predicate::LessOrEqual(value) => seq![*value],
            Predicate::In(values) => listed(*values),
            Predicate::Between(low, high) => seq![*low, *high],
            Predicate::Like(value) => seq![*value],
            Predicate::IsNull => Seq::empty(),
            Predicate::IsNotNull => Seq::empty(),
        }
    }

    /// The number of operands, which is the number of placeholders in the
    /// predicate's text.
    pub open spec fn arity(&self) -> nat {
        match self {
            Predicate::In(values) => listed(*values).len(),
            Predicate::Between(_, _) => 2,
            Predicate::IsNull => 0,
            Predicate::IsNotNull => 0,
            _ => 1,
        }
    }

    /// The numbers of the placeholders in the predicate's text, from left to
    /// right, where `first` is the first number that is free: the operand
    /// `values()[j]` is bound to the placeholder numbered `slots(first)[j]`.
    pub open spec fn slots(&self, first: nat) -> Seq<nat> {
        numbers(first, self.arity())
    }

    /// The text of the predicate, where `first` is the first placeholder
    /// number that is free: the operator, with the placeholders numbered
    /// `slots(first)` from left to right.
    pub open spec fn placeholder_text(&self, first: nat) -> Seq<char> {
        let slots = self.slots(first);
        match self {
            Predicate::Equal(_) => "= "@ + placeholder(slots[0]),
            Predicate::NotEqual(_) => "<> "@ + placeholder(slots[0]),
            Predicate::Greater(_) => "> "@ + placeholder(slots[0]),
            Predicate::GreaterOrEqual(_) => ">= "@ + placeholder(slots[0]),
            Predicate::Less(_) => "< "@ + placeholder(slots[0]),
            Predicate::LessOrEqual(_) => "<= "@ + placeholder(slots[0]),
            Predicate::In(_) => "IN ("@ + joined(
                slots.map_values(|n: nat| placeholder(n)),
                ", "@,
            ) + ")"@,
            Predicate::Between(_, _) => "BETWEEN "@ + placeholder(slots[0]) + " AND "@
                + placeholder(slots[1]),
            Predicate::Like(_) => "LIKE "@ + placeholder(slots[0]),
            Predicate::IsNull => "IS NULL"@,
            Predicate::IsNotNull => "IS NOT NULL"@,
        }
    }

    /// Whether two predicates differ at most in the values of their operands:
    /// they have the same operator and the same number of operands.
    pub open spec fn same_form(&self, other: &Predicate<V>) -> bool {
        match (self, other) {
            (Predicate::Equal(_), Predicate::Equal(_)) => true,
            (Predicate::NotEqual(_), Predicate::NotEqual(_)) => true,
            (Predicate::Greater(_), Predicate::Greater(_)) => true,
            (Predicate::GreaterOrEqual(_), Predicate::GreaterOrEqual(_)) => true,
            (Predicate::Less(_), Predicate::Less(_)) => true,
            (Predicate::LessOrEqual(_), Predicate::LessOrEqual(_)) => true,
            (Predicate::In(left), Predicate::In(right)) => listed(*left).len() == listed(
                *right,
            ).len(),
            (Predicate::Between(_, _), Predicate::Between(_, _)) => true,
            (Predicate::Like(_), Predicate::Like(_)) => true,
            (Predicate::IsNull, Predicate::IsNull) => true,
            (Predicate::IsNotNull, Predicate::IsNotNull) => true,
            _ => false,
        }
    }

    /// A predicate has one placeholder for each of its operands: the
    /// placeholders are numbered `first`, `first + 1`, ... from left to
    /// right, and the operand at position `j` belongs to the one numbered
    /// `first + j`.
    pub proof fn lemma_operands_match_placeholders(&self, first: nat)
        ensures
            self.values().len() == self.arity(),
            self.slots(first).len() == self.arity(),
            forall|j: int| 0 <= j < self.arity() ==> #[trigger] self.slots(first)[j] == first + j,
    {
    }

    /// The text of a predicate does not depend on the values of its
    /// operands.
    pub proof fn lemma_same_form_same_text(&self, other: &Predicate<V>, first: nat)
        requires
            self.same_form(other),
        ensures
            self.arity() == other.arity(),
            self.placeholder_text(first) == other.placeholder_text(first),
    {
    }

    /// The number of operands.
    pub fn operand_count(&self) -> (count: usize)
        ensures
            count == self.arity(),
    {
        match self {
            Predicate::In(values) => list_len(values),
            Predicate::Between(_, _) => 2,
            Predicate::IsNull => 0,
            Predicate::IsNotNull => 0,
            _ => 1,
        }
    }

    /// Renders the predicate with the placeholders of its operands, the first
    /// of them numbered `*placeholder_idx`, and moves the index past them.
    pub fn to_placeholder_string(&self, placeholder_idx: &mut usize) -> (text: Cow<'static, str>)
        requires
            *old(placeholder_idx) + self.arity() <= usize::MAX,
        ensures
            text@ == self.placeholder_text(*old(placeholder_idx) as nat),
            *final(placeholder_idx) == *old(placeholder_idx) + self.arity(),
    {
        let first = *placeholder_idx;
        let text: Cow<'static, str> = match self {
            Predicate::Equal(_) => Cow::Owned(unary("= ", first)),
            Predicate::NotEqual(_) => Cow::Owned(unary("<> ", first)),
            Predicate::Greater(_) => Cow::Owned(unary("> ", first)),
            Predicate::GreaterOrEqual(_) => Cow::Owned(unary(">= ", first)),
            Predicate::Less(_) => Cow::Owned(unary("< ", first)),
            Predicate::LessOrEqual(_) => Cow::Owned(unary("<= ", first)),
            Predicate::In(values) => {
                let mut result = String::new();
                result.append("IN (");
                result.append(placeholders(first, list_len(values)).as_str());
                result.append(")");
                Cow::Owned(result)
            },
            Predicate::Between(_, _) => {
                let mut result = unary("BETWEEN ", first);
                result.append(" AND ");
                result.append(placeholder_string(first + 1).as_str());
                Cow::Owned(result)
            },
            Predicate::Like(_) => Cow::Owned(unary("LIKE ", first)),
            Predicate::IsNull => Cow::Borrowed("IS NULL"),
            Predicate::IsNotNull => Cow::Borrowed("IS NOT NULL"),
        };
        *placeholder_idx = first + self.operand_count();
        text
    }

    /// Hands out the operands one by one, from left to right: as many as the
    /// predicate has placeholders.
    pub fn into_values_iter(self) -> (iter: ValuesIter<'a, V>)
        ensures
            iter.remaining() == self.values(),
            iter.remaining().len() == self.arity(),
    {
        let iter = ValuesIter { index: 0, inner: self };
        iter
    }
}

/// The operands of a predicate that are still to be handed out.
#[verifier::reject_recursive_types(V)]
pub struct ValuesIter<'a, V: Clone> {
    index: usize,
    inner: Predicate<'a, V>,
}

impl<'a, V: Clone> ValuesIter<'a, V> {
    /// The operands that are still to come, the next one first.
    pub closed spec fn remaining(&self) -> Seq<V> {
        if self.index <= self.inner.values().len() {
            self.inner.values().skip(self.index as int)
        } else {
            Seq::empty()
        }
    }
}

impl<'a, V: Copy> ValuesIter<'a, V> {
    /// Hands out the next operand, or `None` when all have been handed out.
    pub fn next(&mut self) -> (value: Option<V>)
        ensures
            old(self).remaining().len() == 0 ==> {
                &&& value is None
                &&& final(self).remaining() == old(self).remaining()
            },
            old(self).remaining().len() > 0 ==> {
                &&& value == Some(old(self).remaining()[0])
                &&& final(self).remaining() == old(self).remaining().drop_first()
            },
    {
        let index = self.index;
        let result = match &self.inner {
            Predicate::Equal(value) => if index == 0 { Some(*value) } else { None },
            Predicate::NotEqual(value) => if index == 0 { Some(*value) } else { None },
            Predicate::Greater(value) => if index == 0 { Some(*value) } else { None },
            Predicate::GreaterOrEqual(value) => if index == 0 { Some(*value) } else { None },
            Predicate::Less(value) => if index == 0 { Some(*value) } else { None },
            Predicate::LessOrEqual(value) => if index == 0 { Some(*value) } else { None },
            Predicate::In(values) => if index < list_len(values) {
                Some(list_item(values, index))
            } else {
                None
            },
            Predicate::Between(low, high) => if index == 0 {
                Some(*low)
            } else if index == 1 {
                Some(*high)
            } else {
                None
            },
            Predicate::Like(value) => if index == 0 { Some(*value) } else { None },
            Predicate::IsNull => None,
            Predicate::IsNotNull => None,
        };
        if result.is_some() {
            self.index = index + 1;
        }
        result
    }
}

} // verus!
