use pg_query_builder::Predicate;
use postgres::types::ToSql;
use std::borrow::Cow;

fn check_predicate(predicate: Predicate<&dyn ToSql>, string: &str, placeholder_increment: usize) {
    let mut index = 1;
    let previous_index = index;
    assert_eq!(predicate.to_placeholder_string(&mut index), string);
    assert_eq!(previous_index + placeholder_increment, index);
}

#[test]
fn predicates() {
    let value = 0;
    let values: [&dyn ToSql; 3] = [&0, &1, &2];

    check_predicate(Predicate::Equal(&value), "= $1", 1);
    check_predicate(Predicate::NotEqual(&value), "<> $1", 1);
    check_predicate(Predicate::Greater(&value), "> $1", 1);
    check_predicate(Predicate::GreaterOrEqual(&value), ">= $1", 1);
    check_predicate(Predicate::Less(&value), "< $1", 1);
    check_predicate(Predicate::LessOrEqual(&value), "<= $1", 1);
    check_predicate(Predicate::In(Cow::Borrowed(&values)), "IN ($1, $2, $3)", 3);
    check_predicate(Predicate::Between(&value, &value), "BETWEEN $1 AND $2", 2);
    check_predicate(Predicate::Like(&value), "LIKE $1", 1);
    check_predicate(Predicate::IsNull, "IS NULL", 0);
    check_predicate(Predicate::IsNotNull, "IS NOT NULL", 0);
}

fn drain(predicate: Predicate<i32>) -> Vec<i32> {
    let mut iter = predicate.into_values_iter();
    let mut values = Vec::new();
    while let Some(value) = iter.next() {
        values.push(value);
    }
    assert_eq!(iter.next(), None);
    assert_eq!(iter.next(), None);
    values
}

#[test]
fn predicates_from_a_later_index() {
    let mut index = 9;
    assert_eq!(Predicate::Equal(0).to_placeholder_string(&mut index), "= $9");
    assert_eq!(index, 10);
    assert_eq!(Predicate::Between(0, 0).to_placeholder_string(&mut index), "BETWEEN $10 AND $11");
    assert_eq!(index, 12);
    assert_eq!(Predicate::In(vec![0, 0].into()).to_placeholder_string(&mut index), "IN ($12, $13)");
    assert_eq!(index, 14);
    assert_eq!(Predicate::<i32>::IsNull.to_placeholder_string(&mut index), "IS NULL");
    assert_eq!(index, 14);
    assert_eq!(Predicate::Like(0).to_placeholder_string(&mut index), "LIKE $14");
    assert_eq!(index, 15);
}

#[test]
fn empty_in_list_renders_empty_brackets() {
    let mut index = 4;
    let predicate: Predicate<i32> = Predicate::In(Cow::Borrowed(&[]));
    assert_eq!(predicate.to_placeholder_string(&mut index), "IN ()");
    assert_eq!(index, 4);
    assert_eq!(predicate.operand_count(), 0);
    assert_eq!(drain(predicate), Vec::<i32>::new());
}

#[test]
fn predicate_at_the_last_index() {
    let mut index = usize::MAX - 1;
    let text = Predicate::Equal(0).to_placeholder_string(&mut index);
    assert_eq!(text, format!("= ${}", usize::MAX - 1));
    assert_eq!(index, usize::MAX);
    let text = Predicate::<i32>::IsNotNull.to_placeholder_string(&mut index);
    assert_eq!(text, "IS NOT NULL");
    assert_eq!(index, usize::MAX);
}

#[test]
fn values_come_in_the_order_of_the_placeholders() {
    assert_eq!(drain(Predicate::Equal(1)), vec![1]);
    assert_eq!(drain(Predicate::NotEqual(2)), vec![2]);
    assert_eq!(drain(Predicate::Greater(3)), vec![3]);
    assert_eq!(drain(Predicate::GreaterOrEqual(4)), vec![4]);
    assert_eq!(drain(Predicate::Less(5)), vec![5]);
    assert_eq!(drain(Predicate::LessOrEqual(6)), vec![6]);
    assert_eq!(drain(Predicate::In(vec![7, 8, 9].into())), vec![7, 8, 9]);
    assert_eq!(drain(Predicate::Between(10, 11)), vec![10, 11]);
    assert_eq!(drain(Predicate::Like(12)), vec![12]);
    assert_eq!(drain(Predicate::IsNull), Vec::<i32>::new());
    assert_eq!(drain(Predicate::IsNotNull), Vec::<i32>::new());
}

#[test]
fn as_many_values_as_placeholders() {
    let predicates: Vec<Predicate<i32>> = vec![
        Predicate::Equal(1),
        Predicate::NotEqual(1),
        Predicate::Greater(1),
        Predicate::GreaterOrEqual(1),
        Predicate::Less(1),
        Predicate::LessOrEqual(1),
        Predicate::In(vec![].into()),
        Predicate::In(vec![1].into()),
        Predicate::In(vec![1, 2, 3, 4].into()),
        Predicate::Between(1, 2),
        Predicate::Like(1),
        Predicate::IsNull,
        Predicate::IsNotNull,
    ];
    for predicate in predicates {
        let mut index = 5;
        let text = predicate.to_placeholder_string(&mut index);
        let count = predicate.operand_count();
        assert_eq!(index, 5 + count);
        assert_eq!(text.matches('$').count(), count);
        assert_eq!(drain(predicate).len(), count);
    }
}
