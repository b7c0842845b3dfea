use pg_query_builder::text::{as_str, decimal_string, placeholder_string};
use pg_query_builder::util::{
    assigned_columns, assigned_values, assignment_list, condition_list, condition_values,
    keyword_list, order_list, placeholders, push_returning, push_where, render_conditions,
    selected_columns, total_arity_fits,
};
use pg_query_builder::{
    escape, Assignment, Condition, Dir, Limit, Offset, Order, Predicate, Selection,
};
use std::borrow::Cow;

#[test]
fn escape_wraps_in_double_quotes() {
    assert_eq!(escape("name"), "\"name\"");
    assert_eq!(escape(""), "\"\"");
    assert_eq!(escape("two words"), "\"two words\"");
}

#[test]
fn escape_doubles_embedded_double_quotes() {
    assert_eq!(escape("a\"b"), "\"a\"\"b\"");
    assert_eq!(escape("\""), "\"\"\"\"");
    assert_eq!(escape("\"\""), "\"\"\"\"\"\"");
    assert_eq!(escape("x\"; DROP TABLE y; --"), "\"x\"\"; DROP TABLE y; --\"");
}

#[test]
fn escape_leaves_other_characters_alone() {
    assert_eq!(escape("it's"), "\"it's\"");
    assert_eq!(escape("back\\slash"), "\"back\\slash\"");
    assert_eq!(escape("größe"), "\"größe\"");
    assert_eq!(escape("$1"), "\"$1\"");
}

#[test]
fn decimal_strings() {
    assert_eq!(decimal_string(0), "0");
    assert_eq!(decimal_string(7), "7");
    assert_eq!(decimal_string(10), "10");
    assert_eq!(decimal_string(109), "109");
    assert_eq!(decimal_string(12345), "12345");
    assert_eq!(decimal_string(usize::MAX), usize::MAX.to_string());
}

#[test]
fn names_as_text() {
    assert_eq!(as_str(&Cow::Borrowed("id")), "id");
    assert_eq!(as_str(&Cow::Owned(String::from("name"))), "name");
}

#[test]
fn placeholder_strings() {
    assert_eq!(placeholder_string(1), "$1");
    assert_eq!(placeholder_string(20), "$20");
}

#[test]
fn placeholders_in_a_row() {
    assert_eq!(placeholders(1, 0), "");
    assert_eq!(placeholders(1, 1), "$1");
    assert_eq!(placeholders(1, 3), "$1, $2, $3");
    assert_eq!(placeholders(9, 3), "$9, $10, $11");
    assert_eq!(placeholders(usize::MAX, 0), "");
}

#[test]
fn keyword_lists() {
    let id: Cow<'static, str> = Cow::Borrowed("id");
    let name: Cow<'static, str> = Cow::Owned(String::from("name"));
    let age: Cow<'static, str> = "age".into();
    assert_eq!(keyword_list(&vec![]), "");
    assert_eq!(keyword_list(&vec![&id]), "id");
    assert_eq!(keyword_list(&vec![&id, &name, &age]), "id, name, age");
}

#[test]
fn assignment_lists() {
    let none: Vec<Assignment<i32>> = vec![];
    assert_eq!(assignment_list(&none, 1), "");
    assert_eq!(assignment_list(&none, usize::MAX), "");
    let assignments = vec![Assignment("name".into(), 0), Assignment("age".into(), 0)];
    assert_eq!(assignment_list(&assignments, 1), "name = $1, age = $2");
    assert_eq!(assignment_list(&assignments, 5), "name = $5, age = $6");
    assert_eq!(assigned_columns(&assignments), vec!["name", "age"]);
    let assignments = vec![Assignment("a".into(), 3), Assignment("b".into(), 4)];
    assert_eq!(assigned_values(&assignments), vec![3, 4]);
}

#[test]
fn condition_lists() {
    let none: Vec<Condition<i32>> = vec![];
    assert_eq!(condition_list(&none, 1), "");
    let conditions = vec![
        Condition("a".into(), Predicate::In(vec![1, 2].into())),
        Condition("b".into(), Predicate::Between(3, 4)),
        Condition("c".into(), Predicate::IsNull),
        Condition("d".into(), Predicate::Equal(5)),
    ];
    assert_eq!(
        condition_list(&conditions, 3),
        "a IN ($3, $4) AND b BETWEEN $5 AND $6 AND c IS NULL AND d = $7"
    );
    assert_eq!(condition_values(conditions), vec![1, 2, 3, 4, 5]);
}

#[test]
fn the_index_advances_by_the_sum_of_the_arities() {
    let conditions = vec![
        Condition("a".into(), Predicate::In(vec![0, 0, 0].into())),
        Condition("b".into(), Predicate::IsNotNull),
        Condition("c".into(), Predicate::Between(0, 0)),
        Condition("d".into(), Predicate::Like(0)),
    ];
    let offset = 4;
    let mut index = offset;
    for condition in &conditions {
        condition.1.to_placeholder_string(&mut index);
    }
    assert_eq!(index, offset + 3 + 0 + 2 + 1);
    let mut threaded = offset;
    let text = render_conditions(&conditions, &mut threaded);
    assert_eq!(threaded, index);
    assert_eq!(text, "a IN ($4, $5, $6) AND b IS NOT NULL AND c BETWEEN $7 AND $8 AND d LIKE $9");
    assert_eq!(text, condition_list(&conditions, offset));
    let none: Vec<Condition<i32>> = vec![];
    let mut unmoved = 12;
    assert_eq!(render_conditions(&none, &mut unmoved), "");
    assert_eq!(unmoved, 12);
    assert!(total_arity_fits(&conditions, usize::MAX - 6));
    assert!(!total_arity_fits(&conditions, usize::MAX - 5));
}

#[test]
fn order_lists() {
    assert_eq!(order_list(&vec![]), "");
    assert_eq!(order_list(&vec![Order("a".into(), Dir::Asc)]), "a ASC");
    assert_eq!(
        order_list(&vec![Order("a".into(), Dir::Desc), Order("b".into(), Dir::Asc)]),
        "a DESC, b ASC"
    );
}

#[test]
fn clauses_are_left_out_when_empty() {
    let mut text = String::from("X");
    let none: Vec<Condition<i32>> = vec![];
    push_where(&mut text, &none, 1);
    push_returning(&mut text, &vec![]);
    assert_eq!(text, "X");
    push_where(&mut text, &vec![Condition("a".into(), Predicate::Less(1))], 2);
    push_returning(&mut text, &vec![Selection("b".into()), Selection("c".into())]);
    assert_eq!(text, "X WHERE a < $2 RETURNING b, c");
    assert_eq!(selected_columns(&vec![Selection("b".into())]), vec!["b"]);
}

#[test]
fn fragments_as_text() {
    assert_eq!(Dir::Asc.to_string(), "ASC");
    assert_eq!(Dir::Desc.to_string(), "DESC");
    assert_eq!(Limit(20).to_string(), "20");
    assert_eq!(Limit(0).to_string(), "0");
    assert_eq!(Offset(5).to_string(), "5");
    assert_eq!(Offset(1000).to_string(), "1000");
}
