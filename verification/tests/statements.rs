use pg_query_builder::{
    Assignment, Condition, Delete, Dir, Insert, Limit, Offset, Order, Predicate, Select,
    Selection, Statement, Update,
};
use postgres::types::ToSql;

fn shown(values: &[&dyn ToSql]) -> Vec<String> {
    values.iter().map(|value| format!("{:?}", value)).collect()
}

#[test]
fn delete() {
    let expected = "DELETE FROM test_table WHERE id = $1;";

    let id = 1;

    {
        let mut delete: Delete<&dyn ToSql> = Delete::new("test_table".into());
        delete.add_condition(Condition("id".into(), Predicate::Equal(&id)));
        assert_eq!(delete.into_query().0, expected);
    }
}

#[test]
fn insert() {
    let expected = "INSERT INTO test_table (name, age) VALUES ($1, $2) RETURNING id;";
    let skyler = "Skyler";
    let age = 23;

    {
        let mut insert: Insert<&dyn ToSql> = Insert::new("test_table".into());
        insert.add_assignment(Assignment("name".into(), &skyler));
        insert.add_assignment(Assignment("age".into(), &age));
        insert.add_selection(Selection("id".into()));
        assert_eq!(insert.into_query().0, expected);
    }
}

#[test]
fn default_insert() {
    let expected = "INSERT INTO test_table DEFAULT VALUES RETURNING id;";

    {
        let mut insert: Insert<&dyn ToSql> = Insert::new("test_table".into());
        insert.add_selection(Selection("id".into()));
        assert_eq!(insert.into_query().0, expected);
    }
}

#[test]
fn select() {
    let expected = "SELECT name FROM test_table WHERE id = $1 AND xyz < $2;";

    let id = 1;

    {
        let mut select: Select<&dyn ToSql> = Select::new("test_table".into());
        select.add_selection(Selection("name".into()));
        select.add_condition(Condition("id".into(), Predicate::Equal(&id)));
        select.add_condition(Condition("xyz".into(), Predicate::Less(&id)));
        assert_eq!(select.into_query().0, expected);
    }
}

#[test]
fn select_all() {
    let expected = "SELECT * FROM test_table WHERE id = $1 LIMIT 20 OFFSET 5;";

    let id = 1;

    {
        let mut select: Select<&dyn ToSql> = Select::new("test_table".into());
        select.add_condition(Condition("id".into(), Predicate::Equal(&id)));
        select.set_limit(Limit(20));
        select.set_offset(Offset(5));
        assert_eq!(select.into_query().0, expected);
    }
}

#[test]
fn update() {
    let expected = "UPDATE test_table SET name = $1, age = $2 WHERE id = $3 RETURNING id;";

    let skyler = "Skyler";
    let age = 23;
    let id = 1;

    {
        let mut update: Update<&dyn ToSql> = Update::new("test_table".into());
        update.add_assignment(Assignment("name".into(), &skyler));
        update.add_assignment(Assignment("age".into(), &age));
        update.add_condition(Condition("id".into(), Predicate::Equal(&id)));
        update.add_selection(Selection("id".into()));
        assert_eq!(update.into_query().0, expected);
    }
}

#[test]
fn delete_binds_the_operand() {
    let id = 1;
    let mut delete: Delete<&dyn ToSql> = Delete::new("test_table".into());
    delete.add_condition(Condition("id".into(), Predicate::Equal(&id)));
    let query = delete.into_query();
    assert_eq!(query.0, "DELETE FROM test_table WHERE id = $1;");
    assert_eq!(shown(&query.1), vec!["1"]);
}

#[test]
fn delete_without_condition_has_no_where() {
    let delete: Delete<i32> = Delete::new("test_table".into());
    let query = delete.into_query();
    assert_eq!(query.0, "DELETE FROM test_table;");
    assert_eq!(query.1, Vec::<i32>::new());
}

#[test]
fn delete_takes_conditions_one_by_one_and_in_batches() {
    let mut delete: Delete<i32> = Delete::new("t".into());
    delete.add_condition(Condition("a".into(), Predicate::Equal(1)));
    delete.add_conditions(vec![
        Condition("b".into(), Predicate::In(vec![2, 3].into())),
        Condition("c".into(), Predicate::IsNull),
    ]);
    delete.add_condition(Condition("d".into(), Predicate::Between(4, 5)));
    let query = delete.into_query();
    assert_eq!(
        query.0,
        "DELETE FROM t WHERE a = $1 AND b IN ($2, $3) AND c IS NULL AND d BETWEEN $4 AND $5;"
    );
    assert_eq!(query.1, vec![1, 2, 3, 4, 5]);
}

#[test]
fn insert_binds_the_assigned_values_in_order() {
    let skyler = "Skyler";
    let age = 23;
    let mut insert: Insert<&dyn ToSql> = Insert::new("test_table".into());
    insert.add_assignment(Assignment("name".into(), &skyler));
    insert.add_assignment(Assignment("age".into(), &age));
    insert.add_selection(Selection("id".into()));
    let query = insert.into_query();
    assert_eq!(query.0, "INSERT INTO test_table (name, age) VALUES ($1, $2) RETURNING id;");
    assert_eq!(shown(&query.1), vec!["\"Skyler\"", "23"]);
}

#[test]
fn default_insert_binds_nothing() {
    let mut insert: Insert<&dyn ToSql> = Insert::new("test_table".into());
    insert.add_selection(Selection("id".into()));
    let query = insert.into_query();
    assert_eq!(query.0, "INSERT INTO test_table DEFAULT VALUES RETURNING id;");
    assert!(query.1.is_empty());
}

#[test]
fn insert_takes_batches() {
    let mut insert: Insert<&str> = Insert::new("people".into());
    insert.add_assignments(vec![Assignment("first".into(), "a"), Assignment("last".into(), "b")]);
    insert.add_assignment(Assignment("nick".into(), "c"));
    insert.add_selections(vec![Selection("id".into()), Selection("created".into())]);
    insert.add_selection(Selection("nick".into()));
    let query = insert.into_query();
    assert_eq!(
        query.0,
        "INSERT INTO people (first, last, nick) VALUES ($1, $2, $3) RETURNING id, created, nick;"
    );
    assert_eq!(query.1, vec!["a", "b", "c"]);
}

#[test]
fn insert_without_selection_has_no_returning() {
    let mut insert: Insert<i32> = Insert::new("t".into());
    insert.add_assignment(Assignment("a".into(), 7));
    let query = insert.into_query();
    assert_eq!(query.0, "INSERT INTO t (a) VALUES ($1);");
    assert_eq!(query.1, vec![7]);
}

#[test]
fn select_binds_the_operands_in_condition_order() {
    let id = 1;
    let xyz = 9;
    let mut select: Select<&dyn ToSql> = Select::new("test_table".into());
    select.add_selection(Selection("name".into()));
    select.add_condition(Condition("id".into(), Predicate::Equal(&id)));
    select.add_condition(Condition("xyz".into(), Predicate::Less(&xyz)));
    let query = select.into_query();
    assert_eq!(query.0, "SELECT name FROM test_table WHERE id = $1 AND xyz < $2;");
    assert_eq!(shown(&query.1), vec!["1", "9"]);
}

#[test]
fn select_with_every_clause() {
    let mut select: Select<i64> = Select::new("events".into());
    select.add_selections(vec![Selection("id".into()), Selection("kind".into())]);
    select.add_conditions(vec![
        Condition("kind".into(), Predicate::In(vec![1, 2, 3].into())),
        Condition("at".into(), Predicate::Between(10, 20)),
    ]);
    select.add_condition(Condition("gone".into(), Predicate::IsNotNull));
    select.add_condition(Condition("name".into(), Predicate::Like(30)));
    select.add_order(Order("at".into(), Dir::Desc));
    select.add_orders(vec![Order("id".into(), Dir::Asc)]);
    select.set_limit(Limit(100));
    select.set_offset(Offset(0));
    let query = select.into_query();
    assert_eq!(
        query.0,
        "SELECT id, kind FROM events WHERE kind IN ($1, $2, $3) AND at BETWEEN $4 AND $5 \
         AND gone IS NOT NULL AND name LIKE $6 ORDER BY at DESC, id ASC LIMIT 100 OFFSET 0;"
    );
    assert_eq!(query.1, vec![1, 2, 3, 10, 20, 30]);
}

#[test]
fn select_of_a_bare_table() {
    let select: Select<i32> = Select::new("t".into());
    let query = select.into_query();
    assert_eq!(query.0, "SELECT * FROM t;");
    assert!(query.1.is_empty());
}

#[test]
fn select_keeps_the_last_limit_and_offset() {
    let mut select: Select<i32> = Select::new("t".into());
    select.set_limit(Limit(1));
    select.set_offset(Offset(2));
    select.set_limit(Limit(3));
    select.set_offset(Offset(4));
    assert_eq!(select.into_query().0, "SELECT * FROM t LIMIT 3 OFFSET 4;");
}

#[test]
fn select_offset_without_limit() {
    let mut select: Select<i32> = Select::new("t".into());
    select.set_offset(Offset(7));
    assert_eq!(select.into_query().0, "SELECT * FROM t OFFSET 7;");
}

#[test]
fn select_with_an_empty_in_list() {
    let mut select: Select<i32> = Select::new("t".into());
    select.add_condition(Condition("a".into(), Predicate::In(vec![].into())));
    select.add_condition(Condition("b".into(), Predicate::Equal(5)));
    let query = select.into_query();
    assert_eq!(query.0, "SELECT * FROM t WHERE a IN () AND b = $1;");
    assert_eq!(query.1, vec![5]);
}

#[test]
fn update_hands_the_numbering_over_to_the_conditions() {
    let skyler = "Skyler";
    let age = 23;
    let id = 1;
    let mut update: Update<&dyn ToSql> = Update::new("test_table".into());
    update.add_assignment(Assignment("name".into(), &skyler));
    update.add_assignment(Assignment("age".into(), &age));
    update.add_condition(Condition("id".into(), Predicate::Equal(&id)));
    update.add_selection(Selection("id".into()));
    let query = update.into_query();
    assert_eq!(
        query.0,
        "UPDATE test_table SET name = $1, age = $2 WHERE id = $3 RETURNING id;"
    );
    assert_eq!(shown(&query.1), vec!["\"Skyler\"", "23", "1"]);
}

#[test]
fn update_without_assignment_is_the_no_op() {
    let mut update: Update<i32> = Update::new("t".into());
    update.add_condition(Condition("id".into(), Predicate::Equal(1)));
    update.add_selection(Selection("id".into()));
    let query = update.into_query();
    assert_eq!(query.0, "NULL;");
    assert!(query.1.is_empty());
}

#[test]
fn update_takes_batches() {
    let mut update: Update<i32> = Update::new("t".into());
    update.add_assignments(vec![Assignment("a".into(), 1), Assignment("b".into(), 2)]);
    update.add_assignment(Assignment("c".into(), 3));
    update.add_conditions(vec![
        Condition("d".into(), Predicate::In(vec![4, 5].into())),
        Condition("e".into(), Predicate::NotEqual(6)),
    ]);
    update.add_selections(vec![Selection("a".into()), Selection("b".into())]);
    let query = update.into_query();
    assert_eq!(
        query.0,
        "UPDATE t SET a = $1, b = $2, c = $3 WHERE d IN ($4, $5) AND e <> $6 RETURNING a, b;"
    );
    assert_eq!(query.1, vec![1, 2, 3, 4, 5, 6]);
}

#[test]
fn update_without_condition_or_selection() {
    let mut update: Update<i32> = Update::new("t".into());
    update.add_assignment(Assignment("a".into(), 1));
    let query = update.into_query();
    assert_eq!(query.0, "UPDATE t SET a = $1;");
    assert_eq!(query.1, vec![1]);
}

#[test]
fn every_placeholder_has_its_value() {
    let mut update: Update<usize> = Update::new("t".into());
    update.add_assignment(Assignment("a".into(), 1));
    update.add_assignment(Assignment("b".into(), 2));
    update.add_condition(Condition("c".into(), Predicate::Between(3, 4)));
    update.add_condition(Condition("d".into(), Predicate::IsNull));
    update.add_condition(Condition("e".into(), Predicate::In(vec![5, 6, 7].into())));
    update.add_condition(Condition("f".into(), Predicate::GreaterOrEqual(8)));
    let query = update.into_query();
    // each value was chosen equal to the number of its placeholder
    for (index, value) in query.1.iter().enumerate() {
        assert_eq!(*value, index + 1);
        assert!(query.0.contains(&format!("${}", value)));
    }
    assert!(!query.0.contains(&format!("${}", query.1.len() + 1)));
    assert!(!query.0.contains("$0"));
}

#[test]
fn the_same_fragments_give_the_same_text() {
    let build = |first: i32, second: i32| {
        let mut select: Select<i32> = Select::new("t".into());
        select.add_selection(Selection("a".into()));
        select.add_condition(Condition("b".into(), Predicate::In(vec![first, second].into())));
        select.add_order(Order("a".into(), Dir::Asc));
        select.set_limit(Limit(3));
        select.into_query()
    };
    let one = build(1, 2);
    let two = build(1, 2);
    let other_values = build(8, 9);
    assert_eq!(one.0, two.0);
    assert_eq!(one.0.as_bytes(), two.0.as_bytes());
    assert_eq!(one.1, two.1);
    assert_eq!(one.0, other_values.0);
    assert_eq!(one.0, "SELECT a FROM t WHERE b IN ($1, $2) ORDER BY a ASC LIMIT 3;");
}

#[test]
fn ordinary_statements_fit() {
    let mut select: Select<i32> = Select::new("t".into());
    select.add_condition(Condition("a".into(), Predicate::In(vec![1, 2, 3].into())));
    assert!(select.fits());
    let mut update: Update<i32> = Update::new("t".into());
    assert!(update.fits());
    update.add_assignment(Assignment("a".into(), 1));
    update.add_condition(Condition("b".into(), Predicate::Equal(2)));
    assert!(update.fits());
    let mut insert: Insert<i32> = Insert::new("t".into());
    insert.add_assignment(Assignment("a".into(), 1));
    assert!(insert.fits());
    let delete: Delete<i32> = Delete::new("t".into());
    assert!(delete.fits());
}

#[test]
fn values_without_a_size_may_not_fit() {
    let mut delete: Delete<()> = Delete::new("t".into());
    delete.add_condition(Condition("a".into(), Predicate::In(vec![(); usize::MAX].into())));
    assert!(!delete.fits());
    let mut select: Select<()> = Select::new("t".into());
    select.add_condition(Condition("a".into(), Predicate::In(vec![(); usize::MAX - 1].into())));
    assert!(select.fits());
    select.add_condition(Condition("b".into(), Predicate::Equal(())));
    assert!(!select.fits());
    let mut update: Update<()> = Update::new("t".into());
    update.add_condition(Condition("a".into(), Predicate::In(vec![(); usize::MAX].into())));
    assert!(update.fits());
    update.add_assignment(Assignment("b".into(), ()));
    assert!(!update.fits());
}
