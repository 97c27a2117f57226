use std::collections::HashMap;

use hit_counter::counter::CounterUpdate;

fn evaluate(table: &mut HashMap<String, u64>, update: &CounterUpdate) {
    *table.entry(update.key.clone()).or_insert(0) += update.amount;
}

#[test]
fn increment_is_one_atomic_add() {
    let update = CounterUpdate::increment("hits-table", "/home");
    assert_eq!(update.table_name, "hits-table");
    assert_eq!(update.key_attribute, "path");
    assert_eq!(update.key, "/home");
    assert_eq!(update.update_expression, "ADD hits :incr");
    assert_eq!(update.value_placeholder, ":incr");
    assert_eq!(update.amount, 1);
}

#[test]
fn first_increment_creates_the_record() {
    let mut table = HashMap::new();
    evaluate(&mut table, &CounterUpdate::increment("t", "/new"));
    assert_eq!(table.get("/new"), Some(&1));
}

#[test]
fn increments_in_any_order_all_count() {
    let a = CounterUpdate::increment("t", "/a");
    let b = CounterUpdate::increment("t", "/b");
    let mut one = HashMap::new();
    for update in [&a, &b, &a, &a, &b] {
        evaluate(&mut one, update);
    }
    let mut other = HashMap::new();
    for update in [&b, &b, &a, &a, &a] {
        evaluate(&mut other, update);
    }
    assert_eq!(one, other);
    assert_eq!(one.get("/a"), Some(&3));
    assert_eq!(one.get("/b"), Some(&2));
}

#[test]
fn many_increments_of_one_path_add_up() {
    let mut table = HashMap::new();
    table.insert("/home".to_string(), 7u64);
    for _ in 0..100 {
        evaluate(&mut table, &CounterUpdate::increment("t", "/home"));
    }
    assert_eq!(table.get("/home"), Some(&107));
    assert_eq!(table.len(), 1);
}
