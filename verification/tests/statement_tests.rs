use sqlite::statement::{
    create_table_statement, delete_statement, drop_table_statement, insert_statement,
    is_plain_name, join, select_all_statement, update_statement, SqlValue, Statement,
};

fn text(t: &str) -> SqlValue {
    SqlValue::Text(t.to_string())
}

#[test]
fn create_statement_is_guarded_and_has_four_columns() {
    let s = create_table_statement("table1");
    assert_eq!(
        s.sql,
        "CREATE TABLE IF NOT EXISTS table1 (id INTEGER PRIMARY KEY, name TEXT NOT NULL, gender TEXT NOT NULL, city TEXT NOT NULL)"
    );
    assert!(s.params.is_empty());
}

#[test]
fn drop_statement_is_guarded() {
    let s = drop_table_statement("table1");
    assert_eq!(s.sql, "DROP TABLE IF EXISTS table1");
    assert!(s.params.is_empty());
}

#[test]
fn select_statement_asks_for_every_column() {
    let s = select_all_statement("table1");
    assert_eq!(s.sql, "SELECT * FROM table1");
    assert!(s.params.is_empty());
}

#[test]
fn insert_statement_binds_key_then_texts() {
    let s = insert_statement("table1", 11, "Remi", "female", "Durham");
    assert_eq!(s.sql, "INSERT INTO table1 (id, name, gender, city) VALUES (?, ?, ?, ?)");
    assert_eq!(s.params, vec![SqlValue::Integer(11), text("Remi"), text("female"), text("Durham")]);
}

#[test]
fn insert_statement_keeps_values_out_of_the_text() {
    let s = insert_statement("t", -3, "O'Neil", "x'); DROP TABLE t; --", "");
    assert_eq!(s.sql, "INSERT INTO t (id, name, gender, city) VALUES (?, ?, ?, ?)");
    assert_eq!(
        s.params,
        vec![SqlValue::Integer(-3), text("O'Neil"), text("x'); DROP TABLE t; --"), text("")]
    );
}

#[test]
fn delete_statement_binds_the_key() {
    let s = delete_statement("table1", 11);
    assert_eq!(s.sql, "DELETE FROM table1 WHERE id = ?");
    assert_eq!(s.params, vec![SqlValue::Integer(11)]);
}

#[test]
fn table_name_goes_into_the_text_as_given() {
    assert_eq!(drop_table_statement("\"two words\"").sql, "DROP TABLE IF EXISTS \"two words\"");
    assert_eq!(select_all_statement("").sql, "SELECT * FROM ");
    assert_eq!(delete_statement("a; b", 1).sql, "DELETE FROM a; b WHERE id = ?");
}

#[test]
fn update_without_values_is_no_statement() {
    assert_eq!(update_statement("table1", 11, None, None, None), None);
}

#[test]
fn update_of_city_alone_names_only_the_city() {
    let s = update_statement("table1", 11, None, None, Some("Los Angeles")).unwrap();
    assert_eq!(s.sql, "UPDATE table1 SET city = ? WHERE id = ?");
    assert_eq!(s.params, vec![text("Los Angeles"), SqlValue::Integer(11)]);
}

#[test]
fn update_of_name_alone_names_only_the_name() {
    let s = update_statement("table1", 5, Some("Ann"), None, None).unwrap();
    assert_eq!(s.sql, "UPDATE table1 SET name = ? WHERE id = ?");
    assert_eq!(s.params, vec![text("Ann"), SqlValue::Integer(5)]);
}

#[test]
fn update_of_gender_alone_names_only_the_gender() {
    let s = update_statement("table1", 5, None, Some("male"), None).unwrap();
    assert_eq!(s.sql, "UPDATE table1 SET gender = ? WHERE id = ?");
    assert_eq!(s.params, vec![text("male"), SqlValue::Integer(5)]);
}

#[test]
fn update_of_two_columns_keeps_their_order() {
    let s = update_statement("t", 1, Some("Ann"), None, Some("Cary")).unwrap();
    assert_eq!(s.sql, "UPDATE t SET name = ?, city = ? WHERE id = ?");
    assert_eq!(s.params, vec![text("Ann"), text("Cary"), SqlValue::Integer(1)]);
    let s = update_statement("t", 1, None, Some("female"), Some("Cary")).unwrap();
    assert_eq!(s.sql, "UPDATE t SET gender = ?, city = ? WHERE id = ?");
    assert_eq!(s.params, vec![text("female"), text("Cary"), SqlValue::Integer(1)]);
    let s = update_statement("t", 1, Some("Ann"), Some("female"), None).unwrap();
    assert_eq!(s.sql, "UPDATE t SET name = ?, gender = ? WHERE id = ?");
    assert_eq!(s.params, vec![text("Ann"), text("female"), SqlValue::Integer(1)]);
}

#[test]
fn update_of_all_columns() {
    let s = update_statement("t", -1, Some("Ann"), Some("female"), Some("Cary")).unwrap();
    assert_eq!(
        s,
        Statement {
            sql: "UPDATE t SET name = ?, gender = ?, city = ? WHERE id = ?".to_string(),
            params: vec![text("Ann"), text("female"), text("Cary"), SqlValue::Integer(-1)],
        }
    );
}

#[test]
fn update_with_an_empty_value_still_assigns() {
    let s = update_statement("t", 1, None, None, Some("")).unwrap();
    assert_eq!(s.sql, "UPDATE t SET city = ? WHERE id = ?");
    assert_eq!(s.params, vec![text(""), SqlValue::Integer(1)]);
}

#[test]
fn join_puts_the_separator_between_neighbours() {
    assert_eq!(join(&vec![], ", "), "");
    assert_eq!(join(&vec!["a"], ", "), "a");
    assert_eq!(join(&vec!["a", "b"], ", "), "a, b");
    assert_eq!(join(&vec!["a", "", "c"], "-"), "a--c");
    assert_eq!(join(&vec!["a", "b", "c"], ""), "abc");
}

#[test]
fn plain_names_are_letters_digits_and_underscores() {
    assert!(is_plain_name("table1"));
    assert!(is_plain_name("t"));
    assert!(is_plain_name("_"));
    assert!(is_plain_name("_people_2024"));
    assert!(is_plain_name("Customer_New"));
    assert!(is_plain_name("azAZ09_"));
}

#[test]
fn names_that_are_not_plain() {
    assert!(!is_plain_name(""));
    assert!(!is_plain_name("1table"));
    assert!(!is_plain_name("9"));
    assert!(!is_plain_name("two words"));
    assert!(!is_plain_name("\"quoted\""));
    assert!(!is_plain_name("t; DROP TABLE u"));
    assert!(!is_plain_name("t--"));
    assert!(!is_plain_name("t?"));
    assert!(!is_plain_name("t(id)"));
    assert!(!is_plain_name("t.u"));
    assert!(!is_plain_name("caf\u{e9}"));
    assert!(!is_plain_name("\u{ff54}"));
    assert!(!is_plain_name("t\n"));
    assert!(!is_plain_name("`t`"));
    assert!(!is_plain_name("@t"));
    assert!(!is_plain_name("[t]"));
    assert!(!is_plain_name("t{"));
    assert!(!is_plain_name("/t"));
    assert!(!is_plain_name("t:"));
}
