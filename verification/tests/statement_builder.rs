use user_crud::factory::new_mysql_query_builder;
use user_crud::factory::QueryBuilder;

#[test]
fn insert_embeds_values_verbatim_between_quotes() {
    let b = new_mysql_query_builder();
    let stmt = b.insert("users", &["username", "email"], &["jo'hn", "a@b.com"]);
    // The builder does not escape quote characters inside values; the
    // statement carries the value verbatim. This documents the known
    // limitation of the statement format.
    assert!(stmt.contains("VALUES ('jo'hn', 'a@b.com')"));
    assert_eq!(
        stmt,
        "INSERT INTO users (username, email) VALUES ('jo'hn', 'a@b.com');"
    );
}

#[test]
fn insert_with_single_column() {
    let b = new_mysql_query_builder();
    let stmt = b.insert("users", &["username"], &["jo"]);
    assert_eq!(stmt, "INSERT INTO users (username) VALUES ('jo');");
}

#[test]
fn select_by_id_is_exact() {
    let b = new_mysql_query_builder();
    assert_eq!(b.select_by_id("users", 42), "SELECT * FROM users WHERE id = 42;");
}

#[test]
fn select_all_is_exact() {
    let b = new_mysql_query_builder();
    assert_eq!(b.select_all("users"), "SELECT * FROM users;");
}

#[test]
fn delete_is_exact() {
    let b = new_mysql_query_builder();
    assert_eq!(b.delete("users", 7), "DELETE FROM users WHERE id = 7;");
}

#[test]
fn update_joins_column_value_pairs() {
    let b = new_mysql_query_builder();
    let stmt = b.update("users", 3, &[("username", "jo"), ("email", "a@b.com")]);
    assert_eq!(stmt, "UPDATE users SET username = 'jo', email = 'a@b.com' WHERE id = 3;");
}

#[test]
fn ids_render_in_decimal() {
    let b = new_mysql_query_builder();
    assert_eq!(b.select_by_id("users", 0), "SELECT * FROM users WHERE id = 0;");
    assert_eq!(
        b.select_by_id("users", u64::MAX),
        "SELECT * FROM users WHERE id = 18446744073709551615;"
    );
}
