use sqlx_crud_macros::dialect::{ConfigError, DbType};
use sqlx_crud_macros::statements::{
    assemble, build_delete_by_id, build_insert, build_paginated, build_select,
    build_select_by_id, build_update_by_id, check_columns, columns_without, count_column,
    insert_binding_order, qualified_column, qualified_column_list, quote_identifier, synthesize,
    update_binding_order, TableDescriptor,
};
use sqlx_crud_macros::text::{decimal_text, find_text, join_text, same_text};

fn names(list: &[&str]) -> Vec<String> {
    list.iter().map(|s| s.to_string()).collect()
}

fn users(dialect: DbType, external_id: bool) -> TableDescriptor {
    TableDescriptor {
        table_name: "users".to_string(),
        dialect,
        id_column: "id".to_string(),
        external_id,
    }
}

#[test]
fn quoting_uses_double_quotes_outside_mysql() {
    for db in [DbType::Postgres, DbType::Sqlite, DbType::Mssql, DbType::Any] {
        assert_eq!(db.quote_ident("user"), "\"user\"");
        assert_eq!(quote_identifier("user", db), "\"user\"");
    }
}

#[test]
fn quoting_uses_backticks_for_mysql() {
    assert_eq!(DbType::MySql.quote_ident("user"), "`user`");
    assert_eq!(quote_identifier("user", DbType::MySql), "`user`");
}

#[test]
fn quoting_does_not_escape() {
    assert_eq!(DbType::Postgres.quote_ident("a\"b"), "\"a\"b\"");
    assert_eq!(DbType::MySql.quote_ident(""), "``");
}

#[test]
fn users_example_postgres() {
    let desc = users(DbType::Postgres, false);
    let columns = names(&["id", "name", "email"]);
    let set = synthesize(&desc, &columns).unwrap();
    assert_eq!(
        set.select_sql,
        "SELECT \"users\".\"id\", \"users\".\"name\", \"users\".\"email\" FROM \"users\""
    );
    assert_eq!(
        set.insert_sql,
        "INSERT INTO \"users\" (\"name\", \"email\") VALUES ($1, $2) RETURNING \"users\".\"id\", \"users\".\"name\", \"users\".\"email\""
    );
    assert_eq!(set.insert_binding, names(&["name", "email"]));
    assert_eq!(
        set.update_by_id_sql,
        "UPDATE \"users\" SET \"name\" = $1, \"email\" = $2 WHERE \"users\".\"id\" = $3 RETURNING \"users\".\"id\", \"users\".\"name\", \"users\".\"email\""
    );
    assert_eq!(set.update_binding, names(&["name", "email", "id"]));
    assert_eq!(set.delete_by_id_sql, "DELETE FROM \"users\" WHERE \"users\".\"id\" = $1");
    assert_eq!(
        set.paginated_sql,
        "SELECT \"users\".\"id\", \"users\".\"name\", \"users\".\"email\" FROM \"users\" LIMIT $1 OFFSET $2"
    );
    assert_eq!(
        set.select_by_id_sql,
        "SELECT \"users\".\"id\", \"users\".\"name\", \"users\".\"email\" FROM \"users\" WHERE \"users\".\"id\" = $1 LIMIT 1"
    );
}

#[test]
fn users_example_mysql() {
    let desc = users(DbType::MySql, false);
    let columns = names(&["id", "name"]);
    assert_eq!(build_select(&desc, &columns), "SELECT `users`.`id`, `users`.`name` FROM `users`");
    assert_eq!(build_delete_by_id(&desc), "DELETE FROM `users` WHERE `users`.`id` = $1");
    let (sql, binding) = build_update_by_id(&desc, &columns);
    assert_eq!(
        sql,
        "UPDATE `users` SET `name` = $1 WHERE `users`.`id` = $2 RETURNING `users`.`id`, `users`.`name`"
    );
    assert_eq!(binding, names(&["name", "id"]));
}

#[test]
fn builders_agree_with_the_statement_set() {
    let desc = users(DbType::Sqlite, true);
    let columns = names(&["name", "id", "email"]);
    let set = assemble(&desc, &columns);
    assert_eq!(set.select_sql, build_select(&desc, &columns));
    assert_eq!(set.paginated_sql, build_paginated(&desc, &columns));
    assert_eq!(set.select_by_id_sql, build_select_by_id(&desc, &columns));
    assert_eq!((set.insert_sql, set.insert_binding), build_insert(&desc, &columns));
    assert_eq!((set.update_by_id_sql, set.update_binding), build_update_by_id(&desc, &columns));
    assert_eq!(set.delete_by_id_sql, build_delete_by_id(&desc));
}

#[test]
fn select_keeps_declared_order() {
    let desc = users(DbType::Postgres, false);
    let columns = names(&["zeta", "id", "alpha"]);
    assert_eq!(
        build_select(&desc, &columns),
        "SELECT \"users\".\"zeta\", \"users\".\"id\", \"users\".\"alpha\" FROM \"users\""
    );
    assert_eq!(
        qualified_column_list("users", &columns, DbType::Postgres),
        "\"users\".\"zeta\", \"users\".\"id\", \"users\".\"alpha\""
    );
    assert_eq!(qualified_column("t", "c", DbType::MySql), "`t`.`c`");
}

#[test]
fn update_binds_identity_last_wherever_it_is_declared() {
    let desc = users(DbType::Postgres, false);
    let columns = names(&["name", "id", "email"]);
    let (sql, binding) = build_update_by_id(&desc, &columns);
    assert_eq!(binding, names(&["name", "email", "id"]));
    assert_eq!(binding.len(), columns.len());
    assert_eq!(sql.matches(" = $").count(), columns.len());
    assert_eq!(
        sql,
        "UPDATE \"users\" SET \"name\" = $1, \"email\" = $2 WHERE \"users\".\"id\" = $3 RETURNING \"users\".\"name\", \"users\".\"id\", \"users\".\"email\""
    );
    assert_eq!(update_binding_order(&desc, &columns), binding);
}

#[test]
fn insert_without_external_identity_leaves_it_out() {
    let desc = users(DbType::Postgres, false);
    let columns = names(&["name", "id", "email"]);
    let (sql, binding) = build_insert(&desc, &columns);
    assert_eq!(binding, names(&["name", "email"]));
    assert_eq!(binding.len(), columns.len() - 1);
    assert!(sql.starts_with("INSERT INTO \"users\" (\"name\", \"email\") VALUES ($1, $2) "));
    assert_eq!(insert_binding_order(&desc, &columns), binding);
}

#[test]
fn insert_with_external_identity_keeps_it() {
    let desc = users(DbType::Postgres, true);
    let columns = names(&["id", "name", "email"]);
    let (sql, binding) = build_insert(&desc, &columns);
    assert_eq!(binding, columns);
    assert_eq!(
        sql,
        "INSERT INTO \"users\" (\"id\", \"name\", \"email\") VALUES ($1, $2, $3) RETURNING \"users\".\"id\", \"users\".\"name\", \"users\".\"email\""
    );
}

#[test]
fn identity_alone() {
    let desc = users(DbType::Postgres, false);
    let columns = names(&["id"]);
    let set = synthesize(&desc, &columns).unwrap();
    assert_eq!(set.insert_sql, "INSERT INTO \"users\" () VALUES () RETURNING \"users\".\"id\"");
    assert!(set.insert_binding.is_empty());
    assert_eq!(
        set.update_by_id_sql,
        "UPDATE \"users\" SET  WHERE \"users\".\"id\" = $1 RETURNING \"users\".\"id\""
    );
    assert_eq!(set.update_binding, names(&["id"]));
}

#[test]
fn parameters_past_nine() {
    let desc = users(DbType::Postgres, true);
    let columns =
        names(&["id", "a", "b", "c", "d", "e", "f", "g", "h", "i", "j"]);
    let (insert, _) = build_insert(&desc, &columns);
    assert!(insert.contains("VALUES ($1, $2, $3, $4, $5, $6, $7, $8, $9, $10, $11)"));
    let (update, binding) = build_update_by_id(&desc, &columns);
    assert!(update.contains("\"i\" = $9, \"j\" = $10 WHERE \"users\".\"id\" = $11 "));
    assert_eq!(binding.len(), 11);
}

#[test]
fn synthesis_twice_gives_the_same_text() {
    let desc = users(DbType::Mssql, false);
    let columns = names(&["id", "name", "email"]);
    let first = synthesize(&desc, &columns).unwrap();
    let second = synthesize(&desc, &columns).unwrap();
    assert_eq!(first.select_sql, second.select_sql);
    assert_eq!(first.select_by_id_sql, second.select_by_id_sql);
    assert_eq!(first.paginated_sql, second.paginated_sql);
    assert_eq!(first.insert_sql, second.insert_sql);
    assert_eq!(first.insert_binding, second.insert_binding);
    assert_eq!(first.update_by_id_sql, second.update_by_id_sql);
    assert_eq!(first.update_binding, second.update_binding);
    assert_eq!(first.delete_by_id_sql, second.delete_by_id_sql);
}

#[test]
fn synthesis_rejects_empty_columns() {
    let desc = users(DbType::Postgres, false);
    assert_eq!(synthesize(&desc, &Vec::new()).err(), Some(ConfigError::EmptyColumns));
    assert_eq!(check_columns(&Vec::new(), "id"), Err(ConfigError::EmptyColumns));
}

#[test]
fn synthesis_rejects_missing_identity() {
    let desc = users(DbType::Postgres, false);
    let columns = names(&["name", "email"]);
    assert_eq!(synthesize(&desc, &columns).err(), Some(ConfigError::MissingIdentity));
}

#[test]
fn synthesis_rejects_duplicate_identity() {
    let desc = users(DbType::Postgres, false);
    let columns = names(&["id", "name", "id"]);
    assert_eq!(synthesize(&desc, &columns).err(), Some(ConfigError::DuplicateIdentity));
    assert_eq!(count_column(&columns, "id"), 2);
    assert_eq!(check_columns(&names(&["id", "name"]), "id"), Ok(()));
}

#[test]
fn unknown_dialect_is_an_error() {
    assert_eq!(DbType::from("Oracle"), Err(ConfigError::UnknownDialect));
    assert_eq!(DbType::from("postgres"), Err(ConfigError::UnknownDialect));
    assert_eq!(DbType::from(""), Err(ConfigError::UnknownDialect));
}

#[test]
fn known_dialects_are_read() {
    assert_eq!(DbType::from("Any"), Ok(DbType::Any));
    assert_eq!(DbType::from("Mssql"), Ok(DbType::Mssql));
    assert_eq!(DbType::from("MySql"), Ok(DbType::MySql));
    assert_eq!(DbType::from("Postgres"), Ok(DbType::Postgres));
    assert_eq!(DbType::from("Sqlite"), Ok(DbType::Sqlite));
}

#[test]
fn driver_paths() {
    assert_eq!(DbType::Any.sqlx_db(), "::sqlx::Any");
    assert_eq!(DbType::Mssql.sqlx_db(), "::sqlx::Mssql");
    assert_eq!(DbType::MySql.sqlx_db(), "::sqlx::MySql");
    assert_eq!(DbType::Postgres.sqlx_db(), "::sqlx::Postgres");
    assert_eq!(DbType::Sqlite.sqlx_db(), "::sqlx::Sqlite");
}

#[test]
fn decimal_numerals() {
    assert_eq!(decimal_text(0), "0");
    assert_eq!(decimal_text(7), "7");
    assert_eq!(decimal_text(10), "10");
    assert_eq!(decimal_text(12345), "12345");
    assert_eq!(decimal_text(usize::MAX), usize::MAX.to_string());
}

#[test]
fn joining() {
    assert_eq!(join_text(&Vec::new(), ", "), "");
    assert_eq!(join_text(&names(&["a"]), ", "), "a");
    assert_eq!(join_text(&names(&["a", "b", "c"]), ", "), "a, b, c");
    assert_eq!(join_text(&names(&["", ""]), "-"), "-");
}

#[test]
fn finding_and_comparing() {
    let list = names(&["a", "b", "a"]);
    assert_eq!(find_text(&list, "a"), Some(0));
    assert_eq!(find_text(&list, "b"), Some(1));
    assert_eq!(find_text(&list, "c"), None);
    assert!(same_text("id", "id"));
    assert!(!same_text("id", "Id"));
    assert_eq!(columns_without(&list, "a"), names(&["b"]));
    assert_eq!(count_column(&list, "a"), 2);
}
