use tauri_plugin_sql::{
    execution_result, parse_database_url, statement_target, ConnectionManager, DatabaseTarget,
    LastInsertId, TransactionManager,
};

#[test]
fn tests_it_works() {
    assert_eq!(2 + 2, 4);
}

#[test]
fn tests_test_load_in_memory() {
    let mut connection_manager: ConnectionManager<u32> = ConnectionManager::new();
    let db_alias = "sqlite::memory:".to_string();

    let target = parse_database_url(&db_alias);
    assert_eq!(target, Ok(DatabaseTarget::InMemory));
    let result = connection_manager.load(db_alias.clone(), Ok(1));

    assert!(result.is_ok(), "load failed: {:?}", result.err());
    let returned_alias = result.unwrap();
    assert_eq!(returned_alias, db_alias);

    assert!(connection_manager.contains(&returned_alias));
}

#[test]
fn tests_test_load_file_db() {
    let mut connection_manager: ConnectionManager<u32> = ConnectionManager::new();
    let db_relative_path = "test_db.sqlite";
    let db_alias = format!("sqlite:{}", db_relative_path);

    let target = parse_database_url(&db_alias);
    assert_eq!(target, Ok(DatabaseTarget::File(db_relative_path.to_string())));
    let result = connection_manager.load(db_alias.clone(), Ok(1));

    assert!(result.is_ok(), "load failed: {:?}", result.err());
    let returned_alias = result.unwrap();
    assert_eq!(returned_alias, db_alias);

    assert!(connection_manager.contains(&returned_alias));
}

#[test]
fn tests_test_basic_execute_select() {
    let mut connection_manager: ConnectionManager<u32> = ConnectionManager::new();
    let transaction_manager: TransactionManager<u32> = TransactionManager::new();
    // The statements themselves run in the application layer on the SQLite
    // connection; here the library's part is checked: which connection each
    // statement runs on, and what `execute` answers for the driver's counts.
    let db_alias = "sqlite::memory:".to_string();

    assert_eq!(parse_database_url(&db_alias), Ok(DatabaseTarget::InMemory));
    connection_manager.load(db_alias.clone(), Ok(1)).expect("Failed to load test DB");

    let create_target = statement_target(&connection_manager, &transaction_manager, &db_alias, None);
    assert!(create_target.is_ok(), "Create table failed: {:?}", create_target.err());

    let insert_target = statement_target(&connection_manager, &transaction_manager, &db_alias, None);
    assert!(insert_target.is_ok(), "Insert failed: {:?}", insert_target.err());
    let (rows_affected, last_insert_id) = execution_result(1, 1);
    assert_eq!(rows_affected, 1);
    match last_insert_id {
        LastInsertId::Sqlite(id) => assert_eq!(id, 1),
    }

    let select_target = statement_target(&connection_manager, &transaction_manager, &db_alias, None);
    assert!(select_target.is_ok(), "Select failed: {:?}", select_target.err());
    assert_eq!(select_target, Ok(&1));
}
