use lasso::adapters::PostgresAdapter;

#[test]
fn new_adapter_has_no_connection_url() {
    assert_eq!(PostgresAdapter::new().connection_url, "");
    assert_eq!(PostgresAdapter::default().connection_url, "");
}

#[test]
fn with_connection_url_stores_the_url() {
    let adapter = PostgresAdapter::new().with_connection_url("postgres://localhost/chain".to_string());
    assert_eq!(adapter.connection_url, "postgres://localhost/chain");
    let adapter = adapter.with_connection_url("postgres://db/other".to_string());
    assert_eq!(adapter.connection_url, "postgres://db/other");
}

#[test]
fn connect_message_names_the_url() {
    let adapter = PostgresAdapter::new().with_connection_url("postgres://localhost/chain".to_string());
    assert_eq!(adapter.connect_message(), "Connecting to Postgres at postgres://localhost/chain");
    assert_eq!(PostgresAdapter::new().connect_message(), "Connecting to Postgres at ");
}
