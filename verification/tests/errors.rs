use postgres_db_error::ChainStorageError;
use postgres_db_error::PostgresError;
use tari_crypto::tari_utilities::byte_array::ByteArrayError;
use tari_crypto::tari_utilities::hex::from_hex;

#[test]
fn not_found_message_carries_description() {
    let e = PostgresError::not_found("block height 1000".to_string());
    let m = e.message();
    assert!(m.contains("1000"));
    assert!(m.contains("The requested value was not found in the database"));
    assert_eq!(m, "The requested value was not found in the database: block height 1000");
}

#[test]
fn call_site_constructors_format_with_their_templates() {
    let add = PostgresError::could_not_add("utxo 42".to_string());
    assert_eq!(add.message(), "The requested value could not be added to the database: utxo 42");
    let del = PostgresError::could_delete("kernel 7".to_string());
    assert_eq!(del.message(), "The requested value could not be deleted from database: kernel 7");
    let other = PostgresError::other("backend hiccup".to_string());
    assert_eq!(other.message(), "An error occurred in the database: backend hiccup");
}

#[test]
fn hex_cause_text_is_retained_verbatim() {
    let e = PostgresError::serialization_error("invalid hex digit at position 3".to_string());
    assert!(matches!(e, PostgresError::SerializationError { .. }));
    assert_eq!(e.message(), "Could not deserialize data: invalid hex digit at position 3");
}

#[test]
fn hex_failure_becomes_serialization_error() {
    let err = from_hex("0g").unwrap_err();
    let expected = err.to_string();
    let e = PostgresError::from_hex_error(err);
    match e {
        PostgresError::SerializationError { source } => assert_eq!(source, expected),
        other => panic!("wrong variant: {:?}", other),
    }
}

#[test]
fn odd_length_hex_failure_keeps_its_own_cause() {
    let err = from_hex("abc").unwrap_err();
    let expected = err.to_string();
    let e = PostgresError::from_hex_error(err);
    match e {
        PostgresError::SerializationError { source } => assert_eq!(source, expected),
        other => panic!("wrong variant: {:?}", other),
    }
}

#[test]
fn byte_array_failure_becomes_byte_serialization_error() {
    let err = ByteArrayError::IncorrectLength {};
    let expected = err.to_string();
    let e = PostgresError::from_byte_array_error(err);
    match e {
        PostgresError::ByteSerializationError { source } => assert_eq!(source, expected),
        other => panic!("wrong variant: {:?}", other),
    }
}

#[test]
fn json_failure_becomes_json_serialization_error() {
    let err = serde_json::from_str::<serde_json::Value>("{").unwrap_err();
    let expected = err.to_string();
    let e = PostgresError::from_json_error(err);
    match e {
        PostgresError::JsonSerializationError { source } => assert_eq!(source, expected),
        other => panic!("wrong variant: {:?}", other),
    }
}

#[test]
fn connection_failure_keeps_cause_and_reexports_it() {
    let err = diesel::ConnectionError::BadConnection("password authentication failed".to_string());
    let expected = err.to_string();
    let e = PostgresError::from_connection_error(err);
    match &e {
        PostgresError::AccessError { source } => assert_eq!(source, &expected),
        other => panic!("wrong variant: {:?}", other),
    }
    let d = ChainStorageError::from(e);
    assert!(d.message().contains("password authentication failed"));
}

#[test]
fn query_failure_becomes_diesel_storage_error() {
    let err = diesel::result::Error::NotFound;
    let expected = err.to_string();
    let e = PostgresError::from_diesel_error(err);
    match e {
        PostgresError::DieselStorageError { source } => {
            assert_eq!(source, expected);
            assert_eq!(source, "Record not found");
        },
        other => panic!("wrong variant: {:?}", other),
    }
}

#[test]
fn formatted_message_contains_template_and_cause() {
    let e = PostgresError::json_serialization_error("boom".to_string());
    let m = e.message();
    assert!(m.contains("Could not deserialize json data"));
    assert!(m.contains("boom"));
    assert_eq!(m, "Could not deserialize json data: boom");
}

#[test]
fn reexport_keeps_formatted_text_verbatim() {
    let e = PostgresError::access_error("no route to host".to_string());
    let inner = e.message();
    let d = ChainStorageError::from(e);
    let m = d.message();
    assert!(m.contains(&inner));
    assert_eq!(m, "Access error: Postgres error:Could not connect to db: no route to host");
}

#[test]
fn upstream_domain_error_recovers_domain_message() {
    let d = ChainStorageError::AccessError("disk unreachable".to_string());
    let expected = d.message();
    let e = PostgresError::from_chain_storage_error(d);
    match e {
        PostgresError::ChainStorageError { source } => {
            assert_eq!(source, expected);
            assert_eq!(source, "Access error: disk unreachable");
        },
        other => panic!("wrong variant: {:?}", other),
    }
}
