use splitter::failure::Failure;

#[test]
fn io_error_becomes_a_failure() {
    let e = std::io::Error::new(std::io::ErrorKind::NotFound, "gone");
    match Failure::from(e) {
        Failure::IoErr(inner) => assert_eq!(inner.kind(), std::io::ErrorKind::NotFound),
        other => panic!("not an io failure: {:?}", other),
    }
}

#[test]
fn store_error_becomes_a_failure() {
    let e = rusqlite::Error::QueryReturnedNoRows;
    match Failure::from(e) {
        Failure::Sqlite(inner) => assert_eq!(inner, rusqlite::Error::QueryReturnedNoRows),
        other => panic!("not a store failure: {:?}", other),
    }
}

#[test]
fn failures_print_for_debugging() {
    assert_eq!(format!("{:?}", Failure::DirDne), "DirDne");
    assert_eq!(format!("{:?}", Failure::NotDir), "NotDir");
    assert_eq!(format!("{:?}", Failure::Other("x".to_string())), "Other(\"x\")");
    assert_eq!(
        format!("{:?}", Failure::PgQueryError("syntax error".to_string())),
        "PgQueryError(\"syntax error\")"
    );
}
