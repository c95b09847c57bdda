use splitter::identity::hash64;
use splitter::language::Language;
use splitter::statement::Statement;
use splitter::text::{byte_len, count_newlines, same_text};

#[test]
fn new_statement_holds_what_it_was_given() {
    let s = Statement::new("SELECT 1;\n".to_string(), Language::PgSql, 42);
    assert_eq!(s.text(), "SELECT 1;\n");
    assert_eq!(s.language(), Language::PgSql);
    assert_eq!(s.document_id(), 42);
    assert_eq!(s.id(), hash64(b"SELECT 1;\n"));
    assert_eq!(s.n_lines(), 1);
    assert_eq!(s.len(), 10);
}

#[test]
fn new_statement_counts_every_newline() {
    let s = Statement::new("\nSELECT\n  1\n;\n\n".to_string(), Language::PgSql, 0);
    assert_eq!(s.n_lines(), 5);
    let t = Statement::new("SELECT 1;".to_string(), Language::PgSql, 0);
    assert_eq!(t.n_lines(), 0);
    let e = Statement::new(String::new(), Language::Psql, 0);
    assert_eq!(e.n_lines(), 0);
    assert_eq!(e.len(), 0);
}

#[test]
fn newlines_among_wide_characters() {
    assert_eq!(count_newlines("é\n€\n𝄞"), 2);
    assert_eq!(count_newlines("\r\n"), 1);
    assert_eq!(count_newlines("\r"), 0);
    assert_eq!(count_newlines(""), 0);
    // U+010A and U+0A0A hold the byte 0x0a in no encoding
    assert_eq!(count_newlines("\u{10a}\u{a0a}"), 0);
}

#[test]
fn byte_length_counts_bytes() {
    assert_eq!(byte_len(""), 0);
    assert_eq!(byte_len("abc"), 3);
    assert_eq!(byte_len("é€𝄞"), 9);
}

#[test]
fn texts_compare_by_content() {
    assert!(same_text("", ""));
    assert!(same_text("stdin", "stdin"));
    assert!(!same_text("stdin", "stdin "));
    assert!(!same_text("stdin", "stdim"));
    assert!(!same_text("a", ""));
    assert!(same_text("é€", "é€"));
}

#[test]
fn source_spans_the_text() {
    let s = Statement::new("SELECT 'é';\nSELECT 2;\n".to_string(), Language::PgSql, 7);
    let src = s.with_source("file://a.sql", 3, 100);
    assert_eq!(src.statement_id(), s.id());
    assert_eq!(src.document_id(), 7);
    assert_eq!(src.url(), "file://a.sql");
    assert_eq!(src.start_line(), 3);
    assert_eq!(src.n_lines(), 2);
    assert_eq!(src.start_offset(), 100);
    assert_eq!(src.end_offset(), 100 + "SELECT 'é';\nSELECT 2;\n".len());
    assert_eq!(src.end_offset() - src.start_offset(), s.len());
}

#[test]
fn source_of_an_empty_text_spans_nothing() {
    let s = Statement::new(String::new(), Language::PgSql, 7);
    let src = s.with_source("", 1, 0);
    assert_eq!(src.start_offset(), 0);
    assert_eq!(src.end_offset(), 0);
    assert_eq!(src.n_lines(), 0);
    assert_eq!(src.url(), "");
}

#[test]
fn url_identity_is_the_hash_of_the_url() {
    let s = Statement::new("SELECT 1;".to_string(), Language::PgSql, 7);
    let a = s.with_source("file://a.sql", 1, 0);
    let b = s.with_source("file://b.sql", 1, 0);
    let e = s.with_source("", 1, 0);
    assert_eq!(a.url_id(), hash64(b"file://a.sql"));
    assert_eq!(b.url_id(), hash64(b"file://b.sql"));
    assert_eq!(e.url_id(), hash64(b""));
    assert_ne!(a.url_id(), b.url_id());
}

#[test]
fn source_at_the_last_byte_that_fits() {
    let s = Statement::new("ab".to_string(), Language::PgSql, 7);
    let src = s.with_source("u", usize::MAX, usize::MAX - 2);
    assert_eq!(src.end_offset(), usize::MAX);
    assert_eq!(src.start_line(), usize::MAX);
}

#[test]
fn copies_hold_the_same() {
    let s = Statement::new("SELECT 1;\n".to_string(), Language::PgSql, 42);
    let t = s.clone();
    assert_eq!(t.text(), s.text());
    assert_eq!(t.id(), s.id());
    assert_eq!(t.document_id(), s.document_id());
    assert_eq!(t.language(), s.language());
    assert_eq!(t.n_lines(), s.n_lines());
    let a = s.with_source("file://a.sql", 4, 30);
    let b = a.clone();
    assert_eq!(b.statement_id(), a.statement_id());
    assert_eq!(b.document_id(), a.document_id());
    assert_eq!(b.url(), a.url());
    assert_eq!(b.start_line(), 4);
    assert_eq!(b.n_lines(), 1);
    assert_eq!(b.start_offset(), 30);
    assert_eq!(b.end_offset(), 40);
}
