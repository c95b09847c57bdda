use splitter::decompose::{check_coverage, CoverageError, Scanned};
use splitter::failure::Failure;
use splitter::identity::{hash64, to_signed};
use splitter::language::Language;
use splitter::pipeline::{
    associate_urls, count_statements, ingest, plan_run, process_doc, wants_fingerprint, Findings,
    Processed, RunPlan,
};
use splitter::pl::{OptionNode, OptionValue, ParseTree, StatementNode};

fn sql(text: &str) -> Scanned {
    Scanned { text: text.to_string(), is_psql: false }
}

fn psql(text: &str) -> Scanned {
    Scanned { text: text.to_string(), is_psql: true }
}

fn select(fingerprint: u64) -> Findings {
    Findings {
        fingerprint: Some(fingerprint),
        parsed: Ok(ParseTree { stmts: vec![StatementNode::Other("SelectStmt".to_string())] }),
    }
}

fn do_block(fingerprint: Option<u64>, language: Option<&str>) -> Findings {
    let mut args = vec![OptionNode::Definition {
        name: "as".to_string(),
        value: OptionValue::Text(" BEGIN RETURN; END ".to_string()),
    }];
    if let Some(name) = language {
        args.push(OptionNode::Definition {
            name: "language".to_string(),
            value: OptionValue::Text(name.to_string()),
        });
    }
    Findings { fingerprint, parsed: Ok(ParseTree { stmts: vec![StatementNode::Do(args)] }) }
}

fn failed() -> Findings {
    Findings { fingerprint: None, parsed: Err(Failure::PgQueryError("syntax error".to_string())) }
}

fn id(text: &str) -> i64 {
    hash64(text.as_bytes())
}

#[test]
fn two_selects_on_one_line() {
    let doc = "SELECT 1; SELECT 2;\n";
    let pieces = vec![sql("SELECT 1;"), sql(" SELECT 2;\n")];
    let findings = vec![select(0x50fde20626009aba), select(0x50fde20626009aba)];
    let p = process_doc(doc, id(doc), &["file://a.sql"], &pieces, "", &findings);

    assert_eq!(p.statements.len(), 2);
    assert_eq!(p.statements[0].text(), "SELECT 1;");
    assert_eq!(p.statements[1].text(), " SELECT 2;\n");
    assert_eq!(p.statements[0].language(), Language::PgSql);
    assert_eq!(p.statements[1].language(), Language::PgSql);

    assert_eq!(p.sources.len(), 2);
    assert_eq!(p.sources[0].start_line(), 1);
    // the only newline of the document ends the second statement
    assert_eq!(p.sources[1].start_line(), 1);
    assert_eq!(p.sources[0].start_offset(), 0);
    assert_eq!(p.sources[0].end_offset(), 9);
    assert_eq!(p.sources[1].start_offset(), 9);
    assert_eq!(p.sources[1].end_offset(), 20);
    assert_eq!(p.sources[0].url(), "file://a.sql");
    assert_eq!(p.sources[1].url(), "file://a.sql");

    let fingerprint = to_signed(0x50fde20626009aba);
    assert_eq!(
        p.statement_fingerprints,
        vec![(id("SELECT 1;"), fingerprint), (id(" SELECT 2;\n"), fingerprint)]
    );
    assert_eq!(
        p.statement_languages,
        vec![(id("SELECT 1;"), Language::PgSql), (id(" SELECT 2;\n"), Language::PgSql)]
    );
}

#[test]
fn two_selects_on_two_lines() {
    let doc = "SELECT 1;\nSELECT 2;\n";
    let pieces = vec![sql("SELECT 1;\n"), sql("SELECT 2;\n")];
    let findings = vec![select(7), select(7)];
    let p = process_doc(doc, id(doc), &["file://a.sql"], &pieces, "", &findings);
    assert_eq!(p.statements.len(), 2);
    assert_eq!(p.sources.len(), 2);
    assert_eq!(p.sources[0].start_line(), 1);
    // the second statement begins after the first's newline
    assert_eq!(p.sources[1].start_line(), 2);
    assert_eq!(p.statement_fingerprints.len(), 2);
    assert_eq!(p.statement_languages.len(), 2);
    assert_eq!(p.statement_languages[0].1, Language::PgSql);
    assert_eq!(p.statement_languages[1].1, Language::PgSql);
}

#[test]
fn do_block_in_plpgsql() {
    let doc = "DO $$ BEGIN RETURN; END $$ LANGUAGE plpgsql;\n";
    let pieces = vec![sql(doc)];
    let findings = vec![do_block(Some(0xfedcba9876543210), Some("plpgsql"))];
    let p = process_doc(doc, id(doc), &["file://a.sql"], &pieces, "", &findings);
    assert_eq!(p.statements.len(), 1);
    assert_eq!(p.statements[0].language(), Language::PgSql);
    assert_eq!(
        p.statement_languages,
        vec![(id(doc), Language::PgSql), (id(doc), Language::PlPgSql)]
    );
    assert_eq!(p.statement_fingerprints, vec![(id(doc), to_signed(0xfedcba9876543210))]);
    assert!(p.statement_fingerprints[0].1 < 0);
}

#[test]
fn do_block_that_the_parser_does_not_fingerprint() {
    let doc = "DO $$ BEGIN RETURN; END $$ LANGUAGE plpgsql;\n";
    let pieces = vec![sql(doc)];
    let findings = vec![do_block(None, Some("plpgsql"))];
    let p = process_doc(doc, id(doc), &[], &pieces, "", &findings);
    assert_eq!(p.statements.len(), 1);
    assert_eq!(p.statement_fingerprints, vec![]);
    assert_eq!(
        p.statement_languages,
        vec![(id(doc), Language::PgSql), (id(doc), Language::PlPgSql)]
    );
    assert_eq!(p.sources.len(), 0);
}

#[test]
fn do_block_without_language() {
    let doc = "DO $$ BEGIN RETURN; END $$;\n";
    let pieces = vec![sql(doc)];
    let findings = vec![do_block(Some(1), None)];
    let p = process_doc(doc, id(doc), &["u"], &pieces, "", &findings);
    assert_eq!(
        p.statement_languages,
        vec![(id(doc), Language::PgSql), (id(doc), Language::PlPgSql)]
    );
}

#[test]
fn lone_comment_as_one_statement() {
    let doc = "-- just a comment\n";
    let pieces = vec![sql(doc)];
    let findings = vec![Findings { fingerprint: None, parsed: Ok(ParseTree { stmts: vec![] }) }];
    let p = process_doc(doc, id(doc), &["file://a.sql"], &pieces, "", &findings);
    assert_eq!(p.statements.len(), 1);
    assert_eq!(p.statements[0].text(), doc);
    assert_eq!(p.statement_fingerprints, vec![]);
    assert_eq!(p.statement_languages, vec![(id(doc), Language::PgSql)]);
    assert_eq!(p.sources.len(), 1);
}

#[test]
fn lone_comment_with_the_fingerprint_of_an_empty_tree() {
    let doc = "-- just a comment\n";
    let pieces = vec![sql(doc)];
    // the parser fingerprints a text without any statement, and gives a tree without nodes
    let findings = vec![Findings {
        fingerprint: Some(0xd8d5a9b4fb8a0c3a),
        parsed: Ok(ParseTree { stmts: vec![] }),
    }];
    assert_eq!(check_coverage(doc, &pieces, ""), Ok(()));
    let p = process_doc(doc, 7, &["file://a.sql"], &pieces, "", &findings);
    assert_eq!(p.statements.len(), 1);
    assert_eq!(p.statements[0].text(), doc);
    assert_eq!(p.statement_fingerprints, vec![]);
    assert_eq!(p.statement_languages, vec![(id(doc), Language::PgSql)]);
    assert_eq!(p.sources.len(), 1);
}

#[test]
fn statements_beside_a_comment_keep_their_fingerprint() {
    let doc = "-- a\nSELECT 1;\n/* b */\n";
    let pieces = vec![sql("-- a\n"), sql("SELECT 1;\n"), sql("/* b */\n")];
    let empty = |bits: u64| Findings {
        fingerprint: Some(bits),
        parsed: Ok(ParseTree { stmts: vec![] }),
    };
    let findings = vec![empty(1), select(2), empty(3)];
    let p = process_doc(doc, 7, &["u"], &pieces, "", &findings);
    assert_eq!(p.statement_fingerprints, vec![(id("SELECT 1;\n"), 2)]);
    assert_eq!(p.statement_languages.len(), 3);
}

#[test]
fn fingerprint_without_a_tree_is_taken() {
    let doc = "SELECT 1;\n";
    let pieces = vec![sql(doc)];
    let findings = vec![Findings {
        fingerprint: Some(9),
        parsed: Err(Failure::PgQueryError("no tree".to_string())),
    }];
    let p = process_doc(doc, 7, &["u"], &pieces, "", &findings);
    assert_eq!(p.statement_fingerprints, vec![(id(doc), 9)]);
}

#[test]
fn lone_comment_as_no_statement() {
    let doc = "-- just a comment\n";
    assert_eq!(check_coverage(doc, &vec![], doc), Err(CoverageError::Unconsumed));
}

#[test]
fn empty_document() {
    let p = process_doc("", id(""), &["u"], &vec![], "", &vec![]);
    assert_eq!(p.statements.len(), 0);
    assert_eq!(p.statement_fingerprints, vec![]);
    assert_eq!(p.statement_languages, vec![]);
    assert_eq!(p.sources.len(), 0);
}

#[test]
fn meta_commands_are_never_fingerprinted() {
    let doc = "\\set x 1\nSELECT :x;\n\\d t\n";
    let pieces = vec![psql("\\set x 1\n"), sql("SELECT :x;\n"), psql("\\d t\n")];
    // a fingerprint handed in for a meta-command is not taken
    let findings = vec![select(11), select(22), select(33)];
    let p = process_doc(doc, id(doc), &["u"], &pieces, "", &findings);
    assert_eq!(p.statement_fingerprints, vec![(id("SELECT :x;\n"), 22)]);
    assert_eq!(
        p.statement_languages,
        vec![
            (id("\\set x 1\n"), Language::Psql),
            (id("SELECT :x;\n"), Language::PgSql),
            (id("\\d t\n"), Language::Psql),
        ]
    );
}

#[test]
fn parser_failure_on_one_statement_leaves_the_others() {
    let doc = "SELEC 1;\nSELECT 2;\nDO $$ x $$ LANGUAGE plperl;\n";
    let pieces = vec![sql("SELEC 1;\n"), sql("SELECT 2;\n"), sql("DO $$ x $$ LANGUAGE plperl;\n")];
    let findings = vec![failed(), select(5), do_block(Some(6), Some("plperl"))];
    let p = process_doc(doc, id(doc), &["u"], &pieces, "", &findings);
    assert_eq!(p.statements.len(), 3);
    assert_eq!(
        p.statement_fingerprints,
        vec![(id("SELECT 2;\n"), 5), (id("DO $$ x $$ LANGUAGE plperl;\n"), 6)]
    );
    assert_eq!(
        p.statement_languages,
        vec![
            (id("SELEC 1;\n"), Language::PgSql),
            (id("SELECT 2;\n"), Language::PgSql),
            (id("DO $$ x $$ LANGUAGE plperl;\n"), Language::PgSql),
            (id("DO $$ x $$ LANGUAGE plperl;\n"), Language::PlPerl),
        ]
    );
    assert_eq!(p.sources.len(), 3);
}

#[test]
fn statements_without_findings_have_only_their_tag() {
    let doc = "SELECT 1;\nSELECT 2;\n";
    let pieces = vec![sql("SELECT 1;\n"), sql("SELECT 2;\n")];
    let p = process_doc(doc, id(doc), &["u"], &pieces, "", &vec![select(5)]);
    assert_eq!(p.statement_fingerprints, vec![(id("SELECT 1;\n"), 5)]);
    assert_eq!(p.statement_languages.len(), 2);
    let q = process_doc(doc, id(doc), &["u"], &pieces, "", &vec![]);
    assert_eq!(q.statement_fingerprints, vec![]);
    assert_eq!(q.statement_languages.len(), 2);
    // findings beyond the statements are not looked at
    let more = vec![select(5), select(6), do_block(Some(7), None)];
    let r = process_doc(doc, id(doc), &["u"], &pieces, "", &more);
    assert_eq!(r.statement_fingerprints.len(), 2);
    assert_eq!(r.statement_languages.len(), 2);
}

#[test]
fn refused_scan_is_told_before_processing() {
    let pieces = vec![sql("SELECT 1;")];
    assert_eq!(check_coverage("SELECT 1; '", &pieces, " '"), Err(CoverageError::Unconsumed));
    assert_eq!(check_coverage("SELECT 1;\n", &pieces, ""), Err(CoverageError::Mismatch));
}

#[test]
fn pieces_rebuild_the_document() {
    let doc = "-- é\nSELECT '€';\n\n\\x\nCREATE FUNCTION f() RETURNS int AS $$ 1 $$ LANGUAGE sql;";
    let pieces = vec![
        sql("-- é\nSELECT '€';\n"),
        psql("\n\\x\n"),
        sql("CREATE FUNCTION f() RETURNS int AS $$ 1 $$ LANGUAGE sql;"),
    ];
    let p = process_doc(doc, id(doc), &["a", "b"], &pieces, "", &vec![]);
    let rebuilt: String = p.statements.iter().map(|s| s.text()).collect();
    assert_eq!(rebuilt, doc);
    let total: usize = p.statements.iter().map(|s| s.text().len()).sum();
    assert_eq!(total, doc.len());
    assert_eq!(p.sources.len(), 6);
    let mut offset = 0;
    let mut line = 1;
    for (i, s) in p.statements.iter().enumerate() {
        for j in 0..2 {
            let source = &p.sources[2 * i + j];
            assert_eq!(source.start_offset(), offset);
            assert_eq!(source.end_offset(), offset + s.text().len());
            assert_eq!(source.start_line(), line);
        }
        offset += s.text().len();
        line += s.text().matches('\n').count();
    }
    assert_eq!(offset, doc.len());
}

#[test]
fn counts_of_distinct_and_all_statements() {
    let doc = "SELECT 1;\nSELECT 1;\nDO $$ x $$;\n";
    let pieces = vec![sql("SELECT 1;\n"), sql("SELECT 1;\n"), sql("DO $$ x $$;\n")];
    let findings = vec![select(1), select(1), do_block(Some(2), None)];
    let p = process_doc(doc, id(doc), &["u"], &pieces, "", &findings);
    assert_eq!(p.statement_languages.len(), 4);
    assert_eq!(count_statements(&p), (2, 3));
}

#[test]
fn counts_of_nothing() {
    let p = Processed {
        statements: vec![],
        statement_fingerprints: vec![],
        statement_languages: vec![],
        sources: vec![],
    };
    assert_eq!(count_statements(&p), (0, 0));
}

#[test]
fn known_document_is_not_processed_again() {
    let plan = plan_run(true);
    assert_eq!(plan, RunPlan::AssociateUrls);
    assert!(!plan.emits_rows());
}

#[test]
fn new_document_is_processed() {
    let plan = plan_run(false);
    assert_eq!(plan, RunPlan::Ingest);
    assert!(plan.emits_rows());
}

#[test]
fn only_plain_sql_is_to_be_fingerprinted() {
    assert!(wants_fingerprint(&sql("SELECT 1;")));
    assert!(!wants_fingerprint(&psql("\\d t")));
}

#[test]
fn urls_are_associated_with_the_document() {
    assert_eq!(associate_urls(5, &[]), vec![]);
    assert_eq!(
        associate_urls(5, &["file://a.sql", "", "file://a.sql"]),
        vec![(5, id("file://a.sql")), (5, id("")), (5, id("file://a.sql"))]
    );
}

#[test]
fn first_run_writes_every_row() {
    let doc = "SELECT 1;\nDO $$ x $$;\n";
    let pieces = vec![sql("SELECT 1;\n"), sql("DO $$ x $$;\n")];
    let findings = vec![select(1), do_block(Some(2), None)];
    assert_eq!(check_coverage(doc, &pieces, ""), Ok(()));
    let batch = ingest(false, doc, id(doc), &["file://a.sql"], &pieces, "", &findings);
    assert_eq!(batch.document_urls, vec![(id(doc), id("file://a.sql"))]);
    let rows = batch.rows.expect("a new document has rows");
    let alone = process_doc(doc, id(doc), &["file://a.sql"], &pieces, "", &findings);
    assert_eq!(rows.statements.len(), 2);
    assert_eq!(rows.statement_fingerprints, alone.statement_fingerprints);
    assert_eq!(rows.statement_languages, alone.statement_languages);
    assert_eq!(rows.statement_languages.len(), 3);
    assert_eq!(rows.sources.len(), 2);
}

#[test]
fn second_run_writes_only_the_url_associations() {
    let doc = "SELECT 1;\nDO $$ x $$;\n";
    let pieces = vec![sql("SELECT 1;\n"), sql("DO $$ x $$;\n")];
    let findings = vec![select(1), do_block(Some(2), None)];
    let first = ingest(false, doc, id(doc), &["file://a.sql"], &pieces, "", &findings);
    assert!(first.rows.is_some());
    // the same document, now known to the store, under two further urls
    let urls = ["https://x/a.sql", "https://y/a.sql"];
    let second = ingest(true, doc, id(doc), &urls, &pieces, "", &findings);
    assert!(second.rows.is_none());
    assert_eq!(
        second.document_urls,
        vec![(id(doc), id("https://x/a.sql")), (id(doc), id("https://y/a.sql"))]
    );
}

#[test]
fn known_document_needs_no_scan() {
    let doc = "SELECT 1; SELECT '";
    let batch = ingest(true, doc, id(doc), &["u"], &vec![], doc, &vec![]);
    assert!(batch.rows.is_none());
    assert_eq!(batch.document_urls, vec![(id(doc), id("u"))]);
    let none = ingest(true, doc, id(doc), &[], &vec![], "", &vec![]);
    assert!(none.rows.is_none());
    assert_eq!(none.document_urls, vec![]);
}
