//! The pipeline over one document: decomposition, fingerprints, language
//! tags and source records, and the rule for a document seen before.
//!
//! The parser is not part of this library. A caller runs it on each
//! statement text and hands in what it reported.

use crate::decompose::{
    coverage_error, decompose, scanned_view, shallow_language, source_records_view, sources_of,
    statements_of, statements_view, texts_of, urls_view, Scanned, ScannedView,
};
use crate::failure::Failure;
use crate::identity::{as_signed, to_signed};
use crate::language::Language;
use crate::pl::{parsed_view, pl_tag, recognize_pl_statement, ParseTree, StatementNodeView};
use crate::statement::{content_id, id_of_text, Statement, StatementSource};
use crate::text::{joined, total_len, utf8_len};
use std::collections::HashSet;
use vstd::prelude::*;

verus! {

/// What the parser reported of one statement text.
#[derive(Debug)]
pub struct Findings {
    /// The structural fingerprint of the text; `None` where the parser gave
    /// none, or was not asked.
    pub fingerprint: Option<u64>,
    /// The syntax tree of the text, or why there is none.
    pub parsed: Result<ParseTree, Failure>,
}

/// A report of the parser, as plain values. Of a parser failure only the
/// fact is kept.
pub struct FindingsView {
    pub fingerprint: Option<u64>,
    pub parsed: Option<Seq<StatementNodeView>>,
}

impl View for Findings {
    type V = FindingsView;

    open spec fn view(&self) -> FindingsView {
        FindingsView { fingerprint: self.fingerprint, parsed: parsed_view(self.parsed) }
    }
}

/// The findings of a list, each as plain values.
pub open spec fn findings_view(findings: Seq<Findings>) -> Seq<FindingsView> {
    findings.map_values(|f: Findings| f@)
}

/// What the parser reported of statement `i`. A statement beyond the end of
/// the findings counts as one of which the parser reported nothing.
pub open spec fn finding_at(findings: Seq<FindingsView>, i: int) -> FindingsView {
    if 0 <= i < findings.len() {
        findings[i]
    } else {
        FindingsView { fingerprint: None, parsed: None }
    }
}

/// True of a text in which the parser found no statement at all, such as a
/// lone comment.
pub open spec fn holds_no_statement(finding: FindingsView) -> bool {
    finding.parsed matches Some(tree) && tree.len() == 0
}

/// The fingerprint row of a statement: its identity and its fingerprint.
/// Only plain SQL has one, and only where the parser gave a fingerprint. A
/// text without any statement has none, whatever the parser gave.
pub open spec fn fingerprint_row(piece: ScannedView, finding: FindingsView) -> Option<(i64, i64)> {
    match finding.fingerprint {
        Some(bits) if !piece.is_psql && !holds_no_statement(finding) => Some(
            (content_id(piece.text), as_signed(bits)),
        ),
        _ => None,
    }
}

/// The fingerprint rows of the first `n` statements, in their order.
pub open spec fn fingerprints_upto(pieces: Seq<ScannedView>, findings: Seq<FindingsView>, n: int) -> Seq<
    (i64, i64),
>
    decreases n,
{
    if n <= 0 {
        Seq::empty()
    } else {
        let earlier = fingerprints_upto(pieces, findings, n - 1);
        match fingerprint_row(pieces[n - 1], finding_at(findings, n - 1)) {
            Some(row) => earlier.push(row),
            None => earlier,
        }
    }
}

/// The tag that decomposition gives each statement, in their order.
pub open spec fn shallow_tags(pieces: Seq<ScannedView>) -> Seq<(i64, Language)> {
    pieces.map_values(|p: ScannedView| (content_id(p.text), shallow_language(p.is_psql)))
}

/// The tags of the procedural-language blocks among the first `n`
/// statements, in their order.
pub open spec fn pl_tags_upto(pieces: Seq<ScannedView>, findings: Seq<FindingsView>, n: int) -> Seq<
    (i64, Language),
>
    decreases n,
{
    if n <= 0 {
        Seq::empty()
    } else {
        let earlier = pl_tags_upto(pieces, findings, n - 1);
        match pl_tag(content_id(pieces[n - 1].text), finding_at(findings, n - 1).parsed) {
            Some(tag) => earlier.push(tag),
            None => earlier,
        }
    }
}

/// The language rows of a document: the tag of every statement, then the
/// tags of its procedural-language blocks.
pub open spec fn language_rows(pieces: Seq<ScannedView>, findings: Seq<FindingsView>) -> Seq<
    (i64, Language),
> {
    shallow_tags(pieces) + pl_tags_upto(pieces, findings, pieces.len() as int)
}

/// The four collections that one document gives.
#[derive(Debug)]
pub struct Processed {
    /// The statements, in the order of the document.
    pub statements: Vec<Statement>,
    /// For each fingerprinted statement its identity and its fingerprint.
    pub statement_fingerprints: Vec<(i64, i64)>,
    /// For each statement its identity and its tag, then for each
    /// procedural-language block its identity and the language of its body.
    pub statement_languages: Vec<(i64, Language)>,
    /// One record for each statement and url.
    pub sources: Vec<StatementSource>,
}

impl Processed {
    /// True when the collections are those of the document `document_id`,
    /// known at `urls`, of which the scanner reported `pieces` and the
    /// parser `findings`.
    pub open spec fn is_result_of(
        self,
        document_id: i64,
        urls: Seq<Seq<char>>,
        pieces: Seq<ScannedView>,
        findings: Seq<FindingsView>,
    ) -> bool {
        &&& statements_view(self.statements@) == statements_of(pieces, document_id)
        &&& source_records_view(self.sources@) == sources_of(pieces, document_id, urls)
        &&& self.statement_fingerprints@ == fingerprints_upto(
            pieces,
            findings,
            pieces.len() as int,
        )
        &&& self.statement_languages@ == language_rows(pieces, findings)
    }
}

/// Decides whether the parser is asked for the fingerprint of a scanned
/// statement: only plain SQL is fingerprinted, a psql meta-command never.
pub fn wants_fingerprint(piece: &Scanned) -> (wanted: bool)
    ensures
        wanted == (shallow_language(piece@.is_psql) == Language::PgSql),
{
    !piece.is_psql
}

/// Decides whether the parser found no statement at all in a text.
fn found_no_statement(finding: &Findings) -> (none: bool)
    ensures
        none == holds_no_statement(finding@),
{
    match &finding.parsed {
        Ok(tree) => {
            assert(tree@.len() == tree.stmts@.len());
            tree.stmts.len() == 0
        },
        Err(_) => false,
    }
}

/// The fingerprint rows of `statements`.
fn collect_fingerprints(
    statements: &Vec<Statement>,
    findings: &Vec<Findings>,
    Ghost(pieces): Ghost<Seq<ScannedView>>,
) -> (rows: Vec<(i64, i64)>)
    requires
        statements@.len() == pieces.len(),
        forall|i: int|
            0 <= i < statements@.len() ==> {
                &&& (#[trigger] statements@[i])@.id == content_id(pieces[i].text)
                &&& statements@[i]@.language == shallow_language(pieces[i].is_psql)
            },
    ensures
        rows@ == fingerprints_upto(pieces, findings_view(findings@), pieces.len() as int),
{
    let ghost found = findings_view(findings@);
    let mut rows: Vec<(i64, i64)> = Vec::new();
    let mut i: usize = 0;
    while i < statements.len()
        invariant
            i <= statements.len(),
            statements@.len() == pieces.len(),
            found == findings_view(findings@),
            forall|k: int|
                0 <= k < statements@.len() ==> {
                    &&& (#[trigger] statements@[k])@.id == content_id(pieces[k].text)
                    &&& statements@[k]@.language == shallow_language(pieces[k].is_psql)
                },
            rows@ == fingerprints_upto(pieces, found, i as int),
        decreases statements.len() - i,
    {
        let statement = &statements[i];
        if i < findings.len() {
            assert(finding_at(found, i as int) == findings@[i as int]@);
            match statement.language() {
                Language::PgSql => {
                    if let Some(bits) = findings[i].fingerprint {
                        if !found_no_statement(&findings[i]) {
                            rows.push((statement.id(), to_signed(bits)));
                        }
                    }
                },
                _ => {},
            }
        }
        i = i + 1;
    }
    rows
}

/// The tags of the procedural-language blocks among `statements`.
fn collect_pl_tags(
    statements: &Vec<Statement>,
    findings: &Vec<Findings>,
    Ghost(pieces): Ghost<Seq<ScannedView>>,
) -> (tags: Vec<(i64, Language)>)
    requires
        statements@.len() == pieces.len(),
        forall|i: int|
            0 <= i < statements@.len() ==> (#[trigger] statements@[i])@.id == content_id(
                pieces[i].text,
            ),
    ensures
        tags@ == pl_tags_upto(pieces, findings_view(findings@), pieces.len() as int),
{
    let ghost found = findings_view(findings@);
    let mut tags: Vec<(i64, Language)> = Vec::new();
    let mut i: usize = 0;
    while i < statements.len()
        invariant
            i <= statements.len(),
            statements@.len() == pieces.len(),
            found == findings_view(findings@),
            forall|k: int|
                0 <= k < statements@.len() ==> (#[trigger] statements@[k])@.id == content_id(
                    pieces[k].text,
                ),
            tags@ == pl_tags_upto(pieces, found, i as int),
        decreases statements.len() - i,
    {
        if i < findings.len() {
            assert(finding_at(found, i as int) == findings@[i as int]@);
            if let Some(tag) = recognize_pl_statement(&statements[i], &findings[i].parsed) {
                tags.push(tag);
            }
        }
        i = i + 1;
    }
    tags
}

/// Processes one document. `pieces` and `rest` are what the boundary
/// scanner reported of `doc`, `findings[i]` is what the parser reported of
/// the text of `pieces[i]`, and `urls` are the urls at which the document
/// is known.
///
/// The scan has to keep the coverage invariant, of which
/// [`check_coverage`](crate::decompose::check_coverage) is the test: a scan
/// that breaks it is fatal for the document. That the parser failed on a
/// statement only leaves the statement without fingerprint or tag.
pub fn process_doc(
    doc: &str,
    document_id: i64,
    urls: &[&str],
    pieces: &Vec<Scanned>,
    rest: &str,
    findings: &Vec<Findings>,
) -> (p: Processed)
    requires
        coverage_error(doc@, texts_of(scanned_view(pieces@)), rest@) is None,
    ensures
        joined(texts_of(scanned_view(pieces@))) == doc@,
        total_len(texts_of(scanned_view(pieces@))) == utf8_len(doc@),
        p.is_result_of(
            document_id,
            urls_view(urls@),
            scanned_view(pieces@),
            findings_view(findings@),
        ),
        p.statements@.len() == pieces@.len(),
        p.sources@.len() == pieces@.len() * urls@.len(),
{
    let decomposition = decompose(doc, document_id, urls, pieces, rest);
    let statements = decomposition.statements;
    let sources = decomposition.sources;
    let ghost scan = scanned_view(pieces@);
    assert(statements_view(statements@).len() == statements@.len());
    assert(statements_of(scan, document_id).len() == scan.len());
    assert forall|i: int| 0 <= i < statements@.len() implies {
        &&& (#[trigger] statements@[i])@.id == content_id(scan[i].text)
        &&& statements@[i]@.language == shallow_language(scan[i].is_psql)
    } by {
        assert(statements_view(statements@)[i] == statements@[i]@);
        assert(statements_of(scan, document_id)[i] == crate::decompose::statement_of(
            scan[i],
            document_id,
        ));
    }
    let statement_fingerprints = collect_fingerprints(&statements, findings, Ghost(scan));
    let pl_blocks = collect_pl_tags(&statements, findings, Ghost(scan));

    let mut statement_languages: Vec<(i64, Language)> = Vec::new();
    let mut i: usize = 0;
    while i < statements.len()
        invariant
            i <= statements.len(),
            statements@.len() == scan.len(),
            forall|k: int|
                0 <= k < statements@.len() ==> {
                    &&& (#[trigger] statements@[k])@.id == content_id(scan[k].text)
                    &&& statements@[k]@.language == shallow_language(scan[k].is_psql)
                },
            statement_languages@ == shallow_tags(scan).take(i as int),
        decreases statements.len() - i,
    {
        statement_languages.push((statements[i].id(), statements[i].language()));
        assert(statement_languages@ =~= shallow_tags(scan).take(i + 1));
        i = i + 1;
    }
    assert(shallow_tags(scan).take(scan.len() as int) =~= shallow_tags(scan));
    let mut j: usize = 0;
    while j < pl_blocks.len()
        invariant
            j <= pl_blocks.len(),
            statement_languages@ == shallow_tags(scan) + pl_blocks@.take(j as int),
        decreases pl_blocks.len() - j,
    {
        statement_languages.push(pl_blocks[j]);
        assert(statement_languages@ =~= shallow_tags(scan) + pl_blocks@.take(j + 1));
        j = j + 1;
    }
    assert(pl_blocks@.take(pl_blocks.len() as int) =~= pl_blocks@);
    Processed { statements, statement_fingerprints, statement_languages, sources }
}

/// The identities of a list of rows, in the order of the rows.
pub open spec fn row_ids(rows: Seq<(i64, Language)>) -> Seq<i64> {
    rows.map_values(|row: (i64, Language)| row.0)
}

/// Counts the statements of a document: first the distinct identities among
/// its statements and procedural-language blocks, then all its statements.
pub fn count_statements(processed: &Processed) -> (counts: (usize, usize))
    ensures
        counts.0 == row_ids(processed.statement_languages@).to_set().len(),
        counts.1 == processed.statements@.len(),
{
    broadcast use vstd::std_specs::hash::group_hash_axioms;

    let rows = &processed.statement_languages;
    let ghost ids = row_ids(rows@);
    let mut seen: HashSet<i64> = HashSet::new();
    let mut i: usize = 0;
    assert(ids.take(0).to_set() =~= Set::<i64>::empty());
    while i < rows.len()
        invariant
            i <= rows.len(),
            ids == row_ids(rows@),
            seen@ == ids.take(i as int).to_set(),
        decreases rows.len() - i,
    {
        seen.insert(rows[i].0);
        assert(ids.take(i + 1).to_set() =~= ids.take(i as int).to_set().insert(ids[i as int])) by {
            assert(ids.take(i + 1) =~= ids.take(i as int).push(ids[i as int]));
            assert forall|x: i64| #[trigger]
                ids.take(i + 1).to_set().contains(x) <==> ids.take(i as int).to_set().insert(
                    ids[i as int],
                ).contains(x) by {
                if ids.take(i as int).to_set().contains(x) {
                    let k = choose|k: int| 0 <= k < i && ids.take(i as int)[k] == x;
                    assert(ids.take(i + 1)[k] == x);
                }
                if x == ids[i as int] {
                    assert(ids.take(i + 1)[i as int] == x);
                }
            }
        }
        i = i + 1;
    }
    assert(ids.take(rows.len() as int) =~= ids);
    (seen.len(), processed.statements.len())
}

/// What a run does with its document.
#[derive(Debug, Clone, Copy, PartialEq, Eq, Structural)]
pub enum RunPlan {
    /// The document is in the corpus already. It is not decomposed again,
    /// and no statement, fingerprint or language row is written: the
    /// document is only associated with the urls of this run.
    AssociateUrls,
    /// The document is new: it is decomposed, and all its rows are written.
    Ingest,
}

impl RunPlan {
    /// The plan for a document of which the store says whether it was
    /// processed already.
    pub open spec fn plan_for(already_processed: bool) -> RunPlan {
        if already_processed {
            RunPlan::AssociateUrls
        } else {
            RunPlan::Ingest
        }
    }

    /// True when the run decomposes the document and writes its statement,
    /// fingerprint and language rows.
    pub open spec fn writes_rows(self) -> bool {
        self == RunPlan::Ingest
    }

    /// Decides whether the run decomposes the document and writes its rows.
    pub fn emits_rows(self) -> (emits: bool)
        ensures
            emits == self.writes_rows(),
    {
        match self {
            RunPlan::Ingest => true,
            RunPlan::AssociateUrls => false,
        }
    }
}

/// Plans the run for a document. `already_processed` is the store's answer
/// to whether the document was processed before. A document seen before is
/// never decomposed again: the run only associates it with its urls.
pub fn plan_run(already_processed: bool) -> (plan: RunPlan)
    ensures
        plan == RunPlan::plan_for(already_processed),
        already_processed <==> !plan.writes_rows(),
{
    if already_processed {
        RunPlan::AssociateUrls
    } else {
        RunPlan::Ingest
    }
}

/// The rows that make a document known under the urls of a run: for each
/// url the identity of the document and the identity of the url.
pub open spec fn url_associations(document_id: i64, urls: Seq<Seq<char>>) -> Seq<(i64, i64)> {
    urls.map_values(|url: Seq<char>| (document_id, content_id(url)))
}

/// Everything that one run writes into the store.
#[derive(Debug)]
pub struct Batch {
    /// For each url of the run the identity of the document and the
    /// identity of the url.
    pub document_urls: Vec<(i64, i64)>,
    /// The four collections of the document; `None` for a document that
    /// was processed before, of which no such row is written again.
    pub rows: Option<Processed>,
}

impl Batch {
    /// True when the batch is the one of a run on the document
    /// `document_id` with the given urls, of which the store said whether
    /// it was processed already, the scanner reported `pieces` and the
    /// parser `findings`.
    pub open spec fn is_batch_of(
        self,
        already_processed: bool,
        document_id: i64,
        urls: Seq<Seq<char>>,
        pieces: Seq<ScannedView>,
        findings: Seq<FindingsView>,
    ) -> bool {
        &&& self.document_urls@ == url_associations(document_id, urls)
        &&& if already_processed {
            self.rows is None
        } else {
            self.rows matches Some(p) && p.is_result_of(document_id, urls, pieces, findings)
        }
    }
}

/// The rows that make the document known under each of `urls`.
pub fn associate_urls(document_id: i64, urls: &[&str]) -> (rows: Vec<(i64, i64)>)
    ensures
        rows@ == url_associations(document_id, urls_view(urls@)),
{
    let ghost wanted = url_associations(document_id, urls_view(urls@));
    let mut rows: Vec<(i64, i64)> = Vec::new();
    let mut i: usize = 0;
    while i < urls.len()
        invariant
            i <= urls.len(),
            wanted == url_associations(document_id, urls_view(urls@)),
            rows@ == wanted.take(i as int),
        decreases urls.len() - i,
    {
        rows.push((document_id, id_of_text(urls[i])));
        assert(rows@ =~= wanted.take(i + 1));
        i = i + 1;
    }
    assert(wanted.take(urls.len() as int) =~= wanted);
    rows
}

/// Runs one document against the store's answer. `already_processed` says
/// whether the store holds the document already; the other arguments are
/// those of [`process_doc`].
///
/// Every run makes the document known under its urls. A document that was
/// processed before is not processed again, whatever was scanned or
/// parsed: none of its statement, fingerprint, language or source rows is
/// written a second time. For a new document the scan has to keep the
/// coverage invariant.
pub fn ingest(
    already_processed: bool,
    doc: &str,
    document_id: i64,
    urls: &[&str],
    pieces: &Vec<Scanned>,
    rest: &str,
    findings: &Vec<Findings>,
) -> (batch: Batch)
    requires
        !already_processed ==> coverage_error(doc@, texts_of(scanned_view(pieces@)), rest@)
            is None,
    ensures
        batch.is_batch_of(
            already_processed,
            document_id,
            urls_view(urls@),
            scanned_view(pieces@),
            findings_view(findings@),
        ),
{
    let document_urls = associate_urls(document_id, urls);
    let rows = if plan_run(already_processed).emits_rows() {
        Some(process_doc(doc, document_id, urls, pieces, rest, findings))
    } else {
        None
    };
    Batch { document_urls, rows }
}

} // verus!
