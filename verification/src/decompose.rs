//! Decomposition of a document into statements, with the line and the byte
//! offset at which each starts, and the record of every url at which the
//! document is known.
//!
//! The boundary scanner is not part of this library. A caller runs it over
//! the document and hands in what it reported: the statement texts in
//! order, for each whether it is a psql meta-command, and the text that the
//! scanner left unconsumed.

use crate::language::Language;
use crate::statement::{SourceView, Statement, StatementSource, StatementView};
use crate::text::{
    byte_len, joined, lemma_joined_totals, lemma_totals_monotonic, same_text, total_len,
    total_lines, utf8_len,
};
use vstd::prelude::*;
use vstd::string::StringExecFns;

verus! {

/// What the boundary scanner reported of one statement.
#[derive(Clone, Debug)]
pub struct Scanned {
    /// The text of the statement, as it stands in the document.
    pub text: String,
    /// True when the text is a psql meta-command.
    pub is_psql: bool,
}

/// A report of the scanner, as plain values.
pub struct ScannedView {
    pub text: Seq<char>,
    pub is_psql: bool,
}

impl View for Scanned {
    type V = ScannedView;

    open spec fn view(&self) -> ScannedView {
        ScannedView { text: self.text@, is_psql: self.is_psql }
    }
}

/// Why a document was not decomposed.
#[derive(Debug, Clone, Copy, PartialEq, Eq, Structural)]
pub enum CoverageError {
    /// The scanner stopped before the end of the document.
    Unconsumed,
    /// The statement texts, one after the other, are not the document.
    Mismatch,
    /// The document fills the address space: its lines cannot be numbered.
    TooLong,
}

/// The reports of a scan, each as plain values.
pub open spec fn scanned_view(pieces: Seq<Scanned>) -> Seq<ScannedView> {
    pieces.map_values(|p: Scanned| p@)
}

/// The texts of the reports, in order.
pub open spec fn texts_of(pieces: Seq<ScannedView>) -> Seq<Seq<char>> {
    pieces.map_values(|p: ScannedView| p.text)
}

/// The scanner coverage invariant: nothing of the document is left
/// unconsumed, and the statement texts in order are the document.
pub open spec fn covers(doc: Seq<char>, texts: Seq<Seq<char>>, rest: Seq<char>) -> bool {
    rest.len() == 0 && joined(texts) == doc
}

/// Why a scan cannot be accepted, or `None` where it can.
pub open spec fn coverage_error(doc: Seq<char>, texts: Seq<Seq<char>>, rest: Seq<char>) -> Option<
    CoverageError,
> {
    if rest.len() != 0 {
        Some(CoverageError::Unconsumed)
    } else if joined(texts) != doc {
        Some(CoverageError::Mismatch)
    } else if utf8_len(doc) >= usize::MAX {
        Some(CoverageError::TooLong)
    } else {
        None
    }
}

/// The tag that decomposition gives a statement.
pub open spec fn shallow_language(is_psql: bool) -> Language {
    if is_psql {
        Language::Psql
    } else {
        Language::PgSql
    }
}

/// The statement that a report stands for.
pub open spec fn statement_of(piece: ScannedView, document_id: i64) -> StatementView {
    StatementView::of(piece.text, shallow_language(piece.is_psql), document_id)
}

/// The statements of a scan, in order.
pub open spec fn statements_of(pieces: Seq<ScannedView>, document_id: i64) -> Seq<StatementView> {
    pieces.map_values(|p: ScannedView| statement_of(p, document_id))
}

/// The line on which statement `i` starts: lines are counted from 1, and
/// each newline of an earlier statement starts a new one.
pub open spec fn line_before(texts: Seq<Seq<char>>, i: int) -> nat {
    1 + total_lines(texts.take(i))
}

/// The byte at which statement `i` starts: the sum of the lengths of the
/// statements before it.
pub open spec fn offset_before(texts: Seq<Seq<char>>, i: int) -> nat {
    total_len(texts.take(i))
}

/// The records of one statement: one for each url, in the order of the urls.
pub open spec fn sources_at(
    statement: StatementView,
    urls: Seq<Seq<char>>,
    start_line: nat,
    start_offset: nat,
) -> Seq<SourceView> {
    urls.map_values(|url: Seq<char>| statement.source_at(url, start_line, start_offset))
}

/// The records of the first `n` statements of a scan: statement by
/// statement, and for each statement url by url.
pub open spec fn sources_upto(
    pieces: Seq<ScannedView>,
    document_id: i64,
    urls: Seq<Seq<char>>,
    n: int,
) -> Seq<SourceView>
    decreases n,
{
    if n <= 0 {
        Seq::empty()
    } else {
        sources_upto(pieces, document_id, urls, n - 1) + sources_at(
            statement_of(pieces[n - 1], document_id),
            urls,
            line_before(texts_of(pieces), n - 1),
            offset_before(texts_of(pieces), n - 1),
        )
    }
}

/// The records of a whole scan.
pub open spec fn sources_of(pieces: Seq<ScannedView>, document_id: i64, urls: Seq<Seq<char>>) -> Seq<
    SourceView,
> {
    sources_upto(pieces, document_id, urls, pieces.len() as int)
}

/// The urls of a list, each as its characters.
pub open spec fn urls_view(urls: Seq<&str>) -> Seq<Seq<char>> {
    urls.map_values(|u: &str| u@)
}

/// The statements of a list, each as plain values.
pub open spec fn statements_view(statements: Seq<Statement>) -> Seq<StatementView> {
    statements.map_values(|s: Statement| s@)
}

/// The records of a list, each as plain values.
pub open spec fn source_records_view(sources: Seq<StatementSource>) -> Seq<SourceView> {
    sources.map_values(|s: StatementSource| s@)
}

/// Makes the statement with the given text, tagged `Psql` where the scanner
/// found a psql meta-command and `PgSql` where it did not.
pub fn text_to_statement(text: &str, is_psql: bool, document_id: i64) -> (statement: Statement)
    ensures
        statement@ == statement_of(ScannedView { text: text@, is_psql }, document_id),
        statement@.wf(),
{
    if is_psql {
        Statement::new(text.to_owned(), Language::Psql, document_id)
    } else {
        Statement::new(text.to_owned(), Language::PgSql, document_id)
    }
}

/// Holds a scan to the scanner coverage invariant: the scanner consumed the
/// whole document, and its statement texts in order are the document, byte
/// for byte.
pub fn check_coverage(doc: &str, pieces: &Vec<Scanned>, rest: &str) -> (outcome: Result<
    (),
    CoverageError,
>)
    ensures
        match coverage_error(doc@, texts_of(scanned_view(pieces@)), rest@) {
            Some(e) => outcome == Err::<(), CoverageError>(e),
            None => outcome is Ok,
        },
        outcome is Ok ==> covers(doc@, texts_of(scanned_view(pieces@)), rest@),
        outcome is Ok ==> total_len(texts_of(scanned_view(pieces@))) == utf8_len(doc@),
{
    let ghost texts = texts_of(scanned_view(pieces@));
    if byte_len(rest) != 0 {
        assert(rest@.len() != 0) by {
            if rest@.len() == 0 {
                assert(rest@ =~= Seq::<char>::empty());
            }
        }
        return Err(CoverageError::Unconsumed);
    }
    proof {
        crate::text::lemma_len_le_utf8_len(rest@);
    }
    let mut whole: String = String::new();
    let mut i: usize = 0;
    assert(texts.take(0) =~= Seq::<Seq<char>>::empty());
    while i < pieces.len()
        invariant
            i <= pieces.len(),
            texts == texts_of(scanned_view(pieces@)),
            whole@ == joined(texts.take(i as int)),
        decreases pieces.len() - i,
    {
        assert(texts.take(i + 1).drop_last() =~= texts.take(i as int));
        assert(texts.take(i + 1).last() == pieces@[i as int].text@);
        whole.append(pieces[i].text.as_str());
        i = i + 1;
    }
    assert(texts.take(pieces.len() as int) =~= texts);
    if !same_text(whole.as_str(), doc) {
        return Err(CoverageError::Mismatch);
    }
    if byte_len(doc) == usize::MAX {
        return Err(CoverageError::TooLong);
    }
    proof {
        lemma_joined_totals(texts);
    }
    Ok(())
}

/// The statements of a document and the records of where they were seen.
#[derive(Clone, Debug)]
pub struct Decomposition {
    /// The statements, in the order of the document.
    pub statements: Vec<Statement>,
    /// One record for each statement and url: statement by statement, and
    /// for each statement url by url.
    pub sources: Vec<StatementSource>,
}

/// Decomposes a document. `pieces` and `rest` are what the boundary scanner
/// reported of `doc`; `urls` are the urls at which the document is known.
///
/// The scan has to keep the coverage invariant: [`check_coverage`] is the
/// test. A scan that breaks it is fatal for the whole document, and no
/// statement of such a document is ever handed out.
///
/// The statements are those of the scan, in order, and each has one record
/// per url, with the line and the byte offset at which it starts.
pub fn decompose(
    doc: &str,
    document_id: i64,
    urls: &[&str],
    pieces: &Vec<Scanned>,
    rest: &str,
) -> (d: Decomposition)
    requires
        coverage_error(doc@, texts_of(scanned_view(pieces@)), rest@) is None,
    ensures
        joined(texts_of(scanned_view(pieces@))) == doc@,
        total_len(texts_of(scanned_view(pieces@))) == utf8_len(doc@),
        statements_view(d.statements@) == statements_of(scanned_view(pieces@), document_id),
        source_records_view(d.sources@) == sources_of(
            scanned_view(pieces@),
            document_id,
            urls_view(urls@),
        ),
        d.statements@.len() == pieces@.len(),
        d.sources@.len() == pieces@.len() * urls@.len(),
{
    let ghost scan = scanned_view(pieces@);
    let ghost texts = texts_of(scan);
    let ghost places = urls_view(urls@);
    proof {
        lemma_joined_totals(texts);
        crate::text::lemma_newline_count_le_len(doc@);
        crate::text::lemma_len_le_utf8_len(doc@);
    }
    let mut statements: Vec<Statement> = Vec::new();
    let mut sources: Vec<StatementSource> = Vec::new();
    let mut line_number: usize = 1;
    let mut offset: usize = 0;
    let mut i: usize = 0;
    assert(texts.take(0) =~= Seq::<Seq<char>>::empty());
    assert(statements_view(statements@) =~= statements_of(scan, document_id).take(0));
    assert(source_records_view(sources@) =~= sources_upto(scan, document_id, places, 0));
    while i < pieces.len()
        invariant
            i <= pieces.len(),
            scan == scanned_view(pieces@),
            texts == texts_of(scan),
            places == urls_view(urls@),
            total_len(texts) == utf8_len(doc@),
            total_lines(texts) <= utf8_len(doc@),
            utf8_len(doc@) < usize::MAX,
            line_number == line_before(texts, i as int),
            offset == offset_before(texts, i as int),
            statements_view(statements@) == statements_of(scan, document_id).take(i as int),
            source_records_view(sources@) == sources_upto(scan, document_id, places, i as int),
        decreases pieces.len() - i,
    {
        let piece = &pieces[i];
        let stmt = text_to_statement(piece.text.as_str(), piece.is_psql, document_id);
        proof {
            assert(stmt@ == statement_of(scan[i as int], document_id));
            assert(texts.take(i + 1).drop_last() =~= texts.take(i as int));
            assert(texts.take(i + 1).last() == stmt@.text);
            lemma_totals_monotonic(texts, i + 1);
        }
        let ghost before = source_records_view(sources@);
        let ghost block = sources_at(stmt@, places, line_number as nat, offset as nat);
        let mut j: usize = 0;
        while j < urls.len()
            invariant
                j <= urls.len(),
                places == urls_view(urls@),
                block == sources_at(stmt@, places, line_number as nat, offset as nat),
                offset + utf8_len(stmt@.text) <= usize::MAX,
                source_records_view(sources@) == before + block.take(j as int),
            decreases urls.len() - j,
        {
            let src = stmt.with_source(urls[j], line_number, offset);
            let ghost earlier = source_records_view(sources@);
            let ghost record = src@;
            sources.push(src);
            assert(source_records_view(sources@) =~= earlier.push(record));
            assert(block.take(j + 1) =~= block.take(j as int).push(record)) by {
                assert(places[j as int] == urls@[j as int]@);
                assert(block[j as int] == record);
            }
            assert(source_records_view(sources@) =~= before + block.take(j + 1));
            j = j + 1;
        }
        assert(block.take(urls.len() as int) =~= block);
        line_number = line_number + stmt.n_lines();
        offset = offset + stmt.len();
        let ghost earlier = statements_view(statements@);
        let ghost made = stmt@;
        statements.push(stmt);
        assert(statements_view(statements@) =~= earlier.push(made));
        assert(statements_of(scan, document_id).take(i + 1) =~= statements_of(
            scan,
            document_id,
        ).take(i as int).push(made));
        i = i + 1;
    }
    assert(statements_of(scan, document_id).take(pieces.len() as int) =~= statements_of(
        scan,
        document_id,
    ));
    proof {
        crate::laws::lemma_sources_len(scan, document_id, places, scan.len() as int);
        assert(statements_view(statements@).len() == statements@.len());
        assert(source_records_view(sources@).len() == sources@.len());
    }
    Decomposition { statements, sources }
}

} // verus!
