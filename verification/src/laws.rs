//! What holds of every document, stated over the models that the
//! contracts of the library use.

use crate::decompose::{
    coverage_error, line_before, offset_before, shallow_language, sources_at, sources_of,
    sources_upto, statement_of, texts_of, ScannedView,
};
use crate::identity::as_signed;
use crate::language::{language_of_name, names, Language};
use crate::pipeline::{
    finding_at, fingerprint_row, fingerprints_upto, holds_no_statement, language_rows,
    pl_tags_upto, url_associations, Batch, FindingsView, RunPlan,
};
use crate::pl::{
    declared_language, names_language, options_readable, pl_tag, OptionNodeView,
    StatementNodeView,
};
use crate::statement::{content_id, SourceView, StatementView};
use crate::text::{joined, lemma_joined_totals, total_len, total_lines, utf8_len};
use vstd::prelude::*;

verus! {

/// Reconstruction. The statement texts of an accepted scan, one after the
/// other, are the document, and their lengths add up to its length.
pub proof fn lemma_reconstruction(doc: Seq<char>, texts: Seq<Seq<char>>, rest: Seq<char>)
    requires
        coverage_error(doc, texts, rest) is None,
    ensures
        joined(texts) == doc,
        total_len(texts) == utf8_len(doc),
{
    lemma_joined_totals(texts);
}

/// Identity. Two statements with the same text have the same identity,
/// whatever document or place they come from.
pub proof fn lemma_same_text_same_id(a: StatementView, b: StatementView)
    requires
        a.wf(),
        b.wf(),
        a.text == b.text,
    ensures
        a.id == b.id,
{
}

/// Identity. Two records with the same url have the same url identity.
pub proof fn lemma_same_url_same_id(a: SourceView, b: SourceView)
    requires
        a.url == b.url,
    ensures
        a.url_id() == b.url_id(),
{
}

/// Every statement of a scan has one record for each url.
pub proof fn lemma_sources_len(
    pieces: Seq<ScannedView>,
    document_id: i64,
    urls: Seq<Seq<char>>,
    n: int,
)
    requires
        0 <= n <= pieces.len(),
    ensures
        sources_upto(pieces, document_id, urls, n).len() == n * urls.len(),
    decreases n,
{
    if n > 0 {
        lemma_sources_len(pieces, document_id, urls, n - 1);
        assert((n - 1) * urls.len() + urls.len() == n * urls.len()) by (nonlinear_arith);
    }
}

/// The records of the first statements of a scan stay as they are when
/// further statements follow.
pub proof fn lemma_sources_prefix(
    pieces: Seq<ScannedView>,
    document_id: i64,
    urls: Seq<Seq<char>>,
    m: int,
    n: int,
    k: int,
)
    requires
        0 <= m <= n <= pieces.len(),
        0 <= k < sources_upto(pieces, document_id, urls, m).len(),
    ensures
        k < sources_upto(pieces, document_id, urls, n).len(),
        sources_upto(pieces, document_id, urls, n)[k] == sources_upto(
            pieces,
            document_id,
            urls,
            m,
        )[k],
    decreases n - m,
{
    if m < n {
        lemma_sources_prefix(pieces, document_id, urls, m, n - 1, k);
    }
}

/// Source spans. The record of statement `i` for url `j` stands at place
/// `i * urls.len() + j`. It names the statement and the url, starts at the
/// byte that is the sum of the lengths of the statements before `i`, on the
/// line after their newlines, and spans the length of the statement's text.
pub proof fn lemma_source_span(
    pieces: Seq<ScannedView>,
    document_id: i64,
    urls: Seq<Seq<char>>,
    i: int,
    j: int,
)
    requires
        0 <= i < pieces.len(),
        0 <= j < urls.len(),
    ensures
        sources_of(pieces, document_id, urls).len() == pieces.len() * urls.len(),
        0 <= i * urls.len() + j < sources_of(pieces, document_id, urls).len(),
        ({
            let source = sources_of(pieces, document_id, urls)[i * urls.len() + j];
            &&& source.statement_id == content_id(pieces[i].text)
            &&& source.document_id == document_id
            &&& source.url == urls[j]
            &&& source.start_offset == total_len(texts_of(pieces).take(i))
            &&& source.end_offset - source.start_offset == utf8_len(pieces[i].text)
            &&& source.start_line == 1 + total_lines(texts_of(pieces).take(i))
            &&& source.n_lines == crate::text::newline_count(pieces[i].text)
        }),
{
    let k = i * urls.len() + j;
    lemma_sources_len(pieces, document_id, urls, pieces.len() as int);
    lemma_sources_len(pieces, document_id, urls, i);
    lemma_sources_len(pieces, document_id, urls, i + 1);
    assert((i + 1) * urls.len() == i * urls.len() + urls.len()) by (nonlinear_arith);
    assert(0 <= i * urls.len()) by (nonlinear_arith)
        requires
            0 <= i,
            0 <= urls.len(),
    ;
    let block = sources_at(
        statement_of(pieces[i], document_id),
        urls,
        line_before(texts_of(pieces), i),
        offset_before(texts_of(pieces), i),
    );
    assert(sources_upto(pieces, document_id, urls, i + 1)[k] == block[j]);
    lemma_sources_prefix(pieces, document_id, urls, i + 1, pieces.len() as int, k);
}

/// Shallow classification. The language rows of a document start with one
/// row for each statement, in order, which holds the statement's identity
/// and one of the two shallow tags. No later row holds a shallow tag.
pub proof fn lemma_one_shallow_tag(
    pieces: Seq<ScannedView>,
    findings: Seq<FindingsView>,
    k: int,
)
    requires
        0 <= k < language_rows(pieces, findings).len(),
    ensures
        pieces.len() <= language_rows(pieces, findings).len(),
        k < pieces.len() ==> language_rows(pieces, findings)[k] == (
            content_id(pieces[k].text),
            shallow_language(pieces[k].is_psql),
        ),
        k < pieces.len() <==> language_rows(pieces, findings)[k].1.is_shallow(),
{
    if k >= pieces.len() {
        lemma_pl_tag_is_not_shallow(pieces, findings, pieces.len() as int, k - pieces.len());
    }
}

/// The language of a procedural-language block is never a shallow tag.
pub proof fn lemma_pl_tag_is_not_shallow(
    pieces: Seq<ScannedView>,
    findings: Seq<FindingsView>,
    n: int,
    k: int,
)
    requires
        0 <= k < pl_tags_upto(pieces, findings, n).len(),
    ensures
        !pl_tags_upto(pieces, findings, n)[k].1.is_shallow(),
    decreases n,
{
    if n > 0 {
        let earlier = pl_tags_upto(pieces, findings, n - 1);
        if k < earlier.len() {
            lemma_pl_tag_is_not_shallow(pieces, findings, n - 1, k);
        }
    }
}

/// Fingerprint scoping. Every fingerprint row is the row of a statement
/// that is tagged `PgSql`, in which the parser found a statement, and of
/// which it gave a fingerprint; a statement tagged `Psql` has none.
pub proof fn lemma_fingerprints_are_of_sql(
    pieces: Seq<ScannedView>,
    findings: Seq<FindingsView>,
    n: int,
    k: int,
) -> (i: int)
    requires
        0 <= n <= pieces.len(),
        0 <= k < fingerprints_upto(pieces, findings, n).len(),
    ensures
        0 <= i < n,
        shallow_language(pieces[i].is_psql) == Language::PgSql,
        finding_at(findings, i).fingerprint is Some,
        !holds_no_statement(finding_at(findings, i)),
        fingerprints_upto(pieces, findings, n)[k] == (
            content_id(pieces[i].text),
            as_signed(finding_at(findings, i).fingerprint->0),
        ),
    decreases n,
{
    let earlier = fingerprints_upto(pieces, findings, n - 1);
    if k < earlier.len() {
        lemma_fingerprints_are_of_sql(pieces, findings, n - 1, k)
    } else {
        n - 1
    }
}

/// Fingerprint scoping. A document of psql meta-commands alone has no
/// fingerprint row, whatever the parser reported.
pub proof fn lemma_psql_has_no_fingerprint(
    pieces: Seq<ScannedView>,
    findings: Seq<FindingsView>,
    n: int,
)
    requires
        0 <= n <= pieces.len(),
        forall|i: int| 0 <= i < n ==> (#[trigger] pieces[i]).is_psql,
    ensures
        fingerprints_upto(pieces, findings, n).len() == 0,
    decreases n,
{
    if n > 0 {
        lemma_psql_has_no_fingerprint(pieces, findings, n - 1);
        assert(pieces[n - 1].is_psql);
    }
}

/// A text without any statement. Where the parser found no statement in a
/// text, such as a lone comment, the text has no fingerprint row and no
/// procedural-language tag, whatever fingerprint the parser gave.
pub proof fn lemma_no_statement_no_rows(id: i64, piece: ScannedView, finding: FindingsView)
    requires
        holds_no_statement(finding),
    ensures
        fingerprint_row(piece, finding) is None,
        pl_tag(id, finding.parsed) is None,
{
}

/// Reprocessing. A run on a document that the store holds already writes
/// no statement, fingerprint, language or source row, whatever the scanner
/// and the parser reported. It still makes the document known under every
/// url of the run.
pub proof fn lemma_reprocessing_writes_no_rows(
    batch: Batch,
    document_id: i64,
    urls: Seq<Seq<char>>,
    pieces: Seq<ScannedView>,
    findings: Seq<FindingsView>,
)
    requires
        batch.is_batch_of(true, document_id, urls, pieces, findings),
    ensures
        batch.rows is None,
        !RunPlan::plan_for(true).writes_rows(),
        batch.document_urls@.len() == urls.len(),
        forall|j: int|
            0 <= j < urls.len() ==> #[trigger] batch.document_urls@[j] == (
                document_id,
                content_id(urls[j]),
            ),
{
}

/// A first run on a document writes the rows of the document, and makes
/// the document known under every url of the run as well.
pub proof fn lemma_first_run_writes_rows(
    batch: Batch,
    document_id: i64,
    urls: Seq<Seq<char>>,
    pieces: Seq<ScannedView>,
    findings: Seq<FindingsView>,
)
    requires
        batch.is_batch_of(false, document_id, urls, pieces, findings),
    ensures
        RunPlan::plan_for(false).writes_rows(),
        batch.rows matches Some(p) && p.is_result_of(document_id, urls, pieces, findings),
        batch.document_urls@ == url_associations(document_id, urls),
{
}

/// An option list without a `language` option declares `plpgsql`.
pub proof fn lemma_default_language(options: Seq<OptionNodeView>)
    requires
        forall|i: int| 0 <= i < options.len() ==> !names_language(#[trigger] options[i]),
    ensures
        options_readable(options),
        declared_language(options) == "plpgsql"@,
    decreases options.len(),
{
    if options.len() > 0 {
        let rest = options.drop_last();
        assert forall|i: int| 0 <= i < rest.len() implies !names_language(#[trigger] rest[i]) by {
            assert(rest[i] == options[i]);
        }
        lemma_default_language(rest);
        assert(!names_language(options[options.len() - 1]));
    }
    assert forall|i: int| 0 <= i < options.len() implies crate::pl::option_is_readable(
        #[trigger] options[i],
    ) by {
        assert(!names_language(options[i]));
    }
}

/// The name `plpgsql` stands for `PlPgSql`.
pub proof fn lemma_plpgsql_is_plpgsql()
    ensures
        language_of_name("plpgsql"@) == Language::PlPgSql,
{
    assert(names("plpgsql"@, "plpgsql"@));
}

/// The default rule. A `DO` block without a `language` option is tagged
/// `PlPgSql`.
pub proof fn lemma_do_block_defaults_to_plpgsql(id: i64, tree: Seq<StatementNodeView>)
    requires
        tree.len() > 0,
        tree[0] is Do,
        forall|i: int|
            0 <= i < tree[0]->Do_0.len() ==> !names_language(#[trigger] tree[0]->Do_0[i]),
    ensures
        pl_tag(id, Some(tree)) == Some((id, Language::PlPgSql)),
{
    lemma_default_language(tree[0]->Do_0);
    lemma_plpgsql_is_plpgsql();
}

} // verus!
