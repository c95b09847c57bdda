//! Statements and the record of where each was seen.

use crate::identity::{hash64, hash64_of};
use crate::language::Language;
use crate::text::{byte_len, count_newlines, newline_count, utf8_len};
use vstd::prelude::*;
use vstd::utf8::encode_utf8;

verus! {

/// The identity of a text: the hash of its UTF-8 bytes.
pub open spec fn content_id(text: Seq<char>) -> i64 {
    hash64_of(encode_utf8(text))
}

/// The identity of `text`: the hash of its UTF-8 bytes.
pub fn id_of_text(text: &str) -> (id: i64)
    ensures
        id == content_id(text@),
{
    hash64(text.as_bytes())
}

/// What a statement is, as plain values.
pub struct StatementView {
    pub text: Seq<char>,
    pub document_id: i64,
    pub id: i64,
    pub language: Language,
    pub n_lines: nat,
}

impl StatementView {
    /// The identity and the line count are those of the text.
    pub open spec fn wf(self) -> bool {
        &&& self.id == content_id(self.text)
        &&& self.n_lines == newline_count(self.text)
    }

    /// The statement with this text, tag and document.
    pub open spec fn of(text: Seq<char>, language: Language, document_id: i64) -> StatementView {
        StatementView {
            text,
            document_id,
            id: content_id(text),
            language,
            n_lines: newline_count(text),
        }
    }

    /// The record that this statement, starting at the given line and byte
    /// offset of its document, was seen at `url`.
    pub open spec fn source_at(self, url: Seq<char>, start_line: nat, start_offset: nat) -> SourceView {
        SourceView {
            statement_id: self.id,
            start_line,
            n_lines: self.n_lines,
            start_offset,
            end_offset: start_offset + utf8_len(self.text),
            document_id: self.document_id,
            url,
        }
    }
}

/// One statement of a document.
#[derive(Debug)]
pub struct Statement {
    text: String,
    /// The identity of the document that the statement is drawn from.
    document_id: i64,
    /// The identity of the text.
    id: i64,
    language: Language,
    n_lines: usize,
}

impl View for Statement {
    type V = StatementView;

    closed spec fn view(&self) -> StatementView {
        StatementView {
            text: self.text@,
            document_id: self.document_id,
            id: self.id,
            language: self.language,
            n_lines: self.n_lines as nat,
        }
    }
}

impl Clone for Statement {
    fn clone(&self) -> (copy: Statement)
        ensures
            copy@ == self@,
    {
        proof {
            use_type_invariant(self);
        }
        Statement {
            text: self.text.clone(),
            document_id: self.document_id,
            id: self.id,
            language: self.language,
            n_lines: self.n_lines,
        }
    }
}

impl Statement {
    /// Every statement carries the identity and the line count of its text.
    #[verifier::type_invariant]
    spec fn well_formed(self) -> bool {
        self@.wf()
    }

    /// Makes the statement with the given text: its identity is the hash of
    /// the text, its line count the number of newlines in it.
    pub fn new(text: String, language: Language, document_id: i64) -> (statement: Statement)
        ensures
            statement@ == StatementView::of(text@, language, document_id),
            statement@.wf(),
    {
        let n_lines = count_newlines(text.as_str());
        let id = id_of_text(text.as_str());
        Statement { id, document_id, text, language, n_lines }
    }

    /// The record that this statement was seen at `url`, starting at line
    /// `start_line` and byte `start_offset` of its document.
    pub fn with_source(&self, url: &str, start_line: usize, start_offset: usize) -> (source:
        StatementSource)
        requires
            start_offset + utf8_len(self@.text) <= usize::MAX,
        ensures
            source@ == self@.source_at(url@, start_line as nat, start_offset as nat),
    {
        StatementSource {
            statement_id: self.id,
            url: url.to_owned(),
            document_id: self.document_id,
            start_line,
            start_offset,
            end_offset: start_offset + byte_len(self.text.as_str()),
            n_lines: self.n_lines,
        }
    }

    /// The text of the statement.
    pub fn text(&self) -> (text: &str)
        ensures
            text@ == self@.text,
    {
        self.text.as_str()
    }

    /// The identity of the statement's text.
    pub fn id(&self) -> (id: i64)
        ensures
            id == self@.id,
            id == content_id(self@.text),
    {
        proof {
            use_type_invariant(self);
        }
        self.id
    }

    /// The identity of the document that the statement is drawn from.
    pub fn document_id(&self) -> (id: i64)
        ensures
            id == self@.document_id,
    {
        self.document_id
    }

    /// The tag that decomposition gave the statement.
    pub fn language(&self) -> (language: Language)
        ensures
            language == self@.language,
    {
        self.language
    }

    /// The number of newlines in the text.
    pub fn n_lines(&self) -> (n: usize)
        ensures
            n == self@.n_lines,
            n == newline_count(self@.text),
    {
        proof {
            use_type_invariant(self);
        }
        self.n_lines
    }

    /// The length of the text in bytes.
    pub fn len(&self) -> (n: usize)
        ensures
            n == utf8_len(self@.text),
    {
        byte_len(self.text.as_str())
    }
}

/// What a source record is, as plain values.
pub struct SourceView {
    pub statement_id: i64,
    pub start_line: nat,
    pub n_lines: nat,
    pub start_offset: nat,
    pub end_offset: nat,
    pub document_id: i64,
    pub url: Seq<char>,
}

impl SourceView {
    /// The record spans the bytes from `start_offset` up to `end_offset`.
    pub open spec fn wf(self) -> bool {
        self.start_offset <= self.end_offset
    }

    /// The identity of the url.
    pub open spec fn url_id(self) -> i64 {
        content_id(self.url)
    }
}

/// The fact that a statement was seen at a url, at a place in a document.
#[derive(Debug)]
pub struct StatementSource {
    statement_id: i64,
    /// Lines are counted from 1.
    start_line: usize,
    /// May be 0.
    n_lines: usize,
    /// Offsets are counted from 0, in bytes.
    start_offset: usize,
    end_offset: usize,
    /// The identity of the document that the statement is drawn from.
    document_id: i64,
    url: String,
}

impl View for StatementSource {
    type V = SourceView;

    closed spec fn view(&self) -> SourceView {
        SourceView {
            statement_id: self.statement_id,
            start_line: self.start_line as nat,
            n_lines: self.n_lines as nat,
            start_offset: self.start_offset as nat,
            end_offset: self.end_offset as nat,
            document_id: self.document_id,
            url: self.url@,
        }
    }
}

impl Clone for StatementSource {
    fn clone(&self) -> (copy: StatementSource)
        ensures
            copy@ == self@,
    {
        proof {
            use_type_invariant(self);
        }
        StatementSource {
            statement_id: self.statement_id,
            start_line: self.start_line,
            n_lines: self.n_lines,
            start_offset: self.start_offset,
            end_offset: self.end_offset,
            document_id: self.document_id,
            url: self.url.clone(),
        }
    }
}

impl StatementSource {
    /// No record ends before it starts.
    #[verifier::type_invariant]
    spec fn well_formed(self) -> bool {
        self@.wf()
    }

    /// The identity of the url: the hash of its UTF-8 bytes.
    pub fn url_id(&self) -> (id: i64)
        ensures
            id == self@.url_id(),
    {
        id_of_text(self.url.as_str())
    }

    /// The identity of the statement.
    pub fn statement_id(&self) -> (id: i64)
        ensures
            id == self@.statement_id,
    {
        self.statement_id
    }

    /// The line of the document on which the statement starts, counted from 1.
    pub fn start_line(&self) -> (line: usize)
        ensures
            line == self@.start_line,
    {
        self.start_line
    }

    /// The number of newlines in the statement.
    pub fn n_lines(&self) -> (n: usize)
        ensures
            n == self@.n_lines,
    {
        self.n_lines
    }

    /// The byte of the document at which the statement starts.
    pub fn start_offset(&self) -> (offset: usize)
        ensures
            offset == self@.start_offset,
    {
        self.start_offset
    }

    /// The byte of the document before which the statement ends.
    pub fn end_offset(&self) -> (offset: usize)
        ensures
            offset == self@.end_offset,
            offset >= self@.start_offset,
    {
        proof {
            use_type_invariant(self);
        }
        self.end_offset
    }

    /// The identity of the document.
    pub fn document_id(&self) -> (id: i64)
        ensures
            id == self@.document_id,
    {
        self.document_id
    }

    /// The url at which the statement was seen.
    pub fn url(&self) -> (url: &str)
        ensures
            url@ == self@.url,
    {
        self.url.as_str()
    }
}

} // verus!
