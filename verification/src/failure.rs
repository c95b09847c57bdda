//! The ways in which a run can fail.

use vstd::prelude::*;
use vstd::std_specs::convert::FromSpecImpl;

verus! {

/// An error of the operating system, as `std::io` reports it.
#[verifier::external_type_specification]
#[verifier::external_body]
pub struct ExIoError(std::io::Error);

/// An error of the corpus store, as `rusqlite` reports it.
#[verifier::external_type_specification]
#[verifier::external_body]
pub struct ExStoreError(rusqlite::Error);

/// Why a run, or one step of it, failed.
#[derive(Debug)]
pub enum Failure {
    /// The input could not be read.
    IoErr(std::io::Error),
    /// The parser rejected a statement; the message is the parser's.
    PgQueryError(String),
    /// A directory does not exist.
    DirDne,
    /// A path is no directory.
    NotDir,
    /// The corpus store reported an error.
    Sqlite(rusqlite::Error),
    /// Anything else, in words.
    Other(String),
}

impl From<std::io::Error> for Failure {
    fn from(e: std::io::Error) -> (failure: Failure) {
        Failure::IoErr(e)
    }
}

impl FromSpecImpl<std::io::Error> for Failure {
    open spec fn obeys_from_spec() -> bool {
        true
    }

    open spec fn from_spec(e: std::io::Error) -> Failure {
        Failure::IoErr(e)
    }
}

impl From<rusqlite::Error> for Failure {
    fn from(e: rusqlite::Error) -> (failure: Failure) {
        Failure::Sqlite(e)
    }
}

impl FromSpecImpl<rusqlite::Error> for Failure {
    open spec fn obeys_from_spec() -> bool {
        true
    }

    open spec fn from_spec(e: rusqlite::Error) -> Failure {
        Failure::Sqlite(e)
    }
}

} // verus!
