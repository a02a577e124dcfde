//! The storage engine handle: how the engine is configured at bootstrap, and
//! what the process owns once it is open.
//!
//! The engine itself is opened by the caller, with the options that
//! [`EngineOptions::bootstrap`] gives; [`DB::init`] takes the outcome of that
//! call and turns it into the shared handle or into the error that ends the
//! process.

use std::sync::Arc;
use vstd::prelude::*;

verus! {

/// The verbosity of the engine's own log.
#[derive(Clone, Copy, Debug, PartialEq, Eq, Structural)]
pub enum LogLevel {
    Debug,
    Info,
    Warn,
    Error,
    Fatal,
    Header,
}

/// The configuration that the engine is opened with.
#[derive(Clone, Copy, Debug, PartialEq, Eq, Structural)]
pub struct EngineOptions {
    /// Create the database directory if it is missing.
    pub create_if_missing: bool,
    /// Create column families that did not exist when the database is opened.
    pub create_missing_column_families: bool,
    /// Collect the engine's internal statistics.
    pub enable_statistics: bool,
    /// The verbosity of the engine's log.
    pub log_level: LogLevel,
    /// Print allocator statistics beside the engine's own when it logs them.
    pub dump_malloc_stats: bool,
}

impl EngineOptions {
    /// The configuration of the process's engine: everything missing is
    /// created, statistics are collected, the log is informational and carries
    /// allocator statistics.
    pub open spec fn spec_bootstrap() -> EngineOptions {
        EngineOptions {
            create_if_missing: true,
            create_missing_column_families: true,
            enable_statistics: true,
            log_level: LogLevel::Info,
            dump_malloc_stats: true,
        }
    }

    /// Builds the bootstrap configuration.
    pub fn bootstrap() -> (r: EngineOptions)
        ensures
            r == Self::spec_bootstrap(),
    {
        EngineOptions {
            create_if_missing: true,
            create_missing_column_families: true,
            enable_statistics: true,
            log_level: LogLevel::Info,
            dump_malloc_stats: true,
        }
    }
}

/// The engine could not be created or opened at `path`.
#[derive(Debug)]
pub struct EngineError {
    /// The directory that was to be opened.
    pub path: String,
    /// What the engine reported.
    pub cause: String,
}

impl EngineError {
    /// The text of the error: where the engine was to be opened, then why it
    /// was not.
    pub open spec fn spec_message(&self) -> Seq<char> {
        "failed to open DB. DB path: "@ + self.path@ + ": "@ + self.cause@
    }

    /// Renders the error for the operator.
    pub fn message(&self) -> (r: String)
        ensures
            r@ == self.spec_message(),
    {
        let mut text = "failed to open DB. DB path: ".to_owned();
        text.append(self.path.as_str());
        text.append(": ");
        text.append(self.cause.as_str());
        text
    }
}

/// Calls `Arc::clone`: the result points to the value that `handle` points to.
#[verifier::external_body]
fn share<H>(handle: &Arc<H>) -> (r: Arc<H>)
    ensures
        *r == **handle,
{
    Arc::clone(handle)
}

/// One open engine, shared by reference count and never reconfigured.
///
/// `H` is the engine's own handle type; the library only carries it.
pub struct DB<H> {
    db: Arc<H>,
    path: String,
    options: EngineOptions,
}

impl<H> DB<H> {
    /// The engine handle that is owned.
    pub closed spec fn spec_engine(&self) -> H {
        *self.db
    }

    /// The directory that the engine was opened at.
    pub closed spec fn spec_path(&self) -> Seq<char> {
        self.path@
    }

    /// The configuration that the engine was opened with.
    pub closed spec fn spec_options(&self) -> EngineOptions {
        self.options
    }

    /// Takes the outcome of opening the engine at `path` with the bootstrap
    /// configuration. An open engine becomes the shared handle; a failure
    /// becomes an error that names the path and keeps the engine's report.
    pub fn init(path: &str, opened: Result<H, String>) -> (r: Result<DB<H>, EngineError>)
        ensures
            match opened {
                Ok(engine) => {
                    &&& r matches Ok(db)
                    &&& db.spec_engine() == engine
                    &&& db.spec_path() == path@
                    &&& db.spec_options() == EngineOptions::spec_bootstrap()
                },
                Err(cause) => {
                    &&& r matches Err(err)
                    &&& err.path@ == path@
                    &&& err.cause@ == cause@
                },
            },
    {
        match opened {
            Ok(engine) => Ok(
                DB { db: Arc::new(engine), path: path.to_owned(), options: EngineOptions::bootstrap() },
            ),
            Err(cause) => Err(EngineError { path: path.to_owned(), cause }),
        }
    }

    /// The engine, for operations on it.
    pub fn engine(&self) -> (r: &H)
        ensures
            *r == self.spec_engine(),
    {
        &*self.db
    }

    /// The directory that the engine was opened at.
    pub fn path(&self) -> (r: &str)
        ensures
            r@ == self.spec_path(),
    {
        self.path.as_str()
    }

    /// The configuration that the engine was opened with.
    pub fn options(&self) -> (r: EngineOptions)
        ensures
            r == self.spec_options(),
    {
        self.options
    }
}

impl<H> Clone for DB<H> {
    /// Another owner of the same engine.
    fn clone(&self) -> (r: Self)
        ensures
            r.spec_engine() == self.spec_engine(),
            r.spec_path() == self.spec_path(),
            r.spec_options() == self.spec_options(),
    {
        DB { db: share(&self.db), path: self.path.clone(), options: self.options }
    }
}

} // verus!
