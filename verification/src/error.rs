//! The ways in which the log can fail.

use std::path::PathBuf;
use vstd::prelude::*;

verus! {

/// `std::io::Error`, carried unopened.
#[verifier::external_type_specification]
#[verifier::external_body]
pub struct ExIoError(std::io::Error);

/// Why an operation on the log did not succeed.
#[allow(inconsistent_fields)]
#[derive(Debug)]
pub enum RayforceAdapterError {
    /// A path cannot be handed to C: its text holds a zero byte.
    NulPath(String),
    /// The store gave no object while the named table was built.
    Allocation(&'static str),
    /// The symbol table could not be set up.
    SymInit(i32),
    /// The store gave no object, or an error object, for what is named.
    RayforceRead(&'static str),
    /// A splayed table was not saved.
    SplaySave { dir: PathBuf, code: i32 },
    /// The symbol table was not saved.
    SymSave { path: PathBuf, code: i32 },
    /// The symbol table was not loaded.
    SymLoad { path: PathBuf, code: i32 },
    /// A table lacks a column.
    MissingColumn { table: &'static str, column: &'static str },
    /// A stored transaction id is negative.
    InvalidTxId(i64),
    /// A stored actor kind is none of the four.
    InvalidActorKind(String),
    /// A stored field is not the JSON it should be.
    InvalidJson { field: &'static str, source: serde_json::Error },
    /// A stored field is not UTF-8.
    InvalidUtf8 { field: &'static str, source: std::string::FromUtf8Error },
    /// A directory could not be created.
    CreateDir { path: PathBuf, source: std::io::Error },
    /// A directory could not be moved into place.
    Rename { from: PathBuf, to: PathBuf, source: std::io::Error },
}

/// A `RayforceAdapterError` with its texts as character sequences.
#[allow(inconsistent_fields)]
pub enum ErrorView {
    NulPath(Seq<char>),
    Allocation(Seq<char>),
    SymInit(i32),
    RayforceRead(Seq<char>),
    SplaySave { dir: PathBuf, code: i32 },
    SymSave { path: PathBuf, code: i32 },
    SymLoad { path: PathBuf, code: i32 },
    MissingColumn { table: Seq<char>, column: Seq<char> },
    InvalidTxId(i64),
    InvalidActorKind(Seq<char>),
    InvalidJson { field: Seq<char>, source: serde_json::Error },
    InvalidUtf8 { field: Seq<char>, source: std::string::FromUtf8Error },
    CreateDir { path: PathBuf, source: std::io::Error },
    Rename { from: PathBuf, to: PathBuf, source: std::io::Error },
}

impl View for RayforceAdapterError {
    type V = ErrorView;

    open spec fn view(&self) -> ErrorView {
        match *self {
            RayforceAdapterError::NulPath(text) => ErrorView::NulPath(text@),
            RayforceAdapterError::Allocation(label) => ErrorView::Allocation(label@),
            RayforceAdapterError::SymInit(code) => ErrorView::SymInit(code),
            RayforceAdapterError::RayforceRead(label) => ErrorView::RayforceRead(label@),
            RayforceAdapterError::SplaySave { dir, code } => ErrorView::SplaySave { dir, code },
            RayforceAdapterError::SymSave { path, code } => ErrorView::SymSave { path, code },
            RayforceAdapterError::SymLoad { path, code } => ErrorView::SymLoad { path, code },
            RayforceAdapterError::MissingColumn { table, column } => ErrorView::MissingColumn {
                table: table@,
                column: column@,
            },
            RayforceAdapterError::InvalidTxId(id) => ErrorView::InvalidTxId(id),
            RayforceAdapterError::InvalidActorKind(text) => ErrorView::InvalidActorKind(text@),
            RayforceAdapterError::InvalidJson { field, source } => ErrorView::InvalidJson {
                field: field@,
                source,
            },
            RayforceAdapterError::InvalidUtf8 { field, source } => ErrorView::InvalidUtf8 {
                field: field@,
                source,
            },
            RayforceAdapterError::CreateDir { path, source } => ErrorView::CreateDir {
                path,
                source,
            },
            RayforceAdapterError::Rename { from, to, source } => ErrorView::Rename {
                from,
                to,
                source,
            },
        }
    }
}

} // verus!
