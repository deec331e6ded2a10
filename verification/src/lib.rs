//! Persistence of committed transactions as Rayforce splayed tables.
//!
//! A log of commit envelopes is kept on disk as two splayed tables, `tx` and
//! `datom`, beside one shared symbol table. This library decides everything
//! about that: what the tables hold, in which order the store is asked to do
//! what, how each answer is judged, and how rows read back become envelopes.
//! It talks to no file and to no foreign function itself. Its processes hand
//! out one request at a time and take the store's answer.

pub mod builder;
pub mod decode;
pub mod encode;
pub mod ends;
pub mod error;
pub mod history;
pub mod laws;
pub mod layout;
pub mod load;
pub mod loaded;
pub mod log;
pub mod path;
pub mod projection;
pub mod protocol;
pub mod reader;
pub mod rebuild;
pub mod record;
pub mod reopen;
pub mod rows;
pub mod run;
pub mod safety;
pub mod save;
pub mod steps;
pub mod store;
pub mod stored;
pub mod table;
pub mod text;
pub mod views;
pub mod written;
