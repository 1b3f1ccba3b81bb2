//! Dual-store search core for free-text experience reports.
//!
//! A report lives in two places: a full-text index that holds only what is
//! searched and shown, and a document store that holds the whole record under
//! a stable key. This crate decides what goes where on import, and how a
//! ranked list of index matches is joined back to full records on search.
//! It performs no input or output itself: the caller carries out each
//! requested operation and hands back what came of it.

pub mod consistency;
pub mod document;
pub mod error;
pub mod import;
pub mod join;
pub mod key;
pub mod query;
pub mod record;
pub mod schema;
pub mod search;
pub mod startup;
pub mod store;
