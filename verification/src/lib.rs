//! Reconciliation of bibliographic records from two metadata sources, a
//! ledger that keeps finished work from being repeated, and the retry
//! protocol for obtaining a structured summary.

pub mod ai;
pub mod cache;
pub mod collector;
pub mod common;
pub mod edits;
pub mod index;
pub mod persist;
pub mod pipeline;
pub mod query;
pub mod rebuild;
pub mod reporter;
pub mod sources;
pub mod text;
pub mod utils;
pub mod xml;
