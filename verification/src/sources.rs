//! The records that the two metadata sources return, as plain values.

use vstd::prelude::*;

verus! {

/// An author as the second metadata source describes one. Every field may
/// be absent.
#[derive(Debug)]
pub struct SsAuthor {
    pub author_id: Option<String>,
    pub name: Option<String>,
    pub url: Option<String>,
    pub affiliations: Option<Vec<String>>,
    pub paper_count: Option<u32>,
    pub citation_count: Option<u32>,
    pub hindex: Option<u32>,
}

/// A publication as the second metadata source describes one. Every field
/// may be absent; `citations` and `references` hold nested records of the
/// same kind.
#[derive(Debug)]
pub struct SsPaper {
    pub paper_id: Option<String>,
    pub title: Option<String>,
    pub abstract_text: Option<String>,
    pub venue: Option<String>,
    pub url: Option<String>,
    pub reference_count: Option<u32>,
    pub citation_count: Option<u32>,
    pub influential_citation_count: Option<u32>,
    /// The day of publication, written as `YYYY-MM-DD`.
    pub publication_date: Option<String>,
    pub authors: Option<Vec<SsAuthor>>,
    pub citations: Option<Vec<SsPaper>>,
    pub references: Option<Vec<SsPaper>>,
}

/// A publication as the first metadata source describes one.
#[derive(Debug)]
pub struct ArxivPaper {
    pub id: String,
    pub title: String,
    pub abstract_text: String,
    pub primary_category: String,
    pub categories: Vec<String>,
    pub pdf_url: String,
    pub doi: String,
}

} // verus!
