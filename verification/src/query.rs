//! What the two metadata sources are asked, as plain values.

use crate::collector::Collector;
use crate::utils::{day_window, window_of, window_view, Date};
use vstd::prelude::*;

verus! {

/// A subject category of the first source.
#[derive(Clone, Copy, Debug, PartialEq, Eq, Structural)]
pub enum Category {
    CsAi,
    CsLg,
    CsCl,
    CsCv,
}

/// A request to the first source.
#[derive(Debug)]
pub struct ArxivQuery {
    /// The phrase that the title must hold, if the title is restricted.
    pub title: Option<String>,
    /// The categories of which a publication must have one; none where
    /// the category is not restricted.
    pub categories: Vec<Category>,
    /// The first and the last minute between which a publication must have
    /// been submitted, if the time is restricted.
    pub submitted: Option<(String, String)>,
    /// The most records to return.
    pub max_results: u64,
    /// Whether the records come ordered by relevance, the most relevant first.
    pub by_relevance: bool,
}

/// A field of a publication that the second source can return.
#[derive(Clone, Copy, Debug, PartialEq, Eq, Structural)]
pub enum PaperField {
    PaperId,
    Title,
    Abstract,
    /// The authors, each with the author fields of the request.
    Authors,
    Venue,
    Url,
    ReferenceCount,
    CitationCount,
    InfluentialCitationCount,
    PublicationDate,
    /// The citing publications, each with the nested fields of the request.
    Citations,
    /// The cited publications, each with the nested fields of the request.
    References,
}

/// A field of an author that the second source can return.
#[derive(Clone, Copy, Debug, PartialEq, Eq, Structural)]
pub enum AuthorField {
    AuthorId,
    Name,
    Url,
    Affiliations,
}

/// A request to the second source.
#[derive(Debug)]
pub struct SsQuery {
    /// The title to search for.
    pub query_text: String,
    pub fields: Vec<PaperField>,
    pub author_fields: Vec<AuthorField>,
    /// The fields of each citing and each cited publication.
    pub nested_fields: Vec<PaperField>,
}

/// The categories in which new publications are looked for.
pub open spec fn default_categories() -> Seq<Category> {
    seq![Category::CsAi, Category::CsLg, Category::CsCl, Category::CsCv]
}

/// The fields that are asked of the second source.
pub open spec fn wanted_fields() -> Seq<PaperField> {
    seq![
        PaperField::PaperId,
        PaperField::Title,
        PaperField::Abstract,
        PaperField::Authors,
        PaperField::Venue,
        PaperField::PaperId,
        PaperField::Url,
        PaperField::ReferenceCount,
        PaperField::CitationCount,
        PaperField::InfluentialCitationCount,
        PaperField::PublicationDate,
        PaperField::Citations,
        PaperField::References,
    ]
}

/// The author fields that are asked of the second source.
pub open spec fn wanted_author_fields() -> Seq<AuthorField> {
    seq![AuthorField::AuthorId, AuthorField::Name, AuthorField::Url, AuthorField::Affiliations]
}

/// The fields that are asked of each citing and each cited publication.
pub open spec fn wanted_nested_fields() -> Seq<PaperField> {
    seq![
        PaperField::PaperId,
        PaperField::Title,
        PaperField::Abstract,
        PaperField::PublicationDate,
    ]
}

impl Collector {
    /// The request for the new publications of the default categories,
    /// submitted within the given time where one is given: at most five
    /// hundred records.
    pub fn window_query(window: Option<(String, String)>) -> (query: ArxivQuery)
        ensures
            query.title is None,
            query.categories@ == default_categories(),
            window_view(query.submitted) == window_view(window),
            query.max_results == 500,
            !query.by_relevance,
    {
        let mut categories: Vec<Category> = Vec::new();
        categories.push(Category::CsAi);
        categories.push(Category::CsLg);
        categories.push(Category::CsCl);
        categories.push(Category::CsCv);
        assert(categories@ =~= default_categories());
        ArxivQuery {
            title: None,
            categories,
            submitted: window,
            max_results: 500,
            by_relevance: false,
        }
    }

    /// The request for the new publications of the default categories, of
    /// one day where a day is given. There is none for a day that is no day
    /// of the calendar.
    pub fn build_default_arxiv(target_date: Option<Date>) -> (request: Option<ArxivQuery>)
        ensures
            request is None <==> target_date is Some && day_window(target_date->0) is None,
            request matches Some(query) ==> {
                &&& query.title is None
                &&& query.categories@ == default_categories()
                &&& window_view(query.submitted) == match target_date {
                    Some(day) => day_window(day),
                    None => None,
                }
                &&& query.max_results == 500
                &&& !query.by_relevance
            },
    {
        match target_date {
            None => Some(Self::window_query(None)),
            Some(day) => match window_of(day) {
                Some(window) => Some(Self::window_query(Some(window))),
                None => None,
            },
        }
    }

    /// The request to the first source for a title: at most a thousand
    /// records, the most relevant first.
    pub fn arxiv_title_query(&self, title: &str) -> (query: ArxivQuery)
        ensures
            query.title is Some,
            query.title->0@ == title@,
            query.categories@.len() == 0,
            query.submitted is None,
            query.max_results == 1000,
            query.by_relevance,
    {
        ArxivQuery {
            title: Some(title.to_owned()),
            categories: Vec::new(),
            submitted: None,
            max_results: 1000,
            by_relevance: true,
        }
    }

    /// The request to the second source for a title.
    pub fn ss_title_query(&self, title: &str) -> (query: SsQuery)
        ensures
            query.query_text@ == title@,
            query.fields@ == wanted_fields(),
            query.author_fields@ == wanted_author_fields(),
            query.nested_fields@ == wanted_nested_fields(),
    {
        let mut fields: Vec<PaperField> = Vec::new();
        fields.push(PaperField::PaperId);
        fields.push(PaperField::Title);
        fields.push(PaperField::Abstract);
        fields.push(PaperField::Authors);
        fields.push(PaperField::Venue);
        fields.push(PaperField::PaperId);
        fields.push(PaperField::Url);
        fields.push(PaperField::ReferenceCount);
        fields.push(PaperField::CitationCount);
        fields.push(PaperField::InfluentialCitationCount);
        fields.push(PaperField::PublicationDate);
        fields.push(PaperField::Citations);
        fields.push(PaperField::References);
        assert(fields@ =~= wanted_fields());
        let mut author_fields: Vec<AuthorField> = Vec::new();
        author_fields.push(AuthorField::AuthorId);
        author_fields.push(AuthorField::Name);
        author_fields.push(AuthorField::Url);
        author_fields.push(AuthorField::Affiliations);
        assert(author_fields@ =~= wanted_author_fields());
        let mut nested_fields: Vec<PaperField> = Vec::new();
        nested_fields.push(PaperField::PaperId);
        nested_fields.push(PaperField::Title);
        nested_fields.push(PaperField::Abstract);
        nested_fields.push(PaperField::PublicationDate);
        assert(nested_fields@ =~= wanted_nested_fields());
        SsQuery { query_text: title.to_owned(), fields, author_fields, nested_fields }
    }
}

} // verus!
