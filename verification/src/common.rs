//! The records that the pipeline works on: publications, authors, document
//! sections, keywords and summaries, each with its mathematical view.

use crate::index::{
    section_entries, sections_get, sections_insert,
    sections_clone, sections_is_empty, sections_new,
};
use crate::sources::SsAuthor;
use crate::text::{
    clone_texts, join, join_with, law_split_either_is_split, law_split_either_pieces_free,
    lemma_split_either_nonempty, lemma_split_without_delimiter, push_text, split, split_either,
    split_on_either, views,
};
use crate::utils::{epoch, Date};
use fxhash::FxHashMap;
use vstd::prelude::*;

verus! {

/// How an operation on the destination store ended.
#[derive(Debug)]
pub enum StatusCode {
    Success,
    Failure(String),
    PaperAlreadyExists,
}

/// An author of a publication.
#[derive(Debug)]
pub struct Author {
    /// The identifier in the destination store; empty until the author is stored there.
    pub page_id: String,
    /// The identifier that the metadata source gave.
    pub ss_id: String,
    pub name: String,
    pub url: String,
    pub affiliations: Vec<String>,
    pub paper_count: u32,
    pub citation_count: u32,
    pub h_index: u32,
}

/// What an [`Author`] holds.
pub ghost struct AuthorView {
    pub page_id: Seq<char>,
    pub ss_id: Seq<char>,
    pub name: Seq<char>,
    pub url: Seq<char>,
    pub affiliations: Seq<Seq<char>>,
    pub paper_count: u32,
    pub citation_count: u32,
    pub h_index: u32,
}

impl View for Author {
    type V = AuthorView;

    open spec fn view(&self) -> AuthorView {
        AuthorView {
            page_id: self.page_id@,
            ss_id: self.ss_id@,
            name: self.name@,
            url: self.url@,
            affiliations: views(self.affiliations@),
            paper_count: self.paper_count,
            citation_count: self.citation_count,
            h_index: self.h_index,
        }
    }
}

/// The author that stands for an unknown one.
pub open spec fn unknown_author() -> AuthorView {
    AuthorView {
        page_id: Seq::empty(),
        ss_id: Seq::empty(),
        name: "John Doe"@,
        url: Seq::empty(),
        affiliations: Seq::empty(),
        paper_count: 0,
        citation_count: 0,
        h_index: 0,
    }
}

impl Default for Author {
    fn default() -> (author: Author)
        ensures
            author@ == unknown_author(),
    {
        let author = Author {
            page_id: String::new(),
            ss_id: String::new(),
            name: "John Doe".to_owned(),
            url: String::new(),
            affiliations: Vec::new(),
            paper_count: 0,
            citation_count: 0,
            h_index: 0,
        };
        assert(author@.affiliations =~= Seq::empty());
        author
    }
}

impl Clone for Author {
    fn clone(&self) -> (copy: Author)
        ensures
            copy@ == self@,
    {
        Author {
            page_id: self.page_id.clone(),
            ss_id: self.ss_id.clone(),
            name: self.name.clone(),
            url: self.url.clone(),
            affiliations: clone_texts(&self.affiliations),
            paper_count: self.paper_count,
            citation_count: self.citation_count,
            h_index: self.h_index,
        }
    }
}

/// The text of an optional field, or `fallback` where the field is absent.
pub open spec fn text_or(field: Option<String>, fallback: Seq<char>) -> Seq<char> {
    match field {
        Some(text) => text@,
        None => fallback,
    }
}

/// The author that a record of the metadata source describes. An absent
/// identifier becomes the empty text, an absent URL a dash, absent
/// affiliations an empty list and absent counters zero.
pub open spec fn author_from_source(source: SsAuthor) -> AuthorView {
    AuthorView {
        page_id: Seq::empty(),
        ss_id: text_or(source.author_id, Seq::empty()),
        name: text_or(source.name, Seq::empty()),
        url: text_or(source.url, "-"@),
        affiliations: match source.affiliations {
            Some(list) => views(list@),
            None => Seq::empty(),
        },
        paper_count: match source.paper_count {
            Some(n) => n,
            None => 0,
        },
        citation_count: match source.citation_count {
            Some(n) => n,
            None => 0,
        },
        h_index: match source.hindex {
            Some(n) => n,
            None => 0,
        },
    }
}

impl Author {
    /// Builds an author from a record of the metadata source. The record
    /// must carry a name.
    pub fn from_ss_author(ss_author: &SsAuthor) -> (author: Author)
        requires
            ss_author.name is Some,
        ensures
            author@ == author_from_source(*ss_author),
    {
        let author = Author {
            page_id: String::new(),
            ss_id: match &ss_author.author_id {
                Some(id) => id.clone(),
                None => String::new(),
            },
            name: match &ss_author.name {
                Some(name) => name.clone(),
                None => String::new(),
            },
            url: match &ss_author.url {
                Some(url) => url.clone(),
                None => "-".to_owned(),
            },
            affiliations: match &ss_author.affiliations {
                Some(list) => clone_texts(list),
                None => Vec::new(),
            },
            paper_count: match ss_author.paper_count {
                Some(n) => n,
                None => 0,
            },
            citation_count: match ss_author.citation_count {
                Some(n) => n,
                None => 0,
            },
            h_index: match ss_author.hindex {
                Some(n) => n,
                None => 0,
            },
        };
        assert(author@.affiliations =~= author_from_source(*ss_author).affiliations);
        author
    }
}

/// Copies a list of authors.
pub fn clone_authors(authors: &Vec<Author>) -> (copy: Vec<Author>)
    ensures
        views(copy@) == views(authors@),
{
    let mut copy: Vec<Author> = Vec::new();
    let mut i: usize = 0;
    while i < authors.len()
        invariant
            i <= authors.len(),
            copy@.len() == i,
            forall|k: int| 0 <= k < i ==> copy@[k]@ == authors@[k]@,
        decreases authors.len() - i,
    {
        copy.push(authors[i].clone());
        i += 1;
    }
    assert(views(copy@) =~= views(authors@));
    copy
}

/// A term found in a text, with the weight that the extraction gave it.
#[derive(Debug)]
pub struct Keyword {
    pub alias: String,
    pub score: i64,
}

/// What a [`Keyword`] holds.
pub ghost struct KeywordView {
    pub alias: Seq<char>,
    pub score: i64,
}

impl View for Keyword {
    type V = KeywordView;

    open spec fn view(&self) -> KeywordView {
        KeywordView { alias: self.alias@, score: self.score }
    }
}

impl Clone for Keyword {
    fn clone(&self) -> (copy: Keyword)
        ensures
            copy@ == self@,
    {
        Keyword { alias: self.alias.clone(), score: self.score }
    }
}

/// One section of a document: its place in the reading order, its title and
/// its paragraphs.
#[derive(Debug)]
pub struct Section {
    pub index: i16,
    pub title: String,
    pub contents: Vec<String>,
}

/// What a [`Section`] holds.
pub ghost struct SectionView {
    pub index: i16,
    pub title: Seq<char>,
    pub contents: Seq<Seq<char>>,
}

impl View for Section {
    type V = SectionView;

    open spec fn view(&self) -> SectionView {
        SectionView { index: self.index, title: self.title@, contents: views(self.contents@) }
    }
}

impl Clone for Section {
    fn clone(&self) -> (copy: Section)
        ensures
            copy@ == self@,
    {
        Section {
            index: self.index,
            title: self.title.clone(),
            contents: clone_texts(&self.contents),
        }
    }
}

/// The structured summary of a publication.
#[derive(Debug)]
pub struct Summary {
    pub is_survey: bool,
    pub overview: String,
    pub research_question: String,
    pub task_category: String,
    /// The tasks as one text, separated by commas or by ideographic commas.
    pub task_as_words: String,
    pub comparison_with_related_works: String,
    pub proposed_method: String,
    pub datasets: String,
    /// The domains as one text, separated by commas or by ideographic commas.
    pub domain_as_words: String,
    pub experiments: String,
    pub analysis: String,
    pub contributions: String,
    pub future_works: String,
}

/// What a [`Summary`] holds.
pub ghost struct SummaryView {
    pub is_survey: bool,
    pub overview: Seq<char>,
    pub research_question: Seq<char>,
    pub task_category: Seq<char>,
    pub task_as_words: Seq<char>,
    pub comparison_with_related_works: Seq<char>,
    pub proposed_method: Seq<char>,
    pub datasets: Seq<char>,
    pub domain_as_words: Seq<char>,
    pub experiments: Seq<char>,
    pub analysis: Seq<char>,
    pub contributions: Seq<char>,
    pub future_works: Seq<char>,
}

impl View for Summary {
    type V = SummaryView;

    open spec fn view(&self) -> SummaryView {
        SummaryView {
            is_survey: self.is_survey,
            overview: self.overview@,
            research_question: self.research_question@,
            task_category: self.task_category@,
            task_as_words: self.task_as_words@,
            comparison_with_related_works: self.comparison_with_related_works@,
            proposed_method: self.proposed_method@,
            datasets: self.datasets@,
            domain_as_words: self.domain_as_words@,
            experiments: self.experiments@,
            analysis: self.analysis@,
            contributions: self.contributions@,
            future_works: self.future_works@,
        }
    }
}

/// The summary of a publication that has not been summarised.
pub open spec fn empty_summary() -> SummaryView {
    SummaryView {
        is_survey: false,
        overview: Seq::empty(),
        research_question: Seq::empty(),
        task_category: Seq::empty(),
        task_as_words: Seq::empty(),
        comparison_with_related_works: Seq::empty(),
        proposed_method: Seq::empty(),
        datasets: Seq::empty(),
        domain_as_words: Seq::empty(),
        experiments: Seq::empty(),
        analysis: Seq::empty(),
        contributions: Seq::empty(),
        future_works: Seq::empty(),
    }
}

impl Default for Summary {
    fn default() -> (summary: Summary)
        ensures
            summary@ == empty_summary(),
    {
        Summary {
            is_survey: false,
            overview: String::new(),
            research_question: String::new(),
            task_category: String::new(),
            task_as_words: String::new(),
            comparison_with_related_works: String::new(),
            proposed_method: String::new(),
            datasets: String::new(),
            domain_as_words: String::new(),
            experiments: String::new(),
            analysis: String::new(),
            contributions: String::new(),
            future_works: String::new(),
        }
    }
}

impl Clone for Summary {
    fn clone(&self) -> (copy: Summary)
        ensures
            copy@ == self@,
    {
        Summary {
            is_survey: self.is_survey,
            overview: self.overview.clone(),
            research_question: self.research_question.clone(),
            task_category: self.task_category.clone(),
            task_as_words: self.task_as_words.clone(),
            comparison_with_related_works: self.comparison_with_related_works.clone(),
            proposed_method: self.proposed_method.clone(),
            datasets: self.datasets.clone(),
            domain_as_words: self.domain_as_words.clone(),
            experiments: self.experiments.clone(),
            analysis: self.analysis.clone(),
            contributions: self.contributions.clone(),
            future_works: self.future_works.clone(),
        }
    }
}

/// The items of a list that is written as one text: the pieces between
/// commas and ideographic commas, of either kind. A text that holds neither
/// is a list of one item.
pub open spec fn list_items(words: Seq<char>) -> Seq<Seq<char>> {
    split_either(words, ',', '、')
}

/// Whether the text holds neither kind of comma.
pub open spec fn is_item(text: Seq<char>) -> bool {
    !text.contains(',') && !text.contains('、')
}

/// A list has at least one item, and no item holds a comma of either kind.
pub proof fn law_list_items_are_items(words: Seq<char>)
    ensures
        list_items(words).len() >= 1,
        forall|i: int| 0 <= i < list_items(words).len() ==> is_item(#[trigger] list_items(words)[i]),
{
    lemma_split_either_nonempty(words, ',', '、');
    law_split_either_pieces_free(words, ',', '、');
}

/// A text that holds neither kind of comma is a list of one item.
pub proof fn law_list_without_delimiter(words: Seq<char>)
    requires
        is_item(words),
    ensures
        list_items(words) == seq![words],
{
    law_split_either_is_split(words, ',', '、');
    lemma_split_without_delimiter(words, ',');
}

/// A list written with one kind of comma only has the pieces between
/// those commas as its items.
pub proof fn law_list_with_one_delimiter(words: Seq<char>)
    ensures
        !words.contains('、') ==> list_items(words) == split(words, ','),
        !words.contains(',') ==> list_items(words) == split(words, '、'),
{
    if !words.contains('、') {
        law_split_either_is_split(words, ',', '、');
    }
    if !words.contains(',') {
        law_split_either_is_split(words, '、', ',');
    }
}

/// Splits a list that is written as one text into its items.
pub fn split_list(words: &str) -> (items: Vec<String>)
    ensures
        views(items@) == list_items(words@),
        items@.len() >= 1,
        forall|i: int| 0 <= i < items@.len() ==> is_item((#[trigger] items@[i])@),
{
    proof {
        lemma_split_either_nonempty(words@, ',', '、');
    }
    split_on_either(words, ',', '、')
}

impl Summary {
    /// The tasks of the publication, one item each.
    pub fn task_as_vec(&self) -> (items: Vec<String>)
        ensures
            views(items@) == list_items(self.task_as_words@),
            items@.len() >= 1,
            forall|i: int| 0 <= i < items@.len() ==> is_item((#[trigger] items@[i])@),
    {
        split_list(self.task_as_words.as_str())
    }

    /// The domains of the publication, one item each.
    pub fn domain_as_vec(&self) -> (items: Vec<String>)
        ensures
            views(items@) == list_items(self.domain_as_words@),
            items@.len() >= 1,
            forall|i: int| 0 <= i < items@.len() ==> is_item((#[trigger] items@[i])@),
    {
        split_list(self.domain_as_words.as_str())
    }
}

/// A publication: the identifiers that the two metadata sources gave it,
/// what they say of it, the text of the document and its summary.
#[derive(Debug)]
pub struct Paper {
    /// The identifier in the destination store; empty until the publication is stored there.
    pub page_id: String,
    pub arxiv_id: String,
    pub ss_id: String,
    pub title: String,
    pub authors: Vec<Author>,
    pub abstract_text: String,
    pub publication_date: Date,
    pub keywords: Vec<Keyword>,
    pub arxiv_primary_category: String,
    pub arxiv_categories: Vec<String>,
    pub url: String,
    pub doi: String,
    pub journal: String,
    pub publisher: String,
    pub bibtex: String,
    pub citation_count: u32,
    pub influential_citation_count: u32,
    pub reference_count: u32,
    /// The publications that cite this one.
    pub citations: Vec<Paper>,
    /// The publications that this one cites.
    pub references: Vec<Paper>,
    /// The sections of the document, by title.
    pub original_text_map: FxHashMap<String, Section>,
    /// The sections of the document, in the order in which they were read.
    pub original_text: Vec<Section>,
    pub summary: Summary,
}

/// What a [`Paper`] holds.
pub ghost struct PaperView {
    pub page_id: Seq<char>,
    pub arxiv_id: Seq<char>,
    pub ss_id: Seq<char>,
    pub title: Seq<char>,
    pub authors: Seq<AuthorView>,
    pub abstract_text: Seq<char>,
    pub publication_date: Date,
    pub keywords: Seq<KeywordView>,
    pub arxiv_primary_category: Seq<char>,
    pub arxiv_categories: Seq<Seq<char>>,
    pub url: Seq<char>,
    pub doi: Seq<char>,
    pub journal: Seq<char>,
    pub publisher: Seq<char>,
    pub bibtex: Seq<char>,
    pub citation_count: u32,
    pub influential_citation_count: u32,
    pub reference_count: u32,
    pub citations: Seq<PaperView>,
    pub references: Seq<PaperView>,
    pub original_text_map: Map<Seq<char>, SectionView>,
    pub original_text: Seq<SectionView>,
    pub summary: SummaryView,
}

/// The view of a publication.
pub open spec fn paper_view(paper: Paper) -> PaperView
    decreases paper, 1nat,
{
    PaperView {
        page_id: paper.page_id@,
        arxiv_id: paper.arxiv_id@,
        ss_id: paper.ss_id@,
        title: paper.title@,
        authors: views(paper.authors@),
        abstract_text: paper.abstract_text@,
        publication_date: paper.publication_date,
        keywords: views(paper.keywords@),
        arxiv_primary_category: paper.arxiv_primary_category@,
        arxiv_categories: views(paper.arxiv_categories@),
        url: paper.url@,
        doi: paper.doi@,
        journal: paper.journal@,
        publisher: paper.publisher@,
        bibtex: paper.bibtex@,
        citation_count: paper.citation_count,
        influential_citation_count: paper.influential_citation_count,
        reference_count: paper.reference_count,
        citations: paper_views(paper.citations@),
        references: paper_views(paper.references@),
        original_text_map: section_entries(paper.original_text_map),
        original_text: views(paper.original_text@),
        summary: paper.summary@,
    }
}

/// The views of a list of publications.
pub open spec fn paper_views(papers: Seq<Paper>) -> Seq<PaperView>
    decreases papers, 0nat,
{
    if papers.len() == 0 {
        Seq::empty()
    } else {
        paper_views(papers.drop_last()).push(paper_view(papers.last()))
    }
}

impl View for Paper {
    type V = PaperView;

    open spec fn view(&self) -> PaperView {
        paper_view(*self)
    }
}

/// The publication of which nothing is known.
pub open spec fn empty_paper() -> PaperView {
    PaperView {
        page_id: Seq::empty(),
        arxiv_id: Seq::empty(),
        ss_id: Seq::empty(),
        title: Seq::empty(),
        authors: Seq::empty(),
        abstract_text: Seq::empty(),
        publication_date: epoch(),
        keywords: Seq::empty(),
        arxiv_primary_category: Seq::empty(),
        arxiv_categories: Seq::empty(),
        url: Seq::empty(),
        doi: Seq::empty(),
        journal: Seq::empty(),
        publisher: Seq::empty(),
        bibtex: Seq::empty(),
        citation_count: 0,
        influential_citation_count: 0,
        reference_count: 0,
        citations: Seq::empty(),
        references: Seq::empty(),
        original_text_map: Map::empty(),
        original_text: Seq::empty(),
        summary: empty_summary(),
    }
}

/// The views of a list of publications, element by element.
pub proof fn lemma_paper_views(papers: Seq<Paper>)
    ensures
        paper_views(papers) == views(papers),
    decreases papers.len(),
{
    if papers.len() > 0 {
        lemma_paper_views(papers.drop_last());
    }
    assert(paper_views(papers) =~= views(papers));
}

/// The nested records of a publication's view are the views of its nested
/// records.
pub proof fn lemma_nested_views(paper: Paper)
    ensures
        paper@.citations == views(paper.citations@),
        paper@.references == views(paper.references@),
{
    lemma_paper_views(paper.citations@);
    lemma_paper_views(paper.references@);
}

impl Default for Paper {
    fn default() -> (paper: Paper)
        ensures
            paper@ == empty_paper(),
    {
        let paper = Paper {
            page_id: String::new(),
            arxiv_id: String::new(),
            ss_id: String::new(),
            title: String::new(),
            authors: Vec::new(),
            abstract_text: String::new(),
            publication_date: Date { year: 1970, month: 1, day: 1 },
            keywords: Vec::new(),
            arxiv_primary_category: String::new(),
            arxiv_categories: Vec::new(),
            url: String::new(),
            doi: String::new(),
            journal: String::new(),
            publisher: String::new(),
            bibtex: String::new(),
            citation_count: 0,
            influential_citation_count: 0,
            reference_count: 0,
            citations: Vec::new(),
            references: Vec::new(),
            original_text_map: sections_new(),
            original_text: Vec::new(),
            summary: Summary::default(),
        };
        proof {
            let v = paper@;
            let e = empty_paper();
            assert(v.authors =~= e.authors);
            assert(v.keywords =~= e.keywords);
            assert(v.arxiv_categories =~= e.arxiv_categories);
            assert(v.citations =~= e.citations);
            assert(v.references =~= e.references);
            assert(v.original_text =~= e.original_text);
        }
        paper
    }
}

/// The nested record of a cited or citing publication: the five values
/// given, everything else as in [`empty_paper`].
pub open spec fn reference_record(
    ss_id: Seq<char>,
    title: Seq<char>,
    abstract_text: Seq<char>,
    authors: Seq<AuthorView>,
    publication_date: Date,
) -> PaperView {
    PaperView { ss_id, title, abstract_text, authors, publication_date, ..empty_paper() }
}

/// The keywords that are kept: those whose score is above five, in their order.
pub open spec fn kept_keywords(found: Seq<KeywordView>) -> Seq<KeywordView>
    decreases found.len(),
{
    if found.len() == 0 {
        Seq::empty()
    } else if found.last().score > 5 {
        kept_keywords(found.drop_last()).push(found.last())
    } else {
        kept_keywords(found.drop_last())
    }
}

/// The text from which the keywords of a publication are taken: title and
/// abstract, and the paragraphs of the section titled "Introduction" where
/// the document has one.
pub open spec fn keyword_source(paper: PaperView) -> Seq<char> {
    let head = paper.title + "\n\n"@ + paper.abstract_text;
    if paper.original_text_map.contains_key("Introduction"@) {
        head + "\n\n"@ + join(paper.original_text_map["Introduction"@].contents, "\n"@)
    } else {
        head
    }
}

/// The index of a list of sections by title. Of two sections with one
/// title the later one stays.
pub open spec fn index_by_title(sections: Seq<SectionView>) -> Map<Seq<char>, SectionView>
    decreases sections.len(),
{
    if sections.len() == 0 {
        Map::empty()
    } else {
        index_by_title(sections.drop_last()).insert(sections.last().title, sections.last())
    }
}

/// The index by title holds exactly the titles of the list, each with the
/// last section that carries it.
pub proof fn law_index_by_title(sections: Seq<SectionView>, title: Seq<char>)
    ensures
        index_by_title(sections).contains_key(title) <==> exists|i: int|
            0 <= i < sections.len() && (#[trigger] sections[i]).title == title,
        index_by_title(sections).contains_key(title) ==> exists|i: int|
            0 <= i < sections.len() && #[trigger] sections[i] == index_by_title(sections)[title]
                && sections[i].title == title && forall|j: int|
                i < j < sections.len() ==> (#[trigger] sections[j]).title != title,
    decreases sections.len(),
{
    if sections.len() > 0 {
        let head = sections.drop_last();
        law_index_by_title(head, title);
        let last = sections.len() - 1;
        if sections.last().title == title {
            assert(sections[last].title == title);
        } else if index_by_title(head).contains_key(title) {
            let i = choose|i: int|
                0 <= i < head.len() && #[trigger] head[i] == index_by_title(head)[title]
                    && head[i].title == title && forall|j: int|
                    i < j < head.len() ==> (#[trigger] head[j]).title != title;
            assert(sections[i] == head[i]);
            assert forall|j: int| i < j < sections.len() implies (#[trigger] sections[j]).title
                != title by {
                if j < head.len() {
                    assert(sections[j] == head[j]);
                }
            }
            assert(sections[i].title == title);
        } else {
            assert forall|i: int| 0 <= i < sections.len() implies (#[trigger] sections[i]).title
                != title by {
                if i < head.len() {
                    assert(sections[i] == head[i]);
                }
            }
        }
    }
}

impl Paper {
    /// The nested record of a cited or citing publication.
    pub fn reference(
        ss_id: &str,
        title: &str,
        abstract_text: &str,
        authors: Vec<Author>,
        publication_date: Date,
    ) -> (paper: Paper)
        ensures
            paper@ == reference_record(
                ss_id@,
                title@,
                abstract_text@,
                views(authors@),
                publication_date,
            ),
    {
        let mut paper = Paper::default();
        paper.ss_id = ss_id.to_owned();
        paper.title = title.to_owned();
        paper.abstract_text = abstract_text.to_owned();
        paper.authors = authors;
        paper.publication_date = publication_date;
        proof {
            let v = paper@;
            let e = reference_record(
                ss_id@,
                title@,
                abstract_text@,
                views(authors@),
                publication_date,
            );
            assert(v.keywords =~= e.keywords);
            assert(v.arxiv_categories =~= e.arxiv_categories);
            assert(v.citations =~= e.citations);
            assert(v.references =~= e.references);
            assert(v.original_text =~= e.original_text);
        }
        paper
    }

    /// The text from which the keywords are taken.
    pub fn keyword_text(&self) -> (text: String)
        ensures
            text@ == keyword_source(self@),
    {
        let mut text = String::new();
        push_text(&mut text, self.title.as_str());
        push_text(&mut text, "\n\n");
        push_text(&mut text, self.abstract_text.as_str());
        match sections_get(&self.original_text_map, "Introduction") {
            Some(section) => {
                let paragraphs = join_with(&section.contents, "\n");
                push_text(&mut text, "\n\n");
                push_text(&mut text, paragraphs.as_str());
            },
            None => {},
        }
        assert(text@ =~= keyword_source(self@));
        text
    }

    /// Takes the keywords found in [`Paper::keyword_text`] and keeps those
    /// whose score is above five.
    pub fn get_keywords(&mut self, found: Vec<Keyword>)
        ensures
            final(self)@ == (PaperView { keywords: kept_keywords(views(found@)), ..old(self)@ }),
    {
        let mut kept: Vec<Keyword> = Vec::new();
        let mut i: usize = 0;
        while i < found.len()
            invariant
                i <= found.len(),
                views(kept@) == kept_keywords(views(found@).take(i as int)),
            decreases found.len() - i,
        {
            let ghost all = views(found@);
            let ghost before = views(kept@);
            assert(all.take(i + 1).drop_last() =~= all.take(i as int));
            assert(all.take(i + 1).last() == found@[i as int]@);
            if found[i].score > 5 {
                kept.push(found[i].clone());
                assert(views(kept@) =~= before.push(found@[i as int]@));
            }
            i += 1;
        }
        assert(views(found@).take(found@.len() as int) =~= views(found@));
        self.keywords = kept;
        proof {
            let v = self@;
            let e = PaperView { keywords: kept_keywords(views(found@)), ..old(self)@ };
            assert(v.citations =~= e.citations);
            assert(v.references =~= e.references);
        }
    }

    /// Where the document is read from: the location given, or else the
    /// address of the publication, which must then be known.
    pub fn pdf_source(&self, pdf: Option<String>) -> (source: String)
        requires
            pdf is Some || self.url@.len() > 0,
        ensures
            source@ == text_or(pdf, self.url@),
    {
        match pdf {
            Some(location) => location,
            None => self.url.clone(),
        }
    }

    /// Takes the sections read from the document: keeps them in their
    /// order and indexes them by title.
    pub fn get_original_text(&mut self, sections: Vec<Section>)
        ensures
            final(self)@ == (PaperView {
                original_text: views(sections@),
                original_text_map: index_by_title(views(sections@)),
                ..old(self)@
            }),
    {
        let mut index = sections_new();
        let mut i: usize = 0;
        while i < sections.len()
            invariant
                i <= sections.len(),
                section_entries(index) == index_by_title(views(sections@).take(i as int)),
            decreases sections.len() - i,
        {
            let ghost all = views(sections@);
            assert(all.take(i + 1).drop_last() =~= all.take(i as int));
            assert(all.take(i + 1).last() == sections@[i as int]@);
            sections_insert(&mut index, sections[i].title.clone(), sections[i].clone());
            i += 1;
        }
        assert(views(sections@).take(sections@.len() as int) =~= views(sections@));
        self.original_text = sections;
        self.original_text_map = index;
        proof {
            let v = self@;
            let e = PaperView {
                original_text: views(sections@),
                original_text_map: index_by_title(views(sections@)),
                ..old(self)@
            };
            assert(v.citations =~= e.citations);
            assert(v.references =~= e.references);
        }
    }

    /// Whether the document has no section at all.
    pub fn has_no_text(&self) -> (empty: bool)
        ensures
            empty == (forall|title: Seq<char>| !self@.original_text_map.contains_key(title)),
    {
        assert(self@.original_text_map == section_entries(self.original_text_map));
        sections_is_empty(&self.original_text_map)
    }
}

/// Copies a list of keywords.
pub fn clone_keywords(keywords: &Vec<Keyword>) -> (copy: Vec<Keyword>)
    ensures
        views(copy@) == views(keywords@),
{
    let mut copy: Vec<Keyword> = Vec::new();
    let mut i: usize = 0;
    while i < keywords.len()
        invariant
            i <= keywords.len(),
            copy@.len() == i,
            forall|k: int| 0 <= k < i ==> copy@[k]@ == keywords@[k]@,
        decreases keywords.len() - i,
    {
        copy.push(keywords[i].clone());
        i += 1;
    }
    assert(views(copy@) =~= views(keywords@));
    copy
}

/// Copies a list of sections.
pub fn clone_sections(sections: &Vec<Section>) -> (copy: Vec<Section>)
    ensures
        views(copy@) == views(sections@),
{
    let mut copy: Vec<Section> = Vec::new();
    let mut i: usize = 0;
    while i < sections.len()
        invariant
            i <= sections.len(),
            copy@.len() == i,
            forall|k: int| 0 <= k < i ==> copy@[k]@ == sections@[k]@,
        decreases sections.len() - i,
    {
        copy.push(sections[i].clone());
        i += 1;
    }
    assert(views(copy@) =~= views(sections@));
    copy
}

impl Clone for Paper {
    fn clone(&self) -> (copy: Paper)
        ensures
            copy@ == self@,
        decreases self,
    {
        let mut citations: Vec<Paper> = Vec::new();
        let mut i: usize = 0;
        while i < self.citations.len()
            invariant
                i <= self.citations.len(),
                citations@.len() == i,
                forall|k: int| 0 <= k < i ==> citations@[k]@ == self.citations@[k]@,
            decreases self.citations.len() - i,
        {
            citations.push(self.citations[i].clone());
            i += 1;
        }
        let mut references: Vec<Paper> = Vec::new();
        let mut j: usize = 0;
        while j < self.references.len()
            invariant
                j <= self.references.len(),
                references@.len() == j,
                forall|k: int| 0 <= k < j ==> references@[k]@ == self.references@[k]@,
            decreases self.references.len() - j,
        {
            references.push(self.references[j].clone());
            j += 1;
        }
        let copy = Paper {
            page_id: self.page_id.clone(),
            arxiv_id: self.arxiv_id.clone(),
            ss_id: self.ss_id.clone(),
            title: self.title.clone(),
            authors: clone_authors(&self.authors),
            abstract_text: self.abstract_text.clone(),
            publication_date: self.publication_date,
            keywords: clone_keywords(&self.keywords),
            arxiv_primary_category: self.arxiv_primary_category.clone(),
            arxiv_categories: clone_texts(&self.arxiv_categories),
            url: self.url.clone(),
            doi: self.doi.clone(),
            journal: self.journal.clone(),
            publisher: self.publisher.clone(),
            bibtex: self.bibtex.clone(),
            citation_count: self.citation_count,
            influential_citation_count: self.influential_citation_count,
            reference_count: self.reference_count,
            citations,
            references,
            original_text_map: sections_clone(&self.original_text_map),
            original_text: clone_sections(&self.original_text),
            summary: self.summary.clone(),
        };
        proof {
            lemma_nested_views(copy);
            lemma_nested_views(*self);
            assert(views(copy.citations@) =~= views(self.citations@));
            assert(views(copy.references@) =~= views(self.references@));
        }
        copy
    }
}

} // verus!
