//! Record linkage: a publication known by its title is matched against the
//! candidates that a metadata source returned, and the fields of the best
//! candidate are merged into it.

use crate::common::{
    author_from_source, empty_paper, lemma_nested_views, reference_record,
    text_or, Author, AuthorView, Paper, PaperView,
};
use crate::sources::{ArxivPaper, SsAuthor, SsPaper};
use crate::text::{clone_texts, lowercase, replace_newlines, to_lowercase, unbroken, views};
use crate::utils::{
    date_of, datetime_format, datetime_from_str, default_datetime, edit_distance, epoch,
    levenshtein_similarity, longer_len, midnight_of, parsed_datetime, score_denom, score_numer,
    Date, Similarity,
};
use vstd::prelude::*;

verus! {

/// The similarity score of a title and a candidate's title, both taken in
/// lower case, as numerator and denominator.
pub open spec fn title_score(title: Seq<char>, candidate: Seq<char>) -> (nat, nat) {
    (
        score_numer(lowercase(title), lowercase(candidate)),
        score_denom(lowercase(title), lowercase(candidate)),
    )
}

/// Whether candidate `a` scores strictly higher against `title` than candidate `b`.
pub open spec fn outranks(title: Seq<char>, a: Seq<char>, b: Seq<char>) -> bool {
    title_score(title, a).0 * title_score(title, b).1 > title_score(title, b).0 * title_score(
        title,
        a,
    ).1
}

/// Whether a candidate's score against `title` reaches nine tenths.
pub open spec fn is_match(title: Seq<char>, candidate: Seq<char>) -> bool {
    title_score(title, candidate).0 * 10 >= 9 * title_score(title, candidate).1
}

/// Whether `best` is the position of the best candidate: none scores
/// higher, and it scores strictly higher than every candidate before it.
pub open spec fn is_best_match(title: Seq<char>, candidates: Seq<Seq<char>>, best: int) -> bool {
    &&& 0 <= best < candidates.len()
    &&& forall|j: int|
        0 <= j < candidates.len() ==> !outranks(title, #[trigger] candidates[j], candidates[best])
    &&& forall|j: int| 0 <= j < best ==> outranks(title, candidates[best], #[trigger] candidates[j])
}

/// The position of the best candidate: the first among those with the
/// highest score.
pub open spec fn best_match_index(title: Seq<char>, candidates: Seq<Seq<char>>) -> int {
    choose|best: int| is_best_match(title, candidates, best)
}

/// There is only one best candidate.
pub proof fn lemma_best_match_unique(
    title: Seq<char>,
    candidates: Seq<Seq<char>>,
    first: int,
    second: int,
)
    requires
        is_best_match(title, candidates, first),
        is_best_match(title, candidates, second),
    ensures
        first == second,
        first == best_match_index(title, candidates),
{
    if first < second {
        assert(outranks(title, candidates[second], candidates[first]));
    } else if second < first {
        assert(outranks(title, candidates[first], candidates[second]));
    }
    let chosen = best_match_index(title, candidates);
    if first < chosen {
        assert(outranks(title, candidates[chosen], candidates[first]));
    } else if chosen < first {
        assert(outranks(title, candidates[first], candidates[chosen]));
    }
}

proof fn lemma_rank_transitive(na: int, xa: int, nb: int, xb: int, nc: int, xc: int)
    requires
        na > 0,
        nb > 0,
        nc > 0,
        xa > 0,
        xb > 0,
        xc > 0,
        na * xb <= nb * xa,
        nc * xb > nb * xc,
    ensures
        nc * xa > na * xc,
{
    assert(nc * (na * xb) <= nc * (nb * xa)) by (nonlinear_arith)
        requires
            na * xb <= nb * xa,
            nc > 0,
    ;
    assert(na * (nc * xb) > na * (nb * xc)) by (nonlinear_arith)
        requires
            nc * xb > nb * xc,
            na > 0,
    ;
    assert(nc * (na * xb) == na * (nc * xb)) by (nonlinear_arith);
    assert(nc * (nb * xa) == nb * (nc * xa)) by (nonlinear_arith);
    assert(na * (nb * xc) == nb * (na * xc)) by (nonlinear_arith);
    assert(nc * xa > na * xc) by (nonlinear_arith)
        requires
            nb > 0,
            nb * (na * xc) < nb * (nc * xa),
    ;
}

/// If `a` does not outrank `b` and `c` outranks `b`, then `c` outranks `a`.
pub proof fn lemma_outranks_chain(title: Seq<char>, a: Seq<char>, b: Seq<char>, c: Seq<char>)
    requires
        !outranks(title, a, b),
        outranks(title, c, b),
    ensures
        outranks(title, c, a),
{
    let sa = title_score(title, a);
    let sb = title_score(title, b);
    let sc = title_score(title, c);
    lemma_rank_transitive(
        sa.0 as int,
        sa.1 as int,
        sb.0 as int,
        sb.1 as int,
        sc.0 as int,
        sc.1 as int,
    );
    assert(sc.0 * sa.1 > sa.0 * sc.1);
}

/// Why a publication could not be linked to a candidate.
#[derive(Debug)]
pub enum LinkError {
    /// The source returned no candidate at all.
    NoCandidates,
    /// The best candidate scores below nine tenths. The error names that
    /// candidate's title and the score it reached.
    NoSimilarMatch { candidate: String, score: Similarity },
}

/// Scores a candidate's title against a title, both in lower case.
pub fn title_similarity(title: &str, candidate: &str) -> (score: Similarity)
    ensures
        score.distance == edit_distance(lowercase(title@), lowercase(candidate@)),
        score.longer == longer_len(lowercase(title@), lowercase(candidate@)),
        score.numer() == title_score(title@, candidate@).0,
        score.denom() == title_score(title@, candidate@).1,
{
    let lowered_title = to_lowercase(title);
    let lowered_candidate = to_lowercase(candidate);
    levenshtein_similarity(lowered_title.as_str(), lowered_candidate.as_str())
}

/// Finds the best candidate for a title: the first among those with the
/// highest score. There is none only where there are no candidates.
pub fn best_match(title: &str, candidates: &Vec<String>) -> (best: Option<(usize, Similarity)>)
    ensures
        best is None <==> candidates@.len() == 0,
        best matches Some(found) ==> {
            &&& is_best_match(title@, views(candidates@), found.0 as int)
            &&& found.0 == best_match_index(title@, views(candidates@))
            &&& found.1.numer() == title_score(title@, candidates@[found.0 as int]@).0
            &&& found.1.denom() == title_score(title@, candidates@[found.0 as int]@).1
            &&& found.1.accepted() == is_match(title@, candidates@[found.0 as int]@)
        },
{
    if candidates.len() == 0 {
        return None;
    }
    let ghost all = views(candidates@);
    let mut best: usize = 0;
    let mut best_score = title_similarity(title, candidates[0].as_str());
    let mut i: usize = 1;
    assert(!outranks(title@, all[0], all[0]));
    while i < candidates.len()
        invariant
            1 <= i <= candidates.len(),
            all == views(candidates@),
            0 <= best < i,
            best_score.numer() == title_score(title@, all[best as int]).0,
            best_score.denom() == title_score(title@, all[best as int]).1,
            forall|j: int| 0 <= j < i ==> !outranks(title@, #[trigger] all[j], all[best as int]),
            forall|j: int| 0 <= j < best ==> outranks(title@, all[best as int], #[trigger] all[j]),
        decreases candidates.len() - i,
    {
        let score = title_similarity(title, candidates[i].as_str());
        if score.is_above(&best_score) {
            proof {
                let old_best = best as int;
                assert(outranks(title@, all[i as int], all[old_best]));
                assert forall|j: int| 0 <= j < i + 1 implies !outranks(
                    title@,
                    #[trigger] all[j],
                    all[i as int],
                ) by {
                    if j < i {
                        lemma_outranks_chain(title@, all[j], all[old_best], all[i as int]);
                    }
                }
                assert forall|j: int| 0 <= j < i implies outranks(
                    title@,
                    all[i as int],
                    #[trigger] all[j],
                ) by {
                    lemma_outranks_chain(title@, all[j], all[old_best], all[i as int]);
                }
            }
            best = i;
            best_score = score;
        }
        i += 1;
    }
    proof {
        lemma_best_match_unique(title@, all, best as int, best as int);
    }
    Some((best, best_score))
}

/// The value of a descriptive field after a merge: the source's value
/// where the field was empty or is to be overwritten, else the value it had.
pub open spec fn refreshed(current: Seq<char>, overwrite: bool, source: Seq<char>) -> Seq<char> {
    if current.len() == 0 || overwrite {
        source
    } else {
        current
    }
}

/// The value of a counter after a merge: the source's value where the
/// counter was zero or is to be overwritten, else the value it had.
pub open spec fn recounted(current: u32, overwrite: bool, source: Option<u32>) -> u32 {
    if current == 0 || overwrite {
        match source {
            Some(n) => n,
            None => 0,
        }
    } else {
        current
    }
}

/// A publication after the record of the first source has been merged into
/// it. Identifier and title are taken from the record in any case; the
/// other fields only where they were empty or `overwrite` is set.
pub open spec fn merged_from_arxiv(paper: PaperView, overwrite: bool, record: ArxivPaper) -> PaperView {
    PaperView {
        arxiv_id: record.id@,
        title: unbroken(record.title@),
        abstract_text: refreshed(paper.abstract_text, overwrite, record.abstract_text@),
        arxiv_primary_category: refreshed(
            paper.arxiv_primary_category,
            overwrite,
            record.primary_category@,
        ),
        arxiv_categories: if paper.arxiv_categories.len() == 0 || overwrite {
            views(record.categories@)
        } else {
            paper.arxiv_categories
        },
        url: refreshed(paper.url, overwrite, record.pdf_url@),
        doi: refreshed(paper.doi, overwrite, record.doi@),
        journal: refreshed(paper.journal, overwrite, "arXiv"@),
        publisher: refreshed(paper.publisher, overwrite, "arXiv"@),
        ..paper
    }
}

/// The titles of the records of the first source.
pub open spec fn arxiv_titles(response: Seq<ArxivPaper>) -> Seq<Seq<char>> {
    Seq::new(response.len(), |i: int| response[i].title@)
}

/// The titles of the records of the second source; an absent title counts
/// as empty.
pub open spec fn ss_titles(response: Seq<SsPaper>) -> Seq<Seq<char>> {
    Seq::new(response.len(), |i: int| text_or(response[i].title, Seq::empty()))
}

/// Whether every author of the list carries a name.
pub open spec fn all_named(authors: Seq<SsAuthor>) -> bool {
    forall|i: int| 0 <= i < authors.len() ==> (#[trigger] authors[i]).name is Some
}

/// The authors of an optional list; none where the list is absent.
pub open spec fn listed_authors(authors: Option<Vec<SsAuthor>>) -> Seq<SsAuthor> {
    match authors {
        Some(list) => list@,
        None => Seq::empty(),
    }
}

/// The records of an optional list; none where the list is absent.
pub open spec fn listed_papers(papers: Option<Vec<SsPaper>>) -> Seq<SsPaper> {
    match papers {
        Some(list) => list@,
        None => Seq::empty(),
    }
}

/// Whether every author of every nested record carries a name.
pub open spec fn nested_named(papers: Seq<SsPaper>) -> bool {
    forall|i: int| 0 <= i < papers.len() ==> all_named(listed_authors((#[trigger] papers[i]).authors))
}

/// The authors that a list of source records describes.
pub open spec fn authors_from_source(authors: Seq<SsAuthor>) -> Seq<AuthorView> {
    Seq::new(authors.len(), |i: int| author_from_source(authors[i]))
}

/// The date that a source gives: the day it wrote, or the epoch where it
/// wrote none or one that cannot be read.
pub open spec fn source_date(written: Option<String>) -> Date {
    match written {
        Some(day) => date_of(parsed_datetime(midnight_of(day@), datetime_format())),
        None => epoch(),
    }
}

/// The nested record that stands for a cited or citing publication. Absent
/// values become empty texts, an empty author list and the epoch.
pub open spec fn nested_record(record: SsPaper) -> PaperView {
    reference_record(
        text_or(record.paper_id, Seq::empty()),
        unbroken(text_or(record.title, Seq::empty())),
        text_or(record.abstract_text, Seq::empty()),
        authors_from_source(listed_authors(record.authors)),
        source_date(record.publication_date),
    )
}

/// The nested records of a list of source records.
pub open spec fn nested_records(records: Seq<SsPaper>) -> Seq<PaperView> {
    Seq::new(records.len(), |i: int| nested_record(records[i]))
}

/// Whether a record of the second source carries every field that a merge
/// into `paper` reads: identifier and title in any case, and each other
/// field where the merge would take it.
pub open spec fn ss_merge_ready(paper: PaperView, overwrite: bool, record: SsPaper) -> bool {
    &&& record.paper_id is Some
    &&& record.title is Some
    &&& (paper.abstract_text.len() == 0 || overwrite) ==> record.abstract_text is Some
    &&& (paper.url.len() == 0 || overwrite) ==> record.url is Some
    &&& (paper.journal.len() == 0 || overwrite) ==> record.venue is Some
    &&& (paper.reference_count == 0 || overwrite) ==> record.reference_count is Some
    &&& (paper.citation_count == 0 || overwrite) ==> record.citation_count is Some
    &&& (paper.influential_citation_count == 0 || overwrite)
        ==> record.influential_citation_count is Some
    &&& (paper.authors.len() == 0 || overwrite) ==> record.authors is Some && all_named(
        listed_authors(record.authors),
    )
    &&& (paper.citations.len() == 0 || overwrite) ==> record.citations is Some && nested_named(
        listed_papers(record.citations),
    )
    &&& (paper.references.len() == 0 || overwrite) ==> record.references is Some && nested_named(
        listed_papers(record.references),
    )
}

/// A publication after the record of the second source has been merged
/// into it. Identifier and title are taken from the record in any case;
/// every other field only where it was empty, zero or the epoch, or where
/// `overwrite` is set. The lists of citing and cited publications are
/// replaced as a whole.
pub open spec fn merged_from_ss(paper: PaperView, overwrite: bool, record: SsPaper) -> PaperView {
    PaperView {
        ss_id: text_or(record.paper_id, Seq::empty()),
        title: unbroken(text_or(record.title, Seq::empty())),
        abstract_text: refreshed(
            paper.abstract_text,
            overwrite,
            text_or(record.abstract_text, Seq::empty()),
        ),
        url: refreshed(paper.url, overwrite, text_or(record.url, Seq::empty())),
        journal: refreshed(paper.journal, overwrite, text_or(record.venue, Seq::empty())),
        publication_date: if paper.publication_date == epoch() || overwrite {
            source_date(record.publication_date)
        } else {
            paper.publication_date
        },
        reference_count: recounted(paper.reference_count, overwrite, record.reference_count),
        citation_count: recounted(paper.citation_count, overwrite, record.citation_count),
        influential_citation_count: recounted(
            paper.influential_citation_count,
            overwrite,
            record.influential_citation_count,
        ),
        authors: if paper.authors.len() == 0 || overwrite {
            authors_from_source(listed_authors(record.authors))
        } else {
            paper.authors
        },
        citations: if paper.citations.len() == 0 || overwrite {
            nested_records(listed_papers(record.citations))
        } else {
            paper.citations
        },
        references: if paper.references.len() == 0 || overwrite {
            nested_records(listed_papers(record.references))
        } else {
            paper.references
        },
        ..paper
    }
}

/// The minimal publication that a record of the first source describes.
pub open spec fn paper_from_arxiv(record: ArxivPaper) -> PaperView {
    PaperView {
        arxiv_id: record.id@,
        title: unbroken(record.title@),
        abstract_text: record.abstract_text@,
        arxiv_primary_category: record.primary_category@,
        arxiv_categories: views(record.categories@),
        url: record.pdf_url@,
        doi: record.doi@,
        journal: "arXiv"@,
        publisher: "arXiv"@,
        ..empty_paper()
    }
}

/// The minimal publications that a list of records of the first source describes.
pub open spec fn papers_from_arxiv(records: Seq<ArxivPaper>) -> Seq<PaperView> {
    Seq::new(records.len(), |i: int| paper_from_arxiv(records[i]))
}

fn text_of(field: &Option<String>) -> (text: String)
    ensures
        text@ == text_or(*field, Seq::empty()),
{
    match field {
        Some(value) => value.clone(),
        None => String::new(),
    }
}

fn count_of(field: Option<u32>) -> (n: u32)
    ensures
        n == match field {
            Some(value) => value,
            None => 0,
        },
{
    match field {
        Some(value) => value,
        None => 0,
    }
}

fn date_from_source(written: &Option<String>) -> (date: Date)
    ensures
        date == source_date(*written),
{
    match written {
        Some(day) => datetime_from_str(day.as_str()),
        None => default_datetime(),
    }
}

fn authors_of(authors: &Option<Vec<SsAuthor>>) -> (list: Vec<Author>)
    requires
        all_named(listed_authors(*authors)),
    ensures
        views(list@) == authors_from_source(listed_authors(*authors)),
{
    let mut list: Vec<Author> = Vec::new();
    match authors {
        Some(given) => {
            let mut i: usize = 0;
            while i < given.len()
                invariant
                    i <= given.len(),
                    all_named(given@),
                    list@.len() == i,
                    forall|k: int| 0 <= k < i ==> list@[k]@ == author_from_source(given@[k]),
                decreases given.len() - i,
            {
                list.push(Author::from_ss_author(&given[i]));
                i += 1;
            }
            assert(views(list@) =~= authors_from_source(given@));
        },
        None => {
            assert(views(list@) =~= authors_from_source(Seq::empty()));
        },
    }
    list
}

fn nested_of(records: &Option<Vec<SsPaper>>) -> (list: Vec<Paper>)
    requires
        nested_named(listed_papers(*records)),
    ensures
        views(list@) == nested_records(listed_papers(*records)),
{
    let mut list: Vec<Paper> = Vec::new();
    match records {
        Some(given) => {
            let mut i: usize = 0;
            while i < given.len()
                invariant
                    i <= given.len(),
                    nested_named(given@),
                    list@.len() == i,
                    forall|k: int| 0 <= k < i ==> list@[k]@ == nested_record(given@[k]),
                decreases given.len() - i,
            {
                let record = &given[i];
                let id = text_of(&record.paper_id);
                let raw_title = text_of(&record.title);
                let title = replace_newlines(raw_title.as_str());
                let abstract_text = text_of(&record.abstract_text);
                let authors = authors_of(&record.authors);
                let date = date_from_source(&record.publication_date);
                list.push(
                    Paper::reference(
                        id.as_str(),
                        title.as_str(),
                        abstract_text.as_str(),
                        authors,
                        date,
                    ),
                );
                i += 1;
            }
            assert(views(list@) =~= nested_records(given@));
        },
        None => {
            assert(views(list@) =~= nested_records(Seq::empty()));
        },
    }
    list
}

/// Whether [`Collector::update_from_ss`] may be called: every record
/// carries a title, and the best record, where it is a match, carries
/// every field that the merge reads.
pub open spec fn ss_response_ready(paper: PaperView, overwrite: bool, response: Seq<SsPaper>) -> bool {
    &&& forall|i: int| 0 <= i < response.len() ==> (#[trigger] response[i]).title is Some
    &&& response.len() > 0 ==> ({
        let record = response[best_match_index(paper.title, ss_titles(response))];
        is_match(paper.title, text_or(record.title, Seq::empty())) ==> ss_merge_ready(
            paper,
            overwrite,
            record,
        )
    })
}

/// Whether `result`, with the publication as it is afterwards, is what
/// linking against the records of the first source gives.
///
/// Without records there is nothing to link. Otherwise the best record
/// decides: where it is a match, it is merged into the publication; where
/// it is not, the error names its title and its score. After an error the
/// publication is as it was.
pub open spec fn linked_from_arxiv(
    paper: PaperView,
    after: PaperView,
    overwrite: bool,
    response: Seq<ArxivPaper>,
    result: Result<(), LinkError>,
) -> bool {
    &&& response.len() == 0 <==> result == Err::<(), LinkError>(LinkError::NoCandidates)
    &&& response.len() > 0 ==> ({
        let best = best_match_index(paper.title, arxiv_titles(response));
        let record = response[best];
        &&& is_best_match(paper.title, arxiv_titles(response), best)
        &&& result is Ok <==> is_match(paper.title, record.title@)
        &&& result is Ok ==> after == merged_from_arxiv(paper, overwrite, record)
        &&& result matches Err(LinkError::NoSimilarMatch { candidate, score }) ==> {
            &&& candidate@ == record.title@
            &&& score.numer() == title_score(paper.title, record.title@).0
            &&& score.denom() == title_score(paper.title, record.title@).1
        }
    })
    &&& result is Err ==> after == paper
}

/// Whether a merge takes every field from the record: the fields are to be
/// overwritten, or the publication holds none of them yet.
pub open spec fn takes_all(paper: PaperView, overwrite: bool) -> bool {
    overwrite || {
        &&& paper.abstract_text.len() == 0
        &&& paper.arxiv_primary_category.len() == 0
        &&& paper.arxiv_categories.len() == 0
        &&& paper.url.len() == 0
        &&& paper.doi.len() == 0
        &&& paper.journal.len() == 0
        &&& paper.publisher.len() == 0
        &&& paper.publication_date == epoch()
        &&& paper.reference_count == 0
        &&& paper.citation_count == 0
        &&& paper.influential_citation_count == 0
        &&& paper.authors.len() == 0
        &&& paper.citations.len() == 0
        &&& paper.references.len() == 0
    }
}

/// A publication that was linked to the first source carries what the
/// best record says: the record is a match, and the publication has its
/// identifier, its title and, where the merge takes every field, its
/// abstract, categories and address.
pub proof fn law_arxiv_link_populates(
    paper: PaperView,
    after: PaperView,
    overwrite: bool,
    response: Seq<ArxivPaper>,
)
    requires
        linked_from_arxiv(paper, after, overwrite, response, Ok(())),
    ensures
        response.len() > 0,
        ({
            let record = response[best_match_index(paper.title, arxiv_titles(response))];
            &&& is_match(paper.title, record.title@)
            &&& after.arxiv_id == record.id@
            &&& after.title == unbroken(record.title@)
            &&& takes_all(paper, overwrite) ==> {
                &&& after.abstract_text == record.abstract_text@
                &&& after.arxiv_primary_category == record.primary_category@
                &&& after.arxiv_categories == views(record.categories@)
                &&& after.url == record.pdf_url@
                &&& after.doi == record.doi@
            }
        }),
{
}

/// A publication that was linked to the second source carries what the
/// best record says: the record is a match, and the publication has its
/// identifier, its title and, where the merge takes every field, its
/// abstract, its counters, its date and its authors, in the order of the
/// record and each with the name given there.
pub proof fn law_ss_link_populates(
    paper: PaperView,
    after: PaperView,
    overwrite: bool,
    response: Seq<SsPaper>,
)
    requires
        ss_response_ready(paper, overwrite, response),
        linked_from_ss(paper, after, overwrite, response, Ok(())),
    ensures
        response.len() > 0,
        ({
            let record = response[best_match_index(paper.title, ss_titles(response))];
            &&& record.paper_id is Some && record.title is Some
            &&& is_match(paper.title, record.title->0@)
            &&& after.ss_id == record.paper_id->0@
            &&& after.title == unbroken(record.title->0@)
            &&& takes_all(paper, overwrite) ==> {
                &&& record.abstract_text is Some && after.abstract_text == record.abstract_text->0@
                &&& record.citation_count is Some && after.citation_count
                    == record.citation_count->0
                &&& record.reference_count is Some && after.reference_count
                    == record.reference_count->0
                &&& after.publication_date == source_date(record.publication_date)
                &&& record.authors is Some && after.authors.len() == record.authors->0@.len()
                &&& forall|i: int|
                    0 <= i < after.authors.len() ==> (#[trigger] record.authors->0@[i]).name is Some
                        && after.authors[i].name == record.authors->0@[i].name->0@
            }
        }),
{
    let record = response[best_match_index(paper.title, ss_titles(response))];
    assert(ss_merge_ready(paper, overwrite, record));
    if takes_all(paper, overwrite) {
        let given = record.authors->0@;
        assert(after.authors == authors_from_source(given));
        assert forall|i: int| 0 <= i < after.authors.len() implies (#[trigger] given[i]).name
            is Some && after.authors[i].name == given[i].name->0@ by {
            assert(after.authors[i] == author_from_source(given[i]));
        }
    }
}

/// Whether `result`, with the publication as it is afterwards, is what
/// linking against the records of the second source gives.
///
/// Without records there is nothing to link. Otherwise the best record
/// decides: where it is a match, it is merged into the publication; where
/// it is not, the error names its title and its score. After an error the
/// publication is as it was.
pub open spec fn linked_from_ss(
    paper: PaperView,
    after: PaperView,
    overwrite: bool,
    response: Seq<SsPaper>,
    result: Result<(), LinkError>,
) -> bool {
    &&& response.len() == 0 <==> result == Err::<(), LinkError>(LinkError::NoCandidates)
    &&& response.len() > 0 ==> ({
        let best = best_match_index(paper.title, ss_titles(response));
        let record = response[best];
        let title = text_or(record.title, Seq::empty());
        &&& is_best_match(paper.title, ss_titles(response), best)
        &&& result is Ok <==> is_match(paper.title, title)
        &&& result is Ok ==> after == merged_from_ss(paper, overwrite, record)
        &&& result matches Err(LinkError::NoSimilarMatch { candidate, score }) ==> {
            &&& candidate@ == title
            &&& score.numer() == title_score(paper.title, title).0
            &&& score.denom() == title_score(paper.title, title).1
        }
    })
    &&& result is Err ==> after == paper
}

fn authors_are_named(authors: &Option<Vec<SsAuthor>>) -> (named: bool)
    ensures
        named == all_named(listed_authors(*authors)),
{
    match authors {
        Some(given) => {
            let mut i: usize = 0;
            while i < given.len()
                invariant
                    i <= given.len(),
                    listed_authors(*authors) == given@,
                    forall|k: int| 0 <= k < i ==> (#[trigger] given@[k]).name is Some,
                decreases given.len() - i,
            {
                if given[i].name.is_none() {
                    assert(given@[i as int].name is None);
                    return false;
                }
                i += 1;
            }
            true
        },
        None => true,
    }
}

fn nested_are_named(records: &Option<Vec<SsPaper>>) -> (named: bool)
    ensures
        named == nested_named(listed_papers(*records)),
{
    match records {
        Some(given) => {
            let mut i: usize = 0;
            while i < given.len()
                invariant
                    i <= given.len(),
                    listed_papers(*records) == given@,
                    forall|k: int|
                        0 <= k < i ==> all_named(listed_authors((#[trigger] given@[k]).authors)),
                decreases given.len() - i,
            {
                if !authors_are_named(&given[i].authors) {
                    assert(!all_named(listed_authors(given@[i as int].authors)));
                    return false;
                }
                i += 1;
            }
            true
        },
        None => true,
    }
}

/// The settings with which the second metadata source is asked.
#[derive(Clone, Copy, Debug)]
pub struct Collector {
    max_retry_count: u64,
    wait_time: u64,
}

impl Default for Collector {
    fn default() -> (collector: Collector)
        ensures
            collector.retries() == 10,
            collector.pause() == 15,
    {
        Collector { max_retry_count: 10, wait_time: 15 }
    }
}

impl Collector {
    /// How often a failed request is repeated.
    pub closed spec fn retries(&self) -> u64 {
        self.max_retry_count
    }

    /// The seconds to wait between two attempts.
    pub closed spec fn pause(&self) -> u64 {
        self.wait_time
    }

    /// The settings given.
    pub fn new(max_retry_count: u64, wait_time: u64) -> (collector: Collector)
        ensures
            collector.retries() == max_retry_count,
            collector.pause() == wait_time,
    {
        Collector { max_retry_count, wait_time }
    }

    /// How often a failed request is repeated.
    pub fn max_retry_count(&self) -> (n: u64)
        ensures
            n == self.retries(),
    {
        self.max_retry_count
    }

    /// The seconds to wait between two attempts.
    pub fn wait_time(&self) -> (n: u64)
        ensures
            n == self.pause(),
    {
        self.wait_time
    }

    /// Turns the records that the first source returned for a day into
    /// minimal publications, one for each record and in their order.
    pub fn collect_papers_from_arxiv(&self, response: &Vec<ArxivPaper>) -> (papers: Vec<Paper>)
        ensures
            views(papers@) == papers_from_arxiv(response@),
    {
        let mut papers: Vec<Paper> = Vec::new();
        let mut i: usize = 0;
        while i < response.len()
            invariant
                i <= response.len(),
                papers@.len() == i,
                forall|k: int| 0 <= k < i ==> papers@[k]@ == paper_from_arxiv(response@[k]),
            decreases response.len() - i,
        {
            let entry = &response[i];
            let mut paper = Paper::default();
            paper.arxiv_id = entry.id.clone();
            paper.title = replace_newlines(entry.title.as_str());
            paper.abstract_text = entry.abstract_text.clone();
            paper.arxiv_primary_category = entry.primary_category.clone();
            paper.arxiv_categories = clone_texts(&entry.categories);
            paper.url = entry.pdf_url.clone();
            paper.doi = entry.doi.clone();
            paper.journal = "arXiv".to_owned();
            paper.publisher = "arXiv".to_owned();
            proof {
                let v = paper@;
                let e = paper_from_arxiv(*entry);
                assert(v.authors =~= e.authors);
                assert(v.keywords =~= e.keywords);
                assert(v.citations =~= e.citations);
                assert(v.references =~= e.references);
                assert(v.original_text =~= e.original_text);
            }
            papers.push(paper);
            i += 1;
        }
        assert(views(papers@) =~= papers_from_arxiv(response@));
        papers
    }

    /// Links a publication to the records that the first source returned
    /// for its title.
    ///
    /// The best record is the first among those whose title is most similar
    /// to the publication's. Where it scores at least nine tenths, it is
    /// merged into the publication; otherwise the publication stays as it is
    /// and the error names the record and its score.
    pub fn update_from_arxiv(
        &self,
        paper: &mut Paper,
        overwrite: bool,
        response: &Vec<ArxivPaper>,
    ) -> (result: Result<(), LinkError>)
        ensures
            linked_from_arxiv(old(paper)@, final(paper)@, overwrite, response@, result),
    {
        let mut titles: Vec<String> = Vec::new();
        let mut i: usize = 0;
        while i < response.len()
            invariant
                i <= response.len(),
                titles@.len() == i,
                forall|k: int| 0 <= k < i ==> titles@[k]@ == response@[k].title@,
            decreases response.len() - i,
        {
            titles.push(response[i].title.clone());
            i += 1;
        }
        assert(views(titles@) =~= arxiv_titles(response@));
        match best_match(paper.title.as_str(), &titles) {
            None => Err(LinkError::NoCandidates),
            Some(found) => {
                let record = &response[found.0];
                if !found.1.is_accepted() {
                    return Err(
                        LinkError::NoSimilarMatch {
                            candidate: record.title.clone(),
                            score: found.1,
                        },
                    );
                }
                paper.arxiv_id = record.id.clone();
                paper.title = replace_newlines(record.title.as_str());
                if paper.abstract_text.as_str().is_empty() || overwrite {
                    paper.abstract_text = record.abstract_text.clone();
                }
                if paper.arxiv_primary_category.as_str().is_empty() || overwrite {
                    paper.arxiv_primary_category = record.primary_category.clone();
                }
                if paper.arxiv_categories.is_empty() || overwrite {
                    paper.arxiv_categories = clone_texts(&record.categories);
                }
                if paper.url.as_str().is_empty() || overwrite {
                    paper.url = record.pdf_url.clone();
                }
                if paper.doi.as_str().is_empty() || overwrite {
                    paper.doi = record.doi.clone();
                }
                if paper.journal.as_str().is_empty() || overwrite {
                    paper.journal = "arXiv".to_owned();
                }
                if paper.publisher.as_str().is_empty() || overwrite {
                    paper.publisher = "arXiv".to_owned();
                }
                Ok(())
            },
        }
    }

    /// Whether [`Collector::update_from_ss`] may be called on these values.
    pub fn can_update_from_ss(&self, paper: &Paper, overwrite: bool, response: &Vec<SsPaper>) -> (ready:
        bool)
        ensures
            ready == ss_response_ready(paper@, overwrite, response@),
    {
        let mut titles: Vec<String> = Vec::new();
        let mut i: usize = 0;
        while i < response.len()
            invariant
                i <= response.len(),
                titles@.len() == i,
                forall|k: int| 0 <= k < i ==> (#[trigger] response@[k]).title is Some,
                forall|k: int|
                    0 <= k < i ==> titles@[k]@ == text_or(response@[k].title, Seq::empty()),
            decreases response.len() - i,
        {
            if response[i].title.is_none() {
                return false;
            }
            titles.push(text_of(&response[i].title));
            i += 1;
        }
        assert(views(titles@) =~= ss_titles(response@));
        match best_match(paper.title.as_str(), &titles) {
            None => true,
            Some(found) => {
                let record = &response[found.0];
                if !found.1.is_accepted() {
                    return true;
                }
                proof {
                    lemma_nested_views(*paper);
                }
                if record.paper_id.is_none() {
                    return false;
                }
                if (paper.abstract_text.as_str().is_empty() || overwrite)
                    && record.abstract_text.is_none() {
                    return false;
                }
                if (paper.url.as_str().is_empty() || overwrite) && record.url.is_none() {
                    return false;
                }
                if (paper.journal.as_str().is_empty() || overwrite) && record.venue.is_none() {
                    return false;
                }
                if (paper.reference_count == 0 || overwrite) && record.reference_count.is_none() {
                    return false;
                }
                if (paper.citation_count == 0 || overwrite) && record.citation_count.is_none() {
                    return false;
                }
                if (paper.influential_citation_count == 0 || overwrite)
                    && record.influential_citation_count.is_none() {
                    return false;
                }
                if (paper.authors.is_empty() || overwrite) && !(record.authors.is_some()
                    && authors_are_named(&record.authors)) {
                    return false;
                }
                if (paper.citations.is_empty() || overwrite) && !(record.citations.is_some()
                    && nested_are_named(&record.citations)) {
                    return false;
                }
                if (paper.references.is_empty() || overwrite) && !(record.references.is_some()
                    && nested_are_named(&record.references)) {
                    return false;
                }
                true
            },
        }
    }

    /// Links a publication to the records that the second source returned
    /// for its title.
    ///
    /// The best record is the first among those whose title is most similar
    /// to the publication's. Where it scores at least nine tenths, it is
    /// merged into the publication; otherwise the publication stays as it is
    /// and the error names the record and its score.
    pub fn update_from_ss(&self, paper: &mut Paper, overwrite: bool, response: &Vec<SsPaper>) -> (result:
        Result<(), LinkError>)
        requires
            ss_response_ready(old(paper)@, overwrite, response@),
        ensures
            linked_from_ss(old(paper)@, final(paper)@, overwrite, response@, result),
    {
        let mut titles: Vec<String> = Vec::new();
        let mut i: usize = 0;
        while i < response.len()
            invariant
                i <= response.len(),
                titles@.len() == i,
                forall|k: int|
                    0 <= k < i ==> titles@[k]@ == text_or(response@[k].title, Seq::empty()),
            decreases response.len() - i,
        {
            titles.push(text_of(&response[i].title));
            i += 1;
        }
        assert(views(titles@) =~= ss_titles(response@));
        match best_match(paper.title.as_str(), &titles) {
            None => Err(LinkError::NoCandidates),
            Some(found) => {
                let record = &response[found.0];
                if !found.1.is_accepted() {
                    return Err(
                        LinkError::NoSimilarMatch {
                            candidate: text_of(&record.title),
                            score: found.1,
                        },
                    );
                }
                proof {
                    lemma_nested_views(*paper);
                }
                assert(ss_merge_ready(old(paper)@, overwrite, *record));
                paper.ss_id = text_of(&record.paper_id);
                let raw_title = text_of(&record.title);
                paper.title = replace_newlines(raw_title.as_str());
                if paper.abstract_text.as_str().is_empty() || overwrite {
                    paper.abstract_text = text_of(&record.abstract_text);
                }
                if paper.url.as_str().is_empty() || overwrite {
                    paper.url = text_of(&record.url);
                }
                if paper.journal.as_str().is_empty() || overwrite {
                    paper.journal = text_of(&record.venue);
                }
                if paper.publication_date == default_datetime() || overwrite {
                    paper.publication_date = date_from_source(&record.publication_date);
                }
                if paper.reference_count == 0 || overwrite {
                    paper.reference_count = count_of(record.reference_count);
                }
                if paper.citation_count == 0 || overwrite {
                    paper.citation_count = count_of(record.citation_count);
                }
                if paper.influential_citation_count == 0 || overwrite {
                    paper.influential_citation_count = count_of(record.influential_citation_count);
                }
                if paper.authors.is_empty() || overwrite {
                    paper.authors = authors_of(&record.authors);
                }
                if paper.citations.is_empty() || overwrite {
                    paper.citations = nested_of(&record.citations);
                }
                if paper.references.is_empty() || overwrite {
                    paper.references = nested_of(&record.references);
                }
                proof {
                    lemma_nested_views(*paper);
                }
                Ok(())
            },
        }
    }
    /// Links a publication to the records of the second source where they
    /// carry what is needed: `None`, with the publication as it was, where
    /// [`Collector::update_from_ss`] may not be called on them.
    pub fn try_update_from_ss(&self, paper: &mut Paper, overwrite: bool, response: &Vec<SsPaper>) -> (linked:
        Option<Result<(), LinkError>>)
        ensures
            linked is None <==> !ss_response_ready(old(paper)@, overwrite, response@),
            linked is None ==> final(paper)@ == old(paper)@,
            linked matches Some(result) ==> linked_from_ss(
                old(paper)@,
                final(paper)@,
                overwrite,
                response@,
                result,
            ),
    {
        if self.can_update_from_ss(paper, overwrite, response) {
            Some(self.update_from_ss(paper, overwrite, response))
        } else {
            None
        }
    }
}

} // verus!
