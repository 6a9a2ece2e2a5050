//! The ledger of finished work: the publications and authors that are
//! already in the destination store, the publications that failed, and an
//! index from an author's source identifier to the identifier in the store.

use crate::common::{Author, AuthorView, Paper, PaperView};
use crate::index::{author_entries, authors_contains, authors_get, authors_insert, authors_new};
use crate::text::{lowercase, same_text, to_lowercase, views};
use fxhash::FxHashMap;
use vstd::prelude::*;

verus! {

/// The ledger entry of a publication.
#[derive(Debug)]
pub struct PaperCache {
    pub title: String,
    pub arxiv_id: String,
    pub ss_id: String,
    /// The identifier in the destination store.
    pub page_id: String,
    /// Why the publication failed; empty for one that did not.
    pub failed_reason: String,
}

/// What a [`PaperCache`] holds.
pub ghost struct PaperCacheView {
    pub title: Seq<char>,
    pub arxiv_id: Seq<char>,
    pub ss_id: Seq<char>,
    pub page_id: Seq<char>,
    pub failed_reason: Seq<char>,
}

impl View for PaperCache {
    type V = PaperCacheView;

    open spec fn view(&self) -> PaperCacheView {
        PaperCacheView {
            title: self.title@,
            arxiv_id: self.arxiv_id@,
            ss_id: self.ss_id@,
            page_id: self.page_id@,
            failed_reason: self.failed_reason@,
        }
    }
}

impl Clone for PaperCache {
    fn clone(&self) -> (copy: PaperCache)
        ensures
            copy@ == self@,
    {
        PaperCache {
            title: self.title.clone(),
            arxiv_id: self.arxiv_id.clone(),
            ss_id: self.ss_id.clone(),
            page_id: self.page_id.clone(),
            failed_reason: self.failed_reason.clone(),
        }
    }
}

/// The ledger entry of a publication, with the reason of its failure or
/// none.
pub open spec fn paper_entry(paper: PaperView, failed_reason: Option<String>) -> PaperCacheView {
    PaperCacheView {
        title: paper.title,
        arxiv_id: paper.arxiv_id,
        ss_id: paper.ss_id,
        page_id: paper.page_id,
        failed_reason: match failed_reason {
            Some(reason) => reason@,
            None => Seq::empty(),
        },
    }
}

impl PaperCache {
    /// The ledger entry of a publication.
    pub fn from_paper(paper: &Paper, failed_reason: Option<String>) -> (entry: PaperCache)
        ensures
            entry@ == paper_entry(paper@, failed_reason),
    {
        PaperCache {
            title: paper.title.clone(),
            arxiv_id: paper.arxiv_id.clone(),
            ss_id: paper.ss_id.clone(),
            page_id: paper.page_id.clone(),
            failed_reason: match failed_reason {
                Some(reason) => reason,
                None => String::new(),
            },
        }
    }
}

/// The ledger entry of an author.
#[derive(Debug)]
pub struct AuthorCache {
    pub name: String,
    pub ss_id: String,
    /// The identifier in the destination store.
    pub page_id: String,
}

/// What an [`AuthorCache`] holds.
pub ghost struct AuthorCacheView {
    pub name: Seq<char>,
    pub ss_id: Seq<char>,
    pub page_id: Seq<char>,
}

impl View for AuthorCache {
    type V = AuthorCacheView;

    open spec fn view(&self) -> AuthorCacheView {
        AuthorCacheView { name: self.name@, ss_id: self.ss_id@, page_id: self.page_id@ }
    }
}

impl Clone for AuthorCache {
    fn clone(&self) -> (copy: AuthorCache)
        ensures
            copy@ == self@,
    {
        AuthorCache {
            name: self.name.clone(),
            ss_id: self.ss_id.clone(),
            page_id: self.page_id.clone(),
        }
    }
}

/// The ledger entry of an author.
pub open spec fn author_entry(author: AuthorView) -> AuthorCacheView {
    AuthorCacheView { name: author.name, ss_id: author.ss_id, page_id: author.page_id }
}

impl AuthorCache {
    /// The ledger entry of an author.
    pub fn from_author(author: &Author) -> (entry: AuthorCache)
        ensures
            entry@ == author_entry(author@),
    {
        AuthorCache {
            name: author.name.clone(),
            ss_id: author.ss_id.clone(),
            page_id: author.page_id.clone(),
        }
    }
}

/// The ledger.
#[derive(Debug)]
pub struct Cache {
    /// Where the ledger is kept; not part of what is written there.
    pub path: String,
    pub papers: Vec<PaperCache>,
    pub failed_papers: Vec<PaperCache>,
    pub authors: Vec<AuthorCache>,
    /// For each author's source identifier the identifier in the destination store.
    pub author_map: FxHashMap<String, String>,
}

/// What a [`Cache`] holds.
pub ghost struct CacheView {
    pub path: Seq<char>,
    pub papers: Seq<PaperCacheView>,
    pub failed_papers: Seq<PaperCacheView>,
    pub authors: Seq<AuthorCacheView>,
    pub author_map: Map<Seq<char>, Seq<char>>,
}

impl View for Cache {
    type V = CacheView;

    open spec fn view(&self) -> CacheView {
        CacheView {
            path: self.path@,
            papers: views(self.papers@),
            failed_papers: views(self.failed_papers@),
            authors: views(self.authors@),
            author_map: author_entries(self.author_map),
        }
    }
}

/// The ledger without entries that is kept at `path`.
pub open spec fn empty_ledger(path: Seq<char>) -> CacheView {
    CacheView {
        path,
        papers: Seq::empty(),
        failed_papers: Seq::empty(),
        authors: Seq::empty(),
        author_map: Map::empty(),
    }
}

/// Whether one of the entries carries the title, letter case aside.
pub open spec fn has_title(papers: Seq<PaperCacheView>, title: Seq<char>) -> bool {
    exists|i: int| 0 <= i < papers.len() && lowercase((#[trigger] papers[i]).title) == lowercase(title)
}

/// The index that a list of author entries gives: each source identifier
/// with the store identifier of the last entry that carries it.
pub open spec fn index_of(authors: Seq<AuthorCacheView>) -> Map<Seq<char>, Seq<char>>
    decreases authors.len(),
{
    if authors.len() == 0 {
        Map::empty()
    } else {
        index_of(authors.drop_last()).insert(authors.last().ss_id, authors.last().page_id)
    }
}

impl CacheView {
    /// Whether the index holds exactly what the author entries give.
    pub open spec fn index_consistent(self) -> bool {
        self.author_map == index_of(self.authors)
    }

    /// The ledger after the entry of a publication has been appended.
    pub open spec fn with_paper(self, entry: PaperCacheView) -> CacheView {
        CacheView { papers: self.papers.push(entry), ..self }
    }

    /// The ledger after the entry of a failed publication has been appended.
    pub open spec fn with_failure(self, entry: PaperCacheView) -> CacheView {
        CacheView { failed_papers: self.failed_papers.push(entry), ..self }
    }

    /// The ledger after the entry of an author has been appended and indexed.
    pub open spec fn with_author(self, entry: AuthorCacheView) -> CacheView {
        CacheView {
            authors: self.authors.push(entry),
            author_map: self.author_map.insert(entry.ss_id, entry.page_id),
            ..self
        }
    }
}

impl Cache {
    /// The ledger without entries that is kept at `path`.
    pub fn new(path: String) -> (cache: Cache)
        ensures
            cache@ == empty_ledger(path@),
            cache@.index_consistent(),
    {
        let cache = Cache {
            path,
            papers: Vec::new(),
            failed_papers: Vec::new(),
            authors: Vec::new(),
            author_map: authors_new(),
        };
        proof {
            let v = cache@;
            let e = empty_ledger(path@);
            assert(v.papers =~= e.papers);
            assert(v.failed_papers =~= e.failed_papers);
            assert(v.authors =~= e.authors);
        }
        cache
    }

    /// Puts a ledger together from what was read at `path`.
    pub fn from_parts(
        path: String,
        papers: Vec<PaperCache>,
        failed_papers: Vec<PaperCache>,
        authors: Vec<AuthorCache>,
        author_map: FxHashMap<String, String>,
    ) -> (cache: Cache)
        ensures
            cache@ == (CacheView {
                path: path@,
                papers: views(papers@),
                failed_papers: views(failed_papers@),
                authors: views(authors@),
                author_map: author_entries(author_map),
            }),
    {
        Cache { path, papers, failed_papers, authors, author_map }
    }

    /// Whether a publication with this title is in the ledger, letter case aside.
    pub fn is_exist_paper(&self, title: &str) -> (found: bool)
        ensures
            found == has_title(self@.papers, title@),
    {
        let wanted = to_lowercase(title);
        let mut i: usize = 0;
        while i < self.papers.len()
            invariant
                i <= self.papers.len(),
                wanted@ == lowercase(title@),
                forall|k: int|
                    0 <= k < i ==> lowercase((#[trigger] self@.papers[k]).title) != lowercase(
                        title@,
                    ),
            decreases self.papers.len() - i,
        {
            let known = to_lowercase(self.papers[i].title.as_str());
            if same_text(known.as_str(), wanted.as_str()) {
                assert(lowercase(self@.papers[i as int].title) == lowercase(title@));
                return true;
            }
            i += 1;
        }
        false
    }

    /// Whether an author with this source identifier is in the index.
    pub fn is_exist_author(&self, ss_id: &str) -> (found: bool)
        ensures
            found == self@.author_map.contains_key(ss_id@),
    {
        authors_contains(&self.author_map, ss_id)
    }

    /// The store identifier of the author with this source identifier, if
    /// the index has one.
    pub fn get_author_id(&self, ss_id: &str) -> (id: Option<String>)
        ensures
            id is Some <==> self@.author_map.contains_key(ss_id@),
            id is Some ==> id->0@ == self@.author_map[ss_id@],
    {
        authors_get(&self.author_map, ss_id)
    }

    /// Appends the entry of a publication.
    pub fn add_paper(&mut self, paper: PaperCache)
        ensures
            final(self)@ == old(self)@.with_paper(paper@),
    {
        self.papers.push(paper);
        assert(self@.papers =~= old(self)@.papers.push(paper@));
    }

    /// Appends the entry of a publication that failed.
    pub fn add_failed_paper(&mut self, paper: PaperCache)
        ensures
            final(self)@ == old(self)@.with_failure(paper@),
    {
        self.failed_papers.push(paper);
        assert(self@.failed_papers =~= old(self)@.failed_papers.push(paper@));
    }

    /// Appends the entry of an author and indexes it.
    pub fn add_author(&mut self, author: AuthorCache)
        ensures
            final(self)@ == old(self)@.with_author(author@),
            old(self)@.index_consistent() ==> final(self)@.index_consistent(),
    {
        let key = author.ss_id.clone();
        let value = author.page_id.clone();
        self.authors.push(author);
        authors_insert(&mut self.author_map, key, value);
        proof {
            let before = old(self)@.authors;
            let after = self@.authors;
            assert(after =~= before.push(author@));
            assert(after.drop_last() =~= before);
        }
    }

    /// Makes the index anew from the author entries.
    pub fn rebuild_author_map(&mut self)
        ensures
            final(self)@ == (CacheView { author_map: index_of(old(self)@.authors), ..old(self)@ }),
            final(self)@.index_consistent(),
    {
        let mut index = authors_new();
        let mut i: usize = 0;
        while i < self.authors.len()
            invariant
                i <= self.authors.len(),
                author_entries(index) == index_of(views(self.authors@).take(i as int)),
            decreases self.authors.len() - i,
        {
            let ghost all = views(self.authors@);
            assert(all.take(i + 1).drop_last() =~= all.take(i as int));
            assert(all.take(i + 1).last() == self.authors@[i as int]@);
            authors_insert(
                &mut index,
                self.authors[i].ss_id.clone(),
                self.authors[i].page_id.clone(),
            );
            i += 1;
        }
        assert(views(self.authors@).take(self.authors@.len() as int) =~= views(self.authors@));
        self.author_map = index;
    }
}

/// A publication whose entry has been appended is found by its title, and
/// by the same title in any letter case that lower-cases alike.
pub proof fn law_added_paper_exists(ledger: CacheView, entry: PaperCacheView, title: Seq<char>)
    requires
        lowercase(title) == lowercase(entry.title),
    ensures
        has_title(ledger.with_paper(entry).papers, title),
{
    let after = ledger.with_paper(entry).papers;
    assert(after[ledger.papers.len() as int] == entry);
}

/// Appending entries never makes a title disappear from the ledger.
pub proof fn law_titles_stay(ledger: CacheView, entry: PaperCacheView, title: Seq<char>)
    requires
        has_title(ledger.papers, title),
    ensures
        has_title(ledger.with_paper(entry).papers, title),
        has_title(ledger.with_failure(entry).papers, title),
{
    let i = choose|i: int|
        0 <= i < ledger.papers.len() && lowercase((#[trigger] ledger.papers[i]).title) == lowercase(
            title,
        );
    assert(ledger.with_paper(entry).papers[i] == ledger.papers[i]);
}

/// An author whose entry has been appended is in the index under the
/// identifier of that entry.
pub proof fn law_added_author_exists(ledger: CacheView, entry: AuthorCacheView)
    ensures
        ledger.with_author(entry).author_map.contains_key(entry.ss_id),
        ledger.with_author(entry).author_map[entry.ss_id] == entry.page_id,
{
}

/// In a ledger whose index is consistent, an identifier is in the index
/// exactly if an author entry carries it.
pub proof fn law_index_holds_authors(ledger: CacheView, ss_id: Seq<char>)
    requires
        ledger.index_consistent(),
    ensures
        ledger.author_map.contains_key(ss_id) <==> exists|i: int|
            0 <= i < ledger.authors.len() && (#[trigger] ledger.authors[i]).ss_id == ss_id,
{
    lemma_index_of(ledger.authors, ss_id);
}

proof fn lemma_index_of(authors: Seq<AuthorCacheView>, ss_id: Seq<char>)
    ensures
        index_of(authors).contains_key(ss_id) <==> exists|i: int|
            0 <= i < authors.len() && (#[trigger] authors[i]).ss_id == ss_id,
    decreases authors.len(),
{
    if authors.len() > 0 {
        let head = authors.drop_last();
        lemma_index_of(head, ss_id);
        if authors.last().ss_id == ss_id {
            assert(authors[authors.len() - 1].ss_id == ss_id);
        } else if index_of(head).contains_key(ss_id) {
            let i = choose|i: int| 0 <= i < head.len() && (#[trigger] head[i]).ss_id == ss_id;
            assert(authors[i] == head[i]);
        } else {
            assert forall|i: int| 0 <= i < authors.len() implies (#[trigger] authors[i]).ss_id
                != ss_id by {
                if i < head.len() {
                    assert(authors[i] == head[i]);
                }
            }
        }
    }
}

} // verus!
