//! The protocol by which a ledger is made anew from the destination
//! store: its pages are read batch by batch, first those of the
//! publications, then those of the authors, and the index is made from
//! the authors at the end.

use crate::cache::{
    empty_ledger, index_of, AuthorCache, AuthorCacheView, Cache, CacheView, PaperCache,
    PaperCacheView,
};
use crate::text::views;
use vstd::prelude::*;

verus! {

/// Which pages are being read.
#[derive(Clone, Copy, Debug, PartialEq, Eq, Structural)]
pub enum BuildPhase {
    Papers,
    Authors,
    Done,
}

/// What one page of the destination store says: the title of a publication
/// or the name of an author, the source identifier and the page's own identifier.
#[derive(Debug)]
pub struct StoredRow {
    pub label: String,
    pub ss_id: String,
    pub page_id: String,
}

/// What a [`StoredRow`] holds.
pub ghost struct RowView {
    pub label: Seq<char>,
    pub ss_id: Seq<char>,
    pub page_id: Seq<char>,
}

impl View for StoredRow {
    type V = RowView;

    open spec fn view(&self) -> RowView {
        RowView { label: self.label@, ss_id: self.ss_id@, page_id: self.page_id@ }
    }
}

/// One batch of pages, as the destination store returned it.
#[derive(Debug)]
pub struct QueryPage {
    pub rows: Vec<StoredRow>,
    /// Whether more batches follow; absent counts as no.
    pub has_more: Option<bool>,
    /// Where the next batch begins; absent counts as empty.
    pub next_cursor: Option<String>,
}

/// The ledger entries of publications that a batch of pages gives.
pub open spec fn paper_rows(rows: Seq<RowView>) -> Seq<PaperCacheView> {
    Seq::new(
        rows.len(),
        |i: int|
            PaperCacheView {
                title: rows[i].label,
                arxiv_id: Seq::empty(),
                ss_id: rows[i].ss_id,
                page_id: rows[i].page_id,
                failed_reason: Seq::empty(),
            },
    )
}

/// The ledger entries of authors that a batch of pages gives.
pub open spec fn author_rows(rows: Seq<RowView>) -> Seq<AuthorCacheView> {
    Seq::new(
        rows.len(),
        |i: int|
            AuthorCacheView { name: rows[i].label, ss_id: rows[i].ss_id, page_id: rows[i].page_id },
    )
}

/// A ledger in the making: what has been read, which pages are being
/// read, and where the next batch begins.
#[derive(Debug)]
pub struct CacheBuilder {
    cache: Cache,
    phase: BuildPhase,
    cursor: String,
}

/// What a [`CacheBuilder`] holds.
pub ghost struct BuilderView {
    pub cache: CacheView,
    pub phase: BuildPhase,
    pub cursor: Seq<char>,
}

impl View for CacheBuilder {
    type V = BuilderView;

    closed spec fn view(&self) -> BuilderView {
        BuilderView { cache: self.cache@, phase: self.phase, cursor: self.cursor@ }
    }
}

/// The state in which the making of a ledger begins.
pub open spec fn build_start(path: Seq<char>) -> BuilderView {
    BuilderView { cache: empty_ledger(path), phase: BuildPhase::Papers, cursor: Seq::empty() }
}

/// The state after a batch of pages.
///
/// The batch is appended to the publications or to the authors. Where more
/// batches follow, the next one begins at the cursor given. Otherwise the
/// authors come after the publications, from their first batch on; after
/// the authors the index is made and the work is done.
pub open spec fn after_page(
    state: BuilderView,
    rows: Seq<RowView>,
    has_more: Option<bool>,
    next_cursor: Option<String>,
) -> BuilderView {
    let more = has_more == Some(true);
    let cursor = match next_cursor {
        Some(text) => text@,
        None => Seq::empty(),
    };
    match state.phase {
        BuildPhase::Papers => {
            let cache = CacheView { papers: state.cache.papers + paper_rows(rows), ..state.cache };
            if more {
                BuilderView { cache, phase: BuildPhase::Papers, cursor }
            } else {
                BuilderView { cache, phase: BuildPhase::Authors, cursor: Seq::empty() }
            }
        },
        BuildPhase::Authors => {
            let authors = state.cache.authors + author_rows(rows);
            if more {
                BuilderView {
                    cache: CacheView { authors, ..state.cache },
                    phase: BuildPhase::Authors,
                    cursor,
                }
            } else {
                BuilderView {
                    cache: CacheView { authors, author_map: index_of(authors), ..state.cache },
                    phase: BuildPhase::Done,
                    cursor: Seq::empty(),
                }
            }
        },
        BuildPhase::Done => state,
    }
}

/// A ledger that was made to the end has a consistent index.
pub proof fn law_built_index_is_consistent(
    state: BuilderView,
    rows: Seq<RowView>,
    has_more: Option<bool>,
    next_cursor: Option<String>,
)
    requires
        state.phase == BuildPhase::Authors,
        after_page(state, rows, has_more, next_cursor).phase == BuildPhase::Done,
    ensures
        after_page(state, rows, has_more, next_cursor).cache.index_consistent(),
{
}

impl Cache {
    /// Begins the making of a ledger that is kept at `path`.
    pub fn build(path: String) -> (builder: CacheBuilder)
        ensures
            builder@ == build_start(path@),
    {
        CacheBuilder { cache: Cache::new(path), phase: BuildPhase::Papers, cursor: String::new() }
    }
}

impl CacheBuilder {
    /// Which pages are to be asked for next.
    pub fn phase(&self) -> (phase: BuildPhase)
        ensures
            phase == self@.phase,
    {
        self.phase
    }

    /// Where the batch to ask for begins; empty for the first batch.
    pub fn cursor(&self) -> (cursor: &str)
        ensures
            cursor@ == self@.cursor,
    {
        self.cursor.as_str()
    }

    /// Takes a batch of pages. A request that failed is simply made again:
    /// the state then stays as it is.
    pub fn on_page(&mut self, page: QueryPage)
        ensures
            final(self)@ == after_page(old(self)@, views(page.rows@), page.has_more, page.next_cursor),
    {
        let more = match page.has_more {
            Some(flag) => flag,
            None => false,
        };
        let cursor = match page.next_cursor {
            Some(text) => text,
            None => String::new(),
        };
        let ghost rows = views(page.rows@);
        match self.phase {
            BuildPhase::Papers => {
                let ghost before = self.cache@.papers;
                let mut i: usize = 0;
                while i < page.rows.len()
                    invariant
                        i <= page.rows.len(),
                        rows == views(page.rows@),
                        self.cache@ == (CacheView {
                            papers: before + paper_rows(rows).take(i as int),
                            ..old(self).cache@
                        }),
                        before == old(self).cache@.papers,
                        self.phase == old(self).phase,
                    decreases page.rows.len() - i,
                {
                    let row = &page.rows[i];
                    let entry = PaperCache {
                        title: row.label.clone(),
                        arxiv_id: String::new(),
                        ss_id: row.ss_id.clone(),
                        page_id: row.page_id.clone(),
                        failed_reason: String::new(),
                    };
                    assert(entry@ == paper_rows(rows)[i as int]);
                    self.cache.add_paper(entry);
                    assert(before + paper_rows(rows).take(i + 1) =~= (before + paper_rows(rows).take(
                        i as int,
                    )).push(paper_rows(rows)[i as int]));
                    i += 1;
                }
                assert(paper_rows(rows).take(rows.len() as int) =~= paper_rows(rows));
                if more {
                    self.cursor = cursor;
                } else {
                    self.phase = BuildPhase::Authors;
                    self.cursor = String::new();
                }
            },
            BuildPhase::Authors => {
                let ghost before = self.cache@.authors;
                let mut i: usize = 0;
                while i < page.rows.len()
                    invariant
                        i <= page.rows.len(),
                        rows == views(page.rows@),
                        self.cache@.authors == before + author_rows(rows).take(i as int),
                        self.cache@.papers == old(self).cache@.papers,
                        self.cache@.failed_papers == old(self).cache@.failed_papers,
                        self.cache@.path == old(self).cache@.path,
                        self.cache@.author_map == old(self).cache@.author_map,
                        before == old(self).cache@.authors,
                        self.phase == old(self).phase,
                    decreases page.rows.len() - i,
                {
                    let row = &page.rows[i];
                    let entry = AuthorCache {
                        name: row.label.clone(),
                        ss_id: row.ss_id.clone(),
                        page_id: row.page_id.clone(),
                    };
                    assert(entry@ == author_rows(rows)[i as int]);
                    self.cache.authors.push(entry);
                    assert(before + author_rows(rows).take(i + 1) =~= (before + author_rows(
                        rows,
                    ).take(i as int)).push(author_rows(rows)[i as int]));
                    assert(self.cache@.authors =~= before + author_rows(rows).take(i + 1));
                    i += 1;
                }
                assert(author_rows(rows).take(rows.len() as int) =~= author_rows(rows));
                if more {
                    self.cursor = cursor;
                } else {
                    self.cache.rebuild_author_map();
                    self.phase = BuildPhase::Done;
                    self.cursor = String::new();
                }
            },
            BuildPhase::Done => {},
        }
    }

    /// The ledger as far as it has been made.
    pub fn finish(self) -> (cache: Cache)
        ensures
            cache@ == self@.cache,
    {
        self.cache
    }
}

} // verus!
