//! What is written to the destination store: the properties and the
//! content of the page of a publication, the properties of the page of an
//! author, and the protocols by which both are stored and entered in the
//! ledger.

use crate::cache::{
    author_entry, has_title, paper_entry, AuthorCache, Cache, CacheView, PaperCache,
};
use crate::common::{
    list_items, Author, AuthorView, KeywordView, Paper, PaperView, StatusCode, Summary,
    SummaryView,
};
use crate::text::{clone_texts, decimal, decimal_string, push_text, views};
use vstd::prelude::*;

verus! {

/// The value of a property of a page.
#[derive(Debug)]
pub enum PropertyValue {
    Title(String),
    RichText(String),
    Number(i64),
    Select(String),
    MultiSelect(Vec<String>),
    Url(String),
    Status(String),
    /// The identifiers of the pages that the page is related to.
    Relation(Vec<String>),
}

/// What a [`PropertyValue`] holds.
pub ghost enum ValueView {
    Title(Seq<char>),
    RichText(Seq<char>),
    Number(i64),
    Select(Seq<char>),
    MultiSelect(Seq<Seq<char>>),
    Url(Seq<char>),
    Status(Seq<char>),
    Relation(Seq<Seq<char>>),
}

impl View for PropertyValue {
    type V = ValueView;

    open spec fn view(&self) -> ValueView {
        match self {
            PropertyValue::Title(text) => ValueView::Title(text@),
            PropertyValue::RichText(text) => ValueView::RichText(text@),
            PropertyValue::Number(n) => ValueView::Number(*n),
            PropertyValue::Select(text) => ValueView::Select(text@),
            PropertyValue::MultiSelect(items) => ValueView::MultiSelect(views(items@)),
            PropertyValue::Url(text) => ValueView::Url(text@),
            PropertyValue::Status(text) => ValueView::Status(text@),
            PropertyValue::Relation(items) => ValueView::Relation(views(items@)),
        }
    }
}

/// A named property of a page.
#[derive(Debug)]
pub struct Property {
    pub name: String,
    pub value: PropertyValue,
}

/// What a [`Property`] holds.
pub ghost struct PropertyView {
    pub name: Seq<char>,
    pub value: ValueView,
}

impl View for Property {
    type V = PropertyView;

    open spec fn view(&self) -> PropertyView {
        PropertyView { name: self.name@, value: self.value@ }
    }
}

/// The property `name` with the given value.
pub open spec fn named(name: Seq<char>, value: ValueView) -> PropertyView {
    PropertyView { name, value }
}

/// The kind of a block of page content.
#[derive(Clone, Copy, Debug, PartialEq, Eq, Structural)]
pub enum BlockKind {
    Heading1,
    Heading2,
    Paragraph,
}

/// One block of page content.
#[derive(Debug)]
pub struct ContentBlock {
    pub kind: BlockKind,
    pub text: String,
}

/// What a [`ContentBlock`] holds.
pub ghost struct BlockView {
    pub kind: BlockKind,
    pub text: Seq<char>,
}

impl View for ContentBlock {
    type V = BlockView;

    open spec fn view(&self) -> BlockView {
        BlockView { kind: self.kind, text: self.text@ }
    }
}

/// The block of the given kind and text.
pub open spec fn block(kind: BlockKind, text: Seq<char>) -> BlockView {
    BlockView { kind, text }
}

/// How an operation on the destination store ended, with the message of a failure.
pub ghost enum StatusView {
    Success,
    Failure(Seq<char>),
    PaperAlreadyExists,
}

impl View for StatusCode {
    type V = StatusView;

    open spec fn view(&self) -> StatusView {
        match self {
            StatusCode::Success => StatusView::Success,
            StatusCode::Failure(message) => StatusView::Failure(message@),
            StatusCode::PaperAlreadyExists => StatusView::PaperAlreadyExists,
        }
    }
}

/// The properties of the page of an author.
pub open spec fn author_property_list(author: AuthorView) -> Seq<PropertyView> {
    seq![
        named("SS ID"@, ValueView::Title(author.ss_id)),
        named("Name"@, ValueView::RichText(author.name)),
        named("Affiliations"@, ValueView::MultiSelect(author.affiliations)),
        named("Citation Count"@, ValueView::Number(author.citation_count as i64)),
        named("Paper Count"@, ValueView::Number(author.paper_count as i64)),
        named("h-Index"@, ValueView::Number(author.h_index as i64)),
        named("URL"@, ValueView::Url(author.url)),
    ]
}

/// The content of the page of a publication: a heading, then each part of
/// the summary under its own numbered heading.
pub open spec fn page_blocks(summary: SummaryView) -> Seq<BlockView> {
    seq![
        block(BlockKind::Heading1, "Summary"@),
        block(BlockKind::Heading2, "1. Overview"@),
        block(BlockKind::Paragraph, summary.overview),
        block(BlockKind::Heading2, "2. Research Question"@),
        block(BlockKind::Paragraph, summary.research_question),
        block(BlockKind::Heading2, "3. Task"@),
        block(BlockKind::Paragraph, summary.task_category),
        block(BlockKind::Heading2, "4. Comparison with Related Works"@),
        block(BlockKind::Paragraph, summary.comparison_with_related_works),
        block(BlockKind::Heading2, "5. Methodology"@),
        block(BlockKind::Paragraph, summary.proposed_method),
        block(BlockKind::Heading2, "6. Datasets"@),
        block(BlockKind::Paragraph, summary.datasets),
        block(BlockKind::Heading2, "7. Experiments"@),
        block(BlockKind::Paragraph, summary.experiments),
        block(BlockKind::Heading2, "8. Analysis"@),
        block(BlockKind::Paragraph, summary.analysis),
        block(BlockKind::Heading2, "9. Contributions"@),
        block(BlockKind::Paragraph, summary.contributions),
        block(BlockKind::Heading2, "10. Future Works"@),
        block(BlockKind::Paragraph, summary.future_works),
    ]
}

/// The name under which a publication is shown: its title, then in
/// brackets the name of its first author and the year of publication.
pub open spec fn display_key(paper: PaperView) -> Seq<char>
    recommends
        paper.authors.len() > 0,
{
    paper.title + " ("@ + paper.authors[0].name + ", "@ + decimal(
        paper.publication_date.year as int,
    ) + ")"@
}

/// The store identifiers of the given authors, in their order, as far as
/// the index knows the author and the identifier is not empty.
pub open spec fn known_ids(authors: Seq<AuthorView>, index: Map<Seq<char>, Seq<char>>) -> Seq<
    Seq<char>,
>
    decreases authors.len(),
{
    if authors.len() == 0 {
        Seq::empty()
    } else {
        let before = known_ids(authors.drop_last(), index);
        let id = authors.last().ss_id;
        if index.contains_key(id) && index[id].len() > 0 {
            before.push(index[id])
        } else {
            before
        }
    }
}

/// The most identifiers that one relation of a page holds.
pub open spec fn relation_cap() -> nat {
    100
}

/// The identifiers of the pages of a publication's authors: the known
/// ones, cut after the first hundred.
pub open spec fn linked_author_ids(authors: Seq<AuthorView>, index: Map<Seq<char>, Seq<char>>) -> Seq<
    Seq<char>,
> {
    let ids = known_ids(authors, index);
    if ids.len() > relation_cap() {
        ids.take(relation_cap() as int)
    } else {
        ids
    }
}

/// The aliases of the given keywords.
pub open spec fn aliases(keywords: Seq<KeywordView>) -> Seq<Seq<char>> {
    Seq::new(keywords.len(), |i: int| keywords[i].alias)
}

/// Whether the page of a publication can be described: the publication has
/// an author, and the index knows the first one.
pub open spec fn can_describe(paper: PaperView, index: Map<Seq<char>, Seq<char>>) -> bool {
    paper.authors.len() > 0 && index.contains_key(paper.authors[0].ss_id)
}

/// The properties of the page of a publication. The keywords are listed
/// only where there are any, and the first author only where the store
/// identifier is not empty.
pub open spec fn paper_property_list(paper: PaperView, index: Map<Seq<char>, Seq<char>>) -> Seq<
    PropertyView,
>
    recommends
        can_describe(paper, index),
{
    seq![
        named("Name"@, ValueView::Title(display_key(paper))),
        named("arXiv ID"@, ValueView::RichText(paper.arxiv_id)),
        named("SS ID"@, ValueView::RichText(paper.ss_id)),
        named("Title"@, ValueView::RichText(paper.title)),
        named("Year"@, ValueView::Number(paper.publication_date.year as i64)),
        named("Abstract"@, ValueView::RichText(paper.abstract_text)),
        named("PrimaryCategory"@, ValueView::Select(paper.arxiv_primary_category)),
        named("Journal"@, ValueView::Select(paper.journal)),
        named("Publisher"@, ValueView::Select(paper.publisher)),
        named("URL"@, ValueView::Url(paper.url)),
        named("DOI"@, ValueView::RichText(paper.doi)),
        named("Status"@, ValueView::Status("Ready"@)),
        named("Citation Count"@, ValueView::Number(paper.citation_count as i64)),
        named("Reference Count"@, ValueView::Number(paper.reference_count as i64)),
        named(
            "Influential Citation Count"@,
            ValueView::Number(paper.influential_citation_count as i64),
        ),
    ] + (if paper.keywords.len() > 0 {
        seq![named("Keywords"@, ValueView::MultiSelect(aliases(paper.keywords)))]
    } else {
        Seq::empty()
    }) + seq![
        named("Domain"@, ValueView::MultiSelect(list_items(paper.summary.domain_as_words))),
        named("Task"@, ValueView::MultiSelect(list_items(paper.summary.task_as_words))),
        named("Research Question"@, ValueView::RichText(paper.summary.research_question)),
        named("Methodology"@, ValueView::RichText(paper.summary.proposed_method)),
        named("Results"@, ValueView::RichText(paper.summary.experiments)),
        named("Author IDs"@, ValueView::Relation(linked_author_ids(paper.authors, index))),
    ] + (if index[paper.authors[0].ss_id].len() > 0 {
        seq![
            named("First Author ID"@, ValueView::Relation(seq![index[paper.authors[0].ss_id]])),
        ]
    } else {
        Seq::empty()
    })
}

/// The position of the first author from `from` on whom the index does not
/// know; the number of authors where it knows them all.
pub open spec fn next_unknown(
    authors: Seq<AuthorView>,
    index: Map<Seq<char>, Seq<char>>,
    from: int,
) -> int
    decreases authors.len() - from,
{
    if from < 0 || from >= authors.len() {
        authors.len() as int
    } else if !index.contains_key(authors[from].ss_id) {
        from
    } else {
        next_unknown(authors, index, from + 1)
    }
}

/// The position that [`next_unknown`] gives is the first one from `from`
/// on whose author the index does not know.
pub proof fn law_next_unknown(authors: Seq<AuthorView>, index: Map<Seq<char>, Seq<char>>, from: int)
    requires
        0 <= from <= authors.len(),
    ensures
        from <= next_unknown(authors, index, from) <= authors.len(),
        next_unknown(authors, index, from) < authors.len() ==> !index.contains_key(
            authors[next_unknown(authors, index, from)].ss_id,
        ),
        forall|i: int|
            from <= i < next_unknown(authors, index, from) ==> index.contains_key(
                (#[trigger] authors[i]).ss_id,
            ),
    decreases authors.len() - from,
{
    if from < authors.len() && index.contains_key(authors[from].ss_id) {
        law_next_unknown(authors, index, from + 1);
    }
}

/// What happened since the last step of storing a list of authors.
#[derive(Debug)]
pub enum AuthorEvent {
    /// Nothing yet: the list is taken up at the given position.
    Begin,
    /// The page of the author at the given position was created and has this identifier.
    Created(String),
    /// The page of the author at the given position could not be created.
    CreateFailed(String),
}

/// What is to be done next in storing a list of authors.
#[derive(Debug)]
pub enum AuthorAction {
    /// Create the page of the author at this position, with these properties.
    Create { at: usize, properties: Vec<Property> },
    /// Nothing more: this is how it ended.
    Done(StatusCode),
}

/// What happened since the last step of storing a publication.
#[derive(Debug)]
pub enum PaperEvent {
    /// Nothing yet.
    Begin,
    /// The page was created and has this identifier.
    Created(String),
    /// The page could not be created.
    CreateFailed(String),
    /// The content was appended to the page.
    Appended,
    /// The content could not be appended to the page.
    AppendFailed(String),
}

/// What is to be done next in storing a publication.
#[derive(Debug)]
pub enum PaperAction {
    /// Create the page, with these properties.
    CreatePage(Vec<Property>),
    /// Append these blocks to the page with this identifier.
    AppendBlocks { page_id: String, blocks: Vec<ContentBlock> },
    /// Nothing more: this is how it ended.
    Done(StatusCode),
}

/// Whether storing a publication can take the event: the first step
/// describes the page, unless the ledger knows the title, and for that the
/// publication needs an author whom the index knows.
pub open spec fn can_step(paper: PaperView, cache: CacheView, event: PaperEvent) -> bool {
    event is Begin && !has_title(cache.papers, paper.title) ==> can_describe(paper, cache.author_map)
}

/// Whether `action`, with the publication and the ledger as they are
/// afterwards, is the step of storing a publication that follows `event`.
pub open spec fn paper_step(
    paper: PaperView,
    cache: CacheView,
    event: PaperEvent,
    after_paper: PaperView,
    after_cache: CacheView,
    action: PaperAction,
) -> bool {
            match event {
                PaperEvent::Begin => {
                    &&& after_paper == paper
                    &&& after_cache == cache
                    &&& if has_title(cache.papers, paper.title) {
                        &&& action matches PaperAction::Done(status)
                        &&& status@ == StatusView::PaperAlreadyExists
                    } else {
                        &&& action matches PaperAction::CreatePage(properties)
                        &&& views(properties@) == paper_property_list(
                            paper,
                            cache.author_map,
                        )
                    }
                },
                PaperEvent::Created(page_id) => {
                    &&& after_paper == (PaperView { page_id: page_id@, ..paper })
                    &&& after_cache == cache
                    &&& action matches PaperAction::AppendBlocks { page_id: target, blocks }
                    &&& target@ == page_id@
                    &&& views(blocks@) == page_blocks(paper.summary)
                },
                PaperEvent::CreateFailed(message) => {
                    &&& after_paper == paper
                    &&& after_cache == cache
                    &&& action matches PaperAction::Done(status)
                    &&& status@ == StatusView::Failure(
                        "Failed to add paper to database: "@ + message@,
                    )
                },
                PaperEvent::Appended => {
                    &&& after_paper == paper
                    &&& after_cache == cache.with_paper(paper_entry(paper, None))
                    &&& action matches PaperAction::Done(status)
                    &&& status@ == StatusView::Success
                },
                PaperEvent::AppendFailed(message) => {
                    &&& after_paper == paper
                    &&& after_cache == cache
                    &&& action matches PaperAction::Done(status)
                    &&& status@ == StatusView::Failure(
                        "Failed to update page content: "@ + ("Failed to update page content: "@
                            + message@),
                    )
                },
            }
}

/// The writer of the destination store.
#[derive(Clone, Copy, Debug)]
pub struct Reporter {}

fn text_property(name: &str, text: &str) -> (made: Property)
    ensures
        made@ == named(name@, ValueView::RichText(text@)),
{
    Property { name: name.to_owned(), value: PropertyValue::RichText(text.to_owned()) }
}

fn select_property(name: &str, text: &str) -> (made: Property)
    ensures
        made@ == named(name@, ValueView::Select(text@)),
{
    Property { name: name.to_owned(), value: PropertyValue::Select(text.to_owned()) }
}

fn number_property(name: &str, n: i64) -> (made: Property)
    ensures
        made@ == named(name@, ValueView::Number(n)),
{
    Property { name: name.to_owned(), value: PropertyValue::Number(n) }
}

fn list_property(name: &str, items: Vec<String>) -> (made: Property)
    ensures
        made@ == named(name@, ValueView::MultiSelect(views(items@))),
{
    Property { name: name.to_owned(), value: PropertyValue::MultiSelect(items) }
}

fn relation_property(name: &str, ids: Vec<String>) -> (made: Property)
    ensures
        made@ == named(name@, ValueView::Relation(views(ids@))),
{
    Property { name: name.to_owned(), value: PropertyValue::Relation(ids) }
}

fn make_block(kind: BlockKind, text: &str) -> (made: ContentBlock)
    ensures
        made@ == block(kind, text@),
{
    ContentBlock { kind, text: text.to_owned() }
}

fn failure(prefix: &str, message: &str) -> (status: StatusCode)
    ensures
        status@ == StatusView::Failure(prefix@ + message@),
{
    let mut text = prefix.to_owned();
    push_text(&mut text, message);
    StatusCode::Failure(text)
}

impl Reporter {
    /// A writer; it holds nothing of its own.
    pub fn new() -> Reporter {
        Reporter {  }
    }

    /// The store identifier of an author, given the pages that the store
    /// found for the source identifier: that of the first page, if any.
    pub fn get_an_author_notion_id(&self, pages: &Vec<String>) -> (id: Option<String>)
        ensures
            id is Some <==> pages@.len() > 0,
            id is Some ==> id->0@ == pages@[0]@,
    {
        if pages.len() > 0 {
            Some(pages[0].clone())
        } else {
            None
        }
    }

    /// The properties of the page of an author.
    pub fn author_properties(&self, author: &Author) -> (properties: Vec<Property>)
        ensures
            views(properties@) == author_property_list(author@),
    {
        let mut properties: Vec<Property> = Vec::new();
        properties.push(
            Property { name: "SS ID".to_owned(), value: PropertyValue::Title(author.ss_id.clone()) },
        );
        properties.push(text_property("Name", author.name.as_str()));
        properties.push(list_property("Affiliations", clone_texts(&author.affiliations)));
        properties.push(number_property("Citation Count", author.citation_count as i64));
        properties.push(number_property("Paper Count", author.paper_count as i64));
        properties.push(number_property("h-Index", author.h_index as i64));
        properties.push(
            Property { name: "URL".to_owned(), value: PropertyValue::Url(author.url.clone()) },
        );
        assert(views(properties@) =~= author_property_list(author@));
        properties
    }

    /// One step of storing a list of authors.
    ///
    /// The authors are taken in their order; those whom the index knows are
    /// passed over. `at` is the position at which the list is taken up, or
    /// that of the author whose page the event speaks of. After a page was
    /// created, the author gets its identifier and is entered in the
    /// ledger, which is then to be flushed before the next page is asked
    /// for. A page that could not be created ends the work with a failure.
    pub fn add_authors(
        &self,
        authors: &mut Vec<Author>,
        cache: &mut Cache,
        at: usize,
        event: AuthorEvent,
    ) -> (action: AuthorAction)
        requires
            at <= old(authors)@.len(),
            event is Created ==> at < old(authors)@.len(),
        ensures
            final(authors)@.len() == old(authors)@.len(),
            match event {
                AuthorEvent::Begin => {
                    &&& views(final(authors)@) == views(old(authors)@)
                    &&& final(cache)@ == old(cache)@
                    &&& Self::asks_next(action, views(final(authors)@), final(cache)@.author_map, at as int)
                },
                AuthorEvent::Created(page_id) => {
                    let stored = AuthorView { page_id: page_id@, ..old(authors)@[at as int]@ };
                    &&& views(final(authors)@) == views(old(authors)@).update(at as int, stored)
                    &&& final(cache)@ == old(cache)@.with_author(author_entry(stored))
                    &&& Self::asks_next(
                        action,
                        views(final(authors)@),
                        final(cache)@.author_map,
                        at + 1,
                    )
                },
                AuthorEvent::CreateFailed(message) => {
                    &&& views(final(authors)@) == views(old(authors)@)
                    &&& final(cache)@ == old(cache)@
                    &&& action matches AuthorAction::Done(status)
                    &&& status@ == StatusView::Failure(
                        "Failed to add author to database: "@ + message@,
                    )
                },
            },
    {
        match event {
            AuthorEvent::Begin => self.ask_next(authors, cache, at),
            AuthorEvent::CreateFailed(message) => {
                AuthorAction::Done(failure("Failed to add author to database: ", message.as_str()))
            },
            AuthorEvent::Created(page_id) => {
                let count = authors.len();
                assert(at < count);
                let ghost before = views(authors@);
                let mut stored = authors[at].clone();
                stored.page_id = page_id;
                let entry = AuthorCache::from_author(&stored);
                let ghost stored_view = stored@;
                authors.set(at, stored);
                cache.add_author(entry);
                assert(views(authors@) =~= before.update(at as int, stored_view));
                self.ask_next(authors, cache, at + 1)
            },
        }
    }

    fn ask_next(&self, authors: &Vec<Author>, cache: &Cache, from: usize) -> (action: AuthorAction)
        requires
            from <= authors@.len(),
        ensures
            Self::asks_next(action, views(authors@), cache@.author_map, from as int),
    {
        let ghost people = views(authors@);
        let ghost index = cache@.author_map;
        let mut at = from;
        while at < authors.len()
            invariant
                from <= at <= authors.len(),
                people == views(authors@),
                index == cache@.author_map,
                next_unknown(people, index, at as int) == next_unknown(people, index, from as int),
            decreases authors.len() - at,
        {
            if !cache.is_exist_author(authors[at].ss_id.as_str()) {
                let properties = self.author_properties(&authors[at]);
                return AuthorAction::Create { at, properties };
            }
            at += 1;
        }
        AuthorAction::Done(StatusCode::Success)
    }

    /// Whether `action` is what storing the authors asks for next, when
    /// the list is taken up at `from`: the page of the first author whom
    /// the index does not know, or the end with success where it knows all.
    pub open spec fn asks_next(
        action: AuthorAction,
        authors: Seq<AuthorView>,
        index: Map<Seq<char>, Seq<char>>,
        from: int,
    ) -> bool {
        let next = next_unknown(authors, index, from);
        if next < authors.len() {
            &&& action matches AuthorAction::Create { at, properties }
            &&& at == next
            &&& views(properties@) == author_property_list(authors[next])
        } else {
            &&& action matches AuthorAction::Done(status)
            &&& status@ == StatusView::Success
        }
    }

    /// The content of the page of a publication.
    pub fn update_page_content(&self, paper: &Paper) -> (blocks: Vec<ContentBlock>)
        ensures
            views(blocks@) == page_blocks(paper@.summary),
    {
        let summary = &paper.summary;
        let mut blocks: Vec<ContentBlock> = Vec::new();
        blocks.push(make_block(BlockKind::Heading1, "Summary"));
        blocks.push(make_block(BlockKind::Heading2, "1. Overview"));
        blocks.push(make_block(BlockKind::Paragraph, summary.overview.as_str()));
        blocks.push(make_block(BlockKind::Heading2, "2. Research Question"));
        blocks.push(make_block(BlockKind::Paragraph, summary.research_question.as_str()));
        blocks.push(make_block(BlockKind::Heading2, "3. Task"));
        blocks.push(make_block(BlockKind::Paragraph, summary.task_category.as_str()));
        blocks.push(make_block(BlockKind::Heading2, "4. Comparison with Related Works"));
        blocks.push(
            make_block(BlockKind::Paragraph, summary.comparison_with_related_works.as_str()),
        );
        blocks.push(make_block(BlockKind::Heading2, "5. Methodology"));
        blocks.push(make_block(BlockKind::Paragraph, summary.proposed_method.as_str()));
        blocks.push(make_block(BlockKind::Heading2, "6. Datasets"));
        blocks.push(make_block(BlockKind::Paragraph, summary.datasets.as_str()));
        blocks.push(make_block(BlockKind::Heading2, "7. Experiments"));
        blocks.push(make_block(BlockKind::Paragraph, summary.experiments.as_str()));
        blocks.push(make_block(BlockKind::Heading2, "8. Analysis"));
        blocks.push(make_block(BlockKind::Paragraph, summary.analysis.as_str()));
        blocks.push(make_block(BlockKind::Heading2, "9. Contributions"));
        blocks.push(make_block(BlockKind::Paragraph, summary.contributions.as_str()));
        blocks.push(make_block(BlockKind::Heading2, "10. Future Works"));
        blocks.push(make_block(BlockKind::Paragraph, summary.future_works.as_str()));
        assert(views(blocks@) =~= page_blocks(paper@.summary));
        blocks
    }

    /// The name under which a publication is shown.
    pub fn display_name(&self, paper: &Paper) -> (name: String)
        requires
            paper@.authors.len() > 0,
        ensures
            name@ == display_key(paper@),
    {
        let mut name = paper.title.clone();
        push_text(&mut name, " (");
        push_text(&mut name, paper.authors[0].name.as_str());
        push_text(&mut name, ", ");
        let year = decimal_string(paper.publication_date.year as i64);
        push_text(&mut name, year.as_str());
        push_text(&mut name, ")");
        assert(name@ =~= display_key(paper@));
        name
    }

    /// The identifiers of the pages of a publication's authors, at most a hundred.
    pub fn author_ids(&self, paper: &Paper, cache: &Cache) -> (ids: Vec<String>)
        ensures
            views(ids@) == linked_author_ids(paper@.authors, cache@.author_map),
    {
        let mut ids: Vec<String> = Vec::new();
        let mut i: usize = 0;
        while i < paper.authors.len()
            invariant
                i <= paper.authors.len(),
                views(ids@) == known_ids(views(paper.authors@).take(i as int), cache@.author_map),
            decreases paper.authors.len() - i,
        {
            let ghost all = views(paper.authors@);
            let ghost before = views(ids@);
            assert(all.take(i + 1).drop_last() =~= all.take(i as int));
            assert(all.take(i + 1).last() == paper.authors@[i as int]@);
            match cache.get_author_id(paper.authors[i].ss_id.as_str()) {
                Some(id) => {
                    if !id.as_str().is_empty() {
                        let ghost text = id@;
                        ids.push(id);
                        assert(views(ids@) =~= before.push(text));
                    }
                },
                None => {},
            }
            i += 1;
        }
        assert(views(paper.authors@).take(paper.authors@.len() as int) =~= views(paper.authors@));
        if ids.len() > 100 {
            let ghost before = views(ids@);
            ids.truncate(100);
            assert(views(ids@) =~= before.take(100));
        }
        ids
    }

    /// The properties of the page of a publication. The publication must
    /// have an author, and the index must know the first one.
    pub fn paper_properties(&self, paper: &Paper, cache: &Cache) -> (properties: Vec<Property>)
        requires
            can_describe(paper@, cache@.author_map),
        ensures
            views(properties@) == paper_property_list(paper@, cache@.author_map),
    {
        let mut properties: Vec<Property> = Vec::new();
        properties.push(
            Property {
                name: "Name".to_owned(),
                value: PropertyValue::Title(self.display_name(paper)),
            },
        );
        properties.push(text_property("arXiv ID", paper.arxiv_id.as_str()));
        properties.push(text_property("SS ID", paper.ss_id.as_str()));
        properties.push(text_property("Title", paper.title.as_str()));
        properties.push(number_property("Year", paper.publication_date.year as i64));
        properties.push(text_property("Abstract", paper.abstract_text.as_str()));
        properties.push(select_property("PrimaryCategory", paper.arxiv_primary_category.as_str()));
        properties.push(select_property("Journal", paper.journal.as_str()));
        properties.push(select_property("Publisher", paper.publisher.as_str()));
        properties.push(
            Property { name: "URL".to_owned(), value: PropertyValue::Url(paper.url.clone()) },
        );
        properties.push(text_property("DOI", paper.doi.as_str()));
        properties.push(
            Property {
                name: "Status".to_owned(),
                value: PropertyValue::Status("Ready".to_owned()),
            },
        );
        properties.push(number_property("Citation Count", paper.citation_count as i64));
        properties.push(number_property("Reference Count", paper.reference_count as i64));
        properties.push(
            number_property("Influential Citation Count", paper.influential_citation_count as i64),
        );
        let ghost fixed = views(properties@);
        let ghost optional: Seq<PropertyView> = Seq::empty();
        if paper.keywords.len() > 0 {
            let mut names: Vec<String> = Vec::new();
            let mut i: usize = 0;
            while i < paper.keywords.len()
                invariant
                    i <= paper.keywords.len(),
                    names@.len() == i,
                    forall|k: int| 0 <= k < i ==> names@[k]@ == paper.keywords@[k].alias@,
                decreases paper.keywords.len() - i,
            {
                names.push(paper.keywords[i].alias.clone());
                i += 1;
            }
            assert(views(names@) =~= aliases(paper@.keywords));
            properties.push(list_property("Keywords", names));
            proof {
                optional = seq![named("Keywords"@, ValueView::MultiSelect(aliases(paper@.keywords)))];
            }
        }
        assert(views(properties@) =~= fixed + optional);
        properties.push(list_property("Domain", paper.summary.domain_as_vec()));
        let tasks = paper.summary.task_as_vec();
        if tasks.len() > 0 {
            properties.push(list_property("Task", tasks));
        }
        properties.push(text_property("Research Question", paper.summary.research_question.as_str()));
        properties.push(text_property("Methodology", paper.summary.proposed_method.as_str()));
        properties.push(text_property("Results", paper.summary.experiments.as_str()));
        properties.push(relation_property("Author IDs", self.author_ids(paper, cache)));
        let ghost middle = views(properties@);
        match cache.get_author_id(paper.authors[0].ss_id.as_str()) {
            Some(id) => {
                if !id.as_str().is_empty() {
                    let mut first: Vec<String> = Vec::new();
                    let ghost text = id@;
                    first.push(id);
                    assert(views(first@) =~= seq![text]);
                    properties.push(relation_property("First Author ID", first));
                }
            },
            None => {},
        }
        assert(views(properties@) =~= paper_property_list(paper@, cache@.author_map));
        properties
    }

    /// One step of storing a publication.
    ///
    /// A publication whose title is in the ledger is not stored again.
    /// Otherwise its page is created, the content is appended to the page,
    /// and the publication is entered in the ledger, which is then to be
    /// flushed. A page that could not be created or filled ends the work
    /// with a failure and without an entry.
    pub fn add_a_paper(&self, paper: &mut Paper, cache: &mut Cache, event: PaperEvent) -> (action:
        PaperAction)
        requires
            can_step(old(paper)@, old(cache)@, event),
        ensures
            paper_step(old(paper)@, old(cache)@, event, final(paper)@, final(cache)@, action),
    {
        match event {
            PaperEvent::Begin => {
                if cache.is_exist_paper(paper.title.as_str()) {
                    PaperAction::Done(StatusCode::PaperAlreadyExists)
                } else {
                    PaperAction::CreatePage(self.paper_properties(paper, cache))
                }
            },
            PaperEvent::Created(page_id) => {
                let target = page_id.clone();
                paper.page_id = page_id;
                let blocks = self.update_page_content(paper);
                PaperAction::AppendBlocks { page_id: target, blocks }
            },
            PaperEvent::CreateFailed(message) => {
                PaperAction::Done(failure("Failed to add paper to database: ", message.as_str()))
            },
            PaperEvent::Appended => {
                cache.add_paper(PaperCache::from_paper(paper, None));
                PaperAction::Done(StatusCode::Success)
            },
            PaperEvent::AppendFailed(message) => {
                let mut inner = "Failed to update page content: ".to_owned();
                push_text(&mut inner, message.as_str());
                PaperAction::Done(failure("Failed to update page content: ", inner.as_str()))
            },
        }
    }
    /// One step of storing a publication, where it can be taken: `None`,
    /// with the publication and the ledger as they were, where the page
    /// would have to be described and the publication has no author whom
    /// the index knows.
    pub fn try_add_a_paper(&self, paper: &mut Paper, cache: &mut Cache, event: PaperEvent) -> (step:
        Option<PaperAction>)
        ensures
            step is None <==> !can_step(old(paper)@, old(cache)@, event),
            step is None ==> final(paper)@ == old(paper)@ && final(cache)@ == old(cache)@,
            step matches Some(action) ==> paper_step(
                old(paper)@,
                old(cache)@,
                event,
                final(paper)@,
                final(cache)@,
                action,
            ),
    {
        let begins = match &event {
            PaperEvent::Begin => true,
            _ => false,
        };
        if begins && !cache.is_exist_paper(paper.title.as_str()) {
            if paper.authors.len() == 0 {
                return None;
            }
            if !cache.is_exist_author(paper.authors[0].ss_id.as_str()) {
                return None;
            }
        }
        Some(self.add_a_paper(paper, cache, event))
    }
}

} // verus!
