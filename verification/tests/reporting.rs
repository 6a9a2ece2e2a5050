use arxiv_batch::cache::{AuthorCache, Cache, PaperCache};
use arxiv_batch::common::{Author, Keyword, Paper, StatusCode, Summary};
use arxiv_batch::reporter::{
    AuthorAction, AuthorEvent, BlockKind, PaperAction, PaperEvent, Property, PropertyValue,
    Reporter,
};
use arxiv_batch::utils::Date;

fn author_with(name: &str, ss_id: &str) -> Author {
    let mut author = Author::default();
    author.name = name.to_string();
    author.ss_id = ss_id.to_string();
    author
}

fn known(cache: &mut Cache, ss_id: &str, page_id: &str) {
    cache.add_author(AuthorCache {
        name: String::new(),
        ss_id: ss_id.to_string(),
        page_id: page_id.to_string(),
    });
}

fn shown(properties: &Vec<Property>) -> Vec<(String, String)> {
    properties
        .iter()
        .map(|p| {
            let value = match &p.value {
                PropertyValue::Title(text) => format!("title:{}", text),
                PropertyValue::RichText(text) => format!("text:{}", text),
                PropertyValue::Number(n) => format!("number:{}", n),
                PropertyValue::Select(text) => format!("select:{}", text),
                PropertyValue::MultiSelect(items) => format!("multi:{}", items.join("|")),
                PropertyValue::Url(text) => format!("url:{}", text),
                PropertyValue::Status(text) => format!("status:{}", text),
                PropertyValue::Relation(ids) => format!("relation:{}", ids.join("|")),
            };
            (p.name.clone(), value)
        })
        .collect()
}

fn expect(items: &[(&str, &str)]) -> Vec<(String, String)> {
    items.iter().map(|(n, v)| (n.to_string(), v.to_string())).collect()
}

fn summarised_paper() -> Paper {
    let mut paper = Paper::default();
    paper.title = "Attention Is All You Need".to_string();
    paper.arxiv_id = "1706.03762".to_string();
    paper.ss_id = "204e".to_string();
    paper.abstract_text = "The dominant models.".to_string();
    paper.arxiv_primary_category = "cs.CL".to_string();
    paper.journal = "arXiv".to_string();
    paper.publisher = "arXiv".to_string();
    paper.url = "https://arxiv.org/pdf/1706.03762".to_string();
    paper.doi = "10.48550/arXiv.1706.03762".to_string();
    paper.publication_date = Date { year: 2017, month: 6, day: 12 };
    paper.citation_count = 100;
    paper.reference_count = 41;
    paper.influential_citation_count = 9;
    paper.authors = vec![author_with("Ashish Vaswani", "1"), author_with("Noam Shazeer", "2")];
    let mut summary = Summary::default();
    summary.overview = "An overview.".to_string();
    summary.research_question = "A question.".to_string();
    summary.task_category = "Translation.".to_string();
    summary.task_as_words = "translation,parsing".to_string();
    summary.domain_as_words = "news".to_string();
    summary.comparison_with_related_works = "Compared.".to_string();
    summary.proposed_method = "A method.".to_string();
    summary.datasets = "WMT 2014".to_string();
    summary.experiments = "Experiments.".to_string();
    summary.analysis = "Analysis.".to_string();
    summary.contributions = "Contributions.".to_string();
    summary.future_works = "Future.".to_string();
    paper.summary = summary;
    paper
}

#[test]
fn properties_of_an_author_page() {
    let reporter = Reporter::new();
    let mut author = author_with("Ashish Vaswani", "1846258");
    author.url = "https://example.org/a".to_string();
    author.affiliations = vec!["Google Brain".to_string(), "USC".to_string()];
    author.citation_count = 3456;
    author.paper_count = 12;
    author.h_index = 7;
    assert_eq!(
        shown(&reporter.author_properties(&author)),
        expect(&[
            ("SS ID", "title:1846258"),
            ("Name", "text:Ashish Vaswani"),
            ("Affiliations", "multi:Google Brain|USC"),
            ("Citation Count", "number:3456"),
            ("Paper Count", "number:12"),
            ("h-Index", "number:7"),
            ("URL", "url:https://example.org/a"),
        ])
    );
}

#[test]
fn first_page_found_gives_the_identifier() {
    let reporter = Reporter::new();
    assert_eq!(reporter.get_an_author_notion_id(&Vec::new()), None);
    assert_eq!(
        reporter.get_an_author_notion_id(&vec!["page-1".to_string(), "page-2".to_string()]),
        Some("page-1".to_string())
    );
}

#[test]
fn authors_are_stored_one_by_one() {
    let reporter = Reporter::new();
    let mut cache = Cache::new(String::new());
    known(&mut cache, "2", "page-known");
    let mut authors =
        vec![author_with("A", "1"), author_with("B", "2"), author_with("C", "3")];
    let action = reporter.add_authors(&mut authors, &mut cache, 0, AuthorEvent::Begin);
    let at = match action {
        AuthorAction::Create { at, properties } => {
            assert_eq!(shown(&properties)[0], ("SS ID".to_string(), "title:1".to_string()));
            at
        }
        other => panic!("unexpected action: {:?}", other),
    };
    assert_eq!(at, 0);
    assert_eq!(cache.authors.len(), 1);
    let action =
        reporter.add_authors(&mut authors, &mut cache, at, AuthorEvent::Created("page-1".to_string()));
    assert_eq!(authors[0].page_id, "page-1");
    assert_eq!(authors[0].name, "A");
    assert_eq!(cache.get_author_id("1"), Some("page-1".to_string()));
    assert_eq!(cache.authors.len(), 2);
    assert_eq!(cache.authors[1].name, "A");
    // the second author is known and passed over
    let at = match action {
        AuthorAction::Create { at, properties } => {
            assert_eq!(shown(&properties)[1], ("Name".to_string(), "text:C".to_string()));
            at
        }
        other => panic!("unexpected action: {:?}", other),
    };
    assert_eq!(at, 2);
    let action =
        reporter.add_authors(&mut authors, &mut cache, at, AuthorEvent::Created("page-3".to_string()));
    assert!(matches!(action, AuthorAction::Done(StatusCode::Success)));
    assert_eq!(authors[1].page_id, "");
    assert_eq!(authors[2].page_id, "page-3");
    assert_eq!(cache.authors.len(), 3);
    assert_eq!(cache.get_author_id("3"), Some("page-3".to_string()));
    assert_eq!(cache.get_author_id("2"), Some("page-known".to_string()));
}

#[test]
fn an_author_named_twice_is_stored_once() {
    let reporter = Reporter::new();
    let mut cache = Cache::new(String::new());
    let mut authors = vec![author_with("A", "1"), author_with("A", "1")];
    let action = reporter.add_authors(&mut authors, &mut cache, 0, AuthorEvent::Begin);
    assert!(matches!(action, AuthorAction::Create { at: 0, .. }));
    let action =
        reporter.add_authors(&mut authors, &mut cache, 0, AuthorEvent::Created("page-1".to_string()));
    assert!(matches!(action, AuthorAction::Done(StatusCode::Success)));
    assert_eq!(cache.authors.len(), 1);
}

#[test]
fn known_authors_need_no_page() {
    let reporter = Reporter::new();
    let mut cache = Cache::new(String::new());
    known(&mut cache, "1", "page-1");
    let mut authors = vec![author_with("A", "1")];
    let action = reporter.add_authors(&mut authors, &mut cache, 0, AuthorEvent::Begin);
    assert!(matches!(action, AuthorAction::Done(StatusCode::Success)));
    let mut nobody: Vec<Author> = Vec::new();
    let action = reporter.add_authors(&mut nobody, &mut cache, 0, AuthorEvent::Begin);
    assert!(matches!(action, AuthorAction::Done(StatusCode::Success)));
    assert_eq!(cache.authors.len(), 1);
}

#[test]
fn a_page_that_cannot_be_created_ends_the_storing_of_authors() {
    let reporter = Reporter::new();
    let mut cache = Cache::new(String::new());
    let mut authors = vec![author_with("A", "1"), author_with("B", "2")];
    let action = reporter.add_authors(
        &mut authors,
        &mut cache,
        0,
        AuthorEvent::CreateFailed("timeout".to_string()),
    );
    match action {
        AuthorAction::Done(StatusCode::Failure(message)) => {
            assert_eq!(message, "Failed to add author to database: timeout")
        }
        other => panic!("unexpected action: {:?}", other),
    }
    assert!(cache.authors.is_empty());
    assert_eq!(authors[0].page_id, "");
}

#[test]
fn content_of_a_paper_page() {
    let reporter = Reporter::new();
    let paper = summarised_paper();
    let blocks = reporter.update_page_content(&paper);
    let listed: Vec<(BlockKind, &str)> =
        blocks.iter().map(|b| (b.kind, b.text.as_str())).collect();
    assert_eq!(
        listed,
        vec![
            (BlockKind::Heading1, "Summary"),
            (BlockKind::Heading2, "1. Overview"),
            (BlockKind::Paragraph, "An overview."),
            (BlockKind::Heading2, "2. Research Question"),
            (BlockKind::Paragraph, "A question."),
            (BlockKind::Heading2, "3. Task"),
            (BlockKind::Paragraph, "Translation."),
            (BlockKind::Heading2, "4. Comparison with Related Works"),
            (BlockKind::Paragraph, "Compared."),
            (BlockKind::Heading2, "5. Methodology"),
            (BlockKind::Paragraph, "A method."),
            (BlockKind::Heading2, "6. Datasets"),
            (BlockKind::Paragraph, "WMT 2014"),
            (BlockKind::Heading2, "7. Experiments"),
            (BlockKind::Paragraph, "Experiments."),
            (BlockKind::Heading2, "8. Analysis"),
            (BlockKind::Paragraph, "Analysis."),
            (BlockKind::Heading2, "9. Contributions"),
            (BlockKind::Paragraph, "Contributions."),
            (BlockKind::Heading2, "10. Future Works"),
            (BlockKind::Paragraph, "Future."),
        ]
    );
}

#[test]
fn a_paper_is_shown_by_title_first_author_and_year() {
    let reporter = Reporter::new();
    let paper = summarised_paper();
    assert_eq!(reporter.display_name(&paper), "Attention Is All You Need (Ashish Vaswani, 2017)");
    let mut old = summarised_paper();
    old.publication_date = Date { year: -44, month: 3, day: 15 };
    assert_eq!(reporter.display_name(&old), "Attention Is All You Need (Ashish Vaswani, -44)");
}

#[test]
fn properties_of_a_paper_page() {
    let reporter = Reporter::new();
    let mut cache = Cache::new(String::new());
    known(&mut cache, "1", "page-1");
    known(&mut cache, "2", "page-2");
    let mut paper = summarised_paper();
    paper.keywords = vec![
        Keyword { alias: "Transformer".to_string(), score: 12 },
        Keyword { alias: "Attention".to_string(), score: 9 },
    ];
    assert_eq!(
        shown(&reporter.paper_properties(&paper, &cache)),
        expect(&[
            ("Name", "title:Attention Is All You Need (Ashish Vaswani, 2017)"),
            ("arXiv ID", "text:1706.03762"),
            ("SS ID", "text:204e"),
            ("Title", "text:Attention Is All You Need"),
            ("Year", "number:2017"),
            ("Abstract", "text:The dominant models."),
            ("PrimaryCategory", "select:cs.CL"),
            ("Journal", "select:arXiv"),
            ("Publisher", "select:arXiv"),
            ("URL", "url:https://arxiv.org/pdf/1706.03762"),
            ("DOI", "text:10.48550/arXiv.1706.03762"),
            ("Status", "status:Ready"),
            ("Citation Count", "number:100"),
            ("Reference Count", "number:41"),
            ("Influential Citation Count", "number:9"),
            ("Keywords", "multi:Transformer|Attention"),
            ("Domain", "multi:news"),
            ("Task", "multi:translation|parsing"),
            ("Research Question", "text:A question."),
            ("Methodology", "text:A method."),
            ("Results", "text:Experiments."),
            ("Author IDs", "relation:page-1|page-2"),
            ("First Author ID", "relation:page-1"),
        ])
    );
}

#[test]
fn optional_properties_of_a_paper_page() {
    let reporter = Reporter::new();
    let mut cache = Cache::new(String::new());
    // the first author is known, but has no page yet; the second is unknown
    known(&mut cache, "1", "");
    let paper = summarised_paper();
    let properties = shown(&reporter.paper_properties(&paper, &cache));
    let names: Vec<&str> = properties.iter().map(|p| p.0.as_str()).collect();
    assert!(!names.contains(&"Keywords"));
    assert!(!names.contains(&"First Author ID"));
    assert_eq!(properties.len(), 21);
    assert_eq!(properties[20], ("Author IDs".to_string(), "relation:".to_string()));
}

#[test]
fn at_most_a_hundred_authors_are_linked() {
    let reporter = Reporter::new();
    let mut cache = Cache::new(String::new());
    let mut paper = summarised_paper();
    paper.authors = Vec::new();
    for i in 0..150 {
        paper.authors.push(author_with(&format!("Author {}", i), &format!("{}", i)));
        if i % 10 != 3 {
            known(&mut cache, &format!("{}", i), &format!("page-{}", i));
        }
    }
    let ids = reporter.author_ids(&paper, &cache);
    assert_eq!(ids.len(), 100);
    assert_eq!(ids[0], "page-0");
    assert_eq!(ids[3], "page-4");
    // 100 known authors among the first 111
    assert_eq!(ids[99], "page-110");
    paper.authors.truncate(50);
    let ids = reporter.author_ids(&paper, &cache);
    assert_eq!(ids.len(), 45);
    assert_eq!(ids[44], "page-49");
}

#[test]
fn a_paper_is_stored_in_three_steps() {
    let reporter = Reporter::new();
    let mut cache = Cache::new(String::new());
    known(&mut cache, "1", "page-1");
    let mut paper = summarised_paper();
    let action = reporter.add_a_paper(&mut paper, &mut cache, PaperEvent::Begin);
    match action {
        PaperAction::CreatePage(properties) => {
            assert_eq!(shown(&properties), shown(&reporter.paper_properties(&paper, &cache)))
        }
        other => panic!("unexpected action: {:?}", other),
    }
    assert!(cache.papers.is_empty());
    let action =
        reporter.add_a_paper(&mut paper, &mut cache, PaperEvent::Created("page-9".to_string()));
    assert_eq!(paper.page_id, "page-9");
    match action {
        PaperAction::AppendBlocks { page_id, blocks } => {
            assert_eq!(page_id, "page-9");
            assert_eq!(blocks.len(), 21);
            assert_eq!(blocks[2].text, "An overview.");
        }
        other => panic!("unexpected action: {:?}", other),
    }
    assert!(cache.papers.is_empty());
    let action = reporter.add_a_paper(&mut paper, &mut cache, PaperEvent::Appended);
    assert!(matches!(action, PaperAction::Done(StatusCode::Success)));
    assert_eq!(cache.papers.len(), 1);
    assert_eq!(cache.papers[0].title, "Attention Is All You Need");
    assert_eq!(cache.papers[0].page_id, "page-9");
    assert_eq!(cache.papers[0].ss_id, "204e");
    assert_eq!(cache.papers[0].arxiv_id, "1706.03762");
    assert_eq!(cache.papers[0].failed_reason, "");
    assert!(cache.is_exist_paper("attention is all you need"));
}

#[test]
fn a_paper_in_the_ledger_is_not_stored_again() {
    let reporter = Reporter::new();
    let mut cache = Cache::new(String::new());
    cache.add_paper(PaperCache::from_paper(&summarised_paper(), None));
    // neither an author nor an entry in the index is needed to find this out
    let mut paper = Paper::default();
    paper.title = "ATTENTION IS ALL YOU NEED".to_string();
    let action = reporter.add_a_paper(&mut paper, &mut cache, PaperEvent::Begin);
    assert!(matches!(action, PaperAction::Done(StatusCode::PaperAlreadyExists)));
    assert_eq!(cache.papers.len(), 1);
    assert_eq!(paper.page_id, "");
}

#[test]
fn failures_of_the_store_end_the_storing_of_a_paper() {
    let reporter = Reporter::new();
    let mut cache = Cache::new(String::new());
    let mut paper = summarised_paper();
    let action = reporter.add_a_paper(
        &mut paper,
        &mut cache,
        PaperEvent::CreateFailed("no connection".to_string()),
    );
    match action {
        PaperAction::Done(StatusCode::Failure(message)) => {
            assert_eq!(message, "Failed to add paper to database: no connection")
        }
        other => panic!("unexpected action: {:?}", other),
    }
    let action = reporter.add_a_paper(
        &mut paper,
        &mut cache,
        PaperEvent::AppendFailed("no connection".to_string()),
    );
    match action {
        PaperAction::Done(StatusCode::Failure(message)) => assert_eq!(
            message,
            "Failed to update page content: Failed to update page content: no connection"
        ),
        other => panic!("unexpected action: {:?}", other),
    }
    assert!(cache.papers.is_empty());
    assert_eq!(paper.page_id, "");
}

#[test]
fn a_paper_without_a_known_first_author_cannot_be_described() {
    let reporter = Reporter::new();
    let mut cache = Cache::new(String::new());
    let mut paper = summarised_paper();
    // the first author is not in the index
    known(&mut cache, "2", "page-2");
    assert!(reporter.try_add_a_paper(&mut paper, &mut cache, PaperEvent::Begin).is_none());
    let mut nobody = summarised_paper();
    nobody.authors = Vec::new();
    assert!(reporter.try_add_a_paper(&mut nobody, &mut cache, PaperEvent::Begin).is_none());
    assert!(cache.papers.is_empty());
    known(&mut cache, "1", "page-1");
    assert!(matches!(
        reporter.try_add_a_paper(&mut paper, &mut cache, PaperEvent::Begin),
        Some(PaperAction::CreatePage(_))
    ));
    // every later step can be taken
    assert!(matches!(
        reporter.try_add_a_paper(&mut nobody, &mut cache, PaperEvent::Created("p".to_string())),
        Some(PaperAction::AppendBlocks { .. })
    ));
    assert!(matches!(
        reporter.try_add_a_paper(&mut nobody, &mut cache, PaperEvent::Appended),
        Some(PaperAction::Done(StatusCode::Success))
    ));
    // and a known title needs no author
    let mut again = Paper::default();
    again.title = nobody.title.clone();
    assert!(matches!(
        reporter.try_add_a_paper(&mut again, &mut cache, PaperEvent::Begin),
        Some(PaperAction::Done(StatusCode::PaperAlreadyExists))
    ));
}
