use arxiv_batch::common::{Author, Keyword, Paper, Section, StatusCode, Summary};
use arxiv_batch::sources::SsAuthor;
use arxiv_batch::utils::{default_datetime, Date};

fn texts_of(items: &[&str]) -> Vec<String> {
    items.iter().map(|s| s.to_string()).collect()
}

fn section(index: i16, title: &str, paragraphs: &[&str]) -> Section {
    Section { index, title: title.to_string(), contents: texts_of(paragraphs) }
}

fn named_author(name: &str) -> Author {
    let mut author = Author::default();
    author.name = name.to_string();
    author
}

fn keyword(alias: &str, score: i64) -> Keyword {
    Keyword { alias: alias.to_string(), score }
}

fn summary_with(task: &str, domain: &str) -> Summary {
    let mut summary = Summary::default();
    summary.task_as_words = task.to_string();
    summary.domain_as_words = domain.to_string();
    summary
}

#[test]
fn default_author_is_john_doe() {
    let author = Author::default();
    assert_eq!(author.name, "John Doe");
    assert_eq!(author.page_id, "");
    assert_eq!(author.ss_id, "");
    assert_eq!(author.url, "");
    assert!(author.affiliations.is_empty());
    assert_eq!((author.paper_count, author.citation_count, author.h_index), (0, 0, 0));
}

#[test]
fn author_from_a_full_source_record() {
    let source = SsAuthor {
        author_id: Some("1846258".to_string()),
        name: Some("Ashish Vaswani".to_string()),
        url: Some("https://example.org/author/1846258".to_string()),
        affiliations: Some(texts_of(&["Google Brain"])),
        paper_count: Some(12),
        citation_count: Some(3456),
        hindex: Some(7),
    };
    let author = Author::from_ss_author(&source);
    assert_eq!(author.page_id, "");
    assert_eq!(author.ss_id, "1846258");
    assert_eq!(author.name, "Ashish Vaswani");
    assert_eq!(author.url, "https://example.org/author/1846258");
    assert_eq!(author.affiliations, texts_of(&["Google Brain"]));
    assert_eq!((author.paper_count, author.citation_count, author.h_index), (12, 3456, 7));
}

#[test]
fn author_from_a_bare_source_record() {
    let source = SsAuthor {
        author_id: None,
        name: Some("N. Shazeer".to_string()),
        url: None,
        affiliations: None,
        paper_count: None,
        citation_count: None,
        hindex: None,
    };
    let author = Author::from_ss_author(&source);
    assert_eq!(author.ss_id, "");
    assert_eq!(author.name, "N. Shazeer");
    assert_eq!(author.url, "-");
    assert!(author.affiliations.is_empty());
    assert_eq!((author.paper_count, author.citation_count, author.h_index), (0, 0, 0));
}

#[test]
fn author_copy_keeps_every_field() {
    let mut author = named_author("A");
    author.ss_id = "1".to_string();
    author.page_id = "p".to_string();
    author.affiliations = texts_of(&["x", "y"]);
    author.h_index = 3;
    let copy = author.clone();
    assert_eq!(copy.name, "A");
    assert_eq!(copy.ss_id, "1");
    assert_eq!(copy.page_id, "p");
    assert_eq!(copy.affiliations, texts_of(&["x", "y"]));
    assert_eq!(copy.h_index, 3);
}

#[test]
fn tasks_separated_by_commas() {
    assert_eq!(summary_with("nlp,cv", "").task_as_vec(), texts_of(&["nlp", "cv"]));
    assert_eq!(summary_with("", "nlp,cv").domain_as_vec(), texts_of(&["nlp", "cv"]));
}

#[test]
fn tasks_separated_by_ideographic_commas() {
    assert_eq!(
        summary_with("機械翻訳、要約", "").task_as_vec(),
        texts_of(&["機械翻訳", "要約"])
    );
    assert_eq!(
        summary_with("", "医療、金融、法律").domain_as_vec(),
        texts_of(&["医療", "金融", "法律"])
    );
}

#[test]
fn a_list_without_delimiter_has_one_item() {
    assert_eq!(
        summary_with("machine translation", "").task_as_vec(),
        texts_of(&["machine translation"])
    );
    assert_eq!(summary_with("", "news").domain_as_vec(), texts_of(&["news"]));
    assert_eq!(summary_with("", "").task_as_vec(), texts_of(&[""]));
}

#[test]
fn a_list_is_split_at_either_kind_of_comma() {
    assert_eq!(summary_with("a,b、c", "").task_as_vec(), texts_of(&["a", "b", "c"]));
    assert_eq!(summary_with("a、b,c", "").task_as_vec(), texts_of(&["a", "b", "c"]));
    assert_eq!(
        summary_with("", "医療、金融,法律、教育").domain_as_vec(),
        texts_of(&["医療", "金融", "法律", "教育"])
    );
    assert_eq!(summary_with(",、", "").task_as_vec(), texts_of(&["", "", ""]));
}

#[test]
fn no_item_of_a_list_holds_a_comma() {
    for words in ["", "nlp", "nlp,cv", "a、b", "a,b、c", "、,、", "x, y 、z,"] {
        for item in summary_with(words, words).task_as_vec() {
            assert!(!item.contains(',') && !item.contains('、'));
        }
        for item in summary_with(words, words).domain_as_vec() {
            assert!(!item.contains(',') && !item.contains('、'));
        }
    }
}

#[test]
fn items_keep_their_blanks() {
    assert_eq!(summary_with("nlp, cv", "").task_as_vec(), texts_of(&["nlp", " cv"]));
}

#[test]
fn default_summary_is_empty() {
    let summary = Summary::default();
    assert!(!summary.is_survey);
    assert_eq!(summary.overview, "");
    assert_eq!(summary.future_works, "");
    let copy = summary_with("a", "b").clone();
    assert_eq!(copy.task_as_words, "a");
    assert_eq!(copy.domain_as_words, "b");
}

#[test]
fn default_paper_is_empty() {
    let paper = Paper::default();
    assert_eq!(paper.title, "");
    assert_eq!(paper.arxiv_id, "");
    assert_eq!(paper.ss_id, "");
    assert_eq!(paper.page_id, "");
    assert!(paper.authors.is_empty());
    assert_eq!(paper.publication_date, default_datetime());
    assert!(paper.citations.is_empty());
    assert!(paper.references.is_empty());
    assert!(paper.original_text.is_empty());
    assert!(paper.original_text_map.is_empty());
    assert!(paper.has_no_text());
    assert_eq!(paper.citation_count, 0);
}

#[test]
fn nested_record_of_a_reference() {
    let date = Date { year: 2014, month: 9, day: 1 };
    let paper = Paper::reference(
        "abc",
        "Neural Machine Translation",
        "An abstract.",
        vec![named_author("D. Bahdanau")],
        date,
    );
    assert_eq!(paper.ss_id, "abc");
    assert_eq!(paper.title, "Neural Machine Translation");
    assert_eq!(paper.abstract_text, "An abstract.");
    assert_eq!(paper.authors.len(), 1);
    assert_eq!(paper.authors[0].name, "D. Bahdanau");
    assert_eq!(paper.publication_date, date);
    assert_eq!(paper.arxiv_id, "");
    assert_eq!(paper.url, "");
    assert!(paper.citations.is_empty());
}

#[test]
fn sections_are_kept_and_indexed_by_title() {
    let mut paper = Paper::default();
    paper.get_original_text(vec![
        section(0, "Abstract", &["a"]),
        section(1, "Introduction", &["first", "second"]),
        section(2, "Method", &[]),
    ]);
    assert_eq!(paper.original_text.len(), 3);
    assert_eq!(paper.original_text[1].title, "Introduction");
    assert_eq!(paper.original_text_map.len(), 3);
    assert_eq!(paper.original_text_map.get("Introduction").unwrap().contents, texts_of(&["first", "second"]));
    assert_eq!(paper.original_text_map.get("Method").unwrap().index, 2);
    assert!(!paper.has_no_text());
}

#[test]
fn of_two_sections_with_one_title_the_later_is_indexed() {
    let mut paper = Paper::default();
    paper.get_original_text(vec![
        section(0, "Results", &["early"]),
        section(1, "Results", &["late"]),
    ]);
    assert_eq!(paper.original_text.len(), 2);
    assert_eq!(paper.original_text_map.len(), 1);
    assert_eq!(paper.original_text_map.get("Results").unwrap().contents, texts_of(&["late"]));
}

#[test]
fn new_sections_replace_the_old_ones() {
    let mut paper = Paper::default();
    paper.title = "T".to_string();
    paper.get_original_text(vec![section(0, "Old", &["x"])]);
    paper.get_original_text(vec![section(0, "New", &["y"])]);
    assert_eq!(paper.original_text.len(), 1);
    assert!(paper.original_text_map.get("Old").is_none());
    assert!(paper.original_text_map.get("New").is_some());
    assert_eq!(paper.title, "T");
}

#[test]
fn keyword_text_without_introduction() {
    let mut paper = Paper::default();
    paper.title = "A Title".to_string();
    paper.abstract_text = "An abstract.".to_string();
    assert_eq!(paper.keyword_text(), "A Title\n\nAn abstract.");
    paper.get_original_text(vec![section(0, "Method", &["m"])]);
    assert_eq!(paper.keyword_text(), "A Title\n\nAn abstract.");
}

#[test]
fn keyword_text_with_introduction() {
    let mut paper = Paper::default();
    paper.title = "A Title".to_string();
    paper.abstract_text = "An abstract.".to_string();
    paper.get_original_text(vec![
        section(0, "Introduction", &["First paragraph.", "Second paragraph."]),
        section(1, "Method", &["m"]),
    ]);
    assert_eq!(
        paper.keyword_text(),
        "A Title\n\nAn abstract.\n\nFirst paragraph.\nSecond paragraph."
    );
}

#[test]
fn keywords_above_five_are_kept() {
    let mut paper = Paper::default();
    paper.title = "T".to_string();
    paper.get_keywords(vec![
        keyword("transformer", 12),
        keyword("attention", 5),
        keyword("bleu", 6),
        keyword("noise", 0),
        keyword("negative", -3),
    ]);
    let kept: Vec<(String, i64)> =
        paper.keywords.iter().map(|k| (k.alias.clone(), k.score)).collect();
    assert_eq!(kept, vec![("transformer".to_string(), 12), ("bleu".to_string(), 6)]);
    assert_eq!(paper.title, "T");
}

#[test]
fn keywords_are_replaced_not_added() {
    let mut paper = Paper::default();
    paper.get_keywords(vec![keyword("a", 10)]);
    paper.get_keywords(vec![keyword("b", 10)]);
    assert_eq!(paper.keywords.len(), 1);
    assert_eq!(paper.keywords[0].alias, "b");
    paper.get_keywords(Vec::new());
    assert!(paper.keywords.is_empty());
}

#[test]
fn document_is_read_from_the_location_given_or_the_address() {
    let mut paper = Paper::default();
    paper.url = "https://arxiv.org/pdf/1706.03762".to_string();
    assert_eq!(paper.pdf_source(None), "https://arxiv.org/pdf/1706.03762");
    assert_eq!(paper.pdf_source(Some("local.pdf".to_string())), "local.pdf");
    let nameless = Paper::default();
    assert_eq!(nameless.pdf_source(Some("local.pdf".to_string())), "local.pdf");
}

#[test]
fn document_as_tagged_text() {
    let mut paper = Paper::default();
    paper.title = "Attention Is All You Need".to_string();
    paper.authors = vec![named_author("A. Vaswani"), named_author("N. Shazeer")];
    paper.get_original_text(vec![
        section(1, "Introduction", &["Recurrent models.", "In this work."]),
        section(0, "Abstract", &["The dominant models."]),
        section(2, "Conclusion", &[]),
    ]);
    assert_eq!(
        paper.original_text2xml(),
        "<paper><metadata><title>Attention Is All You Need</title>\
         <authors><author>A. Vaswani</author><author>N. Shazeer</author></authors></metadata>\
         <contents>\
         <section><title>Abstract</title><paragraph>The dominant models.</paragraph></section>\
         <section><title>Introduction</title><paragraph>Recurrent models.</paragraph>\
         <paragraph>In this work.</paragraph></section>\
         <section><title>Conclusion</title></section>\
         </contents></paper"
    );
}

#[test]
fn document_without_sections_as_tagged_text() {
    let paper = Paper::default();
    assert_eq!(
        paper.original_text2xml(),
        "<paper><metadata><title></title><authors></authors></metadata><contents></contents></paper"
    );
}

#[test]
fn many_sections_come_in_the_order_of_their_index() {
    let mut paper = Paper::default();
    let mut sections = Vec::new();
    for i in (0..40i16).rev() {
        sections.push(section(i, &format!("S{}", i), &[]));
    }
    paper.get_original_text(sections);
    let mut expected = String::from(
        "<paper><metadata><title></title><authors></authors></metadata><contents>",
    );
    for i in 0..40 {
        expected.push_str(&format!("<section><title>S{}</title></section>", i));
    }
    expected.push_str("</contents></paper");
    assert_eq!(paper.original_text2xml(), expected);
}

#[test]
fn references_as_tagged_text() {
    let mut paper = Paper::default();
    paper.references = vec![
        Paper::reference(
            "r1",
            "Sequence to Sequence Learning",
            "Deep networks.",
            vec![named_author("I. Sutskever"), named_author("O. Vinyals")],
            Date { year: 2014, month: 9, day: 10 },
        ),
        Paper::reference("r2", "Untitled", "", Vec::new(), default_datetime()),
    ];
    assert_eq!(
        paper.references2xml(),
        "<references>\
         <reference><title>Sequence to Sequence Learning<title>\
         <authors><author>I. Sutskever</author><author>O. Vinyals</author></authors>\
         <year>2014</year><abstract>Deep networks.</abstract></reference>\
         <reference><title>Untitled<title><authors></authors>\
         <year>1970</year><abstract></abstract></reference>\
         </references>"
    );
    assert_eq!(paper.citations2xml(), "<citations></citations>");
}

#[test]
fn citations_as_tagged_text() {
    let mut paper = Paper::default();
    paper.citations = vec![Paper::reference(
        "c1",
        "BERT",
        "Bidirectional.",
        vec![named_author("J. Devlin")],
        Date { year: 2018, month: 10, day: 11 },
    )];
    assert_eq!(
        paper.citations2xml(),
        "<citations><citation><title>BERT<title><authors><author>J. Devlin</author></authors>\
         <year>2018</year><abstract>Bidirectional.</abstract></citation></citations>"
    );
    assert_eq!(paper.references2xml(), "<references></references>");
}

#[test]
fn status_codes_carry_the_message_of_a_failure() {
    let status = StatusCode::Failure("no connection".to_string());
    assert!(matches!(status, StatusCode::Failure(ref m) if m == "no connection"));
    assert!(matches!(StatusCode::Success, StatusCode::Success));
    assert!(matches!(StatusCode::PaperAlreadyExists, StatusCode::PaperAlreadyExists));
}

#[test]
fn a_copy_of_a_paper_holds_the_same() {
    let mut paper = Paper::default();
    paper.title = "Attention Is All You Need".to_string();
    paper.arxiv_id = "1706.03762".to_string();
    paper.authors = vec![named_author("A. Vaswani")];
    paper.publication_date = Date { year: 2017, month: 6, day: 12 };
    paper.citation_count = 7;
    paper.arxiv_categories = texts_of(&["cs.CL"]);
    paper.get_keywords(vec![keyword("attention", 9)]);
    paper.get_original_text(vec![section(0, "Introduction", &["one", "two"])]);
    paper.summary.overview = "An overview.".to_string();
    let mut nested = Paper::reference("r", "Nested", "", vec![named_author("B")], default_datetime());
    nested.references = vec![Paper::reference("rr", "Deeper", "", Vec::new(), default_datetime())];
    paper.references = vec![nested];
    paper.citations = vec![Paper::reference("c", "Citing", "", Vec::new(), default_datetime())];

    let copy = paper.clone();
    paper.title = "changed afterwards".to_string();

    assert_eq!(copy.title, "Attention Is All You Need");
    assert_eq!(copy.arxiv_id, "1706.03762");
    assert_eq!(copy.authors[0].name, "A. Vaswani");
    assert_eq!(copy.publication_date, Date { year: 2017, month: 6, day: 12 });
    assert_eq!(copy.citation_count, 7);
    assert_eq!(copy.arxiv_categories, texts_of(&["cs.CL"]));
    assert_eq!(copy.keywords[0].alias, "attention");
    assert_eq!(copy.original_text[0].contents, texts_of(&["one", "two"]));
    assert_eq!(copy.original_text_map.get("Introduction").unwrap().index, 0);
    assert_eq!(copy.summary.overview, "An overview.");
    assert_eq!(copy.references[0].title, "Nested");
    assert_eq!(copy.references[0].authors[0].name, "B");
    assert_eq!(copy.references[0].references[0].title, "Deeper");
    assert_eq!(copy.citations[0].ss_id, "c");
    assert_eq!(copy.original_text2xml(), {
        paper.title = "Attention Is All You Need".to_string();
        paper.original_text2xml()
    });
}
