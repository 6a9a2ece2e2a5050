use arxiv_batch::cache::{AuthorCache, Cache, PaperCache};
use arxiv_batch::common::{Author, Paper};
use arxiv_batch::persist::{FileOutcome, PersistAction, PersistFailure, PersistStage};
use arxiv_batch::rebuild::{BuildPhase, QueryPage, StoredRow};

fn paper_entry_of(title: &str) -> PaperCache {
    PaperCache {
        title: title.to_string(),
        arxiv_id: String::new(),
        ss_id: format!("ss-{}", title.len()),
        page_id: format!("page-{}", title.len()),
        failed_reason: String::new(),
    }
}

fn author_entry_of(name: &str, ss_id: &str, page_id: &str) -> AuthorCache {
    AuthorCache { name: name.to_string(), ss_id: ss_id.to_string(), page_id: page_id.to_string() }
}

fn row(label: &str, ss_id: &str, page_id: &str) -> StoredRow {
    StoredRow { label: label.to_string(), ss_id: ss_id.to_string(), page_id: page_id.to_string() }
}

fn page(rows: Vec<StoredRow>, has_more: Option<bool>, next_cursor: Option<&str>) -> QueryPage {
    QueryPage { rows, has_more, next_cursor: next_cursor.map(|c| c.to_string()) }
}

fn run_persist(outcomes: &[FileOutcome]) -> (Vec<PersistAction>, PersistStage) {
    let mut stage = PersistStage::begin();
    let mut actions = vec![stage.action()];
    for outcome in outcomes {
        stage = stage.advance(*outcome);
        actions.push(stage.action());
    }
    (actions, stage)
}

#[test]
fn new_ledger_is_empty() {
    let cache = Cache::new(".cache/cache.json".to_string());
    assert_eq!(cache.path, ".cache/cache.json");
    assert!(cache.papers.is_empty());
    assert!(cache.failed_papers.is_empty());
    assert!(cache.authors.is_empty());
    assert!(cache.author_map.is_empty());
    assert!(!cache.is_exist_paper("Attention Is All You Need"));
    assert!(!cache.is_exist_paper(""));
    assert!(!cache.is_exist_author("1"));
    assert_eq!(cache.get_author_id("1"), None);
}

#[test]
fn entry_of_a_paper() {
    let mut paper = Paper::default();
    paper.title = "Attention Is All You Need".to_string();
    paper.arxiv_id = "1706.03762".to_string();
    paper.ss_id = "204e".to_string();
    paper.page_id = "page-1".to_string();
    let entry = PaperCache::from_paper(&paper, None);
    assert_eq!(entry.title, "Attention Is All You Need");
    assert_eq!(entry.arxiv_id, "1706.03762");
    assert_eq!(entry.ss_id, "204e");
    assert_eq!(entry.page_id, "page-1");
    assert_eq!(entry.failed_reason, "");
    let failed = PaperCache::from_paper(&paper, Some("The paper is too short".to_string()));
    assert_eq!(failed.title, "Attention Is All You Need");
    assert_eq!(failed.failed_reason, "The paper is too short");
    let copy = failed.clone();
    assert_eq!(copy.failed_reason, "The paper is too short");
    assert_eq!(copy.ss_id, "204e");
}

#[test]
fn entry_of_an_author() {
    let mut author = Author::default();
    author.name = "Ashish Vaswani".to_string();
    author.ss_id = "1846258".to_string();
    author.page_id = "page-7".to_string();
    author.url = "https://example.org".to_string();
    let entry = AuthorCache::from_author(&author);
    assert_eq!(entry.name, "Ashish Vaswani");
    assert_eq!(entry.ss_id, "1846258");
    assert_eq!(entry.page_id, "page-7");
    let copy = entry.clone();
    assert_eq!((copy.name, copy.ss_id, copy.page_id), (entry.name, entry.ss_id, entry.page_id));
}

#[test]
fn a_paper_is_found_by_its_title_in_any_case() {
    let mut cache = Cache::new(String::new());
    cache.add_paper(paper_entry_of("Attention Is All You Need"));
    assert!(cache.is_exist_paper("Attention Is All You Need"));
    assert!(cache.is_exist_paper("attention is all you need"));
    assert!(cache.is_exist_paper("ATTENTION IS ALL YOU NEED"));
    assert!(!cache.is_exist_paper("Attention Is All You Need "));
    assert!(!cache.is_exist_paper("Attention Is All You Need In Speech Separation"));
    assert!(!cache.is_exist_paper(""));
}

#[test]
fn asking_twice_gives_the_same_answer() {
    let mut cache = Cache::new(String::new());
    assert!(!cache.is_exist_paper("A Title"));
    assert!(!cache.is_exist_paper("A Title"));
    cache.add_paper(paper_entry_of("A Title"));
    assert!(cache.is_exist_paper("A Title"));
    assert!(cache.is_exist_paper("A Title"));
    cache.add_paper(paper_entry_of("Another Title"));
    assert!(cache.is_exist_paper("A Title"));
    assert!(cache.is_exist_paper("another title"));
    assert_eq!(cache.papers.len(), 2);
}

#[test]
fn failed_papers_do_not_count_as_known() {
    let mut cache = Cache::new(String::new());
    cache.add_failed_paper(paper_entry_of("A Failed Title"));
    assert_eq!(cache.failed_papers.len(), 1);
    assert!(cache.papers.is_empty());
    assert!(!cache.is_exist_paper("A Failed Title"));
}

#[test]
fn an_author_is_indexed_when_added() {
    let mut cache = Cache::new(String::new());
    cache.add_author(author_entry_of("A", "1", "page-a"));
    cache.add_author(author_entry_of("B", "2", "page-b"));
    assert_eq!(cache.authors.len(), 2);
    assert!(cache.is_exist_author("1"));
    assert!(cache.is_exist_author("2"));
    assert!(!cache.is_exist_author("3"));
    assert!(!cache.is_exist_author("A"));
    assert_eq!(cache.get_author_id("1"), Some("page-a".to_string()));
    assert_eq!(cache.get_author_id("2"), Some("page-b".to_string()));
    assert_eq!(cache.get_author_id("3"), None);
    assert_eq!(cache.author_map.len(), 2);
}

#[test]
fn of_two_authors_with_one_identifier_the_later_is_indexed() {
    let mut cache = Cache::new(String::new());
    cache.add_author(author_entry_of("A", "1", "page-old"));
    cache.add_author(author_entry_of("A again", "1", "page-new"));
    assert_eq!(cache.authors.len(), 2);
    assert_eq!(cache.author_map.len(), 1);
    assert_eq!(cache.get_author_id("1"), Some("page-new".to_string()));
}

#[test]
fn the_index_is_made_anew_from_the_authors() {
    let mut index = fxhash::FxHashMap::default();
    index.insert("stale".to_string(), "page-x".to_string());
    let mut cache = Cache::from_parts(
        "cache.json".to_string(),
        vec![paper_entry_of("A Title")],
        Vec::new(),
        vec![
            author_entry_of("A", "1", "page-a"),
            author_entry_of("B", "2", "page-b"),
            author_entry_of("A", "1", "page-c"),
        ],
        index,
    );
    assert!(cache.is_exist_author("stale"));
    assert!(!cache.is_exist_author("1"));
    assert!(cache.is_exist_paper("a title"));
    cache.rebuild_author_map();
    assert!(!cache.is_exist_author("stale"));
    assert_eq!(cache.get_author_id("1"), Some("page-c".to_string()));
    assert_eq!(cache.get_author_id("2"), Some("page-b".to_string()));
    assert_eq!(cache.authors.len(), 3);
    assert_eq!(cache.papers.len(), 1);
    assert_eq!(cache.path, "cache.json");
}

#[test]
fn a_ledger_is_made_from_the_pages_of_the_store() {
    let mut builder = Cache::build("dir/cache.json".to_string());
    assert_eq!(builder.phase(), BuildPhase::Papers);
    assert_eq!(builder.cursor(), "");
    builder.on_page(page(
        vec![row("First Paper", "ss-1", "page-1"), row("Second Paper", "ss-2", "page-2")],
        Some(true),
        Some("cursor-1"),
    ));
    assert_eq!(builder.phase(), BuildPhase::Papers);
    assert_eq!(builder.cursor(), "cursor-1");
    builder.on_page(page(vec![row("Third Paper", "ss-3", "page-3")], Some(false), None));
    assert_eq!(builder.phase(), BuildPhase::Authors);
    assert_eq!(builder.cursor(), "");
    builder.on_page(page(vec![row("A", "1", "page-a")], Some(true), Some("cursor-2")));
    assert_eq!(builder.phase(), BuildPhase::Authors);
    assert_eq!(builder.cursor(), "cursor-2");
    builder.on_page(page(vec![row("B", "2", "page-b")], None, Some("ignored")));
    assert_eq!(builder.phase(), BuildPhase::Done);
    assert_eq!(builder.cursor(), "");
    builder.on_page(page(vec![row("late", "9", "page-9")], Some(true), Some("x")));
    assert_eq!(builder.phase(), BuildPhase::Done);
    let cache = builder.finish();
    assert_eq!(cache.path, "dir/cache.json");
    let titles: Vec<&str> = cache.papers.iter().map(|p| p.title.as_str()).collect();
    assert_eq!(titles, vec!["First Paper", "Second Paper", "Third Paper"]);
    assert_eq!(cache.papers[1].ss_id, "ss-2");
    assert_eq!(cache.papers[1].page_id, "page-2");
    assert_eq!(cache.papers[1].failed_reason, "");
    assert_eq!(cache.papers[1].arxiv_id, "");
    assert!(cache.failed_papers.is_empty());
    let names: Vec<&str> = cache.authors.iter().map(|a| a.name.as_str()).collect();
    assert_eq!(names, vec!["A", "B"]);
    assert_eq!(cache.get_author_id("1"), Some("page-a".to_string()));
    assert_eq!(cache.get_author_id("2"), Some("page-b".to_string()));
    assert!(!cache.is_exist_author("9"));
    assert!(cache.is_exist_paper("third paper"));
}

#[test]
fn a_store_without_pages_gives_an_empty_ledger() {
    let mut builder = Cache::build(String::new());
    builder.on_page(page(Vec::new(), None, None));
    assert_eq!(builder.phase(), BuildPhase::Authors);
    builder.on_page(page(Vec::new(), Some(false), None));
    assert_eq!(builder.phase(), BuildPhase::Done);
    let cache = builder.finish();
    assert!(cache.papers.is_empty() && cache.authors.is_empty() && cache.author_map.is_empty());
}

#[test]
fn the_ledger_is_written_in_four_steps() {
    let (actions, stage) = run_persist(&[
        FileOutcome::Done,
        FileOutcome::Done,
        FileOutcome::Done,
        FileOutcome::Done,
    ]);
    assert_eq!(
        actions,
        vec![
            PersistAction::PrepareDirectory,
            PersistAction::BackUp,
            PersistAction::WriteTemporary,
            PersistAction::Replace,
            PersistAction::Stop,
        ]
    );
    assert_eq!(stage, PersistStage::Finished);
    assert_eq!(stage.action(), PersistAction::Stop);
    assert_eq!(stage.advance(FileOutcome::Failed), PersistStage::Finished);
}

#[test]
fn a_missing_ledger_file_is_no_failure_of_the_backup() {
    let (actions, stage) = run_persist(&[
        FileOutcome::Done,
        FileOutcome::Missing,
        FileOutcome::Done,
        FileOutcome::Done,
    ]);
    assert_eq!(actions.len(), 5);
    assert_eq!(actions[2], PersistAction::WriteTemporary);
    assert_eq!(stage, PersistStage::Finished);
}

#[test]
fn a_failed_step_stops_the_writing() {
    let (_, stage) = run_persist(&[FileOutcome::Failed]);
    assert_eq!(stage, PersistStage::Failed(PersistFailure::Directory));
    let (_, stage) = run_persist(&[FileOutcome::Missing]);
    assert_eq!(stage, PersistStage::Failed(PersistFailure::Directory));
    let (actions, stage) = run_persist(&[FileOutcome::Done, FileOutcome::Failed]);
    assert_eq!(stage, PersistStage::Failed(PersistFailure::Backup));
    assert!(!actions.contains(&PersistAction::WriteTemporary));
    let (actions, stage) =
        run_persist(&[FileOutcome::Done, FileOutcome::Done, FileOutcome::Failed]);
    assert_eq!(stage, PersistStage::Failed(PersistFailure::Write));
    assert!(!actions.contains(&PersistAction::Replace));
    let (_, stage) = run_persist(&[FileOutcome::Done, FileOutcome::Done, FileOutcome::Missing]);
    assert_eq!(stage, PersistStage::Failed(PersistFailure::Write));
    let (_, stage) = run_persist(&[
        FileOutcome::Done,
        FileOutcome::Done,
        FileOutcome::Done,
        FileOutcome::Failed,
    ]);
    assert_eq!(stage, PersistStage::Failed(PersistFailure::Replace));
    assert_eq!(stage.action(), PersistAction::GiveUp(PersistFailure::Replace));
    assert_eq!(stage.advance(FileOutcome::Done), stage);
}

fn paper_to_json(entry: &PaperCache) -> serde_json::Value {
    let mut object = serde_json::Map::new();
    object.insert("title".to_string(), serde_json::Value::String(entry.title.clone()));
    object.insert("arxiv_id".to_string(), serde_json::Value::String(entry.arxiv_id.clone()));
    object.insert("ss_id".to_string(), serde_json::Value::String(entry.ss_id.clone()));
    object.insert("page_id".to_string(), serde_json::Value::String(entry.page_id.clone()));
    if !entry.failed_reason.is_empty() {
        object.insert(
            "failed_reason".to_string(),
            serde_json::Value::String(entry.failed_reason.clone()),
        );
    }
    serde_json::Value::Object(object)
}

fn text_field(value: &serde_json::Value, name: &str) -> String {
    value.get(name).and_then(|v| v.as_str()).unwrap_or("").to_string()
}

fn paper_from_json(value: &serde_json::Value) -> PaperCache {
    PaperCache {
        title: text_field(value, "title"),
        arxiv_id: text_field(value, "arxiv_id"),
        ss_id: text_field(value, "ss_id"),
        page_id: text_field(value, "page_id"),
        failed_reason: text_field(value, "failed_reason"),
    }
}

fn ledger_to_json(cache: &Cache) -> String {
    let mut document = serde_json::Map::new();
    document.insert(
        "papers".to_string(),
        serde_json::Value::Array(cache.papers.iter().map(paper_to_json).collect()),
    );
    document.insert(
        "failed_papers".to_string(),
        serde_json::Value::Array(cache.failed_papers.iter().map(paper_to_json).collect()),
    );
    let mut authors = Vec::new();
    for author in &cache.authors {
        let mut object = serde_json::Map::new();
        object.insert("name".to_string(), serde_json::Value::String(author.name.clone()));
        object.insert("ss_id".to_string(), serde_json::Value::String(author.ss_id.clone()));
        object.insert("page_id".to_string(), serde_json::Value::String(author.page_id.clone()));
        authors.push(serde_json::Value::Object(object));
    }
    document.insert("authors".to_string(), serde_json::Value::Array(authors));
    let mut index = serde_json::Map::new();
    for (ss_id, page_id) in &cache.author_map {
        index.insert(ss_id.clone(), serde_json::Value::String(page_id.clone()));
    }
    document.insert("author_map".to_string(), serde_json::Value::Object(index));
    serde_json::to_string(&serde_json::Value::Object(document)).unwrap()
}

fn ledger_from_json(path: &str, text: &str) -> Cache {
    let document: serde_json::Value = serde_json::from_str(text).unwrap();
    let list = |name: &str| document.get(name).and_then(|v| v.as_array()).cloned().unwrap();
    let mut index = fxhash::FxHashMap::default();
    for (ss_id, page_id) in document.get("author_map").and_then(|v| v.as_object()).unwrap() {
        index.insert(ss_id.clone(), page_id.as_str().unwrap().to_string());
    }
    Cache::from_parts(
        path.to_string(),
        list("papers").iter().map(paper_from_json).collect(),
        list("failed_papers").iter().map(paper_from_json).collect(),
        list("authors")
            .iter()
            .map(|v| author_entry_of(
                &text_field(v, "name"),
                &text_field(v, "ss_id"),
                &text_field(v, "page_id"),
            ))
            .collect(),
        index,
    )
}

fn papers_of(entries: &Vec<PaperCache>) -> Vec<(String, String, String, String, String)> {
    entries
        .iter()
        .map(|p| {
            (
                p.title.clone(),
                p.arxiv_id.clone(),
                p.ss_id.clone(),
                p.page_id.clone(),
                p.failed_reason.clone(),
            )
        })
        .collect()
}

#[test]
fn a_ledger_written_and_read_again_is_the_same() {
    let mut cache = Cache::new("somewhere/cache.json".to_string());
    let mut first = paper_entry_of("Attention Is All You Need");
    first.arxiv_id = "1706.03762".to_string();
    cache.add_paper(first);
    cache.add_paper(paper_entry_of("BERT: \"Pre-training\"\nof Deep Bidirectional Transformers"));
    let mut failed = paper_entry_of("A Short Paper");
    failed.failed_reason = "The paper is too short".to_string();
    cache.add_failed_paper(failed);
    cache.add_author(author_entry_of("Ashish Vaswani", "1", "page-a"));
    cache.add_author(author_entry_of("能海 寛", "2", "page-b"));
    cache.add_author(author_entry_of("Ashish Vaswani", "1", "page-c"));

    let written = ledger_to_json(&cache);
    let read = ledger_from_json("elsewhere/cache.json", &written);

    assert_eq!(papers_of(&read.papers), papers_of(&cache.papers));
    assert_eq!(papers_of(&read.failed_papers), papers_of(&cache.failed_papers));
    let authors = |c: &Cache| -> Vec<(String, String, String)> {
        c.authors.iter().map(|a| (a.name.clone(), a.ss_id.clone(), a.page_id.clone())).collect()
    };
    assert_eq!(authors(&read), authors(&cache));
    assert_eq!(read.author_map, cache.author_map);
    assert_eq!(read.path, "elsewhere/cache.json");
    assert!(read.is_exist_paper("attention is all you need"));
    assert!(!read.is_exist_paper("a short paper"));
    assert_eq!(read.get_author_id("1"), Some("page-c".to_string()));
    // written a second time, the ledger reads the same again
    let again = ledger_from_json("elsewhere/cache.json", &ledger_to_json(&read));
    assert_eq!(papers_of(&again.papers), papers_of(&cache.papers));
    assert_eq!(again.author_map, cache.author_map);
}
