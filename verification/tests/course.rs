use arxiv_batch::cache::{Cache, PaperCache};
use arxiv_batch::common::{Paper, Section};
use arxiv_batch::pipeline::{FailureReason, Outcome, PipelineAction, Stage, StepEvent};

fn paper_with_sections(title: &str, count: i16) -> Paper {
    let mut paper = Paper::default();
    paper.title = title.to_string();
    paper.ss_id = "ss".to_string();
    let mut sections = Vec::new();
    for i in 0..count {
        sections.push(Section { index: i, title: format!("S{}", i), contents: Vec::new() });
    }
    paper.get_original_text(sections);
    paper
}

fn run(paper: &Paper, cache: &mut Cache, events: &[StepEvent]) -> (Vec<PipelineAction>, Stage) {
    let mut stage = Stage::begin();
    let mut actions = vec![stage.action()];
    for event in events {
        stage = stage.advance(*event, paper, cache);
        actions.push(stage.action());
    }
    (actions, stage)
}

#[test]
fn a_paper_runs_through_every_step() {
    let paper = paper_with_sections("A Title", 4);
    let mut cache = Cache::new(String::new());
    let (actions, stage) = run(&paper, &mut cache, &[StepEvent::Succeeded; 7]);
    assert_eq!(
        actions,
        vec![
            PipelineAction::LinkSecondary,
            PipelineAction::LinkPrimary,
            PipelineAction::AcquireText,
            PipelineAction::ExtractKeywords,
            PipelineAction::Summarize,
            PipelineAction::PersistAuthors,
            PipelineAction::PersistPaper,
            PipelineAction::Stop(Outcome::Persisted),
        ]
    );
    assert_eq!(stage, Stage::Finished(Outcome::Persisted));
    assert!(cache.failed_papers.is_empty());
    assert_eq!(Stage::begin(), Stage::LinkingSecondary);
}

#[test]
fn linking_goes_on_after_a_failure() {
    let paper = paper_with_sections("A Title", 4);
    let mut cache = Cache::new(String::new());
    let (actions, stage) = run(&paper, &mut cache, &[StepEvent::Failed, StepEvent::Failed]);
    assert_eq!(
        actions,
        vec![
            PipelineAction::LinkSecondary,
            PipelineAction::LinkPrimary,
            PipelineAction::AcquireText
        ]
    );
    assert_eq!(stage, Stage::AcquiringText);
    assert!(cache.failed_papers.is_empty());
}

#[test]
fn a_paper_in_the_ledger_is_skipped() {
    let paper = paper_with_sections("A Known Title", 4);
    let mut cache = Cache::new(String::new());
    cache.add_paper(PaperCache::from_paper(&paper_with_sections("a known title", 0), None));
    for linked in [StepEvent::Succeeded, StepEvent::Failed] {
        let (actions, stage) = run(&paper, &mut cache, &[linked, linked]);
        assert_eq!(actions.last(), Some(&PipelineAction::Stop(Outcome::Skipped)));
        assert_eq!(stage, Stage::Finished(Outcome::Skipped));
        assert!(!actions.contains(&PipelineAction::AcquireText));
        assert!(!actions.contains(&PipelineAction::PersistPaper));
    }
    assert_eq!(cache.papers.len(), 1);
    assert!(cache.failed_papers.is_empty());
}

#[test]
fn a_document_of_three_sections_is_too_short() {
    let paper = paper_with_sections("A Short Paper", 3);
    let mut cache = Cache::new(String::new());
    let (actions, stage) = run(&paper, &mut cache, &[StepEvent::Succeeded; 3]);
    assert_eq!(stage, Stage::Finished(Outcome::Failed(FailureReason::TooShort)));
    assert_eq!(actions.last(), Some(&PipelineAction::Stop(Outcome::Failed(FailureReason::TooShort))));
    assert_eq!(cache.failed_papers.len(), 1);
    assert_eq!(cache.failed_papers[0].title, "A Short Paper");
    assert_eq!(cache.failed_papers[0].ss_id, "ss");
    assert_eq!(cache.failed_papers[0].failed_reason, "The paper is too short");
    assert!(cache.papers.is_empty());
    let enough = paper_with_sections("A Paper", 4);
    let (_, stage) = run(&enough, &mut cache, &[StepEvent::Succeeded; 3]);
    assert_eq!(stage, Stage::ExtractingKeywords);
}

#[test]
fn each_failed_step_is_entered_with_its_reason() {
    let cases = [
        (3, FailureReason::NoText, "Failed to get original text"),
        (4, FailureReason::NoKeywords, "Failed to get keywords"),
        (5, FailureReason::NoSummary, "Failed to summarize the paper"),
        (6, FailureReason::AuthorsNotStored, "Failed to add authors"),
        (7, FailureReason::PaperNotStored, "Failed to report the paper"),
    ];
    for (steps, reason, text) in cases {
        let paper = paper_with_sections("A Title", 5);
        let mut cache = Cache::new(String::new());
        let mut events = vec![StepEvent::Succeeded; steps - 1];
        events.push(StepEvent::Failed);
        let (actions, stage) = run(&paper, &mut cache, &events);
        assert_eq!(stage, Stage::Finished(Outcome::Failed(reason)));
        assert_eq!(actions.len(), steps + 1);
        assert_eq!(reason.message(), text);
        assert_eq!(cache.failed_papers.len(), 1);
        assert_eq!(cache.failed_papers[0].failed_reason, text);
        assert_eq!(cache.failed_papers[0].title, "A Title");
        if reason != FailureReason::PaperNotStored {
            assert!(!actions.contains(&PipelineAction::PersistPaper));
        }
    }
    assert_eq!(FailureReason::TooShort.message(), "The paper is too short");
}

#[test]
fn a_paper_that_turns_out_to_exist_is_skipped() {
    let paper = paper_with_sections("A Title", 4);
    let mut cache = Cache::new(String::new());
    let mut events = vec![StepEvent::Succeeded; 5];
    events.push(StepEvent::AlreadyExists);
    events.push(StepEvent::AlreadyExists);
    let (_, stage) = run(&paper, &mut cache, &events);
    assert_eq!(stage, Stage::Finished(Outcome::Skipped));
    assert!(cache.failed_papers.is_empty());
}

#[test]
fn a_course_that_has_ended_stays_as_it_is() {
    let paper = paper_with_sections("A Title", 1);
    let mut cache = Cache::new(String::new());
    let (_, stage) = run(&paper, &mut cache, &[StepEvent::Succeeded; 3]);
    assert_eq!(stage, Stage::Finished(Outcome::Failed(FailureReason::TooShort)));
    for event in [StepEvent::Succeeded, StepEvent::Failed, StepEvent::AlreadyExists] {
        assert_eq!(stage.advance(event, &paper, &mut cache), stage);
    }
    assert_eq!(cache.failed_papers.len(), 1);
    let done = Stage::Finished(Outcome::Persisted);
    assert_eq!(done.advance(StepEvent::Failed, &paper, &mut cache), done);
    assert_eq!(cache.failed_papers.len(), 1);
}
