//! The course of one publication through the pipeline: linking, the check
//! against the ledger, the document text, keywords, the summary, and the
//! two steps of storing. The work itself is done elsewhere; here stands
//! what is decided between the steps.

use crate::cache::{has_title, paper_entry, Cache, CacheView, PaperCache};
use crate::common::{Paper, PaperView};
use vstd::prelude::*;

verus! {

/// Why a publication failed.
#[derive(Clone, Copy, Debug, PartialEq, Eq, Structural)]
pub enum FailureReason {
    /// The document text could not be obtained.
    NoText,
    /// The document has fewer sections than a publication must have.
    TooShort,
    /// The keywords could not be extracted.
    NoKeywords,
    /// The summary could not be obtained.
    NoSummary,
    /// The authors could not be stored.
    AuthorsNotStored,
    /// The publication could not be stored.
    PaperNotStored,
}

/// How the course of a publication ended.
#[derive(Clone, Copy, Debug, PartialEq, Eq, Structural)]
pub enum Outcome {
    /// The publication is in the destination store and in the ledger.
    Persisted,
    /// The publication was in the ledger already.
    Skipped,
    /// The publication failed and is entered in the ledger as failed.
    Failed(FailureReason),
}

/// Where a publication stands in its course: the step that is under way.
#[derive(Clone, Copy, Debug, PartialEq, Eq, Structural)]
pub enum Stage {
    LinkingSecondary,
    LinkingPrimary,
    AcquiringText,
    ExtractingKeywords,
    Summarizing,
    PersistingAuthors,
    PersistingPaper,
    Finished(Outcome),
}

/// How the step that was under way ended.
#[derive(Clone, Copy, Debug, PartialEq, Eq, Structural)]
pub enum StepEvent {
    Succeeded,
    Failed,
    /// The destination store was not written because the ledger knows the title.
    AlreadyExists,
}

/// What is to be done next.
#[derive(Clone, Copy, Debug, PartialEq, Eq, Structural)]
pub enum PipelineAction {
    /// Ask the second metadata source and merge what it returns.
    LinkSecondary,
    /// Ask the first metadata source and merge what it returns.
    LinkPrimary,
    /// Obtain the document text and hand its sections to the publication.
    AcquireText,
    /// Extract the keywords and hand them to the publication.
    ExtractKeywords,
    /// Obtain the summary.
    Summarize,
    /// Store the authors whom the ledger does not know.
    PersistAuthors,
    /// Store the publication.
    PersistPaper,
    /// Nothing more: the course has ended.
    Stop(Outcome),
}

/// The least number of sections that the document of a publication has.
pub open spec fn min_sections() -> nat {
    4
}

/// The reason of a failure in words, as it is entered in the ledger.
pub open spec fn reason_text(reason: FailureReason) -> Seq<char> {
    match reason {
        FailureReason::NoText => "Failed to get original text"@,
        FailureReason::TooShort => "The paper is too short"@,
        FailureReason::NoKeywords => "Failed to get keywords"@,
        FailureReason::NoSummary => "Failed to summarize the paper"@,
        FailureReason::AuthorsNotStored => "Failed to add authors"@,
        FailureReason::PaperNotStored => "Failed to report the paper"@,
    }
}

/// The stage that follows `stage` after `event`.
///
/// Linking goes on whether or not a source could be linked. A publication
/// whose title the ledger knows after linking is skipped. From then on a
/// failed step ends the course; so does a document of fewer than four
/// sections. A course that has ended stays as it ended.
pub open spec fn transition(stage: Stage, event: StepEvent, sections: nat, known: bool) -> Stage {
    match stage {
        Stage::LinkingSecondary => Stage::LinkingPrimary,
        Stage::LinkingPrimary => if known {
            Stage::Finished(Outcome::Skipped)
        } else {
            Stage::AcquiringText
        },
        Stage::AcquiringText => if event is Failed {
            Stage::Finished(Outcome::Failed(FailureReason::NoText))
        } else if sections < min_sections() {
            Stage::Finished(Outcome::Failed(FailureReason::TooShort))
        } else {
            Stage::ExtractingKeywords
        },
        Stage::ExtractingKeywords => if event is Failed {
            Stage::Finished(Outcome::Failed(FailureReason::NoKeywords))
        } else {
            Stage::Summarizing
        },
        Stage::Summarizing => if event is Failed {
            Stage::Finished(Outcome::Failed(FailureReason::NoSummary))
        } else {
            Stage::PersistingAuthors
        },
        Stage::PersistingAuthors => if event is Failed {
            Stage::Finished(Outcome::Failed(FailureReason::AuthorsNotStored))
        } else {
            Stage::PersistingPaper
        },
        Stage::PersistingPaper => match event {
            StepEvent::Succeeded => Stage::Finished(Outcome::Persisted),
            StepEvent::AlreadyExists => Stage::Finished(Outcome::Skipped),
            StepEvent::Failed => Stage::Finished(Outcome::Failed(FailureReason::PaperNotStored)),
        },
        Stage::Finished(outcome) => Stage::Finished(outcome),
    }
}

/// The action that a stage asks for.
pub open spec fn action_of(stage: Stage) -> PipelineAction {
    match stage {
        Stage::LinkingSecondary => PipelineAction::LinkSecondary,
        Stage::LinkingPrimary => PipelineAction::LinkPrimary,
        Stage::AcquiringText => PipelineAction::AcquireText,
        Stage::ExtractingKeywords => PipelineAction::ExtractKeywords,
        Stage::Summarizing => PipelineAction::Summarize,
        Stage::PersistingAuthors => PipelineAction::PersistAuthors,
        Stage::PersistingPaper => PipelineAction::PersistPaper,
        Stage::Finished(outcome) => PipelineAction::Stop(outcome),
    }
}

/// The ledger after the step from `stage` to `next`: a course that ends in
/// failure leaves an entry with the reason among the failed publications.
pub open spec fn ledger_after(ledger: CacheView, stage: Stage, next: Stage, paper: PaperView) -> CacheView {
    match next {
        Stage::Finished(Outcome::Failed(reason)) => if stage is Finished {
            ledger
        } else {
            ledger.with_failure(
                crate::cache::PaperCacheView {
                    failed_reason: reason_text(reason),
                    ..paper_entry(paper, None)
                },
            )
        },
        _ => ledger,
    }
}

/// A publication whose title the ledger knows when linking is over is
/// skipped, whatever linking gave, and the ledger stays as it is.
pub proof fn law_known_title_is_skipped(event: StepEvent, sections: nat, ledger: CacheView, paper: PaperView)
    requires
        has_title(ledger.papers, paper.title),
    ensures
        transition(Stage::LinkingPrimary, event, sections, true) == Stage::Finished(Outcome::Skipped),
        ledger_after(
            ledger,
            Stage::LinkingPrimary,
            transition(Stage::LinkingPrimary, event, sections, true),
            paper,
        ) == ledger,
{
}

/// Nothing is stored for a publication unless every step before went
/// well: the stage of storing the publication is only reached from that
/// of storing the authors, and not after a failure.
pub proof fn law_storing_follows_success(stage: Stage, event: StepEvent, sections: nat, known: bool)
    requires
        transition(stage, event, sections, known) == Stage::PersistingPaper,
    ensures
        stage == Stage::PersistingAuthors,
        !(event is Failed),
{
}

/// A course that has ended does not go on, and leaves the ledger alone.
pub proof fn law_finished_stays(
    outcome: Outcome,
    event: StepEvent,
    sections: nat,
    known: bool,
    ledger: CacheView,
    paper: PaperView,
)
    ensures
        transition(Stage::Finished(outcome), event, sections, known) == Stage::Finished(outcome),
        ledger_after(ledger, Stage::Finished(outcome), Stage::Finished(outcome), paper) == ledger,
{
}

impl FailureReason {
    /// The reason in words.
    pub fn message(&self) -> (text: String)
        ensures
            text@ == reason_text(*self),
    {
        match self {
            FailureReason::NoText => "Failed to get original text".to_owned(),
            FailureReason::TooShort => "The paper is too short".to_owned(),
            FailureReason::NoKeywords => "Failed to get keywords".to_owned(),
            FailureReason::NoSummary => "Failed to summarize the paper".to_owned(),
            FailureReason::AuthorsNotStored => "Failed to add authors".to_owned(),
            FailureReason::PaperNotStored => "Failed to report the paper".to_owned(),
        }
    }
}

impl Stage {
    /// The stage in which every course begins.
    pub fn begin() -> (stage: Stage)
        ensures
            stage == Stage::LinkingSecondary,
    {
        Stage::LinkingSecondary
    }

    /// The action that this stage asks for.
    pub fn action(&self) -> (action: PipelineAction)
        ensures
            action == action_of(*self),
    {
        match self {
                Stage::LinkingSecondary => PipelineAction::LinkSecondary,
            Stage::LinkingPrimary => PipelineAction::LinkPrimary,
            Stage::AcquiringText => PipelineAction::AcquireText,
            Stage::ExtractingKeywords => PipelineAction::ExtractKeywords,
            Stage::Summarizing => PipelineAction::Summarize,
            Stage::PersistingAuthors => PipelineAction::PersistAuthors,
            Stage::PersistingPaper => PipelineAction::PersistPaper,
            Stage::Finished(outcome) => PipelineAction::Stop(*outcome),
        }
    }

    /// Takes the outcome of the step that was under way and gives the stage
    /// that follows. A course that ends in failure is entered in the ledger
    /// with its reason.
    pub fn advance(self, event: StepEvent, paper: &Paper, cache: &mut Cache) -> (next: Stage)
        ensures
            next == transition(
                self,
                event,
                paper@.original_text.len(),
                has_title(old(cache)@.papers, paper@.title),
            ),
            final(cache)@ == ledger_after(old(cache)@, self, next, paper@),
    {
        let failed = match event {
            StepEvent::Failed => true,
            _ => false,
        };
        let next = match self {
                Stage::LinkingSecondary => Stage::LinkingPrimary,
            Stage::LinkingPrimary => {
                if cache.is_exist_paper(paper.title.as_str()) {
                    Stage::Finished(Outcome::Skipped)
                } else {
                    Stage::AcquiringText
                }
            },
            Stage::AcquiringText => {
                if failed {
                    Stage::Finished(Outcome::Failed(FailureReason::NoText))
                } else if paper.original_text.len() < 4 {
                    Stage::Finished(Outcome::Failed(FailureReason::TooShort))
                } else {
                    Stage::ExtractingKeywords
                }
            },
            Stage::ExtractingKeywords => {
                if failed {
                    Stage::Finished(Outcome::Failed(FailureReason::NoKeywords))
                } else {
                    Stage::Summarizing
                }
            },
            Stage::Summarizing => {
                if failed {
                    Stage::Finished(Outcome::Failed(FailureReason::NoSummary))
                } else {
                    Stage::PersistingAuthors
                }
            },
            Stage::PersistingAuthors => {
                if failed {
                    Stage::Finished(Outcome::Failed(FailureReason::AuthorsNotStored))
                } else {
                    Stage::PersistingPaper
                }
            },
            Stage::PersistingPaper => match event {
                StepEvent::Succeeded => Stage::Finished(Outcome::Persisted),
                StepEvent::AlreadyExists => Stage::Finished(Outcome::Skipped),
                StepEvent::Failed => Stage::Finished(Outcome::Failed(FailureReason::PaperNotStored)),
            },
            Stage::Finished(outcome) => Stage::Finished(outcome),
        };
        let ended = match self {
            Stage::Finished(_) => true,
            _ => false,
        };
        if !ended {
            match next {
                Stage::Finished(Outcome::Failed(reason)) => {
                    cache.add_failed_paper(PaperCache::from_paper(paper, Some(reason.message())));
                },
                _ => {},
            }
        }
        next
    }
}

} // verus!
