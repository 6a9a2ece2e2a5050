//! Obtaining the summary of a publication from a generative model: the
//! conversation that is sent, the shape that the answer must have, and the
//! protocol of bounded retries.

use crate::common::{Paper, PaperView, Summary, SummaryView};
use crate::text::{push_text, views};
use crate::xml::{document_xml, is_reading_order, references_xml};
use vstd::prelude::*;

verus! {

/// One turn of a conversation.
#[derive(Debug)]
pub struct Message {
    pub role: String,
    pub content: String,
}

/// What a [`Message`] holds.
pub ghost struct MessageView {
    pub role: Seq<char>,
    pub content: Seq<char>,
}

impl View for Message {
    type V = MessageView;

    open spec fn view(&self) -> MessageView {
        MessageView { role: self.role@, content: self.content@ }
    }
}

impl Clone for Message {
    fn clone(&self) -> (copy: Message)
        ensures
            copy@ == self@,
    {
        Message { role: self.role.clone(), content: self.content.clone() }
    }
}

impl Message {
    /// The turn of `role` that says `content`.
    pub fn new(role: &str, content: &str) -> (message: Message)
        ensures
            message@ == turn(role@, content@),
    {
        Message { role: role.to_owned(), content: content.to_owned() }
    }
}

/// The turn of `role` that says `content`.
pub open spec fn turn(role: Seq<char>, content: Seq<char>) -> MessageView {
    MessageView { role, content }
}

/// One field of the shape that the answer must have.
#[derive(Debug)]
pub struct SchemaProperty {
    pub name: String,
    /// The type of the field: `boolean` or `string`.
    pub kind: String,
    /// What the model is told to write into the field.
    pub description: String,
}

/// What a [`SchemaProperty`] holds.
pub ghost struct SchemaPropertyView {
    pub name: Seq<char>,
    pub kind: Seq<char>,
    pub description: Seq<char>,
}

impl View for SchemaProperty {
    type V = SchemaPropertyView;

    open spec fn view(&self) -> SchemaPropertyView {
        SchemaPropertyView {
            name: self.name@,
            kind: self.kind@,
            description: self.description@,
        }
    }
}

/// The shape that the answer must have.
#[derive(Debug)]
pub struct JsonSchema {
    pub name: String,
    pub properties: Vec<SchemaProperty>,
}

/// The field `name` of type `kind` with its instruction.
pub open spec fn field(name: Seq<char>, kind: Seq<char>, description: Seq<char>) -> SchemaPropertyView {
    SchemaPropertyView { name, kind, description }
}

/// The fields of a summary, as the model is asked for them.
pub open spec fn summary_fields() -> Seq<SchemaPropertyView> {
    seq![
        field(
            "is_survey"@,
            "boolean"@,
            "この論文がサーベイ論文かどうかをtrue/falseで判定する．"@,
        ),
        field("overview"@, "string"@, "この論文の概要を3文程度で記述する．"@),
        field(
            "research_question"@,
            "string"@,
            "この論文のリサーチクエスチョンを説明する．この論文の背景や既存研究との関連も含めて記述する．4文程度で詳細に記述する．"@,
        ),
        field(
            "task_category"@,
            "string"@,
            "この論文のタスク分類を記述する．例として，自然言語処理の場合は機械読解，機械翻訳，テキスト分類などが挙げられる．"@,
        ),
        field(
            "domain_as_words"@,
            "string"@,
            "この論文の実験が対象にしているドメインを単語で出力する．"@,
        ),
        field("task_as_words"@, "string"@, "この論文のタスク分類を単語で出力する．"@),
        field(
            "comparison_with_related_works"@,
            "string"@,
            "関連研究と比較した場合のこの論文の新規性について説明する．可能な限り既存研究を参照しながら記述すること．4文程度で詳細に記述する．"@,
        ),
        field(
            "proposed_method"@,
            "string"@,
            "この論文で使用されている手法の詳細について，一つずつ順を追って説明する．4文程度で詳細に記述する．"@,
        ),
        field(
            "datasets"@,
            "string"@,
            "この論文で使用されているデータセットをリストアップする．"@,
        ),
        field(
            "experiments"@,
            "string"@,
            "実験の設定と結果について詳細に説明する．4文程度で詳細に記述する．"@,
        ),
        field(
            "analysis"@,
            "string"@,
            "実験結果の分析について記述する．4文程度で詳細に記述する．"@,
        ),
        field(
            "contributions"@,
            "string"@,
            "この論文のコントリビューションをリスト形式で記述する．"@,
        ),
        field(
            "future_works"@,
            "string"@,
            "未解決の課題および将来の研究の方向性について記述．3文程度で詳細に記述する．"@,
        ),
    ]
}

/// Why no summary was obtained.
#[derive(Clone, Copy, Debug, PartialEq, Eq, Structural)]
pub enum SummaryError {
    /// The publication has no document text.
    EmptyDocument,
    /// Every attempt ended in a failed request.
    SummarizationExhausted,
    /// The model answered, but the answer is no summary.
    InvalidPayload,
}

/// How one request to the model ended.
#[derive(Debug)]
pub enum ChatOutcome {
    /// The request failed, or its response could not be read.
    TransportFailed,
    /// The model's answer was decoded into a summary.
    Decoded(Summary),
    /// The model answered, but the answer could not be decoded.
    Undecodable,
}

/// What a [`ChatOutcome`] holds.
pub ghost enum OutcomeView {
    TransportFailed,
    Decoded(SummaryView),
    Undecodable,
}

impl View for ChatOutcome {
    type V = OutcomeView;

    open spec fn view(&self) -> OutcomeView {
        match self {
            ChatOutcome::TransportFailed => OutcomeView::TransportFailed,
            ChatOutcome::Decoded(summary) => OutcomeView::Decoded(summary@),
            ChatOutcome::Undecodable => OutcomeView::Undecodable,
        }
    }
}

/// What is to be done after a request.
#[derive(Clone, Copy, Debug, PartialEq, Eq, Structural)]
pub enum SummarizeStep {
    /// Wait one second, then send the conversation again.
    Retry,
    /// The summary has been stored in the publication.
    Finished,
    /// No summary will be obtained.
    Failed(SummaryError),
}

/// What is to be done after a request, with the summary where one was obtained.
pub ghost enum StepView {
    Retry,
    Finished(SummaryView),
    Failed(SummaryError),
}

/// A summarisation in progress: the conversation as it will be sent next
/// and the number of requests that may still be made.
#[derive(Debug)]
pub struct Extraction {
    messages: Vec<Message>,
    attempts_left: u8,
}

/// What an [`Extraction`] holds.
pub ghost struct ExtractionView {
    pub messages: Seq<MessageView>,
    pub attempts_left: nat,
}

impl View for Extraction {
    type V = ExtractionView;

    closed spec fn view(&self) -> ExtractionView {
        ExtractionView { messages: views(self.messages@), attempts_left: self.attempts_left as nat }
    }
}

/// The number of requests that one summarisation may make.
pub open spec fn attempt_budget() -> nat {
    5
}

/// The two turns that are added to the conversation after a failed request.
pub open spec fn corrective_turns() -> Seq<MessageView> {
    seq![turn("system"@, "JSON形式で出力してください．"@), turn("user"@, "要約してください．"@)]
}

/// The conversation that opens a summarisation: the role of the model, the
/// title of the publication, the instruction, the document and the request
/// to summarise.
pub open spec fn opening_turns(title: Seq<char>, instruction: Seq<char>, document: Seq<char>) -> Seq<
    MessageView,
> {
    seq![
        turn("system"@, "あなたは優秀な研究アシスタントです．"@),
        turn("user"@, "これからこの論文の要約の準備をしてください: "@ + title),
        turn("user"@, "要約の際は以下の指示に従ってください: \n\n"@ + instruction),
        turn("user"@, "以下は，論文の内容です．\n\n"@ + document),
        turn("user"@, "要約してください:"@),
    ]
}

/// The document block of the conversation: a heading line, then the tagged text.
pub open spec fn headed_document(xml: Seq<char>) -> Seq<char> {
    "############ 論文 ############\n"@ + xml
}

/// The reference block: a heading line, then the tagged text.
pub open spec fn headed_references(xml: Seq<char>) -> Seq<char> {
    "############ 参考文献 ############\n"@ + xml
}

/// The protocol of one request: what the summarisation is afterwards, and
/// what is to be done.
///
/// A summarisation without requests left has failed. A decoded answer
/// finishes it; an answer that cannot be decoded fails it at once. A failed
/// request costs one attempt and adds the corrective turns to the
/// conversation; it is retried as long as an attempt is left.
pub open spec fn step_of(state: ExtractionView, outcome: OutcomeView) -> (ExtractionView, StepView) {
    if state.attempts_left == 0 {
        (state, StepView::Failed(SummaryError::SummarizationExhausted))
    } else {
        match outcome {
            OutcomeView::Decoded(summary) => (state, StepView::Finished(summary)),
            OutcomeView::Undecodable => (state, StepView::Failed(SummaryError::InvalidPayload)),
            OutcomeView::TransportFailed => {
                let next = ExtractionView {
                    messages: state.messages + corrective_turns(),
                    attempts_left: (state.attempts_left - 1) as nat,
                };
                if next.attempts_left == 0 {
                    (next, StepView::Failed(SummaryError::SummarizationExhausted))
                } else {
                    (next, StepView::Retry)
                }
            },
        }
    }
}

/// The summarisation after `count` failed requests in a row.
pub open spec fn after_failures(state: ExtractionView, count: nat) -> ExtractionView
    decreases count,
{
    if count == 0 {
        state
    } else {
        step_of(after_failures(state, (count - 1) as nat), OutcomeView::TransportFailed).0
    }
}

/// The corrective turns, `count` times over.
pub open spec fn corrections(count: nat) -> Seq<MessageView>
    decreases count,
{
    if count == 0 {
        Seq::empty()
    } else {
        corrections((count - 1) as nat) + corrective_turns()
    }
}

/// Failed requests use up the attempts one by one, and each adds the
/// corrective turns to the conversation.
pub proof fn lemma_after_failures(state: ExtractionView, count: nat)
    requires
        count <= state.attempts_left,
    ensures
        after_failures(state, count).attempts_left == state.attempts_left - count,
        after_failures(state, count).messages == state.messages + corrections(count),
    decreases count,
{
    if count == 0 {
        assert(state.messages + corrections(0) =~= state.messages);
    } else {
        lemma_after_failures(state, (count - 1) as nat);
        let before = after_failures(state, (count - 1) as nat);
        assert(before.messages + corrective_turns() =~= state.messages + corrections(count));
    }
}

/// A summarisation with the full budget survives four failed requests: the
/// first four are retried, and an answer to any of the five requests
/// finishes it.
pub proof fn law_answer_within_budget(start: ExtractionView, failures: nat, summary: SummaryView)
    requires
        start.attempts_left == attempt_budget(),
        failures < attempt_budget(),
    ensures
        failures > 0 ==> step_of(
            after_failures(start, (failures - 1) as nat),
            OutcomeView::TransportFailed,
        ).1 == StepView::Retry,
        step_of(after_failures(start, failures), OutcomeView::Decoded(summary)).1
            == StepView::Finished(summary),
{
    lemma_after_failures(start, failures);
    if failures > 0 {
        lemma_after_failures(start, (failures - 1) as nat);
    }
}

/// A summarisation with the full budget fails with the fifth failed
/// request, and not before.
pub proof fn law_budget_exhausted(start: ExtractionView)
    requires
        start.attempts_left == attempt_budget(),
    ensures
        step_of(after_failures(start, 4), OutcomeView::TransportFailed).1 == StepView::Failed(
            SummaryError::SummarizationExhausted,
        ),
        forall|failures: nat|
            failures < 4 ==> step_of(
                #[trigger] after_failures(start, failures),
                OutcomeView::TransportFailed,
            ).1 == StepView::Retry,
{
    lemma_after_failures(start, 4);
    assert forall|failures: nat| failures < 4 implies step_of(
        #[trigger] after_failures(start, failures),
        OutcomeView::TransportFailed,
    ).1 == StepView::Retry by {
        lemma_after_failures(start, failures);
    }
}

impl Extraction {
    /// The conversation to send with the next request.
    pub fn messages(&self) -> (messages: &Vec<Message>)
        ensures
            views(messages@) == self@.messages,
    {
        &self.messages
    }

    /// The number of requests that may still be made.
    pub fn attempts_left(&self) -> (n: u8)
        ensures
            n == self@.attempts_left,
    {
        self.attempts_left
    }
}

/// The client of the generative model.
#[derive(Debug)]
pub struct AI {
    model_id: String,
}

impl AI {
    /// The name of the model that is asked.
    pub closed spec fn model(&self) -> Seq<char> {
        self.model_id@
    }

    /// The client that asks the model of this name.
    pub fn new(model_id: &str) -> (ai: AI)
        ensures
            ai.model() == model_id@,
    {
        AI { model_id: model_id.to_owned() }
    }

    /// The name of the model that is asked.
    pub fn model_id(&self) -> (id: &str)
        ensures
            id@ == self.model(),
    {
        self.model_id.as_str()
    }

    /// The three texts that a conversation is made of: the instruction as
    /// given, the document block and the reference block. A publication
    /// without document text has none.
    pub fn get_instruction(&self, paper: &Paper, instruction: &str) -> (result: Result<
        (String, String, String),
        SummaryError,
    >)
        ensures
            result is Err <==> (forall|title: Seq<char>|
                !paper@.original_text_map.contains_key(title)),
            result matches Err(e) ==> e == SummaryError::EmptyDocument,
            result matches Ok(texts) ==> {
                &&& texts.0@ == instruction@
                &&& exists|sections|
                    is_reading_order(sections, paper@.original_text_map) && texts.1@
                        == headed_document(document_xml(paper@.title, paper@.authors, sections))
                &&& texts.2@ == headed_references(references_xml(paper@.references))
            },
    {
        if paper.has_no_text() {
            return Err(SummaryError::EmptyDocument);
        }
        let paper_text = paper.original_text2xml();
        let mut paper_xml = "############ 論文 ############\n".to_owned();
        push_text(&mut paper_xml, paper_text.as_str());
        let references = paper.references2xml();
        let mut reference_xml = "############ 参考文献 ############\n".to_owned();
        push_text(&mut reference_xml, references.as_str());
        Ok((instruction.to_owned(), paper_xml, reference_xml))
    }

    /// The conversation that opens the summarisation of a publication. A
    /// publication without document text has none.
    pub fn get_messages(&self, paper: &Paper, instruction: &str) -> (result: Result<
        Vec<Message>,
        SummaryError,
    >)
        ensures
            result is Err <==> (forall|title: Seq<char>|
                !paper@.original_text_map.contains_key(title)),
            result matches Err(e) ==> e == SummaryError::EmptyDocument,
            result matches Ok(messages) ==> exists|sections|
                is_reading_order(sections, paper@.original_text_map) && views(messages@)
                    == opening_turns(
                    paper@.title,
                    instruction@,
                    headed_document(document_xml(paper@.title, paper@.authors, sections)),
                ),
    {
        let texts = match self.get_instruction(paper, instruction) {
            Ok(texts) => texts,
            Err(e) => {
                return Err(e);
            },
        };
        let ghost sections = choose|sections|
            is_reading_order(sections, paper@.original_text_map) && texts.1@ == headed_document(
                document_xml(paper@.title, paper@.authors, sections),
            );
        let mut framing = "これからこの論文の要約の準備をしてください: ".to_owned();
        push_text(&mut framing, paper.title.as_str());
        let mut guidance = "要約の際は以下の指示に従ってください: \n\n".to_owned();
        push_text(&mut guidance, texts.0.as_str());
        let mut document = "以下は，論文の内容です．\n\n".to_owned();
        push_text(&mut document, texts.1.as_str());
        let mut messages: Vec<Message> = Vec::new();
        messages.push(Message::new("system", "あなたは優秀な研究アシスタントです．"));
        messages.push(Message::new("user", framing.as_str()));
        messages.push(Message::new("user", guidance.as_str()));
        messages.push(Message::new("user", document.as_str()));
        messages.push(Message::new("user", "要約してください:"));
        assert(views(messages@) =~= opening_turns(
            paper@.title,
            instruction@,
            headed_document(document_xml(paper@.title, paper@.authors, sections)),
        ));
        Ok(messages)
    }

    /// The shape that the answer must have: the schema named `summary`
    /// with the fields of a summary.
    pub fn get_json_schema(&self) -> (schema: JsonSchema)
        ensures
            schema.name@ == "summary"@,
            views(schema.properties@) == summary_fields(),
    {
        let mut properties: Vec<SchemaProperty> = Vec::new();
        properties.push(
            property(
                "is_survey",
                "boolean",
                "この論文がサーベイ論文かどうかをtrue/falseで判定する．",
            ),
        );
        properties.push(property("overview", "string", "この論文の概要を3文程度で記述する．"));
        properties.push(
            property(
                "research_question",
                "string",
                "この論文のリサーチクエスチョンを説明する．この論文の背景や既存研究との関連も含めて記述する．4文程度で詳細に記述する．",
            ),
        );
        properties.push(
            property(
                "task_category",
                "string",
                "この論文のタスク分類を記述する．例として，自然言語処理の場合は機械読解，機械翻訳，テキスト分類などが挙げられる．",
            ),
        );
        properties.push(
            property(
                "domain_as_words",
                "string",
                "この論文の実験が対象にしているドメインを単語で出力する．",
            ),
        );
        properties.push(
            property("task_as_words", "string", "この論文のタスク分類を単語で出力する．"),
        );
        properties.push(
            property(
                "comparison_with_related_works",
                "string",
                "関連研究と比較した場合のこの論文の新規性について説明する．可能な限り既存研究を参照しながら記述すること．4文程度で詳細に記述する．",
            ),
        );
        properties.push(
            property(
                "proposed_method",
                "string",
                "この論文で使用されている手法の詳細について，一つずつ順を追って説明する．4文程度で詳細に記述する．",
            ),
        );
        properties.push(
            property(
                "datasets",
                "string",
                "この論文で使用されているデータセットをリストアップする．",
            ),
        );
        properties.push(
            property(
                "experiments",
                "string",
                "実験の設定と結果について詳細に説明する．4文程度で詳細に記述する．",
            ),
        );
        properties.push(
            property(
                "analysis",
                "string",
                "実験結果の分析について記述する．4文程度で詳細に記述する．",
            ),
        );
        properties.push(
            property(
                "contributions",
                "string",
                "この論文のコントリビューションをリスト形式で記述する．",
            ),
        );
        properties.push(
            property(
                "future_works",
                "string",
                "未解決の課題および将来の研究の方向性について記述．3文程度で詳細に記述する．",
            ),
        );
        assert(views(properties@) =~= summary_fields());
        JsonSchema { name: "summary".to_owned(), properties }
    }

    /// Begins the summarisation of a publication: the opening conversation
    /// and the full budget of requests. A publication without document text
    /// is refused.
    pub fn start(&self, paper: &Paper, instruction: &str) -> (result: Result<Extraction, SummaryError>)
        ensures
            result is Err <==> (forall|title: Seq<char>|
                !paper@.original_text_map.contains_key(title)),
            result matches Err(e) ==> e == SummaryError::EmptyDocument,
            result matches Ok(extraction) ==> {
                &&& extraction@.attempts_left == attempt_budget()
                &&& exists|sections|
                    is_reading_order(sections, paper@.original_text_map) && extraction@.messages
                        == opening_turns(
                        paper@.title,
                        instruction@,
                        headed_document(document_xml(paper@.title, paper@.authors, sections)),
                    )
            },
    {
        match self.get_messages(paper, instruction) {
            Ok(messages) => Ok(Extraction { messages, attempts_left: 5 }),
            Err(e) => Err(e),
        }
    }

    /// Takes the outcome of a request and says what is to be done next.
    ///
    /// A decoded answer is stored in the publication as its summary. In
    /// every other case the publication stays as it is.
    pub fn summarize(&self, paper: &mut Paper, extraction: &mut Extraction, outcome: ChatOutcome) -> (step:
        SummarizeStep)
        ensures
            final(extraction)@ == step_of(old(extraction)@, outcome@).0,
            match step_of(old(extraction)@, outcome@).1 {
                StepView::Retry => step == SummarizeStep::Retry && final(paper)@ == old(paper)@,
                StepView::Finished(summary) => step == SummarizeStep::Finished && final(paper)@ == (
                PaperView { summary, ..old(paper)@ }),
                StepView::Failed(e) => step == SummarizeStep::Failed(e) && final(paper)@ == old(
                    paper,
                )@,
            },
    {
        if extraction.attempts_left == 0 {
            return SummarizeStep::Failed(SummaryError::SummarizationExhausted);
        }
        match outcome {
            ChatOutcome::Decoded(summary) => {
                paper.summary = summary;
                SummarizeStep::Finished
            },
            ChatOutcome::Undecodable => SummarizeStep::Failed(SummaryError::InvalidPayload),
            ChatOutcome::TransportFailed => {
                let ghost before = views(extraction.messages@);
                extraction.attempts_left = extraction.attempts_left - 1;
                extraction.messages.push(Message::new("system", "JSON形式で出力してください．"));
                extraction.messages.push(Message::new("user", "要約してください．"));
                assert(views(extraction.messages@) =~= before + corrective_turns());
                if extraction.attempts_left == 0 {
                    SummarizeStep::Failed(SummaryError::SummarizationExhausted)
                } else {
                    SummarizeStep::Retry
                }
            },
        }
    }
}

fn property(name: &str, kind: &str, description: &str) -> (made: SchemaProperty)
    ensures
        made@ == field(name@, kind@, description@),
{
    SchemaProperty {
        name: name.to_owned(),
        kind: kind.to_owned(),
        description: description.to_owned(),
    }
}

} // verus!
