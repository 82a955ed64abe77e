//! What the agent asks of the outside services, and what a step of its work
//! produces.
use crate::files::{views_of, File};
use vstd::prelude::*;

verus! {

/// The vector index collection that holds every stored point.
pub const COLLECTION: &'static str = "my-collection";

/// The model that turns text into embedding vectors.
pub const EMBED_MODEL: &'static str = "text-embedding-ada-002";

/// The model that writes answers.
pub const PROMPT_MODEL: &'static str = "gpt-4o";

/// The number of dimensions of a stored embedding vector.
pub const EMBED_DIMENSIONS: u32 = 1536;

/// The payload key whose text is handed to the model as context.
pub const CONTENT_KEY: &'static str = "content";

/// The payload key that names the source document.
pub const ID_KEY: &'static str = "id";

/// The payload key that holds the document's lines.
pub const ROWS_KEY: &'static str = "rows";

/// Stands between the question and the retrieved context in the user message.
pub const CONTEXT_HEADER: &'static str = "\nProvided context:\n";

/// The fixed instruction that opens every conversation with the model.
pub const SYSTEM_MESSAGE: &'static str = "You are a world-class data analyst, specialising in analysing comma-delimited CSV files.\n\nYour job is to analyse some CSV snippets and determine what the results are for the question that the user is asking.\n\nYou should aim to be concise. If you don't know something, don't make it up but say 'I don't know.'.";

/// Why an ingestion or a question failed.
#[derive(Clone, Copy, Debug, PartialEq, Eq, Structural)]
pub enum AgentError {
    /// The document has no lines to store.
    EmptyInput,
    /// The index holds no point near the question.
    NoResults,
    /// The retrieved point has no content field.
    MalformedPayload,
    /// The model returned no answer text.
    NoChoices,
    /// A service failed, or answered out of turn or with the wrong number of vectors.
    ServiceError,
}

/// Who speaks a chat message.
#[derive(Clone, Copy, Debug, PartialEq, Eq, Structural)]
pub enum Role {
    System,
    User,
}

/// One message of the conversation sent to the model.
pub struct ChatMessage {
    pub role: Role,
    pub content: String,
}

impl View for ChatMessage {
    type V = (Role, Seq<char>);

    open spec fn view(&self) -> (Role, Seq<char>) {
        (self.role, self.content@)
    }
}

/// What a stored point carries besides its vector: the whole document.
pub struct PointPayload {
    pub id: String,
    pub content: String,
    pub rows: Vec<String>,
}

/// A document, or a payload, as plain text.
pub struct DocModel {
    pub path: Seq<char>,
    pub contents: Seq<char>,
    pub rows: Seq<Seq<char>>,
}

impl View for PointPayload {
    type V = DocModel;

    open spec fn view(&self) -> DocModel {
        DocModel { path: self.id@, contents: self.content@, rows: views_of(self.rows@) }
    }
}

impl View for File {
    type V = DocModel;

    open spec fn view(&self) -> DocModel {
        DocModel { path: self.path@, contents: self.contents@, rows: views_of(self.rows@) }
    }
}

/// One field of a retrieved payload, its value as text.
#[derive(Clone, Debug)]
pub struct PayloadField {
    pub key: String,
    pub text: String,
}

/// The payload of a point that a search returned.
#[derive(Clone, Debug)]
pub struct RetrievedPoint {
    pub fields: Vec<PayloadField>,
}

impl View for RetrievedPoint {
    type V = Seq<(Seq<char>, Seq<char>)>;

    open spec fn view(&self) -> Seq<(Seq<char>, Seq<char>)> {
        self.fields@.map_values(|f: PayloadField| (f.key@, f.text@))
    }
}

/// A request to one of the services. Vectors stay with the caller: a
/// request names one by its position in the latest embedding answer.
pub enum ServiceCall {
    /// Embed each input, in order.
    Embed { model: String, inputs: Vec<String>, dimensions: Option<u32> },
    /// Find the `limit` points nearest to the vector.
    Search { collection: String, vector: usize, limit: u64, with_payload: bool },
    /// Store one new point under a fresh id.
    Upsert { collection: String, id: String, vector: usize, payload: PointPayload },
    /// Ask the model to continue the conversation.
    Complete { model: String, messages: Vec<ChatMessage> },
}

/// A request as plain values; the fresh id of an upsert is left out.
pub enum CallModel {
    Embed { model: Seq<char>, inputs: Seq<Seq<char>>, dimensions: Option<u32> },
    Search { collection: Seq<char>, vector: nat, limit: u64, with_payload: bool },
    Upsert { collection: Seq<char>, vector: nat, payload: DocModel },
    Complete { model: Seq<char>, messages: Seq<(Role, Seq<char>)> },
}

impl View for ServiceCall {
    type V = CallModel;

    open spec fn view(&self) -> CallModel {
        match self {
            ServiceCall::Embed { model, inputs, dimensions } => CallModel::Embed {
                model: model@,
                inputs: views_of(inputs@),
                dimensions: *dimensions,
            },
            ServiceCall::Search { collection, vector, limit, with_payload } => CallModel::Search {
                collection: collection@,
                vector: *vector as nat,
                limit: *limit,
                with_payload: *with_payload,
            },
            ServiceCall::Upsert { collection, id, vector, payload } => CallModel::Upsert {
                collection: collection@,
                vector: *vector as nat,
                payload: payload@,
            },
            ServiceCall::Complete { model, messages } => CallModel::Complete {
                model: model@,
                messages: messages@.map_values(|m: ChatMessage| m@),
            },
        }
    }
}

/// What the caller does next: make one service call and report back, or stop
/// with the outcome.
pub enum Step<T> {
    Call(ServiceCall),
    Finish(Result<T, AgentError>),
}

/// A step as plain values.
pub enum StepModel<V> {
    Call(CallModel),
    Finish(Result<V, AgentError>),
}

impl<T: View> View for Step<T> {
    type V = StepModel<T::V>;

    open spec fn view(&self) -> StepModel<T::V> {
        match self {
            Step::Call(c) => StepModel::Call(c@),
            Step::Finish(Ok(t)) => StepModel::Finish(Ok(t@)),
            Step::Finish(Err(e)) => StepModel::Finish(Err(*e)),
        }
    }
}

/// Whether the step stores a point in the index.
pub open spec fn is_upsert<V>(s: StepModel<V>) -> bool {
    match s {
        StepModel::Call(CallModel::Upsert { .. }) => true,
        _ => false,
    }
}

/// Whether the step asks the model for text.
pub open spec fn is_completion<V>(s: StepModel<V>) -> bool {
    match s {
        StepModel::Call(CallModel::Complete { .. }) => true,
        _ => false,
    }
}

/// Whether the step calls any service at all.
pub open spec fn is_call<V>(s: StepModel<V>) -> bool {
    s is Call
}

/// A copy of a list of strings.
pub fn copy_strings(v: &Vec<String>) -> (r: Vec<String>)
    ensures
        r@ == v@,
{
    let mut r: Vec<String> = Vec::new();
    for i in 0..v.len()
        invariant
            r@ == v@.take(i as int),
    {
        r.push(v[i].clone());
        assert(v@.take(i + 1) == v@.take(i as int).push(v@[i as int]));
    }
    assert(v@.take(v.len() as int) == v@);
    r
}

} // verus!
