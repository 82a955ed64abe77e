//! Answering a question: embed it, fetch the nearest stored point, and ask
//! the model with that point's text as context.
use crate::calls::{
    is_completion, is_upsert, AgentError, CallModel, ChatMessage, DocModel, RetrievedPoint, Role,
    ServiceCall, Step, StepModel, COLLECTION, CONTENT_KEY, CONTEXT_HEADER, EMBED_MODEL,
    PROMPT_MODEL, SYSTEM_MESSAGE,
};
use crate::files::lines_of;
use crate::ingest::{acks, ingest_run, lemma_ingest_stores_one_point_per_line, upsert_of, IngestEvent, IngestPhase};
use vstd::prelude::*;

verus! {

/// What a service reported back while answering.
pub enum AnswerEvent {
    /// The embedding service returned this many vectors.
    Embedded(usize),
    /// The index returned these points, nearest first.
    Searched(Vec<RetrievedPoint>),
    /// The model returned these choices; each may lack text.
    Completed(Vec<Option<String>>),
    /// The last call failed.
    Failed,
}

/// An event as plain values.
pub enum AnswerEventModel {
    Embedded(nat),
    Searched(Seq<Seq<(Seq<char>, Seq<char>)>>),
    Completed(Seq<Option<Seq<char>>>),
    Failed,
}

/// The text of an optional string.
pub open spec fn opt_view(o: Option<String>) -> Option<Seq<char>> {
    match o {
        Some(s) => Some(s@),
        None => None,
    }
}

impl View for AnswerEvent {
    type V = AnswerEventModel;

    open spec fn view(&self) -> AnswerEventModel {
        match self {
            AnswerEvent::Embedded(n) => AnswerEventModel::Embedded(*n as nat),
            AnswerEvent::Searched(ps) => AnswerEventModel::Searched(
                ps@.map_values(|p: RetrievedPoint| p@),
            ),
            AnswerEvent::Completed(cs) => AnswerEventModel::Completed(
                cs@.map_values(|c: Option<String>| opt_view(c)),
            ),
            AnswerEvent::Failed => AnswerEventModel::Failed,
        }
    }
}

/// How far an answer has come.
#[derive(Clone, Copy, Debug, PartialEq, Eq, Structural)]
pub enum AnswerPhase {
    AwaitingEmbedding,
    AwaitingSearch,
    AwaitingCompletion,
    Done,
}

/// The text of the first field named `key`, if any.
pub open spec fn find_field(fields: Seq<(Seq<char>, Seq<char>)>, key: Seq<char>) -> Option<
    Seq<char>,
>
    decreases fields.len(),
{
    if fields.len() == 0 {
        None
    } else if fields[0].0 == key {
        Some(fields[0].1)
    } else {
        find_field(fields.drop_first(), key)
    }
}

/// The user message: the question, then the context under a header.
pub open spec fn user_message(query: Seq<char>, context: Seq<char>) -> Seq<char> {
    query + CONTEXT_HEADER@ + context
}

/// The conversation sent to the model.
pub open spec fn prompt_messages(query: Seq<char>, context: Seq<char>) -> Seq<(Role, Seq<char>)> {
    seq![(Role::System, SYSTEM_MESSAGE@), (Role::User, user_message(query, context))]
}

/// The request that asks the model about `query` given `context`.
pub open spec fn completion_of(query: Seq<char>, context: Seq<char>) -> StepModel<Seq<char>> {
    StepModel::Call(
        CallModel::Complete { model: PROMPT_MODEL@, messages: prompt_messages(query, context) },
    )
}

/// The request for the single nearest point, with its payload.
pub open spec fn nearest_search() -> StepModel<Seq<char>> {
    StepModel::Call(
        CallModel::Search { collection: COLLECTION@, vector: 0, limit: 1, with_payload: true },
    )
}

/// The first step of answering `query`.
pub open spec fn answer_start(query: Seq<char>) -> (AnswerPhase, StepModel<Seq<char>>) {
    (
        AnswerPhase::AwaitingEmbedding,
        StepModel::Call(
            CallModel::Embed { model: EMBED_MODEL@, inputs: seq![query], dimensions: None },
        ),
    )
}

/// The step that follows event `e` in phase `p` of answering `query`.
pub open spec fn answer_next(query: Seq<char>, p: AnswerPhase, e: AnswerEventModel) -> (
    AnswerPhase,
    StepModel<Seq<char>>,
) {
    let fail = |err: AgentError| (AnswerPhase::Done, StepModel::Finish(Err(err)));
    match (p, e) {
        (AnswerPhase::AwaitingEmbedding, AnswerEventModel::Embedded(n)) => {
            if n > 0 {
                (AnswerPhase::AwaitingSearch, nearest_search())
            } else {
                fail(AgentError::ServiceError)
            }
        },
        (AnswerPhase::AwaitingSearch, AnswerEventModel::Searched(ps)) => {
            if ps.len() == 0 {
                fail(AgentError::NoResults)
            } else {
                match find_field(ps[0], CONTENT_KEY@) {
                    Some(context) => (AnswerPhase::AwaitingCompletion, completion_of(query, context)),
                    None => fail(AgentError::MalformedPayload),
                }
            }
        },
        (AnswerPhase::AwaitingCompletion, AnswerEventModel::Completed(cs)) => {
            if cs.len() > 0 && cs[0] is Some {
                (AnswerPhase::Done, StepModel::Finish(Ok(cs[0]->Some_0)))
            } else {
                fail(AgentError::NoChoices)
            }
        },
        _ => fail(AgentError::ServiceError),
    }
}

/// The steps that follow the events `es`, from phase `p`.
pub open spec fn answer_run(query: Seq<char>, p: AnswerPhase, es: Seq<AnswerEventModel>) -> Seq<
    StepModel<Seq<char>>,
>
    decreases es.len(),
{
    if es.len() == 0 {
        Seq::empty()
    } else {
        let (q, s) = answer_next(query, p, es[0]);
        seq![s] + answer_run(query, q, es.drop_first())
    }
}

/// The text of the first field of `p` named `key`.
fn field_text(p: &RetrievedPoint, key: &String) -> (r: Option<String>)
    ensures
        opt_view(r) == find_field(p@, key@),
{
    let ghost fs = p@;
    let mut i: usize = 0;
    assert(fs.skip(0) =~= fs);
    while i < p.fields.len()
        invariant
            i <= p.fields.len(),
            fs == p@,
            find_field(fs, key@) == find_field(fs.skip(i as int), key@),
        decreases p.fields.len() - i,
    {
        let ghost rest = fs.skip(i as int);
        assert(rest[0] == (p.fields@[i as int].key@, p.fields@[i as int].text@));
        if p.fields[i].key == *key {
            return Some(p.fields[i].text.clone());
        }
        assert(rest.drop_first() =~= fs.skip(i + 1));
        i += 1;
    }
    assert(fs.skip(i as int) =~= Seq::<(Seq<char>, Seq<char>)>::empty());
    None
}

/// An answer in progress.
pub struct AnswerSession {
    pub query: String,
    pub phase: AnswerPhase,
}

impl AnswerSession {
    /// Begins answering `query`: asks for its embedding.
    pub fn start(query: String) -> (r: (AnswerSession, Step<String>))
        ensures
            r.0.query@ == query@,
            (r.0.phase, r.1@) == answer_start(query@),
    {
        let mut inputs: Vec<String> = Vec::new();
        inputs.push(query.clone());
        let call = ServiceCall::Embed { model: EMBED_MODEL.to_owned(), inputs, dimensions: None };
        proof {
            assert(crate::files::views_of(inputs@) =~= seq![query@]);
        }
        (AnswerSession { query, phase: AnswerPhase::AwaitingEmbedding }, Step::Call(call))
    }

    /// Takes in what the last call reported and gives the next step: a
    /// search for the single nearest point; `NoResults` when there is none;
    /// `MalformedPayload` when it has no content field; else the question
    /// and that content sent to the model; then the text of its first
    /// choice, or `NoChoices`. A failure, a query without a vector, or an
    /// event out of turn gives `ServiceError`. Nothing is ever stored.
    pub fn step(&mut self, e: AnswerEvent) -> (r: Step<String>)
        ensures
            final(self).query == old(self).query,
            (final(self).phase, r@) == answer_next(old(self).query@, old(self).phase, e@),
    {
        let ghost ev = e@;
        match (self.phase, e) {
            (AnswerPhase::AwaitingEmbedding, AnswerEvent::Embedded(n)) => {
                if n > 0 {
                    self.phase = AnswerPhase::AwaitingSearch;
                    Step::Call(
                        ServiceCall::Search {
                            collection: COLLECTION.to_owned(),
                            vector: 0,
                            limit: 1,
                            with_payload: true,
                        },
                    )
                } else {
                    self.phase = AnswerPhase::Done;
                    Step::Finish(Err(AgentError::ServiceError))
                }
            },
            (AnswerPhase::AwaitingSearch, AnswerEvent::Searched(ps)) => {
                self.phase = AnswerPhase::Done;
                if ps.len() == 0 {
                    return Step::Finish(Err(AgentError::NoResults));
                }
                let key = CONTENT_KEY.to_owned();
                match field_text(&ps[0], &key) {
                    Some(context) => {
                        self.phase = AnswerPhase::AwaitingCompletion;
                        Step::Call(self.completion(context))
                    },
                    None => Step::Finish(Err(AgentError::MalformedPayload)),
                }
            },
            (AnswerPhase::AwaitingCompletion, AnswerEvent::Completed(cs)) => {
                self.phase = AnswerPhase::Done;
                if cs.len() > 0 {
                    match &cs[0] {
                        Some(t) => Step::Finish(Ok(t.clone())),
                        None => Step::Finish(Err(AgentError::NoChoices)),
                    }
                } else {
                    Step::Finish(Err(AgentError::NoChoices))
                }
            },
            _ => {
                self.phase = AnswerPhase::Done;
                Step::Finish(Err(AgentError::ServiceError))
            },
        }
    }

    /// The request that asks the model about the question given `context`.
    fn completion(&self, context: String) -> (r: ServiceCall)
        ensures
            StepModel::<Seq<char>>::Call(r@) == completion_of(self.query@, context@),
    {
        let user = self.query.clone().concat(CONTEXT_HEADER).concat(context.as_str());
        let mut messages: Vec<ChatMessage> = Vec::new();
        messages.push(ChatMessage { role: Role::System, content: SYSTEM_MESSAGE.to_owned() });
        messages.push(ChatMessage { role: Role::User, content: user });
        proof {
            assert(messages@.map_values(|m: ChatMessage| m@) =~= prompt_messages(
                self.query@,
                context@,
            ));
        }
        ServiceCall::Complete { model: PROMPT_MODEL.to_owned(), messages }
    }
}

/// Whether every search answer among `es` is empty.
pub open spec fn searches_find_nothing(es: Seq<AnswerEventModel>) -> bool {
    forall|i: int|
        0 <= i < es.len() ==> match #[trigger] es[i] {
            AnswerEventModel::Searched(ps) => ps.len() == 0,
            _ => true,
        }
}

/// Whatever the services report, answering a question never stores a point.
pub proof fn lemma_answer_never_upserts(
    query: Seq<char>,
    p: AnswerPhase,
    es: Seq<AnswerEventModel>,
)
    ensures
        forall|i: int|
            0 <= i < answer_run(query, p, es).len() ==> !is_upsert(
                #[trigger] answer_run(query, p, es)[i],
            ),
    decreases es.len(),
{
    if es.len() > 0 {
        let (q, s) = answer_next(query, p, es[0]);
        lemma_answer_never_upserts(query, q, es.drop_first());
        let rest = answer_run(query, q, es.drop_first());
        assert forall|i: int| 0 <= i < answer_run(query, p, es).len() implies !is_upsert(
            #[trigger] answer_run(query, p, es)[i],
        ) by {
            if i > 0 {
                assert(answer_run(query, p, es)[i] == rest[i - 1]);
            }
        }
    }
}

/// While the index finds nothing, the model is never asked, whatever else
/// the services report.
pub proof fn lemma_no_match_never_completes(
    query: Seq<char>,
    p: AnswerPhase,
    es: Seq<AnswerEventModel>,
)
    requires
        searches_find_nothing(es),
    ensures
        forall|i: int|
            0 <= i < answer_run(query, p, es).len() ==> !is_completion(
                #[trigger] answer_run(query, p, es)[i],
            ),
    decreases es.len(),
{
    if es.len() > 0 {
        let (q, s) = answer_next(query, p, es[0]);
        let tail = es.drop_first();
        assert(searches_find_nothing(tail)) by {
            assert forall|i: int| 0 <= i < tail.len() implies match #[trigger] tail[i] {
                AnswerEventModel::Searched(ps) => ps.len() == 0,
                _ => true,
            } by {
                assert(tail[i] == es[i + 1]);
            }
        }
        assert(match es[0] {
            AnswerEventModel::Searched(ps) => ps.len() == 0,
            _ => true,
        });
        lemma_no_match_never_completes(query, q, tail);
        let rest = answer_run(query, q, tail);
        assert forall|i: int| 0 <= i < answer_run(query, p, es).len() implies !is_completion(
            #[trigger] answer_run(query, p, es)[i],
        ) by {
            if i > 0 {
                assert(answer_run(query, p, es)[i] == rest[i - 1]);
            }
        }
    }
}

/// When the index finds nothing near the question, answering fails with
/// `NoResults` right after the search.
pub proof fn lemma_no_match_is_no_results(query: Seq<char>, n: nat)
    requires
        n > 0,
    ensures
        answer_run(
            query,
            AnswerPhase::AwaitingEmbedding,
            seq![AnswerEventModel::Embedded(n), AnswerEventModel::Searched(Seq::empty())],
        ) == seq![nearest_search(), StepModel::<Seq<char>>::Finish(Err(AgentError::NoResults))],
{
    let es = seq![AnswerEventModel::Embedded(n), AnswerEventModel::Searched(Seq::empty())];
    assert(es.drop_first().drop_first() =~= Seq::<AnswerEventModel>::empty());
    assert(es.drop_first()[0] == AnswerEventModel::Searched(Seq::empty()));
    let r0 = answer_next(query, AnswerPhase::AwaitingEmbedding, es[0]);
    assert(r0 == (AnswerPhase::AwaitingSearch, nearest_search()));
    let r1 = answer_next(query, AnswerPhase::AwaitingSearch, es.drop_first()[0]);
    assert(r1.0 == AnswerPhase::Done);
    assert(answer_run(query, AnswerPhase::Done, es.drop_first().drop_first()) =~= Seq::empty());
    assert(answer_run(query, AnswerPhase::AwaitingSearch, es.drop_first()) =~= seq![r1.1]);
    assert(answer_run(query, AnswerPhase::AwaitingEmbedding, es) =~= seq![
        nearest_search(),
        StepModel::<Seq<char>>::Finish(Err(AgentError::NoResults)),
    ]);
}

/// Round trip: ingestion stores, for line `k` of a document, a point with
/// the `k`-th vector and the document as payload. A question equal to that
/// line, answered from a point whose content field holds what was stored,
/// is sent to the model with the document's text as context, among whose
/// lines the question stands.
pub proof fn lemma_round_trip(d: DocModel, k: int, fields: Seq<(Seq<char>, Seq<char>)>)
    requires
        d.rows == lines_of(d.contents),
        0 <= k < d.rows.len() <= usize::MAX,
        find_field(fields, CONTENT_KEY@) == Some(d.contents),
    ensures
        ingest_run(
            d,
            IngestPhase::AwaitingEmbeddings,
            seq![IngestEvent::Embedded(d.rows.len() as usize)] + acks(d.rows.len()),
        )[k] == upsert_of(d, k as nat),
        answer_run(
            d.rows[k],
            AnswerPhase::AwaitingEmbedding,
            seq![AnswerEventModel::Embedded(1), AnswerEventModel::Searched(seq![fields])],
        ) == seq![nearest_search(), completion_of(d.rows[k], d.contents)],
        lines_of(d.contents).contains(d.rows[k]),
{
    lemma_ingest_stores_one_point_per_line(d);
    let q = d.rows[k];
    let es = seq![AnswerEventModel::Embedded(1), AnswerEventModel::Searched(seq![fields])];
    assert(es.drop_first().drop_first() =~= Seq::<AnswerEventModel>::empty());
    assert(es.drop_first()[0] == AnswerEventModel::Searched(seq![fields]));
    assert(seq![fields][0] == fields);
    let r0 = answer_next(q, AnswerPhase::AwaitingEmbedding, es[0]);
    assert(r0 == (AnswerPhase::AwaitingSearch, nearest_search()));
    let r1 = answer_next(q, AnswerPhase::AwaitingSearch, es.drop_first()[0]);
    assert(r1 == (AnswerPhase::AwaitingCompletion, completion_of(q, d.contents)));
    assert(answer_run(q, AnswerPhase::AwaitingCompletion, es.drop_first().drop_first())
        =~= Seq::empty());
    assert(answer_run(q, AnswerPhase::AwaitingSearch, es.drop_first()) =~= seq![r1.1]);
    assert(answer_run(q, AnswerPhase::AwaitingEmbedding, es) =~= seq![
        nearest_search(),
        completion_of(q, d.contents),
    ]);
    assert(lines_of(d.contents)[k] == q);
}

} // verus!
