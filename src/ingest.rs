//! Ingestion: embed every line of a document and store one point per line.
use crate::calls::{
    copy_strings, is_call, AgentError, CallModel, DocModel, PointPayload, ServiceCall, Step,
    StepModel, COLLECTION, EMBED_DIMENSIONS, EMBED_MODEL,
};
use crate::files::File;
use vstd::prelude::*;

verus! {

/// What a service reported back during ingestion.
#[derive(Clone, Copy, Debug, PartialEq, Eq, Structural)]
pub enum IngestEvent {
    /// The embedding service returned this many vectors.
    Embedded(usize),
    /// The index stored the last point.
    Stored,
    /// The last call failed.
    Failed,
}

/// How far an ingestion has come.
#[derive(Clone, Copy, Debug, PartialEq, Eq, Structural)]
pub enum IngestPhase {
    /// The lines were sent to be embedded.
    AwaitingEmbeddings,
    /// This many points were sent to the index; the last awaits its answer.
    Storing(usize),
    /// The outcome was given.
    Done,
}

/// The first step of ingesting `d`.
pub open spec fn ingest_start(d: DocModel) -> (IngestPhase, StepModel<()>) {
    if d.rows.len() == 0 {
        (IngestPhase::Done, StepModel::Finish(Err(AgentError::EmptyInput)))
    } else {
        (
            IngestPhase::AwaitingEmbeddings,
            StepModel::Call(
                CallModel::Embed {
                    model: EMBED_MODEL@,
                    inputs: d.rows,
                    dimensions: Some(EMBED_DIMENSIONS),
                },
            ),
        )
    }
}

/// The request that stores the point of line `k` of `d`.
pub open spec fn upsert_of(d: DocModel, k: nat) -> StepModel<()> {
    StepModel::Call(CallModel::Upsert { collection: COLLECTION@, vector: k, payload: d })
}

/// Once `k` points are stored: store the next, or finish.
pub open spec fn store_next(d: DocModel, k: usize) -> (IngestPhase, StepModel<()>) {
    if k < d.rows.len() {
        (IngestPhase::Storing((k + 1) as usize), upsert_of(d, k as nat))
    } else {
        (IngestPhase::Done, StepModel::Finish(Ok(())))
    }
}

/// The step that follows event `e` in phase `p` of ingesting `d`.
pub open spec fn ingest_next(d: DocModel, p: IngestPhase, e: IngestEvent) -> (
    IngestPhase,
    StepModel<()>,
) {
    let failed = (IngestPhase::Done, StepModel::Finish(Err(AgentError::ServiceError)));
    match (p, e) {
        (IngestPhase::AwaitingEmbeddings, IngestEvent::Embedded(n)) => {
            if n == d.rows.len() {
                store_next(d, 0)
            } else {
                failed
            }
        },
        (IngestPhase::Storing(k), IngestEvent::Stored) => store_next(d, k),
        _ => failed,
    }
}

/// The steps that follow the events `es`, from phase `p`.
pub open spec fn ingest_run(d: DocModel, p: IngestPhase, es: Seq<IngestEvent>) -> Seq<
    StepModel<()>,
>
    decreases es.len(),
{
    if es.len() == 0 {
        Seq::empty()
    } else {
        let (q, s) = ingest_next(d, p, es[0]);
        seq![s] + ingest_run(d, q, es.drop_first())
    }
}

/// `n` acknowledgements from the index.
pub open spec fn acks(n: nat) -> Seq<IngestEvent> {
    Seq::new(n, |i: int| IngestEvent::Stored)
}

/// Relies on `uuid::Uuid::new_v4` and its `Display`: a random id in the
/// hyphenated form, 36 characters.
#[verifier::external_body]
fn fresh_point_id() -> (r: String)
    ensures
        r@.len() == 36,
{
    uuid::Uuid::new_v4().to_string()
}

/// An ingestion in progress.
pub struct IngestSession {
    pub doc: File,
    pub phase: IngestPhase,
}

impl IngestSession {
    /// Begins ingesting `doc`: fails with `EmptyInput`, calling nothing, when
    /// it has no lines; else asks for one embedding per line.
    pub fn start(doc: File) -> (r: (IngestSession, Step<()>))
        ensures
            r.0.doc == doc,
            (r.0.phase, r.1@) == ingest_start(doc@),
    {
        if doc.rows.len() == 0 {
            (IngestSession { doc, phase: IngestPhase::Done }, Step::Finish(Err(AgentError::EmptyInput)))
        } else {
            let inputs = copy_strings(&doc.rows);
            let call = ServiceCall::Embed {
                model: EMBED_MODEL.to_owned(),
                inputs,
                dimensions: Some(EMBED_DIMENSIONS),
            };
            (IngestSession { doc, phase: IngestPhase::AwaitingEmbeddings }, Step::Call(call))
        }
    }

    fn store_from(&mut self, k: usize) -> (r: Step<()>)
        ensures
            final(self).doc == old(self).doc,
            (final(self).phase, r@) == store_next(old(self).doc@, k),
            r is Call && r->Call_0 is Upsert ==> r->Call_0->Upsert_id@.len() == 36,
    {
        if k < self.doc.rows.len() {
            let payload = PointPayload {
                id: self.doc.path.clone(),
                content: self.doc.contents.clone(),
                rows: copy_strings(&self.doc.rows),
            };
            let call = ServiceCall::Upsert {
                collection: COLLECTION.to_owned(),
                id: fresh_point_id(),
                vector: k,
                payload,
            };
            self.phase = IngestPhase::Storing(k + 1);
            Step::Call(call)
        } else {
            self.phase = IngestPhase::Done;
            Step::Finish(Ok(()))
        }
    }

    /// Takes in what the last call reported and gives the next step: one
    /// upsert per vector, in order, each carrying the whole document; `Ok`
    /// after the last is stored; `ServiceError` on a failure, on a number of
    /// vectors other than the number of lines, or on an event out of turn.
    pub fn step(&mut self, e: IngestEvent) -> (r: Step<()>)
        ensures
            final(self).doc == old(self).doc,
            (final(self).phase, r@) == ingest_next(old(self).doc@, old(self).phase, e),
            r is Call && r->Call_0 is Upsert ==> r->Call_0->Upsert_id@.len() == 36,
    {
        match (self.phase, e) {
            (IngestPhase::AwaitingEmbeddings, IngestEvent::Embedded(n)) => {
                if n == self.doc.rows.len() {
                    self.store_from(0)
                } else {
                    self.phase = IngestPhase::Done;
                    Step::Finish(Err(AgentError::ServiceError))
                }
            },
            (IngestPhase::Storing(k), IngestEvent::Stored) => self.store_from(k),
            _ => {
                self.phase = IngestPhase::Done;
                Step::Finish(Err(AgentError::ServiceError))
            },
        }
    }
}

/// A document without lines is refused with `EmptyInput` before any service
/// is called.
pub proof fn lemma_empty_document_calls_nothing(d: DocModel)
    requires
        d.rows.len() == 0,
    ensures
        ingest_start(d).1 == StepModel::<()>::Finish(Err(AgentError::EmptyInput)),
        !is_call(ingest_start(d).1),
        ingest_start(d).0 == IngestPhase::Done,
{
}

proof fn lemma_store_rest(d: DocModel, k: usize)
    requires
        k <= d.rows.len() <= usize::MAX,
    ensures
        ingest_run(d, IngestPhase::Storing(k), acks((d.rows.len() - k + 1) as nat)) == Seq::new(
            (d.rows.len() - k) as nat,
            |j: int| upsert_of(d, (k + j) as nat),
        ).push(StepModel::Finish(Ok(()))),
    decreases d.rows.len() - k,
{
    let n = d.rows.len();
    let es = acks((n - k + 1) as nat);
    assert(es.drop_first() =~= acks((n - k) as nat));
    assert(es[0] == IngestEvent::Stored);
    let rest = ingest_run(d, IngestPhase::Storing(k), es);
    if k == n {
        assert(acks(0) =~= Seq::<IngestEvent>::empty());
        assert(ingest_run(d, IngestPhase::Done, acks(0)) == Seq::<StepModel<()>>::empty());
        assert(rest == seq![StepModel::<()>::Finish(Ok(()))] + Seq::<StepModel<()>>::empty());
        assert(rest =~= Seq::new(0, |j: int| upsert_of(d, (k + j) as nat)).push(
            StepModel::Finish(Ok(())),
        ));
    } else {
        lemma_store_rest(d, (k + 1) as usize);
        assert(acks((n - k) as nat) =~= acks((n - (k + 1) + 1) as nat));
        assert(rest =~= Seq::new((n - k) as nat, |j: int| upsert_of(d, (k + j) as nat)).push(
            StepModel::Finish(Ok(())),
        ));
    }
}

/// Ingesting a document of `n` lines, when the embedding service answers
/// with `n` vectors and the index accepts every point, asks for the
/// embeddings of exactly its lines, then stores exactly `n` points, the
/// `k`-th with the `k`-th vector, each carrying the document's id, text and
/// whole list of lines, and then succeeds.
pub proof fn lemma_ingest_stores_one_point_per_line(d: DocModel)
    requires
        0 < d.rows.len() <= usize::MAX,
    ensures
        ingest_start(d) == (
            IngestPhase::AwaitingEmbeddings,
            StepModel::<()>::Call(
                CallModel::Embed {
                    model: EMBED_MODEL@,
                    inputs: d.rows,
                    dimensions: Some(EMBED_DIMENSIONS),
                },
            ),
        ),
        ingest_run(
            d,
            IngestPhase::AwaitingEmbeddings,
            seq![IngestEvent::Embedded(d.rows.len() as usize)] + acks(d.rows.len()),
        ) == Seq::new(d.rows.len(), |k: int| upsert_of(d, k as nat)).push(
            StepModel::Finish(Ok(())),
        ),
{
    let n = d.rows.len();
    let es = seq![IngestEvent::Embedded(n as usize)] + acks(n);
    assert(es[0] == IngestEvent::Embedded(n as usize));
    assert(es.drop_first() =~= acks((n - 1 + 1) as nat));
    lemma_store_rest(d, 1);
    assert(ingest_run(d, IngestPhase::AwaitingEmbeddings, es) =~= Seq::new(
        n,
        |k: int| upsert_of(d, k as nat),
    ).push(StepModel::Finish(Ok(()))));
}

} // verus!
