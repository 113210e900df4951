//! The adapter to the vector store: which call comes next, and what each answer
//! of the store means. The calls themselves are made by the program around the
//! library.
use vstd::prelude::*;
use crate::chunker::texts;
use crate::error::PipelineError;

verus! {

/// How the store measures the likeness of two vectors.
#[derive(Clone, Copy, Debug, PartialEq, Eq, Structural)]
pub enum Metric {
    Cosine,
    Euclid,
    Dot,
    Manhattan,
}

/// Why a call to the store did not go through.
#[derive(Clone, Copy, Debug, PartialEq, Eq, Structural)]
pub enum StoreFailure {
    /// No connection to the store.
    Unreachable,
    /// The collection to create is already there.
    AlreadyExists,
    /// The collection asked for is not there.
    NotFound,
    /// The store refused the call for another reason.
    Rejected,
}

/// What the store answered to one call.
#[derive(Clone, Copy, Debug, PartialEq, Eq, Structural)]
pub enum StoreEvent {
    /// Answer to an existence check.
    Exists(bool),
    /// Answer to a creation, with the flag the store sent.
    Created(bool),
    /// The store has acknowledged a write.
    Written,
    /// The call failed.
    Failed(StoreFailure),
}

/// The call to make next.
#[derive(Clone, Copy, Debug, PartialEq, Eq, Structural)]
pub enum StoreAction {
    /// Ask whether the collection exists.
    CheckExists,
    /// Create the collection.
    Create { dimension: u64, metric: Metric },
    /// Write the records; with `wait`, block until the store has confirmed.
    Write { wait: bool },
    /// Nothing more to do: the state holds the outcome.
    Finish,
}

/// Where the making of a collection stands.
#[derive(Clone, Copy, Debug, PartialEq, Eq, Structural)]
pub enum EnsureState {
    /// The existence check is under way.
    Checking,
    /// The creation is under way.
    Creating,
    /// The collection is there.
    Ready,
    /// The collection could not be made.
    Failed(PipelineError),
}

/// Where a write of records stands.
#[derive(Clone, Copy, Debug, PartialEq, Eq, Structural)]
pub enum UpsertState {
    /// The collection is being made.
    Ensuring(EnsureState),
    /// The write is under way.
    Writing,
    /// The store has confirmed the write.
    Succeeded,
    /// The write did not happen.
    Failed(PipelineError),
}

/// One embedded chunk: a fresh identifier, the vector, and the chunk's text.
/// The vector's components are kept as the bit patterns of single-precision
/// numbers.
#[derive(Clone, Debug)]
pub struct EmbeddingRecord {
    pub id: String,
    pub vector: Vec<u32>,
    pub text: String,
}

/// A value stored with a point.
#[derive(Clone, Debug)]
pub enum PayloadValue {
    /// A string.
    Text(String),
    /// Anything else.
    Other,
}

/// One named value of a point's payload.
#[derive(Clone, Debug)]
pub struct PayloadField {
    pub key: String,
    pub value: PayloadValue,
}

/// A point that a search returned, with its payload.
#[derive(Clone, Debug)]
pub struct RetrievedPoint {
    pub payload: Vec<PayloadField>,
}

/// A search to run.
#[derive(Clone, Debug)]
pub struct SearchRequest {
    pub collection_name: String,
    pub vector: Vec<u32>,
    pub limit: u64,
    pub with_payload: bool,
}

/// The fixed parameters of the adapter.
#[derive(Clone, Debug)]
pub struct VectorStore {
    pub db_url: String,
    pub dimension: u64,
    pub metric: Metric,
    pub limit: u64,
}

/// The state after `event` has answered the call pending in `state`. A
/// collection that is found, made, or refused because it is already there is
/// ready; a finished run stays as it is.
pub open spec fn ensure_next(state: EnsureState, event: StoreEvent) -> EnsureState {
    match state {
        EnsureState::Checking => match event {
            StoreEvent::Exists(true) => EnsureState::Ready,
            StoreEvent::Exists(false) => EnsureState::Creating,
            _ => EnsureState::Failed(PipelineError::StoreUnavailable),
        },
        EnsureState::Creating => match event {
            StoreEvent::Created(true) => EnsureState::Ready,
            StoreEvent::Failed(StoreFailure::AlreadyExists) => EnsureState::Ready,
            _ => EnsureState::Failed(PipelineError::StoreWrite),
        },
        EnsureState::Ready => EnsureState::Ready,
        EnsureState::Failed(e) => EnsureState::Failed(e),
    }
}

/// The state of a write after `event`: first the collection is made, then the
/// records are written.
pub open spec fn upsert_next(state: UpsertState, event: StoreEvent) -> UpsertState {
    match state {
        UpsertState::Ensuring(inner) => match ensure_next(inner, event) {
            EnsureState::Ready => UpsertState::Writing,
            EnsureState::Failed(e) => UpsertState::Failed(e),
            other => UpsertState::Ensuring(other),
        },
        UpsertState::Writing => match event {
            StoreEvent::Written => UpsertState::Succeeded,
            _ => UpsertState::Failed(PipelineError::StoreWrite),
        },
        UpsertState::Succeeded => UpsertState::Succeeded,
        UpsertState::Failed(e) => UpsertState::Failed(e),
    }
}

/// The state reached from `state` when the store answers with `events` in turn.
pub open spec fn ensure_run(state: EnsureState, events: Seq<StoreEvent>) -> EnsureState
    decreases events.len(),
{
    if events.len() == 0 {
        state
    } else {
        ensure_run(ensure_next(state, events[0]), events.drop_first())
    }
}

/// The state of a write reached from `state` when the store answers with
/// `events` in turn.
pub open spec fn upsert_run(state: UpsertState, events: Seq<StoreEvent>) -> UpsertState
    decreases events.len(),
{
    if events.len() == 0 {
        state
    } else {
        upsert_run(upsert_next(state, events[0]), events.drop_first())
    }
}

/// Every vector has the length `dimension`.
pub open spec fn all_fit(records: Seq<EmbeddingRecord>, dimension: u64) -> bool {
    forall|i: int| 0 <= i < records.len() ==> (#[trigger] records[i]).vector@.len() == dimension
}

impl UpsertState {
    /// The outcome of the write, once it is finished.
    pub open spec fn outcome_spec(self) -> Option<Result<(), PipelineError>> {
        match self {
            UpsertState::Succeeded => Some(Ok(())),
            UpsertState::Failed(e) => Some(Err(e)),
            _ => None,
        }
    }

    /// The outcome of the write: `None` while a call is still pending.
    pub fn outcome(self) -> (result: Option<Result<(), PipelineError>>)
        ensures
            result == self.outcome_spec(),
    {
        match self {
            UpsertState::Succeeded => Some(Ok(())),
            UpsertState::Failed(e) => Some(Err(e)),
            _ => None,
        }
    }
}

impl EnsureState {
    /// The outcome of making the collection, once it is finished.
    pub open spec fn outcome_spec(self) -> Option<Result<(), PipelineError>> {
        match self {
            EnsureState::Ready => Some(Ok(())),
            EnsureState::Failed(e) => Some(Err(e)),
            _ => None,
        }
    }

    /// The outcome of making the collection: `None` while a call is pending.
    pub fn outcome(self) -> (result: Option<Result<(), PipelineError>>)
        ensures
            result == self.outcome_spec(),
    {
        match self {
            EnsureState::Ready => Some(Ok(())),
            EnsureState::Failed(e) => Some(Err(e)),
            _ => None,
        }
    }
}

impl VectorStore {
    /// The adapter for the store at `db_url`: vectors of 768 components, compared
    /// by cosine, six results to a search.
    pub fn new(db_url: &str) -> (store: Self)
        ensures
            store.db_url@ == db_url@,
            store.dimension == 768,
            store.metric == Metric::Cosine,
            store.limit == 6,
    {
        VectorStore { db_url: db_url.to_owned(), dimension: 768, metric: Metric::Cosine, limit: 6 }
    }

    /// The call that is pending while a collection is in `state`.
    pub open spec fn ensure_action(&self, state: EnsureState) -> StoreAction {
        match state {
            EnsureState::Checking => StoreAction::CheckExists,
            EnsureState::Creating => StoreAction::Create {
                dimension: self.dimension,
                metric: self.metric,
            },
            _ => StoreAction::Finish,
        }
    }

    /// The call that is pending while a write is in `state`. Writes wait for the
    /// store's confirmation.
    pub open spec fn upsert_action(&self, state: UpsertState) -> StoreAction {
        match state {
            UpsertState::Ensuring(inner) => self.ensure_action(inner),
            UpsertState::Writing => StoreAction::Write { wait: true },
            _ => StoreAction::Finish,
        }
    }

    /// The state in which a write of `records` starts: with the existence check,
    /// unless a vector has the wrong length, which fails the write at once.
    pub open spec fn upsert_start(&self, records: Seq<EmbeddingRecord>) -> UpsertState {
        if all_fit(records, self.dimension) {
            UpsertState::Ensuring(EnsureState::Checking)
        } else {
            UpsertState::Failed(PipelineError::StoreWrite)
        }
    }

    /// Starts making a collection: the first call is the existence check.
    pub fn begin_collection(&self) -> (step: (EnsureState, StoreAction))
        ensures
            step.0 == EnsureState::Checking,
            step.1 == self.ensure_action(step.0),
    {
        (EnsureState::Checking, StoreAction::CheckExists)
    }

    /// Takes the store's answer to the call pending in `state`, and gives the
    /// next state with the call to make in it.
    pub fn create_collection(&self, state: EnsureState, event: StoreEvent) -> (step: (
        EnsureState,
        StoreAction,
    ))
        ensures
            step.0 == ensure_next(state, event),
            step.1 == self.ensure_action(step.0),
    {
        let next = match state {
            EnsureState::Checking => match event {
                StoreEvent::Exists(found) => if found {
                    EnsureState::Ready
                } else {
                    EnsureState::Creating
                },
                _ => EnsureState::Failed(PipelineError::StoreUnavailable),
            },
            EnsureState::Creating => match event {
                StoreEvent::Created(made) => if made {
                    EnsureState::Ready
                } else {
                    EnsureState::Failed(PipelineError::StoreWrite)
                },
                StoreEvent::Failed(StoreFailure::AlreadyExists) => EnsureState::Ready,
                _ => EnsureState::Failed(PipelineError::StoreWrite),
            },
            EnsureState::Ready => EnsureState::Ready,
            EnsureState::Failed(e) => EnsureState::Failed(e),
        };
        (next, self.pending_for_collection(next))
    }

    /// The call to make while a collection is in `state`.
    pub fn pending_for_collection(&self, state: EnsureState) -> (action: StoreAction)
        ensures
            action == self.ensure_action(state),
    {
        match state {
            EnsureState::Checking => StoreAction::CheckExists,
            EnsureState::Creating => StoreAction::Create {
                dimension: self.dimension,
                metric: self.metric,
            },
            _ => StoreAction::Finish,
        }
    }

    /// The call to make while a write is in `state`.
    pub fn pending_for_write(&self, state: UpsertState) -> (action: StoreAction)
        ensures
            action == self.upsert_action(state),
    {
        match state {
            UpsertState::Ensuring(inner) => self.pending_for_collection(inner),
            UpsertState::Writing => StoreAction::Write { wait: true },
            _ => StoreAction::Finish,
        }
    }

    /// Tells whether every vector of `records` has the store's dimension.
    pub fn records_fit(&self, records: &Vec<EmbeddingRecord>) -> (result: bool)
        ensures
            result == all_fit(records@, self.dimension),
    {
        let mut i: usize = 0;
        while i < records.len()
            invariant
                i <= records.len(),
                all_fit(records@.take(i as int), self.dimension),
            decreases records.len() - i,
        {
            let len: usize = records[i].vector.len();
            if len as u64 != self.dimension {
                return false;
            }
            proof {
                assert forall|j: int| 0 <= j < i + 1 implies (#[trigger] records@.take(
                    i + 1,
                )[j]).vector@.len() == self.dimension by {
                    if j < i {
                        assert(records@.take(i as int)[j] == records@[j]);
                    }
                }
            }
            i = i + 1;
        }
        proof {
            assert(records@.take(i as int) =~= records@);
        }
        true
    }

    /// Starts a write of `records`.
    pub fn begin_store(&self, records: &Vec<EmbeddingRecord>) -> (step: (UpsertState, StoreAction))
        ensures
            step.0 == self.upsert_start(records@),
            step.1 == self.upsert_action(step.0),
    {
        let state = if self.records_fit(records) {
            UpsertState::Ensuring(EnsureState::Checking)
        } else {
            UpsertState::Failed(PipelineError::StoreWrite)
        };
        (state, self.pending_for_write(state))
    }

    /// Takes the store's answer to the call pending in a write, and gives the
    /// next state with the call to make in it.
    pub fn store_embeddings(&self, state: UpsertState, event: StoreEvent) -> (step: (
        UpsertState,
        StoreAction,
    ))
        ensures
            step.0 == upsert_next(state, event),
            step.1 == self.upsert_action(step.0),
    {
        let next = match state {
            UpsertState::Ensuring(inner) => {
                let (made, _) = self.create_collection(inner, event);
                match made {
                    EnsureState::Ready => UpsertState::Writing,
                    EnsureState::Failed(e) => UpsertState::Failed(e),
                    other => UpsertState::Ensuring(other),
                }
            },
            UpsertState::Writing => match event {
                StoreEvent::Written => UpsertState::Succeeded,
                _ => UpsertState::Failed(PipelineError::StoreWrite),
            },
            UpsertState::Succeeded => UpsertState::Succeeded,
            UpsertState::Failed(e) => UpsertState::Failed(e),
        };
        (next, self.pending_for_write(next))
    }
}

/// The name of the payload member that holds a chunk's text.
pub open spec fn text_key() -> Seq<char> {
    "text"@
}

/// The text stored with a point: the value of the first payload member named
/// `text`, where that value is a string.
pub open spec fn payload_text(fields: Seq<PayloadField>) -> Option<Seq<char>>
    decreases fields.len(),
{
    if fields.len() == 0 {
        None
    } else if fields[0].key@ == text_key() {
        match fields[0].value {
            PayloadValue::Text(text) => Some(text@),
            PayloadValue::Other => None,
        }
    } else {
        payload_text(fields.drop_first())
    }
}

/// The texts of the points that have one, in the order of the points.
pub open spec fn found_texts(points: Seq<RetrievedPoint>) -> Seq<Seq<char>>
    decreases points.len(),
{
    if points.len() == 0 {
        Seq::empty()
    } else {
        let before = found_texts(points.drop_last());
        match payload_text(points.last().payload@) {
            Some(text) => before.push(text),
            None => before,
        }
    }
}

/// The first `limit` points of a result, or all of them where there are fewer.
pub open spec fn within_limit(points: Seq<RetrievedPoint>, limit: u64) -> Seq<RetrievedPoint> {
    if points.len() <= limit {
        points
    } else {
        points.take(limit as int)
    }
}

/// Looks up the text stored with a point.
pub fn text_of_point(point: &RetrievedPoint) -> (result: Option<String>)
    ensures
        result is Some <==> payload_text(point.payload@) is Some,
        result is Some ==> result->Some_0@ == payload_text(point.payload@)->Some_0,
{
    let wanted = "text".to_owned();
    let mut i: usize = 0;
    proof {
        assert(point.payload@.skip(0) =~= point.payload@);
    }
    while i < point.payload.len()
        invariant
            i <= point.payload.len(),
            wanted@ == text_key(),
            payload_text(point.payload@) == payload_text(point.payload@.skip(i as int)),
        decreases point.payload.len() - i,
    {
        let field = &point.payload[i];
        proof {
            assert(point.payload@.skip(i as int)[0] == point.payload@[i as int]);
            assert(point.payload@.skip(i as int).drop_first() =~= point.payload@.skip(i + 1));
        }
        if field.key == wanted {
            return match &field.value {
                PayloadValue::Text(text) => Some(text.clone()),
                PayloadValue::Other => None,
            };
        }
        i = i + 1;
    }
    None
}

impl VectorStore {
    /// The search for the neighbours of `vector` in a collection: as many results
    /// as the adapter's limit, each with its payload.
    pub fn search_request(&self, collection_name: &str, vector: Vec<u32>) -> (request:
        SearchRequest)
        ensures
            request.collection_name@ == collection_name@,
            request.vector@ == vector@,
            request.limit == self.limit,
            request.with_payload,
    {
        SearchRequest {
            collection_name: collection_name.to_owned(),
            vector,
            limit: self.limit,
            with_payload: true,
        }
    }

    /// Reads the store's answer to a search. A failed search, such as one in a
    /// collection that does not exist, is an error and never an empty result. Of
    /// the points returned, the first ones up to the limit count; the result
    /// holds their texts in the store's order, without the points that have none.
    pub fn search_result(&self, reply: Result<Vec<RetrievedPoint>, StoreFailure>) -> (result:
        Result<Vec<String>, PipelineError>)
        ensures
            match reply {
                Ok(points) => result is Ok && texts(result->Ok_0@) == found_texts(
                    within_limit(points@, self.limit),
                ),
                Err(_) => result == Err::<Vec<String>, PipelineError>(PipelineError::StoreRead),
            },
            result is Ok ==> result->Ok_0@.len() <= self.limit,
    {
        match reply {
            Err(_) => Err(PipelineError::StoreRead),
            Ok(points) => {
                let mut found: Vec<String> = Vec::new();
                let mut i: usize = 0;
                let ghost counted = within_limit(points@, self.limit);
                proof {
                    assert(texts(found@) =~= found_texts(counted.take(0)));
                }
                while i < points.len() && (i as u64) < self.limit
                    invariant
                        i <= points.len(),
                        i <= self.limit,
                        counted == within_limit(points@, self.limit),
                        found@.len() <= i,
                        texts(found@) == found_texts(counted.take(i as int)),
                    decreases points.len() - i,
                {
                    let text = text_of_point(&points[i]);
                    proof {
                        let upto = counted.take(i + 1);
                        assert(upto.drop_last() =~= counted.take(i as int));
                        assert(upto.last() == points@[i as int]);
                    }
                    match text {
                        Some(text) => {
                            proof {
                                assert(texts(found@.push(text)) =~= texts(found@).push(text@));
                            }
                            found.push(text);
                        },
                        None => {},
                    }
                    i = i + 1;
                }
                proof {
                    assert(counted.take(i as int) =~= counted);
                }
                Ok(found)
            },
        }
    }

    /// Reads the store's answer to a listing of its collections: the names as
    /// the store gave them, or the failure to reach it.
    pub fn list_collections(&self, reply: Result<Vec<String>, StoreFailure>) -> (result: Result<
        Vec<String>,
        PipelineError,
    >)
        ensures
            match reply {
                Ok(names) => result == Ok::<Vec<String>, PipelineError>(names),
                Err(_) => result == Err::<Vec<String>, PipelineError>(
                    PipelineError::StoreUnavailable,
                ),
            },
    {
        match reply {
            Ok(names) => Ok(names),
            Err(_) => Err(PipelineError::StoreUnavailable),
        }
    }

    /// Reads the store's answer to an existence check.
    pub fn collection_exists(&self, reply: Result<bool, StoreFailure>) -> (result: Result<
        bool,
        PipelineError,
    >)
        ensures
            match reply {
                Ok(found) => result == Ok::<bool, PipelineError>(found),
                Err(_) => result == Err::<bool, PipelineError>(PipelineError::StoreUnavailable),
            },
    {
        match reply {
            Ok(found) => Ok(found),
            Err(_) => Err(PipelineError::StoreUnavailable),
        }
    }
}

/// A finished making of a collection is not changed by later answers.
pub proof fn lemma_ensure_finished_stays(state: EnsureState, events: Seq<StoreEvent>)
    requires
        state.outcome_spec() is Some,
    ensures
        ensure_run(state, events) == state,
    decreases events.len(),
{
    if events.len() > 0 {
        lemma_ensure_finished_stays(state, events.drop_first());
    }
}

/// A finished write is not changed by later answers.
pub proof fn lemma_upsert_finished_stays(state: UpsertState, events: Seq<StoreEvent>)
    requires
        state.outcome_spec() is Some,
    ensures
        upsert_run(state, events) == state,
    decreases events.len(),
{
    if events.len() > 0 {
        lemma_upsert_finished_stays(state, events.drop_first());
    }
}

} // verus!
