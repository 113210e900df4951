//! The two pipelines: taking a document in, and answering a question about one.
//!
//! Each pipeline is a series of steps. A step of this module decides; between
//! two steps the program around the library makes the network calls that the
//! step asked for, and hands their outcomes to the next one.
use vstd::prelude::*;
use vstd::string::StringExecFns;
use crate::chunker::{chunk, chunks_of, texts};
use crate::error::PipelineError;
use crate::model::{build_prompt, json_string, prompt_text, request_body, request_text};
use crate::utils::{collection_name, has_document_suffix, ConfigVar, ModelKind};
use crate::vector_db::{
    found_texts,
    within_limit,
    EmbeddingRecord,
    RetrievedPoint,
    SearchRequest,
    StoreAction,
    StoreFailure,
    UpsertState,
    VectorStore,
};

verus! {

/// What came of embedding one chunk: its vector, as bit patterns, or the reason
/// why there is none.
#[derive(Debug)]
pub struct EmbedOutcome {
    pub chunk: String,
    pub embedding: Result<Vec<u32>, PipelineError>,
}

/// What came back from a call to the embedding model for one chunk.
#[derive(Clone, Debug)]
pub enum EmbeddingReply {
    /// The call itself failed.
    Unreachable,
    /// The answer did not hold a list of numbers where one is expected.
    Malformed,
    /// The vector, as bit patterns.
    Vector(Vec<u32>),
}

impl EmbedOutcome {
    /// The outcome for `chunk` of a call to the embedding model.
    pub fn from_reply(chunk: String, reply: EmbeddingReply) -> (outcome: Self)
        ensures
            outcome.chunk == chunk,
            match reply {
                EmbeddingReply::Unreachable => outcome.embedding == Err::<
                    Vec<u32>,
                    PipelineError,
                >(PipelineError::Transport),
                EmbeddingReply::Malformed => outcome.embedding == Err::<Vec<u32>, PipelineError>(
                    PipelineError::MalformedResponse,
                ),
                EmbeddingReply::Vector(vector) => outcome.embedding == Ok::<
                    Vec<u32>,
                    PipelineError,
                >(vector),
            },
    {
        let embedding = match reply {
            EmbeddingReply::Unreachable => Err(PipelineError::Transport),
            EmbeddingReply::Malformed => Err(PipelineError::MalformedResponse),
            EmbeddingReply::Vector(vector) => Ok(vector),
        };
        EmbedOutcome { chunk, embedding }
    }
}

/// The first step's result: the collection to use and the chunks to embed.
#[derive(Clone, Debug)]
pub struct Plan {
    pub collection: String,
    pub chunks: Vec<String>,
}

/// A request to the model service.
#[derive(Clone, Debug)]
pub struct ModelRequest {
    pub url: String,
    pub body: String,
}

/// Runs the pipelines with fixed settings.
#[derive(Clone, Debug)]
pub struct Processor {
    pub settings: ConfigVar,
}

/// The shape of an identifier: 36 characters, with hyphens after the 8th, the
/// 12th, the 16th and the 20th of its 32 digits.
pub open spec fn identifier_shape(id: Seq<char>) -> bool {
    &&& id.len() == 36
    &&& id[8] == '-'
    &&& id[13] == '-'
    &&& id[18] == '-'
    &&& id[23] == '-'
}

/// Draws a random identifier with `uuid::Uuid::new_v4` and writes it as text, in
/// the hyphenated form that the type's `Display` gives. Only the shape of the
/// text is stated: which identifier comes is left to chance. Where the system
/// gives no random bytes, the call does not return.
#[verifier::external_body]
fn fresh_id() -> (id: String)
    ensures
        identifier_shape(id@),
{
    uuid::Uuid::new_v4().to_string()
}

/// The chunks that were embedded, each with its vector, in the order of the
/// outcomes. Chunks whose embedding failed are left out.
pub open spec fn embedded(outcomes: Seq<EmbedOutcome>) -> Seq<(Seq<u32>, Seq<char>)>
    decreases outcomes.len(),
{
    if outcomes.len() == 0 {
        Seq::empty()
    } else {
        let before = embedded(outcomes.drop_last());
        match outcomes.last().embedding {
            Ok(vector) => before.push((vector@, outcomes.last().chunk@)),
            Err(_) => before,
        }
    }
}

/// The vector and the text of each record.
pub open spec fn contents(records: Seq<EmbeddingRecord>) -> Seq<(Seq<u32>, Seq<char>)> {
    records.map_values(|r: EmbeddingRecord| (r.vector@, r.text@))
}

/// The texts joined into one, with a comma between each two.
pub open spec fn joined(parts: Seq<Seq<char>>) -> Seq<char>
    decreases parts.len(),
{
    if parts.len() == 0 {
        Seq::empty()
    } else if parts.len() == 1 {
        parts[0]
    } else {
        joined(parts.drop_last()) + seq![','] + parts.last()
    }
}

/// Makes the record of one chunk under the identifier `id`, where the chunk was
/// embedded.
pub fn record_for(outcome: &EmbedOutcome, id: String) -> (record: Option<EmbeddingRecord>)
    ensures
        record is Some <==> outcome.embedding is Ok,
        record is Some ==> {
            &&& record->Some_0.id == id
            &&& record->Some_0.vector@ == outcome.embedding->Ok_0@
            &&& record->Some_0.text@ == outcome.chunk@
        },
{
    match &outcome.embedding {
        Ok(vector) => Some(
            EmbeddingRecord { id, vector: vector.clone(), text: outcome.chunk.clone() },
        ),
        Err(_) => None,
    }
}

/// Joins the texts into one, with a comma between each two.
pub fn join_texts(parts: &Vec<String>) -> (context: String)
    ensures
        context@ == joined(texts(parts@)),
{
    let mut context = String::new();
    let mut i: usize = 0;
    proof {
        reveal_strlit(",");
        assert(texts(parts@).take(0) =~= Seq::<Seq<char>>::empty());
    }
    while i < parts.len()
        invariant
            i <= parts.len(),
            ","@ == seq![','],
            context@ == joined(texts(parts@).take(i as int)),
        decreases parts.len() - i,
    {
        proof {
            let upto = texts(parts@).take(i + 1);
            assert(upto.drop_last() =~= texts(parts@).take(i as int));
            assert(upto.last() == parts@[i as int]@);
            if i == 0 {
                assert(Seq::<char>::empty() + parts@[0]@ =~= parts@[0]@);
            }
        }
        if i > 0 {
            context.append(",");
        }
        context.append(parts[i].as_str());
        i = i + 1;
    }
    proof {
        assert(texts(parts@).take(i as int) =~= texts(parts@));
    }
    context
}

impl Processor {
    /// A processor with the given settings.
    pub fn new(settings: ConfigVar) -> (processor: Self)
        ensures
            processor.settings == settings,
    {
        Processor { settings }
    }

    /// The outcome of planning for a document or a question: the error, if the
    /// settings or the name do not allow the work, else the collection's name
    /// and the chunks.
    pub open spec fn plan_spec(&self, text: Seq<char>, doc_name: Seq<char>) -> Result<
        (Seq<char>, Seq<Seq<char>>),
        PipelineError,
    > {
        match self.settings.embedding_model_chunk_size {
            None => Err(PipelineError::Config),
            Some(size) => if size == 0 {
                Err(PipelineError::Chunking)
            } else if !has_document_suffix(doc_name) {
                Err(PipelineError::BadIdentifier)
            } else {
                Ok((doc_name.take(doc_name.len() - 4), chunks_of(text, size as nat)))
            },
        }
    }

    /// Splits a document's text into chunks of the configured size.
    pub fn process_chunks(&self, content: &str) -> (result: Result<Vec<String>, PipelineError>)
        ensures
            match self.settings.embedding_model_chunk_size {
                None => result == Err::<Vec<String>, PipelineError>(PipelineError::Config),
                Some(size) => if size == 0 {
                    result == Err::<Vec<String>, PipelineError>(PipelineError::Chunking)
                } else {
                    result is Ok && texts(result->Ok_0@) == chunks_of(content@, size as nat)
                },
            },
    {
        match self.settings.chunk_size() {
            Ok(size) => chunk(content, size),
            Err(e) => Err(e),
        }
    }

    fn plan(&self, text: &str, doc_name: &str) -> (result: Result<Plan, PipelineError>)
        ensures
            match self.plan_spec(text@, doc_name@) {
                Ok((collection, chunks)) => result is Ok && result->Ok_0.collection@ == collection
                    && texts(result->Ok_0.chunks@) == chunks,
                Err(e) => result == Err::<Plan, PipelineError>(e),
            },
    {
        let chunks = match self.process_chunks(text) {
            Ok(chunks) => chunks,
            Err(e) => { return Err(e); },
        };
        match collection_name(doc_name) {
            Ok(collection) => Ok(Plan { collection, chunks }),
            Err(e) => Err(e),
        }
    }

    /// First step of taking a document in: from the file's name and the text
    /// extracted from it, the collection to write to and the chunks to embed.
    pub fn process_file(&self, file_name: &str, content: &str) -> (result: Result<
        Plan,
        PipelineError,
    >)
        ensures
            match self.plan_spec(content@, file_name@) {
                Ok((collection, chunks)) => result is Ok && result->Ok_0.collection@ == collection
                    && texts(result->Ok_0.chunks@) == chunks,
                Err(e) => result == Err::<Plan, PipelineError>(e),
            },
    {
        self.plan(content, file_name)
    }

    /// First step of answering: from the question and the document's name, the
    /// collection to search and the chunks of the question to embed.
    pub fn process_prompt(&self, user_query: &str, doc_name: &str) -> (result: Result<
        Plan,
        PipelineError,
    >)
        ensures
            match self.plan_spec(user_query@, doc_name@) {
                Ok((collection, chunks)) => result is Ok && result->Ok_0.collection@ == collection
                    && texts(result->Ok_0.chunks@) == chunks,
                Err(e) => result == Err::<Plan, PipelineError>(e),
            },
    {
        self.plan(user_query, doc_name)
    }

    /// Second step of both pipelines: gives each embedded chunk a fresh
    /// identifier. A chunk whose embedding failed is dropped, and the others go
    /// on.
    pub fn process_embeddings(&self, outcomes: &Vec<EmbedOutcome>) -> (records: Vec<
        EmbeddingRecord,
    >)
        ensures
            contents(records@) == embedded(outcomes@),
            forall|i: int|
                0 <= i < records@.len() ==> identifier_shape((#[trigger] records@[i]).id@),
    {
        let mut records: Vec<EmbeddingRecord> = Vec::new();
        let mut i: usize = 0;
        proof {
            assert(contents(records@) =~= embedded(outcomes@.take(0)));
        }
        while i < outcomes.len()
            invariant
                i <= outcomes.len(),
                contents(records@) == embedded(outcomes@.take(i as int)),
                forall|j: int|
                    0 <= j < records@.len() ==> identifier_shape((#[trigger] records@[j]).id@),
            decreases outcomes.len() - i,
        {
            let id = fresh_id();
            let made = record_for(&outcomes[i], id);
            proof {
                let upto = outcomes@.take(i + 1);
                assert(upto.drop_last() =~= outcomes@.take(i as int));
                assert(upto.last() == outcomes@[i as int]);
            }
            match made {
                Some(record) => {
                    proof {
                        assert(contents(records@.push(record)) =~= contents(records@).push(
                            (record.vector@, record.text@),
                        ));
                    }
                    records.push(record);
                },
                None => {},
            }
            i = i + 1;
        }
        proof {
            assert(outcomes@.take(i as int) =~= outcomes@);
        }
        records
    }

    /// Last step of taking a document in: starts the write of the records to the
    /// store.
    pub fn save_embeddings(&self, store: &VectorStore, embeddings: &Vec<EmbeddingRecord>) -> (step:
        (UpsertState, StoreAction))
        ensures
            step.0 == store.upsert_start(embeddings@),
            step.1 == store.upsert_action(step.0),
    {
        store.begin_store(embeddings)
    }

    /// Decides whether a question can go on after its chunks were embedded: it
    /// cannot where there were chunks and none of them was embedded. The error
    /// is then that of the first chunk.
    pub fn query_records(&self, outcomes: &Vec<EmbedOutcome>) -> (result: Result<
        Vec<EmbeddingRecord>,
        PipelineError,
    >)
        ensures
            outcomes@.len() > 0 && embedded(outcomes@).len() == 0 ==> result is Err
                && outcomes@[0].embedding == Err::<Vec<u32>, PipelineError>(result->Err_0),
            !(outcomes@.len() > 0 && embedded(outcomes@).len() == 0) ==> result is Ok && contents(
                result->Ok_0@,
            ) == embedded(outcomes@),
    {
        let records = self.process_embeddings(outcomes);
        if outcomes.len() > 0 && records.len() == 0 {
            proof {
                lemma_none_embedded(outcomes@, 0);
            }
            match &outcomes[0].embedding {
                Err(e) => Err(*e),
                Ok(_) => Ok(records),
            }
        } else {
            Ok(records)
        }
    }

    /// The request that puts the question to the generation model, with the
    /// retrieved texts as its context. Fails where the model is not configured.
    pub fn generation_request(&self, found: &Vec<String>, user_query: &str) -> (result: Result<
        ModelRequest,
        PipelineError,
    >)
        ensures
            result is Ok <==> self.settings.generate_model_url is Some
                && self.settings.generate_model_name is Some,
            result is Err ==> result->Err_0 == PipelineError::Config,
            result is Ok ==> {
                &&& result->Ok_0.url@ == self.settings.generate_model_url->Some_0@
                &&& result->Ok_0.body@ == request_text(
                    json_string(self.settings.generate_model_name->Some_0@),
                    json_string(prompt_text(joined(texts(found@)), user_query@)),
                )
            },
    {
        match self.settings.get_model_details(ModelKind::Generate) {
            Ok((url, name)) => {
                let context = join_texts(found);
                let prompt = build_prompt(context.as_str(), user_query);
                let body = request_body(name.as_str(), prompt.as_str());
                Ok(ModelRequest { url: url.clone(), body })
            },
            Err(e) => Err(e),
        }
    }

    /// The request that asks the embedding model for the vector of one chunk.
    /// Fails where the model is not configured.
    pub fn embedding_request(&self, chunk: &str) -> (result: Result<ModelRequest, PipelineError>)
        ensures
            result is Ok <==> self.settings.embedding_model_url is Some
                && self.settings.embedding_model_name is Some,
            result is Err ==> result->Err_0 == PipelineError::Config,
            result is Ok ==> {
                &&& result->Ok_0.url@ == self.settings.embedding_model_url->Some_0@
                &&& result->Ok_0.body@ == request_text(
                    json_string(self.settings.embedding_model_name->Some_0@),
                    json_string(chunk@),
                )
            },
    {
        match self.settings.get_model_details(ModelKind::Embedding) {
            Ok((url, name)) => {
                let body = request_body(name.as_str(), chunk);
                Ok(ModelRequest { url: url.clone(), body })
            },
            Err(e) => Err(e),
        }
    }
}

/// The retrieval for one question: the vectors of its chunks, how many of them
/// have been searched for, and the texts found so far.
#[derive(Clone, Debug)]
pub struct QueryRun {
    pub collection: String,
    pub vectors: Vec<Vec<u32>>,
    pub next: usize,
    pub found: Vec<String>,
}

impl QueryRun {
    /// No more vectors are counted as searched than there are.
    pub open spec fn well_formed(&self) -> bool {
        self.next <= self.vectors@.len()
    }

    /// A retrieval in `collection` that has the vectors of `records` to search
    /// for, in their order, and has found nothing yet.
    pub fn new(collection: String, records: &Vec<EmbeddingRecord>) -> (run: Self)
        ensures
            run.well_formed(),
            run.collection == collection,
            run.next == 0,
            run.found@.len() == 0,
            run.vectors@.len() == records@.len(),
            forall|i: int|
                0 <= i < records@.len() ==> (#[trigger] run.vectors@[i])@
                    == records@[i].vector@,
    {
        let mut vectors: Vec<Vec<u32>> = Vec::new();
        let mut i: usize = 0;
        while i < records.len()
            invariant
                i <= records.len(),
                vectors@.len() == i,
                forall|j: int| 0 <= j < i ==> (#[trigger] vectors@[j])@ == records@[j].vector@,
            decreases records.len() - i,
        {
            vectors.push(records[i].vector.clone());
            i = i + 1;
        }
        QueryRun { collection, vectors, next: 0, found: Vec::new() }
    }

    /// The search to run next: for the first vector not yet searched for. `None`
    /// when every vector has been.
    pub fn pending(&self, store: &VectorStore) -> (request: Option<SearchRequest>)
        requires
            self.well_formed(),
        ensures
            request is Some <==> self.next < self.vectors@.len(),
            request is Some ==> {
                &&& request->Some_0.collection_name@ == self.collection@
                &&& request->Some_0.vector@ == self.vectors@[self.next as int]@
                &&& request->Some_0.limit == store.limit
                &&& request->Some_0.with_payload
            },
    {
        if self.next < self.vectors.len() {
            Some(store.search_request(self.collection.as_str(), self.vectors[self.next].clone()))
        } else {
            None
        }
    }

    /// Takes the store's answer to the pending search. The texts it holds are
    /// put behind those found before, in the store's order, and the next vector
    /// has its turn. A failed search ends the retrieval: nothing is changed,
    /// and the error is returned.
    pub fn absorb(
        &mut self,
        store: &VectorStore,
        reply: Result<Vec<RetrievedPoint>, StoreFailure>,
    ) -> (result: Result<(), PipelineError>)
        requires
            old(self).well_formed(),
            old(self).next < old(self).vectors@.len(),
        ensures
            final(self).well_formed(),
            final(self).collection == old(self).collection,
            final(self).vectors == old(self).vectors,
            match reply {
                Ok(points) => {
                    &&& result is Ok
                    &&& final(self).next == old(self).next + 1
                    &&& texts(final(self).found@) == texts(old(self).found@) + found_texts(
                        within_limit(points@, store.limit),
                    )
                },
                Err(_) => {
                    &&& result == Err::<(), PipelineError>(PipelineError::StoreRead)
                    &&& final(self).next == old(self).next
                    &&& final(self).found == old(self).found
                },
            },
    {
        let total = self.vectors.len();
        match store.search_result(reply) {
            Ok(mut more) => {
                proof {
                    assert(self.next < total);
                    assert(texts(self.found@ + more@) =~= texts(self.found@) + texts(more@));
                }
                self.found.append(&mut more);
                self.next = self.next + 1;
                Ok(())
            },
            Err(e) => Err(e),
        }
    }
}

/// Where no chunk was embedded, every outcome is a failure.
pub proof fn lemma_none_embedded(outcomes: Seq<EmbedOutcome>, i: int)
    requires
        embedded(outcomes).len() == 0,
        0 <= i < outcomes.len(),
    ensures
        outcomes[i].embedding is Err,
    decreases outcomes.len(),
{
    if i < outcomes.len() - 1 {
        lemma_none_embedded(outcomes.drop_last(), i);
    }
}

} // verus!
