//! The adapter against a store that keeps its word: what then holds of the
//! collection after a run of calls and answers.
use vstd::prelude::*;
use crate::error::PipelineError;
use crate::vector_db::{
    all_fit,
    ensure_next,
    ensure_run,
    lemma_ensure_finished_stays,
    lemma_upsert_finished_stays,
    upsert_next,
    upsert_run,
    EmbeddingRecord,
    EnsureState,
    StoreAction,
    StoreEvent,
    StoreFailure,
    UpsertState,
    VectorStore,
};

verus! {

/// Whether `event` can be the answer to `action` of a store that keeps its
/// word about one collection, which is in it or not (`present`). Such a store
/// finds the collection exactly when it is there, makes it only when it is not,
/// refuses a creation as a repetition only when it is there, and writes only to
/// a collection that is there. It may fail to answer for other reasons at any
/// time. Once nothing is pending, no answer is expected.
pub open spec fn honest_answer(present: bool, action: StoreAction, event: StoreEvent) -> bool {
    match action {
        StoreAction::CheckExists => match event {
            StoreEvent::Exists(found) => found == present,
            StoreEvent::Failed(f) => f != StoreFailure::AlreadyExists,
            _ => false,
        },
        StoreAction::Create { .. } => match event {
            StoreEvent::Created(_) => !present,
            StoreEvent::Failed(f) => f == StoreFailure::AlreadyExists ==> present,
            _ => false,
        },
        StoreAction::Write { .. } => match event {
            StoreEvent::Written => present,
            StoreEvent::Failed(f) => f != StoreFailure::AlreadyExists,
            _ => false,
        },
        StoreAction::Finish => false,
    }
}

/// Whether the collection is in the store after the answer `event` to `action`:
/// it is there if it was, or if the store has just made it.
pub open spec fn present_after(present: bool, action: StoreAction, event: StoreEvent) -> bool {
    present || (action is Create && event == StoreEvent::Created(true))
}

impl VectorStore {
    /// The answers `events` are those of a store that keeps its word, given to
    /// the calls that the making of a collection asks for from `state` on.
    pub open spec fn ensure_honest(
        &self,
        present: bool,
        state: EnsureState,
        events: Seq<StoreEvent>,
    ) -> bool
        decreases events.len(),
    {
        if events.len() == 0 {
            true
        } else {
            let action = self.ensure_action(state);
            honest_answer(present, action, events[0]) && self.ensure_honest(
                present_after(present, action, events[0]),
                ensure_next(state, events[0]),
                events.drop_first(),
            )
        }
    }

    /// Whether the collection is in the store after the answers `events`.
    pub open spec fn ensure_present(
        &self,
        present: bool,
        state: EnsureState,
        events: Seq<StoreEvent>,
    ) -> bool
        decreases events.len(),
    {
        if events.len() == 0 {
            present
        } else {
            self.ensure_present(
                present_after(present, self.ensure_action(state), events[0]),
                ensure_next(state, events[0]),
                events.drop_first(),
            )
        }
    }

    /// The answers `events` are those of a store that keeps its word, given to
    /// the calls that a write asks for from `state` on.
    pub open spec fn upsert_honest(
        &self,
        present: bool,
        state: UpsertState,
        events: Seq<StoreEvent>,
    ) -> bool
        decreases events.len(),
    {
        if events.len() == 0 {
            true
        } else {
            let action = self.upsert_action(state);
            honest_answer(present, action, events[0]) && self.upsert_honest(
                present_after(present, action, events[0]),
                upsert_next(state, events[0]),
                events.drop_first(),
            )
        }
    }

    /// Whether the collection is in the store after the answers `events` to a
    /// write.
    pub open spec fn upsert_present(
        &self,
        present: bool,
        state: UpsertState,
        events: Seq<StoreEvent>,
    ) -> bool
        decreases events.len(),
    {
        if events.len() == 0 {
            present
        } else {
            self.upsert_present(
                present_after(present, self.upsert_action(state), events[0]),
                upsert_next(state, events[0]),
                events.drop_first(),
            )
        }
    }

    /// With a store that keeps its word, a collection reported ready is in the
    /// store.
    pub proof fn lemma_ready_is_present(
        &self,
        present: bool,
        state: EnsureState,
        events: Seq<StoreEvent>,
    )
        requires
            state == EnsureState::Ready ==> present,
            self.ensure_honest(present, state, events),
            ensure_run(state, events) == EnsureState::Ready,
        ensures
            self.ensure_present(present, state, events),
        decreases events.len(),
    {
        if events.len() > 0 {
            self.lemma_ready_is_present(
                present_after(present, self.ensure_action(state), events[0]),
                ensure_next(state, events[0]),
                events.drop_first(),
            );
        }
    }

    /// Making a collection a second time does not fail. After a first run that
    /// ended ready, a second run against the same store, which keeps its word
    /// and answers every call, never ends in failure; once it is finished, it
    /// has ended ready, and without a creation.
    pub proof fn lemma_ensure_again_succeeds(
        &self,
        present: bool,
        first: Seq<StoreEvent>,
        second: Seq<StoreEvent>,
    )
        requires
            self.ensure_honest(present, EnsureState::Checking, first),
            ensure_run(EnsureState::Checking, first) == EnsureState::Ready,
            self.ensure_honest(
                self.ensure_present(present, EnsureState::Checking, first),
                EnsureState::Checking,
                second,
            ),
            forall|i: int| 0 <= i < second.len() ==> !(#[trigger] second[i] is Failed),
        ensures
            !(ensure_run(EnsureState::Checking, second) is Failed),
            second.len() > 0 ==> ensure_run(EnsureState::Checking, second) == EnsureState::Ready
                && second == seq![StoreEvent::Exists(true)],
    {
        self.lemma_ready_is_present(present, EnsureState::Checking, first);
        if second.len() > 0 {
            let rest = second.drop_first();
            assert(second[0] == StoreEvent::Exists(true));
            assert(ensure_run(EnsureState::Checking, second) == ensure_run(
                EnsureState::Ready,
                rest,
            ));
            lemma_ensure_finished_stays(EnsureState::Ready, rest);
            assert(rest.len() == 0) by {
                if rest.len() > 0 {
                    assert(self.ensure_honest(true, EnsureState::Ready, rest));
                }
            }
            assert(second =~= seq![StoreEvent::Exists(true)]);
        }
    }

    /// With a store that keeps its word, the collection is in the store while
    /// the write is under way and after it has succeeded.
    pub proof fn lemma_written_is_present(
        &self,
        present: bool,
        state: UpsertState,
        events: Seq<StoreEvent>,
    )
        requires
            state == UpsertState::Writing || state == UpsertState::Succeeded ==> present,
            self.upsert_honest(present, state, events),
            upsert_run(state, events) == UpsertState::Succeeded,
        ensures
            self.upsert_present(present, state, events),
        decreases events.len(),
    {
        if events.len() > 0 {
            self.lemma_written_is_present(
                present_after(present, self.upsert_action(state), events[0]),
                upsert_next(state, events[0]),
                events.drop_first(),
            );
        }
    }

    /// A document that was taken in has its collection in the store. Whatever
    /// the store held before, after a write of `records` that succeeded against
    /// a store that keeps its word, the collection is there, so that a listing
    /// by that store names it.
    pub proof fn lemma_stored_is_listed(
        &self,
        present: bool,
        records: Seq<EmbeddingRecord>,
        events: Seq<StoreEvent>,
    )
        requires
            self.upsert_honest(present, self.upsert_start(records), events),
            upsert_run(self.upsert_start(records), events) == UpsertState::Succeeded,
        ensures
            all_fit(records, self.dimension),
            self.upsert_present(present, self.upsert_start(records), events),
    {
        if !all_fit(records, self.dimension) {
            lemma_upsert_finished_stays(UpsertState::Failed(PipelineError::StoreWrite), events);
        }
        self.lemma_written_is_present(present, self.upsert_start(records), events);
    }
}

} // verus!
