//! The kinds of memory behind one interface.

use vstd::prelude::*;
use vstd::string::*;
use crate::error::MemoryError;
use crate::json::{JsonModel, JsonValue, members_of};
use crate::memory::base::{SimpleMemory, SimpleModel};
use crate::memory::composite_memory::{
    Compaction,
    CompositeMemory,
    FacadeModel,
    context_saved,
    facade_token_estimate,
    loaded_variables,
};
use crate::memory::message_history::{
    LogModel,
    MessageHistoryMemory,
    history_variables,
    message_objects,
    opt_text,
    recent,
    text_or_empty,
    unwrapped_content,
};
use crate::memory::summary::{StoreModel, Summarizer, SummaryDataModel};
use crate::memory::utils::{capped_sum, estimate_token_count};

verus! {

/// A memory of one of three kinds: one that keeps named values in memory,
/// one that keeps a record log, and one that keeps a record log and a
/// summary.
#[derive(Debug)]
pub enum BaseMemory {
    Simple(SimpleMemory),
    FileBacked(MessageHistoryMemory),
    Composite(CompositeMemory),
}

/// Whether `after` and `saved` are what saving a turn that came as members
/// makes of the record log `before`, with the records made at `user_time`
/// and `assistant_time`.
pub open spec fn log_saved(
    before: LogModel,
    after: LogModel,
    saved: Result<Compaction, MemoryError>,
    inputs: Seq<(Seq<char>, JsonModel)>,
    outputs: Seq<(Seq<char>, JsonModel)>,
    user_time: Seq<char>,
    assistant_time: Seq<char>,
) -> bool {
    let input = text_or_empty(inputs, "input"@);
    let output = unwrapped_content(unwrapped_content(text_or_empty(outputs, "output"@)));
    if before.turn_fits(input, output) {
        saved matches Ok(Compaction::NotDue) && after == before.with_turn(
            input,
            output,
            user_time,
            assistant_time,
        )
    } else {
        saved == Err::<Compaction, MemoryError>(MemoryError::SequenceExhausted) && after == before
    }
}

impl BaseMemory {
    /// The invariant of the memory inside.
    pub open spec fn wf(&self) -> bool {
        match self {
            BaseMemory::Simple(_) => true,
            BaseMemory::FileBacked(m) => m.wf(),
            BaseMemory::Composite(m) => m.wf(),
        }
    }

    /// The names of the members that `load_memory_variables` hands out.
    pub fn memory_variables(&self) -> (names: Vec<String>)
        ensures
            match self {
                BaseMemory::Simple(m) => names@.len() == 1 && names@[0]@ == m@.memory_key,
                BaseMemory::FileBacked(_) => names@.len() == 1 && names@[0]@ == "chat_history"@,
                BaseMemory::Composite(_) => names@.len() == 5,
            },
    {
        match self {
            BaseMemory::Simple(m) => m.memory_variables(),
            BaseMemory::FileBacked(m) => m.memory_variables(),
            BaseMemory::Composite(m) => m.memory_variables(),
        }
    }

    /// The session's identifier, if the memory has one.
    pub fn get_session_id(&self) -> (id: Option<&str>)
        ensures
            match self {
                BaseMemory::Simple(m) => match id {
                    Some(t) => m@.session_id == Some(t@),
                    None => m@.session_id is None,
                },
                BaseMemory::FileBacked(m) => id matches Some(t) && t@ == m.spec_session_id(),
                BaseMemory::Composite(m) => id matches Some(t) && t@ == m@.session_id,
            },
    {
        match self {
            BaseMemory::Simple(m) => m.get_session_id(),
            BaseMemory::FileBacked(m) => Some(m.get_session_id()),
            BaseMemory::Composite(m) => Some(m.get_session_id()),
        }
    }

    /// The summary, which only a memory that keeps one can have.
    pub fn get_summary(&self) -> (summary: Option<String>)
        ensures
            match self {
                BaseMemory::Composite(m) => opt_text(summary) == m@.store.data.summary,
                _ => summary is None,
            },
    {
        match self {
            BaseMemory::Composite(m) => m.get_summary(),
            _ => None,
        }
    }

    /// The estimated token cost of the memory's own state.
    pub fn get_token_count(&self) -> (count: usize)
        ensures
            match self {
                BaseMemory::Simple(m) => count == capped_sum(
                    vstd::utf8::encode_utf8(m@.memory_key).len(),
                    match m@.session_id {
                        Some(id) => vstd::utf8::encode_utf8(id).len(),
                        None => 0,
                    },
                ),
                BaseMemory::FileBacked(m) => count == vstd::utf8::encode_utf8(
                    m.spec_session_id(),
                ).len() / 4,
                BaseMemory::Composite(m) => count == facade_token_estimate(m@),
            },
    {
        match self {
            BaseMemory::Simple(m) => m.get_token_count(),
            BaseMemory::FileBacked(m) => estimate_token_count(m.get_session_id()),
            BaseMemory::Composite(m) => m.get_token_count(),
        }
    }

    /// Gives the memory another session identifier.
    pub fn set_session_id(&mut self, session_id: String)
        ensures
            match (*old(self), *final(self)) {
                (BaseMemory::Simple(a), BaseMemory::Simple(b)) => b@ == (SimpleModel {
                    session_id: Some(session_id@),
                    ..a@
                }),
                (BaseMemory::FileBacked(a), BaseMemory::FileBacked(b)) => {
                    &&& b.spec_session_id() == session_id@
                    &&& b.log() == a.log()
                    &&& b.recent_count() == a.recent_count()
                },
                (BaseMemory::Composite(a), BaseMemory::Composite(b)) => b@ == (FacadeModel {
                    session_id: session_id@,
                    config_session_id: Some(session_id@),
                    ..a@
                }),
                _ => false,
            },
    {
        match self {
            BaseMemory::Simple(m) => m.set_session_id(session_id),
            BaseMemory::FileBacked(m) => m.set_session_id(session_id),
            BaseMemory::Composite(m) => m.set_session_id(session_id),
        }
    }

    /// Forgets everything the memory keeps, at time `now`.
    pub fn clear(&mut self, now: String)
        requires
            old(self).wf(),
        ensures
            final(self).wf(),
            match (*old(self), *final(self)) {
                (BaseMemory::Simple(a), BaseMemory::Simple(b)) => b@ == (SimpleModel {
                    memories: Seq::empty(),
                    ..a@
                }),
                (BaseMemory::FileBacked(a), BaseMemory::FileBacked(b)) => {
                    &&& b.log() == a.log().clear(now@)
                    &&& b.spec_session_id() == a.spec_session_id()
                    &&& b.recent_count() == a.recent_count()
                },
                (BaseMemory::Composite(a), BaseMemory::Composite(b)) => b@ == (FacadeModel {
                    log: a@.log.clear(now@),
                    store: StoreModel {
                        data: SummaryDataModel::zero(a@.store.session_id, now@),
                        in_flight: None,
                        ..a@.store
                    },
                    variables: Seq::empty(),
                    ..a@
                }),
                _ => false,
            },
    {
        match self {
            BaseMemory::Simple(m) => m.clear(),
            BaseMemory::FileBacked(m) => m.clear(now),
            BaseMemory::Composite(m) => m.clear(now),
        }
    }

    /// What a prompt takes from the memory.
    pub fn load_memory_variables(&mut self, inputs: &Vec<(String, JsonValue)>) -> (variables:
        Result<Vec<(String, JsonValue)>, MemoryError>)
        requires
            old(self).wf(),
        ensures
            final(self).wf(),
            match (*old(self), *final(self)) {
                (BaseMemory::Simple(a), BaseMemory::Simple(b)) => {
                    &&& b@ == a@
                    &&& variables matches Ok(v) && members_of(v@) == a@.memories
                },
                (BaseMemory::FileBacked(a), BaseMemory::FileBacked(b)) => {
                    &&& b.log() == a.log()
                    &&& b.spec_session_id() == a.spec_session_id()
                    &&& b.recent_count() == a.recent_count()
                    &&& variables matches Ok(v) && members_of(v@) == history_variables(
                        message_objects(
                            recent(a.log().history.messages, a.recent_count() as nat),
                            false,
                        ),
                    )
                },
                (BaseMemory::Composite(a), BaseMemory::Composite(b)) => {
                    &&& a@.data_dir is None ==> variables == Err::<
                        Vec<(String, JsonValue)>,
                        MemoryError,
                    >(MemoryError::Serialize) && b@ == a@
                    &&& a@.data_dir is Some ==> variables is Ok && b@ == (FacadeModel {
                        variables: members_of(variables->Ok_0@),
                        ..a@
                    }) && members_of(variables->Ok_0@) == loaded_variables(
                        a@,
                        members_of(inputs@),
                    )
                },
                _ => false,
            },
    {
        match self {
            BaseMemory::Simple(m) => Ok(m.load_memory_variables()),
            BaseMemory::FileBacked(m) => Ok(m.load_memory_variables()),
            BaseMemory::Composite(m) => m.load_memory_variables(inputs),
        }
    }

    /// Saves a turn that comes as members, with `user_time` and
    /// `assistant_time` on its records. Only a memory that keeps a summary
    /// compacts, at time `now`, and has `summarizer` do the summarizing.
    pub fn save_context<S: Summarizer>(
        &mut self,
        inputs: &Vec<(String, JsonValue)>,
        outputs: &Vec<(String, JsonValue)>,
        summarizer: &S,
        user_time: String,
        assistant_time: String,
        now: String,
    ) -> (saved: Result<Compaction, MemoryError>)
        requires
            old(self).wf(),
        ensures
            final(self).wf(),
            match (*old(self), *final(self)) {
                (BaseMemory::Simple(a), BaseMemory::Simple(b)) => {
                    &&& b@ == a@.save_context(members_of(inputs@), members_of(outputs@))
                    &&& saved matches Ok(Compaction::NotDue)
                },
                (BaseMemory::FileBacked(a), BaseMemory::FileBacked(b)) => {
                    &&& b.spec_session_id() == a.spec_session_id()
                    &&& b.recent_count() == a.recent_count()
                    &&& log_saved(
                        a.log(),
                        b.log(),
                        saved,
                        members_of(inputs@),
                        members_of(outputs@),
                        user_time@,
                        assistant_time@,
                    )
                },
                (BaseMemory::Composite(a), BaseMemory::Composite(b)) => context_saved(
                    a@,
                    b@,
                    saved,
                    members_of(inputs@),
                    members_of(outputs@),
                    user_time@,
                    assistant_time@,
                    now@,
                ),
                _ => false,
            },
    {
        match self {
            BaseMemory::Simple(m) => {
                m.save_context(inputs, outputs);
                Ok(Compaction::NotDue)
            },
            BaseMemory::FileBacked(m) => {
                match m.save_context(inputs, outputs, user_time, assistant_time) {
                    Ok(()) => Ok(Compaction::NotDue),
                    Err(e) => Err(e),
                }
            },
            BaseMemory::Composite(m) => m.save_context(
                inputs,
                outputs,
                summarizer,
                user_time,
                assistant_time,
                now,
            ),
        }
    }
}

} // verus!
