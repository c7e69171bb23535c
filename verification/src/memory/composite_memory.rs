//! The memory of one session as its users see it: the record log and the
//! summary store behind one set of operations.

use vstd::prelude::*;
use vstd::string::*;
use crate::error::MemoryError;
use crate::json::{
    JsonModel,
    JsonValue,
    NumberModel,
    duplicate_members,
    get_member,
    insert_member,
    json_array,
    json_count,
    json_object,
    json_parse,
    json_string,
    lookup,
    members_of,
    model_of_opt_text,
    models_of,
    no_members,
    push_member,
    with_member,
};
use crate::memory::document::session_of_document;
use crate::memory::legacy::migrate_legacy;
use crate::memory::message_history::{
    ChatMessage,
    ChatMessageRecord,
    FileChatMessageHistory,
    LoadOutcome,
    LogModel,
    MessageHistoryMemory,
    MessageModel,
    SessionModel,
    lemma_next_after_is_wf,
    member_text,
    message_views,
    messages_of,
    opt_text,
    recent,
    record_of_message,
    records_of,
    text_or_empty,
};
use crate::memory::summary::{
    StoreModel,
    Summarizer,
    SummaryDataModel,
    SummaryMemory,
    SummaryRequest,
    kept_after,
    lemma_kept_is_window_at_newest,
    lemma_nothing_pending_at_newest,
    lemma_pending_ends_with_last,
    pending,
    read_stored_summary,
    stored_summary,
};
use crate::memory::utils::{
    capped_sum,
    estimate_json_token_count,
    generate_session_id,
    get_data_dir_from_env,
    get_recent_messages_count_from_env,
    get_summary_threshold_from_env,
    json_token_estimate,
    parse_decimal,
    path_text,
};
use crate::text::is_blank;

verus! {

/// How a session's memory is set up.
#[derive(Debug)]
pub struct CompositeMemoryConfig {
    /// Where the session's files are kept.
    pub data_dir: std::path::PathBuf,
    /// The session's identifier; one is made up where none is given.
    pub session_id: Option<String>,
    /// The estimated cost at which the pending records are compacted.
    pub summary_threshold: usize,
    /// How many records stay in the log after a compaction.
    pub recent_messages_count: usize,
    /// Whether saving a turn may compact the log.
    pub auto_generate_summary: bool,
}

impl CompositeMemoryConfig {
    /// The configuration that the environment asks for, given what it
    /// holds for the data directory, the threshold and the number of
    /// recent records. What it does not hold, or holds as no number, is
    /// set to the default: `./data/memory`, 3500 and 10.
    pub fn from_env(
        data_dir: Option<&str>,
        summary_threshold: Option<&str>,
        recent_messages_count: Option<&str>,
    ) -> (config: Self)
        ensures
            config.session_id is None,
            config.auto_generate_summary,
            config.summary_threshold == match summary_threshold {
                Some(text) => match parse_decimal(text@) {
                    Some(n) => if n <= usize::MAX {
                        n as usize
                    } else {
                        3500
                    },
                    None => 3500,
                },
                None => 3500,
            },
            config.recent_messages_count == match recent_messages_count {
                Some(text) => match parse_decimal(text@) {
                    Some(n) => if n <= usize::MAX {
                        n as usize
                    } else {
                        10
                    },
                    None => 10,
                },
                None => 10,
            },
    {
        CompositeMemoryConfig {
            data_dir: get_data_dir_from_env(data_dir),
            session_id: None,
            summary_threshold: get_summary_threshold_from_env(summary_threshold),
            recent_messages_count: get_recent_messages_count_from_env(recent_messages_count),
            auto_generate_summary: true,
        }
    }
}

impl Default for CompositeMemoryConfig {
    /// The configuration of an environment that holds nothing.
    fn default() -> (config: Self)
        ensures
            config.session_id is None,
            config.auto_generate_summary,
            config.summary_threshold == 3500,
            config.recent_messages_count == 10,
    {
        CompositeMemoryConfig::from_env(None, None, None)
    }
}

/// What became of the compaction when a turn was saved.
#[derive(Debug, Clone, PartialEq, Eq)]
pub enum Compaction {
    /// None was due, or compaction is switched off.
    NotDue,
    /// A summary was stored and the log was shortened.
    Done,
    /// The summarizer failed, for the reason given; what was saved stays
    /// saved and nothing else has changed.
    Failed(String),
}

/// The memory of one session.
#[derive(Debug)]
pub struct CompositeMemory {
    config: CompositeMemoryConfig,
    session_id: String,
    data_dir_text: Option<String>,
    message_history: MessageHistoryMemory,
    summary_memory: SummaryMemory,
    memory_variables: Vec<(String, JsonValue)>,
}

/// The model of a [`CompositeMemory`].
pub struct FacadeModel {
    pub session_id: Seq<char>,
    /// The session's identifier as the configuration holds it.
    pub config_session_id: Option<Seq<char>>,
    /// The data directory of the configuration as a text, if its path is
    /// one.
    pub data_dir: Option<Seq<char>>,
    pub summary_threshold: usize,
    pub recent_messages_count: usize,
    pub auto_generate_summary: bool,
    pub log: LogModel,
    pub store: StoreModel,
    /// What the last load handed out and the last save was given.
    pub variables: Seq<(Seq<char>, JsonModel)>,
}

impl FacadeModel {
    /// The invariant of the memory: the log is well formed, the checkpoint
    /// lies below the next sequence number, and so does the checkpoint of
    /// a compaction under way, which also lies above the stored one.
    pub open spec fn wf(self) -> bool {
        &&& self.log.wf()
        &&& self.store.data.sequence_number < self.log.next_sequence_number
        &&& self.store.in_flight is Some ==> self.store.data.sequence_number
            < self.store.in_flight->0 < self.log.next_sequence_number
        &&& self.store.summary_threshold == self.summary_threshold
        &&& self.store.recent_messages_count == self.recent_messages_count
    }

    /// Whether the log has sequence numbers left for the records of a
    /// turn.
    pub open spec fn turn_fits(self, input: Seq<char>, output: Seq<char>) -> bool {
        self.log.turn_fits(input, output)
    }

    /// The memory after the records of a turn were stored: what the user
    /// said at `user_time`, then what the assistant said at
    /// `assistant_time`.
    pub open spec fn with_turn(
        self,
        input: Seq<char>,
        output: Seq<char>,
        user_time: Seq<char>,
        assistant_time: Seq<char>,
    ) -> FacadeModel {
        FacadeModel { log: self.log.with_turn(input, output, user_time, assistant_time), ..self }
    }

    /// Whether a compaction starts now.
    pub open spec fn compacts(self) -> bool {
        self.auto_generate_summary && self.store.may_start(self.log.history.messages)
    }

    /// The checkpoint that a compaction started now will set: the sequence
    /// number of the last pending record.
    pub open spec fn next_checkpoint(self) -> u64 {
        pending(self.log.history.messages, self.store.data.sequence_number).last().sequence_number
    }

    /// The memory once a compaction that started now has stored `summary`
    /// at time `now`.
    pub open spec fn compacted(self, summary: Seq<char>, now: Seq<char>) -> FacadeModel {
        FacadeModel {
            store: self.store.updated(summary, self.next_checkpoint(), now),
            log: self.log.retain_recent(self.recent_messages_count as nat, now),
            ..self
        }
    }

    /// The memory after the files of its session were taken in at time
    /// `now`, and how the log's file was taken in; `None` where one of
    /// them cannot be read. A file that does not exist is `None` and
    /// changes nothing. The numbers up to the checkpoint are set aside, so
    /// that no later record gets a number that the summary covers.
    pub open spec fn restored(
        self,
        history_contents: Option<Seq<char>>,
        summary_contents: Option<Seq<char>>,
        now: Seq<char>,
    ) -> Option<(FacadeModel, LoadOutcome)> {
        let data = match summary_contents {
            Some(c) => stored_summary(c),
            None => Some(self.store.data),
        };
        let log = match history_contents {
            Some(c) => self.log.loaded(c, now),
            None => Some((self.log, LoadOutcome::Empty)),
        };
        match (data, log) {
            (Some(d), Some((loaded, how))) => if d.sequence_number < u64::MAX {
                Some(
                    (
                        FacadeModel {
                            log: loaded.reserve_through(d.sequence_number),
                            store: StoreModel { data: d, in_flight: None, ..self.store },
                            ..self
                        },
                        how,
                    ),
                )
            } else {
                None
            },
            _ => None,
        }
    }
}

/// Whether `after` and `outcome` are what a compaction makes of `before`
/// at time `now`. Where none is due, nothing changes. Where one is due,
/// either the summarizer failed and nothing has changed, or the summary
/// that `after` holds was stored and the log was shortened.
pub open spec fn after_compaction(
    before: FacadeModel,
    after: FacadeModel,
    outcome: Compaction,
    now: Seq<char>,
) -> bool {
    if before.compacts() {
        ||| outcome is Failed && after == before
        ||| {
            &&& outcome is Done
            &&& after.store.data.summary is Some
            &&& after == before.compacted(after.store.data.summary->0, now)
        }
    } else {
        outcome is NotDue && after == before
    }
}

/// Whether `after` and `saved` are what saving a turn makes of `before`.
pub open spec fn turn_saved(
    before: FacadeModel,
    after: FacadeModel,
    saved: Result<Compaction, MemoryError>,
    input: Seq<char>,
    output: Seq<char>,
    user_time: Seq<char>,
    assistant_time: Seq<char>,
    now: Seq<char>,
) -> bool {
    if before.turn_fits(input, output) {
        saved is Ok && after_compaction(
            before.with_turn(input, output, user_time, assistant_time),
            after,
            saved->Ok_0,
            now,
        )
    } else {
        saved == Err::<Compaction, MemoryError>(MemoryError::SequenceExhausted) && after == before
    }
}

/// Whether `after` and `saved` are what adding `message` at time `now`
/// makes of `before`: the message is stored unless its content is blank,
/// and then the log is compacted if that is due. Where the log has no
/// sequence number left for it, nothing changes.
pub open spec fn message_added(
    before: FacadeModel,
    after: FacadeModel,
    saved: Result<Compaction, MemoryError>,
    message: ChatMessage,
    now: Seq<char>,
) -> bool {
    if !is_blank(message.content@) && before.log.next_sequence_number == u64::MAX {
        saved == Err::<Compaction, MemoryError>(MemoryError::SequenceExhausted) && after == before
    } else {
        saved is Ok && after_compaction(
            FacadeModel { log: before.log.append(record_of_message(message), now), ..before },
            after,
            saved->Ok_0,
            now,
        )
    }
}

/// Restoring is repeatable: files that were taken in without a migration
/// give the same memory again when they are taken in once more, at
/// whatever time.
pub proof fn lemma_restore_is_idempotent(
    m: FacadeModel,
    history_contents: Option<Seq<char>>,
    summary_contents: Option<Seq<char>>,
    now: Seq<char>,
    later: Seq<char>,
)
    requires
        m.restored(history_contents, summary_contents, now) matches Some((_, how)) && how
            != LoadOutcome::Migrated,
    ensures
        m.restored(history_contents, summary_contents, now) matches Some((first, _))
            && first.restored(history_contents, summary_contents, later) == m.restored(
            history_contents,
            summary_contents,
            now,
        ),
{
}

/// Restoring makes the memory well formed, whatever it was before, as
/// long as the log it starts from is: no record that is appended later
/// gets a number that the restored summary covers.
pub proof fn lemma_restore_is_wf(
    m: FacadeModel,
    history_contents: Option<Seq<char>>,
    summary_contents: Option<Seq<char>>,
    now: Seq<char>,
)
    requires
        m.wf(),
        m.restored(history_contents, summary_contents, now) is Some,
    ensures
        m.restored(history_contents, summary_contents, now) matches Some((after, _)) && after.wf()
            && after.store.data.sequence_number < after.log.next_sequence_number,
{
    match history_contents {
        Some(c) => {
            let doc = json_parse(c);
            if !is_blank(c) {
                if doc is Some && session_of_document(doc->0) is Some {
                    lemma_next_after_is_wf(session_of_document(doc->0)->0);
                } else {
                    let records = migrate_legacy(c, now)->0;
                    lemma_next_after_is_wf(
                        SessionModel { updated_at: now, messages: records, ..m.log.history },
                    );
                }
            }
        },
        None => {},
    }
}

/// A compaction folds every pending record into the summary, once: after
/// it the checkpoint stands at the newest record, no record is pending, no
/// further compaction is due, and the memory is well formed.
pub proof fn lemma_compaction_covers_pending(m: FacadeModel, summary: Seq<char>, now: Seq<char>)
    requires
        m.wf(),
        m.compacts(),
    ensures
        ({
            let after = m.compacted(summary, now);
            &&& after.wf()
            &&& after.store.data.sequence_number == m.log.history.messages.last().sequence_number
            &&& after.store.data.sequence_number > m.store.data.sequence_number
            &&& pending(after.log.history.messages, after.store.data.sequence_number).len() == 0
            &&& !after.compacts()
        }),
{
    let ms = m.log.history.messages;
    lemma_pending_ends_with_last(ms, m.store.data.sequence_number);
    let after = m.compacted(summary, now);
    let kept = after.log.history.messages;
    assert(kept.len() > 0 ==> kept.last() == ms.last());
    lemma_nothing_pending_at_newest(kept, after.store.data.sequence_number);
}

/// Saving a turn never lowers the checkpoint and never gives a record a
/// number that the summary covers: the memory stays well formed, and the
/// checkpoint after the save is at least the one before.
pub proof fn lemma_checkpoint_only_rises(
    before: FacadeModel,
    after: FacadeModel,
    saved: Result<Compaction, MemoryError>,
    input: Seq<char>,
    output: Seq<char>,
    user_time: Seq<char>,
    assistant_time: Seq<char>,
    now: Seq<char>,
)
    requires
        before.wf(),
        turn_saved(before, after, saved, input, output, user_time, assistant_time, now),
    ensures
        after.store.data.sequence_number >= before.store.data.sequence_number,
        after.log.next_sequence_number >= before.log.next_sequence_number,
        after.store.data.sequence_number < after.log.next_sequence_number,
{
    if before.turn_fits(input, output) {
        let stored = before.with_turn(input, output, user_time, assistant_time);
        if stored.compacts() && saved->Ok_0 is Done {
            assert(stored.log.wf());
            lemma_compaction_covers_pending(stored, after.store.data.summary->0, now);
        }
    }
}

/// The members with `key` taken over from `from`, if `from` has it.
pub open spec fn with_copy(
    members: Seq<(Seq<char>, JsonModel)>,
    from: Seq<(Seq<char>, JsonModel)>,
    key: Seq<char>,
) -> Seq<(Seq<char>, JsonModel)> {
    match lookup(from, key) {
        Some(v) => with_member(members, key, v),
        None => members,
    }
}

/// What the memory remembers of a turn that came as members: the `input`
/// of `inputs` and the `output` of `outputs`.
pub open spec fn remembered(
    variables: Seq<(Seq<char>, JsonModel)>,
    inputs: Seq<(Seq<char>, JsonModel)>,
    outputs: Seq<(Seq<char>, JsonModel)>,
) -> Seq<(Seq<char>, JsonModel)> {
    with_copy(with_copy(variables, inputs, "input"@), outputs, "output"@)
}

/// Whether `after` and `saved` are what saving a turn that came as members
/// makes of `before`, with the records made at `user_time` and
/// `assistant_time` and the compaction at `now`.
pub open spec fn context_saved(
    before: FacadeModel,
    after: FacadeModel,
    saved: Result<Compaction, MemoryError>,
    inputs: Seq<(Seq<char>, JsonModel)>,
    outputs: Seq<(Seq<char>, JsonModel)>,
    user_time: Seq<char>,
    assistant_time: Seq<char>,
    now: Seq<char>,
) -> bool {
    let input = text_or_empty(inputs, "input"@);
    let output = text_or_empty(outputs, "output"@);
    if before.turn_fits(input, output) {
        turn_saved(
            FacadeModel { variables: remembered(before.variables, inputs, outputs), ..before },
            after,
            saved,
            input,
            output,
            user_time,
            assistant_time,
            now,
        )
    } else {
        saved == Err::<Compaction, MemoryError>(MemoryError::SequenceExhausted) && after == before
    }
}

/// The configuration as a JSON object.
pub open spec fn config_object(m: FacadeModel) -> JsonModel {
    JsonModel::Object(
        Seq::<(Seq<char>, JsonModel)>::empty().push(("data_dir"@, model_of_opt_text(m.data_dir)))
            .push(("session_id"@, JsonModel::String(m.session_id))).push(
            (
                "summary_threshold"@,
                JsonModel::Number(NumberModel::PosInt(m.summary_threshold as u64)),
            ),
        ).push(
            (
                "recent_messages_count"@,
                JsonModel::Number(NumberModel::PosInt(m.recent_messages_count as u64)),
            ),
        ).push(("auto_generate_summary"@, JsonModel::Bool(m.auto_generate_summary))),
    )
}

/// A message as a JSON object.
pub open spec fn chat_message_object(m: MessageModel) -> JsonModel {
    JsonModel::Object(
        Seq::<(Seq<char>, JsonModel)>::empty().push(("id"@, JsonModel::String(m.id))).push(
            ("role"@, JsonModel::String(m.role)),
        ).push(("content"@, JsonModel::String(m.content))).push(
            ("timestamp"@, JsonModel::String(m.timestamp)),
        ).push(
            (
                "metadata"@,
                match m.metadata {
                    Some(v) => v,
                    None => JsonModel::Null,
                },
            ),
        ),
    )
}

/// Messages as JSON objects.
pub open spec fn chat_message_objects(ms: Seq<MessageModel>) -> Seq<JsonModel> {
    Seq::new(ms.len(), |i: int| chat_message_object(ms[i]))
}

/// What a load hands out: the recent records as messages under
/// `chat_history`, the summary if there is one, the `input` and the
/// `output` of `inputs` if it has them, and the configuration.
pub open spec fn loaded_variables(m: FacadeModel, inputs: Seq<(Seq<char>, JsonModel)>) -> Seq<
    (Seq<char>, JsonModel),
> {
    let messages = messages_of(recent(m.log.history.messages, m.recent_messages_count as nat));
    let history = with_member(
        Seq::empty(),
        "chat_history"@,
        JsonModel::Array(chat_message_objects(messages)),
    );
    let summarized = match m.store.data.summary {
        Some(s) => with_member(history, "summary"@, JsonModel::String(s)),
        None => history,
    };
    with_member(
        with_copy(with_copy(summarized, inputs, "input"@), inputs, "output"@),
        "config"@,
        config_object(m),
    )
}

/// Loading is repeatable: what a load hands out does not depend on what
/// the memory remembers, so a second load with the same inputs and no
/// write in between hands out the same.
pub proof fn lemma_load_is_repeatable(m: FacadeModel, inputs: Seq<(Seq<char>, JsonModel)>)
    ensures
        loaded_variables(
            FacadeModel { variables: loaded_variables(m, inputs), ..m },
            inputs,
        ) == loaded_variables(m, inputs),
{
}

/// The statistics of the memory.
pub open spec fn facade_stats(m: FacadeModel) -> JsonModel {
    JsonModel::Object(
        Seq::<(Seq<char>, JsonModel)>::empty().push(
            (
                "config"@,
                JsonModel::Object(
                    Seq::<(Seq<char>, JsonModel)>::empty().push(
                        (
                            "summary_threshold"@,
                            JsonModel::Number(NumberModel::PosInt(m.summary_threshold as u64)),
                        ),
                    ).push(
                        (
                            "recent_messages_count"@,
                            JsonModel::Number(NumberModel::PosInt(m.recent_messages_count as u64)),
                        ),
                    ).push(("auto_generate_summary"@, JsonModel::Bool(m.auto_generate_summary))),
                ),
            ),
        ).push(
            (
                "message_history"@,
                JsonModel::Object(
                    Seq::<(Seq<char>, JsonModel)>::empty().push(
                        ("enabled"@, JsonModel::Bool(true)),
                    ).push(
                        (
                            "message_count"@,
                            JsonModel::Number(
                                NumberModel::PosInt(m.log.history.messages.len() as u64),
                            ),
                        ),
                    ),
                ),
            ),
        ).push(
            (
                "summary_memory"@,
                JsonModel::Object(
                    Seq::<(Seq<char>, JsonModel)>::empty().push(
                        ("enabled"@, JsonModel::Bool(true)),
                    ).push(("has_summary"@, JsonModel::Bool(m.store.data.summary is Some))).push(
                        (
                            "token_count"@,
                            JsonModel::Number(NumberModel::PosInt(m.store.data.token_count as u64)),
                        ),
                    ).push(("last_updated"@, JsonModel::String(m.store.data.last_updated))),
                ),
            ),
        ),
    )
}

/// The estimated token cost of the memory's own state: its configuration,
/// if the data directory has a text, and what it remembers of the last
/// turn.
pub open spec fn facade_token_estimate(m: FacadeModel) -> nat {
    capped_sum(
        if m.data_dir is Some {
            json_token_estimate(config_object(m))
        } else {
            0
        },
        json_token_estimate(JsonModel::Object(m.variables)),
    )
}

/// A message as a JSON object.
pub fn chat_message_json(message: &ChatMessage) -> (doc: JsonValue)
    ensures
        doc@ == chat_message_object(message@),
{
    let mut members = no_members();
    push_member(&mut members, "id", json_string(message.id.as_str()));
    push_member(&mut members, "role", json_string(message.role.as_str()));
    push_member(&mut members, "content", json_string(message.content.as_str()));
    push_member(&mut members, "timestamp", json_string(message.timestamp.as_str()));
    let metadata = match &message.metadata {
        Some(v) => v.duplicate(),
        None => JsonValue::Null,
    };
    push_member(&mut members, "metadata", metadata);
    json_object(members)
}

/// Takes the member `key` over from `from`, if `from` has it.
pub fn copy_member(
    members: &mut Vec<(String, JsonValue)>,
    from: &Vec<(String, JsonValue)>,
    key: &str,
)
    ensures
        members_of(final(members)@) == with_copy(
            members_of(old(members)@),
            members_of(from@),
            key@,
        ),
{
    match get_member(from, key) {
        Some(v) => {
            insert_member(members, key, v.duplicate());
        },
        None => {},
    }
}

impl View for CompositeMemory {
    type V = FacadeModel;

    closed spec fn view(&self) -> FacadeModel {
        FacadeModel {
            session_id: self.session_id@,
            config_session_id: opt_text(self.config.session_id),
            data_dir: opt_text(self.data_dir_text),
            summary_threshold: self.config.summary_threshold,
            recent_messages_count: self.config.recent_messages_count,
            auto_generate_summary: self.config.auto_generate_summary,
            log: self.message_history.log(),
            store: self.summary_memory@,
            variables: members_of(self.memory_variables@),
        }
    }
}

impl CompositeMemory {
    /// The invariant of the memory.
    pub open spec fn wf(&self) -> bool {
        self@.wf()
    }

    /// The memory of a session opened at time `now`: no records and no
    /// summary. The session has the identifier of the configuration, or a
    /// random one of 36 characters where it has none.
    pub fn with_config(config: CompositeMemoryConfig, now: String) -> (memory: Self)
        ensures
            memory.wf(),
            config.session_id is Some ==> memory@.session_id == config.session_id->0@,
            config.session_id is None ==> memory@.session_id.len() == 36,
            memory@.config_session_id == Some(memory@.session_id),
            memory@.summary_threshold == config.summary_threshold,
            memory@.recent_messages_count == config.recent_messages_count,
            memory@.auto_generate_summary == config.auto_generate_summary,
            memory@.log == LogModel::fresh(memory@.session_id, now@),
            memory@.store.session_id == memory@.session_id,
            memory@.store.data == SummaryDataModel::zero(memory@.session_id, now@),
            memory@.store.in_flight is None,
            memory@.variables == Seq::<(Seq<char>, JsonModel)>::empty(),
    {
        let session_id = match &config.session_id {
            Some(id) => id.clone(),
            None => generate_session_id(),
        };
        let log = FileChatMessageHistory::new(session_id.clone(), now.clone());
        let message_history = MessageHistoryMemory::new_with_recent_count(
            session_id.clone(),
            log,
            config.recent_messages_count,
        );
        let summary_memory = SummaryMemory::new(
            session_id.clone(),
            config.summary_threshold,
            config.recent_messages_count,
            now,
        );
        let data_dir_text = path_text(&config.data_dir);
        let config = CompositeMemoryConfig {
            data_dir: config.data_dir,
            session_id: Some(session_id.clone()),
            summary_threshold: config.summary_threshold,
            recent_messages_count: config.recent_messages_count,
            auto_generate_summary: config.auto_generate_summary,
        };
        CompositeMemory {
            config,
            session_id,
            data_dir_text,
            message_history,
            summary_memory,
            memory_variables: no_members(),
        }
    }

    /// The memory of a new session with the default configuration.
    pub fn new(now: String) -> (memory: Self)
        ensures
            memory.wf(),
            memory@.session_id.len() == 36,
            memory@.summary_threshold == 3500,
            memory@.recent_messages_count == 10,
            memory@.auto_generate_summary,
            memory@.log == LogModel::fresh(memory@.session_id, now@),
            memory@.store.data == SummaryDataModel::zero(memory@.session_id, now@),
            memory@.store.in_flight is None,
    {
        CompositeMemory::with_config(CompositeMemoryConfig::default(), now)
    }

    /// The memory of a new session with the given parameters and a random
    /// identifier; compaction is switched on.
    pub fn with_basic_params(
        data_dir: std::path::PathBuf,
        summary_threshold: usize,
        recent_messages_count: usize,
        now: String,
    ) -> (memory: Self)
        ensures
            memory.wf(),
            memory@.session_id.len() == 36,
            memory@.summary_threshold == summary_threshold,
            memory@.recent_messages_count == recent_messages_count,
            memory@.auto_generate_summary,
            memory@.log == LogModel::fresh(memory@.session_id, now@),
            memory@.store.data == SummaryDataModel::zero(memory@.session_id, now@),
            memory@.store.in_flight is None,
    {
        let config = CompositeMemoryConfig {
            data_dir,
            session_id: None,
            summary_threshold,
            recent_messages_count,
            auto_generate_summary: true,
        };
        CompositeMemory::with_config(config, now)
    }

    /// The memory of the session `session_id` with the default
    /// configuration.
    pub fn with_session_id(session_id: String, now: String) -> (memory: Self)
        ensures
            memory.wf(),
            memory@.session_id == session_id@,
            memory@.summary_threshold == 3500,
            memory@.recent_messages_count == 10,
            memory@.auto_generate_summary,
            memory@.log == LogModel::fresh(memory@.session_id, now@),
            memory@.store.data == SummaryDataModel::zero(memory@.session_id, now@),
            memory@.store.in_flight is None,
    {
        let mut config = CompositeMemoryConfig::default();
        config.session_id = Some(session_id);
        CompositeMemory::with_config(config, now)
    }

    /// The session's identifier.
    pub fn get_session_id(&self) -> (id: &str)
        ensures
            id@ == self@.session_id,
    {
        self.session_id.as_str()
    }

    /// Gives the memory another session identifier, in its configuration
    /// too; the log and the summary stay.
    pub fn set_session_id(&mut self, session_id: String)
        ensures
            final(self)@ == (FacadeModel {
                session_id: session_id@,
                config_session_id: Some(session_id@),
                ..old(self)@
            }),
    {
        self.config.session_id = Some(session_id.clone());
        self.session_id = session_id;
    }

    /// The configuration. Its session identifier is the one the memory
    /// goes by since it was made; its data directory is the one it was
    /// made with.
    pub fn config(&self) -> (config: &CompositeMemoryConfig)
        ensures
            opt_text(config.session_id) == self@.config_session_id,
            config.summary_threshold == self@.summary_threshold,
            config.recent_messages_count == self@.recent_messages_count,
            config.auto_generate_summary == self@.auto_generate_summary,
    {
        &self.config
    }

    /// The record log.
    pub fn message_history(&self) -> (history: &MessageHistoryMemory)
        ensures
            history.log() == self@.log,
    {
        &self.message_history
    }

    /// The summary store.
    pub fn summary_memory(&self) -> (store: &SummaryMemory)
        ensures
            store@ == self@.store,
    {
        &self.summary_memory
    }

    /// The names of the members that `load_memory_variables` hands out.
    pub fn memory_variables(&self) -> (names: Vec<String>)
        ensures
            names@.len() == 5,
            names@[0]@ == "chat_history"@,
            names@[1]@ == "summary"@,
            names@[2]@ == "input"@,
            names@[3]@ == "output"@,
            names@[4]@ == "config"@,
    {
        let mut names: Vec<String> = Vec::new();
        names.push(String::from_str("chat_history"));
        names.push(String::from_str("summary"));
        names.push(String::from_str("input"));
        names.push(String::from_str("output"));
        names.push(String::from_str("config"));
        names
    }

    /// How many records the log holds.
    pub fn get_message_count(&self) -> (n: usize)
        ensures
            n == self@.log.history.messages.len(),
    {
        self.message_history.get_message_count()
    }

    /// The last `count` records as messages, oldest first.
    pub fn get_recent_messages(&self, count: usize) -> (messages: Vec<ChatMessage>)
        ensures
            message_views(messages@) == messages_of(
                recent(self@.log.history.messages, count as nat),
            ),
    {
        self.message_history.get_recent_chat_messages(count)
    }

    /// The summary, if there is one.
    pub fn get_summary(&self) -> (summary: Option<String>)
        ensures
            opt_text(summary) == self@.store.data.summary,
    {
        self.summary_memory.load_summary().summary
    }

    /// What a prompt is built from: the most recent records, oldest first,
    /// and the summary if there is one. Nothing changes.
    pub fn load_context(&self) -> (context: (Vec<ChatMessageRecord>, Option<String>))
        ensures
            records_of(context.0@) == recent(
                self@.log.history.messages,
                self@.recent_messages_count as nat,
            ),
            opt_text(context.1) == self@.store.data.summary,
    {
        let records = self.message_history.get_recent_messages(self.config.recent_messages_count);
        let summary = self.get_summary();
        (records, summary)
    }

    /// Takes in the files of the session: the contents of the log's file
    /// and of the summary's file, each `None` where the file does not
    /// exist. Where one of them cannot be read the call fails and nothing
    /// changes. After a legacy file was migrated the caller is to store
    /// the log again at once.
    pub fn restore(
        &mut self,
        history_contents: Option<&str>,
        summary_contents: Option<&str>,
        now: &str,
    ) -> (outcome: Result<LoadOutcome, MemoryError>)
        requires
            old(self).wf(),
        ensures
            final(self).wf(),
            ({
                let spec_history = match history_contents {
                    Some(c) => Some(c@),
                    None => None,
                };
                let spec_summary = match summary_contents {
                    Some(c) => Some(c@),
                    None => None,
                };
                match outcome {
                    Ok(how) => old(self)@.restored(spec_history, spec_summary, now@) == Some(
                        (final(self)@, how),
                    ),
                    Err(e) => {
                        &&& old(self)@.restored(spec_history, spec_summary, now@) is None
                        &&& final(self)@ == old(self)@
                        &&& e == MemoryError::UnreadableSummary || e
                            == MemoryError::UnreadableHistory
                    },
                }
            }),
    {
        let data = match summary_contents {
            Some(c) => match read_stored_summary(c) {
                Some(d) => d,
                None => {
                    return Err(MemoryError::UnreadableSummary);
                },
            },
            None => self.summary_memory.load_summary(),
        };
        if data.sequence_number == u64::MAX {
            return Err(MemoryError::UnreadableSummary);
        }
        let how = match history_contents {
            Some(c) => match self.message_history.load_session_history(c, now) {
                Ok(how) => how,
                Err(e) => {
                    return Err(e);
                },
            },
            None => LoadOutcome::Empty,
        };
        self.message_history.reserve_through(data.sequence_number);
        self.summary_memory.replace_summary(data);
        Ok(how)
    }

    /// Stores the records of a turn and decides whether a compaction
    /// starts.
    ///
    /// Where the log has no sequence numbers left for the turn, nothing is
    /// stored. Otherwise each text that is not blank becomes a record, the
    /// user's first. If compaction is switched on and one is due for the
    /// log as it then stands, the request for the summarizer is handed
    /// back and the compaction is under way.
    pub fn begin_save_context(
        &mut self,
        input: &str,
        output: &str,
        user_time: String,
        assistant_time: String,
    ) -> (request: Result<Option<SummaryRequest>, MemoryError>)
        requires
            old(self).wf(),
        ensures
            final(self).wf(),
            !old(self)@.turn_fits(input@, output@) ==> {
                &&& request == Err::<Option<SummaryRequest>, MemoryError>(
                    MemoryError::SequenceExhausted,
                )
                &&& final(self)@ == old(self)@
            },
            old(self)@.turn_fits(input@, output@) ==> ({
                let stored = old(self)@.with_turn(input@, output@, user_time@, assistant_time@);
                &&& request is Ok
                &&& stored.compacts() ==> {
                    &&& request->Ok_0 is Some
                    &&& request->Ok_0->0@ == stored.store.request(stored.log.history.messages)
                    &&& final(self)@ == (FacadeModel {
                        store: StoreModel {
                            in_flight: Some(stored.next_checkpoint()),
                            ..stored.store
                        },
                        ..stored
                    })
                }
                &&& !stored.compacts() ==> {
                    &&& request->Ok_0 is None
                    &&& final(self)@ == stored
                }
            }),
    {
        match self.message_history.add_turn(input, output, user_time, assistant_time) {
            Err(e) => {
                return Err(e);
            },
            Ok(()) => {},
        }
        Ok(self.begin_compaction())
    }

    /// Decides whether a compaction starts: it does if compaction is
    /// switched on, none is under way and one is due. The request for the
    /// summarizer is then handed back and the compaction is under way.
    /// Otherwise nothing changes.
    pub fn begin_compaction(&mut self) -> (request: Option<SummaryRequest>)
        requires
            old(self).wf(),
        ensures
            final(self).wf(),
            old(self)@.compacts() ==> {
                &&& request is Some
                &&& request->0@ == old(self)@.store.request(old(self)@.log.history.messages)
                &&& final(self)@ == (FacadeModel {
                    store: StoreModel {
                        in_flight: Some(old(self)@.next_checkpoint()),
                        ..old(self)@.store
                    },
                    ..old(self)@
                })
            },
            !old(self)@.compacts() ==> {
                &&& request is None
                &&& final(self)@ == old(self)@
            },
    {
        if !self.config.auto_generate_summary {
            return None;
        }
        let request = self.summary_memory.begin_compaction(&self.message_history);
        proof {
            if request is Some {
                lemma_pending_ends_with_last(
                    self@.log.history.messages,
                    self@.store.data.sequence_number,
                );
            }
        }
        request
    }

    /// Ends the compaction under way with what the summarizer answered.
    ///
    /// With a summary, the store takes it with the checkpoint of the
    /// request and the log sheds all but its most recent records; a record
    /// that was saved while the summarizer worked stays in any case. With
    /// a failure, the store and the log stay as they are and the reason is
    /// handed on. No compaction is under way afterwards.
    pub fn finish_save_context(&mut self, outcome: Result<String, String>, now: String) -> (done:
        Result<bool, MemoryError>)
        requires
            old(self).wf(),
        ensures
            final(self).wf(),
            old(self)@.store.in_flight is None ==> {
                &&& done == Err::<bool, MemoryError>(MemoryError::NoCompactionInFlight)
                &&& final(self)@ == old(self)@
            },
            old(self)@.store.in_flight is Some && outcome is Err ==> {
                &&& done matches Err(MemoryError::Summarizer(reason))
                &&& reason@ == outcome->Err_0@
                &&& final(self)@ == (FacadeModel {
                    store: StoreModel { in_flight: None, ..old(self)@.store },
                    ..old(self)@
                })
            },
            old(self)@.store.in_flight is Some && outcome is Ok ==> {
                &&& done == Ok::<bool, MemoryError>(true)
                &&& final(self)@ == (FacadeModel {
                    store: StoreModel {
                        in_flight: None,
                        ..old(self)@.store.updated(
                            outcome->Ok_0@,
                            old(self)@.store.in_flight->0,
                            now@,
                        )
                    },
                    log: old(self)@.log.retain_recent(
                        kept_after(
                            old(self)@.log.history.messages,
                            old(self)@.store.in_flight->0,
                            old(self)@.recent_messages_count,
                        ),
                        now@,
                    ),
                    ..old(self)@
                })
            },
    {
        self.summary_memory.finish_compaction(&mut self.message_history, outcome, now)
    }

    /// Compacts the log if that is due, with `summarizer` doing the
    /// summarizing.
    pub fn maybe_compact<S: Summarizer>(&mut self, summarizer: &S, now: String) -> (outcome:
        Compaction)
        requires
            old(self).wf(),
        ensures
            final(self).wf(),
            after_compaction(old(self)@, final(self)@, outcome, now@),
    {
        let request = match self.begin_compaction() {
            None => {
                return Compaction::NotDue;
            },
            Some(request) => request,
        };
        proof {
            let ms = self@.log.history.messages;
            lemma_pending_ends_with_last(ms, old(self)@.store.data.sequence_number);
            lemma_kept_is_window_at_newest(
                ms,
                ms.last().sequence_number,
                self@.recent_messages_count,
            );
        }
        let answer = summarizer.summarize(&request);
        match self.finish_save_context(answer, now) {
            Ok(_) => Compaction::Done,
            Err(MemoryError::Summarizer(reason)) => Compaction::Failed(reason),
            Err(_) => Compaction::NotDue,
        }
    }

    /// Saves a turn: stores its records and then, once for the whole turn,
    /// compacts the log if that is due, with `summarizer` doing the
    /// summarizing.
    ///
    /// Where the log has no sequence numbers left for the turn, nothing
    /// changes and the call fails. Otherwise the records are stored, and
    /// they stay stored whatever becomes of the compaction.
    pub fn save_turn<S: Summarizer>(
        &mut self,
        input: &str,
        output: &str,
        summarizer: &S,
        user_time: String,
        assistant_time: String,
        now: String,
    ) -> (saved: Result<Compaction, MemoryError>)
        requires
            old(self).wf(),
        ensures
            final(self).wf(),
            turn_saved(
                old(self)@,
                final(self)@,
                saved,
                input@,
                output@,
                user_time@,
                assistant_time@,
                now@,
            ),
    {
        match self.message_history.add_turn(input, output, user_time, assistant_time) {
            Err(e) => {
                return Err(e);
            },
            Ok(()) => {},
        }
        Ok(self.maybe_compact(summarizer, now))
    }

    /// Remembers the `input` of `inputs` and the `output` of `outputs`, as
    /// they came, in the place of what was remembered of the turn before.
    pub fn remember_context(
        &mut self,
        inputs: &Vec<(String, JsonValue)>,
        outputs: &Vec<(String, JsonValue)>,
    )
        ensures
            final(self)@ == (FacadeModel {
                variables: remembered(
                    old(self)@.variables,
                    members_of(inputs@),
                    members_of(outputs@),
                ),
                ..old(self)@
            }),
    {
        copy_member(&mut self.memory_variables, inputs, "input");
        copy_member(&mut self.memory_variables, outputs, "output");
    }

    /// Saves a turn that comes as members: the string `input` of `inputs`
    /// is what the user said at `user_time`, the string `output` of
    /// `outputs` what the assistant answered at `assistant_time`. A
    /// compaction that is due is made at time `now`, with `summarizer`
    /// doing the summarizing. The memory remembers the two members as
    /// they came. Where the log has no sequence numbers left for the turn,
    /// nothing changes and the call fails.
    pub fn save_context<S: Summarizer>(
        &mut self,
        inputs: &Vec<(String, JsonValue)>,
        outputs: &Vec<(String, JsonValue)>,
        summarizer: &S,
        user_time: String,
        assistant_time: String,
        now: String,
    ) -> (saved: Result<Compaction, MemoryError>)
        requires
            old(self).wf(),
        ensures
            final(self).wf(),
            context_saved(
                old(self)@,
                final(self)@,
                saved,
                members_of(inputs@),
                members_of(outputs@),
                user_time@,
                assistant_time@,
                now@,
            ),
    {
        let input = member_text(inputs, "input");
        let output = member_text(outputs, "output");
        let saved = self.save_turn(input, output, summarizer, user_time, assistant_time, now);
        if saved.is_ok() {
            self.remember_context(inputs, outputs);
        }
        saved
    }

    /// Stores a message as a record and then compacts the log if that is
    /// due. A message with a blank content is dropped. Where the log has
    /// no sequence number left, nothing changes and the call fails.
    pub fn add_message<S: Summarizer>(&mut self, message: ChatMessage, summarizer: &S, now: String)
        -> (saved: Result<Compaction, MemoryError>)
        requires
            old(self).wf(),
        ensures
            final(self).wf(),
            message_added(old(self)@, final(self)@, saved, message, now@),
    {
        match self.message_history.add_message(&message, now.clone()) {
            Err(e) => {
                return Err(e);
            },
            Ok(_) => {},
        }
        Ok(self.maybe_compact(summarizer, now))
    }

    /// Sheds all but the most recent records of the log.
    pub fn cleanup_old_messages(&mut self, now: String)
        requires
            old(self).wf(),
        ensures
            final(self).wf(),
            final(self)@ == (FacadeModel {
                log: old(self)@.log.retain_recent(old(self)@.recent_messages_count as nat, now@),
                ..old(self)@
            }),
    {
        self.message_history.keep_recent_messages(self.config.recent_messages_count, now);
    }

    /// Empties the log, forgets the summary and what was remembered of the
    /// last turn; the session keeps its identifier.
    pub fn clear(&mut self, now: String)
        requires
            old(self).wf(),
        ensures
            final(self).wf(),
            final(self)@ == (FacadeModel {
                log: old(self)@.log.clear(now@),
                store: StoreModel {
                    data: SummaryDataModel::zero(old(self)@.store.session_id, now@),
                    in_flight: None,
                    ..old(self)@.store
                },
                variables: Seq::empty(),
                ..old(self)@
            }),
    {
        self.message_history.clear(now.clone());
        self.summary_memory.clear_summary(now);
        self.memory_variables = no_members();
    }

    /// The configuration as a JSON object.
    pub fn config_json(&self) -> (doc: JsonValue)
        ensures
            doc@ == config_object(self@),
    {
        let mut members = no_members();
        let data_dir = match &self.data_dir_text {
            Some(t) => json_string(t.as_str()),
            None => JsonValue::Null,
        };
        push_member(&mut members, "data_dir", data_dir);
        push_member(&mut members, "session_id", json_string(self.session_id.as_str()));
        push_member(&mut members, "summary_threshold", json_count(self.config.summary_threshold));
        push_member(
            &mut members,
            "recent_messages_count",
            json_count(self.config.recent_messages_count),
        );
        push_member(
            &mut members,
            "auto_generate_summary",
            JsonValue::Bool(self.config.auto_generate_summary),
        );
        json_object(members)
    }

    /// The statistics of the memory: its configuration, how many records
    /// the log holds, whether there is a summary and what it costs. Nothing
    /// changes.
    pub fn get_memory_stats(&self) -> (stats: JsonValue)
        ensures
            stats@ == facade_stats(self@),
    {
        let mut config = no_members();
        push_member(&mut config, "summary_threshold", json_count(self.config.summary_threshold));
        push_member(
            &mut config,
            "recent_messages_count",
            json_count(self.config.recent_messages_count),
        );
        push_member(
            &mut config,
            "auto_generate_summary",
            JsonValue::Bool(self.config.auto_generate_summary),
        );
        let mut history = no_members();
        push_member(&mut history, "enabled", JsonValue::Bool(true));
        push_member(
            &mut history,
            "message_count",
            json_count(self.message_history.get_message_count()),
        );
        let data = self.summary_memory.load_summary();
        let mut summary = no_members();
        push_member(&mut summary, "enabled", JsonValue::Bool(true));
        push_member(&mut summary, "has_summary", JsonValue::Bool(data.summary.is_some()));
        push_member(&mut summary, "token_count", json_count(data.token_count));
        push_member(&mut summary, "last_updated", json_string(data.last_updated.as_str()));
        let mut stats = no_members();
        push_member(&mut stats, "config", json_object(config));
        push_member(&mut stats, "message_history", json_object(history));
        push_member(&mut stats, "summary_memory", json_object(summary));
        json_object(stats)
    }

    /// The estimated token cost of the memory's own state.
    pub fn get_token_count(&self) -> (count: usize)
        ensures
            count == facade_token_estimate(self@),
    {
        let config = if self.data_dir_text.is_some() {
            estimate_json_token_count(&self.config_json())
        } else {
            0
        };
        let variables = json_object(duplicate_members(&self.memory_variables));
        config.saturating_add(estimate_json_token_count(&variables))
    }

    /// What a prompt takes from the memory: the recent records as messages
    /// under `chat_history`; the summary if there is one; the `input` and
    /// the `output` of `inputs` if it has
    /// them; and the configuration. The memory remembers what it handed
    /// out. Where the data directory has no text the configuration cannot
    /// be written: the call fails and nothing changes.
    pub fn load_memory_variables(&mut self, inputs: &Vec<(String, JsonValue)>) -> (variables:
        Result<Vec<(String, JsonValue)>, MemoryError>)
        ensures
            old(self)@.data_dir is None ==> {
                &&& variables == Err::<Vec<(String, JsonValue)>, MemoryError>(
                    MemoryError::Serialize,
                )
                &&& final(self)@ == old(self)@
            },
            old(self)@.data_dir is Some ==> {
                &&& variables is Ok
                &&& final(self)@ == (FacadeModel {
                    variables: members_of(variables->Ok_0@),
                    ..old(self)@
                })
                &&& members_of(variables->Ok_0@) == loaded_variables(
                    old(self)@,
                    members_of(inputs@),
                )
            },
    {
        if self.data_dir_text.is_none() {
            return Err(MemoryError::Serialize);
        }
        let messages = self.message_history.get_recent_chat_messages(
            self.config.recent_messages_count,
        );
        let ghost models = message_views(messages@);
        let mut items: Vec<JsonValue> = Vec::new();
        let mut i: usize = 0;
        while i < messages.len()
            invariant
                i <= messages.len(),
                items@.len() == i,
                forall|j: int|
                    0 <= j < i ==> (#[trigger] items@[j])@ == chat_message_object(messages@[j]@),
            decreases messages.len() - i,
        {
            items.push(chat_message_json(&messages[i]));
            i = i + 1;
        }
        assert(models_of(items@) =~= chat_message_objects(models));
        let mut variables = no_members();
        insert_member(&mut variables, "chat_history", json_array(items));
        match self.get_summary() {
            Some(s) => {
                insert_member(&mut variables, "summary", json_string(s.as_str()));
            },
            None => {},
        }
        copy_member(&mut variables, inputs, "input");
        copy_member(&mut variables, inputs, "output");
        insert_member(&mut variables, "config", self.config_json());
        self.memory_variables = duplicate_members(&variables);
        Ok(variables)
    }
}

} // verus!
