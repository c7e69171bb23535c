//! The record log of one session: chat records in append order, each with
//! a sequence number that is never reused.

use vstd::prelude::*;
use vstd::string::*;
use crate::error::MemoryError;
use crate::json::{
    JsonModel,
    JsonValue,
    duplicate_members,
    get_member,
    insert_member,
    insert_members,
    json_array,
    json_object,
    json_parse,
    json_pretty_text,
    json_string,
    lemma_object_view,
    lookup,
    members_of,
    members_without,
    models_of,
    no_members,
    parse_json,
    push_member,
    to_pretty_text,
    with_member,
    with_members,
    without_key,
};
use crate::memory::document::{
    encode_session,
    lemma_session_round_trip,
    read_session,
    session_of_document,
    write_session,
};
use crate::memory::legacy::{migrate, migrate_legacy};
use crate::memory::utils::{get_recent_messages_count_from_env, parse_decimal};
use crate::text::{decimal_string, decimal_text, is_blank, str_eq, str_is_blank, to_chars};

verus! {

/// A message as callers hand it in: the content, who said it and when.
#[derive(Debug)]
pub struct ChatMessage {
    pub id: String,
    pub role: String,
    pub content: String,
    pub timestamp: String,
    pub metadata: Option<JsonValue>,
}

/// Who speaks in a record.
#[derive(Debug, Clone, Copy, PartialEq, Eq, Structural)]
pub enum Role {
    System,
    User,
    Assistant,
    Tool,
}

/// The name under which a role is stored.
pub open spec fn role_name(role: Role) -> Seq<char> {
    match role {
        Role::System => "system"@,
        Role::User => "user"@,
        Role::Assistant => "assistant"@,
        Role::Tool => "tool"@,
    }
}

/// The role that a stored name stands for, if it is the name of one.
pub open spec fn role_named(name: Seq<char>) -> Option<Role> {
    if name == "system"@ {
        Some(Role::System)
    } else if name == "user"@ {
        Some(Role::User)
    } else if name == "assistant"@ {
        Some(Role::Assistant)
    } else if name == "tool"@ {
        Some(Role::Tool)
    } else {
        None
    }
}

/// Each role is the one that its name stands for.
pub proof fn lemma_role_names_are_distinct(role: Role)
    ensures
        role_named(role_name(role)) == Some(role),
{
    reveal_strlit("system");
    reveal_strlit("user");
    reveal_strlit("assistant");
    reveal_strlit("tool");
    assert("system"@[0] == 's');
    assert("user"@[0] == 'u');
    assert("assistant"@[0] == 'a');
    assert("tool"@[0] == 't');
}

impl Role {
    /// The name under which the role is stored.
    pub fn as_str(&self) -> (name: &'static str)
        ensures
            name@ == role_name(*self),
    {
        match self {
            Role::System => "system",
            Role::User => "user",
            Role::Assistant => "assistant",
            Role::Tool => "tool",
        }
    }

    /// The role that a stored name stands for.
    pub fn parse(name: &str) -> (role: Option<Role>)
        ensures
            role == role_named(name@),
    {
        if str_eq(name, "system") {
            Some(Role::System)
        } else if str_eq(name, "user") {
            Some(Role::User)
        } else if str_eq(name, "assistant") {
            Some(Role::Assistant)
        } else if str_eq(name, "tool") {
            Some(Role::Tool)
        } else {
            None
        }
    }
}

/// One stored utterance.
#[derive(Debug)]
pub struct ChatMessageRecord {
    /// Who spoke: "system", "user", "assistant" or "tool".
    pub role: String,
    /// What was said; never blank in a stored record.
    pub content: String,
    /// An optional label, such as a tool's name.
    pub name: Option<String>,
    /// Fields that belong to a protocol and mean nothing to the log.
    pub additional_kwargs: Option<Vec<(String, JsonValue)>>,
    /// When the record was made, in ISO 8601.
    pub timestamp: String,
    /// The place of the record in its session.
    pub sequence_number: u64,
}

/// The model of a [`ChatMessageRecord`].
pub struct RecordModel {
    pub role: Seq<char>,
    pub content: Seq<char>,
    pub name: Option<Seq<char>>,
    pub additional_kwargs: Option<Seq<(Seq<char>, JsonModel)>>,
    pub timestamp: Seq<char>,
    pub sequence_number: u64,
}

/// The text of an optional string.
pub open spec fn opt_text(o: Option<String>) -> Option<Seq<char>> {
    match o {
        Some(s) => Some(s@),
        None => None,
    }
}

/// The models of optional object members.
pub open spec fn opt_members(o: Option<Vec<(String, JsonValue)>>) -> Option<
    Seq<(Seq<char>, JsonModel)>,
> {
    match o {
        Some(m) => Some(members_of(m@)),
        None => None,
    }
}

impl View for ChatMessageRecord {
    type V = RecordModel;

    open spec fn view(&self) -> RecordModel {
        RecordModel {
            role: self.role@,
            content: self.content@,
            name: opt_text(self.name),
            additional_kwargs: opt_members(self.additional_kwargs),
            timestamp: self.timestamp@,
            sequence_number: self.sequence_number,
        }
    }
}

/// The models of a sequence of records.
pub open spec fn records_of(v: Seq<ChatMessageRecord>) -> Seq<RecordModel> {
    Seq::new(v.len(), |i: int| v[i]@)
}

/// The whole of a session as it is stored.
#[derive(Debug)]
pub struct ChatSessionHistory {
    pub session_id: String,
    pub created_at: String,
    pub updated_at: String,
    /// The records, oldest first.
    pub messages: Vec<ChatMessageRecord>,
    pub metadata: Option<Vec<(String, JsonValue)>>,
}

/// The model of a [`ChatSessionHistory`].
pub struct SessionModel {
    pub session_id: Seq<char>,
    pub created_at: Seq<char>,
    pub updated_at: Seq<char>,
    pub messages: Seq<RecordModel>,
    pub metadata: Option<Seq<(Seq<char>, JsonModel)>>,
}

impl View for ChatSessionHistory {
    type V = SessionModel;

    open spec fn view(&self) -> SessionModel {
        SessionModel {
            session_id: self.session_id@,
            created_at: self.created_at@,
            updated_at: self.updated_at@,
            messages: records_of(self.messages@),
            metadata: opt_members(self.metadata),
        }
    }
}

/// A record that may be stored: its number is at least 1 and leaves room
/// for a successor, and its content is not blank.
pub open spec fn valid_record(r: RecordModel) -> bool {
    &&& 1 <= r.sequence_number < u64::MAX
    &&& !is_blank(r.content)
}

/// Records that may be stored together: each is valid, and their numbers
/// rise strictly from one record to the next.
pub open spec fn valid_records(ms: Seq<RecordModel>) -> bool {
    &&& forall|i: int| 0 <= i < ms.len() ==> valid_record(#[trigger] ms[i])
    &&& forall|i: int, j: int|
        0 <= i < j < ms.len() ==> (#[trigger] ms[i]).sequence_number < (
        #[trigger] ms[j]).sequence_number
}

/// The last `n` of `ms`, or all of them where there are no more than `n`.
pub open spec fn recent(ms: Seq<RecordModel>, n: nat) -> Seq<RecordModel> {
    if ms.len() > n {
        ms.skip(ms.len() - n)
    } else {
        ms
    }
}

/// The model of a [`FileChatMessageHistory`]: the stored session and the
/// number that the next record will get.
pub struct LogModel {
    pub history: SessionModel,
    pub next_sequence_number: u64,
}

impl LogModel {
    /// The records are valid and every number in use lies below the next
    /// one to be given out.
    pub open spec fn wf(self) -> bool {
        &&& valid_records(self.history.messages)
        &&& 1 <= self.next_sequence_number
        &&& forall|i: int|
            0 <= i < self.history.messages.len() ==> (
            #[trigger] self.history.messages[i]).sequence_number < self.next_sequence_number
    }

    /// A session that has just been opened at time `now`.
    pub open spec fn fresh(session_id: Seq<char>, now: Seq<char>) -> LogModel {
        LogModel {
            history: SessionModel {
                session_id,
                created_at: now,
                updated_at: now,
                messages: Seq::empty(),
                metadata: None,
            },
            next_sequence_number: 1,
        }
    }

    /// Whether an append of `content` stores a record: the content is not
    /// blank and a number is left.
    pub open spec fn accepts(self, content: Seq<char>) -> bool {
        !is_blank(content) && self.next_sequence_number < u64::MAX
    }

    /// The log after `record` was stored at time `now`, under the next
    /// number.
    pub open spec fn push(self, record: RecordModel, now: Seq<char>) -> LogModel {
        LogModel {
            history: SessionModel {
                updated_at: now,
                messages: self.history.messages.push(
                    RecordModel { sequence_number: self.next_sequence_number, ..record },
                ),
                ..self.history
            },
            next_sequence_number: (self.next_sequence_number + 1) as u64,
        }
    }

    /// The log after an append of `record` at time `now`: unchanged where
    /// the content is blank or no number is left.
    pub open spec fn append(self, record: RecordModel, now: Seq<char>) -> LogModel {
        if self.accepts(record.content) {
            self.push(record, now)
        } else {
            self
        }
    }

    /// The log after all but its last `n` records were shed at time `now`.
    /// Nothing changes, the time of the last update included, where it
    /// holds no more than `n` records.
    pub open spec fn retain_recent(self, n: nat, now: Seq<char>) -> LogModel {
        if self.history.messages.len() <= n {
            self
        } else {
            LogModel {
                history: SessionModel {
                    updated_at: now,
                    messages: recent(self.history.messages, n),
                    ..self.history
                },
                ..self
            }
        }
    }

    /// The log after it was emptied at time `now`: no records, and the
    /// numbering starts again at 1.
    pub open spec fn clear(self, now: Seq<char>) -> LogModel {
        LogModel {
            history: SessionModel { updated_at: now, messages: Seq::empty(), ..self.history },
            next_sequence_number: 1,
        }
    }
}

/// How a stored file was taken in.
#[derive(Debug, PartialEq, Eq, Clone, Copy, Structural)]
pub enum LoadOutcome {
    /// The file held nothing; the log is as it was.
    Empty,
    /// The file held a session document.
    Loaded,
    /// The file held legacy records. They were migrated, and the log is to
    /// be stored again at once so that the file holds a session document.
    Migrated,
}

/// How many records a turn stores: one for each of the two texts that is
/// not blank.
pub open spec fn turn_records(input: Seq<char>, output: Seq<char>) -> nat {
    let user: nat = if is_blank(input) {
        0
    } else {
        1
    };
    let assistant: nat = if is_blank(output) {
        0
    } else {
        1
    };
    user + assistant
}

/// The text of the member `key`, if it is a string.
pub open spec fn text_of_member(members: Seq<(Seq<char>, JsonModel)>, key: Seq<char>) -> Option<
    Seq<char>,
> {
    match lookup(members, key) {
        Some(v) => v.as_text(),
        None => None,
    }
}

/// The text of the member `key`, or the empty text where it is no string.
pub open spec fn text_or_empty(members: Seq<(Seq<char>, JsonModel)>, key: Seq<char>) -> Seq<
    char,
> {
    match text_of_member(members, key) {
        Some(t) => t,
        None => Seq::empty(),
    }
}

/// The number for the next record of a log that holds the records `ms`:
/// one more than the last, or 1 for an empty log.
pub open spec fn next_after(ms: Seq<RecordModel>) -> u64 {
    if ms.len() == 0 {
        1
    } else {
        (ms.last().sequence_number + 1) as u64
    }
}

/// What an assistant's answer is stored as. An answer that is a JSON
/// string in quotes is stored as the string; one that is a JSON object
/// with a string member `content` is stored as that member; any other
/// answer is stored as it is.
pub open spec fn unwrapped_content(content: Seq<char>) -> Seq<char> {
    if content.len() > 0 && content.first() == '"' && content.last() == '"' {
        match json_parse(content) {
            Some(JsonModel::String(s)) => s,
            _ => content,
        }
    } else if content.len() > 0 && content.first() == '{' && content.last() == '}' {
        match json_parse(content) {
            Some(doc) => match doc.text_at("content"@) {
                Some(s) => s,
                None => content,
            },
            None => content,
        }
    } else {
        content
    }
}

impl LogModel {
    /// The log after the file `contents` was taken in at time `now`, and
    /// how it was taken in; `None` where the file cannot be read.
    ///
    /// A blank file changes nothing. A session document replaces the
    /// whole log. Anything else is read as a legacy file, whose records
    /// replace those of the log; there may be none of them, where the
    /// file held only records that are not migrated.
    pub open spec fn loaded(self, contents: Seq<char>, now: Seq<char>) -> Option<
        (LogModel, LoadOutcome),
    > {
        let doc = json_parse(contents);
        if is_blank(contents) {
            Some((self, LoadOutcome::Empty))
        } else if doc is Some && session_of_document(doc->0) is Some {
            let history = session_of_document(doc->0)->0;
            Some(
                (
                    LogModel { history, next_sequence_number: next_after(history.messages) },
                    LoadOutcome::Loaded,
                ),
            )
        } else {
            match migrate_legacy(contents, now) {
                Some(records) => Some(
                    (
                        LogModel {
                            history: SessionModel {
                                updated_at: now,
                                messages: records,
                                ..self.history
                            },
                            next_sequence_number: next_after(records),
                        },
                        LoadOutcome::Migrated,
                    ),
                ),
                None => None,
            }
        }
    }

    /// Whether the log has sequence numbers left for the records of a
    /// turn.
    pub open spec fn turn_fits(self, input: Seq<char>, output: Seq<char>) -> bool {
        self.next_sequence_number + turn_records(input, output) <= u64::MAX
    }

    /// The log after the records of a turn were stored: what the user
    /// said at `user_time`, then what the assistant said at
    /// `assistant_time`; a blank text gives no record.
    pub open spec fn with_turn(
        self,
        input: Seq<char>,
        output: Seq<char>,
        user_time: Seq<char>,
        assistant_time: Seq<char>,
    ) -> LogModel {
        self.append(plain_record("user"@, input, user_time), user_time).append(
            plain_record("assistant"@, output, assistant_time),
            assistant_time,
        )
    }

    /// The log after the numbers up to `sequence_number` were set aside:
    /// the next record gets a number above it.
    pub open spec fn reserve_through(self, sequence_number: u64) -> LogModel {
        if sequence_number < self.next_sequence_number {
            self
        } else {
            LogModel { next_sequence_number: (sequence_number + 1) as u64, ..self }
        }
    }
}

/// A log that holds valid records and gives out the number after the last
/// of them is well formed.
pub proof fn lemma_next_after_is_wf(history: SessionModel)
    requires
        valid_records(history.messages),
    ensures
        (LogModel { history, next_sequence_number: next_after(history.messages) }).wf(),
{
    let ms = history.messages;
    if ms.len() > 0 {
        assert forall|i: int| 0 <= i < ms.len() implies (#[trigger] ms[i]).sequence_number
            < next_after(ms) by {
            if i < ms.len() - 1 {
                assert(ms[i].sequence_number < ms[ms.len() - 1].sequence_number);
            }
        }
    }
}

/// Loading is repeatable: a file that was taken in as a session document
/// or as an empty file gives the same log again when it is loaded once
/// more, at whatever time.
pub proof fn lemma_load_is_idempotent(
    log: LogModel,
    contents: Seq<char>,
    now: Seq<char>,
    later: Seq<char>,
)
    requires
        log.loaded(contents, now) matches Some((_, how)) && how != LoadOutcome::Migrated,
    ensures
        log.loaded(contents, now) matches Some((first, _)) && first.loaded(contents, later)
            == log.loaded(contents, now),
{
}

/// What a session document holds does not depend on the log that takes it
/// in, nor on the time.
pub proof fn lemma_load_of_document(
    a: LogModel,
    b: LogModel,
    contents: Seq<char>,
    now: Seq<char>,
    later: Seq<char>,
)
    requires
        a.loaded(contents, now) matches Some((_, how)) && how == LoadOutcome::Loaded,
    ensures
        b.loaded(contents, later) == a.loaded(contents, now),
{
}

/// Storing and loading again gives the records back: if `text` reads as
/// a document that holds the session of a log, then any log that takes
/// `text` in holds that session afterwards, with the same records in the
/// same order, and gives out the number after the last of them next. The
/// document that `encode_session` writes is such a document, and so is
/// any that holds the same members in another order.
pub proof fn lemma_reload_gives_records(
    log: LogModel,
    other: LogModel,
    text: Seq<char>,
    document: JsonModel,
    now: Seq<char>,
)
    requires
        !is_blank(text),
        json_parse(text) == Some(document),
        session_of_document(document) == Some(log.history),
    ensures
        other.loaded(text, now) == Some(
            (
                LogModel {
                    history: log.history,
                    next_sequence_number: next_after(log.history.messages),
                },
                LoadOutcome::Loaded,
            ),
        ),
        session_of_document(encode_session(log.history)) == if valid_records(
            log.history.messages,
        ) {
            Some(log.history)
        } else {
            None
        },
{
    lemma_session_round_trip(log.history);
}

/// After a migration the file is a session document: if the text that was
/// written for the migrated log reads as a document that holds its
/// session, then a later load of that text, by any log and at any time,
/// takes it as a session document and gives the migrated log again, with
/// the same records, the same sequence numbers and the same next number.
pub proof fn lemma_migrated_file_reloads(
    log: LogModel,
    legacy: Seq<char>,
    now: Seq<char>,
    rewritten: Seq<char>,
    document: JsonModel,
    other: LogModel,
    later: Seq<char>,
)
    requires
        log.loaded(legacy, now) matches Some((_, how)) && how == LoadOutcome::Migrated,
        !is_blank(rewritten),
        json_parse(rewritten) == Some(document),
        log.loaded(legacy, now) matches Some((migrated, _)) && session_of_document(document)
            == Some(migrated.history),
    ensures
        log.loaded(legacy, now) matches Some((migrated, _)) && other.loaded(rewritten, later)
            == Some((migrated, LoadOutcome::Loaded)),
{
}

/// A record with the given role and content and nothing else, as the log
/// makes one for a turn of the conversation.
pub open spec fn plain_record(role: Seq<char>, content: Seq<char>, timestamp: Seq<char>)
    -> RecordModel {
    RecordModel {
        role,
        content,
        name: None,
        additional_kwargs: None,
        timestamp,
        sequence_number: 0,
    }
}

impl ChatMessageRecord {
    /// Who speaks in this record, if its role is one of the four.
    pub fn role_kind(&self) -> (role: Option<Role>)
        ensures
            role == role_named(self@.role),
    {
        Role::parse(self.role.as_str())
    }

    /// A copy of this record.
    pub fn duplicate(&self) -> (copy: ChatMessageRecord)
        ensures
            copy@ == self@,
    {
        let name = match &self.name {
            Some(n) => Some(n.clone()),
            None => None,
        };
        let additional_kwargs = match &self.additional_kwargs {
            Some(m) => Some(duplicate_members(m)),
            None => None,
        };
        ChatMessageRecord {
            role: self.role.clone(),
            content: self.content.clone(),
            name,
            additional_kwargs,
            timestamp: self.timestamp.clone(),
            sequence_number: self.sequence_number,
        }
    }
}

/// Copies of `records[from..]`.
pub fn duplicate_records(records: &Vec<ChatMessageRecord>, from: usize) -> (copy: Vec<
    ChatMessageRecord,
>)
    requires
        from <= records.len(),
    ensures
        records_of(copy@) == records_of(records@).skip(from as int),
{
    let mut out: Vec<ChatMessageRecord> = Vec::new();
    let mut i: usize = from;
    while i < records.len()
        invariant
            from <= i <= records.len(),
            out@.len() == i - from,
            forall|j: int| 0 <= j < out@.len() ==> (#[trigger] out@[j])@ == records@[from + j]@,
        decreases records.len() - i,
    {
        out.push(records[i].duplicate());
        i = i + 1;
    }
    assert(records_of(out@) =~= records_of(records@).skip(from as int));
    out
}

/// The text of the member `key`, or the empty text where it is no string.
pub fn member_text<'a>(members: &'a Vec<(String, JsonValue)>, key: &str) -> (text: &'a str)
    ensures
        text@ == text_or_empty(members_of(members@), key@),
{
    let found = match get_member(members, key) {
        Some(v) => v.as_str(),
        None => None,
    };
    match found {
        Some(t) => t,
        None => {
            proof {
                reveal_strlit("");
            }
            assert(""@ =~= Seq::<char>::empty());
            ""
        },
    }
}

/// What an assistant's answer is stored as.
pub fn unwrap_content(content: &str) -> (text: String)
    ensures
        text@ == unwrapped_content(content@),
{
    let chars = to_chars(content);
    let n = chars.len();
    if n > 0 && chars[0] == '"' && chars[n - 1] == '"' {
        match parse_json(content) {
            Ok(JsonValue::String(s)) => s,
            _ => String::from_str(content),
        }
    } else if n > 0 && chars[0] == '{' && chars[n - 1] == '}' {
        match parse_json(content) {
            Ok(doc) => match doc.str_at("content") {
                Some(s) => String::from_str(s),
                None => String::from_str(content),
            },
            Err(_) => String::from_str(content),
        }
    } else {
        String::from_str(content)
    }
}

/// The record log of one session.
#[derive(Debug)]
pub struct FileChatMessageHistory {
    session_history: ChatSessionHistory,
    next_sequence_number: u64,
}

impl View for FileChatMessageHistory {
    type V = LogModel;

    closed spec fn view(&self) -> LogModel {
        LogModel {
            history: self.session_history@,
            next_sequence_number: self.next_sequence_number,
        }
    }
}

impl FileChatMessageHistory {
    /// The invariant of the log.
    pub open spec fn wf(&self) -> bool {
        self@.wf()
    }

    /// A log for a session opened at time `now`, with no records.
    pub fn new(session_id: String, now: String) -> (log: Self)
        ensures
            log.wf(),
            log@ == LogModel::fresh(session_id@, now@),
    {
        let log = FileChatMessageHistory {
            session_history: ChatSessionHistory {
                session_id,
                created_at: now.clone(),
                updated_at: now,
                messages: Vec::new(),
                metadata: None,
            },
            next_sequence_number: 1,
        };
        assert(records_of(log.session_history.messages@) =~= Seq::<RecordModel>::empty());
        log
    }

    /// The session this log belongs to.
    pub fn session_id(&self) -> (id: &str)
        ensures
            id@ == self@.history.session_id,
    {
        self.session_history.session_id.as_str()
    }

    /// The number that the next stored record will get.
    pub fn next_sequence_number(&self) -> (n: u64)
        ensures
            n == self@.next_sequence_number,
    {
        self.next_sequence_number
    }

    /// How many records the log holds.
    pub fn len(&self) -> (n: usize)
        ensures
            n == self@.history.messages.len(),
    {
        self.session_history.messages.len()
    }

    /// Stores a record with the given fields under the next sequence
    /// number: `Ok(Some(n))` with the number given. A blank content is
    /// dropped: `Ok(None)`, and nothing changes. Where no number is left
    /// the append fails and nothing changes.
    pub fn add_message(
        &mut self,
        role: String,
        content: String,
        name: Option<String>,
        additional_kwargs: Option<Vec<(String, JsonValue)>>,
        timestamp: String,
        now: String,
    ) -> (stored: Result<Option<u64>, MemoryError>)
        requires
            old(self).wf(),
        ensures
            final(self).wf(),
            final(self)@ == old(self)@.append(
                RecordModel {
                    role: role@,
                    content: content@,
                    name: opt_text(name),
                    additional_kwargs: opt_members(additional_kwargs),
                    timestamp: timestamp@,
                    sequence_number: 0,
                },
                now@,
            ),
            is_blank(content@) ==> stored == Ok::<Option<u64>, MemoryError>(None),
            !is_blank(content@) && old(self)@.next_sequence_number < u64::MAX ==> stored == Ok::<
                Option<u64>,
                MemoryError,
            >(Some(old(self)@.next_sequence_number)),
            !is_blank(content@) && old(self)@.next_sequence_number == u64::MAX ==> stored == Err::<
                Option<u64>,
                MemoryError,
            >(MemoryError::SequenceExhausted),
    {
        if str_is_blank(content.as_str()) {
            return Ok(None);
        }
        if self.next_sequence_number == u64::MAX {
            return Err(MemoryError::SequenceExhausted);
        }
        let sequence_number = self.next_sequence_number;
        let record = ChatMessageRecord {
            role,
            content,
            name,
            additional_kwargs,
            timestamp,
            sequence_number,
        };
        let ghost before = self.session_history.messages@;
        self.session_history.messages.push(record);
        self.session_history.updated_at = now;
        self.next_sequence_number = sequence_number + 1;
        proof {
            assert(records_of(before.push(record)) =~= records_of(before).push(record@));
        }
        Ok(Some(sequence_number))
    }

    /// Stores what `role` said, with nothing but the role and the content.
    pub fn add_role_message(&mut self, role: Role, content: String, now: String) -> (stored:
        Result<Option<u64>, MemoryError>)
        requires
            old(self).wf(),
        ensures
            final(self).wf(),
            final(self)@ == old(self)@.append(
                plain_record(role_name(role), content@, now@),
                now@,
            ),
            is_blank(content@) ==> stored == Ok::<Option<u64>, MemoryError>(None),
            !is_blank(content@) && old(self)@.next_sequence_number < u64::MAX ==> stored == Ok::<
                Option<u64>,
                MemoryError,
            >(Some(old(self)@.next_sequence_number)),
            !is_blank(content@) && old(self)@.next_sequence_number == u64::MAX ==> stored == Err::<
                Option<u64>,
                MemoryError,
            >(MemoryError::SequenceExhausted),
    {
        self.add_message(String::from_str(role.as_str()), content, None, None, now.clone(), now)
    }

    /// Stores what the user said.
    pub fn add_user_message(&mut self, content: String, now: String) -> (stored: Result<
        Option<u64>,
        MemoryError,
    >)
        requires
            old(self).wf(),
        ensures
            final(self).wf(),
            final(self)@ == old(self)@.append(plain_record("user"@, content@, now@), now@),
            is_blank(content@) ==> stored == Ok::<Option<u64>, MemoryError>(None),
            !is_blank(content@) && old(self)@.next_sequence_number < u64::MAX ==> stored == Ok::<
                Option<u64>,
                MemoryError,
            >(Some(old(self)@.next_sequence_number)),
            !is_blank(content@) && old(self)@.next_sequence_number == u64::MAX ==> stored == Err::<
                Option<u64>,
                MemoryError,
            >(MemoryError::SequenceExhausted),
    {
        self.add_role_message(Role::User, content, now)
    }

    /// Stores what the assistant answered, unwrapped if it came as a JSON
    /// string or as a JSON object with a `content`.
    pub fn add_ai_message(&mut self, content: &str, now: String) -> (stored: Result<
        Option<u64>,
        MemoryError,
    >)
        requires
            old(self).wf(),
        ensures
            final(self).wf(),
            final(self)@ == old(self)@.append(
                plain_record("assistant"@, unwrapped_content(content@), now@),
                now@,
            ),
            is_blank(unwrapped_content(content@)) ==> stored == Ok::<Option<u64>, MemoryError>(
                None,
            ),
            !is_blank(unwrapped_content(content@)) && old(self)@.next_sequence_number < u64::MAX
                ==> stored == Ok::<Option<u64>, MemoryError>(
                Some(old(self)@.next_sequence_number),
            ),
            !is_blank(unwrapped_content(content@)) && old(self)@.next_sequence_number == u64::MAX
                ==> stored == Err::<Option<u64>, MemoryError>(MemoryError::SequenceExhausted),
    {
        let text = unwrap_content(content);
        self.add_message(String::from_str("assistant"), text, None, None, now.clone(), now)
    }

    /// The text of the session document, as it is to be written to the
    /// session's file; this always succeeds.
    pub fn save_session_history(&self) -> (text: Result<String, MemoryError>)
        ensures
            text matches Ok(t) && t@ == json_pretty_text(encode_session(self@.history)),
    {
        let doc = write_session(&self.session_history);
        Ok(to_pretty_text(&doc))
    }

    /// Takes in the contents of the session's file.
    ///
    /// A blank file changes nothing. A session document replaces the whole
    /// log. Anything else is read as a legacy file, one record per line;
    /// the records that are migrated replace those of the log, and the
    /// caller is to store the log again at once. Where no line is a
    /// record, or a line is unreadable and no record is kept, or the
    /// records may not be stored together, the file cannot be read: the
    /// call fails and the log stays as it was.
    pub fn load_session_history(&mut self, contents: &str, now: &str) -> (outcome: Result<
        LoadOutcome,
        MemoryError,
    >)
        requires
            old(self).wf(),
        ensures
            final(self).wf(),
            match outcome {
                Ok(how) => old(self)@.loaded(contents@, now@) == Some((final(self)@, how)),
                Err(e) => {
                    &&& e == MemoryError::UnreadableHistory
                    &&& old(self)@.loaded(contents@, now@) is None
                    &&& final(self)@ == old(self)@
                },
            },
    {
        if str_is_blank(contents) {
            return Ok(LoadOutcome::Empty);
        }
        let session = match parse_json(contents) {
            Ok(doc) => read_session(&doc),
            Err(_) => None,
        };
        match session {
            Some(history) => {
                proof {
                    lemma_next_after_is_wf(history@);
                }
                let n = history.messages.len();
                self.next_sequence_number = if n == 0 {
                    1
                } else {
                    assert(records_of(history.messages@).last() == history.messages@[n - 1]@);
                    history.messages[n - 1].sequence_number + 1
                };
                self.session_history = history;
                Ok(LoadOutcome::Loaded)
            },
            None => match migrate(contents, now) {
                Some(records) => {
                    let n = records.len();
                    let next = if n == 0 {
                        1
                    } else {
                        assert(records_of(records@).last() == records@[n - 1]@);
                        records[n - 1].sequence_number + 1
                    };
                    proof {
                        lemma_next_after_is_wf(
                            SessionModel {
                                updated_at: now@,
                                messages: records_of(records@),
                                ..self.session_history@
                            },
                        );
                    }
                    self.session_history.messages = records;
                    self.session_history.updated_at = String::from_str(now);
                    self.next_sequence_number = next;
                    Ok(LoadOutcome::Migrated)
                },
                None => Err(MemoryError::UnreadableHistory),
            },
        }
    }

    /// Sets the numbers up to `sequence_number` aside, so that the next
    /// record gets a number above it.
    pub fn reserve_through(&mut self, sequence_number: u64)
        requires
            old(self).wf(),
            sequence_number < u64::MAX,
        ensures
            final(self).wf(),
            final(self)@ == old(self)@.reserve_through(sequence_number),
    {
        if sequence_number >= self.next_sequence_number {
            self.next_sequence_number = sequence_number + 1;
        }
    }

    /// A copy of all records, oldest first.
    pub fn get_messages(&self) -> (records: Vec<ChatMessageRecord>)
        ensures
            records_of(records@) == self@.history.messages,
    {
        let records = duplicate_records(&self.session_history.messages, 0);
        assert(records_of(self.session_history.messages@).skip(0) =~= records_of(
            self.session_history.messages@,
        ));
        records
    }

    /// A copy of the last `count` records, or of all of them where there
    /// are no more, oldest first.
    pub fn get_recent_messages(&self, count: usize) -> (records: Vec<ChatMessageRecord>)
        ensures
            records_of(records@) == recent(self@.history.messages, count as nat),
    {
        let len = self.session_history.messages.len();
        if len > count {
            duplicate_records(&self.session_history.messages, len - count)
        } else {
            self.get_messages()
        }
    }

    /// Sheds all but the last `count` records; `true` when any were shed.
    /// The numbering goes on where it was.
    pub fn keep_recent_messages(&mut self, count: usize, now: String) -> (shed: bool)
        requires
            old(self).wf(),
        ensures
            final(self).wf(),
            final(self)@ == old(self)@.retain_recent(count as nat, now@),
            shed == (old(self)@.history.messages.len() > count),
    {
        let len = self.session_history.messages.len();
        if len <= count {
            return false;
        }
        let ghost before = self.session_history.messages@;
        let mut kept: Vec<ChatMessageRecord> = Vec::new();
        let from: usize = len - count;
        let mut i: usize = from;
        while i < len
            invariant
                from <= i <= len,
                len == self.session_history.messages.len(),
                self.session_history.messages@ == before,
                kept@.len() == i - from,
                forall|j: int| 0 <= j < kept@.len() ==> (#[trigger] kept@[j])@ == before[from + j]@,
            decreases len - i,
        {
            kept.push(self.session_history.messages[i].duplicate());
            i = i + 1;
        }
        proof {
            assert(records_of(kept@) =~= recent(records_of(before), count as nat));
        }
        self.session_history.messages = kept;
        self.session_history.updated_at = now;
        true
    }

    /// Empties the log and starts the numbering again at 1.
    pub fn clear(&mut self, now: String)
        ensures
            final(self).wf(),
            final(self)@ == old(self)@.clear(now@),
    {
        self.session_history.messages = Vec::new();
        self.session_history.updated_at = now;
        self.next_sequence_number = 1;
        assert(records_of(self.session_history.messages@) =~= Seq::<RecordModel>::empty());
    }
}

/// The log after the appends `turns`, each a record and the time of its
/// append, made one after the other.
pub open spec fn append_all(log: LogModel, turns: Seq<(RecordModel, Seq<char>)>) -> LogModel
    decreases turns.len(),
{
    if turns.len() == 0 {
        log
    } else {
        append_all(log, turns.drop_last()).append(turns.last().0, turns.last().1)
    }
}

/// The turns whose content is not blank, in order.
pub open spec fn stored_turns(turns: Seq<(RecordModel, Seq<char>)>) -> Seq<
    (RecordModel, Seq<char>),
> {
    turns.filter(|t: (RecordModel, Seq<char>)| !is_blank(t.0.content))
}

/// Whatever is appended to a newly opened session, the records it then
/// holds are the appended ones with a content, in append order, and their
/// sequence numbers are 1, 2, 3 and so on without a gap or a repetition.
pub proof fn lemma_appends_number_from_one(
    session_id: Seq<char>,
    opened: Seq<char>,
    turns: Seq<(RecordModel, Seq<char>)>,
)
    requires
        turns.len() < u64::MAX - 1,
    ensures
        ({
            let log = append_all(LogModel::fresh(session_id, opened), turns);
            let stored = stored_turns(turns);
            &&& log.wf()
            &&& log.history.messages.len() == stored.len()
            &&& log.next_sequence_number == stored.len() + 1
            &&& forall|i: int|
                0 <= i < stored.len() ==> #[trigger] log.history.messages[i] == (RecordModel {
                    sequence_number: (i + 1) as u64,
                    ..stored[i].0
                })
        }),
    decreases turns.len(),
{
    let fresh = LogModel::fresh(session_id, opened);
    let pred = |t: (RecordModel, Seq<char>)| !is_blank(t.0.content);
    if turns.len() == 0 {
        assert(stored_turns(turns).len() == 0) by {
            reveal(Seq::filter);
        }
    } else {
        let before = turns.drop_last();
        lemma_appends_number_from_one(session_id, opened, before);
        assert(before.push(turns.last()) == turns);
        assert(stored_turns(turns) == if pred(turns.last()) {
            stored_turns(before).push(turns.last())
        } else {
            stored_turns(before)
        }) by {
            reveal(Seq::filter);
        }
        assert(stored_turns(before).len() <= before.len()) by {
            before.lemma_filter_len(pred);
        }
    }
}

/// An append that is accepted puts its record behind the others under a
/// number above all of theirs, and leaves them as they were.
pub proof fn lemma_append_goes_last(log: LogModel, record: RecordModel, now: Seq<char>)
    requires
        log.wf(),
        log.accepts(record.content),
    ensures
        ({
            let after = log.append(record, now);
            let n = log.history.messages.len() as int;
            &&& after.wf()
            &&& after.history.messages.len() == n + 1
            &&& after.history.messages[n].sequence_number == log.next_sequence_number
            &&& forall|i: int|
                0 <= i < n ==> #[trigger] after.history.messages[i] == log.history.messages[i]
                    && after.history.messages[i].sequence_number
                    < after.history.messages[n].sequence_number
        }),
{
}

/// Shedding keeps exactly the last `n` records, or all of them where there
/// are no more than `n`: the same records with the same sequence numbers,
/// in the same order. The number for the next record stays as it was.
pub proof fn lemma_retain_recent_keeps_last(log: LogModel, n: nat, now: Seq<char>)
    ensures
        ({
            let all = log.history.messages;
            let after = log.retain_recent(n, now);
            let kept = after.history.messages;
            &&& kept.len() == if all.len() <= n {
                all.len()
            } else {
                n
            }
            &&& forall|i: int|
                0 <= i < kept.len() ==> #[trigger] kept[i] == all[all.len() - kept.len() + i]
            &&& after.next_sequence_number == log.next_sequence_number
            &&& log.wf() ==> after.wf()
        }),
{
}

/// The fields that a record keeps of a message's metadata: the members of
/// the object but for one named `type`; no member where the metadata is no
/// object; nothing where there is no metadata.
pub open spec fn kwargs_of(metadata: Option<JsonModel>) -> Option<Seq<(Seq<char>, JsonModel)>> {
    match metadata {
        None => None,
        Some(JsonModel::Object(members)) => Some(without_key(members, "type"@)),
        Some(_) => Some(Seq::empty()),
    }
}

/// The model of an optional tree.
pub open spec fn opt_model(o: Option<JsonValue>) -> Option<JsonModel> {
    match o {
        Some(v) => Some(v@),
        None => None,
    }
}

/// The record that stores a message.
pub open spec fn record_of_message(message: ChatMessage) -> RecordModel {
    RecordModel {
        role: message.role@,
        content: message.content@,
        name: None,
        additional_kwargs: kwargs_of(opt_model(message.metadata)),
        timestamp: message.timestamp@,
        sequence_number: 0,
    }
}

/// A record as the members of a message for a prompt: its role and its
/// content, its name if `with_name` and it has one, and then each of its
/// additional fields, which take the place of a member of the same name.
pub open spec fn message_members(r: RecordModel, with_name: bool) -> Seq<(Seq<char>, JsonModel)> {
    let base = with_member(
        with_member(Seq::empty(), "role"@, JsonModel::String(r.role)),
        "content"@,
        JsonModel::String(r.content),
    );
    let named = if with_name && r.name is Some {
        with_member(base, "name"@, JsonModel::String(r.name->0))
    } else {
        base
    };
    match r.additional_kwargs {
        Some(extra) => with_members(named, extra),
        None => named,
    }
}

/// Records as messages for a prompt.
pub open spec fn message_objects(ms: Seq<RecordModel>, with_name: bool) -> Seq<JsonModel> {
    Seq::new(ms.len(), |i: int| JsonModel::Object(message_members(ms[i], with_name)))
}

/// What a prompt takes from a log: the member `chat_history`, an array of
/// messages.
pub open spec fn history_variables(messages: Seq<JsonModel>) -> Seq<(Seq<char>, JsonModel)> {
    Seq::<(Seq<char>, JsonModel)>::empty().push(("chat_history"@, JsonModel::Array(messages)))
}

/// A message as callers get it back from a record: its identifier is the
/// sequence number of the record in decimal digits, and the additional
/// fields are its metadata.
pub open spec fn message_of_record(r: RecordModel) -> MessageModel {
    MessageModel {
        id: decimal_text(r.sequence_number as nat),
        role: r.role,
        content: r.content,
        timestamp: r.timestamp,
        metadata: match r.additional_kwargs {
            Some(extra) => Some(JsonModel::Object(with_members(Seq::empty(), extra))),
            None => None,
        },
    }
}

/// Records as messages.
pub open spec fn messages_of(ms: Seq<RecordModel>) -> Seq<MessageModel> {
    Seq::new(ms.len(), |i: int| message_of_record(ms[i]))
}

/// The model of a [`ChatMessage`].
pub struct MessageModel {
    pub id: Seq<char>,
    pub role: Seq<char>,
    pub content: Seq<char>,
    pub timestamp: Seq<char>,
    pub metadata: Option<JsonModel>,
}

impl View for ChatMessage {
    type V = MessageModel;

    open spec fn view(&self) -> MessageModel {
        MessageModel {
            id: self.id@,
            role: self.role@,
            content: self.content@,
            timestamp: self.timestamp@,
            metadata: opt_model(self.metadata),
        }
    }
}

/// The models of some messages.
pub open spec fn message_views(v: Seq<ChatMessage>) -> Seq<MessageModel> {
    Seq::new(v.len(), |i: int| v[i]@)
}

/// A record as a message for a prompt.
pub fn message_object(record: &ChatMessageRecord, with_name: bool) -> (message: JsonValue)
    ensures
        message@ == JsonModel::Object(message_members(record@, with_name)),
{
    let mut members = no_members();
    insert_member(&mut members, "role", json_string(record.role.as_str()));
    insert_member(&mut members, "content", json_string(record.content.as_str()));
    if with_name {
        match &record.name {
            Some(name) => {
                insert_member(&mut members, "name", json_string(name.as_str()));
            },
            None => {},
        }
    }
    match &record.additional_kwargs {
        Some(extra) => {
            insert_members(&mut members, extra);
        },
        None => {},
    }
    json_object(members)
}

/// Records as messages for a prompt.
pub fn message_array(records: &Vec<ChatMessageRecord>, with_name: bool) -> (messages: Vec<
    JsonValue,
>)
    ensures
        models_of(messages@) == message_objects(records_of(records@), with_name),
{
    let mut messages: Vec<JsonValue> = Vec::new();
    let mut i: usize = 0;
    while i < records.len()
        invariant
            i <= records.len(),
            messages@.len() == i,
            forall|j: int|
                0 <= j < i ==> (#[trigger] messages@[j])@ == JsonModel::Object(
                    message_members(records@[j]@, with_name),
                ),
        decreases records.len() - i,
    {
        messages.push(message_object(&records[i], with_name));
        i = i + 1;
    }
    assert(models_of(messages@) =~= message_objects(records_of(records@), with_name));
    messages
}

/// A record as a message.
pub fn chat_message_of(record: &ChatMessageRecord) -> (message: ChatMessage)
    ensures
        message@ == message_of_record(record@),
{
    let metadata = match &record.additional_kwargs {
        Some(extra) => {
            let mut members = no_members();
            insert_members(&mut members, extra);
            Some(json_object(members))
        },
        None => None,
    };
    ChatMessage {
        id: decimal_string(record.sequence_number),
        role: record.role.clone(),
        content: record.content.clone(),
        timestamp: record.timestamp.clone(),
        metadata,
    }
}

/// The record log of a session together with the number of records that
/// count as recent.
#[derive(Debug)]
pub struct MessageHistoryMemory {
    session_id: String,
    chat_history: FileChatMessageHistory,
    default_recent_count: usize,
}

impl MessageHistoryMemory {
    /// The record log.
    pub closed spec fn log(&self) -> LogModel {
        self.chat_history@
    }

    /// The session's identifier.
    pub closed spec fn spec_session_id(&self) -> Seq<char> {
        self.session_id@
    }

    /// How many records count as recent.
    pub closed spec fn recent_count(&self) -> usize {
        self.default_recent_count
    }

    /// The invariant of the record log.
    pub open spec fn wf(&self) -> bool {
        self.log().wf()
    }

    /// A memory over a log, with as many recent records as the
    /// environment asks for: the number that `configured` spells, or 10
    /// where it holds nothing or no number.
    pub fn new(session_id: String, chat_history: FileChatMessageHistory, configured: Option<&str>)
        -> (memory: Self)
        requires
            chat_history.wf(),
        ensures
            memory.wf(),
            memory.log() == chat_history@,
            memory.spec_session_id() == session_id@,
            memory.recent_count() == match configured {
                Some(text) => match parse_decimal(text@) {
                    Some(n) => if n <= usize::MAX {
                        n as usize
                    } else {
                        10
                    },
                    None => 10,
                },
                None => 10,
            },
    {
        MessageHistoryMemory::new_with_recent_count(
            session_id,
            chat_history,
            get_recent_messages_count_from_env(configured),
        )
    }

    /// A memory over a log.
    pub fn new_with_recent_count(
        session_id: String,
        chat_history: FileChatMessageHistory,
        recent_count: usize,
    ) -> (memory: Self)
        requires
            chat_history.wf(),
        ensures
            memory.wf(),
            memory.log() == chat_history@,
            memory.spec_session_id() == session_id@,
            memory.recent_count() == recent_count,
    {
        MessageHistoryMemory { session_id, chat_history, default_recent_count: recent_count }
    }

    /// The session's identifier.
    pub fn get_session_id(&self) -> (id: &str)
        ensures
            id@ == self.spec_session_id(),
    {
        self.session_id.as_str()
    }

    /// Gives the memory another session identifier; the log stays.
    pub fn set_session_id(&mut self, session_id: String)
        ensures
            final(self).spec_session_id() == session_id@,
            final(self).log() == old(self).log(),
            final(self).recent_count() == old(self).recent_count(),
    {
        self.session_id = session_id;
    }

    /// The record log itself.
    pub fn chat_history(&self) -> (log: &FileChatMessageHistory)
        ensures
            log@ == self.log(),
    {
        &self.chat_history
    }

    /// How many records count as recent.
    pub fn default_recent_count(&self) -> (n: usize)
        ensures
            n == self.recent_count(),
    {
        self.default_recent_count
    }

    /// A copy of the last `count` records, or of all of them where there
    /// are no more, oldest first.
    pub fn get_recent_messages(&self, count: usize) -> (records: Vec<ChatMessageRecord>)
        ensures
            records_of(records@) == recent(self.log().history.messages, count as nat),
    {
        self.chat_history.get_recent_messages(count)
    }

    /// A copy of the records that count as recent.
    pub fn get_default_recent_messages(&self) -> (records: Vec<ChatMessageRecord>)
        ensures
            records_of(records@) == recent(
                self.log().history.messages,
                self.recent_count() as nat,
            ),
    {
        self.chat_history.get_recent_messages(self.default_recent_count)
    }

    /// How many records the log holds.
    pub fn get_message_count(&self) -> (n: usize)
        ensures
            n == self.log().history.messages.len(),
    {
        self.chat_history.len()
    }

    /// Stores a message as a record under the next sequence number:
    /// `Ok(Some(n))` with the number given. A message with a blank content
    /// is dropped: `Ok(None)`, and nothing changes.
    pub fn add_message(&mut self, message: &ChatMessage, now: String) -> (stored: Result<
        Option<u64>,
        MemoryError,
    >)
        requires
            old(self).wf(),
        ensures
            final(self).wf(),
            final(self).log() == old(self).log().append(record_of_message(*message), now@),
            final(self).spec_session_id() == old(self).spec_session_id(),
            final(self).recent_count() == old(self).recent_count(),
            is_blank(message.content@) ==> stored == Ok::<Option<u64>, MemoryError>(None),
            !is_blank(message.content@) && old(self).log().next_sequence_number < u64::MAX
                ==> stored == Ok::<Option<u64>, MemoryError>(
                Some(old(self).log().next_sequence_number),
            ),
            !is_blank(message.content@) && old(self).log().next_sequence_number == u64::MAX
                ==> stored == Err::<Option<u64>, MemoryError>(MemoryError::SequenceExhausted),
    {
        let additional_kwargs = match &message.metadata {
            None => None,
            Some(JsonValue::Object(members)) => {
                proof {
                    lemma_object_view(*members);
                }
                Some(members_without(members, "type"))
            },
            Some(_) => {
                let none: Vec<(String, JsonValue)> = Vec::new();
                assert(members_of(none@) =~= Seq::<(Seq<char>, JsonModel)>::empty());
                Some(none)
            },
        };
        self.chat_history.add_message(
            message.role.clone(),
            message.content.clone(),
            None,
            additional_kwargs,
            message.timestamp.clone(),
            now,
        )
    }

    /// The names of the members that `load_memory_variables` hands out.
    pub fn memory_variables(&self) -> (names: Vec<String>)
        ensures
            names@.len() == 1,
            names@[0]@ == "chat_history"@,
    {
        let mut names: Vec<String> = Vec::new();
        names.push(String::from_str("chat_history"));
        names
    }

    /// What a prompt takes from this memory: the recent records as
    /// messages, under the name `chat_history`.
    pub fn load_memory_variables(&self) -> (variables: Vec<(String, JsonValue)>)
        ensures
            members_of(variables@) == history_variables(
                message_objects(
                    recent(self.log().history.messages, self.recent_count() as nat),
                    false,
                ),
            ),
    {
        let records = self.get_default_recent_messages();
        let messages = message_array(&records, false);
        let mut variables = no_members();
        push_member(&mut variables, "chat_history", json_array(messages));
        variables
    }

    /// The last `count` records as messages, oldest first.
    pub fn get_recent_chat_messages(&self, count: usize) -> (messages: Vec<ChatMessage>)
        ensures
            message_views(messages@) == messages_of(
                recent(self.log().history.messages, count as nat),
            ),
    {
        let records = self.get_recent_messages(count);
        let mut messages: Vec<ChatMessage> = Vec::new();
        let mut i: usize = 0;
        while i < records.len()
            invariant
                i <= records.len(),
                messages@.len() == i,
                forall|j: int|
                    0 <= j < i ==> (#[trigger] messages@[j])@ == message_of_record(records@[j]@),
            decreases records.len() - i,
        {
            messages.push(chat_message_of(&records[i]));
            i = i + 1;
        }
        assert(message_views(messages@) =~= messages_of(records_of(records@)));
        messages
    }

    /// Takes in the contents of the session's file, as the log does.
    pub fn load_session_history(&mut self, contents: &str, now: &str) -> (outcome: Result<
        LoadOutcome,
        MemoryError,
    >)
        requires
            old(self).wf(),
        ensures
            final(self).wf(),
            final(self).spec_session_id() == old(self).spec_session_id(),
            final(self).recent_count() == old(self).recent_count(),
            match outcome {
                Ok(how) => old(self).log().loaded(contents@, now@) == Some(
                    (final(self).log(), how),
                ),
                Err(e) => {
                    &&& e == MemoryError::UnreadableHistory
                    &&& old(self).log().loaded(contents@, now@) is None
                    &&& final(self).log() == old(self).log()
                },
            },
    {
        self.chat_history.load_session_history(contents, now)
    }

    /// Sets the numbers up to `sequence_number` aside, so that the next
    /// record gets a number above it.
    pub fn reserve_through(&mut self, sequence_number: u64)
        requires
            old(self).wf(),
            sequence_number < u64::MAX,
        ensures
            final(self).wf(),
            final(self).log() == old(self).log().reserve_through(sequence_number),
            final(self).spec_session_id() == old(self).spec_session_id(),
            final(self).recent_count() == old(self).recent_count(),
    {
        self.chat_history.reserve_through(sequence_number)
    }

    /// Stores the records of a turn: what the user said and then what the
    /// assistant said, each unless it is blank. Where the log has no
    /// sequence numbers left for them, nothing is stored and the call
    /// fails.
    pub fn add_turn(&mut self, input: &str, output: &str, user_time: String, assistant_time: String)
        -> (stored: Result<(), MemoryError>)
        requires
            old(self).wf(),
        ensures
            final(self).wf(),
            final(self).spec_session_id() == old(self).spec_session_id(),
            final(self).recent_count() == old(self).recent_count(),
            old(self).log().turn_fits(input@, output@) ==> {
                &&& stored is Ok
                &&& final(self).log() == old(self).log().with_turn(
                    input@,
                    output@,
                    user_time@,
                    assistant_time@,
                )
            },
            !old(self).log().turn_fits(input@, output@) ==> {
                &&& stored == Err::<(), MemoryError>(MemoryError::SequenceExhausted)
                &&& final(self).log() == old(self).log()
            },
    {
        let user: u64 = if str_is_blank(input) {
            0
        } else {
            1
        };
        let assistant: u64 = if str_is_blank(output) {
            0
        } else {
            1
        };
        if user + assistant > u64::MAX - self.chat_history.next_sequence_number() {
            return Err(MemoryError::SequenceExhausted);
        }
        let _ = self.chat_history.add_role_message(Role::User, String::from_str(input), user_time);
        let _ = self.chat_history.add_role_message(
            Role::Assistant,
            String::from_str(output),
            assistant_time,
        );
        Ok(())
    }

    /// Saves a turn that comes as members: the string `input` of `inputs`
    /// is what the user said, the string `output` of `outputs` what the
    /// assistant answered. The answer is unwrapped twice over, as the log
    /// itself unwraps what it is handed. A text that is missing or blank
    /// gives no record. Where the log has no sequence numbers left for the
    /// turn, nothing is stored and the call fails.
    pub fn save_context(
        &mut self,
        inputs: &Vec<(String, JsonValue)>,
        outputs: &Vec<(String, JsonValue)>,
        user_time: String,
        assistant_time: String,
    ) -> (stored: Result<(), MemoryError>)
        requires
            old(self).wf(),
        ensures
            final(self).wf(),
            final(self).spec_session_id() == old(self).spec_session_id(),
            final(self).recent_count() == old(self).recent_count(),
            ({
                let input = text_or_empty(members_of(inputs@), "input"@);
                let output = unwrapped_content(
                    unwrapped_content(text_or_empty(members_of(outputs@), "output"@)),
                );
                &&& old(self).log().turn_fits(input, output) ==> {
                    &&& stored is Ok
                    &&& final(self).log() == old(self).log().with_turn(
                        input,
                        output,
                        user_time@,
                        assistant_time@,
                    )
                }
                &&& !old(self).log().turn_fits(input, output) ==> {
                    &&& stored == Err::<(), MemoryError>(MemoryError::SequenceExhausted)
                    &&& final(self).log() == old(self).log()
                }
            }),
    {
        let input = member_text(inputs, "input");
        let processed = unwrap_content(member_text(outputs, "output"));
        let output = unwrap_content(processed.as_str());
        let user: u64 = if str_is_blank(input) {
            0
        } else {
            1
        };
        let assistant: u64 = if str_is_blank(output.as_str()) {
            0
        } else {
            1
        };
        if user + assistant > u64::MAX - self.chat_history.next_sequence_number() {
            return Err(MemoryError::SequenceExhausted);
        }
        let _ = self.chat_history.add_user_message(String::from_str(input), user_time);
        let _ = self.chat_history.add_ai_message(processed.as_str(), assistant_time);
        Ok(())
    }

    /// Sheds all but the last `count` records; `true` when any were shed.
    pub fn keep_recent_messages(&mut self, count: usize, now: String) -> (shed: bool)
        requires
            old(self).wf(),
        ensures
            final(self).wf(),
            final(self).log() == old(self).log().retain_recent(count as nat, now@),
            final(self).spec_session_id() == old(self).spec_session_id(),
            final(self).recent_count() == old(self).recent_count(),
            shed == (old(self).log().history.messages.len() > count),
    {
        self.chat_history.keep_recent_messages(count, now)
    }

    /// Empties the log and starts the numbering again at 1.
    pub fn clear(&mut self, now: String)
        ensures
            final(self).wf(),
            final(self).log() == old(self).log().clear(now@),
            final(self).spec_session_id() == old(self).spec_session_id(),
            final(self).recent_count() == old(self).recent_count(),
    {
        self.chat_history.clear(now)
    }
}

} // verus!
