//! The rolling summary of a session and the rule that decides when old
//! records are folded into it.

use vstd::prelude::*;
use vstd::string::*;
use crate::error::MemoryError;
use crate::json::{
    JsonModel,
    JsonValue,
    NumberModel,
    insert_member,
    json_array,
    json_count,
    json_object,
    json_parse,
    json_string,
    json_text,
    members_of,
    models_of,
    no_members,
    parse_json,
    push_member,
    to_text,
    with_member,
};
use crate::memory::document::{decode_summary, encode_summary, read_summary, write_summary};
use crate::memory::message_history::{
    ChatMessageRecord,
    MessageHistoryMemory,
    RecordModel,
    history_variables,
    member_text,
    message_array,
    message_objects,
    opt_text,
    recent,
    records_of,
    text_or_empty,
    valid_record,
    valid_records,
};
use crate::memory::utils::{estimate_text_tokens, text_token_estimate};
use crate::text::{replace_text, replaced, str_eq, texts_of};

verus! {

/// The summary of a session and the checkpoint up to which it speaks.
#[derive(Debug, Clone, PartialEq, Eq)]
pub struct SummaryData {
    pub session_id: String,
    /// The checkpoint: the highest sequence number that the summary
    /// covers, 0 while there is no summary.
    pub sequence_number: u64,
    /// The summary; absent until the first compaction.
    pub summary: Option<String>,
    /// The token estimate of the summary.
    pub token_count: usize,
    pub last_updated: String,
}

/// The model of a [`SummaryData`].
pub struct SummaryDataModel {
    pub session_id: Seq<char>,
    pub sequence_number: u64,
    pub summary: Option<Seq<char>>,
    pub token_count: usize,
    pub last_updated: Seq<char>,
}

impl View for SummaryData {
    type V = SummaryDataModel;

    open spec fn view(&self) -> SummaryDataModel {
        SummaryDataModel {
            session_id: self.session_id@,
            sequence_number: self.sequence_number,
            summary: opt_text(self.summary),
            token_count: self.token_count,
            last_updated: self.last_updated@,
        }
    }
}

impl SummaryDataModel {
    /// The value of a session that has never been summarized.
    pub open spec fn zero(session_id: Seq<char>, now: Seq<char>) -> SummaryDataModel {
        SummaryDataModel {
            session_id,
            sequence_number: 0,
            summary: None,
            token_count: 0,
            last_updated: now,
        }
    }

    /// The value after `summary`, which covers the records up to
    /// `checkpoint`, was stored at time `now`.
    pub open spec fn updated(self, summary: Seq<char>, checkpoint: u64, now: Seq<char>)
        -> SummaryDataModel {
        SummaryDataModel {
            session_id: self.session_id,
            sequence_number: checkpoint,
            summary: Some(summary),
            token_count: text_token_estimate(summary) as usize,
            last_updated: now,
        }
    }
}

impl SummaryData {
    /// The value of a session that has never been summarized.
    pub fn zero(session_id: String, now: String) -> (data: SummaryData)
        ensures
            data@ == SummaryDataModel::zero(session_id@, now@),
    {
        SummaryData {
            session_id,
            sequence_number: 0,
            summary: None,
            token_count: 0,
            last_updated: now,
        }
    }

    /// A copy of this value.
    pub fn duplicate(&self) -> (copy: SummaryData)
        ensures
            copy@ == self@,
    {
        let summary = match &self.summary {
            Some(s) => Some(s.clone()),
            None => None,
        };
        SummaryData {
            session_id: self.session_id.clone(),
            sequence_number: self.sequence_number,
            summary,
            token_count: self.token_count,
            last_updated: self.last_updated.clone(),
        }
    }
}

/// What is handed to the summarizer: the summary so far, if any, and the
/// lines to fold into it, oldest first.
#[derive(Debug, Clone, PartialEq, Eq)]
pub struct SummaryRequest {
    pub existing_summary: Option<String>,
    pub lines: Vec<String>,
}

/// The model of a [`SummaryRequest`].
pub struct RequestModel {
    pub existing_summary: Option<Seq<char>>,
    pub lines: Seq<Seq<char>>,
}

impl View for SummaryRequest {
    type V = RequestModel;

    open spec fn view(&self) -> RequestModel {
        RequestModel {
            existing_summary: opt_text(self.existing_summary),
            lines: texts_of(self.lines@),
        }
    }
}

/// The summarizer: it is handed a request and gives the new summary, or
/// the reason why it has none. Nothing is assumed of what it answers.
pub trait Summarizer {
    /// The new summary for `request`.
    fn summarize(&self, request: &SummaryRequest) -> Result<String, String>;
}

/// The pending tail: the records that no summary covers yet.
pub open spec fn pending(ms: Seq<RecordModel>, checkpoint: u64) -> Seq<RecordModel> {
    ms.filter(|r: RecordModel| r.sequence_number > checkpoint)
}

/// A record as one line: the role, a colon and a blank, the content.
pub open spec fn render_line(r: RecordModel) -> Seq<char> {
    r.role + ": "@ + r.content
}

/// The lines of some records.
pub open spec fn render_lines(ms: Seq<RecordModel>) -> Seq<Seq<char>> {
    Seq::new(ms.len(), |i: int| render_line(ms[i]))
}

/// The lines as one text, each followed by a line feed.
pub open spec fn joined(lines: Seq<Seq<char>>) -> Seq<char>
    decreases lines.len(),
{
    if lines.len() == 0 {
        Seq::empty()
    } else {
        joined(lines.drop_last()) + lines.last() + "\n"@
    }
}

/// The estimated cost of the pending tail.
pub open spec fn pending_cost(ms: Seq<RecordModel>, checkpoint: u64) -> nat {
    text_token_estimate(joined(render_lines(pending(ms, checkpoint))))
}

/// Whether a compaction is due: there are pending records and their
/// estimated cost has reached the threshold.
pub open spec fn compaction_due(ms: Seq<RecordModel>, checkpoint: u64, threshold: usize) -> bool {
    pending(ms, checkpoint).len() > 0 && pending_cost(ms, checkpoint) >= threshold
}

/// Where records are pending, the last of them is the last record of the
/// log: a compaction moves the checkpoint to the newest record.
pub proof fn lemma_pending_ends_with_last(ms: Seq<RecordModel>, checkpoint: u64)
    requires
        valid_records(ms),
        pending(ms, checkpoint).len() > 0,
    ensures
        ms.len() > 0,
        pending(ms, checkpoint).last() == ms.last(),
        ms.last().sequence_number > checkpoint,
{
    let above = |r: RecordModel| r.sequence_number > checkpoint;
    let p = pending(ms, checkpoint);
    ms.lemma_filter_pred(above, 0);
    assert(p.contains(p[0]));
    ms.lemma_filter_contains_rev(above, p[0]);
    let j = choose|j: int| 0 <= j < ms.len() && ms[j] == p[0];
    assert(ms[j].sequence_number <= ms.last().sequence_number);
    reveal(Seq::filter);
}

/// Compaction is not due while the estimated cost of the pending records
/// is below the threshold.
pub proof fn lemma_not_due_below_threshold(ms: Seq<RecordModel>, checkpoint: u64, threshold: usize)
    requires
        pending_cost(ms, checkpoint) < threshold,
    ensures
        !compaction_due(ms, checkpoint, threshold),
{
}

/// Once the checkpoint stands at the newest record, nothing is pending.
pub proof fn lemma_nothing_pending_at_newest(ms: Seq<RecordModel>, checkpoint: u64)
    requires
        valid_records(ms),
        ms.len() > 0 ==> ms.last().sequence_number <= checkpoint,
    ensures
        pending(ms, checkpoint).len() == 0,
{
    let above = |r: RecordModel| r.sequence_number > checkpoint;
    let p = pending(ms, checkpoint);
    if p.len() > 0 {
        ms.lemma_filter_pred(above, 0);
        assert(p.contains(p[0]));
        ms.lemma_filter_contains_rev(above, p[0]);
        let j = choose|j: int| 0 <= j < ms.len() && ms[j] == p[0];
        assert(ms[j].sequence_number <= ms.last().sequence_number);
    }
}

/// How many records stay in the log when a summary that covers the
/// records up to `checkpoint` is stored: the number that counts as recent,
/// or the number of records that the summary does not cover where that is
/// larger, so that no record is shed before a summary covers it.
pub open spec fn kept_after(ms: Seq<RecordModel>, checkpoint: u64, window: usize) -> nat {
    let uncovered = pending(ms, checkpoint).len();
    if uncovered > window {
        uncovered
    } else {
        window as nat
    }
}

/// The pending records are the end of the log: the records behind the
/// last one that the checkpoint covers.
pub proof fn lemma_pending_is_suffix(ms: Seq<RecordModel>, checkpoint: u64)
    requires
        valid_records(ms),
    ensures
        pending(ms, checkpoint).len() <= ms.len(),
        pending(ms, checkpoint) == ms.skip(ms.len() - pending(ms, checkpoint).len()),
    decreases ms.len(),
{
    let above = |r: RecordModel| r.sequence_number > checkpoint;
    ms.lemma_filter_len(above);
    if ms.len() == 0 {
        assert(pending(ms, checkpoint) =~= ms.skip(0));
    } else {
        let before = ms.drop_last();
        assert(valid_records(before)) by {
            assert forall|i: int, j: int| 0 <= i < j < before.len() implies (
            #[trigger] before[i]).sequence_number < (#[trigger] before[j]).sequence_number by {
                assert(before[i] == ms[i]);
                assert(before[j] == ms[j]);
            }
            assert forall|i: int| 0 <= i < before.len() implies valid_record(
                #[trigger] before[i],
            ) by {
                assert(before[i] == ms[i]);
            }
        }
        assert(pending(ms, checkpoint) == if above(ms.last()) {
            pending(before, checkpoint).push(ms.last())
        } else {
            pending(before, checkpoint)
        }) by {
            reveal(Seq::filter);
        }
        if above(ms.last()) {
            lemma_pending_is_suffix(before, checkpoint);
            let p = pending(before, checkpoint).len();
            assert(before.skip(before.len() - p).push(ms.last()) =~= ms.skip(ms.len() - (p + 1)));
        } else {
            if before.len() > 0 {
                assert(before.last() == ms[ms.len() - 2]);
                assert(ms[ms.len() - 2].sequence_number < ms.last().sequence_number);
            }
            lemma_nothing_pending_at_newest(before, checkpoint);
            assert(pending(ms, checkpoint) =~= ms.skip(ms.len() as int));
        }
    }
}

/// Storing a summary sheds no record that the summary does not cover:
/// every record with a number above the checkpoint is among those that
/// stay.
pub proof fn lemma_uncovered_records_stay(ms: Seq<RecordModel>, checkpoint: u64, window: usize)
    requires
        valid_records(ms),
    ensures
        forall|i: int|
            0 <= i < ms.len() && (#[trigger] ms[i]).sequence_number > checkpoint ==> recent(
                ms,
                kept_after(ms, checkpoint, window),
            ).contains(ms[i]),
{
    lemma_pending_is_suffix(ms, checkpoint);
    let above = |r: RecordModel| r.sequence_number > checkpoint;
    let p = pending(ms, checkpoint).len();
    let kept = recent(ms, kept_after(ms, checkpoint, window));
    assert forall|i: int| 0 <= i < ms.len() && (#[trigger] ms[i]).sequence_number
        > checkpoint implies kept.contains(ms[i]) by {
        ms.lemma_filter_contains(above, i);
        let tail = ms.skip(ms.len() - p);
        let j = choose|j: int| 0 <= j < tail.len() && tail[j] == ms[i];
        let at = ms.len() - p + j;
        assert(ms[at] == ms[i]);
        if ms.len() > kept_after(ms, checkpoint, window) {
            let from = ms.len() - kept_after(ms, checkpoint, window);
            assert(kept[at - from] == ms[at]);
        } else {
            assert(kept[at] == ms[at]);
        }
    }
}

/// Where the summary covers the whole log, as it does when nothing was
/// appended since the compaction began, just the recent records stay.
pub proof fn lemma_kept_is_window_at_newest(ms: Seq<RecordModel>, checkpoint: u64, window: usize)
    requires
        valid_records(ms),
        ms.len() > 0 ==> ms.last().sequence_number <= checkpoint,
    ensures
        kept_after(ms, checkpoint, window) == window,
{
    lemma_nothing_pending_at_newest(ms, checkpoint);
}

/// Copies of the records with a sequence number above `checkpoint`.
pub fn pending_messages(records: &Vec<ChatMessageRecord>, checkpoint: u64) -> (tail: Vec<
    ChatMessageRecord,
>)
    ensures
        records_of(tail@) == pending(records_of(records@), checkpoint),
{
    let ghost above = |r: RecordModel| r.sequence_number > checkpoint;
    let mut tail: Vec<ChatMessageRecord> = Vec::new();
    let mut i: usize = 0;
    assert(records_of(records@).take(0).filter(above) =~= Seq::<RecordModel>::empty()) by {
        reveal(Seq::filter);
    }
    assert(records_of(tail@) =~= Seq::<RecordModel>::empty());
    while i < records.len()
        invariant
            i <= records.len(),
            above == |r: RecordModel| r.sequence_number > checkpoint,
            records_of(tail@) == records_of(records@).take(i as int).filter(above),
        decreases records.len() - i,
    {
        let ghost all = records_of(records@);
        proof {
            assert(all.take(i + 1).drop_last() == all.take(i as int));
            assert(all.take(i + 1).last() == records@[i as int]@);
            reveal(Seq::filter);
        }
        if records[i].sequence_number > checkpoint {
            let ghost before = tail@;
            let copy = records[i].duplicate();
            tail.push(copy);
            assert(records_of(before.push(copy)) =~= records_of(before).push(copy@));
        }
        i = i + 1;
    }
    assert(records_of(records@).take(records@.len() as int) == records_of(records@));
    tail
}

/// The line of a record.
pub fn render_record(record: &ChatMessageRecord) -> (line: String)
    ensures
        line@ == render_line(record@),
{
    let mut line = record.role.clone();
    line.append(": ");
    line.append(record.content.as_str());
    line
}

/// The lines of some records.
pub fn render_records(records: &Vec<ChatMessageRecord>) -> (lines: Vec<String>)
    ensures
        texts_of(lines@) == render_lines(records_of(records@)),
{
    let mut lines: Vec<String> = Vec::new();
    let mut i: usize = 0;
    while i < records.len()
        invariant
            i <= records.len(),
            lines@.len() == i,
            forall|j: int| 0 <= j < i ==> (#[trigger] lines@[j])@ == render_line(records@[j]@),
        decreases records.len() - i,
    {
        lines.push(render_record(&records[i]));
        i = i + 1;
    }
    assert(texts_of(lines@) =~= render_lines(records_of(records@)));
    lines
}

/// The lines as one text, each followed by a line feed.
pub fn join_lines(lines: &Vec<String>) -> (text: String)
    ensures
        text@ == joined(texts_of(lines@)),
{
    let mut text = String::new();
    let mut i: usize = 0;
    assert(texts_of(lines@).take(0) =~= Seq::<Seq<char>>::empty());
    while i < lines.len()
        invariant
            i <= lines.len(),
            text@ == joined(texts_of(lines@).take(i as int)),
        decreases lines.len() - i,
    {
        proof {
            let all = texts_of(lines@);
            assert(all.take(i + 1).drop_last() == all.take(i as int));
            assert(all.take(i + 1).last() == lines@[i as int]@);
        }
        text.append(lines[i].as_str());
        text.append("\n");
        i = i + 1;
    }
    assert(texts_of(lines@).take(lines@.len() as int) == texts_of(lines@));
    text
}

/// The sentence that hands a summary on.
pub open spec fn summary_sentence(summary: Seq<char>) -> Seq<char> {
    "Previous conversation summary: "@ + summary
}

/// The system prompt: the basic instruction, then the user's own prompt
/// if there is one, then the summary if there is one, with an empty line
/// between them.
pub open spec fn system_prompt(user_prompt: Option<Seq<char>>, summary: Option<Seq<char>>) -> Seq<
    char,
> {
    let base = "You are a helpful assistant that provides accurate and concise answers."@;
    let with_user = match user_prompt {
        Some(u) => base + "\n\n"@ + u,
        None => base,
    };
    match summary {
        Some(s) => with_user + "\n\n"@ + summary_sentence(s),
        None => with_user,
    }
}

/// The system message of a prompt.
pub open spec fn system_message(prompt: Seq<char>) -> JsonModel {
    JsonModel::Object(
        with_member(
            with_member(Seq::empty(), "role"@, JsonModel::String("system"@)),
            "content"@,
            JsonModel::String(prompt),
        ),
    )
}

/// The context of a conversation as lines: the summary if there is one,
/// then the records.
pub open spec fn context_lines(summary: Option<Seq<char>>, ms: Seq<RecordModel>) -> Seq<
    Seq<char>,
> {
    match summary {
        Some(s) => seq![summary_sentence(s)] + render_lines(ms),
        None => render_lines(ms),
    }
}

/// The statistics of a summary store over the records `ms`.
pub open spec fn summary_stats(store: StoreModel, ms: Seq<RecordModel>) -> JsonModel {
    JsonModel::Object(
        Seq::<(Seq<char>, JsonModel)>::empty().push(
            ("session_id"@, JsonModel::String(store.session_id)),
        ).push(
            (
                "summary_threshold"@,
                JsonModel::Number(NumberModel::PosInt(store.summary_threshold as u64)),
            ),
        ).push(
            (
                "recent_messages_count"@,
                JsonModel::Number(NumberModel::PosInt(store.recent_messages_count as u64)),
            ),
        ).push(("message_count"@, JsonModel::Number(NumberModel::PosInt(ms.len() as u64)))).push(
            (
                "token_count"@,
                JsonModel::Number(
                    NumberModel::PosInt(text_token_estimate(joined(render_lines(ms))) as u64),
                ),
            ),
        ).push(("has_summary"@, JsonModel::Bool(store.data.summary is Some))).push(
            (
                "summary_token_count"@,
                JsonModel::Number(NumberModel::PosInt(store.data.token_count as u64)),
            ),
        ).push(("last_updated"@, JsonModel::String(store.data.last_updated))),
    )
}

/// The stored summary that a file holds.
pub open spec fn stored_summary(contents: Seq<char>) -> Option<SummaryDataModel> {
    match json_parse(contents) {
        Some(doc) => decode_summary(doc),
        None => None,
    }
}

/// Reads the stored summary that a file holds.
pub fn read_stored_summary(contents: &str) -> (data: Option<SummaryData>)
    ensures
        match data {
            Some(d) => stored_summary(contents@) == Some(d@),
            None => stored_summary(contents@) is None,
        },
{
    match parse_json(contents) {
        Ok(doc) => read_summary(&doc),
        Err(_) => None,
    }
}

/// The sentence that hands a summary on.
pub fn summary_sentence_text(summary: &str) -> (text: String)
    ensures
        text@ == summary_sentence(summary@),
{
    let mut text = String::from_str("Previous conversation summary: ");
    text.append(summary);
    text
}

/// The system prompt.
pub fn system_prompt_text(user_prompt: Option<&str>, summary: &Option<String>) -> (text: String)
    ensures
        text@ == system_prompt(
            match user_prompt {
                Some(u) => Some(u@),
                None => None,
            },
            opt_text(*summary),
        ),
{
    let mut text = String::from_str(
        "You are a helpful assistant that provides accurate and concise answers.",
    );
    match user_prompt {
        Some(u) => {
            text.append("\n\n");
            text.append(u);
        },
        None => {},
    }
    match summary {
        Some(s) => {
            let sentence = summary_sentence_text(s.as_str());
            text.append("\n\n");
            text.append(sentence.as_str());
        },
        None => {},
    }
    text
}

/// How a prompt names the speaker of a record: `User` for the role
/// `user`, `Assistant` for any other.
pub open spec fn speaker(role: Seq<char>) -> Seq<char> {
    if role == "user"@ {
        "User"@
    } else {
        "Assistant"@
    }
}

/// A record as a line of a transcript: the speaker, a colon and a blank,
/// the content.
pub open spec fn transcript_line(r: RecordModel) -> Seq<char> {
    speaker(r.role) + ": "@ + r.content
}

/// Records as a transcript, each line followed by a line feed.
pub open spec fn transcript(ms: Seq<RecordModel>) -> Seq<char> {
    joined(Seq::new(ms.len(), |i: int| transcript_line(ms[i])))
}

/// The prompt that asks for a summary of `ms`: the template with the
/// transcript in the place of each `{chat_history}`.
pub open spec fn prompt_for(template: Seq<char>, ms: Seq<RecordModel>) -> Seq<char> {
    replaced(template, "{chat_history}"@, transcript(ms))
}

/// The sequence number of the last of `ms`, or 0 where there is none.
pub open spec fn last_sequence_number(ms: Seq<RecordModel>) -> u64 {
    if ms.len() == 0 {
        0
    } else {
        ms.last().sequence_number
    }
}

/// Records as a transcript.
pub fn transcript_text(records: &Vec<ChatMessageRecord>) -> (text: String)
    ensures
        text@ == transcript(records_of(records@)),
{
    let mut lines: Vec<String> = Vec::new();
    let mut i: usize = 0;
    while i < records.len()
        invariant
            i <= records.len(),
            lines@.len() == i,
            forall|j: int| 0 <= j < i ==> (#[trigger] lines@[j])@ == transcript_line(records@[j]@),
        decreases records.len() - i,
    {
        let mut line = if str_eq(records[i].role.as_str(), "user") {
            String::from_str("User")
        } else {
            String::from_str("Assistant")
        };
        line.append(": ");
        line.append(records[i].content.as_str());
        lines.push(line);
        i = i + 1;
    }
    assert(texts_of(lines@) =~= Seq::new(
        records@.len(),
        |i: int| transcript_line(records_of(records@)[i]),
    ));
    join_lines(&lines)
}

/// The summary store of a session and the state of its compaction.
#[derive(Debug)]
pub struct SummaryMemory {
    session_id: String,
    summary_threshold: usize,
    summary_prompt_template: String,
    recent_messages_count: usize,
    data: SummaryData,
    in_flight: Option<u64>,
}

/// The model of a [`SummaryMemory`].
pub struct StoreModel {
    pub session_id: Seq<char>,
    /// The estimated cost at which the pending tail is compacted.
    pub summary_threshold: usize,
    pub summary_prompt_template: Seq<char>,
    /// How many records stay in the log after a compaction.
    pub recent_messages_count: usize,
    /// The stored summary.
    pub data: SummaryDataModel,
    /// The checkpoint that the compaction under way will set, if one is
    /// under way.
    pub in_flight: Option<u64>,
}

impl View for SummaryMemory {
    type V = StoreModel;

    closed spec fn view(&self) -> StoreModel {
        StoreModel {
            session_id: self.session_id@,
            summary_threshold: self.summary_threshold,
            summary_prompt_template: self.summary_prompt_template@,
            recent_messages_count: self.recent_messages_count,
            data: self.data@,
            in_flight: self.in_flight,
        }
    }
}

impl StoreModel {
    /// Whether a compaction may start now: none is under way and one is
    /// due for the records `ms`.
    pub open spec fn may_start(self, ms: Seq<RecordModel>) -> bool {
        self.in_flight is None && compaction_due(
            ms,
            self.data.sequence_number,
            self.summary_threshold,
        )
    }

    /// The request of a compaction of the records `ms`.
    pub open spec fn request(self, ms: Seq<RecordModel>) -> RequestModel {
        RequestModel {
            existing_summary: self.data.summary,
            lines: render_lines(pending(ms, self.data.sequence_number)),
        }
    }

    /// The store after `summary`, which covers the records up to
    /// `checkpoint`, was stored at time `now`.
    pub open spec fn updated(self, summary: Seq<char>, checkpoint: u64, now: Seq<char>)
        -> StoreModel {
        StoreModel { data: self.data.updated(summary, checkpoint, now), ..self }
    }
}

/// The text that prompts for a summary unless another is set; the place
/// of the conversation in it is marked `{chat_history}`.
pub fn default_summary_prompt_template() -> (template: String)
    ensures
        template@
            == "Please provide a concise summary of the following conversation. Focus on the main topics discussed, key decisions made, and any important outcomes.\n\nConversation:\n{chat_history}\n\nSummary:"@,
{
    String::from_str(
        "Please provide a concise summary of the following conversation. Focus on the main topics discussed, key decisions made, and any important outcomes.\n\nConversation:\n{chat_history}\n\nSummary:",
    )
}

impl SummaryMemory {
    /// The store of a session that has never been summarized.
    pub fn new(
        session_id: String,
        summary_threshold: usize,
        recent_messages_count: usize,
        now: String,
    ) -> (store: Self)
        ensures
            store@.session_id == session_id@,
            store@.summary_threshold == summary_threshold,
            store@.recent_messages_count == recent_messages_count,
            store@.data == SummaryDataModel::zero(session_id@, now@),
            store@.in_flight is None,
    {
        let data = SummaryData::zero(session_id.clone(), now);
        SummaryMemory {
            session_id,
            summary_threshold,
            summary_prompt_template: default_summary_prompt_template(),
            recent_messages_count,
            data,
            in_flight: None,
        }
    }

    /// The same store with another prompt template.
    pub fn with_summary_prompt_template(self, template: String) -> (store: Self)
        ensures
            store@ == (StoreModel { summary_prompt_template: template@, ..self@ }),
    {
        let mut store = self;
        store.summary_prompt_template = template;
        store
    }

    /// The same store with another number of records to keep.
    pub fn with_recent_messages_count(self, count: usize) -> (store: Self)
        ensures
            store@ == (StoreModel { recent_messages_count: count, ..self@ }),
    {
        let mut store = self;
        store.recent_messages_count = count;
        store
    }

    /// The session's identifier.
    pub fn get_session_id(&self) -> (id: &str)
        ensures
            id@ == self@.session_id,
    {
        self.session_id.as_str()
    }

    /// Gives the store another session identifier.
    pub fn set_session_id(&mut self, session_id: String)
        ensures
            final(self)@ == (StoreModel { session_id: session_id@, ..old(self)@ }),
    {
        self.session_id = session_id;
    }

    /// The estimated cost at which the pending tail is compacted.
    pub fn summary_threshold(&self) -> (n: usize)
        ensures
            n == self@.summary_threshold,
    {
        self.summary_threshold
    }

    /// How many records stay in the log after a compaction.
    pub fn recent_messages_count(&self) -> (n: usize)
        ensures
            n == self@.recent_messages_count,
    {
        self.recent_messages_count
    }

    /// Whether a compaction is under way.
    pub fn compaction_in_flight(&self) -> (b: bool)
        ensures
            b == (self@.in_flight is Some),
    {
        self.in_flight.is_some()
    }

    /// The stored summary: the zero value until the first compaction.
    pub fn load_summary(&self) -> (data: SummaryData)
        ensures
            data@ == self@.data,
    {
        self.data.duplicate()
    }

    /// Stores `summary` as covering the records up to `sequence_number`.
    /// The checkpoint only rises: a number that is not above the stored
    /// one is refused, and nothing changes.
    pub fn save_summary(&mut self, summary: &str, sequence_number: u64, now: String) -> (saved:
        Result<(), MemoryError>)
        ensures
            sequence_number <= old(self)@.data.sequence_number ==> {
                &&& saved == Err::<(), MemoryError>(MemoryError::CheckpointRegression)
                &&& final(self)@ == old(self)@
            },
            sequence_number > old(self)@.data.sequence_number ==> {
                &&& saved is Ok
                &&& final(self)@ == old(self)@.updated(summary@, sequence_number, now@)
            },
    {
        if sequence_number <= self.data.sequence_number {
            return Err(MemoryError::CheckpointRegression);
        }
        let token_count = estimate_text_tokens(summary);
        self.data.sequence_number = sequence_number;
        self.data.summary = Some(String::from_str(summary));
        self.data.token_count = token_count;
        self.data.last_updated = now;
        Ok(())
    }

    /// Forgets the summary: the store is again that of a session that has
    /// never been summarized. A compaction under way is forgotten too.
    pub fn clear_summary(&mut self, now: String)
        ensures
            final(self)@ == (StoreModel {
                data: SummaryDataModel::zero(old(self)@.session_id, now@),
                in_flight: None,
                ..old(self)@
            }),
    {
        self.data = SummaryData::zero(self.session_id.clone(), now);
        self.in_flight = None;
    }

    /// The names of the members that `load_memory_variables` hands out.
    pub fn memory_variables(&self) -> (names: Vec<String>)
        ensures
            names@.len() == 1,
            names@[0]@ == "chat_history"@,
    {
        let mut names: Vec<String> = Vec::new();
        names.push(String::from_str("chat_history"));
        names
    }

    /// The text of the stored summary's document, as it is to be written
    /// to the summary's file; this always succeeds.
    pub fn summary_document(&self) -> (text: Result<String, MemoryError>)
        ensures
            text matches Ok(t) && t@ == json_text(encode_summary(self@.data)),
    {
        let doc = write_summary(&self.data);
        Ok(to_text(&doc))
    }

    /// Takes in the contents of the summary's file. Where they are no
    /// summary document, the call fails and the store stays as it was.
    pub fn restore_summary(&mut self, contents: &str) -> (restored: Result<(), MemoryError>)
        ensures
            match restored {
                Ok(_) => {
                    &&& stored_summary(contents@) == Some(final(self)@.data)
                    &&& final(self)@ == (StoreModel { data: final(self)@.data, ..old(self)@ })
                },
                Err(e) => {
                    &&& e == MemoryError::UnreadableSummary
                    &&& stored_summary(contents@) is None
                    &&& final(self)@ == old(self)@
                },
            },
    {
        match read_stored_summary(contents) {
            Some(d) => {
                self.data = d;
                Ok(())
            },
            None => Err(MemoryError::UnreadableSummary),
        }
    }

    /// Puts `data` in the place of the stored summary; a compaction under
    /// way is forgotten.
    pub fn replace_summary(&mut self, data: SummaryData)
        ensures
            final(self)@ == (StoreModel { data: data@, in_flight: None, ..old(self)@ }),
    {
        self.data = data;
        self.in_flight = None;
    }

    /// The context of the conversation as lines: the summary if there is
    /// one, then the most recent records.
    pub fn load_context(&self, history: &MessageHistoryMemory) -> (context: Vec<String>)
        ensures
            texts_of(context@) == context_lines(
                self@.data.summary,
                recent(history.log().history.messages, self@.recent_messages_count as nat),
            ),
    {
        let records = history.get_recent_messages(self.recent_messages_count);
        let lines = render_records(&records);
        match &self.data.summary {
            Some(s) => {
                let mut context: Vec<String> = Vec::new();
                let sentence = summary_sentence_text(s.as_str());
                context.push(sentence);
                let mut i: usize = 0;
                while i < lines.len()
                    invariant
                        i <= lines.len(),
                        context@.len() == i + 1,
                        context@[0]@ == sentence@,
                        forall|j: int| 0 <= j < i ==> (#[trigger] context@[j + 1])@ == lines@[j]@,
                    decreases lines.len() - i,
                {
                    context.push(lines[i].clone());
                    i = i + 1;
                }
                assert forall|k: int| 0 <= k < context@.len() implies texts_of(context@)[k] == (
                seq![sentence@] + texts_of(lines@))[k] by {
                    if k > 0 {
                        assert(context@[(k - 1) + 1]@ == lines@[k - 1]@);
                    }
                }
                assert(texts_of(context@) =~= seq![sentence@] + texts_of(lines@));
                context
            },
            None => lines,
        }
    }

    /// What a prompt takes from this memory, under the name
    /// `chat_history`: the system message, which holds `user_system_prompt`
    /// and the summary where there are any, and then the most recent
    /// records as messages.
    pub fn load_memory_variables(
        &self,
        history: &MessageHistoryMemory,
        user_system_prompt: Option<&str>,
    ) -> (variables: Vec<(String, JsonValue)>)
        ensures
            members_of(variables@) == history_variables(
                seq![
                    system_message(
                        system_prompt(
                            match user_system_prompt {
                                Some(u) => Some(u@),
                                None => None,
                            },
                            self@.data.summary,
                        ),
                    ),
                ] + message_objects(
                    recent(history.log().history.messages, self@.recent_messages_count as nat),
                    true,
                ),
            ),
    {
        let prompt = system_prompt_text(user_system_prompt, &self.data.summary);
        let mut system = no_members();
        insert_member(&mut system, "role", json_string("system"));
        insert_member(&mut system, "content", json_string(prompt.as_str()));
        let records = history.get_recent_messages(self.recent_messages_count);
        let messages = message_array(&records, true);
        let mut all: Vec<JsonValue> = Vec::new();
        let first = json_object(system);
        all.push(first);
        let mut i: usize = 0;
        while i < messages.len()
            invariant
                i <= messages.len(),
                all@.len() == i + 1,
                all@[0]@ == first@,
                forall|j: int| 0 <= j < i ==> (#[trigger] all@[j + 1])@ == messages@[j]@,
            decreases messages.len() - i,
        {
            all.push(messages[i].duplicate());
            i = i + 1;
        }
        assert forall|k: int| 0 <= k < all@.len() implies models_of(all@)[k] == (seq![first@]
            + models_of(messages@))[k] by {
            if k > 0 {
                assert(all@[(k - 1) + 1]@ == messages@[k - 1]@);
            }
        }
        assert(models_of(all@) =~= seq![first@] + models_of(messages@));
        let mut variables = no_members();
        push_member(&mut variables, "chat_history", json_array(all));
        variables
    }

    /// Saves a turn that comes as members: the string `input` of `inputs`
    /// is what the user said, the string `output` of `outputs` what the
    /// assistant answered. A text that is missing or blank gives no
    /// record. No compaction is made. Where the log has no sequence
    /// numbers left for the turn, nothing is stored and the call fails.
    pub fn save_context(
        &self,
        history: &mut MessageHistoryMemory,
        inputs: &Vec<(String, JsonValue)>,
        outputs: &Vec<(String, JsonValue)>,
        user_time: String,
        assistant_time: String,
    ) -> (stored: Result<(), MemoryError>)
        requires
            old(history).wf(),
        ensures
            final(history).wf(),
            final(history).spec_session_id() == old(history).spec_session_id(),
            final(history).recent_count() == old(history).recent_count(),
            ({
                let input = text_or_empty(members_of(inputs@), "input"@);
                let output = text_or_empty(members_of(outputs@), "output"@);
                &&& old(history).log().turn_fits(input, output) ==> {
                    &&& stored is Ok
                    &&& final(history).log() == old(history).log().with_turn(
                        input,
                        output,
                        user_time@,
                        assistant_time@,
                    )
                }
                &&& !old(history).log().turn_fits(input, output) ==> {
                    &&& stored == Err::<(), MemoryError>(MemoryError::SequenceExhausted)
                    &&& final(history).log() == old(history).log()
                }
            }),
    {
        history.add_turn(
            member_text(inputs, "input"),
            member_text(outputs, "output"),
            user_time,
            assistant_time,
        )
    }

    /// Empties the log and forgets the summary.
    pub fn clear(&mut self, history: &mut MessageHistoryMemory, now: String)
        ensures
            final(history).wf(),
            final(history).log() == old(history).log().clear(now@),
            final(history).spec_session_id() == old(history).spec_session_id(),
            final(history).recent_count() == old(history).recent_count(),
            final(self)@ == (StoreModel {
                data: SummaryDataModel::zero(old(self)@.session_id, now@),
                in_flight: None,
                ..old(self)@
            }),
    {
        history.clear(now.clone());
        self.clear_summary(now);
    }

    /// The statistics of this store and of the log `history`.
    pub fn get_memory_stats(&self, history: &MessageHistoryMemory) -> (stats: JsonValue)
        ensures
            stats@ == summary_stats(self@, history.log().history.messages),
    {
        let records = history.chat_history().get_messages();
        let lines = render_records(&records);
        let text = join_lines(&lines);
        let token_count = estimate_text_tokens(text.as_str());
        let mut members = no_members();
        push_member(&mut members, "session_id", json_string(self.session_id.as_str()));
        push_member(&mut members, "summary_threshold", json_count(self.summary_threshold));
        push_member(&mut members, "recent_messages_count", json_count(self.recent_messages_count));
        push_member(&mut members, "message_count", json_count(records.len()));
        push_member(&mut members, "token_count", json_count(token_count));
        push_member(&mut members, "has_summary", JsonValue::Bool(self.data.summary.is_some()));
        push_member(&mut members, "summary_token_count", json_count(self.data.token_count));
        push_member(&mut members, "last_updated", json_string(self.data.last_updated.as_str()));
        json_object(members)
    }

    /// The prompt that asks for a summary of `messages`.
    pub fn summary_prompt(&self, messages: &Vec<ChatMessageRecord>) -> (prompt: String)
        ensures
            prompt@ == prompt_for(self@.summary_prompt_template, records_of(messages@)),
    {
        let text = transcript_text(messages);
        replace_text(self.summary_prompt_template.as_str(), "{chat_history}", text.as_str())
    }

    /// The request that asks for a summary of `messages`: the summary so
    /// far, if there is one, and the lines of the messages in order.
    pub fn summary_request(&self, messages: &Vec<ChatMessageRecord>) -> (request: SummaryRequest)
        ensures
            request@ == (RequestModel {
                existing_summary: self@.data.summary,
                lines: render_lines(records_of(messages@)),
            }),
    {
        let existing_summary = match &self.data.summary {
            Some(s) => Some(s.clone()),
            None => None,
        };
        SummaryRequest { existing_summary, lines: render_records(messages) }
    }

    /// Has `summarizer` summarize `messages`: it is handed the request of
    /// `summary_request`, once. What it answers is stored, as
    /// covering the records up to the last of them. The summary and that
    /// checkpoint come back. Where the summarizer fails, or the checkpoint
    /// would not rise, nothing changes.
    pub fn generate_summary<S: Summarizer>(
        &mut self,
        messages: &Vec<ChatMessageRecord>,
        summarizer: &S,
        now: String,
    ) -> (generated: Result<(String, u64), MemoryError>)
        ensures
            match generated {
                Ok((summary, checkpoint)) => {
                    &&& checkpoint == last_sequence_number(records_of(messages@))
                    &&& checkpoint > old(self)@.data.sequence_number
                    &&& final(self)@ == old(self)@.updated(summary@, checkpoint, now@)
                },
                Err(e) => {
                    &&& final(self)@ == old(self)@
                    &&& e is Summarizer || e == MemoryError::CheckpointRegression
                    &&& e == MemoryError::CheckpointRegression ==> last_sequence_number(
                        records_of(messages@),
                    ) <= old(self)@.data.sequence_number
                },
            },
    {
        let request = self.summary_request(messages);
        let summary = match summarizer.summarize(&request) {
            Ok(summary) => summary,
            Err(reason) => {
                return Err(MemoryError::Summarizer(reason));
            },
        };
        let n = messages.len();
        let checkpoint = if n == 0 {
            0
        } else {
            assert(records_of(messages@).last() == messages@[n - 1]@);
            messages[n - 1].sequence_number
        };
        match self.save_summary(summary.as_str(), checkpoint, now) {
            Ok(()) => Ok((summary, checkpoint)),
            Err(e) => Err(e),
        }
    }

    /// Decides whether a compaction starts. It does when none is under way,
    /// records are pending and their estimated cost has reached the
    /// threshold: the request for the summarizer is handed back and the
    /// compaction is under way. Otherwise nothing changes.
    pub fn begin_compaction(&mut self, history: &MessageHistoryMemory) -> (request: Option<
        SummaryRequest,
    >)
        requires
            history.wf(),
        ensures
            old(self)@.may_start(history.log().history.messages) ==> {
                &&& request matches Some(r)
                &&& r@ == old(self)@.request(history.log().history.messages)
                &&& final(self)@.in_flight matches Some(c)
                &&& c == pending(
                    history.log().history.messages,
                    old(self)@.data.sequence_number,
                ).last().sequence_number
                &&& c > old(self)@.data.sequence_number
                &&& final(self)@ == (StoreModel { in_flight: Some(c), ..old(self)@ })
            },
            !old(self)@.may_start(history.log().history.messages) ==> {
                &&& request is None
                &&& final(self)@ == old(self)@
            },
    {
        if self.in_flight.is_some() {
            return None;
        }
        let all = history.chat_history().get_messages();
        let tail = pending_messages(&all, self.data.sequence_number);
        if tail.len() == 0 {
            return None;
        }
        let lines = render_records(&tail);
        let text = join_lines(&lines);
        let cost = estimate_text_tokens(text.as_str());
        if cost < self.summary_threshold {
            return None;
        }
        let checkpoint = tail[tail.len() - 1].sequence_number;
        let existing_summary = match &self.data.summary {
            Some(s) => Some(s.clone()),
            None => None,
        };
        proof {
            let ms = history.log().history.messages;
            let p = pending(ms, self.data.sequence_number);
            let above = |r: RecordModel| r.sequence_number > self.data.sequence_number;
            assert(p.last() == tail@.last()@);
            ms.lemma_filter_pred(above, p.len() - 1);
        }
        self.in_flight = Some(checkpoint);
        Some(SummaryRequest { existing_summary, lines })
    }

    /// Ends the compaction under way with what the summarizer answered.
    ///
    /// With a summary, the store takes it with the checkpoint of the
    /// request, and then the log sheds all but its most recent records;
    /// records that were appended while the summarizer worked all stay,
    /// since the summary does not cover them. With a failure, neither the
    /// store nor the log changes and the failure is handed on. Either way
    /// no compaction is under way afterwards.
    pub fn finish_compaction(
        &mut self,
        history: &mut MessageHistoryMemory,
        outcome: Result<String, String>,
        now: String,
    ) -> (done: Result<bool, MemoryError>)
        requires
            old(history).wf(),
        ensures
            final(history).wf(),
            final(history).spec_session_id() == old(history).spec_session_id(),
            final(history).recent_count() == old(history).recent_count(),
            old(self)@.in_flight is None ==> {
                &&& done == Err::<bool, MemoryError>(MemoryError::NoCompactionInFlight)
                &&& final(self)@ == old(self)@
                &&& final(history).log() == old(history).log()
            },
            old(self)@.in_flight is Some && outcome is Err ==> {
                &&& done matches Err(MemoryError::Summarizer(reason))
                &&& reason@ == outcome->Err_0@
                &&& final(self)@ == (StoreModel { in_flight: None, ..old(self)@ })
                &&& final(history).log() == old(history).log()
            },
            old(self)@.in_flight is Some && outcome is Ok && old(self)@.in_flight->0 <= old(
                self,
            )@.data.sequence_number ==> {
                &&& done == Err::<bool, MemoryError>(MemoryError::CheckpointRegression)
                &&& final(self)@ == (StoreModel { in_flight: None, ..old(self)@ })
                &&& final(history).log() == old(history).log()
            },
            old(self)@.in_flight is Some && outcome is Ok && old(self)@.in_flight->0 > old(
                self,
            )@.data.sequence_number ==> {
                &&& done == Ok::<bool, MemoryError>(true)
                &&& final(self)@ == (StoreModel {
                    in_flight: None,
                    ..old(self)@.updated(outcome->Ok_0@, old(self)@.in_flight->0, now@)
                })
                &&& final(history).log() == old(history).log().retain_recent(
                    kept_after(
                        old(history).log().history.messages,
                        old(self)@.in_flight->0,
                        old(self)@.recent_messages_count,
                    ),
                    now@,
                )
            },
    {
        let checkpoint = match self.in_flight {
            Some(c) => c,
            None => {
                return Err(MemoryError::NoCompactionInFlight);
            },
        };
        self.in_flight = None;
        match outcome {
            Err(reason) => Err(MemoryError::Summarizer(reason)),
            Ok(summary) => {
                match self.save_summary(summary.as_str(), checkpoint, now.clone()) {
                    Err(e) => Err(e),
                    Ok(()) => {
                        let all = history.chat_history().get_messages();
                        let uncovered = pending_messages(&all, checkpoint).len();
                        let keep = if uncovered > self.recent_messages_count {
                            uncovered
                        } else {
                            self.recent_messages_count
                        };
                        history.keep_recent_messages(keep, now);
                        Ok(true)
                    },
                }
            },
        }
    }

    /// Compacts the log if that is due, with `summarizer` doing the
    /// summarizing: `Ok(true)` when a summary was stored, `Ok(false)` when
    /// nothing was due. Where nothing is due, nothing changes. Where the
    /// summarizer fails, the store and the log stay as they were and its
    /// reason comes back as the error.
    pub fn check_and_generate_summary<S: Summarizer>(
        &mut self,
        history: &mut MessageHistoryMemory,
        summarizer: &S,
        now: String,
    ) -> (done: Result<bool, MemoryError>)
        requires
            old(history).wf(),
        ensures
            final(history).wf(),
            final(history).spec_session_id() == old(history).spec_session_id(),
            final(history).recent_count() == old(history).recent_count(),
            !old(self)@.may_start(old(history).log().history.messages) ==> {
                &&& done == Ok::<bool, MemoryError>(false)
                &&& final(self)@ == old(self)@
                &&& final(history).log() == old(history).log()
            },
            old(self)@.may_start(old(history).log().history.messages) ==> {
                ||| {
                    &&& done matches Err(MemoryError::Summarizer(_))
                    &&& final(self)@ == old(self)@
                    &&& final(history).log() == old(history).log()
                }
                ||| {
                    &&& done == Ok::<bool, MemoryError>(true)
                    &&& final(self)@.data.summary matches Some(summary)
                    &&& final(self)@ == old(self)@.updated(
                        summary,
                        pending(
                            old(history).log().history.messages,
                            old(self)@.data.sequence_number,
                        ).last().sequence_number,
                        now@,
                    )
                    &&& final(history).log() == old(history).log().retain_recent(
                        old(self)@.recent_messages_count as nat,
                        now@,
                    )
                }
            },
    {
        match self.begin_compaction(history) {
            None => Ok(false),
            Some(request) => {
                proof {
                    let ms = history.log().history.messages;
                    lemma_pending_ends_with_last(ms, old(self)@.data.sequence_number);
                    lemma_kept_is_window_at_newest(
                        ms,
                        ms.last().sequence_number,
                        self@.recent_messages_count,
                    );
                }
                let outcome = summarizer.summarize(&request);
                self.finish_compaction(history, outcome, now)
            },
        }
    }
}

} // verus!
