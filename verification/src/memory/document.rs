//! The stored form of a session: the JSON document that holds the record
//! log, and how it is written and read.

use vstd::prelude::*;
use vstd::string::*;
use crate::json::{
    JsonModel,
    JsonValue,
    NumberModel,
    duplicate_members,
    json_array,
    json_count,
    json_object,
    json_string,
    json_u64,
    lemma_array_view,
    lemma_lookup_at,
    lemma_object_view,
    model_of_opt_text,
    models_of,
    no_members,
    push_member,
};
use crate::memory::message_history::{
    ChatMessageRecord,
    ChatSessionHistory,
    RecordModel,
    SessionModel,
    opt_members,
    opt_text,
    records_of,
    valid_record,
    valid_records,
};
use crate::memory::summary::{SummaryData, SummaryDataModel};
use crate::text::str_is_blank;

verus! {

/// Optional members as a value: the object, or `null`.
pub open spec fn encode_members(members: Option<Seq<(Seq<char>, JsonModel)>>) -> JsonModel {
    match members {
        Some(m) => JsonModel::Object(m),
        None => JsonModel::Null,
    }
}

/// A record as a JSON object.
pub open spec fn encode_record(r: RecordModel) -> JsonModel {
    JsonModel::Object(
        Seq::<(Seq<char>, JsonModel)>::empty().push(("role"@, JsonModel::String(r.role))).push(
            ("content"@, JsonModel::String(r.content)),
        ).push(("name"@, model_of_opt_text(r.name))).push(
            ("additional_kwargs"@, encode_members(r.additional_kwargs)),
        ).push(("timestamp"@, JsonModel::String(r.timestamp))).push(
            ("sequence_number"@, JsonModel::Number(NumberModel::PosInt(r.sequence_number))),
        ),
    )
}

/// Records as JSON objects.
pub open spec fn encode_records(ms: Seq<RecordModel>) -> Seq<JsonModel> {
    Seq::new(ms.len(), |i: int| encode_record(ms[i]))
}

/// A session as its JSON document.
pub open spec fn encode_session(h: SessionModel) -> JsonModel {
    JsonModel::Object(
        Seq::<(Seq<char>, JsonModel)>::empty().push(
            ("session_id"@, JsonModel::String(h.session_id)),
        ).push(("created_at"@, JsonModel::String(h.created_at))).push(
            ("updated_at"@, JsonModel::String(h.updated_at)),
        ).push(("messages"@, JsonModel::Array(encode_records(h.messages)))).push(
            ("metadata"@, encode_members(h.metadata)),
        ),
    )
}

/// An optional text as a member holds it: a missing member and `null`
/// stand for none, a string for itself; anything else is an error, `None`.
pub open spec fn decode_opt_text(field: Option<JsonModel>) -> Option<Option<Seq<char>>> {
    match field {
        None => Some(None),
        Some(JsonModel::Null) => Some(None),
        Some(JsonModel::String(s)) => Some(Some(s)),
        Some(_) => None,
    }
}

/// Optional members as a member holds them: a missing member and `null`
/// stand for none, an object for its members; anything else is an error,
/// `None`.
pub open spec fn decode_members(field: Option<JsonModel>) -> Option<
    Option<Seq<(Seq<char>, JsonModel)>>,
> {
    match field {
        None => Some(None),
        Some(JsonModel::Null) => Some(None),
        Some(JsonModel::Object(m)) => Some(Some(m)),
        Some(_) => None,
    }
}

/// The non-negative integer that the member `key` holds.
pub open spec fn u64_at(doc: JsonModel, key: Seq<char>) -> Option<u64> {
    match doc.get(key) {
        Some(v) => v.as_u64(),
        None => None,
    }
}

/// The record that a JSON object holds; `None` where a member is missing
/// or of the wrong kind.
pub open spec fn decode_record(doc: JsonModel) -> Option<RecordModel> {
    match (
        doc.text_at("role"@),
        doc.text_at("content"@),
        decode_opt_text(doc.get("name"@)),
        decode_members(doc.get("additional_kwargs"@)),
        doc.text_at("timestamp"@),
        u64_at(doc, "sequence_number"@),
    ) {
        (
            Some(role),
            Some(content),
            Some(name),
            Some(additional_kwargs),
            Some(timestamp),
            Some(sequence_number),
        ) => Some(
            RecordModel { role, content, name, additional_kwargs, timestamp, sequence_number },
        ),
        _ => None,
    }
}

/// The records that a member holds: it must be an array of records.
pub open spec fn decode_records(field: Option<JsonModel>) -> Option<Seq<RecordModel>> {
    match field {
        Some(JsonModel::Array(items)) => if forall|i: int|
            0 <= i < items.len() ==> decode_record(#[trigger] items[i]) is Some {
            Some(Seq::new(items.len(), |i: int| decode_record(items[i])->0))
        } else {
            None
        },
        _ => None,
    }
}

/// The session that a JSON document holds, whatever its records are.
pub open spec fn decode_session(doc: JsonModel) -> Option<SessionModel> {
    match (
        doc.text_at("session_id"@),
        doc.text_at("created_at"@),
        doc.text_at("updated_at"@),
        decode_records(doc.get("messages"@)),
        decode_members(doc.get("metadata"@)),
    ) {
        (Some(session_id), Some(created_at), Some(updated_at), Some(messages), Some(metadata)) => {
            Some(SessionModel { session_id, created_at, updated_at, messages, metadata })
        },
        _ => None,
    }
}

/// The session that a JSON document holds, if its records may be stored
/// together.
pub open spec fn session_of_document(doc: JsonModel) -> Option<SessionModel> {
    match decode_session(doc) {
        Some(h) => if valid_records(h.messages) {
            Some(h)
        } else {
            None
        },
        None => None,
    }
}

/// The optional text of the member `key`, or `None` where the member is of
/// the wrong kind.
pub fn opt_text_at(doc: &JsonValue, key: &str) -> (text: Option<Option<String>>)
    ensures
        match text {
            Some(t) => decode_opt_text(doc@.get(key@)) == Some(opt_text(t)),
            None => decode_opt_text(doc@.get(key@)) is None,
        },
{
    match doc.get(key) {
        None => Some(None),
        Some(JsonValue::Null) => Some(None),
        Some(JsonValue::String(s)) => Some(Some(s.clone())),
        Some(_) => None,
    }
}

/// The optional members of the member `key`, or `None` where the member is
/// of the wrong kind.
pub fn opt_members_at(doc: &JsonValue, key: &str) -> (members: Option<
    Option<Vec<(String, JsonValue)>>,
>)
    ensures
        match members {
            Some(m) => decode_members(doc@.get(key@)) == Some(opt_members(m)),
            None => decode_members(doc@.get(key@)) is None,
        },
{
    match doc.get(key) {
        None => Some(None),
        Some(JsonValue::Null) => Some(None),
        Some(JsonValue::Object(m)) => {
            proof {
                lemma_object_view(*m);
            }
            Some(Some(duplicate_members(m)))
        },
        Some(_) => None,
    }
}

/// The text of the member `key`, as a string of its own.
pub fn string_at(doc: &JsonValue, key: &str) -> (text: Option<String>)
    ensures
        opt_text(text) == doc@.text_at(key@),
{
    match doc.str_at(key) {
        Some(s) => Some(String::from_str(s)),
        None => None,
    }
}

/// The non-negative integer of the member `key`.
pub fn number_at(doc: &JsonValue, key: &str) -> (n: Option<u64>)
    ensures
        n == u64_at(doc@, key@),
{
    match doc.get(key) {
        Some(v) => v.as_u64(),
        None => None,
    }
}

/// Reads a record from a JSON object.
pub fn read_record(doc: &JsonValue) -> (record: Option<ChatMessageRecord>)
    ensures
        match record {
            Some(r) => decode_record(doc@) == Some(r@),
            None => decode_record(doc@) is None,
        },
{
    let role = match string_at(doc, "role") {
        Some(t) => t,
        None => {
            return None;
        },
    };
    let content = match string_at(doc, "content") {
        Some(t) => t,
        None => {
            return None;
        },
    };
    let name = match opt_text_at(doc, "name") {
        Some(t) => t,
        None => {
            return None;
        },
    };
    let additional_kwargs = match opt_members_at(doc, "additional_kwargs") {
        Some(m) => m,
        None => {
            return None;
        },
    };
    let timestamp = match string_at(doc, "timestamp") {
        Some(t) => t,
        None => {
            return None;
        },
    };
    let sequence_number = match number_at(doc, "sequence_number") {
        Some(n) => n,
        None => {
            return None;
        },
    };
    Some(ChatMessageRecord { role, content, name, additional_kwargs, timestamp, sequence_number })
}

/// Reads the records that the member `key` holds.
pub fn read_records(doc: &JsonValue, key: &str) -> (records: Option<Vec<ChatMessageRecord>>)
    ensures
        match records {
            Some(v) => decode_records(doc@.get(key@)) == Some(records_of(v@)),
            None => decode_records(doc@.get(key@)) is None,
        },
{
    let items = match doc.get(key) {
        Some(JsonValue::Array(items)) => items,
        _ => {
            return None;
        },
    };
    proof {
        lemma_array_view(*items);
    }
    let mut records: Vec<ChatMessageRecord> = Vec::new();
    let mut i: usize = 0;
    while i < items.len()
        invariant
            i <= items.len(),
            records@.len() == i,
            doc@.get(key@) == Some(JsonModel::Array(models_of(items@))),
            forall|j: int|
                0 <= j < i ==> decode_record(#[trigger] items@[j]@) == Some(records@[j]@),
        decreases items.len() - i,
    {
        match read_record(&items[i]) {
            Some(r) => {
                records.push(r);
            },
            None => {
                assert(decode_record(models_of(items@)[i as int]) is None);
                return None;
            },
        }
        i = i + 1;
    }
    proof {
        let ms = models_of(items@);
        assert forall|j: int| 0 <= j < ms.len() implies decode_record(#[trigger] ms[j]) is Some by {
            assert(decode_record(items@[j]@) == Some(records@[j]@));
        }
        assert(records_of(records@) =~= Seq::new(ms.len(), |j: int| decode_record(ms[j])->0)) by {
            assert forall|j: int| 0 <= j < ms.len() implies records_of(records@)[j]
                == decode_record(ms[j])->0 by {
                assert(decode_record(items@[j]@) == Some(records@[j]@));
            }
        }
    }
    Some(records)
}

/// Whether the records may be stored together.
pub fn records_are_valid(records: &Vec<ChatMessageRecord>) -> (ok: bool)
    ensures
        ok == valid_records(records_of(records@)),
{
    let ghost ms = records_of(records@);
    let mut i: usize = 0;
    while i < records.len()
        invariant
            i <= records.len(),
            ms == records_of(records@),
            forall|j: int| 0 <= j < i ==> valid_record(#[trigger] ms[j]),
            forall|a: int, b: int|
                0 <= a < b < i ==> (#[trigger] ms[a]).sequence_number < (
                #[trigger] ms[b]).sequence_number,
        decreases records.len() - i,
    {
        let r = &records[i];
        assert(ms[i as int] == r@);
        if r.sequence_number < 1 || r.sequence_number == u64::MAX || str_is_blank(
            r.content.as_str(),
        ) {
            assert(!valid_record(ms[i as int]));
            return false;
        }
        if i > 0 {
            assert(ms[i - 1] == records@[i - 1]@);
            if records[i - 1].sequence_number >= r.sequence_number {
                return false;
            }
            assert forall|a: int| 0 <= a < i implies (#[trigger] ms[a]).sequence_number
                < ms[i as int].sequence_number by {
                if a < i - 1 {
                    assert(ms[a].sequence_number < ms[i - 1].sequence_number);
                }
            }
        }
        i = i + 1;
    }
    true
}

/// Reads a session from its JSON document: `None` where a member is
/// missing or of the wrong kind, or the records may not be stored
/// together.
pub fn read_session(doc: &JsonValue) -> (session: Option<ChatSessionHistory>)
    ensures
        match session {
            Some(h) => session_of_document(doc@) == Some(h@),
            None => session_of_document(doc@) is None,
        },
{
    let session_id = match string_at(doc, "session_id") {
        Some(t) => t,
        None => {
            return None;
        },
    };
    let created_at = match string_at(doc, "created_at") {
        Some(t) => t,
        None => {
            return None;
        },
    };
    let updated_at = match string_at(doc, "updated_at") {
        Some(t) => t,
        None => {
            return None;
        },
    };
    let messages = match read_records(doc, "messages") {
        Some(v) => v,
        None => {
            return None;
        },
    };
    let metadata = match opt_members_at(doc, "metadata") {
        Some(m) => m,
        None => {
            return None;
        },
    };
    if !records_are_valid(&messages) {
        return None;
    }
    Some(ChatSessionHistory { session_id, created_at, updated_at, messages, metadata })
}

/// Optional members as a value.
pub fn write_members(members: &Option<Vec<(String, JsonValue)>>) -> (value: JsonValue)
    ensures
        value@ == encode_members(opt_members(*members)),
{
    match members {
        Some(m) => json_object(duplicate_members(m)),
        None => JsonValue::Null,
    }
}

/// An optional text as a value.
pub fn write_opt_text(text: &Option<String>) -> (value: JsonValue)
    ensures
        value@ == model_of_opt_text(opt_text(*text)),
{
    match text {
        Some(t) => json_string(t.as_str()),
        None => JsonValue::Null,
    }
}

/// Writes a record as a JSON object.
pub fn write_record(record: &ChatMessageRecord) -> (doc: JsonValue)
    ensures
        doc@ == encode_record(record@),
{
    let mut members = no_members();
    push_member(&mut members, "role", json_string(record.role.as_str()));
    push_member(&mut members, "content", json_string(record.content.as_str()));
    push_member(&mut members, "name", write_opt_text(&record.name));
    push_member(&mut members, "additional_kwargs", write_members(&record.additional_kwargs));
    push_member(&mut members, "timestamp", json_string(record.timestamp.as_str()));
    push_member(&mut members, "sequence_number", json_u64(record.sequence_number));
    json_object(members)
}

/// Writes a session as its JSON document.
pub fn write_session(session: &ChatSessionHistory) -> (doc: JsonValue)
    ensures
        doc@ == encode_session(session@),
{
    let mut items: Vec<JsonValue> = Vec::new();
    let mut i: usize = 0;
    while i < session.messages.len()
        invariant
            i <= session.messages.len(),
            items@.len() == i,
            forall|j: int|
                0 <= j < i ==> (#[trigger] items@[j])@ == encode_record(session.messages@[j]@),
        decreases session.messages.len() - i,
    {
        items.push(write_record(&session.messages[i]));
        i = i + 1;
    }
    assert(models_of(items@) =~= encode_records(records_of(session.messages@)));
    let mut members = no_members();
    push_member(&mut members, "session_id", json_string(session.session_id.as_str()));
    push_member(&mut members, "created_at", json_string(session.created_at.as_str()));
    push_member(&mut members, "updated_at", json_string(session.updated_at.as_str()));
    push_member(&mut members, "messages", json_array(items));
    push_member(&mut members, "metadata", write_members(&session.metadata));
    json_object(members)
}

/// A record is read by the names of its members: two objects that hold
/// the same value under every name hold the same record, whatever the
/// order of their members.
pub proof fn lemma_record_is_read_by_name(a: JsonModel, b: JsonModel)
    requires
        forall|key: Seq<char>| #[trigger] a.get(key) == b.get(key),
    ensures
        decode_record(a) == decode_record(b),
{
    assert(a.get("role"@) == b.get("role"@));
    assert(a.get("content"@) == b.get("content"@));
    assert(a.get("name"@) == b.get("name"@));
    assert(a.get("additional_kwargs"@) == b.get("additional_kwargs"@));
    assert(a.get("timestamp"@) == b.get("timestamp"@));
    assert(a.get("sequence_number"@) == b.get("sequence_number"@));
}

/// A session is read by the names of its members: two documents that hold
/// the same value under every name hold the same session, whatever the
/// order of their members.
pub proof fn lemma_session_is_read_by_name(a: JsonModel, b: JsonModel)
    requires
        forall|key: Seq<char>| #[trigger] a.get(key) == b.get(key),
    ensures
        decode_session(a) == decode_session(b),
        session_of_document(a) == session_of_document(b),
{
    assert(a.get("session_id"@) == b.get("session_id"@));
    assert(a.get("created_at"@) == b.get("created_at"@));
    assert(a.get("updated_at"@) == b.get("updated_at"@));
    assert(a.get("messages"@) == b.get("messages"@));
    assert(a.get("metadata"@) == b.get("metadata"@));
}

/// Reading the object that was written for a record gives the record
/// back.
pub proof fn lemma_record_round_trip(r: RecordModel)
    ensures
        decode_record(encode_record(r)) == Some(r),
{
    reveal_strlit("role");
    reveal_strlit("content");
    reveal_strlit("name");
    reveal_strlit("additional_kwargs");
    reveal_strlit("timestamp");
    reveal_strlit("sequence_number");
    let doc = encode_record(r);
    let members = doc->Object_0;
    assert("role"@ != "content"@ && "role"@ != "name"@ && "role"@ != "additional_kwargs"@
        && "role"@ != "timestamp"@ && "role"@ != "sequence_number"@) by {
        assert("role"@[0] == 'r');
    }
    assert("content"@ != "name"@ && "content"@ != "additional_kwargs"@ && "content"@
        != "timestamp"@ && "content"@ != "sequence_number"@) by {
        assert("content"@[0] == 'c');
    }
    assert("name"@ != "additional_kwargs"@ && "name"@ != "timestamp"@ && "name"@
        != "sequence_number"@) by {
        assert("name"@[0] == 'n');
    }
    assert("additional_kwargs"@ != "timestamp"@ && "additional_kwargs"@ != "sequence_number"@)
        by {
        assert("additional_kwargs"@[0] == 'a');
    }
    assert("timestamp"@ != "sequence_number"@) by {
        assert("timestamp"@[0] == 't');
    }
    lemma_lookup_at(members, "role"@, 0);
    lemma_lookup_at(members, "content"@, 1);
    lemma_lookup_at(members, "name"@, 2);
    lemma_lookup_at(members, "additional_kwargs"@, 3);
    lemma_lookup_at(members, "timestamp"@, 4);
    lemma_lookup_at(members, "sequence_number"@, 5);
}

/// Reading the document that was written for a session gives the session
/// back: the same records in the same order, sequence numbers and all
/// else included.
pub proof fn lemma_session_round_trip(h: SessionModel)
    ensures
        decode_session(encode_session(h)) == Some(h),
        valid_records(h.messages) ==> session_of_document(encode_session(h)) == Some(h),
{
    reveal_strlit("session_id");
    reveal_strlit("created_at");
    reveal_strlit("updated_at");
    reveal_strlit("messages");
    reveal_strlit("metadata");
    let doc = encode_session(h);
    let members = doc->Object_0;
    assert("session_id"@ != "created_at"@ && "session_id"@ != "updated_at"@ && "session_id"@
        != "messages"@ && "session_id"@ != "metadata"@) by {
        assert("session_id"@[0] == 's');
    }
    assert("created_at"@ != "updated_at"@ && "created_at"@ != "messages"@ && "created_at"@
        != "metadata"@) by {
        assert("created_at"@[0] == 'c');
    }
    assert("updated_at"@ != "messages"@ && "updated_at"@ != "metadata"@) by {
        assert("updated_at"@[0] == 'u');
    }
    assert("messages"@ != "metadata"@) by {
        assert("messages"@[2] == 's');
        assert("metadata"@[2] == 't');
    }
    lemma_lookup_at(members, "session_id"@, 0);
    lemma_lookup_at(members, "created_at"@, 1);
    lemma_lookup_at(members, "updated_at"@, 2);
    lemma_lookup_at(members, "messages"@, 3);
    lemma_lookup_at(members, "metadata"@, 4);
    let items = encode_records(h.messages);
    assert forall|i: int| 0 <= i < items.len() implies decode_record(#[trigger] items[i])
        == Some(h.messages[i]) by {
        lemma_record_round_trip(h.messages[i]);
    }
    assert(Seq::new(items.len(), |i: int| decode_record(items[i])->0) =~= h.messages);
}

/// A stored summary as its JSON document.
pub open spec fn encode_summary(d: SummaryDataModel) -> JsonModel {
    JsonModel::Object(
        Seq::<(Seq<char>, JsonModel)>::empty().push(
            ("session_id"@, JsonModel::String(d.session_id)),
        ).push(("sequence_number"@, JsonModel::Number(NumberModel::PosInt(d.sequence_number))))
            .push(("summary"@, model_of_opt_text(d.summary))).push(
            ("token_count"@, JsonModel::Number(NumberModel::PosInt(d.token_count as u64))),
        ).push(("last_updated"@, JsonModel::String(d.last_updated))),
    )
}

/// The stored summary that a JSON document holds; `None` where a member
/// is missing, of the wrong kind or too large.
pub open spec fn decode_summary(doc: JsonModel) -> Option<SummaryDataModel> {
    match (
        doc.text_at("session_id"@),
        u64_at(doc, "sequence_number"@),
        decode_opt_text(doc.get("summary"@)),
        u64_at(doc, "token_count"@),
        doc.text_at("last_updated"@),
    ) {
        (
            Some(session_id),
            Some(sequence_number),
            Some(summary),
            Some(token_count),
            Some(last_updated),
        ) => if token_count <= usize::MAX {
            Some(
                SummaryDataModel {
                    session_id,
                    sequence_number,
                    summary,
                    token_count: token_count as usize,
                    last_updated,
                },
            )
        } else {
            None
        },
        _ => None,
    }
}

/// Reads a stored summary from its JSON document.
pub fn read_summary(doc: &JsonValue) -> (data: Option<SummaryData>)
    ensures
        match data {
            Some(d) => decode_summary(doc@) == Some(d@),
            None => decode_summary(doc@) is None,
        },
{
    let session_id = match string_at(doc, "session_id") {
        Some(t) => t,
        None => {
            return None;
        },
    };
    let sequence_number = match number_at(doc, "sequence_number") {
        Some(n) => n,
        None => {
            return None;
        },
    };
    let summary = match opt_text_at(doc, "summary") {
        Some(t) => t,
        None => {
            return None;
        },
    };
    let token_count = match number_at(doc, "token_count") {
        Some(n) => n,
        None => {
            return None;
        },
    };
    let last_updated = match string_at(doc, "last_updated") {
        Some(t) => t,
        None => {
            return None;
        },
    };
    if token_count > usize::MAX as u64 {
        return None;
    }
    Some(
        SummaryData {
            session_id,
            sequence_number,
            summary,
            token_count: token_count as usize,
            last_updated,
        },
    )
}

/// Writes a stored summary as its JSON document.
pub fn write_summary(data: &SummaryData) -> (doc: JsonValue)
    ensures
        doc@ == encode_summary(data@),
{
    let mut members = no_members();
    push_member(&mut members, "session_id", json_string(data.session_id.as_str()));
    push_member(&mut members, "sequence_number", json_u64(data.sequence_number));
    push_member(&mut members, "summary", write_opt_text(&data.summary));
    push_member(&mut members, "token_count", json_count(data.token_count));
    push_member(&mut members, "last_updated", json_string(data.last_updated.as_str()));
    json_object(members)
}

/// Reading the document that was written for a stored summary gives the
/// summary back, checkpoint included.
pub proof fn lemma_summary_round_trip(d: SummaryDataModel)
    ensures
        decode_summary(encode_summary(d)) == Some(d),
{
    reveal_strlit("session_id");
    reveal_strlit("sequence_number");
    reveal_strlit("summary");
    reveal_strlit("token_count");
    reveal_strlit("last_updated");
    let doc = encode_summary(d);
    let members = doc->Object_0;
    assert("session_id"@ != "sequence_number"@ && "session_id"@ != "summary"@ && "session_id"@
        != "token_count"@ && "session_id"@ != "last_updated"@) by {
        assert("session_id"@.len() == 10);
        assert("sequence_number"@.len() == 15);
        assert("summary"@.len() == 7);
        assert("token_count"@.len() == 11);
        assert("last_updated"@.len() == 12);
    }
    assert("sequence_number"@ != "summary"@ && "sequence_number"@ != "token_count"@
        && "sequence_number"@ != "last_updated"@) by {
        assert("sequence_number"@[0] == 's');
        assert("sequence_number"@[1] == 'e');
        assert("summary"@[1] == 'u');
    }
    assert("summary"@ != "token_count"@ && "summary"@ != "last_updated"@) by {
        assert("summary"@[0] == 's');
    }
    assert("token_count"@ != "last_updated"@) by {
        assert("token_count"@[0] == 't');
    }
    lemma_lookup_at(members, "session_id"@, 0);
    lemma_lookup_at(members, "sequence_number"@, 1);
    lemma_lookup_at(members, "summary"@, 2);
    lemma_lookup_at(members, "token_count"@, 3);
    lemma_lookup_at(members, "last_updated"@, 4);
}

} // verus!
