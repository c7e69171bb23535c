//! Reading a session that was stored in the old way: one JSON object per
//! line, each a bare record without a sequence number.

use vstd::prelude::*;
use vstd::string::*;
use crate::json::{
    JsonModel,
    JsonValue,
    duplicate_members,
    json_parse,
    lemma_object_view,
    members_of,
    parse_json,
};
use crate::memory::document::{decode_record, read_record, records_are_valid, string_at};
use crate::memory::message_history::{
    ChatMessageRecord,
    RecordModel,
    records_of,
    valid_record,
    valid_records,
};
use crate::text::{
    contains_text,
    is_blank,
    lines_of,
    split_lines,
    str_contains,
    str_eq,
    str_is_blank,
    texts_of,
};

verus! {

/// What has been read of a legacy file so far: the records, and the
/// highest sequence number given or met.
pub struct LegacyState {
    pub records: Seq<RecordModel>,
    pub max_sequence_number: u64,
}

/// A record of the assistant whose content holds a whole transcript: it
/// has both the marker of a user's turn and that of an assistant's turn.
/// An old writer left such records behind; they are not migrated.
pub open spec fn is_legacy_artifact(role: Seq<char>, content: Seq<char>) -> bool {
    &&& role == "assistant"@
    &&& contains_text(content, "user:"@)
    &&& contains_text(content, "assistant:"@)
}

/// The additional fields of a bare record: none where the member is
/// missing or `null`, the members of an object, and no members for
/// anything else.
pub open spec fn legacy_kwargs(field: Option<JsonModel>) -> Option<Seq<(Seq<char>, JsonModel)>> {
    match field {
        None => None,
        Some(JsonModel::Null) => None,
        Some(JsonModel::Object(members)) => Some(members),
        Some(_) => Some(Seq::empty()),
    }
}

/// The record that a bare legacy object stands for, under the number
/// `sequence_number`: its role and content must be strings; its name is
/// kept if it is a string; its time is `now` where it has none.
pub open spec fn bare_record(doc: JsonModel, now: Seq<char>, sequence_number: u64) -> Option<
    RecordModel,
> {
    match (doc.text_at("role"@), doc.text_at("content"@)) {
        (Some(role), Some(content)) => Some(
            RecordModel {
                role,
                content,
                name: doc.text_at("name"@),
                additional_kwargs: legacy_kwargs(doc.get("additional_kwargs"@)),
                timestamp: match doc.text_at("timestamp"@) {
                    Some(t) => t,
                    None => now,
                },
                sequence_number,
            },
        ),
        _ => None,
    }
}

/// Where a record with the number `sequence_number` goes: behind the last
/// record whose number is not larger.
pub open spec fn insert_position(records: Seq<RecordModel>, sequence_number: u64) -> int
    decreases records.len(),
{
    if records.len() == 0 || records.last().sequence_number <= sequence_number {
        records.len() as int
    } else {
        insert_position(records.drop_last(), sequence_number)
    }
}

/// The state after one more line was read.
///
/// A blank line and a line that is not JSON change nothing. An object
/// without a sequence number is a bare record: it gets the number after
/// the highest so far and goes to the end, unless it is an artifact, its
/// content is blank, or no number is left. An object with a sequence
/// number is read as a full record and goes to its place by that number,
/// unless it cannot be read or may not be stored.
pub open spec fn legacy_line(state: LegacyState, line: Seq<char>, now: Seq<char>)
    -> LegacyState {
    if is_blank(line) {
        state
    } else {
        match json_parse(line) {
            None => state,
            Some(doc) => if doc.get("sequence_number"@) is None {
                match bare_record(doc, now, (state.max_sequence_number + 1) as u64) {
                    Some(r) => if is_legacy_artifact(r.role, r.content) || is_blank(r.content)
                        || state.max_sequence_number + 1 >= u64::MAX {
                        state
                    } else {
                        LegacyState {
                            records: state.records.push(r),
                            max_sequence_number: r.sequence_number,
                        }
                    },
                    None => state,
                }
            } else {
                match decode_record(doc) {
                    Some(r) => if valid_record(r) {
                        LegacyState {
                            records: state.records.insert(
                                insert_position(state.records, r.sequence_number),
                                r,
                            ),
                            max_sequence_number: if r.sequence_number
                                > state.max_sequence_number {
                                r.sequence_number
                            } else {
                                state.max_sequence_number
                            },
                        }
                    } else {
                        state
                    },
                    None => state,
                }
            },
        }
    }
}

/// The state after all of `lines` were read, the first line first.
pub open spec fn legacy_fold(lines: Seq<Seq<char>>, now: Seq<char>) -> LegacyState
    decreases lines.len(),
{
    if lines.len() == 0 {
        LegacyState { records: Seq::empty(), max_sequence_number: 0 }
    } else {
        legacy_line(legacy_fold(lines.drop_last(), now), lines.last(), now)
    }
}

/// What a line of a legacy file is.
#[derive(Debug, Clone, Copy, PartialEq, Eq, Structural)]
pub enum LineKind {
    /// Nothing but whitespace.
    Blank,
    /// A record: a JSON object with a role and a content that are texts
    /// or, where it carries a sequence number, all that a full record
    /// needs. Whether the record is kept is another matter.
    Record,
    /// Anything else.
    Unreadable,
}

/// What the line `line` is.
pub open spec fn line_kind(line: Seq<char>) -> LineKind {
    if is_blank(line) {
        LineKind::Blank
    } else {
        match json_parse(line) {
            None => LineKind::Unreadable,
            Some(doc) => if doc.get("sequence_number"@) is None {
                if doc.text_at("role"@) is Some && doc.text_at("content"@) is Some {
                    LineKind::Record
                } else {
                    LineKind::Unreadable
                }
            } else {
                if decode_record(doc) is Some {
                    LineKind::Record
                } else {
                    LineKind::Unreadable
                }
            },
        }
    }
}

/// How many of `lines` are of the kind `kind`.
pub open spec fn count_of_kind(lines: Seq<Seq<char>>, kind: LineKind) -> nat
    decreases lines.len(),
{
    if lines.len() == 0 {
        0
    } else {
        let before = count_of_kind(lines.drop_last(), kind);
        if line_kind(lines.last()) == kind {
            before + 1
        } else {
            before
        }
    }
}

/// Whether `lines` are a legacy file: at least one of them is a record
/// and none is unreadable.
pub open spec fn is_legacy_file(lines: Seq<Seq<char>>) -> bool {
    count_of_kind(lines, LineKind::Record) > 0 && count_of_kind(lines, LineKind::Unreadable) == 0
}

/// The records of a legacy file, if it can be migrated.
///
/// A file of which at least one record is kept is migrated, whatever else
/// its lines hold. A file of which no record is kept is still migrated,
/// to an empty log, if it is a legacy file throughout: every line that is
/// not blank is a record, and each was left out as an artifact or for its
/// blank content. Any other file cannot be read, and neither can one
/// whose records may not be stored together.
pub open spec fn migrate_legacy(contents: Seq<char>, now: Seq<char>) -> Option<Seq<RecordModel>> {
    let lines = split_lines(contents);
    let records = legacy_fold(lines, now).records;
    if valid_records(records) && (records.len() > 0 || is_legacy_file(lines)) {
        Some(records)
    } else {
        None
    }
}

/// A legacy file whose one line is an artifact is migrated to an empty
/// log: the line is read as a record, and the record is left out.
pub proof fn lemma_artifact_alone_migrates_to_nothing(
    contents: Seq<char>,
    line: Seq<char>,
    now: Seq<char>,
)
    requires
        split_lines(contents) == seq![line],
        !is_blank(line),
        json_parse(line) is Some,
        json_parse(line)->0.get("sequence_number"@) is None,
        json_parse(line)->0.text_at("role"@) is Some,
        json_parse(line)->0.text_at("content"@) is Some,
        is_legacy_artifact(
            json_parse(line)->0.text_at("role"@)->0,
            json_parse(line)->0.text_at("content"@)->0,
        ),
    ensures
        migrate_legacy(contents, now) == Some(Seq::<RecordModel>::empty()),
{
    let lines = seq![line];
    assert(lines.drop_last() =~= Seq::<Seq<char>>::empty());
    assert(lines.last() == line);
    reveal_with_fuel(legacy_fold, 3);
    reveal_with_fuel(count_of_kind, 3);
    assert(legacy_fold(lines, now).records =~= Seq::<RecordModel>::empty());
    assert(line_kind(line) == LineKind::Record);
    assert(count_of_kind(lines, LineKind::Record) == 1);
    assert(count_of_kind(lines, LineKind::Unreadable) == 0);
}

/// Whether a line carries a sequence number of its own.
pub open spec fn is_numbered_line(line: Seq<char>) -> bool {
    !is_blank(line) && json_parse(line) is Some && json_parse(line)->0.get("sequence_number"@)
        is Some
}

/// In a file of bare records the numbers follow the lines: as long as no
/// line carries a sequence number of its own, the records that are read
/// have the numbers 1, 2, 3 and so on, in line order, and the highest
/// number given is their count.
pub proof fn lemma_bare_lines_number_from_one(lines: Seq<Seq<char>>, now: Seq<char>)
    requires
        forall|i: int| 0 <= i < lines.len() ==> !is_numbered_line(#[trigger] lines[i]),
    ensures
        ({
            let state = legacy_fold(lines, now);
            &&& state.max_sequence_number == state.records.len()
            &&& forall|i: int|
                0 <= i < state.records.len() ==> (#[trigger] state.records[i]).sequence_number
                    == i + 1
        }),
    decreases lines.len(),
{
    if lines.len() > 0 {
        let before = lines.drop_last();
        assert forall|i: int| 0 <= i < before.len() implies !is_numbered_line(
            #[trigger] before[i],
        ) by {
            assert(before[i] == lines[i]);
        }
        lemma_bare_lines_number_from_one(before, now);
        assert(!is_numbered_line(lines.last()));
    }
}

/// Puts `record` behind the last record whose number is not larger.
pub fn insert_by_sequence(records: &mut Vec<ChatMessageRecord>, record: ChatMessageRecord)
    ensures
        records_of(final(records)@) == records_of(old(records)@).insert(
            insert_position(records_of(old(records)@), record.sequence_number),
            record@,
        ),
{
    let ghost all = records_of(records@);
    let mut at: usize = records.len();
    assert(all.take(at as int) == all);
    while at > 0 && records[at - 1].sequence_number > record.sequence_number
        invariant
            at <= records.len(),
            all == records_of(records@),
            insert_position(all, record.sequence_number) == insert_position(
                all.take(at as int),
                record.sequence_number,
            ),
        decreases at,
    {
        assert(all.take(at as int).last() == records@[at - 1]@);
        assert(all.take(at as int).drop_last() == all.take(at - 1));
        at = at - 1;
    }
    proof {
        if at > 0 {
            assert(all.take(at as int).last() == records@[at - 1]@);
        }
        assert(records_of(records@.insert(at as int, record)) =~= all.insert(
            at as int,
            record@,
        ));
    }
    records.insert(at, record);
}

/// Reads a bare legacy object as a record under the number
/// `sequence_number`.
pub fn read_bare_record(doc: &JsonValue, now: &str, sequence_number: u64) -> (record: Option<
    ChatMessageRecord,
>)
    ensures
        match record {
            Some(r) => bare_record(doc@, now@, sequence_number) == Some(r@),
            None => bare_record(doc@, now@, sequence_number) is None,
        },
{
    let role = match string_at(doc, "role") {
        Some(t) => t,
        None => {
            return None;
        },
    };
    let content = match string_at(doc, "content") {
        Some(t) => t,
        None => {
            return None;
        },
    };
    let name = string_at(doc, "name");
    let additional_kwargs = match doc.get("additional_kwargs") {
        None => None,
        Some(JsonValue::Null) => None,
        Some(JsonValue::Object(members)) => {
            proof {
                lemma_object_view(*members);
            }
            Some(duplicate_members(members))
        },
        Some(_) => {
            let none: Vec<(String, JsonValue)> = Vec::new();
            assert(members_of(none@) =~= Seq::<(Seq<char>, JsonModel)>::empty());
            Some(none)
        },
    };
    let timestamp = match string_at(doc, "timestamp") {
        Some(t) => t,
        None => String::from_str(now),
    };
    Some(ChatMessageRecord { role, content, name, additional_kwargs, timestamp, sequence_number })
}

/// Whether a record of the given role and content is an artifact of the
/// old writer.
pub fn legacy_artifact(role: &str, content: &str) -> (b: bool)
    ensures
        b == is_legacy_artifact(role@, content@),
{
    str_eq(role, "assistant") && str_contains(content, "user:") && str_contains(
        content,
        "assistant:",
    )
}

/// Reads one more line of a legacy file; hands back the highest sequence
/// number given or met so far, and what the line was.
pub fn read_legacy_line(
    records: &mut Vec<ChatMessageRecord>,
    max_sequence_number: u64,
    line: &str,
    now: &str,
) -> (read: (u64, LineKind))
    ensures
        (LegacyState {
            records: records_of(final(records)@),
            max_sequence_number: read.0,
        }) == legacy_line(
            LegacyState { records: records_of(old(records)@), max_sequence_number },
            line@,
            now@,
        ),
        read.1 == line_kind(line@),
{
    if str_is_blank(line) {
        return (max_sequence_number, LineKind::Blank);
    }
    let doc = match parse_json(line) {
        Ok(doc) => doc,
        Err(_) => {
            return (max_sequence_number, LineKind::Unreadable);
        },
    };
    if doc.get("sequence_number").is_none() {
        let sequence_number = if max_sequence_number >= u64::MAX - 1 {
            u64::MAX
        } else {
            max_sequence_number + 1
        };
        match read_bare_record(&doc, now, sequence_number) {
            Some(record) => {
                if legacy_artifact(record.role.as_str(), record.content.as_str()) || str_is_blank(
                    record.content.as_str(),
                ) || sequence_number == u64::MAX {
                    return (max_sequence_number, LineKind::Record);
                }
                let ghost before = records@;
                records.push(record);
                assert(records_of(before.push(record)) =~= records_of(before).push(record@));
                (sequence_number, LineKind::Record)
            },
            None => (max_sequence_number, LineKind::Unreadable),
        }
    } else {
        match read_record(&doc) {
            Some(record) => {
                if record.sequence_number < 1 || record.sequence_number == u64::MAX
                    || str_is_blank(record.content.as_str()) {
                    return (max_sequence_number, LineKind::Record);
                }
                let sequence_number = record.sequence_number;
                insert_by_sequence(records, record);
                if sequence_number > max_sequence_number {
                    (sequence_number, LineKind::Record)
                } else {
                    (max_sequence_number, LineKind::Record)
                }
            },
            None => (max_sequence_number, LineKind::Unreadable),
        }
    }
}

/// Reads the records of a legacy file: `None` where the file cannot be
/// migrated.
pub fn migrate(contents: &str, now: &str) -> (records: Option<Vec<ChatMessageRecord>>)
    ensures
        match records {
            Some(v) => migrate_legacy(contents@, now@) == Some(records_of(v@)),
            None => migrate_legacy(contents@, now@) is None,
        },
{
    let lines = lines_of(contents);
    let mut records: Vec<ChatMessageRecord> = Vec::new();
    let mut max_sequence_number: u64 = 0;
    let mut any_record = false;
    let mut any_unreadable = false;
    let mut i: usize = 0;
    assert(texts_of(lines@).take(0) =~= Seq::<Seq<char>>::empty());
    assert(records_of(records@) =~= Seq::<RecordModel>::empty());
    while i < lines.len()
        invariant
            i <= lines.len(),
            (LegacyState { records: records_of(records@), max_sequence_number }) == legacy_fold(
                texts_of(lines@).take(i as int),
                now@,
            ),
            any_record == (count_of_kind(texts_of(lines@).take(i as int), LineKind::Record) > 0),
            any_unreadable == (count_of_kind(
                texts_of(lines@).take(i as int),
                LineKind::Unreadable,
            ) > 0),
        decreases lines.len() - i,
    {
        proof {
            let all = texts_of(lines@);
            assert(all.take(i + 1).drop_last() == all.take(i as int));
            assert(all.take(i + 1).last() == lines@[i as int]@);
        }
        let read = read_legacy_line(&mut records, max_sequence_number, lines[i].as_str(), now);
        max_sequence_number = read.0;
        match read.1 {
            LineKind::Record => {
                any_record = true;
            },
            LineKind::Unreadable => {
                any_unreadable = true;
            },
            LineKind::Blank => {},
        }
        i = i + 1;
    }
    assert(texts_of(lines@).take(lines@.len() as int) == texts_of(lines@));
    if records_are_valid(&records) && (records.len() > 0 || (any_record && !any_unreadable)) {
        Some(records)
    } else {
        None
    }
}

} // verus!
