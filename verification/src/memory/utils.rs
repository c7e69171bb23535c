//! Token estimation and small helpers shared by the memory components.

use vstd::prelude::*;
use vstd::string::*;
use crate::error::MemoryError;
use crate::json::{
    JsonModel,
    JsonValue,
    json_parse,
    json_text,
    lemma_array_view,
    lemma_object_view,
    members_of,
    models_of,
    parse_json,
    to_text,
};
use crate::text::to_chars;

verus! {

/// Whether `c` lies in one of the logographic ranges that count as one
/// token each.
pub open spec fn is_wide_glyph(c: char) -> bool {
    let n = c as u32;
    ||| 0x4E00 <= n <= 0x9FFF
    ||| 0x3400 <= n <= 0x4DBF
    ||| 0x20000 <= n <= 0x2A6DF
    ||| 0x2A700 <= n <= 0x2B73F
    ||| 0x2B740 <= n <= 0x2B81F
    ||| 0x2B820 <= n <= 0x2CEAF
    ||| 0xF900 <= n <= 0xFAFF
    ||| 0x2F800 <= n <= 0x2FA1F
}

/// Number of wide glyphs in `s`.
pub open spec fn wide_glyph_count(s: Seq<char>) -> nat {
    s.filter(|c: char| is_wide_glyph(c)).len()
}

/// The token estimate of a text: every wide glyph counts one, the other
/// characters count one per four, rounded down.
pub open spec fn text_token_estimate(s: Seq<char>) -> nat {
    (wide_glyph_count(s) + (s.len() - wide_glyph_count(s)) / 4) as nat
}

/// Whether `c` is a wide glyph.
fn wide_glyph(c: char) -> (b: bool)
    ensures
        b == is_wide_glyph(c),
{
    let n: u32 = c as u32;
    (0x4E00 <= n && n <= 0x9FFF) || (0x3400 <= n && n <= 0x4DBF) || (0x20000 <= n && n
        <= 0x2A6DF) || (0x2A700 <= n && n <= 0x2B73F) || (0x2B740 <= n && n <= 0x2B81F) || (
    0x2B820 <= n && n <= 0x2CEAF) || (0xF900 <= n && n <= 0xFAFF) || (0x2F800 <= n && n
        <= 0x2FA1F)
}

/// Estimates the token cost of `text`.
pub fn estimate_text_tokens(text: &str) -> (count: usize)
    ensures
        count == text_token_estimate(text@),
{
    let total: usize = text.unicode_len();
    let mut wide: usize = 0;
    for c in it: text.chars()
        invariant
            it.seq() == text@,
            total == text@.len(),
            wide == wide_glyph_count(text@.take(it.index() as int)),
            wide <= it.index(),
    {
        proof {
            let k = it.index() as int;
            assert(text@.take(k + 1) == text@.take(k).push(text@[k]));
            lemma_wide_glyph_count_push(text@.take(k), text@[k]);
        }
        if wide_glyph(c) {
            wide = wide + 1;
        }
    }
    assert(text@.take(text@.len() as int) == text@);
    wide + (total - wide) / 4
}

/// Appending one character raises the wide-glyph count by one exactly when
/// the character is a wide glyph.
pub proof fn lemma_wide_glyph_count_push(s: Seq<char>, c: char)
    ensures
        wide_glyph_count(s.push(c)) == wide_glyph_count(s) + if is_wide_glyph(c) {
            1nat
        } else {
            0nat
        },
{
    let pred = |c: char| is_wide_glyph(c);
    assert(s.push(c).drop_last() == s);
    reveal(Seq::filter);
}

/// A longer text never has a smaller estimate than a part of it: putting
/// `b` behind `a` gives at least the estimate of `a` and at least that of
/// `b`.
pub proof fn lemma_estimate_monotone(a: Seq<char>, b: Seq<char>)
    ensures
        text_token_estimate(a + b) >= text_token_estimate(a),
        text_token_estimate(a + b) >= text_token_estimate(b),
{
    let wide = |c: char| is_wide_glyph(c);
    Seq::filter_distributes_over_add(a, b, wide);
    a.lemma_filter_len(wide);
    b.lemma_filter_len(wide);
}

/// Estimates the token cost of `text` as a quarter of its length in
/// bytes, rounded down.
pub fn estimate_token_count(text: &str) -> (count: usize)
    ensures
        count == text.spec_bytes().len() / 4,
{
    text.as_bytes().len() / 4
}

/// The value of a decimal digit, `0` to `9`.
pub open spec fn digit_value(c: char) -> Option<nat> {
    let code = c as u32;
    if 48 <= code <= 57 {
        Some((code - 48) as nat)
    } else {
        None
    }
}

/// The number that a run of decimal digits stands for; `None` where a
/// character is no digit.
pub open spec fn digits_value(s: Seq<char>) -> Option<nat>
    decreases s.len(),
{
    if s.len() == 0 {
        Some(0)
    } else {
        match (digits_value(s.drop_last()), digit_value(s.last())) {
            (Some(high), Some(low)) => Some(high * 10 + low),
            _ => None,
        }
    }
}

/// The number that a text stands for: an optional `+` and then one or more
/// decimal digits, nothing else.
pub open spec fn parse_decimal(s: Seq<char>) -> Option<nat> {
    let digits = if s.len() > 0 && s[0] == '+' {
        s.drop_first()
    } else {
        s
    };
    if digits.len() == 0 {
        None
    } else {
        digits_value(digits)
    }
}

/// A run of digits stands for at least as much as any of its beginnings.
pub proof fn lemma_digits_value_prefix(s: Seq<char>, k: int)
    requires
        0 <= k <= s.len(),
        digits_value(s) is Some,
    ensures
        digits_value(s.take(k)) is Some,
        digits_value(s.take(k))->0 <= digits_value(s)->0,
    decreases s.len(),
{
    if k == s.len() {
        assert(s.take(k) == s);
    } else {
        lemma_digits_value_prefix(s.drop_last(), k);
        assert(s.drop_last().take(k) == s.take(k));
    }
}

/// Reads a `usize` from its decimal text: `None` where the text is no
/// number or the number does not fit.
pub fn parse_usize(text: &str) -> (parsed: Option<usize>)
    ensures
        parsed == match parse_decimal(text@) {
            Some(n) => if n <= usize::MAX {
                Some(n as usize)
            } else {
                None
            },
            None => None,
        },
{
    let chars = to_chars(text);
    let start: usize = if chars.len() > 0 && chars[0] == '+' {
        1
    } else {
        0
    };
    if start == chars.len() {
        return None;
    }
    let ghost digits = chars@.skip(start as int);
    assert(digits == if text@.len() > 0 && text@[0] == '+' {
        text@.drop_first()
    } else {
        text@
    });
    let mut value: usize = 0;
    let mut i: usize = start;
    assert(digits.take(0) =~= Seq::<char>::empty());
    while i < chars.len()
        invariant
            start <= i <= chars.len(),
            digits == chars@.skip(start as int),
            parse_decimal(text@) == digits_value(digits),
            digits_value(digits.take(i - start)) == Some(value as nat),
        decreases chars.len() - i,
    {
        let c = chars[i];
        let code: u32 = c as u32;
        proof {
            assert(digits.take(i - start + 1).drop_last() == digits.take(i - start));
            assert(digits.take(i - start + 1).last() == c);
        }
        if code < 48 || code > 57 {
            proof {
                assert(digit_value(c) is None);
                if digits_value(digits) is Some {
                    lemma_digits_value_prefix(digits, i - start + 1);
                }
            }
            return None;
        }
        let low: usize = (code - 48) as usize;
        let next = match value.checked_mul(10) {
            Some(high) => high.checked_add(low),
            None => None,
        };
        match next {
            Some(n) => {
                value = n;
            },
            None => {
                proof {
                    if digits_value(digits) is Some {
                        lemma_digits_value_prefix(digits, i - start + 1);
                    }
                }
                return None;
            },
        }
        i = i + 1;
    }
    assert(digits.take(digits.len() as int) == digits);
    Some(value)
}

/// `std::path::PathBuf`, known by its name only.
#[verifier::external_type_specification]
#[verifier::external_body]
pub struct ExPathBuf(std::path::PathBuf);

/// `std::path::Path`, known by its name only.
#[verifier::external_type_specification]
#[verifier::external_body]
pub struct ExPath(std::path::Path);

/// `Path::join`: the path of `name` under `dir`. Nothing is claimed of the
/// result.
#[verifier::external_body]
fn path_join(dir: &std::path::Path, name: &str) -> std::path::PathBuf {
    dir.join(name)
}

/// `PathBuf::from` on a text. Nothing is claimed of the result.
#[verifier::external_body]
fn path_from(text: &str) -> std::path::PathBuf {
    std::path::PathBuf::from(text)
}

/// `Path::to_str`, on the path of a `PathBuf`: the path as a text, if it is
/// valid Unicode. Nothing is claimed of the result.
#[verifier::external_body]
pub(crate) fn path_text(path: &std::path::PathBuf) -> Option<String> {
    path.to_str().map(str::to_owned)
}

/// The name of a session's file: the identifier, an underscore, the
/// suffix.
pub open spec fn spec_session_file_name(session_id: Seq<char>, suffix: Seq<char>) -> Seq<char> {
    session_id + "_"@ + suffix
}

/// The name of a session's file.
pub fn session_file_name(session_id: &str, suffix: &str) -> (name: String)
    ensures
        name@ == spec_session_file_name(session_id@, suffix@),
{
    let mut name = String::from_str(session_id);
    name.append("_");
    name.append(suffix);
    name
}

/// The path of a session's file: its name, under `data_dir`.
pub fn get_session_file_path(data_dir: &std::path::Path, session_id: &str, suffix: &str)
    -> std::path::PathBuf {
    let name = session_file_name(session_id, suffix);
    path_join(data_dir, name.as_str())
}

/// The directory that holds the memory's files where none is configured.
pub open spec fn default_data_dir() -> Seq<char> {
    "./data/memory"@
}

/// The text of the data directory: the configured one, or the default.
pub fn data_dir_text(configured: Option<&str>) -> (dir: String)
    ensures
        dir@ == match configured {
            Some(d) => d@,
            None => default_data_dir(),
        },
{
    match configured {
        Some(d) => String::from_str(d),
        None => String::from_str("./data/memory"),
    }
}

/// The data directory, given what the environment holds for it.
pub fn get_data_dir_from_env(configured: Option<&str>) -> std::path::PathBuf {
    let dir = data_dir_text(configured);
    path_from(dir.as_str())
}

/// The compaction threshold, given what the environment holds for it:
/// the number it spells, or 3500 where it holds nothing or no number.
pub fn get_summary_threshold_from_env(configured: Option<&str>) -> (threshold: usize)
    ensures
        threshold == match configured {
            Some(text) => match parse_decimal(text@) {
                Some(n) => if n <= usize::MAX {
                    n as usize
                } else {
                    3500
                },
                None => 3500,
            },
            None => 3500,
        },
{
    match configured {
        Some(text) => match parse_usize(text) {
            Some(n) => n,
            None => 3500,
        },
        None => 3500,
    }
}

/// The number of records that count as recent, given what the environment
/// holds for it: the number it spells, or 10 where it holds nothing or no
/// number.
pub fn get_recent_messages_count_from_env(configured: Option<&str>) -> (count: usize)
    ensures
        count == match configured {
            Some(text) => match parse_decimal(text@) {
                Some(n) => if n <= usize::MAX {
                    n as usize
                } else {
                    10
                },
                None => 10,
            },
            None => 10,
        },
{
    match configured {
        Some(text) => match parse_usize(text) {
            Some(n) => n,
            None => 10,
        },
        None => 10,
    }
}

/// `chrono::ParseError`, known by its name only.
#[verifier::external_type_specification]
#[verifier::external_body]
pub struct ExParseError(chrono::ParseError);

/// A point in time: the seconds since the start of 1970 in UTC, and the
/// nanoseconds into that second.
#[derive(Debug, Clone, Copy, PartialEq, Eq, Structural)]
pub struct Timestamp {
    pub seconds: i64,
    pub nanoseconds: u32,
}

/// The point in time that `chrono` reads from a text, if the text is a
/// time in the relaxed form of RFC 3339 that it accepts.
pub uninterp spec fn timestamp_of(text: Seq<char>) -> Option<Timestamp>;

/// `str::parse` for `chrono::DateTime<Utc>`, with what it reads copied by
/// `timestamp` and `timestamp_subsec_nanos`. The contract only names the
/// result: the same text always gives the same point in time, and a text
/// that is no time gives the error.
#[verifier::external_body]
fn read_timestamp(text: &str) -> (time: Result<Timestamp, chrono::ParseError>)
    ensures
        match time {
            Ok(t) => timestamp_of(text@) == Some(t),
            Err(_) => timestamp_of(text@) is None,
        },
{
    match text.parse::<chrono::DateTime<chrono::Utc>>() {
        Ok(t) => Ok(Timestamp { seconds: t.timestamp(), nanoseconds: t.timestamp_subsec_nanos() }),
        Err(e) => Err(e),
    }
}

/// Reads a time from its text, which is to be in RFC 3339.
pub fn parse_timestamp(timestamp: &str) -> (time: Result<Timestamp, MemoryError>)
    ensures
        match time {
            Ok(t) => timestamp_of(timestamp@) == Some(t),
            Err(e) => e == MemoryError::InvalidTimestamp && timestamp_of(timestamp@) is None,
        },
{
    match read_timestamp(timestamp) {
        Ok(time) => Ok(time),
        Err(_) => Err(MemoryError::InvalidTimestamp),
    }
}

/// `uuid::Uuid::new_v4().to_string()`: a random identifier in its
/// hyphenated form, which always has 36 characters. The random source of
/// the system is taken to work; `uuid` does not return where it fails.
#[verifier::external_body]
pub fn generate_session_id() -> (id: String)
    ensures
        id@.len() == 36,
{
    uuid::Uuid::new_v4().to_string()
}

/// Writes a tree as compact JSON text; this always succeeds.
pub fn serialize_to_string(value: &JsonValue) -> (text: Result<String, MemoryError>)
    ensures
        text matches Ok(t) && t@ == json_text(value@),
{
    Ok(to_text(value))
}

/// Reads a tree from JSON text.
pub fn deserialize_from_str(json_str: &str) -> (value: Result<JsonValue, MemoryError>)
    ensures
        match value {
            Ok(v) => json_parse(json_str@) == Some(v@),
            Err(e) => e == MemoryError::InvalidJson && json_parse(json_str@) is None,
        },
{
    match parse_json(json_str) {
        Ok(v) => Ok(v),
        Err(_) => Err(MemoryError::InvalidJson),
    }
}

/// The sum of `a` and `b`, or the largest `usize` where the sum is larger.
pub open spec fn capped_sum(a: nat, b: nat) -> nat {
    if a + b > usize::MAX {
        usize::MAX as nat
    } else {
        a + b
    }
}

/// The estimated token cost of a JSON tree. A string costs a quarter of
/// its length in bytes; a number, a boolean and `null` cost 1; an array
/// costs 2 and, for each item, the item and 1; an object costs 2 and, for
/// each member, its name, its value and 2. Sums stop at the largest
/// `usize`.
pub open spec fn json_token_estimate(tree: JsonModel) -> nat
    decreases tree,
{
    match tree {
        JsonModel::String(s) => vstd::utf8::encode_utf8(s).len() / 4,
        JsonModel::Number(_) => 1,
        JsonModel::Bool(_) => 1,
        JsonModel::Null => 1,
        JsonModel::Array(items) => items_token_estimate(items, items.len()),
        JsonModel::Object(members) => members_token_estimate(members, members.len()),
    }
}

/// The cost of an array, counting only its first `n` items.
pub open spec fn items_token_estimate(items: Seq<JsonModel>, n: nat) -> nat
    decreases items, n,
{
    if n == 0 || n > items.len() {
        2
    } else {
        capped_sum(
            items_token_estimate(items, (n - 1) as nat),
            capped_sum(json_token_estimate(items[n - 1]), 1),
        )
    }
}

/// The cost of an object, counting only its first `n` members.
pub open spec fn members_token_estimate(members: Seq<(Seq<char>, JsonModel)>, n: nat) -> nat
    decreases members, n,
{
    if n == 0 || n > members.len() {
        2
    } else {
        capped_sum(
            capped_sum(
                members_token_estimate(members, (n - 1) as nat),
                capped_sum(vstd::utf8::encode_utf8(members[n - 1].0).len() / 4, 1),
            ),
            capped_sum(json_token_estimate(members[n - 1].1), 1),
        )
    }
}

/// Estimates the token cost of a JSON tree.
pub fn estimate_json_token_count(value: &JsonValue) -> (count: usize)
    ensures
        count == json_token_estimate(value@),
    decreases value,
{
    match value {
        JsonValue::String(s) => estimate_token_count(s.as_str()),
        JsonValue::Number(_) => 1,
        JsonValue::Bool(_) => 1,
        JsonValue::Null => 1,
        JsonValue::Array(items) => {
            let mut count: usize = 2;
            let mut i: usize = 0;
            while i < items.len()
                invariant
                    i <= items.len(),
                    value is Array,
                    value->Array_0 == *items,
                    count == items_token_estimate(models_of(items@), i as nat),
                decreases items.len() - i,
            {
                proof {
                    vstd::std_specs::vec::axiom_vec_index_decreases(*items, i as int);
                }
                let item = estimate_json_token_count(&items[i]);
                count = count.saturating_add(item.saturating_add(1));
                i = i + 1;
            }
            proof {
                lemma_array_view(*items);
            }
            count
        },
        JsonValue::Object(members) => {
            let mut count: usize = 2;
            let mut i: usize = 0;
            while i < members.len()
                invariant
                    i <= members.len(),
                    value is Object,
                    value->Object_0 == *members,
                    count == members_token_estimate(members_of(members@), i as nat),
                decreases members.len() - i,
            {
                proof {
                    vstd::std_specs::vec::axiom_vec_index_decreases(*members, i as int);
                }
                let name = estimate_token_count(members[i].0.as_str());
                let member = estimate_json_token_count(&members[i].1);
                count = count.saturating_add(name.saturating_add(1));
                count = count.saturating_add(member.saturating_add(1));
                i = i + 1;
            }
            proof {
                lemma_object_view(*members);
            }
            count
        },
    }
}

} // verus!
