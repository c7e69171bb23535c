//! Finding the tool that a request means, and reading what a model
//! answered.

use vstd::prelude::*;
use vstd::string::*;
use crate::agents::agent::{
    ActionModel,
    AgentAction,
    AgentFinish,
    AgentOutput,
    OutputModel,
    pairs_of,
};
use crate::error::MemoryError;
use crate::json::{
    JsonModel,
    JsonValue,
    json_object,
    json_parse,
    json_text,
    lemma_object_view,
    no_members,
    parse_json,
    to_text,
};
use crate::text::{
    contains_text,
    find_first,
    find_last,
    first_index_of,
    last_index_of,
    lowercase,
    str_contains,
    str_eq,
    string_from_chars,
    texts_of,
    to_chars,
    to_lowercase,
};
use crate::tools::tool::Tool;

verus! {

/// The ways in which a tool's name can answer to a request, from the
/// strictest to the loosest.
#[derive(Debug, Clone, Copy, PartialEq, Eq, Structural)]
pub enum MatchRule {
    /// The name is the request.
    Exact,
    /// One of the two, in lowercase, holds the other.
    Partial,
    /// The name speaks of the weather.
    Weather,
    /// The name speaks of calculating.
    Calculation,
}

/// Whether a lowercase text speaks of the weather.
pub open spec fn mentions_weather(lower: Seq<char>) -> bool {
    contains_text(lower, "weather"@) || contains_text(lower, "天气"@)
}

/// Whether a lowercase text speaks of calculating.
pub open spec fn mentions_calculation(lower: Seq<char>) -> bool {
    contains_text(lower, "calculate"@) || contains_text(lower, "计算"@)
}

/// Whether a lowercase text names an operation in words.
pub open spec fn names_operation(lower: Seq<char>) -> bool {
    ||| contains_text(lower, "plus"@)
    ||| contains_text(lower, "minus"@)
    ||| contains_text(lower, "times"@)
    ||| contains_text(lower, "divided"@)
}

/// Whether a lowercase text holds an operator sign.
pub open spec fn holds_operator(lower: Seq<char>) -> bool {
    ||| contains_text(lower, "+"@)
    ||| contains_text(lower, "-"@)
    ||| contains_text(lower, "*"@)
    ||| contains_text(lower, "/"@)
}

/// Whether a lowercase request asks for a calculation: it has a word for
/// calculating or for an operation, and an operator in signs or in words.
pub open spec fn asks_for_calculation(lower: Seq<char>) -> bool {
    &&& mentions_calculation(lower) || names_operation(lower)
    &&& holds_operator(lower) || names_operation(lower)
}

/// Whether the tool's name answers to the request by the rule.
pub open spec fn rule_holds(rule: MatchRule, name: Seq<char>, requested: Seq<char>) -> bool {
    match rule {
        MatchRule::Exact => name == requested,
        MatchRule::Partial => contains_text(lowercase(name), lowercase(requested))
            || contains_text(lowercase(requested), lowercase(name)),
        MatchRule::Weather => mentions_weather(lowercase(name)),
        MatchRule::Calculation => mentions_calculation(lowercase(name)),
    }
}

/// The index of the first name that answers to the request by the rule,
/// or the number of names where none does.
pub open spec fn first_by_rule(names: Seq<Seq<char>>, rule: MatchRule, requested: Seq<char>)
    -> int
    decreases names.len(),
{
    if names.len() == 0 {
        0
    } else {
        let before = first_by_rule(names.drop_last(), rule, requested);
        if before < names.len() - 1 {
            before
        } else if rule_holds(rule, names.last(), requested) {
            names.len() - 1
        } else {
            names.len() as int
        }
    }
}

/// The name of the tool that a request means. The rules are tried from the
/// strictest to the loosest, and for each the first tool that it finds is
/// the one: a tool of just that name; a tool whose name holds the request
/// or is held by it, letter case aside; for a request about the weather, a
/// weather tool; for a request that asks for a calculation, a calculating
/// tool.
pub open spec fn matching_tool(names: Seq<Seq<char>>, requested: Seq<char>) -> Option<Seq<char>> {
    let lower = lowercase(requested);
    let exact = first_by_rule(names, MatchRule::Exact, requested);
    let partial = first_by_rule(names, MatchRule::Partial, requested);
    let weather = first_by_rule(names, MatchRule::Weather, requested);
    let calculation = first_by_rule(names, MatchRule::Calculation, requested);
    if 0 <= exact < names.len() {
        Some(names[exact])
    } else if 0 <= partial < names.len() {
        Some(names[partial])
    } else if mentions_weather(lower) && 0 <= weather < names.len() {
        Some(names[weather])
    } else if asks_for_calculation(lower) && 0 <= calculation < names.len() {
        Some(names[calculation])
    } else {
        None
    }
}

/// What `first_by_rule` finds: a name that answers by the rule and that
/// no name before it answers by, or nothing where no name answers.
pub proof fn lemma_first_by_rule(names: Seq<Seq<char>>, rule: MatchRule, requested: Seq<char>)
    ensures
        ({
            let at = first_by_rule(names, rule, requested);
            &&& 0 <= at <= names.len()
            &&& at < names.len() ==> rule_holds(rule, names[at], requested)
            &&& forall|j: int| 0 <= j < at ==> !rule_holds(rule, #[trigger] names[j], requested)
        }),
    decreases names.len(),
{
    if names.len() > 0 {
        let before = names.drop_last();
        lemma_first_by_rule(before, rule, requested);
        let at = first_by_rule(names, rule, requested);
        assert forall|j: int| 0 <= j < at implies !rule_holds(
            rule,
            #[trigger] names[j],
            requested,
        ) by {
            if j < before.len() {
                assert(before[j] == names[j]);
            }
        }
        if at < names.len() - 1 {
            assert(before[at] == names[at]);
        }
    }
}

/// A tool of just the requested name wins: where one of the names is the
/// request, the request is the match.
pub proof fn lemma_exact_name_wins(names: Seq<Seq<char>>, requested: Seq<char>, i: int)
    requires
        0 <= i < names.len(),
        names[i] == requested,
    ensures
        matching_tool(names, requested) == Some(requested),
{
    lemma_first_by_rule(names, MatchRule::Exact, requested);
}

/// The match is one of the names, and without names there is no match.
pub proof fn lemma_match_is_a_name(names: Seq<Seq<char>>, requested: Seq<char>)
    ensures
        matching_tool(names, requested) matches Some(name) ==> exists|i: int|
            0 <= i < names.len() && #[trigger] names[i] == name,
        names.len() == 0 ==> matching_tool(names, requested) is None,
{
    lemma_first_by_rule(names, MatchRule::Exact, requested);
    lemma_first_by_rule(names, MatchRule::Partial, requested);
    lemma_first_by_rule(names, MatchRule::Weather, requested);
    lemma_first_by_rule(names, MatchRule::Calculation, requested);
}

/// Whether a lowercase text speaks of the weather.
pub fn speaks_of_weather(lower: &str) -> (b: bool)
    ensures
        b == mentions_weather(lower@),
{
    str_contains(lower, "weather") || str_contains(lower, "天气")
}

/// Whether a lowercase text speaks of calculating.
pub fn speaks_of_calculation(lower: &str) -> (b: bool)
    ensures
        b == mentions_calculation(lower@),
{
    str_contains(lower, "calculate") || str_contains(lower, "计算")
}

/// Whether a lowercase request asks for a calculation.
pub fn wants_calculation(lower: &str) -> (b: bool)
    ensures
        b == asks_for_calculation(lower@),
{
    let in_words = str_contains(lower, "plus") || str_contains(lower, "minus") || str_contains(
        lower,
        "times",
    ) || str_contains(lower, "divided");
    let has_keywords = speaks_of_calculation(lower) || in_words;
    let has_operators = str_contains(lower, "+") || str_contains(lower, "-") || str_contains(
        lower,
        "*",
    ) || str_contains(lower, "/") || in_words;
    has_keywords && has_operators
}

/// Whether the tool's name answers to the request by the rule.
pub fn name_answers(rule: MatchRule, name: &str, requested: &str) -> (b: bool)
    ensures
        b == rule_holds(rule, name@, requested@),
{
    match rule {
        MatchRule::Exact => str_eq(name, requested),
        MatchRule::Partial => {
            let name_lower = to_lowercase(name);
            let requested_lower = to_lowercase(requested);
            str_contains(name_lower.as_str(), requested_lower.as_str()) || str_contains(
                requested_lower.as_str(),
                name_lower.as_str(),
            )
        },
        MatchRule::Weather => speaks_of_weather(to_lowercase(name).as_str()),
        MatchRule::Calculation => speaks_of_calculation(to_lowercase(name).as_str()),
    }
}

/// The index of the first name that answers to the request by the rule.
pub fn find_by_rule(names: &Vec<String>, rule: MatchRule, requested: &str) -> (found: Option<
    usize,
>)
    ensures
        match found {
            Some(i) => i < names.len() && first_by_rule(texts_of(names@), rule, requested@) == i,
            None => first_by_rule(texts_of(names@), rule, requested@) == names.len(),
        },
{
    let ghost all = texts_of(names@);
    let mut i: usize = 0;
    assert(all.take(0) =~= Seq::<Seq<char>>::empty());
    while i < names.len()
        invariant
            i <= names.len(),
            all == texts_of(names@),
            first_by_rule(all.take(i as int), rule, requested@) == i,
        decreases names.len() - i,
    {
        proof {
            assert(all.take(i + 1).drop_last() == all.take(i as int));
            assert(all.take(i + 1).last() == names@[i as int]@);
        }
        if name_answers(rule, names[i].as_str(), requested) {
            proof {
                lemma_first_by_rule_stays(all, rule, requested@, i as int + 1);
            }
            return Some(i);
        }
        i = i + 1;
    }
    assert(all.take(all.len() as int) == all);
    None
}

/// Once a name is found among the first `k`, it is the one that is found
/// among all.
pub proof fn lemma_first_by_rule_stays(
    names: Seq<Seq<char>>,
    rule: MatchRule,
    requested: Seq<char>,
    k: int,
)
    requires
        0 <= k <= names.len(),
        first_by_rule(names.take(k), rule, requested) < k,
    ensures
        first_by_rule(names, rule, requested) == first_by_rule(names.take(k), rule, requested),
    decreases names.len() - k,
{
    if k < names.len() {
        assert(names.take(k + 1).drop_last() == names.take(k));
        lemma_first_by_rule_stays(names, rule, requested, k + 1);
    } else {
        assert(names.take(k) == names);
    }
}

/// The name of the tool that a request means, among the names given.
pub fn find_matching_name(names: &Vec<String>, requested_tool: &str) -> (found: Option<String>)
    ensures
        match found {
            Some(name) => matching_tool(texts_of(names@), requested_tool@) == Some(name@),
            None => matching_tool(texts_of(names@), requested_tool@) is None,
        },
{
    match find_by_rule(names, MatchRule::Exact, requested_tool) {
        Some(i) => {
            return Some(names[i].clone());
        },
        None => {},
    }
    match find_by_rule(names, MatchRule::Partial, requested_tool) {
        Some(i) => {
            return Some(names[i].clone());
        },
        None => {},
    }
    let lower = to_lowercase(requested_tool);
    if speaks_of_weather(lower.as_str()) {
        match find_by_rule(names, MatchRule::Weather, requested_tool) {
            Some(i) => {
                return Some(names[i].clone());
            },
            None => {},
        }
    }
    if wants_calculation(lower.as_str()) {
        match find_by_rule(names, MatchRule::Calculation, requested_tool) {
            Some(i) => {
                return Some(names[i].clone());
            },
            None => {},
        }
    }
    None
}

/// The names of the tools, in order, as each tool gives its own.
pub fn tool_names(tools: &[Box<dyn Tool>]) -> (names: Vec<String>)
    ensures
        names@.len() == tools@.len(),
{
    let mut names: Vec<String> = Vec::new();
    let mut i: usize = 0;
    while i < tools.len()
        invariant
            i <= tools.len(),
            names@.len() == i,
        decreases tools.len() - i,
    {
        names.push(String::from_str(tools[i].name()));
        i = i + 1;
    }
    names
}

/// Whether `found` is the tool that a request means among `names`.
pub open spec fn is_matching_tool(
    names: Seq<Seq<char>>,
    requested: Seq<char>,
    found: Option<String>,
) -> bool {
    match found {
        Some(name) => matching_tool(names, requested) == Some(name@),
        None => matching_tool(names, requested) is None,
    }
}

/// The name of the tool that a request means, among the tools given: each
/// tool is asked for its name once, and the request is matched against
/// those names.
pub fn find_matching_tool_index(tools: &[Box<dyn Tool>], requested_tool: &str) -> (found: Option<
    String,
>)
    ensures
        exists|names: Seq<Seq<char>>|
            names.len() == tools@.len() && #[trigger] is_matching_tool(
                names,
                requested_tool@,
                found,
            ),
        tools@.len() == 0 ==> found is None,
{
    let names = tool_names(tools);
    let found = find_matching_name(&names, requested_tool);
    proof {
        lemma_match_is_a_name(texts_of(names@), requested_tool@);
    }
    assert(is_matching_tool(texts_of(names@), requested_tool@, found));
    found
}

/// The tool call that a model's answer holds: the member `call_tool`, if
/// it has a `name`.
pub open spec fn tool_call_of(doc: JsonModel) -> Option<JsonModel> {
    match doc.get("call_tool"@) {
        Some(call) => if call.get("name"@) is Some {
            Some(call)
        } else {
            None
        },
        None => None,
    }
}

/// The parameters of a tool call: its member `parameters`, or an empty
/// object.
pub open spec fn call_parameters(call: JsonModel) -> JsonModel {
    match call.get("parameters"@) {
        Some(p) => p,
        None => JsonModel::Object(Seq::empty()),
    }
}

/// The action that a tool call stands for: the tool is the `name` of the
/// call, or `unknown` where that is no string; its input is the JSON text
/// of the parameters.
pub open spec fn action_of_call(call: JsonModel) -> ActionModel {
    ActionModel {
        tool: match call.text_at("name"@) {
            Some(t) => t,
            None => "unknown"@,
        },
        tool_input: json_text(call_parameters(call)),
        log: "Call tool"@,
        thought: Some("Call tool based on model output"@),
    }
}

/// The final answer that a model's answer holds: its member `content`,
/// read as a text, the empty one where it is no string.
pub open spec fn final_answer_of(doc: JsonModel) -> Option<Seq<char>> {
    match doc.get("content"@) {
        Some(c) => match c.as_text() {
            Some(t) => Some(t),
            None => Some(Seq::empty()),
        },
        None => None,
    }
}

/// What a model's answer means: a tool call, a final answer, or nothing
/// that can be read.
pub open spec fn model_output(content: Seq<char>) -> Option<OutputModel> {
    match json_parse(content) {
        Some(doc) => match tool_call_of(doc) {
            Some(call) => Some(OutputModel::Action(action_of_call(call))),
            None => match final_answer_of(doc) {
                Some(answer) => Some(OutputModel::Finish(seq![("answer"@, answer)])),
                None => None,
            },
        },
        None => None,
    }
}

/// The output for a tool call whose parameters were written as
/// `tool_input`.
pub fn action_for_call(call: &JsonValue, tool_input: String) -> (output: AgentOutput)
    ensures
        output@ == OutputModel::Action(
            ActionModel { tool_input: tool_input@, ..action_of_call(call@) },
        ),
{
    let tool = match call.str_at("name") {
        Some(t) => String::from_str(t),
        None => String::from_str("unknown"),
    };
    AgentOutput::Action(
        AgentAction {
            tool,
            tool_input,
            log: String::from_str("Call tool"),
            thought: Some(String::from_str("Call tool based on model output")),
        },
    )
}

/// The output for a final answer.
pub fn finish_with(answer: &str) -> (output: AgentOutput)
    ensures
        output@ == OutputModel::Finish(seq![("answer"@, answer@)]),
{
    let mut return_values: Vec<(String, String)> = Vec::new();
    let name = String::from_str("answer");
    let value = String::from_str(answer);
    return_values.push((name, value));
    assert(pairs_of(return_values@) =~= seq![(name@, value@)]);
    AgentOutput::Finish(AgentFinish { return_values })
}

/// Reads what a model answered: a tool call, where the answer is a JSON
/// object with a `call_tool` that has a `name`; otherwise a final answer,
/// where it has a `content`. Anything else cannot be read. The parameters
/// of a tool call are handed on as JSON text.
pub fn parse_model_output(content: &str) -> (output: Result<AgentOutput, MemoryError>)
    ensures
        match output {
            Ok(out) => model_output(content@) == Some(out@),
            Err(e) => e == MemoryError::UnreadableModelOutput && model_output(content@) is None,
        },
{
    let doc = match parse_json(content) {
        Ok(doc) => doc,
        Err(_) => {
            return Err(MemoryError::UnreadableModelOutput);
        },
    };
    match doc.get("call_tool") {
        Some(call) => {
            if call.get("name").is_some() {
                let tool_input = match call.get("parameters") {
                    Some(p) => to_text(p),
                    None => to_text(&json_object(no_members())),
                };
                return Ok(action_for_call(call, tool_input));
            }
        },
        None => {},
    }
    match doc.get("content") {
        Some(c) => match c.as_str() {
            Some(t) => Ok(finish_with(t)),
            None => {
                proof {
                    reveal_strlit("");
                }
                assert(""@ =~= Seq::<char>::empty());
                Ok(finish_with(""))
            },
        },
        None => Err(MemoryError::UnreadableModelOutput),
    }
}

/// The part of a text from its first `{` to its last `}`, both included,
/// if the one comes before the other.
pub open spec fn braced_part(content: Seq<char>) -> Option<Seq<char>> {
    let start = first_index_of(content, '{');
    let end = last_index_of(content, '}');
    if 0 <= start < end < content.len() {
        Some(content.subrange(start, end + 1))
    } else {
        None
    }
}

/// The JSON object that a text holds: its braced part, if that is the
/// text of a JSON object.
pub open spec fn json_object_in(content: Seq<char>) -> Option<Seq<char>> {
    match braced_part(content) {
        Some(part) => match json_parse(part) {
            Some(JsonModel::Object(_)) => Some(part),
            _ => None,
        },
        None => None,
    }
}

/// The tool call that a text holds: the member `call_tool` of its JSON
/// object, if that is an object.
pub open spec fn tool_call_in(content: Seq<char>) -> Option<JsonModel> {
    match json_object_in(content) {
        Some(part) => match json_parse(part)->0.get("call_tool"@) {
            Some(JsonModel::Object(members)) => Some(JsonModel::Object(members)),
            _ => None,
        },
        None => None,
    }
}

/// Finds the JSON object in a text.
pub fn extract_json_object(content: &str) -> (found: Option<String>)
    ensures
        match found {
            Some(part) => json_object_in(content@) == Some(part@),
            None => json_object_in(content@) is None,
        },
{
    let chars = to_chars(content);
    let start = match find_first(&chars, '{') {
        Some(i) => i,
        None => {
            return None;
        },
    };
    let end = match find_last(&chars, '}') {
        Some(i) => i,
        None => {
            return None;
        },
    };
    if end <= start {
        return None;
    }
    let part = string_from_chars(&chars, start, end + 1);
    match parse_json(part.as_str()) {
        Ok(JsonValue::Object(_)) => Some(part),
        _ => None,
    }
}

/// Reads a tool call out of what a model answered: the text may hold more
/// than the JSON object of the call. The action names the tool of the
/// call and hands its parameters on as JSON text; the whole answer is its
/// log. A call without the name of a tool, and a text without a call, is
/// an error.
pub fn parse_tool_call_from_content(content: &str) -> (action: Result<AgentAction, MemoryError>)
    ensures
        match action {
            Ok(a) => {
                &&& tool_call_in(content@) matches Some(call)
                &&& call.text_at("name"@) == Some(a@.tool)
                &&& a@.tool_input == json_text(call_parameters(call))
                &&& a@.log == content@
                &&& a@.thought is None
            },
            Err(e) => {
                &&& e == MemoryError::UnreadableToolCall <==> tool_call_in(content@) is None
                &&& e == MemoryError::MissingToolName <==> tool_call_in(content@) is Some
                    && tool_call_in(content@)->0.text_at("name"@) is None
                &&& e == MemoryError::UnreadableToolCall || e == MemoryError::MissingToolName
            },
        },
{
    let part = match extract_json_object(content) {
        Some(part) => part,
        None => {
            return Err(MemoryError::UnreadableToolCall);
        },
    };
    let doc = match parse_json(part.as_str()) {
        Ok(doc) => doc,
        Err(_) => {
            return Err(MemoryError::UnreadableToolCall);
        },
    };
    let call = match doc.get("call_tool") {
        Some(call) => call,
        None => {
            return Err(MemoryError::UnreadableToolCall);
        },
    };
    match call {
        JsonValue::Object(members) => {
            proof {
                lemma_object_view(*members);
            }
        },
        _ => {
            return Err(MemoryError::UnreadableToolCall);
        },
    }
    let tool = match call.str_at("name") {
        Some(t) => String::from_str(t),
        None => {
            return Err(MemoryError::MissingToolName);
        },
    };
    let tool_input = match call.get("parameters") {
        Some(p) => to_text(p),
        None => to_text(&json_object(no_members())),
    };
    Ok(AgentAction { tool, tool_input, log: String::from_str(content), thought: None })
}

} // verus!
