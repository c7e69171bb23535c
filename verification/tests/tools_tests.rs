use rust_agent::agents::agent::{
    outcome_of, Agent, AgentAction, AgentOutput, AgentRunner, SimpleAgent, SimpleAgentRunner,
};
use rust_agent::error::MemoryError;
use rust_agent::tools::tool::{ExampleTool, ExampleToolkit, Tool, Toolkit};
use rust_agent::json::{json_object, json_string, JsonValue};
use rust_agent::models::message::ChatMessage;
use rust_agent::tools::utils::{
    extract_json_object, find_matching_name, find_matching_tool_index, parse_model_output,
    parse_tool_call_from_content,
};

fn tools(names: &[&str]) -> Vec<Box<dyn Tool>> {
    names
        .iter()
        .map(|n| Box::new(ExampleTool::new(n.to_string(), format!("does {}", n))) as Box<dyn Tool>)
        .collect()
}

#[test]
fn exact_name_wins_over_a_partial_match() {
    let t = tools(&["get_weather_forecast", "get_weather"]);
    assert_eq!(find_matching_tool_index(&t, "get_weather"), Some("get_weather".to_string()));
}

#[test]
fn partial_match_ignores_letter_case() {
    let t = tools(&["calculator", "Get_Weather"]);
    assert_eq!(find_matching_tool_index(&t, "WEATHER"), Some("Get_Weather".to_string()));
    assert_eq!(
        find_matching_tool_index(&t, "please use the calculator now"),
        Some("calculator".to_string())
    );
}

#[test]
fn weather_request_finds_the_weather_tool() {
    let t = tools(&["simple_calculate", "天气查询"]);
    assert_eq!(find_matching_tool_index(&t, "what is the weather"), Some("天气查询".to_string()));
}

#[test]
fn calculation_request_needs_a_word_and_an_operator() {
    let t = tools(&["search", "simple_calculate"]);
    assert_eq!(
        find_matching_tool_index(&t, "Calculate 3 + 4"),
        Some("simple_calculate".to_string())
    );
    assert_eq!(
        find_matching_tool_index(&t, "3 plus 4"),
        Some("simple_calculate".to_string())
    );
    assert_eq!(find_matching_tool_index(&t, "please do the sums"), None);
    assert_eq!(find_matching_tool_index(&t, "3 + 4"), None);
}

#[test]
fn no_tool_answers_an_unknown_request() {
    let t = tools(&["search", "lookup"]);
    assert_eq!(find_matching_tool_index(&t, "paint"), None);
    assert_eq!(find_matching_tool_index(&[], "search"), None);
    assert_eq!(find_matching_name(&vec!["a".to_string()], ""), Some("a".to_string()));
}

#[test]
fn example_tool_reports_its_input() {
    let tool = ExampleTool::new("echo".to_string(), "repeats".to_string());
    assert_eq!(tool.name(), "echo");
    assert_eq!(tool.description(), "repeats");
    assert_eq!(tool.invoke("hi"), Ok("Tool echo received input: hi".to_string()));
}

#[test]
fn toolkit_holds_tools_but_hands_out_none() {
    let mut kit = ExampleToolkit::new();
    kit.add_tool(Box::new(ExampleTool::new("a".to_string(), "b".to_string())));
    assert_eq!(kit.tools().len(), 0);
}

#[test]
fn model_output_with_a_tool_call_is_an_action() {
    let output = parse_model_output(
        "{\"call_tool\": {\"name\": \"get_weather\", \"parameters\": {\"city\": \"Paris\"}}}",
    )
    .unwrap();
    match output {
        AgentOutput::Action(action) => {
            assert_eq!(action.tool, "get_weather");
            assert_eq!(action.tool_input, "{\"city\":\"Paris\"}");
            assert_eq!(action.log, "Call tool");
            assert_eq!(action.thought, Some("Call tool based on model output".to_string()));
        }
        other => panic!("unexpected {:?}", other),
    }
    let output = parse_model_output("{\"call_tool\": {\"name\": 7}}").unwrap();
    match output {
        AgentOutput::Action(action) => {
            assert_eq!(action.tool, "unknown");
            assert_eq!(action.tool_input, "{}");
        }
        other => panic!("unexpected {:?}", other),
    }
}

#[test]
fn model_output_with_content_is_a_final_answer() {
    match parse_model_output("{\"content\": \"done\"}").unwrap() {
        AgentOutput::Finish(finish) => {
            assert_eq!(finish.return_values, vec![("answer".to_string(), "done".to_string())]);
        }
        other => panic!("unexpected {:?}", other),
    }
    match parse_model_output("{\"call_tool\": {}, \"content\": 5}").unwrap() {
        AgentOutput::Finish(finish) => {
            assert_eq!(finish.return_values, vec![("answer".to_string(), "".to_string())]);
        }
        other => panic!("unexpected {:?}", other),
    }
}

#[test]
fn model_output_that_is_neither_is_an_error() {
    assert_eq!(parse_model_output("plain text").err(), Some(MemoryError::UnreadableModelOutput));
    assert_eq!(parse_model_output("{\"other\": 1}").err(), Some(MemoryError::UnreadableModelOutput));
    assert_eq!(
        MemoryError::UnreadableModelOutput.message(),
        "Failed to parse model output"
    );
}

struct OneTool;

impl Agent for OneTool {
    fn tools(&self) -> Vec<Box<dyn Tool>> {
        tools(&["echo"])
    }
}

#[test]
fn agent_runs_the_tool_that_an_action_names() {
    let action = AgentAction {
        tool: "echo".to_string(),
        tool_input: "hello".to_string(),
        log: String::new(),
        thought: None,
    };
    assert_eq!(OneTool.execute(&action), Ok("Tool echo received input: hello".to_string()));
    let missing = AgentAction { tool: "other".to_string(), ..action };
    let error = OneTool.execute(&missing).unwrap_err();
    assert_eq!(error, MemoryError::UnknownTool("other".to_string()));
    assert_eq!(error.message(), "The tool other not found");
    let mut simple = SimpleAgent::new();
    simple.add_tool(Box::new(ExampleTool::new("echo".to_string(), "d".to_string())));
    assert_eq!(simple.tools().len(), 0);
}

#[test]
fn simple_runner_decides_by_the_tool_input() {
    let runner = SimpleAgentRunner::new(SimpleAgent::new());
    let with_tool = vec![
        ("tool".to_string(), "search".to_string()),
        ("input".to_string(), "rust".to_string()),
    ];
    match runner.invoke(&with_tool) {
        AgentOutput::Action(action) => {
            assert_eq!(action.tool, "search");
            assert_eq!(action.tool_input, "rust");
            assert_eq!(action.log, "Invoking tool: search");
            assert_eq!(action.thought, Some("Invoking tool".to_string()));
        }
        other => panic!("unexpected {:?}", other),
    }
    match runner.invoke(&vec![("tool".to_string(), "search".to_string())]) {
        AgentOutput::Action(action) => assert_eq!(action.tool_input, "input empty"),
        other => panic!("unexpected {:?}", other),
    }
    match runner.invoke(&vec![("input".to_string(), "hello".to_string())]) {
        AgentOutput::Finish(finish) => assert_eq!(
            finish.return_values,
            vec![("output".to_string(), "Finish processing input: hello".to_string())]
        ),
        other => panic!("unexpected {:?}", other),
    }
    match runner.invoke(&vec![]) {
        AgentOutput::Finish(finish) => assert_eq!(
            finish.return_values,
            vec![("output".to_string(), "Finish processing input: ".to_string())]
        ),
        other => panic!("unexpected {:?}", other),
    }
}

struct Broken;

impl Tool for Broken {
    fn name(&self) -> &str {
        "broken"
    }

    fn description(&self) -> &str {
        "always fails"
    }

    fn invoke(&self, _input: &str) -> Result<String, String> {
        Err("out of order".to_string())
    }
}

struct BrokenAgent;

impl Agent for BrokenAgent {
    fn tools(&self) -> Vec<Box<dyn Tool>> {
        vec![Box::new(Broken)]
    }
}

#[test]
fn a_failing_tool_hands_its_reason_on() {
    let action = AgentAction {
        tool: "broken".to_string(),
        tool_input: String::new(),
        log: String::new(),
        thought: None,
    };
    let error = BrokenAgent.execute(&action).unwrap_err();
    assert_eq!(error, MemoryError::Tool("out of order".to_string()));
    assert_eq!(error.message(), "out of order");
}

#[test]
fn json_object_is_found_inside_a_longer_text() {
    assert_eq!(
        extract_json_object("Sure: {\"a\": {\"b\": 1}} done"),
        Some("{\"a\": {\"b\": 1}}".to_string())
    );
    assert_eq!(extract_json_object("{}"), Some("{}".to_string()));
    assert_eq!(extract_json_object("} {"), None);
    assert_eq!(extract_json_object("{ not json }"), None);
    assert_eq!(extract_json_object("no braces"), None);
    assert_eq!(extract_json_object("{\"a\": 1} and {\"b\": 2}"), None);
    assert_eq!(extract_json_object("é{\"k\": \"天\"}é"), Some("{\"k\": \"天\"}".to_string()));
}

#[test]
fn tool_call_is_read_out_of_an_answer() {
    let content = "I will call it. {\"call_tool\": {\"name\": \"search\", \"parameters\": {\"q\": \"rust\"}}}";
    let action = parse_tool_call_from_content(content).unwrap();
    assert_eq!(action.tool, "search");
    assert_eq!(action.tool_input, "{\"q\":\"rust\"}");
    assert_eq!(action.log, content);
    assert_eq!(action.thought, None);
    let bare = parse_tool_call_from_content("{\"call_tool\": {\"name\": \"ping\"}}").unwrap();
    assert_eq!(bare.tool_input, "{}");
    assert_eq!(
        parse_tool_call_from_content("{\"call_tool\": {\"parameters\": {}}}").err(),
        Some(MemoryError::MissingToolName)
    );
    assert_eq!(
        parse_tool_call_from_content("{\"call_tool\": \"search\"}").err(),
        Some(MemoryError::UnreadableToolCall)
    );
    assert_eq!(
        parse_tool_call_from_content("nothing here").err(),
        Some(MemoryError::UnreadableToolCall)
    );
    assert_eq!(MemoryError::MissingToolName.message(), "Missing tool name");
    assert_eq!(
        MemoryError::UnreadableToolCall.message(),
        "Failed to parse tool call from content"
    );
}

fn dict(role: Option<&str>, content: Option<&str>) -> JsonValue {
    let mut members = Vec::new();
    if let Some(r) = role {
        members.push(("role".to_string(), json_string(r)));
    }
    if let Some(c) = content {
        members.push(("content".to_string(), json_string(c)));
    }
    json_object(members)
}

#[test]
fn message_is_made_from_role_and_content() {
    assert!(matches!(ChatMessage::from_dict(&dict(Some("system"), Some("s"))), ChatMessage::System(_)));
    assert!(matches!(ChatMessage::from_dict(&dict(Some("user"), Some("u"))), ChatMessage::Human(_)));
    assert!(matches!(ChatMessage::from_dict(&dict(Some("tool"), Some("t"))), ChatMessage::ToolMessage(_)));
    assert!(matches!(ChatMessage::from_dict(&dict(Some("assistant"), None)), ChatMessage::AIMessage(_)));
    assert!(matches!(ChatMessage::from_dict(&dict(Some("narrator"), None)), ChatMessage::AIMessage(_)));
    let message = ChatMessage::from_dict(&dict(None, Some("hello")));
    assert!(matches!(message, ChatMessage::AIMessage(_)));
    assert_eq!(message.content().content, "hello");
    assert_eq!(message.content().name, None);
    assert!(message.content().additional_kwargs.is_empty());
    assert_eq!(ChatMessage::from_dict(&JsonValue::Null).content().content, "");
}

struct TwoTools;

impl Agent for TwoTools {
    fn tools(&self) -> Vec<Box<dyn Tool>> {
        vec![
            Box::new(ExampleTool::new("first".to_string(), "one".to_string())),
            Box::new(Broken),
            Box::new(ExampleTool::new("broken".to_string(), "shadowed".to_string())),
        ]
    }
}

#[test]
fn the_first_tool_of_the_name_is_the_one_that_runs() {
    let action = AgentAction {
        tool: "broken".to_string(),
        tool_input: "x".to_string(),
        log: String::new(),
        thought: None,
    };
    assert_eq!(TwoTools.execute(&action), Err(MemoryError::Tool("out of order".to_string())));
    let first = AgentAction { tool: "first".to_string(), ..action };
    assert_eq!(TwoTools.execute(&first), Ok("Tool first received input: x".to_string()));
}

#[test]
fn outcome_hands_on_what_the_tool_answered() {
    assert_eq!(outcome_of("t", Some(Ok("fine".to_string()))), Ok("fine".to_string()));
    assert_eq!(
        outcome_of("t", Some(Err("bad".to_string()))),
        Err(MemoryError::Tool("bad".to_string()))
    );
    assert_eq!(outcome_of("t", None), Err(MemoryError::UnknownTool("t".to_string())));
    let runner = SimpleAgentRunner::new(SimpleAgent::new());
    assert_eq!(runner.agent().tools().len(), 0);
}
