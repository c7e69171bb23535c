//! The agent interface and a simple implementation.

use vstd::prelude::*;
use vstd::string::*;
use crate::error::MemoryError;
use crate::memory::message_history::opt_text;
use crate::text::{str_eq, texts_of};
use crate::tools::tool::{Tool, tool_labels_of};
use crate::tools::utils::{MatchRule, find_by_rule, first_by_rule, tool_names};

verus! {

/// A decision to call a tool.
#[derive(Debug, Clone, PartialEq, Eq)]
pub struct AgentAction {
    pub tool: String,
    pub tool_input: String,
    pub log: String,
    pub thought: Option<String>,
}

/// The end of a run, with its named results.
#[derive(Debug, Clone, PartialEq, Eq)]
pub struct AgentFinish {
    pub return_values: Vec<(String, String)>,
}

/// What an agent hands back after one step.
#[derive(Debug, Clone, PartialEq, Eq)]
pub enum AgentOutput {
    Action(AgentAction),
    Finish(AgentFinish),
}

/// The model of an [`AgentAction`].
pub struct ActionModel {
    pub tool: Seq<char>,
    pub tool_input: Seq<char>,
    pub log: Seq<char>,
    pub thought: Option<Seq<char>>,
}

impl View for AgentAction {
    type V = ActionModel;

    open spec fn view(&self) -> ActionModel {
        ActionModel {
            tool: self.tool@,
            tool_input: self.tool_input@,
            log: self.log@,
            thought: opt_text(self.thought),
        }
    }
}

/// Named texts, as pairs of texts.
pub open spec fn pairs_of(v: Seq<(String, String)>) -> Seq<(Seq<char>, Seq<char>)> {
    Seq::new(v.len(), |i: int| (v[i].0@, v[i].1@))
}

/// The model of an [`AgentOutput`].
pub enum OutputModel {
    Action(ActionModel),
    Finish(Seq<(Seq<char>, Seq<char>)>),
}

impl View for AgentOutput {
    type V = OutputModel;

    open spec fn view(&self) -> OutputModel {
        match self {
            AgentOutput::Action(a) => OutputModel::Action(a@),
            AgentOutput::Finish(f) => OutputModel::Finish(pairs_of(f.return_values@)),
        }
    }
}

/// The value of the first pair named `key`.
pub open spec fn pair_value(pairs: Seq<(Seq<char>, Seq<char>)>, key: Seq<char>) -> Option<
    Seq<char>,
>
    decreases pairs.len(),
{
    if pairs.len() == 0 {
        None
    } else if pairs[0].0 == key {
        Some(pairs[0].1)
    } else {
        pair_value(pairs.drop_first(), key)
    }
}

/// The value of the first pair named `key`.
pub fn get_pair<'a>(pairs: &'a Vec<(String, String)>, key: &str) -> (value: Option<&'a str>)
    ensures
        match value {
            Some(v) => pair_value(pairs_of(pairs@), key@) == Some(v@),
            None => pair_value(pairs_of(pairs@), key@) is None,
        },
{
    let ghost all = pairs_of(pairs@);
    let mut i: usize = 0;
    assert(all.skip(0) == all);
    while i < pairs.len()
        invariant
            i <= pairs.len(),
            all == pairs_of(pairs@),
            pair_value(all, key@) == pair_value(all.skip(i as int), key@),
        decreases pairs.len() - i,
    {
        assert(all.skip(i as int)[0] == (pairs@[i as int].0@, pairs@[i as int].1@));
        assert(all.skip(i as int).drop_first() == all.skip(i + 1));
        if str_eq(pairs[i].0.as_str(), key) {
            return Some(pairs[i].1.as_str());
        }
        i = i + 1;
    }
    None
}

/// What a simple run decides for its inputs: with a `tool` among them, to
/// call that tool on the `input`; otherwise to finish, with a sentence
/// about the `input` as the `output`.
pub open spec fn simple_decision(inputs: Seq<(Seq<char>, Seq<char>)>) -> OutputModel {
    match pair_value(inputs, "tool"@) {
        Some(tool) => OutputModel::Action(
            ActionModel {
                tool,
                tool_input: match pair_value(inputs, "input"@) {
                    Some(t) => t,
                    None => "input empty"@,
                },
                log: "Invoking tool: "@ + tool,
                thought: Some("Invoking tool"@),
            },
        ),
        None => OutputModel::Finish(
            seq![
                (
                    "output"@,
                    "Finish processing input: "@ + match pair_value(inputs, "input"@) {
                        Some(t) => t,
                        None => Seq::empty(),
                    },
                ),
            ],
        ),
    }
}

/// Whether `result` is what running a tool comes to, given what its tool
/// answered: `answer` is `None` where no tool has the name `tool`, which
/// is an error that names the tool; an answer is handed on as it is; a
/// failure is handed on as the tool's failure, with its reason.
pub open spec fn is_outcome(
    tool: Seq<char>,
    answer: Option<Result<String, String>>,
    result: Result<String, MemoryError>,
) -> bool {
    match answer {
        None => result matches Err(MemoryError::UnknownTool(name)) && name@ == tool,
        Some(Ok(text)) => result matches Ok(handed) && handed@ == text@,
        Some(Err(reason)) => result matches Err(MemoryError::Tool(handed)) && handed@ == reason@,
    }
}

/// Whether `result` is what executing an action on the tool `tool` comes
/// to, for tools that give the names `names` and of which the one asked
/// answers `answer`: the first tool of that name is the one asked, and
/// none is asked where none has the name.
pub open spec fn is_execution(
    names: Seq<Seq<char>>,
    tool: Seq<char>,
    answer: Option<Result<String, String>>,
    result: Result<String, MemoryError>,
) -> bool {
    &&& (answer is None) == (first_by_rule(names, MatchRule::Exact, tool) >= names.len())
    &&& is_outcome(tool, answer, result)
}

/// What running a tool comes to, given what the tool answered, or `None`
/// where no tool has the name `tool`.
pub fn outcome_of(tool: &str, answer: Option<Result<String, String>>) -> (result: Result<
    String,
    MemoryError,
>)
    ensures
        is_outcome(tool@, answer, result),
{
    match answer {
        None => Err(MemoryError::UnknownTool(String::from_str(tool))),
        Some(Ok(text)) => Ok(text),
        Some(Err(reason)) => Err(MemoryError::Tool(reason)),
    }
}

/// An agent: a holder of tools that can run one of them.
pub trait Agent: Send + Sync {
    /// The tools this agent offers.
    fn tools(&self) -> Vec<Box<dyn Tool>>;

    /// Runs the tool that `action` names on its input: each tool is asked
    /// for its name, and the first that has the name of the action is run
    /// on the action's input. What it answers is handed on, and so is its
    /// failure. Where the agent has no tool of that name the call fails
    /// with an error that names the tool.
    fn execute(&self, action: &AgentAction) -> (result: Result<String, MemoryError>)
        default_ensures
            exists|names: Seq<Seq<char>>, answer: Option<Result<String, String>>|
                #[trigger] is_execution(names, action@.tool, answer, result),
            result matches Err(MemoryError::UnknownTool(name)) ==> name@ == action@.tool,
            result matches Err(e) ==> e is UnknownTool || e is Tool,
    {
        let tools = self.tools();
        let names = tool_names(tools.as_slice());
        let answer = match find_by_rule(&names, MatchRule::Exact, action.tool.as_str()) {
            Some(i) => Some(tools[i].invoke(action.tool_input.as_str())),
            None => None,
        };
        let result = outcome_of(action.tool.as_str(), answer);
        assert(is_execution(texts_of(names@), action@.tool, answer, result));
        result
    }
}

/// An agent that holds the tools added to it.
pub struct SimpleAgent {
    tools: Vec<Box<dyn Tool>>,
}

impl SimpleAgent {
    /// The tools held, in the order in which they were added.
    pub closed spec fn held(&self) -> Seq<Box<dyn Tool>> {
        self.tools@
    }

    /// An agent without tools.
    pub fn new() -> (agent: Self)
        ensures
            agent.held() == Seq::<Box<dyn Tool>>::empty(),
    {
        Self { tools: Vec::new() }
    }

    /// Puts `tool` behind the tools held.
    pub fn add_tool(&mut self, tool: Box<dyn Tool>)
        ensures
            final(self).held() == old(self).held().push(tool),
    {
        self.tools.push(tool);
    }

    /// The name and the description of each tool held, in order, as each
    /// tool gives its own.
    pub fn tool_labels(&self) -> (labels: Vec<(String, String)>)
        ensures
            labels@.len() == self.held().len(),
    {
        tool_labels_of(&self.tools)
    }
}

impl Agent for SimpleAgent {
    /// Boxed tools cannot be copied, so this hands out none of them.
    fn tools(&self) -> (list: Vec<Box<dyn Tool>>)
        ensures
            list@ == Seq::<Box<dyn Tool>>::empty(),
    {
        Vec::new()
    }
}

/// Runs a turn for an agent.
pub trait AgentRunner {
    /// What the run decides for its inputs.
    fn invoke(&self, inputs: &Vec<(String, String)>) -> AgentOutput;
}

/// Runs one agent.
pub struct SimpleAgentRunner {
    /// The agent that is run.
    pub agent: Box<dyn Agent>,
}

impl SimpleAgentRunner {
    /// A runner for `agent`.
    pub fn new<A: Agent + 'static>(agent: A) -> Self {
        Self { agent: Box::new(agent) }
    }

    /// The agent that is run.
    pub fn agent(&self) -> (agent: &Box<dyn Agent>)
        ensures
            *agent == self.agent,
    {
        &self.agent
    }
}

impl AgentRunner for SimpleAgentRunner {
    fn invoke(&self, inputs: &Vec<(String, String)>) -> (output: AgentOutput)
        ensures
            output@ == simple_decision(pairs_of(inputs@)),
    {
        match get_pair(inputs, "tool") {
            Some(tool) => {
                let tool_input = match get_pair(inputs, "input") {
                    Some(t) => String::from_str(t),
                    None => String::from_str("input empty"),
                };
                let mut log = String::from_str("Invoking tool: ");
                log.append(tool);
                AgentOutput::Action(
                    AgentAction {
                        tool: String::from_str(tool),
                        tool_input,
                        log,
                        thought: Some(String::from_str("Invoking tool")),
                    },
                )
            },
            None => {
                let mut text = String::from_str("Finish processing input: ");
                match get_pair(inputs, "input") {
                    Some(t) => {
                        text.append(t);
                    },
                    None => {
                        assert(text@ + Seq::<char>::empty() == text@);
                    },
                }
                let mut return_values: Vec<(String, String)> = Vec::new();
                let name = String::from_str("output");
                return_values.push((name, text));
                assert(pairs_of(return_values@) =~= seq![(name@, text@)]);
                AgentOutput::Finish(AgentFinish { return_values })
            },
        }
    }
}

} // verus!
