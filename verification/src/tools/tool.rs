//! The tool interface and a sample implementation.

use vstd::prelude::*;
use vstd::string::*;

verus! {

/// Something an agent can invoke by name with a text input.
pub trait Tool: Send + Sync {
    /// The tool's name.
    fn name(&self) -> &str;

    /// What the tool does, in words.
    fn description(&self) -> &str;

    /// Runs the tool on `input`; the answer, or the reason for failing.
    fn invoke(&self, input: &str) -> Result<String, String>;
}

/// A collection of tools.
pub trait Toolkit {
    /// The tools of this kit.
    fn tools(&self) -> Vec<Box<dyn Tool>>;
}

/// A tool that only reports what it was given.
pub struct ExampleTool {
    name: String,
    description: String,
}

/// What [`ExampleTool`] answers: a sentence naming the tool and the input.
pub open spec fn example_answer(name: Seq<char>, input: Seq<char>) -> Seq<char> {
    "Tool "@ + name + " received input: "@ + input
}

impl ExampleTool {
    /// The tool's name.
    pub closed spec fn spec_name(&self) -> Seq<char> {
        self.name@
    }

    /// The tool's description.
    pub closed spec fn spec_description(&self) -> Seq<char> {
        self.description@
    }

    /// A tool with the given name and description.
    pub fn new(name: String, description: String) -> (tool: Self)
        ensures
            tool.spec_name() == name@,
            tool.spec_description() == description@,
    {
        Self { name, description }
    }

    /// The answer of this tool to `input`.
    pub fn answer(&self, input: &str) -> (text: String)
        ensures
            text@ == example_answer(self.spec_name(), input@),
    {
        let mut text = String::from_str("Tool ");
        text.append(self.name.as_str());
        text.append(" received input: ");
        text.append(input);
        text
    }
}

impl Tool for ExampleTool {
    fn name(&self) -> (s: &str)
        ensures
            s@ == self.spec_name(),
    {
        self.name.as_str()
    }

    fn description(&self) -> (s: &str)
        ensures
            s@ == self.spec_description(),
    {
        self.description.as_str()
    }

    fn invoke(&self, input: &str) -> (r: Result<String, String>)
        ensures
            r matches Ok(text) && text@ == example_answer(self.spec_name(), input@),
    {
        Ok(self.answer(input))
    }
}

/// A toolkit that holds the tools added to it.
pub struct ExampleToolkit {
    tools: Vec<Box<dyn Tool>>,
}

impl ExampleToolkit {
    /// The tools held, in the order in which they were added.
    pub closed spec fn held(&self) -> Seq<Box<dyn Tool>> {
        self.tools@
    }

    /// A kit without tools.
    pub fn new() -> (kit: Self)
        ensures
            kit.held() == Seq::<Box<dyn Tool>>::empty(),
    {
        let tools: Vec<Box<dyn Tool>> = Vec::new();
        Self { tools }
    }

    /// Puts `tool` behind the tools held.
    pub fn add_tool(&mut self, tool: Box<dyn Tool>)
        ensures
            final(self).held() == old(self).held().push(tool),
    {
        self.tools.push(tool);
    }

    /// The name and the description of each tool held, in order, as each
    /// tool gives its own.
    pub fn tool_labels(&self) -> (labels: Vec<(String, String)>)
        ensures
            labels@.len() == self.held().len(),
    {
        tool_labels_of(&self.tools)
    }
}

/// The name and the description of each of `tools`, in order, as each
/// tool gives its own.
pub fn tool_labels_of(tools: &Vec<Box<dyn Tool>>) -> (labels: Vec<(String, String)>)
    ensures
        labels@.len() == tools@.len(),
{
    let mut labels: Vec<(String, String)> = Vec::new();
    let mut i: usize = 0;
    while i < tools.len()
        invariant
            i <= tools.len(),
            labels@.len() == i,
        decreases tools.len() - i,
    {
        let name = String::from_str(tools[i].name());
        let description = String::from_str(tools[i].description());
        labels.push((name, description));
        i = i + 1;
    }
    labels
}

impl Toolkit for ExampleToolkit {
    /// Boxed tools cannot be copied, so this hands out none of them.
    fn tools(&self) -> (list: Vec<Box<dyn Tool>>)
        ensures
            list@ == Seq::<Box<dyn Tool>>::empty(),
    {
        Vec::new()
    }
}

} // verus!
