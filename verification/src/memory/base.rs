//! The simplest memory: named values kept in memory, with the
//! conversation as an array of messages under one of the names.

use vstd::prelude::*;
use vstd::string::*;
use crate::json::{
    JsonModel,
    JsonValue,
    duplicate_members,
    get_member,
    insert_member,
    json_array,
    json_object,
    json_string,
    lemma_array_view,
    lemma_models_push,
    lookup,
    members_of,
    models_of,
    no_members,
    push_member,
    with_member,
};
use crate::memory::message_history::opt_text;
use crate::memory::utils::capped_sum;

verus! {

/// Named values, as a memory hands them to a prompt.
pub type MemoryVariables = Vec<(String, JsonValue)>;

/// A memory that keeps everything it is told.
#[derive(Debug)]
pub struct SimpleMemory {
    memories: Vec<(String, JsonValue)>,
    memory_key: String,
    session_id: Option<String>,
}

/// The model of a [`SimpleMemory`].
pub struct SimpleModel {
    pub memories: Seq<(Seq<char>, JsonModel)>,
    /// The name under which the conversation is kept.
    pub memory_key: Seq<char>,
    pub session_id: Option<Seq<char>>,
}

/// The messages kept under `key`: the items of the array of that name, or
/// none where there is no such array.
pub open spec fn history_items(members: Seq<(Seq<char>, JsonModel)>, key: Seq<char>) -> Seq<
    JsonModel,
> {
    match lookup(members, key) {
        Some(JsonModel::Array(items)) => items,
        _ => Seq::empty(),
    }
}

/// A message of a turn: who spoke and what was said.
pub open spec fn turn_message(role: Seq<char>, content: JsonModel) -> JsonModel {
    JsonModel::Object(
        Seq::<(Seq<char>, JsonModel)>::empty().push(("role"@, JsonModel::String(role))).push(
            ("content"@, content),
        ),
    )
}

/// The messages with those of a turn behind them: the `input` of `inputs`
/// as what a human said, the `output` of `outputs` as what the assistant
/// said, each if it is there.
pub open spec fn with_turn_messages(
    items: Seq<JsonModel>,
    inputs: Seq<(Seq<char>, JsonModel)>,
    outputs: Seq<(Seq<char>, JsonModel)>,
) -> Seq<JsonModel> {
    let asked = match lookup(inputs, "input"@) {
        Some(v) => items.push(turn_message("human"@, v)),
        None => items,
    };
    match lookup(outputs, "output"@) {
        Some(v) => asked.push(turn_message("ai"@, v)),
        None => asked,
    }
}

impl SimpleModel {
    /// The memory after `message` was put behind the conversation.
    pub open spec fn add_message(self, message: JsonModel) -> SimpleModel {
        SimpleModel {
            memories: with_member(
                self.memories,
                self.memory_key,
                JsonModel::Array(history_items(self.memories, self.memory_key).push(message)),
            ),
            ..self
        }
    }

    /// The memory after a turn was put behind the conversation.
    pub open spec fn save_context(
        self,
        inputs: Seq<(Seq<char>, JsonModel)>,
        outputs: Seq<(Seq<char>, JsonModel)>,
    ) -> SimpleModel {
        SimpleModel {
            memories: with_member(
                self.memories,
                self.memory_key,
                JsonModel::Array(
                    with_turn_messages(
                        history_items(self.memories, self.memory_key),
                        inputs,
                        outputs,
                    ),
                ),
            ),
            ..self
        }
    }
}

impl View for SimpleMemory {
    type V = SimpleModel;

    closed spec fn view(&self) -> SimpleModel {
        SimpleModel {
            memories: members_of(self.memories@),
            memory_key: self.memory_key@,
            session_id: opt_text(self.session_id),
        }
    }
}

/// A message of a turn.
pub fn turn_message_json(role: &str, content: &JsonValue) -> (message: JsonValue)
    ensures
        message@ == turn_message(role@, content@),
{
    let mut members = no_members();
    push_member(&mut members, "role", json_string(role));
    push_member(&mut members, "content", content.duplicate());
    json_object(members)
}

/// Copies of the messages kept under `key`.
pub fn history_of(members: &Vec<(String, JsonValue)>, key: &str) -> (items: Vec<JsonValue>)
    ensures
        models_of(items@) == history_items(members_of(members@), key@),
{
    let mut items: Vec<JsonValue> = Vec::new();
    match get_member(members, key) {
        Some(JsonValue::Array(kept)) => {
            proof {
                lemma_array_view(*kept);
            }
            let mut i: usize = 0;
            while i < kept.len()
                invariant
                    i <= kept.len(),
                    items@.len() == i,
                    forall|j: int| 0 <= j < i ==> (#[trigger] items@[j])@ == kept@[j]@,
                decreases kept.len() - i,
            {
                items.push(kept[i].duplicate());
                i = i + 1;
            }
            assert(models_of(items@) =~= models_of(kept@));
        },
        _ => {
            assert(models_of(items@) =~= Seq::<JsonModel>::empty());
        },
    }
    items
}

impl SimpleMemory {
    /// A memory that keeps the conversation under `chat_history`.
    pub fn new() -> (memory: Self)
        ensures
            memory@.memories == Seq::<(Seq<char>, JsonModel)>::empty(),
            memory@.memory_key == "chat_history"@,
            memory@.session_id is None,
    {
        SimpleMemory {
            memories: no_members(),
            memory_key: String::from_str("chat_history"),
            session_id: None,
        }
    }

    /// A memory that keeps the conversation under `memory_key`.
    pub fn with_memory_key(memory_key: String) -> (memory: Self)
        ensures
            memory@.memories == Seq::<(Seq<char>, JsonModel)>::empty(),
            memory@.memory_key == memory_key@,
            memory@.session_id is None,
    {
        SimpleMemory { memories: no_members(), memory_key, session_id: None }
    }

    /// A memory that starts with the values `memories`.
    pub fn with_memories(memories: Vec<(String, JsonValue)>) -> (memory: Self)
        ensures
            memory@.memories == members_of(memories@),
            memory@.memory_key == "chat_history"@,
            memory@.session_id is None,
    {
        SimpleMemory { memories, memory_key: String::from_str("chat_history"), session_id: None }
    }

    /// Puts `message` behind the conversation. A value under the
    /// conversation's name that is no array gives way to an array that
    /// holds the message alone.
    pub fn add_message(&mut self, message: JsonValue)
        ensures
            final(self)@ == old(self)@.add_message(message@),
    {
        let mut items = history_of(&self.memories, self.memory_key.as_str());
        proof {
            lemma_models_push(items@, message);
        }
        items.push(message);
        insert_member(&mut self.memories, self.memory_key.as_str(), json_array(items));
    }

    /// The name under which the conversation is kept.
    pub fn get_memory_key(&self) -> (key: String)
        ensures
            key@ == self@.memory_key,
    {
        self.memory_key.clone()
    }

    /// The names of the members that `load_memory_variables` hands out.
    pub fn memory_variables(&self) -> (names: Vec<String>)
        ensures
            names@.len() == 1,
            names@[0]@ == self@.memory_key,
    {
        let mut names: Vec<String> = Vec::new();
        names.push(self.memory_key.clone());
        names
    }

    /// A copy of everything the memory keeps.
    pub fn load_memory_variables(&self) -> (variables: Vec<(String, JsonValue)>)
        ensures
            members_of(variables@) == self@.memories,
    {
        duplicate_members(&self.memories)
    }

    /// Puts a turn behind the conversation: the `input` of `inputs` as a
    /// message of the role `human`, then the `output` of `outputs` as a
    /// message of the role `ai`, each if it is there.
    pub fn save_context(
        &mut self,
        inputs: &Vec<(String, JsonValue)>,
        outputs: &Vec<(String, JsonValue)>,
    )
        ensures
            final(self)@ == old(self)@.save_context(members_of(inputs@), members_of(outputs@)),
    {
        let mut items = history_of(&self.memories, self.memory_key.as_str());
        match get_member(inputs, "input") {
            Some(v) => {
                let message = turn_message_json("human", v);
                proof {
                    lemma_models_push(items@, message);
                }
                items.push(message);
            },
            None => {},
        }
        match get_member(outputs, "output") {
            Some(v) => {
                let message = turn_message_json("ai", v);
                proof {
                    lemma_models_push(items@, message);
                }
                items.push(message);
            },
            None => {},
        }
        insert_member(&mut self.memories, self.memory_key.as_str(), json_array(items));
    }

    /// Forgets everything.
    pub fn clear(&mut self)
        ensures
            final(self)@ == (SimpleModel { memories: Seq::empty(), ..old(self)@ }),
    {
        self.memories = no_members();
    }

    /// The session's identifier, if one was set.
    pub fn get_session_id(&self) -> (id: Option<&str>)
        ensures
            match id {
                Some(t) => self@.session_id == Some(t@),
                None => self@.session_id is None,
            },
    {
        match &self.session_id {
            Some(id) => Some(id.as_str()),
            None => None,
        }
    }

    /// Sets the session's identifier.
    pub fn set_session_id(&mut self, session_id: String)
        ensures
            final(self)@ == (SimpleModel { session_id: Some(session_id@), ..old(self)@ }),
    {
        self.session_id = Some(session_id);
    }

    /// The estimated token cost of the memory's own state: the length in
    /// bytes of the conversation's name and of the session's identifier.
    pub fn get_token_count(&self) -> (count: usize)
        ensures
            count == capped_sum(
                vstd::utf8::encode_utf8(self@.memory_key).len(),
                match self@.session_id {
                    Some(id) => vstd::utf8::encode_utf8(id).len(),
                    None => 0,
                },
            ),
    {
        let key = self.memory_key.as_str().as_bytes().len();
        let id = match &self.session_id {
            Some(id) => id.as_str().as_bytes().len(),
            None => 0,
        };
        key.saturating_add(id)
    }
}

impl Default for SimpleMemory {
    /// A memory that keeps the conversation under `chat_history`.
    fn default() -> (memory: Self)
        ensures
            memory@.memories == Seq::<(Seq<char>, JsonModel)>::empty(),
            memory@.memory_key == "chat_history"@,
            memory@.session_id is None,
    {
        SimpleMemory::new()
    }
}

} // verus!
