//! Messages exchanged with the chat-completion service.
use vstd::prelude::*;
use serde_json::Value;

verus! {

/// One chat message: a role (`system`, `user`, `assistant` or `tool`), its
/// text, and for a tool result the id of the call it answers.
pub struct Message {
    pub role: String,
    pub content: String,
    pub tool_call_id: Option<String>,
}

/// The mathematical value of a [`Message`].
pub struct MessageView {
    pub role: Seq<char>,
    pub content: Seq<char>,
    pub tool_call_id: Option<Seq<char>>,
}

/// The view of an optional text.
pub open spec fn opt_text(o: Option<String>) -> Option<Seq<char>> {
    match o {
        Some(s) => Some(s@),
        None => None,
    }
}

impl View for Message {
    type V = MessageView;

    open spec fn view(&self) -> MessageView {
        MessageView { role: self.role@, content: self.content@, tool_call_id: opt_text(self.tool_call_id) }
    }
}

/// A message with the given role and text and no tool-call id.
pub open spec fn plain_message(role: Seq<char>, content: Seq<char>) -> MessageView {
    MessageView { role, content, tool_call_id: None }
}

impl Message {
    /// A system instruction.
    pub fn system(content: String) -> (m: Message)
        ensures
            m@ == plain_message("system"@, content@),
    {
        Message { role: "system".to_owned(), content, tool_call_id: None }
    }

    /// A user turn.
    pub fn user(content: String) -> (m: Message)
        ensures
            m@ == plain_message("user"@, content@),
    {
        Message { role: "user".to_owned(), content, tool_call_id: None }
    }

    /// An assistant turn.
    pub fn assistant(content: String) -> (m: Message)
        ensures
            m@ == plain_message("assistant"@, content@),
    {
        Message { role: "assistant".to_owned(), content, tool_call_id: None }
    }

    /// The result of the tool call `tool_call_id`.
    pub fn tool(content: String, tool_call_id: String) -> (m: Message)
        ensures
            m@ == (MessageView { role: "tool"@, content: content@, tool_call_id: Some(tool_call_id@) }),
    {
        Message { role: "tool".to_owned(), content, tool_call_id: Some(tool_call_id) }
    }

    /// A copy of this message.
    pub fn duplicate(&self) -> (m: Message)
        ensures
            m@ == self@,
    {
        let id = match &self.tool_call_id {
            Some(s) => Some(s.clone()),
            None => None,
        };
        Message { role: self.role.clone(), content: self.content.clone(), tool_call_id: id }
    }
}

/// A function the model may call: its kind (`"function"`), name, description
/// and the JSON schema of its parameters.
pub struct Function {
    pub type_field: String,
    pub name: String,
    pub description: String,
    pub parameters: Value,
}

/// The mathematical value of a [`Function`].
pub struct FunctionView {
    pub type_field: Seq<char>,
    pub name: Seq<char>,
    pub description: Seq<char>,
    pub parameters: Value,
}

impl View for Function {
    type V = FunctionView;

    open spec fn view(&self) -> FunctionView {
        FunctionView {
            type_field: self.type_field@,
            name: self.name@,
            description: self.description@,
            parameters: self.parameters,
        }
    }
}

/// The function named in a tool call and its JSON-encoded arguments.
pub struct FunctionCall {
    pub name: String,
    pub arguments: String,
}

/// A tool call requested by the model.
pub struct ToolCall {
    pub id: String,
    pub call_type: String,
    pub function: FunctionCall,
}


/// Whether the model's reply asks for tools: it carries at least one tool call.
pub fn asks_for_tools(tool_calls: &Option<Vec<ToolCall>>) -> (b: bool)
    ensures
        b == (tool_calls matches Some(calls) && calls@.len() > 0),
{
    match tool_calls {
        Some(calls) => calls.len() > 0,
        None => false,
    }
}

} // verus!
