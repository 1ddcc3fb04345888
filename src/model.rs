//! The value model: tool calls, their results, and the turns of a
//! conversation.
use vstd::prelude::*;

verus! {

/// A tool call recovered from a model's reply.
#[derive(Debug, Clone)]
pub struct ParsedToolCall {
    pub name: String,
    pub arguments: serde_json::Value,
    pub tool_call_id: Option<String>,
}

/// A tool call as the contracts speak of it.
pub struct CallView {
    pub name: Seq<char>,
    pub arguments: serde_json::Value,
    pub tool_call_id: Option<Seq<char>>,
}

pub open spec fn opt_view(o: Option<String>) -> Option<Seq<char>> {
    match o {
        Some(s) => Some(s@),
        None => None,
    }
}

impl View for ParsedToolCall {
    type V = CallView;

    open spec fn view(&self) -> CallView {
        CallView { name: self.name@, arguments: self.arguments, tool_call_id: opt_view(self.tool_call_id) }
    }
}

pub open spec fn call_views(cs: Seq<ParsedToolCall>) -> Seq<CallView> {
    cs.map_values(|c: ParsedToolCall| c@)
}

/// What running a tool gave back.
#[derive(Debug, Clone)]
pub struct ToolExecutionResult {
    pub name: String,
    pub output: String,
    pub success: bool,
    pub tool_call_id: Option<String>,
}

/// One plain chat turn.
#[derive(Debug, Clone)]
pub struct ChatMessage {
    pub role: String,
    pub content: String,
}

/// A chat turn as the contracts speak of it: role and text.
pub struct TurnView {
    pub role: Seq<char>,
    pub content: Seq<char>,
}

impl View for ChatMessage {
    type V = TurnView;

    open spec fn view(&self) -> TurnView {
        TurnView { role: self.role@, content: self.content@ }
    }
}

pub open spec fn turn(role: Seq<char>, content: Seq<char>) -> TurnView {
    TurnView { role, content }
}

pub open spec fn turn_views(ms: Seq<ChatMessage>) -> Seq<TurnView> {
    ms.map_values(|m: ChatMessage| m@)
}

impl ChatMessage {
    /// A turn of the user.
    pub fn user(content: String) -> (r: ChatMessage)
        ensures
            r@ == turn("user"@, content@),
    {
        ChatMessage { role: String::from_str("user"), content }
    }

    /// A turn of the assistant.
    pub fn assistant(content: String) -> (r: ChatMessage)
        ensures
            r@ == turn("assistant"@, content@),
    {
        ChatMessage { role: String::from_str("assistant"), content }
    }

    /// A copy of this turn.
    pub fn duplicate(&self) -> (r: ChatMessage)
        ensures
            r@ == self@,
    {
        ChatMessage { role: self.role.clone(), content: self.content.clone() }
    }
}

/// A call record as a provider with native tool calling hands it over.
#[derive(Debug, Clone)]
pub struct ToolCall {
    pub id: String,
    pub name: String,
    /// The arguments, as encoded JSON text.
    pub arguments: String,
}

/// A model's reply: its text and the call records that came beside it.
#[derive(Debug, Clone)]
pub struct ChatResponse {
    pub text: Option<String>,
    pub tool_calls: Vec<ToolCall>,
}

pub open spec fn text_or_empty(o: Option<String>) -> Seq<char> {
    match o {
        Some(s) => s@,
        None => Seq::empty(),
    }
}

impl ChatResponse {
    /// The reply's text, or the empty text where there is none.
    pub fn text_or_empty(&self) -> (r: String)
        ensures
            r@ == text_or_empty(self.text),
    {
        match &self.text {
            Some(t) => t.clone(),
            None => String::new(),
        }
    }
}

/// The result of one call, keyed by the call's id.
#[derive(Debug, Clone)]
pub struct ToolResultMessage {
    pub tool_call_id: String,
    pub content: String,
}

/// One entry of the canonical conversation history.
#[derive(Debug, Clone)]
pub enum ConversationMessage {
    Chat(ChatMessage),
    AssistantToolCalls { text: Option<String>, tool_calls: Vec<ToolCall> },
    ToolResults(Vec<ToolResultMessage>),
}

/// What a tool offers: its name, what it does, and the JSON schema of its
/// arguments.
#[derive(Debug, Clone)]
pub struct ToolSpec {
    pub name: String,
    pub description: String,
    pub parameters: serde_json::Value,
}

/// A tool that the agent can call.
pub trait Tool {
    /// The tool's name.
    spec fn tool_name(&self) -> Seq<char>;

    /// What the tool does, in words.
    spec fn tool_description(&self) -> Seq<char>;

    /// The JSON schema of the tool's arguments.
    spec fn tool_parameters(&self) -> serde_json::Value;

    fn name(&self) -> (r: String)
        ensures
            r@ == self.tool_name(),
    ;

    fn description(&self) -> (r: String)
        ensures
            r@ == self.tool_description(),
    ;

    fn parameters_schema(&self) -> (r: serde_json::Value)
        ensures
            r == self.tool_parameters(),
    ;

    /// The tool's descriptor.
    fn spec(&self) -> (r: ToolSpec)
        ensures
            r.name@ == self.tool_name(),
            r.description@ == self.tool_description(),
            r.parameters == self.tool_parameters(),
    {
        ToolSpec {
            name: self.name(),
            description: self.description(),
            parameters: self.parameters_schema(),
        }
    }
}

} // verus!
