//! The provider-neutral conversation model: messages, content parts, tool
//! calls, tool definitions, requests and responses.

use vstd::prelude::*;
use crate::text::{invalid_choice, invalid_choice_text, lowercase_of, str_eq, to_lowercase};

pub mod openai;

verus! {

/// How much deliberation a reasoning-capable model is asked for.
#[derive(Debug, Copy, PartialEq, Eq, Structural)]
pub enum ReasoningLevel {
    Low,
    Medium,
    High,
}

impl Clone for ReasoningLevel {
    fn clone(&self) -> (r: Self)
        ensures
            r == *self,
    {
        *self
    }
}

impl Default for ReasoningLevel {
    fn default() -> (r: Self)
        ensures
            r == ReasoningLevel::Medium,
    {
        ReasoningLevel::Medium
    }
}

/// The reasoning level that a lowercase name stands for, if any.
pub open spec fn level_named(lower: Seq<char>) -> Option<ReasoningLevel> {
    if lower == "low"@ {
        Some(ReasoningLevel::Low)
    } else if lower == "medium"@ {
        Some(ReasoningLevel::Medium)
    } else if lower == "high"@ {
        Some(ReasoningLevel::High)
    } else {
        None
    }
}

impl ReasoningLevel {
    /// Reads a reasoning level from `lower`, the lowercase form of the text
    /// `given`; the failure quotes `given`.
    pub fn from_lowercase(lower: &str, given: &str) -> (r: Result<Self, String>)
        ensures
            match level_named(lower@) {
                Some(level) => r == Ok::<Self, String>(level),
                None => r.is_err() && r.unwrap_err()@ == invalid_choice_text(
                    "reasoning level"@,
                    given@,
                    "low, medium, high"@,
                ),
            },
    {
        if str_eq(lower, "low") {
            Ok(ReasoningLevel::Low)
        } else if str_eq(lower, "medium") {
            Ok(ReasoningLevel::Medium)
        } else if str_eq(lower, "high") {
            Ok(ReasoningLevel::High)
        } else {
            Err(invalid_choice("reasoning level", given, "low, medium, high"))
        }
    }

    /// Reads a reasoning level from its name, in any letter case.
    pub fn parse(s: &str) -> (r: Result<Self, String>)
        ensures
            match level_named(lowercase_of(s@)) {
                Some(level) => r == Ok::<Self, String>(level),
                None => r.is_err() && r.unwrap_err()@ == invalid_choice_text(
                    "reasoning level"@,
                    s@,
                    "low, medium, high"@,
                ),
            },
    {
        let lower = to_lowercase(s);
        ReasoningLevel::from_lowercase(lower.as_str(), s)
    }
}

impl core::str::FromStr for ReasoningLevel {
    type Err = String;

    /// Reads a reasoning level from its name, in any letter case, as
    /// [`ReasoningLevel::parse`] does.
    fn from_str(s: &str) -> (r: Result<Self, String>)
        ensures
            match level_named(lowercase_of(s@)) {
                Some(level) => r == Ok::<Self, String>(level),
                None => r.is_err() && r.unwrap_err()@ == invalid_choice_text(
                    "reasoning level"@,
                    s@,
                    "low, medium, high"@,
                ),
            },
    {
        ReasoningLevel::parse(s)
    }
}

/// Who speaks in a message.
#[derive(Debug, Copy, PartialEq, Eq, Structural)]
pub enum Role {
    System,
    User,
    Assistant,
    Tool,
}

impl Clone for Role {
    fn clone(&self) -> (r: Self)
        ensures
            r == *self,
    {
        *self
    }
}

/// A reference to an image, with an optional detail hint.
#[derive(Debug, PartialEq)]
pub struct ImageUrl {
    pub url: String,
    pub detail: Option<String>,
}

pub struct ImageUrlView {
    pub url: Seq<char>,
    pub detail: Option<Seq<char>>,
}

/// The characters of an optional string.
pub open spec fn opt_text(s: Option<String>) -> Option<Seq<char>> {
    match s {
        Some(t) => Some(t@),
        None => None,
    }
}

impl View for ImageUrl {
    type V = ImageUrlView;

    open spec fn view(&self) -> ImageUrlView {
        ImageUrlView { url: self.url@, detail: opt_text(self.detail) }
    }
}

impl Clone for ImageUrl {
    fn clone(&self) -> (r: Self)
        ensures
            r == *self,
    {
        ImageUrl { url: self.url.clone(), detail: self.detail.clone() }
    }
}

/// One part of a message's content.
#[derive(Debug, PartialEq)]
pub enum ContentPart {
    Text { text: String },
    ImageUrl { image_url: ImageUrl },
}

pub enum ContentPartView {
    Text { text: Seq<char> },
    ImageUrl { image_url: ImageUrlView },
}

impl View for ContentPart {
    type V = ContentPartView;

    open spec fn view(&self) -> ContentPartView {
        match *self {
            ContentPart::Text { text } => ContentPartView::Text { text: text@ },
            ContentPart::ImageUrl { image_url } => ContentPartView::ImageUrl { image_url: image_url@ },
        }
    }
}

impl Clone for ContentPart {
    fn clone(&self) -> (r: Self)
        ensures
            r == *self,
    {
        match self {
            ContentPart::Text { text } => ContentPart::Text { text: text.clone() },
            ContentPart::ImageUrl { image_url } => ContentPart::ImageUrl { image_url: image_url.clone() },
        }
    }
}

impl ContentPart {
    /// A text part holding `text`.
    pub fn text(text: &str) -> (r: Self)
        ensures
            r@ == (ContentPartView::Text { text: text@ }),
    {
        ContentPart::Text { text: text.to_owned() }
    }

    /// An image part that points at `url`, without a detail hint.
    pub fn image_url(url: &str) -> (r: Self)
        ensures
            r@ == (ContentPartView::ImageUrl { image_url: ImageUrlView { url: url@, detail: None } }),
    {
        ContentPart::ImageUrl { image_url: ImageUrl { url: url.to_owned(), detail: None } }
    }
}


/// The function a tool call names, with its JSON-encoded arguments.
#[derive(Debug)]
pub struct FunctionCall {
    pub name: String,
    pub arguments: String,
}

impl Clone for FunctionCall {
    fn clone(&self) -> (r: Self)
        ensures
            r == *self,
    {
        FunctionCall { name: self.name.clone(), arguments: self.arguments.clone() }
    }
}

/// A request by the model to run one tool.
#[derive(Debug)]
pub struct ToolCall {
    pub id: String,
    pub call_type: String,
    pub function: FunctionCall,
}

pub struct ToolCallView {
    pub id: Seq<char>,
    pub call_type: Seq<char>,
    pub name: Seq<char>,
    pub arguments: Seq<char>,
}

impl View for ToolCall {
    type V = ToolCallView;

    open spec fn view(&self) -> ToolCallView {
        ToolCallView {
            id: self.id@,
            call_type: self.call_type@,
            name: self.function.name@,
            arguments: self.function.arguments@,
        }
    }
}

impl Clone for ToolCall {
    fn clone(&self) -> (r: Self)
        ensures
            r == *self,
    {
        ToolCall {
            id: self.id.clone(),
            call_type: self.call_type.clone(),
            function: self.function.clone(),
        }
    }
}

/// The views of a sequence of content parts, in order.
pub open spec fn parts_view(parts: Seq<ContentPart>) -> Seq<ContentPartView> {
    parts.map_values(|p: ContentPart| p@)
}

/// The views of a sequence of tool calls, in order.
pub open spec fn calls_view(calls: Seq<ToolCall>) -> Seq<ToolCallView> {
    calls.map_values(|c: ToolCall| c@)
}

/// Copies a list of content parts.
pub fn clone_parts(parts: &Vec<ContentPart>) -> (r: Vec<ContentPart>)
    ensures
        r@ == parts@,
{
    let r = parts.clone();
    assert(r@ =~= parts@);
    r
}

/// Copies a list of tool calls.
pub fn clone_calls(calls: &Vec<ToolCall>) -> (r: Vec<ToolCall>)
    ensures
        r@ == calls@,
{
    let r = calls.clone();
    assert(r@ =~= calls@);
    r
}

/// One turn of the conversation.
#[derive(Debug)]
pub struct Message {
    pub role: Role,
    pub content: Option<Vec<ContentPart>>,
    pub tool_calls: Option<Vec<ToolCall>>,
    pub tool_call_id: Option<String>,
}

pub struct MessageView {
    pub role: Role,
    pub content: Option<Seq<ContentPartView>>,
    pub tool_calls: Option<Seq<ToolCallView>>,
    pub tool_call_id: Option<Seq<char>>,
}

impl View for Message {
    type V = MessageView;

    open spec fn view(&self) -> MessageView {
        MessageView {
            role: self.role,
            content: match self.content {
                Some(parts) => Some(parts_view(parts@)),
                None => None,
            },
            tool_calls: match self.tool_calls {
                Some(calls) => Some(calls_view(calls@)),
                None => None,
            },
            tool_call_id: opt_text(self.tool_call_id),
        }
    }
}

impl Clone for Message {
    fn clone(&self) -> (r: Self)
        ensures
            r@ == self@,
    {
        Message {
            role: self.role,
            content: match &self.content {
                Some(parts) => Some(clone_parts(parts)),
                None => None,
            },
            tool_calls: match &self.tool_calls {
                Some(calls) => Some(clone_calls(calls)),
                None => None,
            },
            tool_call_id: self.tool_call_id.clone(),
        }
    }
}

/// The views of a sequence of messages, in order.
pub open spec fn messages_view(messages: Seq<Message>) -> Seq<MessageView> {
    messages.map_values(|m: Message| m@)
}

/// The text of the text parts of `parts`, joined in order; image parts add
/// nothing.
pub open spec fn joined_text(parts: Seq<ContentPartView>) -> Seq<char>
    decreases parts.len(),
{
    if parts.len() == 0 {
        Seq::empty()
    } else {
        joined_text(parts.drop_last()) + match parts.last() {
            ContentPartView::Text { text } => text,
            ContentPartView::ImageUrl { .. } => Seq::empty(),
        }
    }
}

/// A message of the given role whose content is the single text part `text`.
pub open spec fn text_message(role: Role, text: Seq<char>) -> MessageView {
    MessageView {
        role,
        content: Some(seq![ContentPartView::Text { text }]),
        tool_calls: None,
        tool_call_id: None,
    }
}

/// The tool-role message that answers the call `call_id` with `text`.
pub open spec fn tool_result_message(call_id: Seq<char>, text: Seq<char>) -> MessageView {
    MessageView {
        role: Role::Tool,
        content: Some(seq![ContentPartView::Text { text }]),
        tool_calls: None,
        tool_call_id: Some(call_id),
    }
}

/// The assistant message that carries `calls` and no visible text.
pub open spec fn assistant_calls_message(calls: Seq<ToolCallView>) -> MessageView {
    MessageView { role: Role::Assistant, content: None, tool_calls: Some(calls), tool_call_id: None }
}

impl Message {
    /// A system message with one text part.
    pub fn system(content: &str) -> (r: Self)
        ensures
            r@ == text_message(Role::System, content@),
    {
        let parts = vec![ContentPart::text(content)];
        assert(parts_view(parts@) =~= seq![ContentPartView::Text { text: content@ }]);
        Message { role: Role::System, content: Some(parts), tool_calls: None, tool_call_id: None }
    }

    /// A user message with one text part.
    pub fn user(content: &str) -> (r: Self)
        ensures
            r@ == text_message(Role::User, content@),
    {
        let parts = vec![ContentPart::text(content)];
        assert(parts_view(parts@) =~= seq![ContentPartView::Text { text: content@ }]);
        Message { role: Role::User, content: Some(parts), tool_calls: None, tool_call_id: None }
    }

    /// A user message that carries `parts` as they are, in their order.
    pub fn user_parts(parts: Vec<ContentPart>) -> (r: Self)
        ensures
            r.role == Role::User,
            r.content == Some(parts),
            r.tool_calls.is_none(),
            r.tool_call_id.is_none(),
    {
        Message { role: Role::User, content: Some(parts), tool_calls: None, tool_call_id: None }
    }

    /// An assistant turn that asks for `calls` to be run and shows no text.
    pub fn assistant_with_tool_calls(calls: Vec<ToolCall>) -> (r: Self)
        ensures
            r@ == assistant_calls_message(calls_view(calls@)),
            r.tool_calls == Some(calls),
    {
        Message { role: Role::Assistant, content: None, tool_calls: Some(calls), tool_call_id: None }
    }

    /// The tool-role message that reports `content` as the result of the call
    /// `tool_call_id`.
    pub fn tool_result(tool_call_id: &str, content: &str) -> (r: Self)
        ensures
            r@ == tool_result_message(tool_call_id@, content@),
    {
        let parts = vec![ContentPart::text(content)];
        assert(parts_view(parts@) =~= seq![ContentPartView::Text { text: content@ }]);
        Message {
            role: Role::Tool,
            content: Some(parts),
            tool_calls: None,
            tool_call_id: Some(tool_call_id.to_owned()),
        }
    }

    /// The message's text: its text parts joined in order, or `None` where the
    /// message has no content at all.
    pub fn text_content(&self) -> (r: Option<String>)
        ensures
            match self@.content {
                Some(parts) => r.is_some() && r.unwrap()@ == joined_text(parts),
                None => r.is_none(),
            },
    {
        match &self.content {
            None => None,
            Some(parts) => {
                let mut out = String::new();
                let mut i: usize = 0;
                while i < parts.len()
                    invariant
                        i <= parts@.len(),
                        out@ == joined_text(parts_view(parts@).take(i as int)),
                    decreases parts@.len() - i,
                {
                    proof {
                        let upto = parts_view(parts@).take(i + 1);
                        assert(upto.drop_last() =~= parts_view(parts@).take(i as int));
                        assert(upto.last() == parts@[i as int]@);
                    }
                    match &parts[i] {
                        ContentPart::Text { text } => {
                            out.append(text.as_str());
                        },
                        ContentPart::ImageUrl { .. } => {
                            assert(out@ + Seq::<char>::empty() =~= out@);
                        },
                    }
                    i += 1;
                }
                assert(parts_view(parts@).take(i as int) =~= parts_view(parts@));
                Some(out)
            },
        }
    }
}


/// What a tool advertises of itself: its name, what it does, and the JSON
/// schema of its arguments.
#[derive(Debug)]
pub struct FunctionDef {
    pub name: String,
    pub description: String,
    pub parameters: serde_json::Value,
}

/// A tool definition as it is offered to the model.
#[derive(Debug)]
pub struct Tool {
    pub tool_type: String,
    pub function: FunctionDef,
}

pub struct ToolView {
    pub tool_type: Seq<char>,
    pub name: Seq<char>,
    pub description: Seq<char>,
    pub parameters: serde_json::Value,
}

impl View for Tool {
    type V = ToolView;

    open spec fn view(&self) -> ToolView {
        ToolView {
            tool_type: self.tool_type@,
            name: self.function.name@,
            description: self.function.description@,
            parameters: self.function.parameters,
        }
    }
}

impl Clone for FunctionDef {
    fn clone(&self) -> (r: Self)
        ensures
            r == *self,
    {
        FunctionDef {
            name: self.name.clone(),
            description: self.description.clone(),
            parameters: self.parameters.clone(),
        }
    }
}

impl Clone for Tool {
    fn clone(&self) -> (r: Self)
        ensures
            r == *self,
    {
        Tool { tool_type: self.tool_type.clone(), function: self.function.clone() }
    }
}

/// The definition of a function tool with the given name, description and
/// argument schema.
pub open spec fn function_tool_view(
    name: Seq<char>,
    description: Seq<char>,
    parameters: serde_json::Value,
) -> ToolView {
    ToolView { tool_type: "function"@, name, description, parameters }
}

impl Tool {
    /// A function tool named `name`, described by `description`, whose
    /// arguments follow the schema `parameters`.
    pub fn function(name: &str, description: &str, parameters: serde_json::Value) -> (r: Self)
        ensures
            r@ == function_tool_view(name@, description@, parameters),
    {
        Tool {
            tool_type: "function".to_owned(),
            function: FunctionDef {
                name: name.to_owned(),
                description: description.to_owned(),
                parameters,
            },
        }
    }
}

/// The views of a sequence of tool definitions, in order.
pub open spec fn tools_view(tools: Seq<Tool>) -> Seq<ToolView> {
    tools.map_values(|t: Tool| t@)
}

/// Copies a list of messages.
pub fn clone_messages(messages: &Vec<Message>) -> (r: Vec<Message>)
    ensures
        messages_view(r@) == messages_view(messages@),
{
    let r = messages.clone();
    assert(messages_view(r@) =~= messages_view(messages@));
    r
}

/// Copies a list of tool definitions.
pub fn clone_tools(tools: &Vec<Tool>) -> (r: Vec<Tool>)
    ensures
        r@ == tools@,
{
    let r = tools.clone();
    assert(r@ =~= tools@);
    r
}

/// A sampling temperature, kept as the bit pattern of a single-precision
/// number so that it can be carried without arithmetic.
#[derive(Debug, Copy, PartialEq, Eq, Structural)]
pub struct Temperature {
    pub bits: u32,
}

impl Clone for Temperature {
    fn clone(&self) -> (r: Self)
        ensures
            r == *self,
    {
        *self
    }
}

/// Everything one completion call is given.
#[derive(Debug)]
pub struct CompletionRequest {
    pub messages: Vec<Message>,
    pub model: Option<String>,
    pub reasoning_level: Option<ReasoningLevel>,
    pub tools: Option<Vec<Tool>>,
    pub max_tokens: Option<u32>,
    pub temperature: Option<Temperature>,
}

pub struct CompletionRequestView {
    pub messages: Seq<MessageView>,
    pub model: Option<Seq<char>>,
    pub reasoning_level: Option<ReasoningLevel>,
    pub tools: Option<Seq<ToolView>>,
    pub max_tokens: Option<u32>,
    pub temperature: Option<Temperature>,
}

impl View for CompletionRequest {
    type V = CompletionRequestView;

    open spec fn view(&self) -> CompletionRequestView {
        CompletionRequestView {
            messages: messages_view(self.messages@),
            model: opt_text(self.model),
            reasoning_level: self.reasoning_level,
            tools: match self.tools {
                Some(tools) => Some(tools_view(tools@)),
                None => None,
            },
            max_tokens: self.max_tokens,
            temperature: self.temperature,
        }
    }
}

/// The request that carries `messages` and leaves every option unset.
pub open spec fn plain_request(messages: Seq<MessageView>) -> CompletionRequestView {
    CompletionRequestView {
        messages,
        model: None,
        reasoning_level: None,
        tools: None,
        max_tokens: None,
        temperature: None,
    }
}

impl Default for CompletionRequest {
    fn default() -> (r: Self)
        ensures
            r@ == plain_request(Seq::empty()),
    {
        let messages: Vec<Message> = Vec::new();
        assert(messages_view(messages@) =~= Seq::empty());
        CompletionRequest {
            messages,
            model: None,
            reasoning_level: None,
            tools: None,
            max_tokens: None,
            temperature: None,
        }
    }
}

impl Clone for CompletionRequest {
    fn clone(&self) -> (r: Self)
        ensures
            r@ == self@,
    {
        CompletionRequest {
            messages: clone_messages(&self.messages),
            model: self.model.clone(),
            reasoning_level: self.reasoning_level,
            tools: match &self.tools {
                Some(tools) => Some(clone_tools(tools)),
                None => None,
            },
            max_tokens: self.max_tokens,
            temperature: self.temperature,
        }
    }
}

impl CompletionRequest {
    /// A request for `messages` with every option unset.
    pub fn new(messages: Vec<Message>) -> (r: Self)
        ensures
            r@ == plain_request(messages_view(messages@)),
            r.messages == messages,
    {
        CompletionRequest {
            messages,
            model: None,
            reasoning_level: None,
            tools: None,
            max_tokens: None,
            temperature: None,
        }
    }

    /// The same request, asking for the model `model`.
    pub fn with_model(self, model: &str) -> (r: Self)
        ensures
            r@ == (CompletionRequestView { model: Some(model@), ..self@ }),
    {
        let mut out = self;
        out.model = Some(model.to_owned());
        out
    }

    /// The same request, with the reasoning level set.
    pub fn with_reasoning_level(self, level: ReasoningLevel) -> (r: Self)
        ensures
            r@ == (CompletionRequestView { reasoning_level: Some(level), ..self@ }),
    {
        let mut out = self;
        out.reasoning_level = Some(level);
        out
    }

    /// The same request, offering `tools` to the model.
    pub fn with_tools(self, tools: Vec<Tool>) -> (r: Self)
        ensures
            r@ == (CompletionRequestView { tools: Some(tools_view(tools@)), ..self@ }),
    {
        let mut out = self;
        out.tools = Some(tools);
        out
    }

    /// The same request, with the response capped at `max_tokens` tokens.
    pub fn with_max_tokens(self, max_tokens: u32) -> (r: Self)
        ensures
            r@ == (CompletionRequestView { max_tokens: Some(max_tokens), ..self@ }),
    {
        let mut out = self;
        out.max_tokens = Some(max_tokens);
        out
    }

    /// The same request, with the sampling temperature set.
    pub fn with_temperature(self, temperature: Temperature) -> (r: Self)
        ensures
            r@ == (CompletionRequestView { temperature: Some(temperature), ..self@ }),
    {
        let mut out = self;
        out.temperature = Some(temperature);
        out
    }
}

/// Token counts reported for one completion.
#[derive(Debug, Copy, PartialEq, Eq, Structural)]
pub struct Usage {
    pub prompt_tokens: u32,
    pub completion_tokens: u32,
    pub total_tokens: u32,
}

impl Clone for Usage {
    fn clone(&self) -> (r: Self)
        ensures
            r == *self,
    {
        *self
    }
}

impl Default for Usage {
    fn default() -> (r: Self)
        ensures
            r == (Usage { prompt_tokens: 0, completion_tokens: 0, total_tokens: 0 }),
    {
        Usage { prompt_tokens: 0, completion_tokens: 0, total_tokens: 0 }
    }
}

/// What one completion call hands back.
#[derive(Debug)]
pub struct CompletionResponse {
    pub content: Option<String>,
    pub tool_calls: Option<Vec<ToolCall>>,
    pub finish_reason: String,
    pub usage: Usage,
}

pub struct CompletionResponseView {
    pub content: Option<Seq<char>>,
    pub tool_calls: Option<Seq<ToolCallView>>,
    pub finish_reason: Seq<char>,
    pub usage: Usage,
}

impl View for CompletionResponse {
    type V = CompletionResponseView;

    open spec fn view(&self) -> CompletionResponseView {
        CompletionResponseView {
            content: opt_text(self.content),
            tool_calls: match self.tool_calls {
                Some(calls) => Some(calls_view(calls@)),
                None => None,
            },
            finish_reason: self.finish_reason@,
            usage: self.usage,
        }
    }
}

impl Clone for CompletionResponse {
    fn clone(&self) -> (r: Self)
        ensures
            r@ == self@,
    {
        CompletionResponse {
            content: self.content.clone(),
            tool_calls: match &self.tool_calls {
                Some(calls) => Some(clone_calls(calls)),
                None => None,
            },
            finish_reason: self.finish_reason.clone(),
            usage: self.usage,
        }
    }
}

/// What is kept of a transport failure: what it displays as, and whether
/// it was a failure to connect or a timeout.
#[derive(Debug)]
pub struct HttpFailure {
    pub message: String,
    pub is_connect: bool,
    pub is_timeout: bool,
}

pub struct HttpFailureView {
    pub message: Seq<char>,
    pub is_connect: bool,
    pub is_timeout: bool,
}

impl View for HttpFailure {
    type V = HttpFailureView;

    open spec fn view(&self) -> HttpFailureView {
        HttpFailureView { message: self.message@, is_connect: self.is_connect, is_timeout: self.is_timeout }
    }
}

/// Why a completion call failed.
#[derive(Debug)]
pub enum ProviderError {
    /// The named credential is not set.
    MissingApiKey(String),
    /// The transport failed before a response arrived.
    Http(HttpFailure),
    /// The endpoint answered with a non-success status.
    Api { status: u16, message: String },
    /// The endpoint answered successfully with an unusable body.
    InvalidResponse(String),
}

pub enum ProviderErrorView {
    MissingApiKey(Seq<char>),
    Http(HttpFailureView),
    Api { status: u16, message: Seq<char> },
    InvalidResponse(Seq<char>),
}

impl View for ProviderError {
    type V = ProviderErrorView;

    open spec fn view(&self) -> ProviderErrorView {
        match *self {
            ProviderError::MissingApiKey(name) => ProviderErrorView::MissingApiKey(name@),
            ProviderError::Http(e) => ProviderErrorView::Http(e@),
            ProviderError::Api { status, message } => ProviderErrorView::Api { status, message: message@ },
            ProviderError::InvalidResponse(detail) => ProviderErrorView::InvalidResponse(detail@),
        }
    }
}

} // verus!
