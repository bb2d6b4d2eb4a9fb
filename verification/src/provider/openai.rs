//! The chat-completions wire shapes, how the conversation model maps onto
//! them and back, and the policy that goes with it.

use vstd::prelude::*;
use crate::provider::{
    CompletionRequest, CompletionRequestView, CompletionResponse, CompletionResponseView,
    ContentPart, ContentPartView, FunctionCall, ImageUrlView, Message, MessageView, ProviderError,
    ProviderErrorView, ReasoningLevel, Role, Temperature, Tool, ToolCall, ToolCallView, ToolView,
    Usage, calls_view, opt_text, parts_view, tools_view,
};
use crate::text::{join2, starts_with};

verus! {

/// Where requests go unless another base is configured.
pub const DEFAULT_BASE_URL: &'static str = "https://api.openai.com/v1";

/// The model that is asked unless a request names another.
pub const DEFAULT_MODEL: &'static str = "gpt-5-mini";

/// The name of the credential that a provider cannot do without.
pub const API_KEY_NAME: &'static str = "OPENAI_API_KEY";

/// The settings of the chat-completions endpoint.
#[derive(Debug)]
pub struct OpenAIProvider {
    api_key: String,
    base_url: String,
    default_model: String,
}

/// An image reference on the wire.
#[derive(Debug)]
pub struct OpenAIImageUrl {
    pub url: String,
    pub detail: Option<String>,
}

/// A content part on the wire.
#[derive(Debug)]
pub enum OpenAIContentPart {
    Text { text: String },
    ImageUrl { image_url: OpenAIImageUrl },
}

impl View for OpenAIContentPart {
    type V = ContentPartView;

    open spec fn view(&self) -> ContentPartView {
        match *self {
            OpenAIContentPart::Text { text } => ContentPartView::Text { text: text@ },
            OpenAIContentPart::ImageUrl { image_url } => ContentPartView::ImageUrl {
                image_url: ImageUrlView { url: image_url.url@, detail: opt_text(image_url.detail) },
            },
        }
    }
}

/// The function of a tool call on the wire.
#[derive(Debug)]
pub struct OpenAIFunctionCall {
    pub name: String,
    pub arguments: String,
}

/// A tool call on the wire.
#[derive(Debug)]
pub struct OpenAIToolCall {
    pub id: String,
    pub type_field: String,
    pub function: OpenAIFunctionCall,
}

impl View for OpenAIToolCall {
    type V = ToolCallView;

    open spec fn view(&self) -> ToolCallView {
        ToolCallView {
            id: self.id@,
            call_type: self.type_field@,
            name: self.function.name@,
            arguments: self.function.arguments@,
        }
    }
}

/// The views of a sequence of wire content parts, in order.
pub open spec fn wire_parts_view(parts: Seq<OpenAIContentPart>) -> Seq<ContentPartView> {
    parts.map_values(|p: OpenAIContentPart| p@)
}

/// The views of a sequence of wire tool calls, in order.
pub open spec fn wire_calls_view(calls: Seq<OpenAIToolCall>) -> Seq<ToolCallView> {
    calls.map_values(|c: OpenAIToolCall| c@)
}

/// A message on the wire.
#[derive(Debug)]
pub struct OpenAIMessage {
    pub role: String,
    pub content: Option<Vec<OpenAIContentPart>>,
    pub tool_calls: Option<Vec<OpenAIToolCall>>,
    pub tool_call_id: Option<String>,
}

pub struct OpenAIMessageView {
    pub role: Seq<char>,
    pub content: Option<Seq<ContentPartView>>,
    pub tool_calls: Option<Seq<ToolCallView>>,
    pub tool_call_id: Option<Seq<char>>,
}

impl View for OpenAIMessage {
    type V = OpenAIMessageView;

    open spec fn view(&self) -> OpenAIMessageView {
        OpenAIMessageView {
            role: self.role@,
            content: match self.content {
                Some(parts) => Some(wire_parts_view(parts@)),
                None => None,
            },
            tool_calls: match self.tool_calls {
                Some(calls) => Some(wire_calls_view(calls@)),
                None => None,
            },
            tool_call_id: opt_text(self.tool_call_id),
        }
    }
}

/// The wire name of a role.
pub open spec fn role_name(role: Role) -> Seq<char> {
    match role {
        Role::System => "system"@,
        Role::User => "user"@,
        Role::Assistant => "assistant"@,
        Role::Tool => "tool"@,
    }
}

/// The wire name of a reasoning level.
pub open spec fn level_name(level: ReasoningLevel) -> Seq<char> {
    match level {
        ReasoningLevel::Low => "low"@,
        ReasoningLevel::Medium => "medium"@,
        ReasoningLevel::High => "high"@,
    }
}

/// The wire form of a message: the role by its name, everything else as it
/// is.
pub open spec fn wire_message(m: MessageView) -> OpenAIMessageView {
    OpenAIMessageView {
        role: role_name(m.role),
        content: m.content,
        tool_calls: m.tool_calls,
        tool_call_id: m.tool_call_id,
    }
}

/// The content parts in their wire form, one for one.
pub fn parts_to_wire(parts: &Vec<ContentPart>) -> (r: Vec<OpenAIContentPart>)
    ensures
        wire_parts_view(r@) == parts_view(parts@),
{
    let mut out: Vec<OpenAIContentPart> = Vec::new();
    let mut i: usize = 0;
    while i < parts.len()
        invariant
            i <= parts@.len(),
            out@.len() == i,
            forall|j: int| 0 <= j < i ==> out@[j]@ == parts@[j]@,
        decreases parts@.len() - i,
    {
        let part = match &parts[i] {
            ContentPart::Text { text } => OpenAIContentPart::Text { text: text.clone() },
            ContentPart::ImageUrl { image_url } => OpenAIContentPart::ImageUrl {
                image_url: OpenAIImageUrl { url: image_url.url.clone(), detail: image_url.detail.clone() },
            },
        };
        out.push(part);
        i += 1;
    }
    assert(wire_parts_view(out@) =~= parts_view(parts@));
    out
}

/// The tool calls in their wire form, one for one.
pub fn calls_to_wire(calls: &Vec<ToolCall>) -> (r: Vec<OpenAIToolCall>)
    ensures
        wire_calls_view(r@) == calls_view(calls@),
{
    let mut out: Vec<OpenAIToolCall> = Vec::new();
    let mut i: usize = 0;
    while i < calls.len()
        invariant
            i <= calls@.len(),
            out@.len() == i,
            forall|j: int| 0 <= j < i ==> out@[j]@ == calls@[j]@,
        decreases calls@.len() - i,
    {
        let call = &calls[i];
        out.push(
            OpenAIToolCall {
                id: call.id.clone(),
                type_field: call.call_type.clone(),
                function: OpenAIFunctionCall {
                    name: call.function.name.clone(),
                    arguments: call.function.arguments.clone(),
                },
            },
        );
        i += 1;
    }
    assert(wire_calls_view(out@) =~= calls_view(calls@));
    out
}

/// The tool calls that the wire form stands for, one for one.
pub fn calls_from_wire(calls: Vec<OpenAIToolCall>) -> (r: Vec<ToolCall>)
    ensures
        calls_view(r@) == wire_calls_view(calls@),
{
    let mut out: Vec<ToolCall> = Vec::new();
    let mut i: usize = 0;
    while i < calls.len()
        invariant
            i <= calls@.len(),
            out@.len() == i,
            forall|j: int| 0 <= j < i ==> out@[j]@ == calls@[j]@,
        decreases calls@.len() - i,
    {
        let call = &calls[i];
        out.push(
            ToolCall {
                id: call.id.clone(),
                call_type: call.type_field.clone(),
                function: FunctionCall {
                    name: call.function.name.clone(),
                    arguments: call.function.arguments.clone(),
                },
            },
        );
        i += 1;
    }
    assert(calls_view(out@) =~= wire_calls_view(calls@));
    out
}

impl OpenAIMessage {
    /// The wire form of `msg`.
    pub fn from_message(msg: &Message) -> (r: Self)
        ensures
            r@ == wire_message(msg@),
    {
        let role = match msg.role {
            Role::System => "system".to_owned(),
            Role::User => "user".to_owned(),
            Role::Assistant => "assistant".to_owned(),
            Role::Tool => "tool".to_owned(),
        };
        OpenAIMessage {
            role,
            content: match &msg.content {
                Some(parts) => Some(parts_to_wire(parts)),
                None => None,
            },
            tool_calls: match &msg.tool_calls {
                Some(calls) => Some(calls_to_wire(calls)),
                None => None,
            },
            tool_call_id: msg.tool_call_id.clone(),
        }
    }
}

/// A function definition on the wire.
#[derive(Debug)]
pub struct OpenAIFunctionDef {
    pub name: String,
    pub description: String,
    pub parameters: serde_json::Value,
}

/// A tool definition on the wire.
#[derive(Debug)]
pub struct OpenAITool {
    pub type_field: String,
    pub function: OpenAIFunctionDef,
}

impl View for OpenAITool {
    type V = ToolView;

    open spec fn view(&self) -> ToolView {
        ToolView {
            tool_type: self.type_field@,
            name: self.function.name@,
            description: self.function.description@,
            parameters: self.function.parameters,
        }
    }
}

impl OpenAITool {
    /// The wire form of `tool`: the same type, name, description and schema.
    pub fn from_tool(tool: &Tool) -> (r: Self)
        ensures
            r@ == tool@,
    {
        OpenAITool {
            type_field: tool.tool_type.clone(),
            function: OpenAIFunctionDef {
                name: tool.function.name.clone(),
                description: tool.function.description.clone(),
                parameters: tool.function.parameters.clone(),
            },
        }
    }
}

/// The views of a sequence of wire messages, in order.
pub open spec fn wire_messages_view(messages: Seq<OpenAIMessage>) -> Seq<OpenAIMessageView> {
    messages.map_values(|m: OpenAIMessage| m@)
}

/// The views of a sequence of wire tool definitions, in order.
pub open spec fn wire_tools_view(tools: Seq<OpenAITool>) -> Seq<ToolView> {
    tools.map_values(|t: OpenAITool| t@)
}

/// The body of a chat-completions request.
#[derive(Debug)]
pub struct OpenAIRequest {
    pub model: String,
    pub messages: Vec<OpenAIMessage>,
    pub tools: Option<Vec<OpenAITool>>,
    pub max_completion_tokens: Option<u32>,
    pub temperature: Option<Temperature>,
    pub reasoning_effort: Option<String>,
}

pub struct OpenAIRequestView {
    pub model: Seq<char>,
    pub messages: Seq<OpenAIMessageView>,
    pub tools: Option<Seq<ToolView>>,
    pub max_completion_tokens: Option<u32>,
    pub temperature: Option<Temperature>,
    pub reasoning_effort: Option<Seq<char>>,
}

impl View for OpenAIRequest {
    type V = OpenAIRequestView;

    open spec fn view(&self) -> OpenAIRequestView {
        OpenAIRequestView {
            model: self.model@,
            messages: wire_messages_view(self.messages@),
            tools: match self.tools {
                Some(tools) => Some(wire_tools_view(tools@)),
                None => None,
            },
            max_completion_tokens: self.max_completion_tokens,
            temperature: self.temperature,
            reasoning_effort: opt_text(self.reasoning_effort),
        }
    }
}

/// Whether a model belongs to the reasoning family: its name begins with
/// `o1` or `o3`.
pub open spec fn is_reasoning_model(model: Seq<char>) -> bool {
    "o1"@.is_prefix_of(model) || "o3"@.is_prefix_of(model)
}

/// The model that a request is sent to: the one it names, else the default.
pub open spec fn effective_model(default_model: Seq<char>, request: CompletionRequestView) -> Seq<char> {
    match request.model {
        Some(model) => model,
        None => default_model,
    }
}

/// The body that is sent for `request`. A reasoning model gets no
/// temperature and, where the request sets a level, that level as its
/// reasoning effort; any other model gets the temperature as given and no
/// reasoning effort.
pub open spec fn wire_request(default_model: Seq<char>, request: CompletionRequestView) -> OpenAIRequestView {
    let model = effective_model(default_model, request);
    OpenAIRequestView {
        model,
        messages: request.messages.map_values(|m: MessageView| wire_message(m)),
        tools: request.tools,
        max_completion_tokens: request.max_tokens,
        temperature: if is_reasoning_model(model) {
            None
        } else {
            request.temperature
        },
        reasoning_effort: if is_reasoning_model(model) {
            match request.reasoning_level {
                Some(level) => Some(level_name(level)),
                None => None,
            }
        } else {
            None
        },
    }
}

/// Token counts on the wire.
#[derive(Debug)]
pub struct OpenAIUsage {
    pub prompt_tokens: u32,
    pub completion_tokens: u32,
    pub total_tokens: u32,
}

/// The message of a choice on the wire.
#[derive(Debug)]
pub struct OpenAIResponseMessage {
    pub role: String,
    pub content: Option<String>,
    pub tool_calls: Option<Vec<OpenAIToolCall>>,
}

/// One choice of a response on the wire.
#[derive(Debug)]
pub struct OpenAIChoice {
    pub message: OpenAIResponseMessage,
    pub finish_reason: Option<String>,
}

/// The body of a chat-completions response.
#[derive(Debug)]
pub struct OpenAIResponse {
    pub choices: Vec<OpenAIChoice>,
    pub usage: Option<OpenAIUsage>,
}

/// What the choice `choice` of a response with the usage `usage` means:
/// its text, its tool calls one for one, its finish reason or the empty
/// text, and the token counts or zeros.
pub open spec fn response_of(choice: OpenAIChoice, usage: Option<OpenAIUsage>) -> CompletionResponseView {
    CompletionResponseView {
        content: opt_text(choice.message.content),
        tool_calls: match choice.message.tool_calls {
            Some(calls) => Some(wire_calls_view(calls@)),
            None => None,
        },
        finish_reason: match choice.finish_reason {
            Some(reason) => reason@,
            None => Seq::empty(),
        },
        usage: match usage {
            Some(u) => Usage {
                prompt_tokens: u.prompt_tokens,
                completion_tokens: u.completion_tokens,
                total_tokens: u.total_tokens,
            },
            None => Usage { prompt_tokens: 0, completion_tokens: 0, total_tokens: 0 },
        },
    }
}

/// Whether an HTTP status reports success: 200 to 299.
pub fn is_success(status: u16) -> (r: bool)
    ensures
        r == (200 <= status <= 299),
{
    200 <= status && status <= 299
}

/// The failure that a non-success status stands for: the status and the
/// response body as they came.
pub fn api_failure(status: u16, body: String) -> (r: ProviderError)
    ensures
        r@ == (ProviderErrorView::Api { status, message: body@ }),
{
    ProviderError::Api { status, message: body }
}

/// Decodes a successful response: its first choice, or an invalid-response
/// failure where it has none.
pub fn response_from_wire(response: OpenAIResponse) -> (r: Result<CompletionResponse, ProviderError>)
    ensures
        response.choices@.len() == 0 ==> r.is_err() && r.unwrap_err()@ == ProviderErrorView::InvalidResponse(
            "No choices in response"@,
        ),
        response.choices@.len() > 0 ==> r.is_ok() && r.unwrap()@ == response_of(
            response.choices@[0],
            response.usage,
        ),
{
    let mut choices = response.choices;
    if choices.len() == 0 {
        return Err(ProviderError::InvalidResponse("No choices in response".to_owned()));
    }
    let choice = choices.swap_remove(0);
    let usage = match response.usage {
        Some(u) => Usage {
            prompt_tokens: u.prompt_tokens,
            completion_tokens: u.completion_tokens,
            total_tokens: u.total_tokens,
        },
        None => Usage::default(),
    };
    Ok(
        CompletionResponse {
            content: choice.message.content,
            tool_calls: match choice.message.tool_calls {
                Some(calls) => Some(calls_from_wire(calls)),
                None => None,
            },
            finish_reason: match choice.finish_reason {
                Some(reason) => reason,
                None => String::new(),
            },
            usage,
        },
    )
}

impl OpenAIProvider {
    /// The credential that requests are signed with.
    pub closed spec fn api_key_spec(&self) -> Seq<char> {
        self.api_key@
    }

    /// The base of the endpoint's address.
    pub closed spec fn base_url_spec(&self) -> Seq<char> {
        self.base_url@
    }

    /// The model that is asked where a request names none.
    pub closed spec fn default_model_spec(&self) -> Seq<char> {
        self.default_model@
    }

    /// A provider with the given credential, at `base_url` or else at the
    /// default base, asking the default model.
    pub fn new(api_key: String, base_url: Option<String>) -> (r: Self)
        ensures
            r.api_key_spec() == api_key@,
            r.base_url_spec() == match base_url {
                Some(url) => url@,
                None => DEFAULT_BASE_URL@,
            },
            r.default_model_spec() == DEFAULT_MODEL@,
    {
        OpenAIProvider {
            api_key,
            base_url: match base_url {
                Some(url) => url,
                None => DEFAULT_BASE_URL.to_owned(),
            },
            default_model: DEFAULT_MODEL.to_owned(),
        }
    }

    /// A provider from what the environment holds: the credential, without
    /// which there is none, and the optional base.
    pub fn from_settings(api_key: Option<String>, base_url: Option<String>) -> (r: Result<Self, ProviderError>)
        ensures
            api_key is None ==> r.is_err() && r.unwrap_err()@ == ProviderErrorView::MissingApiKey(API_KEY_NAME@),
            api_key is Some ==> r.is_ok() && r.unwrap().api_key_spec() == api_key.unwrap()@
                && r.unwrap().base_url_spec() == match base_url {
                Some(url) => url@,
                None => DEFAULT_BASE_URL@,
            } && r.unwrap().default_model_spec() == DEFAULT_MODEL@,
    {
        match api_key {
            None => Err(ProviderError::MissingApiKey(API_KEY_NAME.to_owned())),
            Some(key) => Ok(OpenAIProvider::new(key, base_url)),
        }
    }

    /// The credential.
    pub fn api_key(&self) -> (r: &str)
        ensures
            r@ == self.api_key_spec(),
    {
        self.api_key.as_str()
    }

    /// The base of the endpoint's address.
    pub fn base_url(&self) -> (r: &str)
        ensures
            r@ == self.base_url_spec(),
    {
        self.base_url.as_str()
    }

    /// The default model.
    pub fn default_model(&self) -> (r: &str)
        ensures
            r@ == self.default_model_spec(),
    {
        self.default_model.as_str()
    }

    /// The address that completion requests are posted to.
    pub fn endpoint(&self) -> (r: String)
        ensures
            r@ == self.base_url_spec() + "/chat/completions"@,
    {
        join2(self.base_url.as_str(), "/chat/completions")
    }

    /// The value of the authorization header.
    pub fn authorization(&self) -> (r: String)
        ensures
            r@ == "Bearer "@ + self.api_key_spec(),
    {
        join2("Bearer ", self.api_key.as_str())
    }

    /// The body to send for `request`.
    pub fn build_request(&self, request: &CompletionRequest) -> (r: OpenAIRequest)
        ensures
            r@ == wire_request(self.default_model_spec(), request@),
    {
        let model = match &request.model {
            Some(model) => model.clone(),
            None => self.default_model.clone(),
        };
        let reasoning = starts_with(model.as_str(), "o1") || starts_with(model.as_str(), "o3");
        let mut messages: Vec<OpenAIMessage> = Vec::new();
        let mut i: usize = 0;
        while i < request.messages.len()
            invariant
                i <= request.messages@.len(),
                messages@.len() == i,
                forall|j: int| 0 <= j < i ==> messages@[j]@ == wire_message(request.messages@[j]@),
            decreases request.messages@.len() - i,
        {
            messages.push(OpenAIMessage::from_message(&request.messages[i]));
            i += 1;
        }
        assert(wire_messages_view(messages@) =~= request@.messages.map_values(|m: MessageView| wire_message(m)));
        let tools = match &request.tools {
            None => None,
            Some(tools) => {
                let mut out: Vec<OpenAITool> = Vec::new();
                let mut k: usize = 0;
                while k < tools.len()
                    invariant
                        k <= tools@.len(),
                        out@.len() == k,
                        forall|j: int| 0 <= j < k ==> out@[j]@ == tools@[j]@,
                    decreases tools@.len() - k,
                {
                    out.push(OpenAITool::from_tool(&tools[k]));
                    k += 1;
                }
                assert(wire_tools_view(out@) =~= tools_view(tools@));
                Some(out)
            },
        };
        let reasoning_effort = if reasoning {
            match request.reasoning_level {
                Some(ReasoningLevel::Low) => Some("low".to_owned()),
                Some(ReasoningLevel::Medium) => Some("medium".to_owned()),
                Some(ReasoningLevel::High) => Some("high".to_owned()),
                None => None,
            }
        } else {
            None
        };
        OpenAIRequest {
            model,
            messages,
            tools,
            max_completion_tokens: request.max_tokens,
            temperature: if reasoning {
                None
            } else {
                request.temperature
            },
            reasoning_effort,
        }
    }
}

} // verus!
