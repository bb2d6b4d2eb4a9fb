//! The tool-calling loop, as a state machine: ask the model, run the tools it
//! calls, feed the results back, until it answers without calling a tool or
//! the iteration ceiling is reached.

use vstd::prelude::*;
use crate::provider::{
    CompletionRequest, CompletionRequestView, CompletionResponse, CompletionResponseView, Message,
    MessageView, ProviderError, ProviderErrorView, ReasoningLevel, Tool, ToolCall, ToolCallView,
    ToolView, assistant_calls_message, calls_view, clone_calls, clone_messages, clone_tools,
    messages_view,
    opt_text, tool_result_message, tools_view,
};
use crate::provider::openai::OpenAIProvider;
use crate::tools::{ToolError, ToolErrorView, ToolExecutor, ToolRegistry};

verus! {

/// The settings of one loop; they do not change while it runs.
#[derive(Debug)]
pub struct LoopConfig {
    /// The most completion calls one run may make.
    pub max_iterations: u32,
    /// The model to ask for, if not the provider's default.
    pub model: Option<String>,
    /// The reasoning level to ask for.
    pub reasoning_level: Option<ReasoningLevel>,
    /// The cap on each response's length.
    pub max_tokens: Option<u32>,
}

pub struct LoopConfigView {
    pub max_iterations: u32,
    pub model: Option<Seq<char>>,
    pub reasoning_level: Option<ReasoningLevel>,
    pub max_tokens: Option<u32>,
}

impl View for LoopConfig {
    type V = LoopConfigView;

    open spec fn view(&self) -> LoopConfigView {
        LoopConfigView {
            max_iterations: self.max_iterations,
            model: opt_text(self.model),
            reasoning_level: self.reasoning_level,
            max_tokens: self.max_tokens,
        }
    }
}

impl Default for LoopConfig {
    fn default() -> (r: Self)
        ensures
            r@ == (LoopConfigView { max_iterations: 20, model: None, reasoning_level: None, max_tokens: None }),
    {
        LoopConfig { max_iterations: 20, model: None, reasoning_level: None, max_tokens: None }
    }
}

impl Clone for LoopConfig {
    fn clone(&self) -> (r: Self)
        ensures
            r == *self,
    {
        LoopConfig {
            max_iterations: self.max_iterations,
            model: self.model.clone(),
            reasoning_level: self.reasoning_level,
            max_tokens: self.max_tokens,
        }
    }
}

/// The record of one tool call that was run.
#[derive(Debug)]
pub struct ExecutedToolCall {
    pub id: String,
    pub name: String,
    pub arguments: String,
    pub result: String,
}

pub struct ExecutedView {
    pub id: Seq<char>,
    pub name: Seq<char>,
    pub arguments: Seq<char>,
    pub result: Seq<char>,
}

impl View for ExecutedToolCall {
    type V = ExecutedView;

    open spec fn view(&self) -> ExecutedView {
        ExecutedView { id: self.id@, name: self.name@, arguments: self.arguments@, result: self.result@ }
    }
}

impl Clone for ExecutedToolCall {
    fn clone(&self) -> (r: Self)
        ensures
            r == *self,
    {
        ExecutedToolCall {
            id: self.id.clone(),
            name: self.name.clone(),
            arguments: self.arguments.clone(),
            result: self.result.clone(),
        }
    }
}

/// The views of a sequence of records, in order.
pub open spec fn executed_view(records: Seq<ExecutedToolCall>) -> Seq<ExecutedView> {
    records.map_values(|e: ExecutedToolCall| e@)
}

/// What a run that came to its end hands back.
#[derive(Debug)]
pub struct LoopResult {
    /// The model's final text.
    pub content: String,
    /// How many completion calls were made.
    pub iterations: u32,
    /// The tool calls that were run, in the order in which they ran.
    pub tool_calls_executed: Vec<ExecutedToolCall>,
}

pub struct LoopResultView {
    pub content: Seq<char>,
    pub iterations: u32,
    pub tool_calls_executed: Seq<ExecutedView>,
}

impl View for LoopResult {
    type V = LoopResultView;

    open spec fn view(&self) -> LoopResultView {
        LoopResultView {
            content: self.content@,
            iterations: self.iterations,
            tool_calls_executed: executed_view(self.tool_calls_executed@),
        }
    }
}

/// Why a run ended without a result.
#[derive(Debug)]
pub enum LoopError {
    /// The completion call failed.
    Provider(ProviderError),
    /// A tool call failed.
    Tool(ToolError),
    /// The ceiling, which is carried, was reached before the model finished.
    MaxIterationsExceeded(u32),
    /// The response held nothing to return.
    NoContent,
}

pub enum LoopErrorView {
    Provider(ProviderErrorView),
    Tool(ToolErrorView),
    MaxIterationsExceeded(u32),
    NoContent,
}

impl View for LoopError {
    type V = LoopErrorView;

    open spec fn view(&self) -> LoopErrorView {
        match *self {
            LoopError::Provider(e) => LoopErrorView::Provider(e@),
            LoopError::Tool(e) => LoopErrorView::Tool(e@),
            LoopError::MaxIterationsExceeded(limit) => LoopErrorView::MaxIterationsExceeded(limit),
            LoopError::NoContent => LoopErrorView::NoContent,
        }
    }
}

/// The state of a run between two completion calls.
#[derive(Debug)]
pub struct LoopState {
    /// The conversation so far.
    pub messages: Vec<Message>,
    /// How many completion calls were made.
    pub iterations: u32,
    /// The tool calls that were run so far.
    pub tool_calls_executed: Vec<ExecutedToolCall>,
    /// The tool definitions offered to the model, fixed when the run began.
    pub tools: Vec<Tool>,
}

pub struct LoopStateView {
    pub messages: Seq<MessageView>,
    pub iterations: u32,
    pub tool_calls_executed: Seq<ExecutedView>,
    pub tools: Seq<ToolView>,
}

impl View for LoopState {
    type V = LoopStateView;

    open spec fn view(&self) -> LoopStateView {
        LoopStateView {
            messages: messages_view(self.messages@),
            iterations: self.iterations,
            tool_calls_executed: executed_view(self.tool_calls_executed@),
            tools: tools_view(self.tools@),
        }
    }
}

/// What a response led to: another round, or the end of the run.
#[derive(Debug)]
pub enum Step {
    Continue(LoopState),
    Done(LoopResult),
}

pub enum StepView {
    Continue(LoopStateView),
    Done(LoopResultView),
}

impl View for Step {
    type V = StepView;

    open spec fn view(&self) -> StepView {
        match *self {
            Step::Continue(state) => StepView::Continue(state@),
            Step::Done(result) => StepView::Done(result@),
        }
    }
}

/// The state in which a run begins: the caller's messages, nothing counted,
/// nothing run.
pub open spec fn initial_state(messages: Seq<MessageView>, tools: Seq<ToolView>) -> LoopStateView {
    LoopStateView { messages, iterations: 0, tool_calls_executed: Seq::empty(), tools }
}

/// The request that is sent in the state `s`: the whole history, the loop's
/// settings, and the tools unless there are none.
pub open spec fn request_of(config: LoopConfigView, s: LoopStateView) -> CompletionRequestView {
    CompletionRequestView {
        messages: s.messages,
        model: config.model,
        reasoning_level: config.reasoning_level,
        tools: if s.tools.len() == 0 {
            None
        } else {
            Some(s.tools)
        },
        max_tokens: config.max_tokens,
        temperature: None,
    }
}

/// The tool calls that a response asks for; none where it names none.
pub open spec fn calls_of(response: CompletionResponseView) -> Seq<ToolCallView> {
    match response.tool_calls {
        Some(calls) => calls,
        None => Seq::empty(),
    }
}

/// The record of `call` having returned `result`.
pub open spec fn record_of(call: ToolCallView, result: Seq<char>) -> ExecutedView {
    ExecutedView { id: call.id, name: call.name, arguments: call.arguments, result }
}

/// The result of a run that ends in the state `s` with the response
/// `response`.
pub open spec fn finished(s: LoopStateView, response: CompletionResponseView) -> LoopResultView {
    LoopResultView {
        content: match response.content {
            Some(text) => text,
            None => Seq::empty(),
        },
        iterations: s.iterations,
        tool_calls_executed: s.tool_calls_executed,
    }
}

/// The state after the turn in which the model asked for `calls` and they
/// returned `results`: the history gains the assistant message that carries
/// the calls and then one tool-result message per call, in call order, and
/// the trail gains one record per call, in call order.
pub open spec fn after_tools(s: LoopStateView, calls: Seq<ToolCallView>, results: Seq<Seq<char>>) -> LoopStateView {
    LoopStateView {
        messages: s.messages.push(assistant_calls_message(calls)) + Seq::new(
            calls.len(),
            |i: int| tool_result_message(calls[i].id, results[i]),
        ),
        iterations: s.iterations,
        tool_calls_executed: s.tool_calls_executed + Seq::new(
            calls.len(),
            |i: int| record_of(calls[i], results[i]),
        ),
        tools: s.tools,
    }
}

/// The results that the records of `trail` from position `from` on hold.
pub open spec fn results_from(trail: Seq<ExecutedView>, from: int) -> Seq<Seq<char>> {
    Seq::new((trail.len() - from) as nat, |i: int| trail[from + i].result)
}

/// Drives the tool-calling conversation for one provider and one registry.
pub struct AgentLoop<T: ToolExecutor> {
    provider: OpenAIProvider,
    registry: ToolRegistry<T>,
    config: LoopConfig,
}

impl<T: ToolExecutor> AgentLoop<T> {
    /// The loop's settings.
    pub closed spec fn config_spec(&self) -> LoopConfig {
        self.config
    }

    /// The loop's registry.
    pub closed spec fn registry_spec(&self) -> ToolRegistry<T> {
        self.registry
    }

    /// The loop's provider settings.
    pub closed spec fn provider_spec(&self) -> OpenAIProvider {
        self.provider
    }

    /// The registry is well formed.
    pub open spec fn wf(&self) -> bool {
        self.registry_spec().wf()
    }

    /// Whether `tools` are the tool definitions that a run offers for the
    /// requested names: those of all registered tools where no name is
    /// given, else those of the registered ones among the names.
    pub open spec fn offers(&self, tool_names: Seq<Seq<char>>, tools: Seq<Tool>) -> bool {
        if tool_names.len() == 0 {
            self.registry_spec().defines_all(tools)
        } else {
            self.registry_spec().defines_named(tool_names, tools)
        }
    }

    /// Whether a turn that asks for `calls` can fail with `failure` once the
    /// calls before the failing one have returned `earlier`: each of those
    /// results, and then the failure, is a possible outcome of its call.
    pub open spec fn fails_after(
        &self,
        calls: Seq<ToolCallView>,
        earlier: Seq<Seq<char>>,
        failure: ToolErrorView,
    ) -> bool {
        &&& earlier.len() < calls.len()
        &&& forall|j: int|
            0 <= j < earlier.len() ==> self.registry_spec().allows(
                calls[j].name,
                calls[j].arguments,
                Ok(#[trigger] earlier[j]),
            )
        &&& self.registry_spec().allows(
            calls[earlier.len() as int].name,
            calls[earlier.len() as int].arguments,
            Err(failure),
        )
    }

    /// A loop over `registry`, configured by `config`, that talks to
    /// `provider`.
    pub fn new(provider: OpenAIProvider, registry: ToolRegistry<T>, config: LoopConfig) -> (r: Self)
        requires
            registry.wf(),
        ensures
            r.wf(),
            r.provider_spec() == provider,
            r.registry_spec() == registry,
            r.config_spec() == config,
    {
        AgentLoop { provider, registry, config }
    }

    /// The same loop with another iteration ceiling.
    pub fn with_max_iterations(self, max: u32) -> (r: Self)
        ensures
            r.provider_spec() == self.provider_spec(),
            r.registry_spec() == self.registry_spec(),
            r.config_spec()@ == (LoopConfigView { max_iterations: max, ..self.config_spec()@ }),
    {
        let mut out = self;
        out.config.max_iterations = max;
        out
    }

    /// The same loop, asking for the model `model`.
    pub fn with_model(self, model: &str) -> (r: Self)
        ensures
            r.provider_spec() == self.provider_spec(),
            r.registry_spec() == self.registry_spec(),
            r.config_spec()@ == (LoopConfigView { model: Some(model@), ..self.config_spec()@ }),
    {
        let mut out = self;
        out.config.model = Some(model.to_owned());
        out
    }

    /// The same loop with the reasoning level set.
    pub fn with_reasoning_level(self, level: ReasoningLevel) -> (r: Self)
        ensures
            r.provider_spec() == self.provider_spec(),
            r.registry_spec() == self.registry_spec(),
            r.config_spec()@ == (LoopConfigView { reasoning_level: Some(level), ..self.config_spec()@ }),
    {
        let mut out = self;
        out.config.reasoning_level = Some(level);
        out
    }

    /// The same loop with each response capped at `max` tokens.
    pub fn with_max_tokens(self, max: u32) -> (r: Self)
        ensures
            r.provider_spec() == self.provider_spec(),
            r.registry_spec() == self.registry_spec(),
            r.config_spec()@ == (LoopConfigView { max_tokens: Some(max), ..self.config_spec()@ }),
    {
        let mut out = self;
        out.config.max_tokens = Some(max);
        out
    }

    /// The provider settings, for whoever makes the completion call.
    pub fn provider(&self) -> (r: &OpenAIProvider)
        ensures
            *r == self.provider_spec(),
    {
        &self.provider
    }

    /// The loop's settings.
    pub fn config(&self) -> (r: &LoopConfig)
        ensures
            *r == self.config_spec(),
    {
        &self.config
    }

    /// The loop's registry.
    pub fn registry(&self) -> (r: &ToolRegistry<T>)
        ensures
            *r == self.registry_spec(),
    {
        &self.registry
    }

    /// Begins a run: takes the caller's messages and resolves, once, the tool
    /// definitions that every request of the run will offer.
    pub fn start(&self, initial_messages: Vec<Message>, tool_names: &[String]) -> (state: LoopState)
        requires
            self.wf(),
        ensures
            state@ == initial_state(messages_view(initial_messages@), tools_view(state.tools@)),
            self.offers(tool_names@.map_values(|n: String| n@), state.tools@),
    {
        let tools = if tool_names.len() == 0 {
            self.registry.definitions()
        } else {
            self.registry.definitions_for(tool_names)
        };
        let trail: Vec<ExecutedToolCall> = Vec::new();
        assert(executed_view(trail@) =~= Seq::empty());
        LoopState { messages: initial_messages, iterations: 0, tool_calls_executed: trail, tools }
    }

    /// Counts the next completion call and builds its request, or refuses
    /// where the ceiling is reached: the state is then left as it was.
    pub fn next_request(&self, state: &mut LoopState) -> (r: Result<CompletionRequest, LoopError>)
        ensures
            old(state).iterations < self.config_spec().max_iterations ==> final(state)@ == (LoopStateView {
                iterations: (old(state).iterations + 1) as u32,
                ..old(state)@
            }) && r.is_ok() && r.unwrap()@ == request_of(self.config_spec()@, final(state)@),
            old(state).iterations >= self.config_spec().max_iterations ==> final(state)@ == old(state)@ && r.is_err()
                && r.unwrap_err()@ == LoopErrorView::MaxIterationsExceeded(self.config_spec().max_iterations),
    {
        if state.iterations >= self.config.max_iterations {
            return Err(LoopError::MaxIterationsExceeded(self.config.max_iterations));
        }
        state.iterations = state.iterations + 1;
        let mut request = CompletionRequest::new(clone_messages(&state.messages));
        match &self.config.model {
            Some(model) => {
                request = request.with_model(model.as_str());
            },
            None => {},
        }
        match self.config.reasoning_level {
            Some(level) => {
                request = request.with_reasoning_level(level);
            },
            None => {},
        }
        match self.config.max_tokens {
            Some(max_tokens) => {
                request = request.with_max_tokens(max_tokens);
            },
            None => {},
        }
        if state.tools.len() > 0 {
            request = request.with_tools(clone_tools(&state.tools));
        }
        Ok(request)
    }

    /// Runs one tool call through the registry and records what it returned.
    pub fn execute_tool_call(&self, tool_call: &ToolCall) -> (r: Result<ExecutedToolCall, LoopError>)
        requires
            self.wf(),
        ensures
            match r {
                Ok(record) => record@ == record_of(tool_call@, record.result@) && self.registry_spec().allows(
                    tool_call@.name,
                    tool_call@.arguments,
                    Ok(record.result@),
                ),
                Err(LoopError::Tool(e)) => self.registry_spec().allows(
                    tool_call@.name,
                    tool_call@.arguments,
                    Err(e@),
                ),
                Err(_) => false,
            },
    {
        match self.registry.execute(tool_call.function.name.as_str(), tool_call.function.arguments.as_str()) {
            Ok(result) => Ok(
                ExecutedToolCall {
                    id: tool_call.id.clone(),
                    name: tool_call.function.name.clone(),
                    arguments: tool_call.function.arguments.clone(),
                    result,
                },
            ),
            Err(e) => Err(LoopError::Tool(e)),
        }
    }

    /// Takes in the outcome of the completion call that `next_request`
    /// prepared.
    ///
    /// A failed call ends the run with that failure. A response without tool
    /// calls ends the run with its text. A response with tool calls has them
    /// run one after the other, in the order given: the history gains the
    /// assistant message and one result message per call, the trail one
    /// record per call. The first tool that fails ends the run with its
    /// failure, and the calls after it are not run.
    pub fn advance(&self, state: LoopState, reply: Result<CompletionResponse, ProviderError>) -> (r: Result<
        Step,
        LoopError,
    >)
        requires
            self.wf(),
        ensures
            match reply {
                Err(failure) => r.is_err() && r.unwrap_err()@ == LoopErrorView::Provider(failure@),
                Ok(response) => if calls_of(response@).len() == 0 {
                    r.is_ok() && r.unwrap()@ == StepView::Done(finished(state@, response@))
                } else {
                    match r {
                        Ok(Step::Continue(next)) => {
                            &&& next@ == after_tools(
                                state@,
                                calls_of(response@),
                                results_from(next@.tool_calls_executed, state@.tool_calls_executed.len() as int),
                            )
                            &&& next@.tool_calls_executed.len() == state@.tool_calls_executed.len() + calls_of(
                                response@,
                            ).len()
                            &&& forall|i: int|
                                0 <= i < calls_of(response@).len() ==> self.registry_spec().allows(
                                    calls_of(response@)[i].name,
                                    calls_of(response@)[i].arguments,
                                    Ok(
                                        #[trigger] next@.tool_calls_executed[state@.tool_calls_executed.len()
                                            + i].result,
                                    ),
                                )
                        },
                        Err(LoopError::Tool(e)) => exists|earlier: Seq<Seq<char>>| #[trigger]
                            self.fails_after(calls_of(response@), earlier, e@),
                        _ => false,
                    }
                },
            },
    {
        let response = match reply {
            Err(failure) => {
                return Err(LoopError::Provider(failure));
            },
            Ok(response) => response,
        };
        let ghost start = state@;
        let ghost answer = response@;
        let ghost wanted = calls_of(answer);
        let ghost state_in = state;
        let mut state = state;
        let calls = match response.tool_calls {
            Some(calls) => calls,
            None => Vec::new(),
        };
        assert(calls_view(calls@) =~= wanted);
        if calls.len() == 0 {
            let content = match response.content {
                Some(text) => text,
                None => String::new(),
            };
            return Ok(
                Step::Done(
                    LoopResult {
                        content,
                        iterations: state.iterations,
                        tool_calls_executed: state.tool_calls_executed,
                    },
                ),
            );
        }
        state.messages.push(Message::assistant_with_tool_calls(clone_calls(&calls)));
        assert(messages_view(state.messages@) =~= start.messages.push(assistant_calls_message(wanted)));
        let ghost base = start.tool_calls_executed.len() as int;
        let mut i: usize = 0;
        while i < calls.len()
            invariant
                self.wf(),
                i <= calls@.len(),
                reply is Ok,
                reply->Ok_0@ == answer,
                start == state_in@,
                wanted == calls_of(answer),
                wanted.len() > 0,
                wanted == calls_view(calls@),
                base == start.tool_calls_executed.len(),
                state.iterations == start.iterations,
                tools_view(state.tools@) == start.tools,
                state@.tool_calls_executed.len() == base + i,
                state@.tool_calls_executed.take(base) == start.tool_calls_executed,
                forall|j: int|
                    0 <= j < i ==> #[trigger] state@.tool_calls_executed[base + j] == record_of(
                        wanted[j],
                        state@.tool_calls_executed[base + j].result,
                    ),
                forall|j: int|
                    0 <= j < i ==> self.registry_spec().allows(
                        wanted[j].name,
                        wanted[j].arguments,
                        Ok(#[trigger] state@.tool_calls_executed[base + j].result),
                    ),
                state@.messages == start.messages.push(assistant_calls_message(wanted)) + Seq::new(
                    i as nat,
                    |j: int| tool_result_message(wanted[j].id, state@.tool_calls_executed[base + j].result),
                ),
            decreases calls@.len() - i,
        {
            let ghost before = state@;
            match self.execute_tool_call(&calls[i]) {
                Err(e) => {
                    proof {
                        assert(wanted[i as int] == calls@[i as int]@);
                        let earlier = Seq::new(
                            i as nat,
                            |j: int| state@.tool_calls_executed[base + j].result,
                        );
                        assert(e is Tool);
                        assert(self.fails_after(wanted, earlier, e->Tool_0@));
                    }
                    return Err(e);
                },
                Ok(record) => {
                    assert(wanted[i as int] == calls@[i as int]@);
                    state.messages.push(Message::tool_result(calls[i].id.as_str(), record.result.as_str()));
                    state.tool_calls_executed.push(record);
                    proof {
                        let now = state@;
                        assert(now.tool_calls_executed =~= before.tool_calls_executed.push(record@));
                        assert(now.tool_calls_executed.take(base) =~= before.tool_calls_executed.take(base));
                        assert(forall|j: int|
                            0 <= j < i ==> #[trigger] now.tool_calls_executed[base + j]
                                == before.tool_calls_executed[base + j]);
                        assert(now.messages =~= before.messages.push(
                            tool_result_message(wanted[i as int].id, record.result@),
                        ));
                        assert(now.messages =~= start.messages.push(assistant_calls_message(wanted)) + Seq::new(
                            (i + 1) as nat,
                            |j: int| tool_result_message(wanted[j].id, now.tool_calls_executed[base + j].result),
                        ));
                    }
                },
            }
            i += 1;
        }
        proof {
            let now = state@;
            let results = results_from(now.tool_calls_executed, base);
            assert(now.tool_calls_executed =~= start.tool_calls_executed + Seq::new(
                wanted.len(),
                |j: int| record_of(wanted[j], results[j]),
            )) by {
                assert(forall|j: int|
                    0 <= j < base ==> #[trigger] now.tool_calls_executed[j] == now.tool_calls_executed.take(
                        base,
                    )[j]);
            }
            assert(now.messages =~= after_tools(start, wanted, results).messages);
        }
        Ok(Step::Continue(state))
    }
}

} // verus!
