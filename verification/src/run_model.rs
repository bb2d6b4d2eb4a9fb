//! Whole runs of the loop: the run itself, what a run is as a function of
//! what the outside world answers, and what holds of every run.

use vstd::prelude::*;
use crate::agent_loop::{
    AgentLoop, LoopError, LoopErrorView, LoopResult, LoopResultView, LoopStateView, Step,
    after_tools, calls_of, finished, initial_state, request_of, results_from,
};
use crate::provider::{
    CompletionRequest, CompletionResponse, CompletionResponseView, Message, MessageView,
    ProviderError, ProviderErrorView, Role, Tool, ToolCallView, ToolView,
    assistant_calls_message, messages_view, tool_result_message, tools_view,
};
use crate::tools::{Outcome, ToolErrorView, ToolExecutor};

verus! {

/// What one round of a run meets: the reply to its completion call, and the
/// outcomes of the tool calls that were run on the reply's behalf, in call
/// order.
pub struct Round {
    pub reply: Result<CompletionResponseView, ProviderErrorView>,
    pub outcomes: Seq<Outcome>,
}

/// Where a run stands once the rounds it was given are used up.
pub enum Run {
    /// The model answered; the run is over.
    Done(LoopResultView),
    /// The run failed.
    Failed(LoopErrorView),
    /// The run waits for the reply to its next completion call.
    Pending(LoopStateView),
}

/// The state with one more completion call counted.
pub open spec fn counted(s: LoopStateView) -> LoopStateView {
    LoopStateView { iterations: (s.iterations + 1) as u32, ..s }
}

/// The first failure among `outcomes`, if there is one.
pub open spec fn first_error(outcomes: Seq<Outcome>) -> Option<ToolErrorView>
    decreases outcomes.len(),
{
    if outcomes.len() == 0 {
        None
    } else {
        match first_error(outcomes.drop_last()) {
            Some(e) => Some(e),
            None => match outcomes.last() {
                Err(e) => Some(e),
                Ok(_) => None,
            },
        }
    }
}

/// The texts that `outcomes` returned; a failure stands as the empty text.
pub open spec fn texts(outcomes: Seq<Outcome>) -> Seq<Seq<char>> {
    Seq::new(
        outcomes.len(),
        |i: int|
            match outcomes[i] {
                Ok(text) => text,
                Err(_) => Seq::empty(),
            },
    )
}

/// The outcomes of tools that all returned, with the given texts.
pub open spec fn returned(results: Seq<Seq<char>>) -> Seq<Outcome> {
    Seq::new(results.len(), |i: int| Ok::<Seq<char>, ToolErrorView>(results[i]))
}

/// Where a run stands in the state `s` before its next completion call: at
/// the ceiling it has failed, below it the call is due.
pub open spec fn settle(max: u32, s: LoopStateView) -> Run {
    if s.iterations >= max {
        Run::Failed(LoopErrorView::MaxIterationsExceeded(max))
    } else {
        Run::Pending(s)
    }
}

/// One round from the state `s` under the ceiling `max`: the completion
/// call is counted; a failed call fails the run, an answer ends it, and tool
/// calls either fail it with the first tool failure or lead to the next
/// state.
pub open spec fn round_spec(max: u32, s: LoopStateView, round: Round) -> Run {
    if s.iterations >= max {
        Run::Failed(LoopErrorView::MaxIterationsExceeded(max))
    } else {
        match round.reply {
            Err(failure) => Run::Failed(LoopErrorView::Provider(failure)),
            Ok(response) => if calls_of(response).len() == 0 {
                Run::Done(finished(counted(s), response))
            } else {
                match first_error(round.outcomes) {
                    Some(e) => Run::Failed(LoopErrorView::Tool(e)),
                    None => Run::Pending(after_tools(counted(s), calls_of(response), texts(round.outcomes))),
                }
            },
        }
    }
}

/// The run from the state `s` under the ceiling `max` that meets the rounds
/// of `script`, one after the other, for as long as it goes on. A run that
/// has ended stays as it ended, whatever further rounds the script holds.
pub open spec fn run_spec(max: u32, s: LoopStateView, script: Seq<Round>) -> Run
    decreases script.len(),
{
    if script.len() == 0 {
        settle(max, s)
    } else {
        match run_spec(max, s, script.drop_last()) {
            Run::Pending(before) => match round_spec(max, before, script.last()) {
                Run::Pending(next) => settle(max, next),
                ended => ended,
            },
            ended => ended,
        }
    }
}

/// How a run's result reads as the end of a run.
pub open spec fn run_view(r: Result<LoopResult, LoopError>) -> Run {
    match r {
        Ok(result) => Run::Done(result@),
        Err(e) => Run::Failed(e@),
    }
}

/// How a provider's reply reads in a round.
pub open spec fn reply_view(reply: Result<CompletionResponse, ProviderError>) -> Result<
    CompletionResponseView,
    ProviderErrorView,
> {
    match reply {
        Ok(response) => Ok(response@),
        Err(failure) => Err(failure@),
    }
}

/// The round's reply is an answer: it arrived and asks for no tool.
pub open spec fn answers(round: Round) -> bool {
    round.reply is Ok && calls_of(round.reply->Ok_0).len() == 0
}

/// The round's reply asks for tools, and every one of them returns.
pub open spec fn calls_tools(round: Round) -> bool {
    &&& round.reply is Ok
    &&& calls_of(round.reply->Ok_0).len() > 0
    &&& round.outcomes.len() == calls_of(round.reply->Ok_0).len()
    &&& forall|i: int| 0 <= i < round.outcomes.len() ==> (#[trigger] round.outcomes[i]) is Ok
}

/// The round's reply asks for exactly one tool, which returns.
pub open spec fn calls_one_tool(round: Round) -> bool {
    calls_tools(round) && calls_of(round.reply->Ok_0).len() == 1
}

/// Outcomes that all returned hold no failure.
pub proof fn lemma_no_error(outcomes: Seq<Outcome>)
    requires
        forall|i: int| 0 <= i < outcomes.len() ==> (#[trigger] outcomes[i]) is Ok,
    ensures
        first_error(outcomes) is None,
    decreases outcomes.len(),
{
    if outcomes.len() > 0 {
        assert(outcomes.last() is Ok);
        assert forall|i: int| 0 <= i < outcomes.drop_last().len() implies (#[trigger] outcomes.drop_last()[i]) is Ok by {
            assert(outcomes[i] is Ok);
        }
        lemma_no_error(outcomes.drop_last());
    }
}

/// A round whose tools all return leads, below the ceiling, to a state with
/// one more completion call counted and a trail that has grown by the number
/// of tool calls.
pub proof fn lemma_tool_round(max: u32, s: LoopStateView, round: Round)
    requires
        s.iterations < max,
        calls_tools(round),
    ensures
        round_spec(max, s, round) is Pending,
        round_spec(max, s, round)->Pending_0.iterations == s.iterations + 1,
        round_spec(max, s, round)->Pending_0.tool_calls_executed.len() == s.tool_calls_executed.len() + calls_of(
            round.reply->Ok_0,
        ).len(),
{
    lemma_no_error(round.outcomes);
}

/// A run that has ended has ended for good: more rounds change nothing.
pub proof fn lemma_ended_stays(max: u32, s: LoopStateView, script: Seq<Round>, k: int)
    requires
        0 <= k <= script.len(),
        !(run_spec(max, s, script.take(k)) is Pending),
    ensures
        run_spec(max, s, script) == run_spec(max, s, script.take(k)),
    decreases script.len() - k,
{
    if k < script.len() {
        assert(script.take(k + 1).drop_last() =~= script.take(k));
        lemma_ended_stays(max, s, script, k + 1);
    } else {
        assert(script.take(k) =~= script);
    }
}

/// A round is what the loop's two steps make of it. Below the ceiling, the
/// request step counts one completion call; the step that takes in the reply
/// then fails on a failed call, finishes on an answer, and on tool calls that
/// returned `results` goes on from the state that `after_tools` describes.
/// At the ceiling the request step refuses.
pub proof fn law_steps_make_a_round(
    max: u32,
    s: LoopStateView,
    reply: Result<CompletionResponseView, ProviderErrorView>,
    results: Seq<Seq<char>>,
)
    ensures
        s.iterations >= max ==> round_spec(max, s, Round { reply, outcomes: returned(results) }) == Run::Failed(
            LoopErrorView::MaxIterationsExceeded(max),
        ),
        s.iterations < max ==> round_spec(max, s, Round { reply, outcomes: returned(results) }) == match reply {
            Err(failure) => Run::Failed(LoopErrorView::Provider(failure)),
            Ok(response) => if calls_of(response).len() == 0 {
                Run::Done(finished(counted(s), response))
            } else {
                Run::Pending(after_tools(counted(s), calls_of(response), results))
            },
        },
{
    lemma_no_error(returned(results));
    assert(texts(returned(results)) =~= results);
}

/// A run whose first reply is an answer ends at once: one completion call
/// was made and no tool was run.
pub proof fn law_first_answer_ends_run(
    max: u32,
    messages: Seq<MessageView>,
    tools: Seq<ToolView>,
    script: Seq<Round>,
)
    requires
        max >= 1,
        script.len() >= 1,
        answers(script.first()),
    ensures
        run_spec(max, initial_state(messages, tools), script) is Done,
        run_spec(max, initial_state(messages, tools), script)->Done_0.iterations == 1,
        run_spec(max, initial_state(messages, tools), script)->Done_0.tool_calls_executed.len() == 0,
        run_spec(max, initial_state(messages, tools), script)->Done_0 == finished(
            counted(initial_state(messages, tools)),
            script.first().reply->Ok_0,
        ),
{
    let start = initial_state(messages, tools);
    let one = script.take(1);
    assert(one.drop_last() =~= Seq::<Round>::empty());
    assert(one.last() == script.first());
    assert(run_spec(max, start, one.drop_last()) == settle(max, start));
    lemma_ended_stays(max, start, script, 1);
}

/// Rounds that each run one tool keep a run going for as long as the
/// ceiling leaves room: every round counts one completion call and adds one
/// record to the trail.
pub proof fn lemma_one_tool_rounds(max: u32, s: LoopStateView, script: Seq<Round>)
    requires
        s.iterations + script.len() < max,
        forall|i: int| 0 <= i < script.len() ==> calls_one_tool(#[trigger] script[i]),
    ensures
        run_spec(max, s, script) is Pending,
        run_spec(max, s, script)->Pending_0.iterations == s.iterations + script.len(),
        run_spec(max, s, script)->Pending_0.tool_calls_executed.len() == s.tool_calls_executed.len()
            + script.len(),
    decreases script.len(),
{
    if script.len() > 0 {
        let rest = script.drop_last();
        assert forall|i: int| 0 <= i < rest.len() implies calls_one_tool(#[trigger] rest[i]) by {
            assert(rest[i] == script[i]);
        }
        lemma_one_tool_rounds(max, s, rest);
        assert(calls_one_tool(script[script.len() - 1]));
        lemma_tool_round(max, run_spec(max, s, rest)->Pending_0, script.last());
    }
}

/// For every `n` from 1 to the ceiling: where the first `n - 1` replies each
/// ask for one tool, which returns, and the `n`-th reply is an answer, the
/// run succeeds after `n` completion calls with `n - 1` tool calls recorded.
pub proof fn law_iterations_count_rounds(
    max: u32,
    messages: Seq<MessageView>,
    tools: Seq<ToolView>,
    script: Seq<Round>,
    n: nat,
)
    requires
        1 <= n <= max,
        script.len() == n,
        forall|i: int| 0 <= i < n - 1 ==> calls_one_tool(#[trigger] script[i]),
        answers(script[n - 1]),
    ensures
        run_spec(max, initial_state(messages, tools), script) is Done,
        run_spec(max, initial_state(messages, tools), script)->Done_0.iterations == n,
        run_spec(max, initial_state(messages, tools), script)->Done_0.tool_calls_executed.len() == n - 1,
{
    let rest = script.drop_last();
    assert forall|i: int| 0 <= i < rest.len() implies calls_one_tool(#[trigger] rest[i]) by {
        assert(rest[i] == script[i]);
    }
    lemma_one_tool_rounds(max, initial_state(messages, tools), rest);
}

/// Rounds that all run tools keep a run going until the ceiling is reached,
/// and fail it there.
pub proof fn lemma_tool_rounds_reach_ceiling(max: u32, s: LoopStateView, script: Seq<Round>)
    requires
        forall|i: int| 0 <= i < script.len() ==> calls_tools(#[trigger] script[i]),
    ensures
        s.iterations + script.len() >= max ==> run_spec(max, s, script) == Run::Failed(
            LoopErrorView::MaxIterationsExceeded(max),
        ),
        s.iterations + script.len() < max ==> run_spec(max, s, script) is Pending && run_spec(
            max,
            s,
            script,
        )->Pending_0.iterations == s.iterations + script.len(),
    decreases script.len(),
{
    if script.len() > 0 {
        let rest = script.drop_last();
        assert forall|i: int| 0 <= i < rest.len() implies calls_tools(#[trigger] rest[i]) by {
            assert(rest[i] == script[i]);
        }
        lemma_tool_rounds_reach_ceiling(max, s, rest);
        if s.iterations + rest.len() < max {
            assert(calls_tools(script[script.len() - 1]));
            lemma_tool_round(max, run_spec(max, s, rest)->Pending_0, script.last());
        }
    }
}

/// Where every reply asks for tools and every tool returns, the run fails
/// with the ceiling once `max` replies have come in: with fewer replies it
/// still waits for the next one, having made one completion call per reply,
/// and with `max` or more it has failed with `MaxIterationsExceeded(max)`.
pub proof fn law_ceiling_ends_run(
    max: u32,
    messages: Seq<MessageView>,
    tools: Seq<ToolView>,
    script: Seq<Round>,
)
    requires
        forall|i: int| 0 <= i < script.len() ==> calls_tools(#[trigger] script[i]),
    ensures
        script.len() >= max ==> run_spec(max, initial_state(messages, tools), script) == Run::Failed(
            LoopErrorView::MaxIterationsExceeded(max),
        ),
        script.len() < max ==> run_spec(max, initial_state(messages, tools), script) is Pending && run_spec(
            max,
            initial_state(messages, tools),
            script,
        )->Pending_0.iterations == script.len(),
{
    lemma_tool_rounds_reach_ceiling(max, initial_state(messages, tools), script);
}

/// A turn of tool calls only appends to the history: first the assistant
/// message that carries the calls, then, for each call in call order, one
/// tool-role message whose back-reference is that call's id and whose text
/// is that call's result. The trail grows by one record per call, in call
/// order.
pub proof fn law_results_answer_calls(s: LoopStateView, calls: Seq<ToolCallView>, results: Seq<Seq<char>>)
    ensures
        after_tools(s, calls, results).messages.len() == s.messages.len() + 1 + calls.len(),
        after_tools(s, calls, results).messages.take(s.messages.len() as int) == s.messages,
        after_tools(s, calls, results).messages[s.messages.len() as int] == assistant_calls_message(calls),
        forall|i: int|
            0 <= i < calls.len() ==> {
                let m = #[trigger] after_tools(s, calls, results).messages[s.messages.len() + 1 + i];
                &&& m.role == Role::Tool
                &&& m.tool_call_id == Some(calls[i].id)
                &&& m == tool_result_message(calls[i].id, results[i])
            },
        after_tools(s, calls, results).tool_calls_executed.len() == s.tool_calls_executed.len() + calls.len(),
        forall|i: int|
            0 <= i < calls.len() ==> (#[trigger] after_tools(s, calls, results).tool_calls_executed[
                s.tool_calls_executed.len() + i
            ]).id == calls[i].id,
{
    assert(after_tools(s, calls, results).messages.take(s.messages.len() as int) =~= s.messages);
}

impl<T: ToolExecutor> AgentLoop<T> {
    /// Whether a run of this loop that stands in the state `s`, below the
    /// ceiling, can meet `round` with `provider`: the provider can give the
    /// round's reply to the request that the loop sends in that state, and
    /// the round's outcomes are possible outcomes of the reply's tool calls,
    /// in call order, up to the first failure or else to the last call.
    pub open spec fn can_meet<F: Fn(CompletionRequest) -> Result<CompletionResponse, ProviderError>>(
        &self,
        provider: F,
        s: LoopStateView,
        round: Round,
    ) -> bool {
        &&& exists|request: CompletionRequest, reply: Result<CompletionResponse, ProviderError>|
            request@ == request_of(self.config_spec()@, counted(s)) && reply_view(reply) == round.reply
                && #[trigger] call_ensures(provider, (request,), reply)
        &&& match round.reply {
            Ok(response) => {
                &&& round.outcomes.len() <= calls_of(response).len()
                &&& forall|i: int|
                    0 <= i < round.outcomes.len() ==> self.registry_spec().allows(
                        calls_of(response)[i].name,
                        calls_of(response)[i].arguments,
                        #[trigger] round.outcomes[i],
                    )
                &&& first_error(round.outcomes) is None ==> round.outcomes.len() == calls_of(response).len()
            },
            Err(_) => round.outcomes.len() == 0,
        }
    }

    /// Whether a run of this loop from the state `s` can meet the rounds of
    /// `script` with `provider`, one after the other: the run is still going
    /// when each round comes, and can meet it.
    pub open spec fn admits<F: Fn(CompletionRequest) -> Result<CompletionResponse, ProviderError>>(
        &self,
        provider: F,
        s: LoopStateView,
        script: Seq<Round>,
    ) -> bool
        decreases script.len(),
    {
        script.len() == 0 || {
            &&& self.admits(provider, s, script.drop_last())
            &&& run_spec(self.config_spec().max_iterations, s, script.drop_last()) is Pending
            &&& self.can_meet(
                provider,
                run_spec(self.config_spec().max_iterations, s, script.drop_last())->Pending_0,
                script.last(),
            )
        }
    }

    /// Every round of a script that a run can meet comes while the run is
    /// still going, and can be met in the state in which it comes.
    pub proof fn lemma_admits_round<F: Fn(CompletionRequest) -> Result<CompletionResponse, ProviderError>>(
        &self,
        provider: F,
        s: LoopStateView,
        script: Seq<Round>,
        i: int,
    )
        requires
            self.admits(provider, s, script),
            0 <= i < script.len(),
        ensures
            run_spec(self.config_spec().max_iterations, s, script.take(i)) is Pending,
            self.can_meet(
                provider,
                run_spec(self.config_spec().max_iterations, s, script.take(i))->Pending_0,
                script[i],
            ),
        decreases script.len(),
    {
        if i == script.len() - 1 {
            assert(script.take(i) =~= script.drop_last());
        } else {
            self.lemma_admits_round(provider, s, script.drop_last(), i);
            assert(script.drop_last().take(i) =~= script.take(i));
            assert(script.drop_last()[i] == script[i]);
        }
    }

    /// With a provider that always answers without asking for a tool, a run
    /// that has ended has succeeded after one completion call, with no tool
    /// run.
    pub proof fn law_answering_provider_ends_run<
        F: Fn(CompletionRequest) -> Result<CompletionResponse, ProviderError>,
    >(&self, provider: F, messages: Seq<MessageView>, tools: Seq<ToolView>, script: Seq<Round>)
        requires
            self.config_spec().max_iterations >= 1,
            self.admits(provider, initial_state(messages, tools), script),
            !(run_spec(self.config_spec().max_iterations, initial_state(messages, tools), script) is Pending),
            forall|request: CompletionRequest, reply: Result<CompletionResponse, ProviderError>|
                call_ensures(provider, (request,), reply) ==> reply is Ok && calls_of(reply->Ok_0@).len() == 0,
        ensures
            script.len() == 1,
            run_spec(self.config_spec().max_iterations, initial_state(messages, tools), script) is Done,
            run_spec(
                self.config_spec().max_iterations,
                initial_state(messages, tools),
                script,
            )->Done_0.iterations == 1,
            run_spec(
                self.config_spec().max_iterations,
                initial_state(messages, tools),
                script,
            )->Done_0.tool_calls_executed.len() == 0,
    {
        let max = self.config_spec().max_iterations;
        let start = initial_state(messages, tools);
        if script.len() > 0 {
            self.lemma_admits_round(provider, start, script, 0);
            assert(script.take(0) =~= Seq::<Round>::empty());
            assert(answers(script.first()));
            law_first_answer_ends_run(max, messages, tools, script);
            if script.len() > 1 {
                self.lemma_admits_round(provider, start, script, 1);
                law_first_answer_ends_run(max, messages, tools, script.take(1));
            }
        }
    }

    /// Whether every one of `calls` can only return: no outcome that the
    /// registry allows for it is a failure.
    pub open spec fn all_return(&self, calls: Seq<ToolCallView>) -> bool {
        forall|i: int, outcome: Outcome|
            0 <= i < calls.len() && #[trigger] self.registry_spec().allows(
                calls[i].name,
                calls[i].arguments,
                outcome,
            ) ==> outcome is Ok
    }

    /// With a provider that always asks for tools, all of which return, a
    /// run that has ended has failed with `MaxIterationsExceeded` of the
    /// ceiling after exactly as many completion calls as the ceiling allows:
    /// never before, and never after.
    pub proof fn law_calling_provider_hits_ceiling<
        F: Fn(CompletionRequest) -> Result<CompletionResponse, ProviderError>,
    >(&self, provider: F, messages: Seq<MessageView>, tools: Seq<ToolView>, script: Seq<Round>)
        requires
            self.admits(provider, initial_state(messages, tools), script),
            !(run_spec(self.config_spec().max_iterations, initial_state(messages, tools), script) is Pending),
            forall|request: CompletionRequest, reply: Result<CompletionResponse, ProviderError>| #[trigger]
                call_ensures(provider, (request,), reply) ==> reply is Ok && calls_of(reply->Ok_0@).len() > 0
                    && self.all_return(calls_of(reply->Ok_0@)),
        ensures
            script.len() == self.config_spec().max_iterations,
            run_spec(self.config_spec().max_iterations, initial_state(messages, tools), script) == Run::Failed(
                LoopErrorView::MaxIterationsExceeded(self.config_spec().max_iterations),
            ),
    {
        let max = self.config_spec().max_iterations;
        let start = initial_state(messages, tools);
        assert forall|i: int| 0 <= i < script.len() implies calls_tools(#[trigger] script[i]) by {
            self.lemma_admits_round(provider, start, script, i);
            let round = script[i];
            let before = run_spec(max, start, script.take(i))->Pending_0;
            assert(self.can_meet(provider, before, round));
            let (request, reply) = choose|
                request: CompletionRequest,
                reply: Result<CompletionResponse, ProviderError>,
            |
                request@ == request_of(self.config_spec()@, counted(before)) && reply_view(reply) == round.reply
                    && #[trigger] call_ensures(provider, (request,), reply);
            let calls = calls_of(reply->Ok_0@);
            assert(self.all_return(calls));
            assert forall|j: int| 0 <= j < round.outcomes.len() implies (#[trigger] round.outcomes[j]) is Ok by {
                assert(self.registry_spec().allows(calls[j].name, calls[j].arguments, round.outcomes[j]));
            }
            lemma_no_error(round.outcomes);
        }
        lemma_tool_rounds_reach_ceiling(max, start, script);
        if script.len() > max {
            let shorter = script.drop_last();
            assert forall|i: int| 0 <= i < shorter.len() implies calls_tools(#[trigger] shorter[i]) by {
                assert(shorter[i] == script[i]);
            }
            lemma_tool_rounds_reach_ceiling(max, start, shorter);
        }
    }

    /// Runs the conversation to its end, calling `provider` once per
    /// iteration.
    ///
    /// The result is that of the run model on the rounds that the run met:
    /// there is a script of rounds, each of which the provider and the
    /// registered tools can produce in the state in which it came, whose run
    /// from the initial state ends as this call ends.
    pub fn run<F: Fn(CompletionRequest) -> Result<CompletionResponse, ProviderError>>(
        &self,
        provider: F,
        initial_messages: Vec<Message>,
        tool_names: &[String],
    ) -> (r: Result<LoopResult, LoopError>)
        requires
            self.wf(),
            forall|request: CompletionRequest| call_requires(provider, (request,)),
        ensures
            exists|tools: Seq<Tool>, script: Seq<Round>|
                {
                    &&& self.offers(tool_names@.map_values(|n: String| n@), tools)
                    &&& #[trigger] self.admits(
                        provider,
                        initial_state(messages_view(initial_messages@), tools_view(tools)),
                        script,
                    )
                    &&& run_spec(
                        self.config_spec().max_iterations,
                        initial_state(messages_view(initial_messages@), tools_view(tools)),
                        script,
                    ) == run_view(r)
                },
    {
        let mut state = self.start(initial_messages, tool_names);
        let ghost tools = state.tools@;
        let ghost start = state@;
        let ghost max = self.config_spec().max_iterations;
        let ghost mut script: Seq<Round> = Seq::empty();
        loop
            invariant
                self.wf(),
                forall|request: CompletionRequest| call_requires(provider, (request,)),
                max == self.config_spec().max_iterations,
                start == initial_state(messages_view(initial_messages@), tools_view(tools)),
                self.offers(tool_names@.map_values(|n: String| n@), tools),
                self.admits(provider, start, script),
                run_spec(max, start, script) == settle(max, state@),
                state.iterations <= max,
            decreases max - state.iterations,
        {
            let ghost before = state@;
            let request = match self.next_request(&mut state) {
                Ok(request) => request,
                Err(e) => {
                    return Err(e);
                },
            };
            let ghost sent = request;
            let ghost asked = state@;
            let reply = provider(request);
            let ghost got = reply;
            let ghost calls = match reply_view(got) {
                Ok(response) => calls_of(response),
                Err(_) => Seq::empty(),
            };
            match self.advance(state, reply) {
                Err(e) => {
                    proof {
                        let outcomes: Seq<Outcome> = if e is Tool {
                            let failure = e->Tool_0@;
                            let earlier = choose|earlier: Seq<Seq<char>>| #[trigger]
                                self.fails_after(calls, earlier, failure);
                            lemma_no_error(returned(earlier));
                            let all = returned(earlier).push(Err(failure));
                            assert(all.drop_last() =~= returned(earlier));
                            all
                        } else {
                            Seq::empty()
                        };
                        let round = Round { reply: reply_view(got), outcomes };
                        let longer = script.push(round);
                        assert(longer.drop_last() =~= script);
                        assert(call_ensures(provider, (sent,), got));
                        assert(self.can_meet(provider, before, round));
                        assert(self.admits(provider, start, longer));
                        assert(run_spec(max, start, longer) == run_view(Err::<LoopResult, LoopError>(e)));
                    }
                    return Err(e);
                },
                Ok(Step::Done(result)) => {
                    proof {
                        let round = Round { reply: reply_view(got), outcomes: Seq::empty() };
                        let longer = script.push(round);
                        assert(longer.drop_last() =~= script);
                        assert(call_ensures(provider, (sent,), got));
                        assert(self.can_meet(provider, before, round));
                        assert(self.admits(provider, start, longer));
                        assert(run_spec(max, start, longer) == run_view(Ok::<LoopResult, LoopError>(result)));
                    }
                    return Ok(result);
                },
                Ok(Step::Continue(next)) => {
                    proof {
                        let results = results_from(
                            next@.tool_calls_executed,
                            asked.tool_calls_executed.len() as int,
                        );
                        lemma_no_error(returned(results));
                        assert(texts(returned(results)) =~= results);
                        let round = Round { reply: reply_view(got), outcomes: returned(results) };
                        let longer = script.push(round);
                        assert(longer.drop_last() =~= script);
                        assert(call_ensures(provider, (sent,), got));
                        assert(self.can_meet(provider, before, round));
                        assert(self.admits(provider, start, longer));
                        assert(run_spec(max, start, longer) == settle(max, next@));
                        script = longer;
                    }
                    state = next;
                },
            }
        }
    }
}

} // verus!
