//! The turn loop: the state machine driving one multi-turn agent run.
//!
//! One run is strictly sequential. The machine never performs outside work
//! itself: [`AgentRun::next_action`] says what the driver must do next —
//! call the model, run a tool handler, crank an internal step — and the
//! driver hands the outside world's answer back as a plain value through
//! [`AgentRun::on_model`] and [`AgentRun::on_tool_outcome`]. Every
//! transition appends to the run's ordered event stream; events are
//! append-only and never consumed back into the state.

use vstd::prelude::*;
use crate::catalog::{ToolCatalog, ToolOrigin};
use crate::dispatch::{plan_dispatch, spec_decision, wrap_outcome, DispatchDecision};
use crate::strutil::clone_opt_str;
use crate::types::{
    AgentConfig, AgentContent, AgentError, AgentEvent, AgentMessage, BlockView, ContentBlock,
    ToolResult, ToolUse, ToolUseView,
};
use crate::text::{classify_text, lemma_text_event_is_progress, spec_text_event};
use crate::wire::{parse_blocks, spec_parse_blocks, WireBlock};

verus! {

/// How often a transport failure is retried before the run fails.
pub const TRANSPORT_RETRY_LIMIT: u32 = 3;

/// Where the run stands between two driver calls.
#[derive(Debug, Clone, Copy, PartialEq, Eq, Structural)]
pub enum Phase {
    /// The driver must send the conversation to the model.
    AwaitingModel,
    /// Tool uses of the current response are being answered, in order.
    Dispatching,
    /// Terminal: the model finished without requesting tools.
    Completed,
    /// Terminal: the turn budget is exhausted; not an error.
    TurnLimitReached,
    /// Terminal: an unrecoverable transport or parse failure.
    Failed,
}

/// What the driver must do next.
pub enum StepAction {
    /// Send the history and the allowed tool definitions to the model,
    /// then report through [`AgentRun::on_model`].
    CallModel,
    /// Run this tool handler, then report through
    /// [`AgentRun::on_tool_outcome`].
    RunTool { id: String, name: String, input: String, origin: ToolOrigin },
    /// Internal work is pending: call [`AgentRun::advance`].
    Advance,
    /// The run is over; the last event says how.
    Finished,
}

/// What came back from one model call.
pub enum ModelOutcome {
    /// A response, as the ordered wire blocks the provider returned.
    Response { blocks: Vec<WireBlock> },
    /// The provider could not be reached; retryable a bounded number of
    /// times.
    Transport { message: String },
}

/// The turn numbers carried by the `TurnComplete` events of a stream, in
/// emission order.
pub open spec fn spec_turn_numbers(es: Seq<AgentEvent>) -> Seq<u32>
    decreases es.len(),
{
    if es.len() == 0 {
        Seq::empty()
    } else {
        let rest = spec_turn_numbers(es.drop_last());
        match es.last() {
            AgentEvent::TurnComplete { turn } => rest.push(turn),
            _ => rest,
        }
    }
}

/// The sequence `1, 2, ..., n`.
pub open spec fn spec_turn_range(n: u32) -> Seq<u32> {
    Seq::new(n as nat, |i: int| (i + 1) as u32)
}

/// Appending an event extends the turn numbers exactly when it is a
/// `TurnComplete`.
proof fn lemma_turn_numbers_push(es: Seq<AgentEvent>, e: AgentEvent)
    ensures
        spec_turn_numbers(es.push(e)) == (match e {
            AgentEvent::TurnComplete { turn } => spec_turn_numbers(es).push(turn),
            _ => spec_turn_numbers(es),
        }),
{
    assert(es.push(e).drop_last() =~= es);
    assert(es.push(e).last() == e);
}

/// How many final events — `Done` or `Error` — a stream holds.
pub open spec fn spec_final_count(es: Seq<AgentEvent>) -> int
    decreases es.len(),
{
    if es.len() == 0 {
        0
    } else {
        spec_final_count(es.drop_last()) + (match es.last() {
            AgentEvent::Done { .. } => 1int,
            AgentEvent::Error { .. } => 1int,
            _ => 0int,
        })
    }
}

/// Appending an event raises the final-event count exactly when it is a
/// `Done` or an `Error`.
proof fn lemma_final_count_push(es: Seq<AgentEvent>, e: AgentEvent)
    ensures
        spec_final_count(es.push(e)) == spec_final_count(es) + (match e {
            AgentEvent::Done { .. } => 1int,
            AgentEvent::Error { .. } => 1int,
            _ => 0int,
        }),
{
    assert(es.push(e).drop_last() =~= es);
    assert(es.push(e).last() == e);
}

/// The prose of a response: the text of each text block, in order.
pub open spec fn spec_texts(bs: Seq<BlockView>) -> Seq<Seq<char>>
    decreases bs.len(),
{
    if bs.len() == 0 {
        Seq::empty()
    } else {
        let rest = spec_texts(bs.drop_last());
        match bs.last() {
            BlockView::Text { text } => rest.push(text),
            _ => rest,
        }
    }
}

/// The tool uses of a response, in order.
pub open spec fn spec_tool_uses(bs: Seq<BlockView>) -> Seq<ToolUseView>
    decreases bs.len(),
{
    if bs.len() == 0 {
        Seq::empty()
    } else {
        let rest = spec_tool_uses(bs.drop_last());
        match bs.last() {
            BlockView::ToolUse { id, name, input, thought_signature } => rest.push(
                ToolUseView { id, name, input, thought_signature },
            ),
            _ => rest,
        }
    }
}

/// One agent run: the conversation so far, the event stream so far, and
/// where the state machine stands.
pub struct AgentRun {
    /// The run's immutable configuration.
    pub config: AgentConfig,
    /// The read-only tool catalog the dispatcher resolves against.
    pub catalog: ToolCatalog,
    /// The conversation history; append-only within the run.
    pub history: Vec<AgentMessage>,
    /// The ordered event stream; append-only, delivered in order.
    pub events: Vec<AgentEvent>,
    /// Completed model round trips.
    pub turn: u32,
    /// Transport failures seen so far in this run.
    pub transport_retries: u32,
    /// Whether a first model response was parsed already.
    pub seen_first_response: bool,
    pub phase: Phase,
    /// While dispatching: the current response's tool uses, in order.
    pub pending_uses: Vec<ToolUse>,
    /// While dispatching: the results collected so far, one per answered
    /// tool use, in the same order.
    pub results: Vec<ToolResult>,
    /// While dispatching: whether the current tool's handler was started
    /// (its `ToolStart` event is emitted and its outcome is awaited).
    pub tool_started: bool,
}

impl AgentRun {
    /// The tool use the dispatcher works on next.
    pub open spec fn current_use(self) -> ToolUseView {
        self.pending_uses@[self.results@.len() as int]@
    }

    /// The state machine's invariant; every method keeps it.
    pub open spec fn wf(self) -> bool {
        &&& self.turn <= self.config.max_turns
        &&& (self.phase is AwaitingModel || self.phase is Dispatching) ==> self.turn
            < self.config.max_turns
        &&& spec_turn_numbers(self.events@) == spec_turn_range(self.turn)
        &&& ((self.phase is AwaitingModel || self.phase is Dispatching) ==> spec_final_count(
            self.events@,
        ) == 0)
        &&& ((self.phase is Completed || self.phase is TurnLimitReached || self.phase is Failed)
            ==> spec_final_count(self.events@) == 1)
        &&& self.transport_retries <= TRANSPORT_RETRY_LIMIT
        &&& (self.phase is Dispatching ==> {
            &&& self.results@.len() <= self.pending_uses@.len()
            &&& (forall|i: int|
                0 <= i < self.results@.len() ==> (#[trigger] self.results@[i]).tool_use_id@
                    == self.pending_uses@[i].id@ && self.results@[i].result_type@
                    == "tool_result"@)
            &&& (self.tool_started ==> self.results@.len() < self.pending_uses@.len()
                && spec_decision(self.config, self.catalog, self.current_use().name) is Some)
        })
        &&& (!(self.phase is Dispatching) ==> self.pending_uses@.len() == 0
            && self.results@.len() == 0 && !self.tool_started)
    }

    /// Start a run: the history holds the user's request, and the machine
    /// awaits the first model call — unless the turn budget is already
    /// zero, in which case the run ends at once.
    pub fn new(config: AgentConfig, catalog: ToolCatalog, user_request: String) -> (r: AgentRun)
        ensures
            r.wf(),
            r.config == config,
            r.catalog == catalog,
            r.turn == 0,
            r.history@.len() == 1,
            r.history@[0].role@ == "user"@,
            (r.history@[0].content matches AgentContent::Text(t) && t@ == user_request@),
            config.max_turns == 0 ==> r.phase is TurnLimitReached && r.events@.len() == 1 && (
            r.events@[0] matches AgentEvent::Done { total_turns } && total_turns == 0),
            config.max_turns > 0 ==> r.phase is AwaitingModel && r.events@.len() == 0,
    {
        let mut history: Vec<AgentMessage> = Vec::new();
        history.push(
            AgentMessage { role: "user".to_owned(), content: AgentContent::Text(user_request) },
        );
        let mut events: Vec<AgentEvent> = Vec::new();
        proof {
            assert(spec_turn_numbers(events@) =~= spec_turn_range(0));
            assert(spec_final_count(events@) == 0);
        }
        let phase = if config.max_turns == 0 {
            let ghost ev0 = events@;
            events.push(AgentEvent::Done { total_turns: 0 });
            proof {
                lemma_turn_numbers_push(ev0, AgentEvent::Done { total_turns: 0 });
                lemma_final_count_push(ev0, AgentEvent::Done { total_turns: 0 });
            }
            Phase::TurnLimitReached
        } else {
            Phase::AwaitingModel
        };
        AgentRun {
            config,
            catalog,
            history,
            events,
            turn: 0,
            transport_retries: 0,
            seen_first_response: false,
            phase,
            pending_uses: Vec::new(),
            results: Vec::new(),
            tool_started: false,
        }
    }

    /// What the driver must do next. Pure: the state does not change.
    pub fn next_action(&self) -> (a: StepAction)
        requires
            self.wf(),
        ensures
            (a is CallModel <==> self.phase is AwaitingModel),
            (a is Finished <==> (self.phase is Completed || self.phase is TurnLimitReached
                || self.phase is Failed)),
            (a is Advance <==> (self.phase is Dispatching && !self.tool_started)),
            (a is RunTool <==> (self.phase is Dispatching && self.tool_started)),
            (match a {
                StepAction::RunTool { id, name, input, origin } => {
                    &&& id@ == self.current_use().id
                    &&& name@ == self.current_use().name
                    &&& input@ == self.current_use().input
                    &&& spec_decision(self.config, self.catalog, self.current_use().name)
                        == Some(origin)
                },
                _ => true,
            }),
    {
        match self.phase {
            Phase::AwaitingModel => StepAction::CallModel,
            Phase::Completed => StepAction::Finished,
            Phase::TurnLimitReached => StepAction::Finished,
            Phase::Failed => StepAction::Finished,
            Phase::Dispatching => {
                if !self.tool_started {
                    StepAction::Advance
                } else {
                    let u = &self.pending_uses[self.results.len()];
                    match self.catalog.resolve(u.name.as_str()) {
                        Some(origin) => StepAction::RunTool {
                            id: u.id.clone(),
                            name: u.name.clone(),
                            input: u.input.clone(),
                            origin,
                        },
                        None => {
                            // ruled out by wf: a started tool resolved when
                            // its dispatch was decided
                            proof {
                                assert(false);
                            }
                            StepAction::Advance
                        },
                    }
                }
            },
        }
    }
}

/// Law: while dispatching, the collected results answer the response's
/// tool uses in order — the i-th result's `tool_use_id` is the i-th tool
/// use's id, with never more results than uses.
pub proof fn lemma_results_answer_uses_in_order(r: AgentRun)
    requires
        r.wf(),
        r.phase is Dispatching,
    ensures
        r.results@.len() <= r.pending_uses@.len(),
        forall|i: int|
            0 <= i < r.results@.len() ==> (#[trigger] r.results@[i]).tool_use_id@
                == r.pending_uses@[i].id@,
{
}

/// Law: the turn numbers carried by the emitted `TurnComplete` events are
/// exactly `1, 2, ..., turn` — strictly increasing by one, starting at
/// one, with no gaps and no repeats.
pub proof fn lemma_turn_numbers_strictly_increasing(r: AgentRun)
    requires
        r.wf(),
    ensures
        spec_turn_numbers(r.events@).len() == r.turn as nat,
        forall|i: int| 0 <= i < r.turn ==> spec_turn_numbers(r.events@)[i] == i + 1,
{
}

/// Law: every terminal outcome maps to exactly one final event — a run
/// that is still going has emitted no `Done` and no `Error`, and a run
/// that ended has emitted exactly one of them.
pub proof fn lemma_one_final_event(r: AgentRun)
    requires
        r.wf(),
    ensures
        (r.phase is AwaitingModel || r.phase is Dispatching) ==> spec_final_count(r.events@)
            == 0,
        (r.phase is Completed || r.phase is TurnLimitReached || r.phase is Failed)
            ==> spec_final_count(r.events@) == 1,
{
}

impl AgentRun {
    /// One internal step while dispatching: decide the current tool use —
    /// start its handler, or answer a rejected one on the spot — or, when
    /// every use is answered, close the turn.
    ///
    /// A rejected tool use (name not allowed, or not in the catalog) never
    /// reaches a handler: it is answered at once by an error result
    /// referencing its id, between its `ToolStart` and a failed `ToolEnd`.
    /// Closing the turn appends the results as one user message, emits
    /// `TurnComplete`, and — when this was the last budgeted turn — ends
    /// the run with `TurnLimitReached` and a final `Done`.
    pub fn advance(&mut self)
        requires
            old(self).wf(),
            old(self).phase is Dispatching,
            !old(self).tool_started,
        ensures
            final(self).wf(),
            final(self).config == old(self).config,
            final(self).catalog == old(self).catalog,
            final(self).seen_first_response == old(self).seen_first_response,
            final(self).transport_retries == old(self).transport_retries,
            (old(self).results@.len() == old(self).pending_uses@.len() ==> {
                &&& final(self).turn == old(self).turn + 1
                &&& final(self).history@.len() == old(self).history@.len() + 1
                &&& final(self).history@.drop_last() == old(self).history@
                &&& final(self).history@.last().role@ == "user"@
                &&& (final(self).history@.last().content matches AgentContent::ToolResults(rs)
                    && rs@ == old(self).results@)
                &&& (old(self).turn + 1 == old(self).config.max_turns ==> final(self).phase
                    is TurnLimitReached && final(self).events@ == old(self).events@.push(
                    AgentEvent::TurnComplete { turn: (old(self).turn + 1) as u32 },
                ).push(AgentEvent::Done { total_turns: (old(self).turn + 1) as u32 }))
                &&& (old(self).turn + 1 < old(self).config.max_turns ==> final(self).phase
                    is AwaitingModel && final(self).events@ == old(self).events@.push(
                    AgentEvent::TurnComplete { turn: (old(self).turn + 1) as u32 },
                ))
            }),
            (old(self).results@.len() < old(self).pending_uses@.len() ==> {
                let u = old(self).current_use();
                &&& final(self).phase is Dispatching
                &&& final(self).turn == old(self).turn
                &&& final(self).history@ == old(self).history@
                &&& final(self).pending_uses@ == old(self).pending_uses@
                &&& final(self).events@.take(old(self).events@.len() as int) == old(self).events@
                &&& (final(self).events@[old(self).events@.len() as int] matches
                    AgentEvent::ToolStart { tool, input } && tool@ == u.name && input@ == u.input)
                &&& (spec_decision(old(self).config, old(self).catalog, u.name) is Some ==> {
                    &&& final(self).tool_started
                    &&& final(self).results@ == old(self).results@
                    &&& final(self).events@.len() == old(self).events@.len() + 1
                })
                &&& (spec_decision(old(self).config, old(self).catalog, u.name) is None ==> {
                    &&& !final(self).tool_started
                    &&& final(self).results@.len() == old(self).results@.len() + 1
                    &&& final(self).results@.drop_last() == old(self).results@
                    &&& final(self).results@.last().is_failure()
                    &&& !final(self).results@.last().is_success()
                    &&& final(self).results@.last().tool_use_id@ == u.id
                    &&& final(self).events@.len() == old(self).events@.len() + 2
                    &&& (final(self).events@.last() matches AgentEvent::ToolEnd {
                        tool,
                        result,
                        success,
                    } && tool@ == u.name && result@ == final(self).results@.last().content@
                        && success == false)
                })
            }),
    {
        if self.results.len() == self.pending_uses.len() {
            let rs = clone_results(&self.results);
            self.results = Vec::new();
            self.pending_uses = Vec::new();
            let ghost h0 = self.history@;
            self.history.push(
                AgentMessage { role: "user".to_owned(), content: AgentContent::ToolResults(rs) },
            );
            proof {
                assert(self.history@.drop_last() =~= h0);
            }
            let new_turn = self.turn + 1;
            self.turn = new_turn;
            let ghost ev0 = self.events@;
            self.events.push(AgentEvent::TurnComplete { turn: new_turn });
            proof {
                lemma_turn_numbers_push(ev0, AgentEvent::TurnComplete { turn: new_turn });
                lemma_final_count_push(ev0, AgentEvent::TurnComplete { turn: new_turn });
                assert(spec_turn_range(new_turn) =~= spec_turn_range(
                    (new_turn - 1) as u32,
                ).push(new_turn));
            }
            if new_turn == self.config.max_turns {
                self.phase = Phase::TurnLimitReached;
                let ghost ev1 = self.events@;
                self.events.push(AgentEvent::Done { total_turns: new_turn });
                proof {
                    lemma_turn_numbers_push(ev1, AgentEvent::Done { total_turns: new_turn });
                    lemma_final_count_push(ev1, AgentEvent::Done { total_turns: new_turn });
                }
            } else {
                self.phase = Phase::AwaitingModel;
            }
        } else {
            let u = clone_tool_use(&self.pending_uses[self.results.len()]);
            let d = plan_dispatch(&u, &self.config, &self.catalog);
            let ghost ev0 = self.events@;
            self.events.push(
                AgentEvent::ToolStart { tool: u.name.clone(), input: u.input.clone() },
            );
            proof {
                let e = self.events@.last();
                assert(self.events@ =~= ev0.push(e));
                lemma_turn_numbers_push(ev0, e);
                lemma_final_count_push(ev0, e);
                assert(self.events@.take(ev0.len() as int) =~= ev0);
            }
            match d {
                DispatchDecision::Invoke { origin: _ } => {
                    self.tool_started = true;
                },
                DispatchDecision::Reject { result } => {
                    let ghost ev1 = self.events@;
                    self.events.push(
                        AgentEvent::ToolEnd {
                            tool: u.name,
                            result: result.content.clone(),
                            success: false,
                        },
                    );
                    proof {
                        let e = self.events@.last();
                        assert(self.events@ =~= ev1.push(e));
                        lemma_turn_numbers_push(ev1, e);
                        lemma_final_count_push(ev1, e);
                        assert(self.events@.take(ev0.len() as int) =~= ev0);
                    }
                    let ghost r0 = self.results@;
                    self.results.push(result);
                    proof {
                        assert(self.results@.drop_last() =~= r0);
                    }
                },
            }
        }
    }

    /// Record the outcome the driver got from running the current tool's
    /// handler: emit `ToolEnd`, append the normalized result — a success
    /// result holding the output, or an error result holding the failure
    /// message, either way answering the current tool use's id and echoing
    /// its continuation token — and move to the next tool use.
    pub fn on_tool_outcome(&mut self, output: String, error: Option<String>)
        requires
            old(self).wf(),
            old(self).phase is Dispatching,
            old(self).tool_started,
        ensures
            final(self).wf(),
            final(self).phase is Dispatching,
            !final(self).tool_started,
            final(self).config == old(self).config,
            final(self).catalog == old(self).catalog,
            final(self).turn == old(self).turn,
            final(self).history@ == old(self).history@,
            final(self).pending_uses@ == old(self).pending_uses@,
            final(self).seen_first_response == old(self).seen_first_response,
            final(self).transport_retries == old(self).transport_retries,
            final(self).results@.len() == old(self).results@.len() + 1,
            final(self).results@.drop_last() == old(self).results@,
            ({
                let u = old(self).current_use();
                let res = final(self).results@.last();
                &&& res.tool_use_id@ == u.id
                &&& res.thought_signature.deep_view() == u.thought_signature
                &&& (match error {
                    None => res.is_success() && !res.is_failure() && res.content@ == output@,
                    Some(m) => res.is_failure() && !res.is_success() && res.content@ == m@,
                })
            }),
            final(self).events@.take(old(self).events@.len() as int) == old(self).events@,
            final(self).events@.len() == old(self).events@.len() + 1,
            (final(self).events@.last() matches AgentEvent::ToolEnd { tool, result, success }
                && tool@ == old(self).current_use().name && result@
                == final(self).results@.last().content@ && success == (error is None)),
    {
        let k = self.results.len();
        let u = clone_tool_use(&self.pending_uses[k]);
        let success = match &error {
            None => true,
            Some(_) => false,
        };
        let res = wrap_outcome(&u, output, error);
        let ghost ev0 = self.events@;
        self.events.push(
            AgentEvent::ToolEnd { tool: u.name, result: res.content.clone(), success },
        );
        proof {
            let e = self.events@.last();
            assert(self.events@ =~= ev0.push(e));
            lemma_turn_numbers_push(ev0, e);
            lemma_final_count_push(ev0, e);
            assert(self.events@.take(ev0.len() as int) =~= ev0);
        }
        let ghost r0 = self.results@;
        self.results.push(res);
        proof {
            assert(self.results@.drop_last() =~= r0);
        }
        self.tool_started = false;
    }
}

impl AgentRun {
    /// Record what the model call came back with.
    ///
    /// A transport failure is absorbed up to [`TRANSPORT_RETRY_LIMIT`]
    /// times per run, after which the run fails. A response that does not
    /// parse fails the run at once (non-retryable). A parsed response is
    /// appended to the history as the assistant's message; its prose
    /// becomes `Text` events; a response with no tool-use blocks completes
    /// the run — whatever the turn number — emitting `TurnComplete` and
    /// `Done`, while one with tool uses moves to dispatching them in order.
    pub fn on_model(&mut self, outcome: ModelOutcome)
        requires
            old(self).wf(),
            old(self).phase is AwaitingModel,
        ensures
            final(self).wf(),
            final(self).config == old(self).config,
            final(self).catalog == old(self).catalog,
            (outcome matches ModelOutcome::Transport { message } ==> {
                &&& final(self).history@ == old(self).history@
                &&& final(self).turn == old(self).turn
                &&& (old(self).transport_retries < TRANSPORT_RETRY_LIMIT ==> final(self).phase
                    is AwaitingModel && final(self).transport_retries == old(self).transport_retries + 1 && final(self).events@ == old(self).events@)
                &&& (old(self).transport_retries >= TRANSPORT_RETRY_LIMIT ==> final(self).phase
                    is Failed && final(self).events@.len() == old(self).events@.len() + 1
                    && final(self).events@.drop_last() == old(self).events@ && (final(self).events@.last() matches AgentEvent::Error { message: m } && m@ == message@))
            }),
            (outcome matches ModelOutcome::Response { blocks } ==> {
                let parsed = spec_parse_blocks(blocks@.map_values(|w: WireBlock| w@));
                &&& (parsed is None ==> final(self).phase is Failed && final(self).history@
                    == old(self).history@ && final(self).turn == old(self).turn && final(self).events@.len() == old(self).events@.len() + 1 && final(self).events@.drop_last()
                    == old(self).events@ && (final(self).events@.last() matches AgentEvent::Error {
                    message: m,
                }))
                &&& (parsed matches Some(bs) ==> {
                    let texts = spec_texts(bs);
                    let uses = spec_tool_uses(bs);
                    &&& final(self).seen_first_response
                    &&& final(self).history@.len() == old(self).history@.len() + 1
                    &&& final(self).history@.drop_last() == old(self).history@
                    &&& final(self).history@.last().role@ == "assistant"@
                    &&& (final(self).history@.last().content matches AgentContent::Blocks(cbs)
                        && cbs@.map_values(|b: ContentBlock| b@) == bs)
                    &&& final(self).events@.take(old(self).events@.len() as int) == old(self).events@
                    &&& (forall|i: int|
                        0 <= i < texts.len() ==> spec_text_event(
                            texts[i],
                            !old(self).seen_first_response,
                            #[trigger] final(self).events@[old(self).events@.len() + i],
                        ))
                    &&& (uses.len() == 0 ==> {
                        &&& final(self).phase is Completed
                        &&& final(self).turn == old(self).turn + 1
                        &&& final(self).events@.len() == old(self).events@.len() + texts.len() + 2
                        &&& ((final(self).events@[old(self).events@.len() + texts.len() as int])
                            matches AgentEvent::TurnComplete { turn } && turn == old(self).turn
                            + 1)
                        &&& (final(self).events@.last() matches AgentEvent::Done { total_turns }
                            && total_turns == old(self).turn + 1)
                    })
                    &&& (uses.len() > 0 ==> {
                        &&& final(self).phase is Dispatching
                        &&& final(self).turn == old(self).turn
                        &&& final(self).pending_uses@.map_values(|t: ToolUse| t@) == uses
                        &&& final(self).results@.len() == 0
                        &&& !final(self).tool_started
                        &&& final(self).events@.len() == old(self).events@.len() + texts.len()
                    })
                })
            }),
    {
        match outcome {
            ModelOutcome::Transport { message } => {
                if self.transport_retries < TRANSPORT_RETRY_LIMIT {
                    self.transport_retries = self.transport_retries + 1;
                } else {
                    self.phase = Phase::Failed;
                    let ghost ev0 = self.events@;
                    self.events.push(AgentEvent::Error { message });
                    proof {
                        let e = self.events@.last();
                        assert(self.events@ =~= ev0.push(e));
                        lemma_turn_numbers_push(ev0, e);
                        lemma_final_count_push(ev0, e);
                        assert(self.events@.drop_last() =~= ev0);
                    }
                }
            },
            ModelOutcome::Response { blocks } => {
                match parse_blocks(&blocks) {
                    Err(err) => {
                        self.phase = Phase::Failed;
                        let message = match err {
                            AgentError::MalformedResponse { message } => message,
                            AgentError::Transport { message } => message,
                        };
                        let ghost ev0 = self.events@;
                        self.events.push(AgentEvent::Error { message });
                        proof {
                            let e = self.events@.last();
                            assert(self.events@ =~= ev0.push(e));
                            lemma_turn_numbers_push(ev0, e);
                            lemma_final_count_push(ev0, e);
                            assert(self.events@.drop_last() =~= ev0);
                        }
                    },
                    Ok(cbs) => {
                        let first = !self.seen_first_response;
                        self.seen_first_response = true;
                        let ghost bs = cbs@.map_values(|b: ContentBlock| b@);
                        let ghost ev_base = self.events@;
                        let mut uses: Vec<ToolUse> = Vec::new();
                        let mut i: usize = 0;
                        while i < cbs.len()
                            invariant
                                i <= cbs@.len(),
                                bs == cbs@.map_values(|b: ContentBlock| b@),
                                self.events@.len() == ev_base.len() + spec_texts(
                                    bs.take(i as int),
                                ).len(),
                                self.events@.take(ev_base.len() as int) == ev_base,
                                first == !old(self).seen_first_response,
                                forall|j: int|
                                    0 <= j < spec_texts(bs.take(i as int)).len()
                                        ==> spec_text_event(
                                        spec_texts(bs.take(i as int))[j],
                                        first,
                                        #[trigger] self.events@[ev_base.len() + j],
                                    ),
                                uses@.map_values(|t: ToolUse| t@) == spec_tool_uses(
                                    bs.take(i as int),
                                ),
                                spec_turn_numbers(self.events@) == spec_turn_range(self.turn),
                                spec_final_count(self.events@) == 0,
                                self.config == old(self).config,
                                self.catalog == old(self).catalog,
                                self.turn == old(self).turn,
                                self.phase == old(self).phase,
                                self.history@ == old(self).history@,
                                self.pending_uses@ == old(self).pending_uses@,
                                self.results@ == old(self).results@,
                                self.tool_started == old(self).tool_started,
                                self.transport_retries == old(self).transport_retries,
                                self.seen_first_response,
                                old(self).wf(),
                            decreases cbs@.len() - i,
                        {
                            proof {
                                assert(bs.take(i + 1).drop_last() =~= bs.take(i as int));
                                assert(bs.take(i + 1).last() == bs[i as int]);
                            }
                            match &cbs[i] {
                                ContentBlock::Text { text } => {
                                    let ghost ev1 = self.events@;
                                    let e = classify_text(text.as_str(), first);
                                    proof {
                                        lemma_text_event_is_progress(text@, first, e);
                                    }
                                    self.events.push(e);
                                    proof {
                                        assert(self.events@ =~= ev1.push(e));
                                        lemma_turn_numbers_push(ev1, e);
                                        lemma_final_count_push(ev1, e);
                                        assert(self.events@.take(ev_base.len() as int)
                                            =~= ev_base);
                                        assert(spec_texts(bs.take(i + 1)) =~= spec_texts(
                                            bs.take(i as int),
                                        ).push(text@));
                                    }
                                },
                                ContentBlock::ToolUse {
                                    id,
                                    name,
                                    input,
                                    thought_signature,
                                } => {
                                    uses.push(
                                        ToolUse {
                                            id: id.clone(),
                                            name: name.clone(),
                                            input: input.clone(),
                                            thought_signature: clone_opt_str(thought_signature),
                                        },
                                    );
                                    proof {
                                        assert(uses@.map_values(|t: ToolUse| t@)
                                            =~= spec_tool_uses(bs.take(i + 1)));
                                    }
                                },
                            }
                            i = i + 1;
                        }
                        proof {
                            assert(bs.take(cbs@.len() as int) =~= bs);
                        }
                        let ghost h0 = self.history@;
                        self.history.push(
                            AgentMessage {
                                role: "assistant".to_owned(),
                                content: AgentContent::Blocks(cbs),
                            },
                        );
                        proof {
                            assert(self.history@.drop_last() =~= h0);
                        }
                        if uses.len() == 0 {
                            let new_turn = self.turn + 1;
                            self.turn = new_turn;
                            let ghost ev1 = self.events@;
                            self.events.push(AgentEvent::TurnComplete { turn: new_turn });
                            proof {
                                lemma_turn_numbers_push(
                                    ev1,
                                    AgentEvent::TurnComplete { turn: new_turn },
                                );
                                lemma_final_count_push(
                                    ev1,
                                    AgentEvent::TurnComplete { turn: new_turn },
                                );
                                assert(spec_turn_range(new_turn) =~= spec_turn_range(
                                    (new_turn - 1) as u32,
                                ).push(new_turn));
                                assert(self.events@.take(ev_base.len() as int) =~= ev_base);
                            }
                            self.phase = Phase::Completed;
                            let ghost ev2 = self.events@;
                            self.events.push(AgentEvent::Done { total_turns: new_turn });
                            proof {
                                lemma_turn_numbers_push(
                                    ev2,
                                    AgentEvent::Done { total_turns: new_turn },
                                );
                                lemma_final_count_push(
                                    ev2,
                                    AgentEvent::Done { total_turns: new_turn },
                                );
                                assert(self.events@.take(ev_base.len() as int) =~= ev_base);
                            }
                        } else {
                            self.pending_uses = uses;
                            self.results = Vec::new();
                            self.tool_started = false;
                            self.phase = Phase::Dispatching;
                        }
                    },
                }
            },
        }
    }
}

/// An equal copy of one tool use.
fn clone_tool_use(u: &ToolUse) -> (r: ToolUse)
    ensures
        r == *u,
{
    ToolUse {
        id: u.id.clone(),
        name: u.name.clone(),
        input: u.input.clone(),
        thought_signature: clone_opt_str(&u.thought_signature),
    }
}

/// An equal copy of a result list.
fn clone_results(v: &Vec<ToolResult>) -> (r: Vec<ToolResult>)
    ensures
        r@ == v@,
{
    let mut out: Vec<ToolResult> = Vec::new();
    let mut i: usize = 0;
    while i < v.len()
        invariant
            i <= v@.len(),
            out@ == v@.take(i as int),
        decreases v@.len() - i,
    {
        let t = &v[i];
        out.push(
            ToolResult {
                result_type: t.result_type.clone(),
                tool_use_id: t.tool_use_id.clone(),
                content: t.content.clone(),
                is_error: t.is_error,
                thought_signature: clone_opt_str(&t.thought_signature),
            },
        );
        proof {
            assert(out@ =~= v@.take(i + 1));
        }
        i = i + 1;
    }
    proof {
        assert(v@.take(v@.len() as int) =~= v@);
    }
    out
}

} // verus!
