//! The typed representation of conversation turns and run configuration.
//!
//! Structured tool inputs and schemas are opaque to the core: it never reads
//! inside them, only carries them between the model and the tool handlers.
//! They are therefore held as their raw JSON text (a plain `String`); the
//! embedding application encodes and decodes them at its own boundary.

use vstd::prelude::*;

verus! {

/// Schema and metadata of one tool available to the agent.
#[derive(Debug, Clone, PartialEq, Eq)]
pub struct ToolDefinition {
    /// The unique name of the tool.
    pub name: String,
    /// What the tool does, used by the model to decide when to call it.
    pub description: String,
    /// The JSON schema of the expected input parameters, as JSON text.
    pub input_schema: String,
}

/// A request from the model to run a specific tool, parsed from a response.
#[derive(Debug, Clone, PartialEq, Eq)]
pub struct ToolUse {
    /// Unique identifier of this tool-use call within the conversation.
    pub id: String,
    /// The name of the tool to execute.
    pub name: String,
    /// The input parameters chosen by the model, as JSON text.
    pub input: String,
    /// Opaque provider continuation token; echoed back on the result.
    pub thought_signature: Option<String>,
}

/// The outcome of one tool execution, sent back to the model.
#[derive(Debug, Clone, PartialEq, Eq)]
pub struct ToolResult {
    /// The wire tag of the result block (always `tool_result`).
    pub result_type: String,
    /// The id of the tool-use request this result answers.
    pub tool_use_id: String,
    /// The output content on success, or the error message.
    pub content: String,
    /// `Some(true)` when the execution failed, absent otherwise.
    pub is_error: Option<bool>,
    /// Opaque provider continuation token carried over from the request.
    pub thought_signature: Option<String>,
}

impl ToolResult {
    /// True of a result built by [`ToolResult::success`].
    pub open spec fn is_success(self) -> bool {
        &&& self.result_type@ == "tool_result"@
        &&& self.is_error is None
    }

    /// True of a result built by [`ToolResult::error`].
    pub open spec fn is_failure(self) -> bool {
        &&& self.result_type@ == "tool_result"@
        &&& self.is_error == Some(true)
    }

    /// Creates a successful tool result: `is_error` is absent.
    pub fn success(tool_use_id: String, content: String) -> (r: ToolResult)
        ensures
            r.is_success(),
            !r.is_failure(),
            r.tool_use_id == tool_use_id,
            r.content == content,
            r.thought_signature is None,
    {
        ToolResult {
            result_type: tool_result_tag(),
            tool_use_id,
            content,
            is_error: None,
            thought_signature: None,
        }
    }

    /// Creates an error tool result: `is_error` is `Some(true)` and the
    /// content holds the error message.
    pub fn error(tool_use_id: String, error: String) -> (r: ToolResult)
        ensures
            r.is_failure(),
            !r.is_success(),
            r.tool_use_id == tool_use_id,
            r.content == error,
            r.thought_signature is None,
    {
        ToolResult {
            result_type: tool_result_tag(),
            tool_use_id,
            content: error,
            is_error: Some(true),
            thought_signature: None,
        }
    }
}

/// The fixed wire tag of a tool-result block.
fn tool_result_tag() -> (r: String)
    ensures
        r@ == "tool_result"@,
{
    let r = "tool_result".to_owned();
    r
}

/// One unit of model output: prose, or a request to run a tool.
#[derive(Debug, Clone, PartialEq, Eq)]
pub enum ContentBlock {
    Text { text: String },
    ToolUse {
        id: String,
        name: String,
        /// The input parameters chosen by the model, as JSON text.
        input: String,
        /// Opaque provider continuation token; echoed back on the result.
        thought_signature: Option<String>,
    },
}

/// One message of the conversation history.
#[derive(Debug, Clone, PartialEq, Eq)]
pub struct AgentMessage {
    /// Who produced the message: `user` or `assistant`.
    pub role: String,
    pub content: AgentContent,
}

/// The three legal shapes of a message body.
#[derive(Debug, Clone, PartialEq, Eq)]
pub enum AgentContent {
    /// Plain user text.
    Text(String),
    /// An assistant reply: interleaved prose and tool-use blocks.
    Blocks(Vec<ContentBlock>),
    /// A user-role batch of tool results answering the previous reply.
    ToolResults(Vec<ToolResult>),
}

/// Configuration of one agent run; immutable for the run's lifetime.
#[derive(Debug, Clone, PartialEq, Eq)]
pub struct AgentConfig {
    pub system_prompt: String,
    /// Upper bound on completed model round trips.
    pub max_turns: u32,
    pub project_path: Option<String>,
    /// Names of the tools the dispatcher may invoke.
    pub allowed_tools: Vec<String>,
}

/// An observable transition of the run, delivered to a subscriber in
/// emission order. Strictly output-only: never consumed back into run state.
#[derive(Debug, Clone, PartialEq, Eq)]
pub enum AgentEvent {
    Text { content: String },
    Plan { steps: Vec<PlanStepInfo> },
    StepStart { step: i32 },
    StepDone { step: i32 },
    ToolStart { tool: String, input: String },
    ToolEnd { tool: String, result: String, success: bool },
    TurnComplete { turn: u32 },
    Done { total_turns: u32 },
    Error { message: String },
}

/// One step of the plan the model emits at the start of a run.
#[derive(Debug, Clone, PartialEq, Eq)]
pub struct PlanStepInfo {
    pub step: i32,
    pub description: String,
}

/// Spec-level model of a plan step: the number as an integer, the
/// description as its view.
#[verifier::ext_equal]
pub struct PlanStepView {
    pub step: int,
    pub description: Seq<char>,
}

impl View for PlanStepInfo {
    type V = PlanStepView;

    open spec fn view(&self) -> PlanStepView {
        PlanStepView { step: self.step as int, description: self.description@ }
    }
}

/// A failure the run cannot route around; ends the run in the failed state.
///
/// Tool-level failures never take this shape: they are recovered locally
/// into an error [`ToolResult`] and fed back to the model.
#[derive(Debug, Clone, PartialEq, Eq)]
pub enum AgentError {
    /// The model provider could not be reached, after bounded retries.
    Transport { message: String },
    /// A response content block had an unrecognized tag or lacked a
    /// required field; non-retryable for that response.
    MalformedResponse { message: String },
}

/// Spec-level model of a content block: each string as its view.
#[verifier::ext_equal]
pub enum BlockView {
    Text { text: Seq<char> },
    ToolUse {
        id: Seq<char>,
        name: Seq<char>,
        input: Seq<char>,
        thought_signature: Option<Seq<char>>,
    },
}

impl View for ContentBlock {
    type V = BlockView;

    open spec fn view(&self) -> BlockView {
        match self {
            ContentBlock::Text { text } => BlockView::Text { text: text@ },
            ContentBlock::ToolUse { id, name, input, thought_signature } => BlockView::ToolUse {
                id: id@,
                name: name@,
                input: input@,
                thought_signature: thought_signature.deep_view(),
            },
        }
    }
}

/// Spec-level model of a tool use: each string as its view.
#[verifier::ext_equal]
pub struct ToolUseView {
    pub id: Seq<char>,
    pub name: Seq<char>,
    pub input: Seq<char>,
    pub thought_signature: Option<Seq<char>>,
}

impl View for ToolUse {
    type V = ToolUseView;

    open spec fn view(&self) -> ToolUseView {
        ToolUseView {
            id: self.id@,
            name: self.name@,
            input: self.input@,
            thought_signature: self.thought_signature.deep_view(),
        }
    }
}

/// Spec-level model of a tool result: each string as its view.
#[verifier::ext_equal]
pub struct ToolResultView {
    pub result_type: Seq<char>,
    pub tool_use_id: Seq<char>,
    pub content: Seq<char>,
    pub is_error: Option<bool>,
    pub thought_signature: Option<Seq<char>>,
}

impl View for ToolResult {
    type V = ToolResultView;

    open spec fn view(&self) -> ToolResultView {
        ToolResultView {
            result_type: self.result_type@,
            tool_use_id: self.tool_use_id@,
            content: self.content@,
            is_error: self.is_error,
            thought_signature: self.thought_signature.deep_view(),
        }
    }
}

} // verus!
