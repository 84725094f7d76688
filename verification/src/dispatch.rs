//! The tool dispatcher: from a model-issued tool use to a tool result.
//!
//! The decision — may this tool run, and which handler answers it — is pure
//! and made here. The handler invocation itself is outside work; the caller
//! runs it and hands the outcome back to [`wrap_outcome`], which normalizes
//! every outcome into one uniform [`ToolResult`] shape. Execution never
//! raises past this boundary: a disallowed name, an unknown name and a
//! failed handler all become error results, and the run continues.

use vstd::prelude::*;
use vstd::string::StringExecFns;
use crate::catalog::{spec_resolve, ToolCatalog, ToolOrigin};
use crate::strutil::{clone_opt_str, contains_name, spec_contains_name};
use crate::types::{AgentConfig, ToolResult, ToolUse};

verus! {

/// What the dispatcher decided about one tool use.
pub enum DispatchDecision {
    /// The tool may run: invoke this handler with the tool use's input.
    Invoke { origin: ToolOrigin },
    /// The tool may not run; feed this error result back to the model.
    Reject { result: ToolResult },
}

/// The names a configuration allows, as views.
pub open spec fn spec_allowed_names(config: AgentConfig) -> Seq<Seq<char>> {
    config.allowed_tools@.map_values(|s: String| s@)
}

/// Whether the configuration allows a tool name.
pub open spec fn spec_is_allowed(config: AgentConfig, name: Seq<char>) -> bool {
    spec_contains_name(spec_allowed_names(config), name)
}

/// The dispatcher's decision on one tool use, as a spec value: reject a
/// name the configuration does not allow, then a name the catalog cannot
/// resolve; otherwise invoke the resolved handler. `None` in the reject
/// positions stands for "some error result".
pub open spec fn spec_decision(
    config: AgentConfig,
    catalog: ToolCatalog,
    name: Seq<char>,
) -> Option<ToolOrigin> {
    if !spec_is_allowed(config, name) {
        None
    } else {
        spec_resolve(catalog.local@, catalog.remote@, name)
    }
}

/// An error result for `u`, carrying the given message and echoing the
/// tool use's continuation token.
fn reject_result(u: &ToolUse, message: String) -> (r: ToolResult)
    ensures
        r.is_failure(),
        !r.is_success(),
        r.tool_use_id@ == u.id@,
        r.content@ == message@,
        r.thought_signature == u.thought_signature,
{
    let mut r = ToolResult::error(u.id.clone(), message);
    r.thought_signature = clone_opt_str(&u.thought_signature);
    r
}

/// Decide whether one tool use may run.
///
/// A name absent from `allowed_tools` never reaches any handler: it yields
/// an error result referencing the tool use's id. An allowed name the
/// catalog cannot resolve does the same. Otherwise the resolved handler
/// (local tools shadowing remote ones) is to be invoked.
pub fn plan_dispatch(u: &ToolUse, config: &AgentConfig, catalog: &ToolCatalog) -> (d:
    DispatchDecision)
    ensures
        (match d {
            DispatchDecision::Invoke { origin } => spec_decision(*config, *catalog, u.name@)
                == Some(origin),
            DispatchDecision::Reject { result } => spec_decision(*config, *catalog, u.name@)
                is None && result.is_failure() && !result.is_success() && result.tool_use_id@
                == u.id@ && result.thought_signature == u.thought_signature,
        }),
        spec_decision(*config, *catalog, u.name@) is Some <==> d is Invoke,
{
    if !contains_name(&config.allowed_tools, u.name.as_str()) {
        let mut message = "tool is not allowed: ".to_owned();
        message.append(u.name.as_str());
        return DispatchDecision::Reject { result: reject_result(u, message) };
    }
    match catalog.resolve(u.name.as_str()) {
        Some(origin) => DispatchDecision::Invoke { origin },
        None => {
            let mut message = "tool not found: ".to_owned();
            message.append(u.name.as_str());
            DispatchDecision::Reject { result: reject_result(u, message) }
        },
    }
}

/// Normalize a handler outcome into the one shape the turn loop appends:
/// a success result holding the output (no error marker), or an error
/// result holding the failure message. Either way the result answers the
/// originating tool use's id and echoes its continuation token.
pub fn wrap_outcome(u: &ToolUse, output: String, error: Option<String>) -> (r: ToolResult)
    ensures
        r.tool_use_id@ == u.id@,
        r.thought_signature == u.thought_signature,
        (match error {
            None => r.is_success() && !r.is_failure() && r.content@ == output@,
            Some(message) => r.is_failure() && !r.is_success() && r.content@ == message@,
        }),
{
    let mut r = match error {
        None => ToolResult::success(u.id.clone(), output),
        Some(message) => ToolResult::error(u.id.clone(), message),
    };
    r.thought_signature = clone_opt_str(&u.thought_signature);
    r
}

} // verus!
