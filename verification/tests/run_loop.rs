use agent_core::catalog::ToolCatalog;
use agent_core::run::{AgentRun, ModelOutcome, Phase, StepAction};
use agent_core::types::{AgentConfig, AgentContent, AgentEvent};
use agent_core::wire::WireBlock;

fn def(name: &str) -> agent_core::types::ToolDefinition {
    agent_core::types::ToolDefinition {
        name: name.to_string(),
        description: format!("{} tool", name),
        input_schema: "{}".to_string(),
    }
}

fn catalog() -> ToolCatalog {
    let mut cat = ToolCatalog::new();
    cat.register(def("read_file"));
    cat.register(def("bash"));
    cat
}

fn config(max_turns: u32, allowed: &[&str]) -> AgentConfig {
    let mut c = AgentConfig::default();
    c.max_turns = max_turns;
    c.allowed_tools = allowed.iter().map(|s| s.to_string()).collect();
    c
}

fn text_wire(text: &str) -> WireBlock {
    WireBlock {
        block_type: "text".to_string(),
        text: Some(text.to_string()),
        id: None,
        name: None,
        input: None,
        tool_use_id: None,
        content: None,
        is_error: None,
        thought_signature: None,
    }
}

fn tool_use_wire(id: &str, name: &str) -> WireBlock {
    WireBlock {
        block_type: "tool_use".to_string(),
        text: None,
        id: Some(id.to_string()),
        name: Some(name.to_string()),
        input: Some("{}".to_string()),
        tool_use_id: None,
        content: None,
        is_error: None,
        thought_signature: None,
    }
}

fn turn_numbers(run: &AgentRun) -> Vec<u32> {
    run.events
        .iter()
        .filter_map(|e| match e {
            AgentEvent::TurnComplete { turn } => Some(*turn),
            _ => None,
        })
        .collect()
}

#[test]
fn zero_tool_response_completes_the_run() {
    let mut run = AgentRun::new(config(20, &["read_file"]), catalog(), "hello".to_string());
    assert!(matches!(run.next_action(), StepAction::CallModel));
    run.on_model(ModelOutcome::Response { blocks: vec![text_wire("all done")] });
    assert_eq!(run.phase, Phase::Completed);
    assert!(matches!(run.next_action(), StepAction::Finished));
    assert_eq!(
        run.events,
        vec![
            AgentEvent::Text { content: "all done".to_string() },
            AgentEvent::TurnComplete { turn: 1 },
            AgentEvent::Done { total_turns: 1 },
        ]
    );
}

#[test]
fn disallowed_tool_never_runs_and_yields_error_result() {
    // allowed_tools = ["read_file"], the model asks for bash
    let mut run = AgentRun::new(config(20, &["read_file"]), catalog(), "task".to_string());
    run.on_model(ModelOutcome::Response { blocks: vec![tool_use_wire("t1", "bash")] });
    assert_eq!(run.phase, Phase::Dispatching);
    // the rejection is internal work: the driver is never handed a RunTool
    assert!(matches!(run.next_action(), StepAction::Advance));
    run.advance();
    assert!(matches!(run.next_action(), StepAction::Advance));
    run.advance();
    // the turn closed; the expected events came in order
    assert!(matches!(
        run.events[0],
        AgentEvent::ToolStart { ref tool, .. } if tool == "bash"
    ));
    assert!(matches!(
        run.events[1],
        AgentEvent::ToolEnd { ref tool, success: false, .. } if tool == "bash"
    ));
    assert!(matches!(run.events[2], AgentEvent::TurnComplete { turn: 1 }));
    // the error result answers t1 and went into the history
    match &run.history.last().unwrap().content {
        AgentContent::ToolResults(rs) => {
            assert_eq!(rs.len(), 1);
            assert_eq!(rs[0].tool_use_id, "t1");
            assert_eq!(rs[0].is_error, Some(true));
        },
        other => panic!("expected tool results, got {:?}", other),
    }
}

#[test]
fn results_answer_uses_in_order() {
    let mut run = AgentRun::new(config(20, &["read_file", "bash"]), catalog(), "go".to_string());
    run.on_model(ModelOutcome::Response {
        blocks: vec![tool_use_wire("t1", "read_file"), tool_use_wire("t2", "bash")],
    });
    // first tool
    run.advance();
    assert!(matches!(run.next_action(), StepAction::RunTool { ref id, .. } if id == "t1"));
    run.on_tool_outcome("one".to_string(), None);
    // second tool
    run.advance();
    assert!(matches!(run.next_action(), StepAction::RunTool { ref id, .. } if id == "t2"));
    run.on_tool_outcome(String::new(), Some("exit 1".to_string()));
    // close the turn
    run.advance();
    match &run.history.last().unwrap().content {
        AgentContent::ToolResults(rs) => {
            assert_eq!(rs.len(), 2);
            assert_eq!(rs[0].tool_use_id, "t1");
            assert_eq!(rs[0].content, "one");
            assert_eq!(rs[0].is_error, None);
            assert_eq!(rs[1].tool_use_id, "t2");
            assert_eq!(rs[1].content, "exit 1");
            assert_eq!(rs[1].is_error, Some(true));
        },
        other => panic!("expected tool results, got {:?}", other),
    }
    assert_eq!(run.phase, Phase::AwaitingModel);
}

#[test]
fn turn_limit_stops_the_run_after_one_turn() {
    // max_turns = 1 and the first response asks for a tool
    let mut run = AgentRun::new(config(1, &["read_file"]), catalog(), "task".to_string());
    run.on_model(ModelOutcome::Response { blocks: vec![tool_use_wire("t1", "read_file")] });
    run.advance();
    assert!(matches!(run.next_action(), StepAction::RunTool { .. }));
    run.on_tool_outcome("data".to_string(), None);
    run.advance();
    // the run ended at the limit: no second model call ever begins
    assert_eq!(run.phase, Phase::TurnLimitReached);
    assert!(matches!(run.next_action(), StepAction::Finished));
    assert_eq!(run.turn, 1);
    assert_eq!(*run.events.last().unwrap(), AgentEvent::Done { total_turns: 1 });
    assert_eq!(turn_numbers(&run), vec![1]);
}

#[test]
fn turn_numbers_increase_by_one_from_one() {
    let mut run = AgentRun::new(config(20, &["read_file"]), catalog(), "task".to_string());
    for i in 0..3 {
        run.on_model(ModelOutcome::Response {
            blocks: vec![tool_use_wire(&format!("t{}", i), "read_file")],
        });
        run.advance();
        run.on_tool_outcome("ok".to_string(), None);
        run.advance();
    }
    run.on_model(ModelOutcome::Response { blocks: vec![text_wire("finished")] });
    assert_eq!(run.phase, Phase::Completed);
    assert_eq!(turn_numbers(&run), vec![1, 2, 3, 4]);
    assert_eq!(*run.events.last().unwrap(), AgentEvent::Done { total_turns: 4 });
}

#[test]
fn transport_errors_are_retried_then_fatal() {
    let mut run = AgentRun::new(config(20, &["read_file"]), catalog(), "task".to_string());
    for _ in 0..3 {
        run.on_model(ModelOutcome::Transport { message: "rate limited".to_string() });
        assert_eq!(run.phase, Phase::AwaitingModel);
    }
    run.on_model(ModelOutcome::Transport { message: "rate limited".to_string() });
    assert_eq!(run.phase, Phase::Failed);
    assert!(matches!(run.next_action(), StepAction::Finished));
    assert!(matches!(
        run.events.last().unwrap(),
        AgentEvent::Error { message } if message == "rate limited"
    ));
}

#[test]
fn transport_error_then_response_continues() {
    let mut run = AgentRun::new(config(20, &["read_file"]), catalog(), "task".to_string());
    run.on_model(ModelOutcome::Transport { message: "timeout".to_string() });
    assert_eq!(run.phase, Phase::AwaitingModel);
    assert!(run.events.is_empty());
    run.on_model(ModelOutcome::Response { blocks: vec![text_wire("ok")] });
    assert_eq!(run.phase, Phase::Completed);
}

#[test]
fn continuation_token_is_echoed_on_the_result() {
    let mut run = AgentRun::new(config(20, &["read_file"]), catalog(), "task".to_string());
    let mut u = tool_use_wire("t1", "read_file");
    u.thought_signature = Some("sig-42".to_string());
    run.on_model(ModelOutcome::Response { blocks: vec![u] });
    run.advance();
    run.on_tool_outcome("data".to_string(), None);
    run.advance();
    match &run.history.last().unwrap().content {
        AgentContent::ToolResults(rs) => {
            assert_eq!(rs[0].tool_use_id, "t1");
            assert_eq!(rs[0].thought_signature, Some("sig-42".to_string()));
        },
        other => panic!("expected tool results, got {:?}", other),
    }
}

#[test]
fn malformed_response_fails_the_run() {
    let mut run = AgentRun::new(config(20, &["read_file"]), catalog(), "task".to_string());
    let mut bad = text_wire("hi");
    bad.block_type = "thinking".to_string();
    run.on_model(ModelOutcome::Response { blocks: vec![bad] });
    assert_eq!(run.phase, Phase::Failed);
    assert!(matches!(run.events.last().unwrap(), AgentEvent::Error { .. }));
}

#[test]
fn first_response_plan_becomes_a_plan_event() {
    let mut run = AgentRun::new(config(20, &["read_file"]), catalog(), "task".to_string());
    run.on_model(ModelOutcome::Response {
        blocks: vec![
            text_wire("<plan>\n1. Read\n2. Write\n</plan>"),
            text_wire("[STEP 1 START]"),
            text_wire("reading now"),
        ],
    });
    assert_eq!(run.phase, Phase::Completed);
    match &run.events[0] {
        AgentEvent::Plan { steps } => {
            assert_eq!(steps.len(), 2);
            assert_eq!(steps[0].step, 1);
            assert_eq!(steps[0].description, "Read");
            assert_eq!(steps[1].step, 2);
            assert_eq!(steps[1].description, "Write");
        },
        other => panic!("expected a plan event, got {:?}", other),
    }
    assert_eq!(run.events[1], AgentEvent::StepStart { step: 1 });
    assert_eq!(run.events[2], AgentEvent::Text { content: "reading now".to_string() });
}

#[test]
fn assistant_reply_is_appended_to_history() {
    let mut run = AgentRun::new(config(20, &["read_file"]), catalog(), "hello".to_string());
    assert_eq!(run.history.len(), 1);
    assert_eq!(run.history[0].role, "user");
    assert_eq!(run.history[0].content, AgentContent::Text("hello".to_string()));
    run.on_model(ModelOutcome::Response { blocks: vec![text_wire("hi there")] });
    assert_eq!(run.history.len(), 2);
    assert_eq!(run.history[1].role, "assistant");
    match &run.history[1].content {
        AgentContent::Blocks(bs) => assert_eq!(bs.len(), 1),
        other => panic!("expected blocks, got {:?}", other),
    }
}

#[test]
fn zero_turn_budget_ends_immediately() {
    let run = AgentRun::new(config(0, &["read_file"]), catalog(), "task".to_string());
    assert_eq!(run.phase, Phase::TurnLimitReached);
    assert_eq!(run.events, vec![AgentEvent::Done { total_turns: 0 }]);
    assert!(matches!(run.next_action(), StepAction::Finished));
}
