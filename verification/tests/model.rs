use agent_core::catalog::{ToolCatalog, ToolOrigin};
use agent_core::dispatch::{plan_dispatch, wrap_outcome, DispatchDecision};
use agent_core::prompt::{build_system_prompt, SkillInfo, DEFAULT_SYSTEM_PROMPT};
use agent_core::text::{classify_text, parse_step_line, plan_of, step_marker};
use agent_core::types::{AgentConfig, AgentContent, AgentEvent, AgentMessage, ContentBlock, ToolResult};
use agent_core::wire::{message_to_wire, parse_blocks, serialize_blocks, WireBlock};

fn def(name: &str) -> agent_core::types::ToolDefinition {
    agent_core::types::ToolDefinition {
        name: name.to_string(),
        description: format!("{} tool", name),
        input_schema: "{}".to_string(),
    }
}

fn text_wire(text: &str) -> WireBlock {
    WireBlock {
        block_type: "text".to_string(),
        text: Some(text.to_string()),
        id: None,
        name: None,
        input: None,
        tool_use_id: None,
        content: None,
        is_error: None,
        thought_signature: None,
    }
}

fn tool_use_wire(id: &str, name: &str, input: &str, sig: Option<&str>) -> WireBlock {
    WireBlock {
        block_type: "tool_use".to_string(),
        text: None,
        id: Some(id.to_string()),
        name: Some(name.to_string()),
        input: Some(input.to_string()),
        tool_use_id: None,
        content: None,
        is_error: None,
        thought_signature: sig.map(|s| s.to_string()),
    }
}

#[test]
fn success_result_has_no_error_marker() {
    let r = ToolResult::success("t1".to_string(), "output".to_string());
    assert_eq!(r.result_type, "tool_result");
    assert_eq!(r.tool_use_id, "t1");
    assert_eq!(r.content, "output");
    assert_eq!(r.is_error, None);
    assert_eq!(r.thought_signature, None);
}

#[test]
fn error_result_is_marked() {
    let r = ToolResult::error("t2".to_string(), "boom".to_string());
    assert_eq!(r.result_type, "tool_result");
    assert_eq!(r.tool_use_id, "t2");
    assert_eq!(r.content, "boom");
    assert_eq!(r.is_error, Some(true));
    assert_eq!(r.thought_signature, None);
}

#[test]
fn constructors_are_mutually_exclusive() {
    let ok = ToolResult::success("a".to_string(), "x".to_string());
    let bad = ToolResult::error("a".to_string(), "x".to_string());
    assert!(ok.is_error.is_none());
    assert_eq!(bad.is_error, Some(true));
    assert_ne!(ok, bad);
}

#[test]
fn default_config() {
    let c = AgentConfig::default();
    assert_eq!(c.max_turns, 20);
    assert_eq!(c.project_path, None);
    assert_eq!(
        c.allowed_tools,
        vec![
            "read_file",
            "write_file",
            "edit_file",
            "bash",
            "glob",
            "grep",
            "list_dir",
            "docker_run",
            "docker_list",
            "docker_images"
        ]
        .into_iter()
        .map(|s| s.to_string())
        .collect::<Vec<String>>()
    );
    assert_eq!(c.system_prompt, DEFAULT_SYSTEM_PROMPT);
}

#[test]
fn prompt_without_skills_is_the_template() {
    let p = build_system_prompt(&Vec::new(), "/home/u/.kuse-cowork/skills");
    assert_eq!(p, DEFAULT_SYSTEM_PROMPT);
}

#[test]
fn prompt_with_skills_lists_each_one() {
    let skills = vec![
        SkillInfo { name: "pdf".to_string(), description: "Work with PDFs".to_string() },
        SkillInfo { name: "xlsx".to_string(), description: "Spreadsheets".to_string() },
    ];
    let p = build_system_prompt(&skills, "/skills");
    assert!(p.starts_with(DEFAULT_SYSTEM_PROMPT));
    assert!(p.contains("\n\n## Available Skills\nSkills are located in /skills (auto-mounted at /skills in Docker):\n\n"));
    assert!(p.contains("- **pdf**: Work with PDFs\n- **xlsx**: Spreadsheets\n"));
    assert!(p.contains("read_file tool: `/skills/{skill_name}/SKILL.md`"));
    assert!(p.ends_with("expand to the user's home directory.\n"));
}

#[test]
fn blocks_round_trip() {
    let blocks = vec![
        ContentBlock::Text { text: "hi".to_string() },
        ContentBlock::ToolUse {
            id: "t1".to_string(),
            name: "read_file".to_string(),
            input: "{\"path\":\"a.txt\"}".to_string(),
            thought_signature: Some("sig-1".to_string()),
        },
        ContentBlock::Text { text: "done".to_string() },
    ];
    let wire = serialize_blocks(&blocks);
    assert_eq!(wire.len(), 3);
    assert_eq!(wire[0].block_type, "text");
    assert_eq!(wire[1].block_type, "tool_use");
    assert_eq!(wire[1].thought_signature, Some("sig-1".to_string()));
    let back = parse_blocks(&wire).expect("round trip parses");
    assert_eq!(back, blocks);
}

#[test]
fn parse_rejects_unknown_tag() {
    let mut w = text_wire("hi");
    w.block_type = "thinking".to_string();
    assert!(parse_blocks(&vec![w]).is_err());
}

#[test]
fn parse_rejects_missing_fields() {
    let mut w = text_wire("hi");
    w.text = None;
    assert!(parse_blocks(&vec![w]).is_err());
    let mut u = tool_use_wire("t1", "bash", "{}", None);
    u.id = None;
    assert!(parse_blocks(&vec![text_wire("ok"), u]).is_err());
}

#[test]
fn tool_results_message_serializes_to_result_blocks() {
    let r1 = ToolResult::success("t1".to_string(), "out".to_string());
    let mut r2 = ToolResult::error("t2".to_string(), "bad".to_string());
    r2.thought_signature = Some("sig".to_string());
    let m = AgentMessage {
        role: "user".to_string(),
        content: AgentContent::ToolResults(vec![r1, r2]),
    };
    let w = message_to_wire(&m);
    assert_eq!(w.role, "user");
    assert_eq!(w.blocks.len(), 2);
    assert_eq!(w.blocks[0].block_type, "tool_result");
    assert_eq!(w.blocks[0].tool_use_id, Some("t1".to_string()));
    assert_eq!(w.blocks[0].content, Some("out".to_string()));
    assert_eq!(w.blocks[0].is_error, None);
    assert_eq!(w.blocks[1].is_error, Some(true));
    assert_eq!(w.blocks[1].thought_signature, Some("sig".to_string()));
}

#[test]
fn text_message_serializes_to_one_text_block() {
    let m = AgentMessage { role: "user".to_string(), content: AgentContent::Text("hello".to_string()) };
    let w = message_to_wire(&m);
    assert_eq!(w.blocks.len(), 1);
    assert_eq!(w.blocks[0].block_type, "text");
    assert_eq!(w.blocks[0].text, Some("hello".to_string()));
}

#[test]
fn resolve_prefers_local_over_remote() {
    let mut cat = ToolCatalog::new();
    cat.register(def("read_file"));
    cat.register(def("bash"));
    cat.set_remote_tools(vec![def("bash"), def("weather")]);
    assert_eq!(cat.resolve("read_file"), Some(ToolOrigin::Local { index: 0 }));
    assert_eq!(cat.resolve("bash"), Some(ToolOrigin::Local { index: 1 }));
    assert_eq!(cat.resolve("weather"), Some(ToolOrigin::Remote { index: 1 }));
    assert_eq!(cat.resolve("nope"), None);
}

#[test]
fn list_filters_by_allow_list_and_shadowing() {
    let mut cat = ToolCatalog::new();
    cat.register(def("read_file"));
    cat.register(def("bash"));
    cat.set_remote_tools(vec![def("bash"), def("weather"), def("stocks")]);
    let allowed = vec!["read_file".to_string(), "bash".to_string(), "weather".to_string()];
    let listed = cat.list(&allowed);
    let names: Vec<String> = listed.into_iter().map(|d| d.name).collect();
    assert_eq!(names, vec!["read_file".to_string(), "bash".to_string(), "weather".to_string()]);
}

#[test]
fn collisions_are_reported() {
    let mut cat = ToolCatalog::new();
    cat.register(def("bash"));
    cat.set_remote_tools(vec![def("weather"), def("bash")]);
    assert_eq!(cat.collisions(), vec!["bash".to_string()]);
}

#[test]
fn disallowed_tool_is_rejected_with_its_id() {
    let mut cat = ToolCatalog::new();
    cat.register(def("read_file"));
    cat.register(def("bash"));
    let mut config = AgentConfig::default();
    config.allowed_tools = vec!["read_file".to_string()];
    let u = agent_core::types::ToolUse {
        id: "t1".to_string(),
        name: "bash".to_string(),
        input: "{}".to_string(),
        thought_signature: None,
    };
    match plan_dispatch(&u, &config, &cat) {
        DispatchDecision::Reject { result } => {
            assert_eq!(result.tool_use_id, "t1");
            assert_eq!(result.is_error, Some(true));
        },
        DispatchDecision::Invoke { .. } => panic!("disallowed tool must not be invoked"),
    }
}

#[test]
fn unknown_tool_is_rejected_even_when_allowed() {
    let cat = ToolCatalog::new();
    let config = AgentConfig::default();
    let u = agent_core::types::ToolUse {
        id: "t9".to_string(),
        name: "bash".to_string(),
        input: "{}".to_string(),
        thought_signature: None,
    };
    match plan_dispatch(&u, &config, &cat) {
        DispatchDecision::Reject { result } => {
            assert_eq!(result.tool_use_id, "t9");
            assert_eq!(result.is_error, Some(true));
        },
        DispatchDecision::Invoke { .. } => panic!("unknown tool must not be invoked"),
    }
}

#[test]
fn wrap_outcome_echoes_token() {
    let u = agent_core::types::ToolUse {
        id: "t1".to_string(),
        name: "read_file".to_string(),
        input: "{}".to_string(),
        thought_signature: Some("sig-9".to_string()),
    };
    let ok = wrap_outcome(&u, "contents".to_string(), None);
    assert_eq!(ok.tool_use_id, "t1");
    assert_eq!(ok.content, "contents");
    assert_eq!(ok.is_error, None);
    assert_eq!(ok.thought_signature, Some("sig-9".to_string()));
    let bad = wrap_outcome(&u, String::new(), Some("timed out".to_string()));
    assert_eq!(bad.is_error, Some(true));
    assert_eq!(bad.content, "timed out");
    assert_eq!(bad.thought_signature, Some("sig-9".to_string()));
}

#[test]
fn step_lines_parse() {
    let p = parse_step_line("1. Read the config").expect("a step line");
    assert_eq!(p.step, 1);
    assert_eq!(p.description, "Read the config");
    let p = parse_step_line("12. Run tests").expect("a step line");
    assert_eq!(p.step, 12);
    assert!(parse_step_line("no number").is_none());
    assert!(parse_step_line("3.missing space").is_none());
    assert!(parse_step_line("1234567890. too many digits").is_none());
}

#[test]
fn plan_is_extracted_between_delimiters() {
    let t = "Here is my plan:\n<plan>\n1. Read files\n2. Edit code\n...\n</plan>\nStarting now.";
    let steps = plan_of(t).expect("a plan");
    assert_eq!(steps.len(), 2);
    assert_eq!(steps[0].step, 1);
    assert_eq!(steps[0].description, "Read files");
    assert_eq!(steps[1].step, 2);
    assert_eq!(steps[1].description, "Edit code");
    assert!(plan_of("no plan here").is_none());
    assert!(plan_of("<plan>\n1. unterminated").is_none());
}

#[test]
fn step_markers_parse() {
    assert_eq!(step_marker("[STEP 1 START]"), Some((1, true)));
    assert_eq!(step_marker("[STEP 13 DONE]\n"), Some((13, false)));
    assert_eq!(step_marker("[STEP x START]"), None);
    assert_eq!(step_marker("[STEP 1 START] and more"), None);
    assert_eq!(step_marker("prose"), None);
}

#[test]
fn classification_picks_one_event_per_block() {
    match classify_text("<plan>\n1. a\n</plan>", true) {
        AgentEvent::Plan { steps } => {
            assert_eq!(steps.len(), 1);
            assert_eq!(steps[0].description, "a");
        },
        other => panic!("expected a plan event, got {:?}", other),
    }
    // the same block on a later response is plain prose
    match classify_text("<plan>\n1. a\n</plan>", false) {
        AgentEvent::Text { content } => assert_eq!(content, "<plan>\n1. a\n</plan>"),
        other => panic!("expected prose, got {:?}", other),
    }
    assert_eq!(classify_text("[STEP 2 START]", false), AgentEvent::StepStart { step: 2 });
    assert_eq!(classify_text("[STEP 2 DONE]", false), AgentEvent::StepDone { step: 2 });
}
