//! Assembly of the system prompt.
//!
//! The prompt is the fixed template below, optionally followed by a dynamic
//! section that enumerates the skills discovered by the embedding
//! application. The assembly is a pure function of that snapshot: the caller
//! gathers the skills and their root path and hands them in as plain values.

use vstd::prelude::*;
use vstd::string::StringExecFns;
use crate::types::AgentConfig;

verus! {

/// Name and description of one discovered skill.
#[derive(Debug, Clone, PartialEq, Eq)]
pub struct SkillInfo {
    pub name: String,
    pub description: String,
}

/// The fixed part of the system prompt, sent on every run.
pub const DEFAULT_SYSTEM_PROMPT: &'static str = r#"You are Kuse Cowork, an AI agent that helps users with software development tasks.

You have access to tools that allow you to read and write files, execute commands, and search through codebases.

## IMPORTANT: Always Create a Plan First

Before starting ANY task, you MUST output a plan in this exact format:

<plan>
1. [First step description]
2. [Second step description]
3. [Third step description]
...
</plan>

After outputting the plan, immediately begin executing each step. As you work through each step, indicate progress with:
- `[STEP 1 START]` when beginning a step
- `[STEP 1 DONE]` when completing a step

## Guidelines
- Always read files before modifying them to understand the context
- Use edit_file for small changes, write_file for new files or complete rewrites
- Be careful with bash commands - prefer read-only operations when possible
- Search with glob and grep before making assumptions about file locations
- Explain what you're doing briefly

## Available Tools
- `read_file` - Read file contents
- `write_file` - Create or overwrite a file
- `edit_file` - Make targeted edits to a file
- `bash` - Execute shell commands
- `glob` - Find files by pattern
- `grep` - Search file contents
- `list_dir` - List directory contents
- `docker_run` - Run commands in Docker containers
- `docker_list` - List running containers
- `docker_images` - List available images

## Docker Integration
The project_path (if provided) is automatically mounted to /workspace in containers.
Skills directory (~/.kuse-cowork/skills) is automatically mounted to /skills (read-only).
Default image: python:3.11-alpine. Also available: ubuntu:latest, node:20, rust:alpine

## Workflow
1. Output your plan in <plan> tags
2. Execute step by step, marking progress
3. Verify your changes work
4. Summarize what was accomplished
"#;

/// The skills section's opening lines, around the skills root path.
pub open spec fn spec_skills_header(path: Seq<char>) -> Seq<char> {
    "\n\n## Available Skills\nSkills are located in "@ + path
        + " (auto-mounted at /skills in Docker):\n\n"@
}

/// One bullet line of the skills list.
pub open spec fn spec_skill_line(name: Seq<char>, description: Seq<char>) -> Seq<char> {
    "- **"@ + name + "**: "@ + description + "\n"@
}

/// The bullet list enumerating every discovered skill, in order.
pub open spec fn spec_skills_list(skills: Seq<SkillInfo>) -> Seq<char>
    decreases skills.len(),
{
    if skills.len() == 0 {
        Seq::empty()
    } else {
        spec_skills_list(skills.drop_last()) + spec_skill_line(
            skills.last().name@,
            skills.last().description@,
        )
    }
}

/// The usage instructions that close the skills section.
pub open spec fn spec_skills_usage(path: Seq<char>) -> Seq<char> {
    "\n### Using Skills\nWhen a user's request matches a skill:\n1. Read the skill's SKILL.md file using read_file tool: `"@
        + path + "/{skill_name}/SKILL.md`\n2. Follow the instructions in SKILL.md\n3. Load additional referenced files progressively as needed:\n   - `"@
        + path + "/{skill_name}/forms.md`\n   - `"@
        + path
        + "/{skill_name}/reference.md`\n4. Execute scripts using docker_run tool - skills are auto-mounted at /skills\n5. Example: `python /skills/pdf/scripts/extract_text.py /workspace/document.pdf`\n\nNote: The ~ symbol is supported in read_file paths and will expand to the user's home directory.\n"@
}

/// The whole system prompt for a given skills snapshot.
pub open spec fn spec_system_prompt(skills: Seq<SkillInfo>, path: Seq<char>) -> Seq<char> {
    if skills.len() == 0 {
        DEFAULT_SYSTEM_PROMPT@
    } else {
        DEFAULT_SYSTEM_PROMPT@ + spec_skills_header(path) + spec_skills_list(skills)
            + spec_skills_usage(path)
    }
}

/// Build the system prompt from the fixed template and the skills snapshot.
///
/// With no skills the prompt is exactly the template; otherwise the dynamic
/// section lists every skill, in the order given, between a fixed header and
/// fixed usage instructions.
pub fn build_system_prompt(skills: &Vec<SkillInfo>, skills_path: &str) -> (r: String)
    ensures
        r@ == spec_system_prompt(skills@, skills_path@),
{
    let mut prompt = DEFAULT_SYSTEM_PROMPT.to_owned();

    if skills.len() > 0 {
        prompt.append("\n\n## Available Skills\nSkills are located in ");
        prompt.append(skills_path);
        prompt.append(" (auto-mounted at /skills in Docker):\n\n");
        assert(prompt@ == DEFAULT_SYSTEM_PROMPT@ + spec_skills_header(skills_path@));

        let mut i: usize = 0;
        while i < skills.len()
            invariant
                i <= skills.len(),
                prompt@ == DEFAULT_SYSTEM_PROMPT@ + spec_skills_header(skills_path@)
                    + spec_skills_list(skills@.take(i as int)),
            decreases skills.len() - i,
        {
            prompt.append("- **");
            prompt.append(skills[i].name.as_str());
            prompt.append("**: ");
            prompt.append(skills[i].description.as_str());
            prompt.append("\n");
            proof {
                assert(skills@.take(i + 1).drop_last() =~= skills@.take(i as int));
                assert(skills@.take(i + 1).last() == skills@[i as int]);
            }
            i = i + 1;
        }
        assert(skills@.take(skills@.len() as int) =~= skills@);

        prompt.append(
            "\n### Using Skills\nWhen a user's request matches a skill:\n1. Read the skill's SKILL.md file using read_file tool: `",
        );
        prompt.append(skills_path);
        prompt.append(
            "/{skill_name}/SKILL.md`\n2. Follow the instructions in SKILL.md\n3. Load additional referenced files progressively as needed:\n   - `",
        );
        prompt.append(skills_path);
        prompt.append("/{skill_name}/forms.md`\n   - `");
        prompt.append(skills_path);
        prompt.append(
            "/{skill_name}/reference.md`\n4. Execute scripts using docker_run tool - skills are auto-mounted at /skills\n5. Example: `python /skills/pdf/scripts/extract_text.py /workspace/document.pdf`\n\nNote: The ~ symbol is supported in read_file paths and will expand to the user's home directory.\n",
        );
    }

    prompt
}

/// The tool names a fresh configuration allows, in order.
pub open spec fn spec_default_allowed_tools() -> Seq<Seq<char>> {
    seq![
        "read_file"@,
        "write_file"@,
        "edit_file"@,
        "bash"@,
        "glob"@,
        "grep"@,
        "list_dir"@,
        "docker_run"@,
        "docker_list"@,
        "docker_images"@,
    ]
}

impl Default for AgentConfig {
    /// The stock configuration: the bare template as system prompt (no skills
    /// discovered yet), twenty turns, no project path, and the built-in tools.
    fn default() -> (r: AgentConfig)
        ensures
            r.system_prompt@ == spec_system_prompt(Seq::empty(), ""@),
            r.max_turns == 20,
            r.project_path is None,
            r.allowed_tools@.map_values(|t: String| t@) =~= spec_default_allowed_tools(),
    {
        let no_skills: Vec<SkillInfo> = Vec::new();
        let mut allowed: Vec<String> = Vec::new();
        allowed.push("read_file".to_owned());
        allowed.push("write_file".to_owned());
        allowed.push("edit_file".to_owned());
        allowed.push("bash".to_owned());
        allowed.push("glob".to_owned());
        allowed.push("grep".to_owned());
        allowed.push("list_dir".to_owned());
        allowed.push("docker_run".to_owned());
        allowed.push("docker_list".to_owned());
        allowed.push("docker_images".to_owned());
        AgentConfig {
            system_prompt: build_system_prompt(&no_skills, ""),
            max_turns: 20,
            project_path: None,
            allowed_tools: allowed,
        }
    }
}

} // verus!
