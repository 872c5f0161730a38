//! What holds of every sub-agent.

use vstd::prelude::*;

use crate::agent::{self, AgentInput, LaneFailureClass, OAuthConfig, ToolSpec};
use crate::args;
use crate::json::JsonView;
use crate::text;
use crate::text_laws;

verus! {

// ---------------------------------------------------------------------------
// Tools
// ---------------------------------------------------------------------------

/// Whether a type of sub-agent may use a tool.
pub open spec fn may_use(subagent_type: Seq<char>, tool: Seq<char>) -> bool {
    agent::allowed_tools(subagent_type).contains(tool)
}

/// The types that look and answer, and change no file.
pub open spec fn only_looks(subagent_type: Seq<char>) -> bool {
    subagent_type == "Explore"@ || subagent_type == "Plan"@ || subagent_type == "Verification"@
        || subagent_type == "claw-guide"@
}

/// The types that have tools of their own; any other has those of the
/// general-purpose type.
pub open spec fn is_special(subagent_type: Seq<char>) -> bool {
    only_looks(subagent_type) || subagent_type == "statusline-setup"@
}

/// The tools that look for files and read them, and find further tools.
pub open spec fn looks(tool: Seq<char>) -> bool {
    tool == "read_file"@ || tool == "glob_search"@ || tool == "grep_search"@ || tool == "ToolSearch"@
}

/// The tools that change files.
pub open spec fn changes_files(tool: Seq<char>) -> bool {
    tool == "write_file"@ || tool == "edit_file"@ || tool == "NotebookEdit"@
}

/// The tools that read the web, or give the answer its form.
pub open spec fn reads_or_answers(tool: Seq<char>) -> bool {
    tool == "WebFetch"@ || tool == "WebSearch"@ || tool == "StructuredOutput"@
}

/// The tools that only the general-purpose type has.
pub open spec fn is_general(tool: Seq<char>) -> bool {
    tool == "NotebookEdit"@ || tool == "Sleep"@ || tool == "Config"@ || tool == "REPL"@
}

proof fn lemma_tools_explore(subagent_type: Seq<char>, tool: Seq<char>)
    requires
        subagent_type == "Explore"@,
    ensures
        may_use(subagent_type, tool) <==> (tool == "read_file"@ || tool == "glob_search"@ || tool == "grep_search"@ || tool == "WebFetch"@ || tool == "WebSearch"@ || tool == "ToolSearch"@ || tool == "Skill"@ || tool == "StructuredOutput"@),
        agent::allowed_tools(subagent_type).no_duplicates(),
{
    reveal_strlit("Explore");
    reveal_strlit("Plan");
    reveal_strlit("Verification");
    reveal_strlit("claw-guide");
    reveal_strlit("statusline-setup");
    assert("Explore"@.len() == 7);
    assert("Plan"@.len() == 4);
    assert("Verification"@.len() == 12);
    assert("claw-guide"@.len() == 10);
    assert("statusline-setup"@.len() == 16);
    let tools = agent::allowed_tools(subagent_type);
    assert(tools[0] == "read_file"@);
    assert(tools[1] == "glob_search"@);
    assert(tools[2] == "grep_search"@);
    assert(tools[3] == "WebFetch"@);
    assert(tools[4] == "WebSearch"@);
    assert(tools[5] == "ToolSearch"@);
    assert(tools[6] == "Skill"@);
    assert(tools[7] == "StructuredOutput"@);
    assert(tools.len() == 8);
    lemma_tools_differ();
}

proof fn lemma_tools_plan(subagent_type: Seq<char>, tool: Seq<char>)
    requires
        subagent_type == "Plan"@,
    ensures
        may_use(subagent_type, tool) <==> (tool == "read_file"@ || tool == "glob_search"@ || tool == "grep_search"@ || tool == "WebFetch"@ || tool == "WebSearch"@ || tool == "ToolSearch"@ || tool == "Skill"@ || tool == "TodoWrite"@ || tool == "StructuredOutput"@ || tool == "SendUserMessage"@),
        agent::allowed_tools(subagent_type).no_duplicates(),
{
    reveal_strlit("Explore");
    reveal_strlit("Plan");
    reveal_strlit("Verification");
    reveal_strlit("claw-guide");
    reveal_strlit("statusline-setup");
    assert("Explore"@.len() == 7);
    assert("Plan"@.len() == 4);
    assert("Verification"@.len() == 12);
    assert("claw-guide"@.len() == 10);
    assert("statusline-setup"@.len() == 16);
    let tools = agent::allowed_tools(subagent_type);
    assert(tools[0] == "read_file"@);
    assert(tools[1] == "glob_search"@);
    assert(tools[2] == "grep_search"@);
    assert(tools[3] == "WebFetch"@);
    assert(tools[4] == "WebSearch"@);
    assert(tools[5] == "ToolSearch"@);
    assert(tools[6] == "Skill"@);
    assert(tools[7] == "TodoWrite"@);
    assert(tools[8] == "StructuredOutput"@);
    assert(tools[9] == "SendUserMessage"@);
    assert(tools.len() == 10);
    lemma_tools_differ();
}

proof fn lemma_tools_verification(subagent_type: Seq<char>, tool: Seq<char>)
    requires
        subagent_type == "Verification"@,
    ensures
        may_use(subagent_type, tool) <==> (tool == "bash"@ || tool == "read_file"@ || tool == "glob_search"@ || tool == "grep_search"@ || tool == "WebFetch"@ || tool == "WebSearch"@ || tool == "ToolSearch"@ || tool == "TodoWrite"@ || tool == "StructuredOutput"@ || tool == "SendUserMessage"@ || tool == "PowerShell"@),
        agent::allowed_tools(subagent_type).no_duplicates(),
{
    reveal_strlit("Explore");
    reveal_strlit("Plan");
    reveal_strlit("Verification");
    reveal_strlit("claw-guide");
    reveal_strlit("statusline-setup");
    assert("Explore"@.len() == 7);
    assert("Plan"@.len() == 4);
    assert("Verification"@.len() == 12);
    assert("claw-guide"@.len() == 10);
    assert("statusline-setup"@.len() == 16);
    let tools = agent::allowed_tools(subagent_type);
    assert(tools[0] == "bash"@);
    assert(tools[1] == "read_file"@);
    assert(tools[2] == "glob_search"@);
    assert(tools[3] == "grep_search"@);
    assert(tools[4] == "WebFetch"@);
    assert(tools[5] == "WebSearch"@);
    assert(tools[6] == "ToolSearch"@);
    assert(tools[7] == "TodoWrite"@);
    assert(tools[8] == "StructuredOutput"@);
    assert(tools[9] == "SendUserMessage"@);
    assert(tools[10] == "PowerShell"@);
    assert(tools.len() == 11);
    lemma_tools_differ();
}

proof fn lemma_tools_claw_guide(subagent_type: Seq<char>, tool: Seq<char>)
    requires
        subagent_type == "claw-guide"@,
    ensures
        may_use(subagent_type, tool) <==> (tool == "read_file"@ || tool == "glob_search"@ || tool == "grep_search"@ || tool == "WebFetch"@ || tool == "WebSearch"@ || tool == "ToolSearch"@ || tool == "Skill"@ || tool == "StructuredOutput"@ || tool == "SendUserMessage"@),
        agent::allowed_tools(subagent_type).no_duplicates(),
{
    reveal_strlit("Explore");
    reveal_strlit("Plan");
    reveal_strlit("Verification");
    reveal_strlit("claw-guide");
    reveal_strlit("statusline-setup");
    assert("Explore"@.len() == 7);
    assert("Plan"@.len() == 4);
    assert("Verification"@.len() == 12);
    assert("claw-guide"@.len() == 10);
    assert("statusline-setup"@.len() == 16);
    let tools = agent::allowed_tools(subagent_type);
    assert(tools[0] == "read_file"@);
    assert(tools[1] == "glob_search"@);
    assert(tools[2] == "grep_search"@);
    assert(tools[3] == "WebFetch"@);
    assert(tools[4] == "WebSearch"@);
    assert(tools[5] == "ToolSearch"@);
    assert(tools[6] == "Skill"@);
    assert(tools[7] == "StructuredOutput"@);
    assert(tools[8] == "SendUserMessage"@);
    assert(tools.len() == 9);
    lemma_tools_differ();
}

proof fn lemma_tools_statusline_setup(subagent_type: Seq<char>, tool: Seq<char>)
    requires
        subagent_type == "statusline-setup"@,
    ensures
        may_use(subagent_type, tool) <==> (tool == "bash"@ || tool == "read_file"@ || tool == "write_file"@ || tool == "edit_file"@ || tool == "glob_search"@ || tool == "grep_search"@ || tool == "ToolSearch"@),
        agent::allowed_tools(subagent_type).no_duplicates(),
{
    reveal_strlit("Explore");
    reveal_strlit("Plan");
    reveal_strlit("Verification");
    reveal_strlit("claw-guide");
    reveal_strlit("statusline-setup");
    assert("Explore"@.len() == 7);
    assert("Plan"@.len() == 4);
    assert("Verification"@.len() == 12);
    assert("claw-guide"@.len() == 10);
    assert("statusline-setup"@.len() == 16);
    let tools = agent::allowed_tools(subagent_type);
    assert(tools[0] == "bash"@);
    assert(tools[1] == "read_file"@);
    assert(tools[2] == "write_file"@);
    assert(tools[3] == "edit_file"@);
    assert(tools[4] == "glob_search"@);
    assert(tools[5] == "grep_search"@);
    assert(tools[6] == "ToolSearch"@);
    assert(tools.len() == 7);
    lemma_tools_differ();
}

proof fn lemma_tools_general(subagent_type: Seq<char>, tool: Seq<char>)
    requires
        !is_special(subagent_type),
    ensures
        may_use(subagent_type, tool) <==> (tool == "bash"@ || tool == "read_file"@ || tool == "write_file"@ || tool == "edit_file"@ || tool == "glob_search"@ || tool == "grep_search"@ || tool == "WebFetch"@ || tool == "WebSearch"@ || tool == "TodoWrite"@ || tool == "Skill"@ || tool == "ToolSearch"@ || tool == "NotebookEdit"@ || tool == "Sleep"@ || tool == "SendUserMessage"@ || tool == "Config"@ || tool == "StructuredOutput"@ || tool == "REPL"@ || tool == "PowerShell"@),
        agent::allowed_tools(subagent_type).no_duplicates(),
{
    let tools = agent::allowed_tools(subagent_type);
    assert(tools[0] == "bash"@);
    assert(tools[1] == "read_file"@);
    assert(tools[2] == "write_file"@);
    assert(tools[3] == "edit_file"@);
    assert(tools[4] == "glob_search"@);
    assert(tools[5] == "grep_search"@);
    assert(tools[6] == "WebFetch"@);
    assert(tools[7] == "WebSearch"@);
    assert(tools[8] == "TodoWrite"@);
    assert(tools[9] == "Skill"@);
    assert(tools[10] == "ToolSearch"@);
    assert(tools[11] == "NotebookEdit"@);
    assert(tools[12] == "Sleep"@);
    assert(tools[13] == "SendUserMessage"@);
    assert(tools[14] == "Config"@);
    assert(tools[15] == "StructuredOutput"@);
    assert(tools[16] == "REPL"@);
    assert(tools[17] == "PowerShell"@);
    assert(tools.len() == 18);
    lemma_tools_differ();
}

proof fn lemma_tools_differ()
    ensures
        "bash"@ != "read_file"@,
        "bash"@ != "write_file"@,
        "bash"@ != "edit_file"@,
        "bash"@ != "glob_search"@,
        "bash"@ != "grep_search"@,
        "bash"@ != "WebFetch"@,
        "bash"@ != "WebSearch"@,
        "bash"@ != "TodoWrite"@,
        "bash"@ != "Skill"@,
        "bash"@ != "ToolSearch"@,
        "bash"@ != "NotebookEdit"@,
        "bash"@ != "Sleep"@,
        "bash"@ != "SendUserMessage"@,
        "bash"@ != "Config"@,
        "bash"@ != "StructuredOutput"@,
        "bash"@ != "REPL"@,
        "bash"@ != "PowerShell"@,
        "read_file"@ != "write_file"@,
        "read_file"@ != "edit_file"@,
        "read_file"@ != "glob_search"@,
        "read_file"@ != "grep_search"@,
        "read_file"@ != "WebFetch"@,
        "read_file"@ != "WebSearch"@,
        "read_file"@ != "TodoWrite"@,
        "read_file"@ != "Skill"@,
        "read_file"@ != "ToolSearch"@,
        "read_file"@ != "NotebookEdit"@,
        "read_file"@ != "Sleep"@,
        "read_file"@ != "SendUserMessage"@,
        "read_file"@ != "Config"@,
        "read_file"@ != "StructuredOutput"@,
        "read_file"@ != "REPL"@,
        "read_file"@ != "PowerShell"@,
        "write_file"@ != "edit_file"@,
        "write_file"@ != "glob_search"@,
        "write_file"@ != "grep_search"@,
        "write_file"@ != "WebFetch"@,
        "write_file"@ != "WebSearch"@,
        "write_file"@ != "TodoWrite"@,
        "write_file"@ != "Skill"@,
        "write_file"@ != "ToolSearch"@,
        "write_file"@ != "NotebookEdit"@,
        "write_file"@ != "Sleep"@,
        "write_file"@ != "SendUserMessage"@,
        "write_file"@ != "Config"@,
        "write_file"@ != "StructuredOutput"@,
        "write_file"@ != "REPL"@,
        "write_file"@ != "PowerShell"@,
        "edit_file"@ != "glob_search"@,
        "edit_file"@ != "grep_search"@,
        "edit_file"@ != "WebFetch"@,
        "edit_file"@ != "WebSearch"@,
        "edit_file"@ != "TodoWrite"@,
        "edit_file"@ != "Skill"@,
        "edit_file"@ != "ToolSearch"@,
        "edit_file"@ != "NotebookEdit"@,
        "edit_file"@ != "Sleep"@,
        "edit_file"@ != "SendUserMessage"@,
        "edit_file"@ != "Config"@,
        "edit_file"@ != "StructuredOutput"@,
        "edit_file"@ != "REPL"@,
        "edit_file"@ != "PowerShell"@,
        "glob_search"@ != "grep_search"@,
        "glob_search"@ != "WebFetch"@,
        "glob_search"@ != "WebSearch"@,
        "glob_search"@ != "TodoWrite"@,
        "glob_search"@ != "Skill"@,
        "glob_search"@ != "ToolSearch"@,
        "glob_search"@ != "NotebookEdit"@,
        "glob_search"@ != "Sleep"@,
        "glob_search"@ != "SendUserMessage"@,
        "glob_search"@ != "Config"@,
        "glob_search"@ != "StructuredOutput"@,
        "glob_search"@ != "REPL"@,
        "glob_search"@ != "PowerShell"@,
        "grep_search"@ != "WebFetch"@,
        "grep_search"@ != "WebSearch"@,
        "grep_search"@ != "TodoWrite"@,
        "grep_search"@ != "Skill"@,
        "grep_search"@ != "ToolSearch"@,
        "grep_search"@ != "NotebookEdit"@,
        "grep_search"@ != "Sleep"@,
        "grep_search"@ != "SendUserMessage"@,
        "grep_search"@ != "Config"@,
        "grep_search"@ != "StructuredOutput"@,
        "grep_search"@ != "REPL"@,
        "grep_search"@ != "PowerShell"@,
        "WebFetch"@ != "WebSearch"@,
        "WebFetch"@ != "TodoWrite"@,
        "WebFetch"@ != "Skill"@,
        "WebFetch"@ != "ToolSearch"@,
        "WebFetch"@ != "NotebookEdit"@,
        "WebFetch"@ != "Sleep"@,
        "WebFetch"@ != "SendUserMessage"@,
        "WebFetch"@ != "Config"@,
        "WebFetch"@ != "StructuredOutput"@,
        "WebFetch"@ != "REPL"@,
        "WebFetch"@ != "PowerShell"@,
        "WebSearch"@ != "TodoWrite"@,
        "WebSearch"@ != "Skill"@,
        "WebSearch"@ != "ToolSearch"@,
        "WebSearch"@ != "NotebookEdit"@,
        "WebSearch"@ != "Sleep"@,
        "WebSearch"@ != "SendUserMessage"@,
        "WebSearch"@ != "Config"@,
        "WebSearch"@ != "StructuredOutput"@,
        "WebSearch"@ != "REPL"@,
        "WebSearch"@ != "PowerShell"@,
        "TodoWrite"@ != "Skill"@,
        "TodoWrite"@ != "ToolSearch"@,
        "TodoWrite"@ != "NotebookEdit"@,
        "TodoWrite"@ != "Sleep"@,
        "TodoWrite"@ != "SendUserMessage"@,
        "TodoWrite"@ != "Config"@,
        "TodoWrite"@ != "StructuredOutput"@,
        "TodoWrite"@ != "REPL"@,
        "TodoWrite"@ != "PowerShell"@,
        "Skill"@ != "ToolSearch"@,
        "Skill"@ != "NotebookEdit"@,
        "Skill"@ != "Sleep"@,
        "Skill"@ != "SendUserMessage"@,
        "Skill"@ != "Config"@,
        "Skill"@ != "StructuredOutput"@,
        "Skill"@ != "REPL"@,
        "Skill"@ != "PowerShell"@,
        "ToolSearch"@ != "NotebookEdit"@,
        "ToolSearch"@ != "Sleep"@,
        "ToolSearch"@ != "SendUserMessage"@,
        "ToolSearch"@ != "Config"@,
        "ToolSearch"@ != "StructuredOutput"@,
        "ToolSearch"@ != "REPL"@,
        "ToolSearch"@ != "PowerShell"@,
        "NotebookEdit"@ != "Sleep"@,
        "NotebookEdit"@ != "SendUserMessage"@,
        "NotebookEdit"@ != "Config"@,
        "NotebookEdit"@ != "StructuredOutput"@,
        "NotebookEdit"@ != "REPL"@,
        "NotebookEdit"@ != "PowerShell"@,
        "Sleep"@ != "SendUserMessage"@,
        "Sleep"@ != "Config"@,
        "Sleep"@ != "StructuredOutput"@,
        "Sleep"@ != "REPL"@,
        "Sleep"@ != "PowerShell"@,
        "SendUserMessage"@ != "Config"@,
        "SendUserMessage"@ != "StructuredOutput"@,
        "SendUserMessage"@ != "REPL"@,
        "SendUserMessage"@ != "PowerShell"@,
        "Config"@ != "StructuredOutput"@,
        "Config"@ != "REPL"@,
        "Config"@ != "PowerShell"@,
        "StructuredOutput"@ != "REPL"@,
        "StructuredOutput"@ != "PowerShell"@,
        "REPL"@ != "PowerShell"@,
{
    reveal_strlit("bash");
    reveal_strlit("read_file");
    reveal_strlit("write_file");
    reveal_strlit("edit_file");
    reveal_strlit("glob_search");
    reveal_strlit("grep_search");
    reveal_strlit("WebFetch");
    reveal_strlit("WebSearch");
    reveal_strlit("TodoWrite");
    reveal_strlit("Skill");
    reveal_strlit("ToolSearch");
    reveal_strlit("NotebookEdit");
    reveal_strlit("Sleep");
    reveal_strlit("SendUserMessage");
    reveal_strlit("Config");
    reveal_strlit("StructuredOutput");
    reveal_strlit("REPL");
    reveal_strlit("PowerShell");
    assert("bash"@.len() == 4);
    assert("read_file"@.len() == 9);
    assert("write_file"@.len() == 10);
    assert("edit_file"@.len() == 9);
    assert("glob_search"@.len() == 11);
    assert("grep_search"@.len() == 11);
    assert("WebFetch"@.len() == 8);
    assert("WebSearch"@.len() == 9);
    assert("TodoWrite"@.len() == 9);
    assert("Skill"@.len() == 5);
    assert("ToolSearch"@.len() == 10);
    assert("NotebookEdit"@.len() == 12);
    assert("Sleep"@.len() == 5);
    assert("SendUserMessage"@.len() == 15);
    assert("Config"@.len() == 6);
    assert("StructuredOutput"@.len() == 16);
    assert("REPL"@.len() == 4);
    assert("PowerShell"@.len() == 10);
    assert("PowerShell"@[0] == 'P');
    assert("REPL"@[0] == 'R');
    assert("Skill"@[1] == 'k');
    assert("Sleep"@[1] == 'l');
    assert("TodoWrite"@[0] == 'T');
    assert("ToolSearch"@[0] == 'T');
    assert("WebSearch"@[0] == 'W');
    assert("bash"@[0] == 'b');
    assert("edit_file"@[0] == 'e');
    assert("glob_search"@[1] == 'l');
    assert("grep_search"@[1] == 'r');
    assert("read_file"@[0] == 'r');
    assert("write_file"@[0] == 'w');
}

/// Every type may look for files and read them; no type that only looks may
/// change one; and no type has a tool that the general-purpose type has not.
pub proof fn law_types_have_the_tools_of_their_task(subagent_type: Seq<char>, tool: Seq<char>)
    ensures
        looks(tool) ==> may_use(subagent_type, tool),
        only_looks(subagent_type) && changes_files(tool) ==> !may_use(subagent_type, tool),
        is_general(tool) ==> (may_use(subagent_type, tool) <==> !is_special(subagent_type)),
        tool == "write_file"@ || tool == "edit_file"@ ==> (may_use(subagent_type, tool)
            <==> !only_looks(subagent_type)),
        reads_or_answers(tool) ==> (may_use(subagent_type, tool) <==> subagent_type
            != "statusline-setup"@),
        tool == "bash"@ ==> (may_use(subagent_type, tool) <==> (!only_looks(subagent_type)
            || subagent_type == "Verification"@)),
        tool == "PowerShell"@ ==> (may_use(subagent_type, tool) <==> (!is_special(subagent_type)
            || subagent_type == "Verification"@)),
        tool == "Skill"@ ==> (may_use(subagent_type, tool) <==> (subagent_type
            != "statusline-setup"@ && subagent_type != "Verification"@)),
        tool == "TodoWrite"@ ==> (may_use(subagent_type, tool) <==> (!is_special(subagent_type)
            || subagent_type == "Plan"@ || subagent_type == "Verification"@)),
        tool == "SendUserMessage"@ ==> (may_use(subagent_type, tool) <==> (subagent_type
            != "statusline-setup"@ && subagent_type != "Explore"@)),
        may_use(subagent_type, tool) ==> may_use("general-purpose"@, tool),
        agent::allowed_tools(subagent_type).no_duplicates(),
{
    reveal_strlit("Explore");
    reveal_strlit("Plan");
    reveal_strlit("Verification");
    reveal_strlit("claw-guide");
    reveal_strlit("statusline-setup");
    reveal_strlit("general-purpose");
    assert("Explore"@.len() == 7);
    assert("Plan"@.len() == 4);
    assert("Verification"@.len() == 12);
    assert("claw-guide"@.len() == 10);
    assert("statusline-setup"@.len() == 16);
    assert("general-purpose"@.len() == 15);
    lemma_tools_differ();
    lemma_tools_general("general-purpose"@, tool);
    if subagent_type == "Explore"@ {
        lemma_tools_explore(subagent_type, tool);
    } else if subagent_type == "Plan"@ {
        lemma_tools_plan(subagent_type, tool);
    } else if subagent_type == "Verification"@ {
        lemma_tools_verification(subagent_type, tool);
    } else if subagent_type == "claw-guide"@ {
        lemma_tools_claw_guide(subagent_type, tool);
    } else if subagent_type == "statusline-setup"@ {
        lemma_tools_statusline_setup(subagent_type, tool);
    } else {
        lemma_tools_general(subagent_type, tool);
    }
}

/// A type that is not known has the tools of the general-purpose type.
pub proof fn law_other_types_are_general(subagent_type: Seq<char>)
    requires
        !is_special(subagent_type),
    ensures
        agent::allowed_tools(subagent_type) == agent::allowed_tools("general-purpose"@),
{
    reveal_strlit("Explore");
    reveal_strlit("Plan");
    reveal_strlit("Verification");
    reveal_strlit("claw-guide");
    reveal_strlit("statusline-setup");
    reveal_strlit("general-purpose");
    assert("Explore"@.len() == 7);
    assert("Plan"@.len() == 4);
    assert("Verification"@.len() == 12);
    assert("claw-guide"@.len() == 10);
    assert("statusline-setup"@.len() == 16);
    assert("general-purpose"@.len() == 15);
}

/// Of the tools that there are, those are offered that are allowed, in their
/// order; background task tools are left out exactly where they are suppressed.
pub proof fn law_offered_tools_are_the_allowed_ones(
    specs: Seq<ToolSpec>,
    allowed: Option<Seq<Seq<char>>>,
    suppress: bool,
    at: int,
)
    ensures
        agent::offered(specs, None, false) == specs,
        0 <= at < agent::offered(specs, allowed, suppress).len() ==> {
            let tool = agent::offered(specs, allowed, suppress)[at];
            &&& specs.contains(tool)
            &&& allowed matches Some(names) ==> names.contains(tool.name@)
            &&& suppress ==> !tool.background_task
        },
        0 <= at < specs.len() && (allowed matches Some(names) ==> names.contains(specs[at].name@))
            && !(suppress && specs[at].background_task) ==> agent::offered(
            specs,
            allowed,
            suppress,
        ).contains(specs[at]),
    decreases specs.len(),
{
    if specs.len() > 0 {
        let front = specs.drop_last();
        let offered = agent::offered(specs, allowed, suppress);
        let before = agent::offered(front, allowed, suppress);
        law_offered_tools_are_the_allowed_ones(front, allowed, suppress, at);
        assert(front.push(specs.last()) =~= specs);
        if 0 <= at < offered.len() {
            if at < before.len() {
                let i = choose|i: int| 0 <= i < front.len() && front[i] == before[at];
                assert(specs[i] == offered[at]);
            } else {
                assert(specs[specs.len() - 1] == offered[at]);
            }
        }
        if 0 <= at < specs.len() {
            if at < front.len() {
                assert(front[at] == specs[at]);
                if before.contains(specs[at]) {
                    let i = choose|i: int| 0 <= i < before.len() && before[i] == specs[at];
                    assert(offered[i] == specs[at]);
                }
            } else if agent::is_offered(specs.last(), allowed, suppress) {
                assert(offered[before.len() as int] == specs[at]);
            }
        }
    } else {
        assert(agent::offered(specs, None, false) =~= specs);
    }
}

/// A sub-agent runs a tool exactly where it may use it and its input is JSON, and
/// with that input; a tool that it may not use is refused by name.
pub proof fn law_only_allowed_tools_run(
    allowed: Seq<Seq<char>>,
    tool: Seq<char>,
    parsed: Result<JsonView, Seq<char>>,
)
    ensures
        agent::checked_call(allowed, tool, parsed) is Ok <==> allowed.contains(tool) && parsed
            is Ok,
        agent::checked_call(allowed, tool, parsed) is Ok ==> agent::checked_call(
            allowed,
            tool,
            parsed,
        ) == parsed,
        !allowed.contains(tool) ==> (agent::checked_call(allowed, tool, parsed) matches Err(message)
            && text::contains_text(message, "`"@ + tool + "` is not enabled"@)),
        allowed.contains(tool) ==> (parsed matches Err(error) ==> text::has_suffix(
            agent::checked_call(allowed, tool, parsed)->Err_0,
            error,
        )),
{
    reveal_strlit("tool `");
    reveal_strlit("tool ");
    reveal_strlit("`");
    assert("tool `"@ =~= "tool "@ + "`"@);
    reveal_strlit("` is not enabled for this sub-agent");
    reveal_strlit("` is not enabled");
    reveal_strlit(" for this sub-agent");
    assert("` is not enabled for this sub-agent"@ =~= "` is not enabled"@ + " for this sub-agent"@);
    let part = "`"@ + tool + "` is not enabled"@;
    assert("tool `"@ + tool + "` is not enabled for this sub-agent"@ =~= "tool "@ + part
        + " for this sub-agent"@);
    text::lemma_contains_part("tool "@, part, " for this sub-agent"@);
    if let Err(error) = parsed {
        text::lemma_contains_part("invalid tool input JSON: "@, error, Seq::empty());
    }
}

// ---------------------------------------------------------------------------
// Inputs
// ---------------------------------------------------------------------------

/// An input is taken exactly where it says what the task is and what to do; what
/// is missing is named.
pub proof fn law_inputs_need_description_and_prompt(input: AgentInput)
    ensures
        agent::input_fault(input) is None <==> !text::is_blank(input.description@)
            && !text::is_blank(input.prompt@),
        text::is_blank(input.description@) ==> (agent::input_fault(input) matches Some(message)
            && text::has_prefix(message, "description"@)),
        !text::is_blank(input.description@) && text::is_blank(input.prompt@) ==> (
        agent::input_fault(input) matches Some(message) && text::has_prefix(message, "prompt"@)),
{
    reveal_strlit("description must not be empty");
    reveal_strlit("description");
    reveal_strlit(" must not be empty");
    assert("description must not be empty"@ =~= "description"@ + " must not be empty"@);
    reveal_strlit("prompt must not be empty");
    reveal_strlit("prompt");
    reveal_strlit(" must not be empty");
    assert("prompt must not be empty"@ =~= "prompt"@ + " must not be empty"@);
    text::lemma_contains_part(Seq::empty(), "description"@, " must not be empty"@);
    text::lemma_contains_part(Seq::empty(), "prompt"@, " must not be empty"@);
}

/// The model of a sub-agent is the one that is asked for, white space around it
/// aside, and the default where none is asked for.
pub proof fn law_models_are_those_asked_for(model: Seq<char>, default: Seq<char>)
    ensures
        agent::agent_model(None, default) == default,
        text::is_blank(model) ==> agent::agent_model(Some(model), default) == default,
        model.len() > 0 && !text::is_whitespace(model[0]) && !text::is_whitespace(model.last())
            ==> agent::agent_model(Some(model), default) == model,
{
    text::lemma_trimmed_empty_iff_blank(model);
    text_laws::law_trimmed_texts_stay(model);
}

/// The token that a name is compared by: its letters and digits, in lower case.
pub open spec fn token_of(name: Seq<char>) -> Seq<char>
    decreases name.len(),
{
    if name.len() == 0 {
        name
    } else if text::is_alphanumeric(name.last()) {
        token_of(name.drop_last()).push(text::lower_char(name.last()))
    } else {
        token_of(name.drop_last())
    }
}

/// The type of a sub-agent is the one that is asked for: each known type is known
/// by its own name, however its letters are written, and a type that is not known
/// keeps its name.
pub proof fn law_types_are_known_by_their_own_name(given: Seq<char>, token: Seq<char>)
    requires
        given.len() > 0,
        !text::is_whitespace(given[0]),
        !text::is_whitespace(given.last()),
    ensures
        ({
            let known = agent::subagent_type(Some(given), token);
            &&& known == given || token_of(known) == token || text::has_prefix(
                token_of(known),
                token,
            ) || text::has_prefix(token, token_of(known)) || (token == "explorer"@ && known
                == "Explore"@) || (known == "Verification"@ && text::has_prefix(token, "verif"@))
                || (known == "claw-guide"@ && token == "guide"@)
            &&& token == token_of("general-purpose"@) ==> known == "general-purpose"@
            &&& token == token_of("Explore"@) ==> known == "Explore"@
            &&& token == token_of("Plan"@) ==> known == "Plan"@
            &&& token == token_of("Verification"@) ==> known == "Verification"@
            &&& token == token_of("claw-guide"@) ==> known == "claw-guide"@
            &&& token == token_of("statusline-setup"@) ==> known == "statusline-setup"@
        }),
        agent::subagent_type(None, token) == "general-purpose"@,
{
    text_laws::law_trimmed_texts_stay(given);
    lemma_tokens_of_types();
    lemma_tokens_differ();
    let known = agent::subagent_type(Some(given), token);
    if known != given {
        lemma_token_beginnings(token);
    }
}

proof fn lemma_tokens_of_types()
    ensures
        token_of("general-purpose"@) == "generalpurpose"@,
        token_of("Explore"@) == "explore"@,
        token_of("Plan"@) == "plan"@,
        token_of("Verification"@) == "verification"@,
        token_of("claw-guide"@) == "clawguide"@,
        token_of("statusline-setup"@) == "statuslinesetup"@,
{
    {
        reveal_strlit("general-purpose");
        reveal_strlit("generalpurpose");
        reveal_with_fuel(token_of, 16);
        let name = "general-purpose"@;
        assert(name.take(1).drop_last() =~= name.take(0));
        assert(name.take(2).drop_last() =~= name.take(1));
        assert(name.take(3).drop_last() =~= name.take(2));
        assert(name.take(4).drop_last() =~= name.take(3));
        assert(name.take(5).drop_last() =~= name.take(4));
        assert(name.take(6).drop_last() =~= name.take(5));
        assert(name.take(7).drop_last() =~= name.take(6));
        assert(name.take(8).drop_last() =~= name.take(7));
        assert(name.take(9).drop_last() =~= name.take(8));
        assert(name.take(10).drop_last() =~= name.take(9));
        assert(name.take(11).drop_last() =~= name.take(10));
        assert(name.take(12).drop_last() =~= name.take(11));
        assert(name.take(13).drop_last() =~= name.take(12));
        assert(name.take(14).drop_last() =~= name.take(13));
        assert(name.take(15).drop_last() =~= name.take(14));
        assert(name.take(15) =~= name);
        assert(token_of(name.take(0)) =~= Seq::<char>::empty());
        assert(token_of(name.take(1)) =~= "generalpurpose"@.take(1));
        assert(token_of(name.take(2)) =~= "generalpurpose"@.take(2));
        assert(token_of(name.take(3)) =~= "generalpurpose"@.take(3));
        assert(token_of(name.take(4)) =~= "generalpurpose"@.take(4));
        assert(token_of(name.take(5)) =~= "generalpurpose"@.take(5));
        assert(token_of(name.take(6)) =~= "generalpurpose"@.take(6));
        assert(token_of(name.take(7)) =~= "generalpurpose"@.take(7));
        assert(token_of(name.take(8)) =~= "generalpurpose"@.take(7));
        assert(token_of(name.take(9)) =~= "generalpurpose"@.take(8));
        assert(token_of(name.take(10)) =~= "generalpurpose"@.take(9));
        assert(token_of(name.take(11)) =~= "generalpurpose"@.take(10));
        assert(token_of(name.take(12)) =~= "generalpurpose"@.take(11));
        assert(token_of(name.take(13)) =~= "generalpurpose"@.take(12));
        assert(token_of(name.take(14)) =~= "generalpurpose"@.take(13));
        assert(token_of(name.take(15)) =~= "generalpurpose"@.take(14));
        assert("generalpurpose"@.take(14) =~= "generalpurpose"@);
    }
    {
        reveal_strlit("Explore");
        reveal_strlit("explore");
        reveal_with_fuel(token_of, 8);
        let name = "Explore"@;
        assert(name.take(1).drop_last() =~= name.take(0));
        assert(name.take(2).drop_last() =~= name.take(1));
        assert(name.take(3).drop_last() =~= name.take(2));
        assert(name.take(4).drop_last() =~= name.take(3));
        assert(name.take(5).drop_last() =~= name.take(4));
        assert(name.take(6).drop_last() =~= name.take(5));
        assert(name.take(7).drop_last() =~= name.take(6));
        assert(name.take(7) =~= name);
        assert(token_of(name.take(0)) =~= Seq::<char>::empty());
        assert(token_of(name.take(1)) =~= "explore"@.take(1));
        assert(token_of(name.take(2)) =~= "explore"@.take(2));
        assert(token_of(name.take(3)) =~= "explore"@.take(3));
        assert(token_of(name.take(4)) =~= "explore"@.take(4));
        assert(token_of(name.take(5)) =~= "explore"@.take(5));
        assert(token_of(name.take(6)) =~= "explore"@.take(6));
        assert(token_of(name.take(7)) =~= "explore"@.take(7));
        assert("explore"@.take(7) =~= "explore"@);
    }
    {
        reveal_strlit("Plan");
        reveal_strlit("plan");
        reveal_with_fuel(token_of, 5);
        let name = "Plan"@;
        assert(name.take(1).drop_last() =~= name.take(0));
        assert(name.take(2).drop_last() =~= name.take(1));
        assert(name.take(3).drop_last() =~= name.take(2));
        assert(name.take(4).drop_last() =~= name.take(3));
        assert(name.take(4) =~= name);
        assert(token_of(name.take(0)) =~= Seq::<char>::empty());
        assert(token_of(name.take(1)) =~= "plan"@.take(1));
        assert(token_of(name.take(2)) =~= "plan"@.take(2));
        assert(token_of(name.take(3)) =~= "plan"@.take(3));
        assert(token_of(name.take(4)) =~= "plan"@.take(4));
        assert("plan"@.take(4) =~= "plan"@);
    }
    {
        reveal_strlit("Verification");
        reveal_strlit("verification");
        reveal_with_fuel(token_of, 13);
        let name = "Verification"@;
        assert(name.take(1).drop_last() =~= name.take(0));
        assert(name.take(2).drop_last() =~= name.take(1));
        assert(name.take(3).drop_last() =~= name.take(2));
        assert(name.take(4).drop_last() =~= name.take(3));
        assert(name.take(5).drop_last() =~= name.take(4));
        assert(name.take(6).drop_last() =~= name.take(5));
        assert(name.take(7).drop_last() =~= name.take(6));
        assert(name.take(8).drop_last() =~= name.take(7));
        assert(name.take(9).drop_last() =~= name.take(8));
        assert(name.take(10).drop_last() =~= name.take(9));
        assert(name.take(11).drop_last() =~= name.take(10));
        assert(name.take(12).drop_last() =~= name.take(11));
        assert(name.take(12) =~= name);
        assert(token_of(name.take(0)) =~= Seq::<char>::empty());
        assert(token_of(name.take(1)) =~= "verification"@.take(1));
        assert(token_of(name.take(2)) =~= "verification"@.take(2));
        assert(token_of(name.take(3)) =~= "verification"@.take(3));
        assert(token_of(name.take(4)) =~= "verification"@.take(4));
        assert(token_of(name.take(5)) =~= "verification"@.take(5));
        assert(token_of(name.take(6)) =~= "verification"@.take(6));
        assert(token_of(name.take(7)) =~= "verification"@.take(7));
        assert(token_of(name.take(8)) =~= "verification"@.take(8));
        assert(token_of(name.take(9)) =~= "verification"@.take(9));
        assert(token_of(name.take(10)) =~= "verification"@.take(10));
        assert(token_of(name.take(11)) =~= "verification"@.take(11));
        assert(token_of(name.take(12)) =~= "verification"@.take(12));
        assert("verification"@.take(12) =~= "verification"@);
    }
    {
        reveal_strlit("claw-guide");
        reveal_strlit("clawguide");
        reveal_with_fuel(token_of, 11);
        let name = "claw-guide"@;
        assert(name.take(1).drop_last() =~= name.take(0));
        assert(name.take(2).drop_last() =~= name.take(1));
        assert(name.take(3).drop_last() =~= name.take(2));
        assert(name.take(4).drop_last() =~= name.take(3));
        assert(name.take(5).drop_last() =~= name.take(4));
        assert(name.take(6).drop_last() =~= name.take(5));
        assert(name.take(7).drop_last() =~= name.take(6));
        assert(name.take(8).drop_last() =~= name.take(7));
        assert(name.take(9).drop_last() =~= name.take(8));
        assert(name.take(10).drop_last() =~= name.take(9));
        assert(name.take(10) =~= name);
        assert(token_of(name.take(0)) =~= Seq::<char>::empty());
        assert(token_of(name.take(1)) =~= "clawguide"@.take(1));
        assert(token_of(name.take(2)) =~= "clawguide"@.take(2));
        assert(token_of(name.take(3)) =~= "clawguide"@.take(3));
        assert(token_of(name.take(4)) =~= "clawguide"@.take(4));
        assert(token_of(name.take(5)) =~= "clawguide"@.take(4));
        assert(token_of(name.take(6)) =~= "clawguide"@.take(5));
        assert(token_of(name.take(7)) =~= "clawguide"@.take(6));
        assert(token_of(name.take(8)) =~= "clawguide"@.take(7));
        assert(token_of(name.take(9)) =~= "clawguide"@.take(8));
        assert(token_of(name.take(10)) =~= "clawguide"@.take(9));
        assert("clawguide"@.take(9) =~= "clawguide"@);
    }
    {
        reveal_strlit("statusline-setup");
        reveal_strlit("statuslinesetup");
        reveal_with_fuel(token_of, 17);
        let name = "statusline-setup"@;
        assert(name.take(1).drop_last() =~= name.take(0));
        assert(name.take(2).drop_last() =~= name.take(1));
        assert(name.take(3).drop_last() =~= name.take(2));
        assert(name.take(4).drop_last() =~= name.take(3));
        assert(name.take(5).drop_last() =~= name.take(4));
        assert(name.take(6).drop_last() =~= name.take(5));
        assert(name.take(7).drop_last() =~= name.take(6));
        assert(name.take(8).drop_last() =~= name.take(7));
        assert(name.take(9).drop_last() =~= name.take(8));
        assert(name.take(10).drop_last() =~= name.take(9));
        assert(name.take(11).drop_last() =~= name.take(10));
        assert(name.take(12).drop_last() =~= name.take(11));
        assert(name.take(13).drop_last() =~= name.take(12));
        assert(name.take(14).drop_last() =~= name.take(13));
        assert(name.take(15).drop_last() =~= name.take(14));
        assert(name.take(16).drop_last() =~= name.take(15));
        assert(name.take(16) =~= name);
        assert(token_of(name.take(0)) =~= Seq::<char>::empty());
        assert(token_of(name.take(1)) =~= "statuslinesetup"@.take(1));
        assert(token_of(name.take(2)) =~= "statuslinesetup"@.take(2));
        assert(token_of(name.take(3)) =~= "statuslinesetup"@.take(3));
        assert(token_of(name.take(4)) =~= "statuslinesetup"@.take(4));
        assert(token_of(name.take(5)) =~= "statuslinesetup"@.take(5));
        assert(token_of(name.take(6)) =~= "statuslinesetup"@.take(6));
        assert(token_of(name.take(7)) =~= "statuslinesetup"@.take(7));
        assert(token_of(name.take(8)) =~= "statuslinesetup"@.take(8));
        assert(token_of(name.take(9)) =~= "statuslinesetup"@.take(9));
        assert(token_of(name.take(10)) =~= "statuslinesetup"@.take(10));
        assert(token_of(name.take(11)) =~= "statuslinesetup"@.take(10));
        assert(token_of(name.take(12)) =~= "statuslinesetup"@.take(11));
        assert(token_of(name.take(13)) =~= "statuslinesetup"@.take(12));
        assert(token_of(name.take(14)) =~= "statuslinesetup"@.take(13));
        assert(token_of(name.take(15)) =~= "statuslinesetup"@.take(14));
        assert(token_of(name.take(16)) =~= "statuslinesetup"@.take(15));
        assert("statuslinesetup"@.take(15) =~= "statuslinesetup"@);
    }
}

proof fn lemma_tokens_differ()
    ensures
        "general"@ != "generalpurpose"@,
        "general"@ != "generalpurposeagent"@,
        "general"@ != "explore"@,
        "general"@ != "explorer"@,
        "general"@ != "exploreagent"@,
        "general"@ != "plan"@,
        "general"@ != "planagent"@,
        "general"@ != "verification"@,
        "general"@ != "verificationagent"@,
        "general"@ != "verify"@,
        "general"@ != "verifier"@,
        "general"@ != "clawguide"@,
        "general"@ != "clawguideagent"@,
        "general"@ != "guide"@,
        "general"@ != "statusline"@,
        "general"@ != "statuslinesetup"@,
        "generalpurpose"@ != "generalpurposeagent"@,
        "generalpurpose"@ != "explore"@,
        "generalpurpose"@ != "explorer"@,
        "generalpurpose"@ != "exploreagent"@,
        "generalpurpose"@ != "plan"@,
        "generalpurpose"@ != "planagent"@,
        "generalpurpose"@ != "verification"@,
        "generalpurpose"@ != "verificationagent"@,
        "generalpurpose"@ != "verify"@,
        "generalpurpose"@ != "verifier"@,
        "generalpurpose"@ != "clawguide"@,
        "generalpurpose"@ != "clawguideagent"@,
        "generalpurpose"@ != "guide"@,
        "generalpurpose"@ != "statusline"@,
        "generalpurpose"@ != "statuslinesetup"@,
        "generalpurposeagent"@ != "explore"@,
        "generalpurposeagent"@ != "explorer"@,
        "generalpurposeagent"@ != "exploreagent"@,
        "generalpurposeagent"@ != "plan"@,
        "generalpurposeagent"@ != "planagent"@,
        "generalpurposeagent"@ != "verification"@,
        "generalpurposeagent"@ != "verificationagent"@,
        "generalpurposeagent"@ != "verify"@,
        "generalpurposeagent"@ != "verifier"@,
        "generalpurposeagent"@ != "clawguide"@,
        "generalpurposeagent"@ != "clawguideagent"@,
        "generalpurposeagent"@ != "guide"@,
        "generalpurposeagent"@ != "statusline"@,
        "generalpurposeagent"@ != "statuslinesetup"@,
        "explore"@ != "explorer"@,
        "explore"@ != "exploreagent"@,
        "explore"@ != "plan"@,
        "explore"@ != "planagent"@,
        "explore"@ != "verification"@,
        "explore"@ != "verificationagent"@,
        "explore"@ != "verify"@,
        "explore"@ != "verifier"@,
        "explore"@ != "clawguide"@,
        "explore"@ != "clawguideagent"@,
        "explore"@ != "guide"@,
        "explore"@ != "statusline"@,
        "explore"@ != "statuslinesetup"@,
        "explorer"@ != "exploreagent"@,
        "explorer"@ != "plan"@,
        "explorer"@ != "planagent"@,
        "explorer"@ != "verification"@,
        "explorer"@ != "verificationagent"@,
        "explorer"@ != "verify"@,
        "explorer"@ != "verifier"@,
        "explorer"@ != "clawguide"@,
        "explorer"@ != "clawguideagent"@,
        "explorer"@ != "guide"@,
        "explorer"@ != "statusline"@,
        "explorer"@ != "statuslinesetup"@,
        "exploreagent"@ != "plan"@,
        "exploreagent"@ != "planagent"@,
        "exploreagent"@ != "verification"@,
        "exploreagent"@ != "verificationagent"@,
        "exploreagent"@ != "verify"@,
        "exploreagent"@ != "verifier"@,
        "exploreagent"@ != "clawguide"@,
        "exploreagent"@ != "clawguideagent"@,
        "exploreagent"@ != "guide"@,
        "exploreagent"@ != "statusline"@,
        "exploreagent"@ != "statuslinesetup"@,
        "plan"@ != "planagent"@,
        "plan"@ != "verification"@,
        "plan"@ != "verificationagent"@,
        "plan"@ != "verify"@,
        "plan"@ != "verifier"@,
        "plan"@ != "clawguide"@,
        "plan"@ != "clawguideagent"@,
        "plan"@ != "guide"@,
        "plan"@ != "statusline"@,
        "plan"@ != "statuslinesetup"@,
        "planagent"@ != "verification"@,
        "planagent"@ != "verificationagent"@,
        "planagent"@ != "verify"@,
        "planagent"@ != "verifier"@,
        "planagent"@ != "clawguide"@,
        "planagent"@ != "clawguideagent"@,
        "planagent"@ != "guide"@,
        "planagent"@ != "statusline"@,
        "planagent"@ != "statuslinesetup"@,
        "verification"@ != "verificationagent"@,
        "verification"@ != "verify"@,
        "verification"@ != "verifier"@,
        "verification"@ != "clawguide"@,
        "verification"@ != "clawguideagent"@,
        "verification"@ != "guide"@,
        "verification"@ != "statusline"@,
        "verification"@ != "statuslinesetup"@,
        "verificationagent"@ != "verify"@,
        "verificationagent"@ != "verifier"@,
        "verificationagent"@ != "clawguide"@,
        "verificationagent"@ != "clawguideagent"@,
        "verificationagent"@ != "guide"@,
        "verificationagent"@ != "statusline"@,
        "verificationagent"@ != "statuslinesetup"@,
        "verify"@ != "verifier"@,
        "verify"@ != "clawguide"@,
        "verify"@ != "clawguideagent"@,
        "verify"@ != "guide"@,
        "verify"@ != "statusline"@,
        "verify"@ != "statuslinesetup"@,
        "verifier"@ != "clawguide"@,
        "verifier"@ != "clawguideagent"@,
        "verifier"@ != "guide"@,
        "verifier"@ != "statusline"@,
        "verifier"@ != "statuslinesetup"@,
        "clawguide"@ != "clawguideagent"@,
        "clawguide"@ != "guide"@,
        "clawguide"@ != "statusline"@,
        "clawguide"@ != "statuslinesetup"@,
        "clawguideagent"@ != "guide"@,
        "clawguideagent"@ != "statusline"@,
        "clawguideagent"@ != "statuslinesetup"@,
        "guide"@ != "statusline"@,
        "guide"@ != "statuslinesetup"@,
        "statusline"@ != "statuslinesetup"@,
{
    reveal_strlit("general");
    reveal_strlit("generalpurpose");
    reveal_strlit("generalpurposeagent");
    reveal_strlit("explore");
    reveal_strlit("explorer");
    reveal_strlit("exploreagent");
    reveal_strlit("plan");
    reveal_strlit("planagent");
    reveal_strlit("verification");
    reveal_strlit("verificationagent");
    reveal_strlit("verify");
    reveal_strlit("verifier");
    reveal_strlit("clawguide");
    reveal_strlit("clawguideagent");
    reveal_strlit("guide");
    reveal_strlit("statusline");
    reveal_strlit("statuslinesetup");
    assert("general"@.len() == 7);
    assert("generalpurpose"@.len() == 14);
    assert("generalpurposeagent"@.len() == 19);
    assert("explore"@.len() == 7);
    assert("explorer"@.len() == 8);
    assert("exploreagent"@.len() == 12);
    assert("plan"@.len() == 4);
    assert("planagent"@.len() == 9);
    assert("verification"@.len() == 12);
    assert("verificationagent"@.len() == 17);
    assert("verify"@.len() == 6);
    assert("verifier"@.len() == 8);
    assert("clawguide"@.len() == 9);
    assert("clawguideagent"@.len() == 14);
    assert("guide"@.len() == 5);
    assert("statusline"@.len() == 10);
    assert("statuslinesetup"@.len() == 15);
    assert("clawguide"@[0] == 'c');
    assert("clawguideagent"@[0] == 'c');
    assert("explore"@[0] == 'e');
    assert("exploreagent"@[0] == 'e');
    assert("explorer"@[0] == 'e');
    assert("general"@[0] == 'g');
    assert("generalpurpose"@[0] == 'g');
    assert("planagent"@[0] == 'p');
    assert("verification"@[0] == 'v');
    assert("verifier"@[0] == 'v');
}

proof fn lemma_token_beginnings(token: Seq<char>)
    ensures
        token == "general"@ ==> text::has_prefix("generalpurpose"@, token),
        token == "generalpurposeagent"@ ==> text::has_prefix(token, "generalpurpose"@),
        token == "exploreagent"@ ==> text::has_prefix(token, "explore"@),
        token == "planagent"@ ==> text::has_prefix(token, "plan"@),
        token == "verificationagent"@ ==> text::has_prefix(token, "verification"@),
        token == "verify"@ || token == "verifier"@ ==> text::has_prefix(token, "verif"@),
        token == "clawguideagent"@ ==> text::has_prefix(token, "clawguide"@),
        token == "statusline"@ ==> text::has_prefix("statuslinesetup"@, token),
{
    reveal_strlit("generalpurpose");
    reveal_strlit("general");
    assert("generalpurpose"@.take(7) =~= "general"@);
    reveal_strlit("generalpurposeagent");
    reveal_strlit("generalpurpose");
    assert("generalpurposeagent"@.take(14) =~= "generalpurpose"@);
    reveal_strlit("exploreagent");
    reveal_strlit("explore");
    assert("exploreagent"@.take(7) =~= "explore"@);
    reveal_strlit("planagent");
    reveal_strlit("plan");
    assert("planagent"@.take(4) =~= "plan"@);
    reveal_strlit("verificationagent");
    reveal_strlit("verification");
    assert("verificationagent"@.take(12) =~= "verification"@);
    reveal_strlit("verify");
    reveal_strlit("verif");
    assert("verify"@.take(5) =~= "verif"@);
    reveal_strlit("verifier");
    reveal_strlit("verif");
    assert("verifier"@.take(5) =~= "verif"@);
    reveal_strlit("clawguideagent");
    reveal_strlit("clawguide");
    assert("clawguideagent"@.take(9) =~= "clawguide"@);
    reveal_strlit("statuslinesetup");
    reveal_strlit("statusline");
    assert("statuslinesetup"@.take(10) =~= "statusline"@);
}

/// The name of a sub-agent is that of what it was called, where that leaves
/// anything, and otherwise that of its description; a name that is one already
/// stays as it is.
pub proof fn law_names_are_those_given(name: Seq<char>, description: Seq<char>)
    ensures
        agent::agent_name(None, description) == agent::slug(description),
        agent::slug(name).len() > 0 ==> agent::agent_name(Some(name), description) == agent::slug(
            name,
        ),
        agent::slug(name).len() == 0 ==> agent::agent_name(Some(name), description) == agent::slug(
            description,
        ),
{
}

/// Whether a text is made of small letters and digits alone.
pub open spec fn is_plain(name: Seq<char>) -> bool {
    forall|i: int|
        0 <= i < name.len() ==> text::is_alphanumeric(#[trigger] name[i]) && !text::is_upper(
            name[i],
        )
}

proof fn lemma_plain_slug(name: Seq<char>)
    requires
        is_plain(name),
    ensures
        agent::slug_chars(name) == name,
        agent::single_dashes(name) == name,
    decreases name.len(),
{
    assert(agent::slug_chars(name) =~= name);
    if name.len() > 0 {
        lemma_plain_slug(name.drop_last());
        assert(text::is_alphanumeric(name[name.len() - 1]));
        assert(name.drop_last().push(name.last()) =~= name);
    }
}

/// A name of small letters and digits is kept as it is, up to 32 characters, and
/// two words are kept with one dash between them, whatever stood there.
pub proof fn law_plain_names_stay(name: Seq<char>)
    requires
        is_plain(name),
        0 < name.len() <= 32,
    ensures
        agent::slug(name) == name,
{
    lemma_plain_slug(name);
    assert(text::is_alphanumeric(name[0]));
    assert(text::is_alphanumeric(name[name.len() - 1]));
}

// ---------------------------------------------------------------------------
// Failures
// ---------------------------------------------------------------------------

/// The class of a failure is one whose words the error holds; where it holds none
/// of them, it is the infrastructure's.
pub proof fn law_classes_are_named_by_the_error(error: Seq<char>)
    ensures
        match agent::failure_class(error) {
            LaneFailureClass::PromptDelivery => agent::mentions(error, "prompt"@)
                && agent::mentions(error, "deliver"@),
            LaneFailureClass::TrustGate => agent::mentions(error, "trust"@),
            LaneFailureClass::BranchDivergence => agent::mentions(error, "branch"@),
            LaneFailureClass::GatewayRouting => agent::mentions(error, "gateway"@)
                || agent::mentions(error, "routing"@),
            LaneFailureClass::Compile => agent::mentions(error, "compile"@) || agent::mentions(
                error,
                "build failed"@,
            ) || agent::mentions(error, "cargo check"@),
            LaneFailureClass::Test => agent::mentions(error, "test"@),
            LaneFailureClass::ToolRuntime => agent::mentions(error, "tool failed"@)
                || agent::mentions(error, "runtime tool"@) || agent::mentions(
                error,
                "tool runtime"@,
            ),
            LaneFailureClass::PluginStartup => agent::mentions(error, "plugin"@),
            LaneFailureClass::McpHandshake => agent::mentions(error, "mcp"@) && agent::mentions(
                error,
                "handshake"@,
            ),
            LaneFailureClass::McpStartup => agent::mentions(error, "mcp"@) && !agent::mentions(
                error,
                "handshake"@,
            ),
            LaneFailureClass::Infra => !agent::mentions(error, "trust"@) && !agent::mentions(
                error,
                "gateway"@,
            ) && !agent::mentions(error, "routing"@) && !agent::mentions(error, "compile"@)
                && !agent::mentions(error, "test"@) && !agent::mentions(error, "plugin"@)
                && !agent::mentions(error, "mcp"@) && !(agent::mentions(error, "prompt"@)
                && agent::mentions(error, "deliver"@)),
        },
        agent::mentions(error, "prompt"@) && agent::mentions(error, "deliver"@)
            ==> agent::failure_class(error) == LaneFailureClass::PromptDelivery,
        agent::mentions(error, "trust"@) ==> agent::class_rank(agent::failure_class(error))
            <= agent::class_rank(LaneFailureClass::TrustGate),
        agent::mentions(error, "branch"@) && agent::mentions(error, "stale"@) ==> agent::class_rank(
            agent::failure_class(error),
        ) <= agent::class_rank(LaneFailureClass::BranchDivergence),
        agent::mentions(error, "branch"@) && agent::mentions(error, "diverg"@)
            ==> agent::class_rank(agent::failure_class(error)) <= agent::class_rank(
            LaneFailureClass::BranchDivergence,
        ),
        agent::mentions(error, "test"@) ==> agent::class_rank(agent::failure_class(error))
            <= agent::class_rank(LaneFailureClass::Test),
        agent::mentions(error, "plugin"@) ==> agent::class_rank(agent::failure_class(error))
            <= agent::class_rank(LaneFailureClass::PluginStartup),
{
}

/// An error mentions a word that stands in it, in whatever case.
pub proof fn law_errors_mention_their_words(
    before: Seq<char>,
    word: Seq<char>,
    after: Seq<char>,
)
    ensures
        agent::mentions(before + word + after, text::lowered(word)),
{
    let whole = text::lowered(before + word + after);
    assert(whole =~= text::lowered(before) + text::lowered(word) + text::lowered(after));
    text::lemma_contains_part(text::lowered(before), text::lowered(word), text::lowered(after));
}

/// What blocks a sub-agent is told with the class of its error and the error
/// itself, white space at its ends aside.
pub proof fn law_blockers_tell_the_error(error: Seq<char>)
    requires
        error.len() > 0,
        !text::is_whitespace(error[0]),
        !text::is_whitespace(error.last()),
    ensures
        agent::blocker_of(error).detail == error,
        agent::blocker_of(error).failure_class == agent::failure_class(error),
{
    text_laws::law_trimmed_texts_stay(error);
}

/// A sub-agent that runs is at work; one that has completed is finished, and can
/// be cleaned up exactly where it left a result; no other is either.
pub proof fn law_states_follow_the_status(
    status: Seq<char>,
    result: Option<Seq<char>>,
    error: Option<Seq<char>>,
)
    ensures
        agent::agent_state("running"@, result, error) == "working"@,
        agent::agent_state("completed"@, result, error) == "finished_cleanable"@ <==> (result
            matches Some(left) && !text::is_blank(left)),
        agent::agent_state("completed"@, result, error) == "finished_pending_report"@ <==> !(result
            matches Some(left) && !text::is_blank(left)),
        ({
            let state = agent::agent_state("failed"@, result, error);
            let said = match error {
                Some(error) => error,
                None => Seq::empty(),
            };
            &&& state != "working"@ && state != "finished_cleanable"@ && state
                != "finished_pending_report"@
            &&& state == "blocked_background_job"@ <==> agent::mentions(said, "background"@)
            &&& state == "blocked_merge_conflict"@ ==> agent::mentions(said, "merge conflict"@)
                || agent::mentions(said, "cherry-pick"@)
            &&& state == "degraded_mcp"@ ==> agent::mentions(said, "mcp"@)
            &&& state == "interrupted_transport"@ ==> agent::mentions(said, "transport"@)
                || agent::mentions(said, "broken pipe"@) || agent::mentions(said, "connection"@)
                || agent::mentions(said, "interrupted"@)
            &&& state == "truly_idle"@ ==> !agent::mentions(said, "mcp"@) && !agent::mentions(
                said,
                "connection"@,
            ) && !agent::mentions(said, "transport"@) && !agent::mentions(said, "merge conflict"@)
                && !agent::mentions(said, "interrupted"@)
        }),
{
    reveal_strlit("running");
    reveal_strlit("completed");
    reveal_strlit("failed");
    assert("running"@.len() == 7);
    assert("completed"@.len() == 9);
    assert("failed"@.len() == 6);
    reveal_strlit("working");
    reveal_strlit("finished_cleanable");
    reveal_strlit("finished_pending_report");
    reveal_strlit("blocked_background_job");
    reveal_strlit("blocked_merge_conflict");
    reveal_strlit("degraded_mcp");
    reveal_strlit("interrupted_transport");
    reveal_strlit("truly_idle");
    assert("working"@.len() == 7);
    assert("finished_cleanable"@.len() == 18);
    assert("finished_pending_report"@.len() == 23);
    assert("blocked_background_job"@.len() == 22);
    assert("blocked_merge_conflict"@.len() == 22);
    assert("degraded_mcp"@.len() == 12);
    assert("interrupted_transport"@.len() == 21);
    assert("truly_idle"@.len() == 10);
    assert("blocked_background_job"@[8] == 'b');
    assert("blocked_merge_conflict"@[8] == 'm');
    text_laws::law_trimmed_texts_stay("running"@);
    text_laws::law_trimmed_texts_stay("completed"@);
    text_laws::law_trimmed_texts_stay("failed"@);
    assert(text::lowered("running"@) =~= "running"@);
    assert(text::lowered("completed"@) =~= "completed"@);
    assert(text::lowered("failed"@) =~= "failed"@);
}

// ---------------------------------------------------------------------------
// Commits
// ---------------------------------------------------------------------------

/// Whether a text is made of hexadecimal digits alone.
pub open spec fn is_hex(s: Seq<char>) -> bool {
    forall|i: int| 0 <= i < s.len() ==> text::is_hex_digit(#[trigger] s[i])
}

proof fn lemma_hex_run(s: Seq<char>, from: int)
    requires
        0 <= from <= s.len(),
    ensures
        from <= agent::hex_run_end(s, from) <= s.len(),
        agent::hex_run_end(s, from) < s.len() ==> !text::is_hex_digit(
            s[agent::hex_run_end(s, from)],
        ),
        forall|i: int| from <= i < agent::hex_run_end(s, from) ==> text::is_hex_digit(#[trigger] s[i]),
    decreases s.len() - from,
{
    if from < s.len() && text::is_hex_digit(s[from]) {
        lemma_hex_run(s, from + 1);
    }
}

proof fn lemma_sha(s: Seq<char>, from: int)
    requires
        0 <= from <= s.len(),
        from == 0 || !text::is_hex_digit(s[from - 1]),
    ensures
        agent::sha_from(s, from) matches Some(sha) ==> {
            &&& 7 <= sha.len() <= 40
            &&& is_hex(sha)
            &&& text::contains_text(s, sha)
        },
    decreases s.len() - from,
{
    lemma_hex_run(s, from);
    let end = agent::hex_run_end(s, from);
    if 7 <= end - from <= 40 {
        let sha = s.subrange(from, end);
        assert(text::occurs_at(s, sha, from));
        assert forall|i: int| 0 <= i < sha.len() implies text::is_hex_digit(#[trigger] sha[i]) by {
            assert(sha[i] == s[from + i]);
        }
    } else if end < s.len() {
        lemma_sha(s, end + 1);
    }
}

/// The commit that a result reports stands in it, and is 7 to 40 hexadecimal
/// digits long; a result that is such a text, with other words around it, reports
/// that commit.
pub proof fn law_reported_commits_are_hashes(result: Seq<char>, sha: Seq<char>, after: Seq<char>)
    requires
        is_hex(sha),
        7 <= sha.len() <= 40,
        after.len() > 0 ==> !text::is_hex_digit(after[0]),
    ensures
        agent::sha_from(result, 0) matches Some(found) ==> 7 <= found.len() <= 40 && is_hex(found)
            && text::contains_text(result, found),
        agent::sha_from(sha + after, 0) == Some(sha),
{
    lemma_sha(result, 0);
    let whole = sha + after;
    lemma_hex_run(whole, 0);
    let end = agent::hex_run_end(whole, 0);
    if end < sha.len() {
        assert(whole[end] == sha[end]);
    }
    if end > sha.len() {
        assert(whole[sha.len() as int] == after[0]);
    }
    assert(whole.subrange(0, end) =~= sha);
}

/// A reported commit is told with where it was made, as its own origin; without a
/// branch that is told to be unknown, and without a commit there is nothing.
pub proof fn law_provenance_tells_commit_and_branch(
    result: Seq<char>,
    branch: Seq<char>,
    worktree: Option<Seq<char>>,
)
    ensures
        match agent::provenance_of(Some(result), Some(branch), worktree) {
            Some(origin) => {
                &&& agent::sha_from(result, 0) == Some(origin.commit)
                &&& origin.branch == branch
                &&& origin.worktree == worktree
                &&& origin.canonical_commit == Some(origin.commit)
                &&& origin.superseded_by is None
                &&& origin.lineage == seq![origin.commit]
            },
            None => agent::sha_from(result, 0) is None,
        },
        agent::provenance_of(Some(result), None, worktree) matches Some(origin) ==> origin.branch
            == "unknown"@,
        agent::provenance_of(None, Some(branch), worktree) is None,
{
}

// ---------------------------------------------------------------------------
// Defaults
// ---------------------------------------------------------------------------

/// Sub-agents use the model that the program uses where none is asked for: the one
/// that `opus` stands for.
pub proof fn law_agents_use_the_default_model(vendor: Seq<char>)
    ensures
        agent::default_model_of(vendor) == args::known_model("opus"@, vendor),
        agent::default_model_of(vendor) != args::known_model("sonnet"@, vendor),
        agent::default_model_of(vendor) != args::known_model("haiku"@, vendor),
        text::has_prefix(agent::default_model_of(vendor), vendor),
{
    reveal_strlit("opus");
    reveal_strlit("sonnet");
    reveal_strlit("haiku");
    reveal_strlit("-opus-4-6");
    reveal_strlit("-sonnet-4-6");
    reveal_strlit("-haiku-4-5-20251213");
    assert("opus"@.len() == 4 && "sonnet"@.len() == 6 && "haiku"@.len() == 5);
    assert(args::known_model("sonnet"@, vendor).len() == vendor.len() + 11);
    assert(args::known_model("haiku"@, vendor).len() == vendor.len() + 19);
    assert(agent::default_model_of(vendor).len() == vendor.len() + 9);
    text::lemma_contains_part(Seq::empty(), vendor, "-opus-4-6"@);
    assert(Seq::<char>::empty() + vendor + "-opus-4-6"@ =~= vendor + "-opus-4-6"@);
}

/// The id of a sub-agent tells the time that it was started at, so that no two
/// times have the same.
pub proof fn law_ids_tell_their_time(first: nat, second: nat)
    ensures
        agent::agent_id(first).skip(6) == text::decimal(first),
        text::has_prefix(agent::agent_id(first), "agent-"@),
        agent::agent_id(first) == agent::agent_id(second) ==> first == second,
{
    reveal_strlit("agent-");
    assert("agent-"@.len() == 6);
    assert(agent::agent_id(first).skip(6) =~= text::decimal(first));
    assert(agent::agent_id(second).skip(6) =~= text::decimal(second));
    text::lemma_decimal_reads_back(first, first);
    text::lemma_decimal_reads_back(second, second);
    text::lemma_contains_part(Seq::empty(), "agent-"@, text::decimal(first));
    assert(Seq::<char>::empty() + "agent-"@ + text::decimal(first) =~= agent::agent_id(first));
}

/// A branch is told where `git` succeeded, without the white space around it.
pub proof fn law_branches_are_told_where_git_succeeds(succeeded: bool, stdout: Seq<char>)
    ensures
        agent::branch_told(succeeded, stdout) is Some <==> succeeded,
        succeeded ==> agent::branch_told(succeeded, stdout) == Some(text::trimmed(stdout)),
{
}

/// A sub-agent signs in at the host of the vendor's platform, over an encrypted
/// connection, at two addresses that differ.
pub proof fn law_agents_sign_in_at_the_host(vendor: Seq<char>, config: OAuthConfig)
    requires
        agent::is_default_oauth(agent::host_of(vendor), config),
    ensures
        text::has_prefix(config.authorize_url@, "https://platform."@ + vendor + ".com/"@),
        text::has_prefix(config.token_url@, "https://platform."@ + vendor + ".com/"@),
        text::has_suffix(config.authorize_url@, "/oauth/authorize"@),
        text::has_suffix(config.token_url@, "/oauth/token"@),
        config.authorize_url@ != config.token_url@,
        config.callback_port is None && config.manual_redirect_url is None,
        config.scopes@.len() == 3,
        config.client_id@.len() == 36,
{
    lemma_address(vendor, "oauth/authorize"@);
    lemma_address(vendor, "v1/oauth/token"@);
    reveal_strlit("/oauth/authorize");
    reveal_strlit("oauth/authorize");
    reveal_strlit("/v1/oauth/token");
    reveal_strlit("v1/oauth/token");
    reveal_strlit("/oauth/token");
    reveal_strlit("/v1");
    reveal_strlit("/");
    assert("/oauth/authorize"@ =~= "/"@ + "oauth/authorize"@);
    assert("/v1/oauth/token"@ =~= "/"@ + "v1/oauth/token"@);
    assert("/v1/oauth/token"@ =~= "/v1"@ + "/oauth/token"@);
    let host = agent::host_of(vendor);
    assert(config.authorize_url@ =~= "https://"@ + host + ("/"@ + "oauth/authorize"@));
    assert(config.token_url@ =~= "https://"@ + host + ("/"@ + "v1/oauth/token"@));
    assert(text::has_suffix(config.authorize_url@, "/oauth/authorize"@)) by {
        let head = "https://"@ + host;
        assert(head + "/oauth/authorize"@ + Seq::<char>::empty() =~= config.authorize_url@);
        text::lemma_contains_part(head, "/oauth/authorize"@, Seq::empty());
    }
    assert(text::has_suffix(config.token_url@, "/oauth/token"@)) by {
        let head = "https://"@ + host + "/v1"@;
        assert(head + "/oauth/token"@ + Seq::<char>::empty() =~= config.token_url@);
        text::lemma_contains_part(head, "/oauth/token"@, Seq::empty());
    }
    assert(config.authorize_url@.len() == config.token_url@.len() + 1);
    assert(text::texts(config.scopes@).len() == config.scopes@.len());
    reveal_strlit("9d1c250a-e61b-44d9-88ed-5944d1962f5e");
}

proof fn lemma_address(vendor: Seq<char>, path: Seq<char>)
    ensures
        text::has_prefix(
            "https://"@ + agent::host_of(vendor) + ("/"@ + path),
            "https://platform."@ + vendor + ".com/"@,
        ),
{
    reveal_strlit("https://platform.");
    reveal_strlit("https://");
    reveal_strlit("platform.");
    reveal_strlit(".com/");
    reveal_strlit(".com");
    reveal_strlit("/");
    assert("https://platform."@ =~= "https://"@ + "platform."@);
    assert(".com/"@ =~= ".com"@ + "/"@);
    let head = "https://platform."@ + vendor + ".com/"@;
    let whole = "https://"@ + agent::host_of(vendor) + ("/"@ + path);
    assert(Seq::<char>::empty() + head + path =~= whole);
    text::lemma_contains_part(Seq::empty(), head, path);
}

/// What was loaded is used as it is; why it could not be loaded is told.
pub proof fn law_loaded_configurations_are_used(
    loaded: Result<Option<OAuthConfig>, String>,
    r: Result<Option<OAuthConfig>, String>,
)
    requires
        agent::comes_of_loading(loaded, r),
    ensures
        r is Ok <==> loaded is Ok,
        r is Ok ==> r == loaded,
        r is Err ==> text::has_suffix(r->Err_0@, ": "@ + loaded->Err_0@),
{
    if loaded is Err {
        let error = loaded->Err_0@;
        reveal_strlit("failed to load runtime OAuth config: ");
        reveal_strlit("failed to load runtime OAuth config");
        reveal_strlit(": ");
        let head = "failed to load runtime OAuth config"@;
        assert("failed to load runtime OAuth config: "@ =~= head + ": "@);
        assert(head + (": "@ + error) + Seq::<char>::empty() =~= r->Err_0@);
        text::lemma_contains_part(head, ": "@ + error, Seq::empty());
    }
}

/// A name that is made of a description has no more than 32 characters.
pub proof fn law_made_names_are_short(description: Seq<char>)
    ensures
        agent::slug(description).len() <= 32,
{
}

} // verus!
