//! What holds of every report.

use vstd::prelude::*;

use crate::permissions::PermissionMode;
use crate::reports;
use crate::stream::TokenUsage;
use crate::text;
use crate::text_laws;

verus! {

/// The report of the model names it, and tells how many messages and turns the
/// session has.
pub proof fn law_model_reports_name_the_model(model: Seq<char>, messages: nat, turns: nat)
    ensures
        text::contains_text(reports::model_report(model, messages, turns), "  Current model    "@ + model + "\n"@),
        text::contains_text(reports::model_report(model, messages, turns), "  Session messages "@ + text::decimal(messages) + "\n"@),
        text::contains_text(reports::model_report(model, messages, turns), "  Session turns    "@ + text::decimal(turns) + "\n"@),
{
    {
        reveal_strlit("Model\n  Current model    ");
        reveal_strlit("Model\n");
        reveal_strlit("  Current model    ");
        reveal_strlit("\n  Session messages ");
        reveal_strlit("\n");
        reveal_strlit("  Session messages ");
        assert("Model\n  Current model    "@ =~= "Model\n"@ + "  Current model    "@);
        assert("\n  Session messages "@ =~= "\n"@ + "  Session messages "@);
        let before = "Model\n"@;
        let part = "  Current model    "@ + model + "\n"@;
        let after = "  Session messages "@ + text::decimal(messages) + "\n  Session turns    "@ + text::decimal(turns) + "\n\nUsage\n  Inspect current model with /model\n  Switch models with /model <name>"@;
        assert(reports::model_report(model, messages, turns) =~= before + part + after);
        text::lemma_contains_part(before, part, after);
    }
    {
        reveal_strlit("\n  Session messages ");
        reveal_strlit("\n");
        reveal_strlit("  Session messages ");
        reveal_strlit("\n  Session turns    ");
        reveal_strlit("  Session turns    ");
        assert("\n  Session messages "@ =~= "\n"@ + "  Session messages "@);
        assert("\n  Session turns    "@ =~= "\n"@ + "  Session turns    "@);
        let before = "Model\n  Current model    "@ + model + "\n"@;
        let part = "  Session messages "@ + text::decimal(messages) + "\n"@;
        let after = "  Session turns    "@ + text::decimal(turns) + "\n\nUsage\n  Inspect current model with /model\n  Switch models with /model <name>"@;
        assert(reports::model_report(model, messages, turns) =~= before + part + after);
        text::lemma_contains_part(before, part, after);
    }
    {
        reveal_strlit("\n  Session turns    ");
        reveal_strlit("\n");
        reveal_strlit("  Session turns    ");
        reveal_strlit("\n\nUsage\n  Inspect current model with /model\n  Switch models with /model <name>");
        reveal_strlit("\nUsage\n  Inspect current model with /model\n  Switch models with /model <name>");
        assert("\n  Session turns    "@ =~= "\n"@ + "  Session turns    "@);
        assert("\n\nUsage\n  Inspect current model with /model\n  Switch models with /model <name>"@ =~= "\n"@ + "\nUsage\n  Inspect current model with /model\n  Switch models with /model <name>"@);
        let before = "Model\n  Current model    "@ + model + "\n  Session messages "@ + text::decimal(messages) + "\n"@;
        let part = "  Session turns    "@ + text::decimal(turns) + "\n"@;
        let after = "\nUsage\n  Inspect current model with /model\n  Switch models with /model <name>"@;
        assert(reports::model_report(model, messages, turns) =~= before + part + after);
        text::lemma_contains_part(before, part, after);
    }
}

/// The report of a switch names the model before and the one in use now.
pub proof fn law_model_switches_name_both_models(previous: Seq<char>, next: Seq<char>, messages: nat)
    ensures
        text::contains_text(reports::model_switch_report(previous, next, messages), "  Previous         "@ + previous + "\n"@),
        text::contains_text(reports::model_switch_report(previous, next, messages), "  Current          "@ + next + "\n"@),
        text::has_suffix(reports::model_switch_report(previous, next, messages), "  Preserved msgs   "@ + text::decimal(messages)),
{
    {
        reveal_strlit("Model updated\n  Previous         ");
        reveal_strlit("Model updated\n");
        reveal_strlit("  Previous         ");
        reveal_strlit("\n  Current          ");
        reveal_strlit("\n");
        reveal_strlit("  Current          ");
        assert("Model updated\n  Previous         "@ =~= "Model updated\n"@ + "  Previous         "@);
        assert("\n  Current          "@ =~= "\n"@ + "  Current          "@);
        let before = "Model updated\n"@;
        let part = "  Previous         "@ + previous + "\n"@;
        let after = "  Current          "@ + next + "\n  Preserved msgs   "@ + text::decimal(messages);
        assert(reports::model_switch_report(previous, next, messages) =~= before + part + after);
        text::lemma_contains_part(before, part, after);
    }
    {
        reveal_strlit("\n  Current          ");
        reveal_strlit("\n");
        reveal_strlit("  Current          ");
        reveal_strlit("\n  Preserved msgs   ");
        reveal_strlit("  Preserved msgs   ");
        assert("\n  Current          "@ =~= "\n"@ + "  Current          "@);
        assert("\n  Preserved msgs   "@ =~= "\n"@ + "  Preserved msgs   "@);
        let before = "Model updated\n  Previous         "@ + previous + "\n"@;
        let part = "  Current          "@ + next + "\n"@;
        let after = "  Preserved msgs   "@ + text::decimal(messages);
        assert(reports::model_switch_report(previous, next, messages) =~= before + part + after);
        text::lemma_contains_part(before, part, after);
    }
    {
        reveal_strlit("\n  Preserved msgs   ");
        reveal_strlit("\n");
        reveal_strlit("  Preserved msgs   ");
        assert("\n  Preserved msgs   "@ =~= "\n"@ + "  Preserved msgs   "@);
        let before = "Model updated\n  Previous         "@ + previous + "\n  Current          "@ + next + "\n"@;
        let part = "  Preserved msgs   "@ + text::decimal(messages);
        let after = Seq::<char>::empty();
        assert(reports::model_switch_report(previous, next, messages) =~= before + part + after);
        text::lemma_contains_part(before, part, after);
        assert(before + part + after =~= before + part);
    }
}

/// The report of a switch names the mode before and the one in use now.
pub proof fn law_permission_switches_name_both_modes(previous: Seq<char>, next: Seq<char>)
    ensures
        text::contains_text(reports::permissions_switch_report(previous, next), "  Previous mode    "@ + previous + "\n"@),
        text::contains_text(reports::permissions_switch_report(previous, next), "  Active mode      "@ + next + "\n"@),
{
    {
        reveal_strlit("Permissions updated\n  Result           mode switched\n  Previous mode    ");
        reveal_strlit("Permissions updated\n  Result           mode switched\n");
        reveal_strlit("  Previous mode    ");
        reveal_strlit("\n  Active mode      ");
        reveal_strlit("\n");
        reveal_strlit("  Active mode      ");
        assert("Permissions updated\n  Result           mode switched\n  Previous mode    "@ =~= "Permissions updated\n  Result           mode switched\n"@ + "  Previous mode    "@);
        assert("\n  Active mode      "@ =~= "\n"@ + "  Active mode      "@);
        let before = "Permissions updated\n  Result           mode switched\n"@;
        let part = "  Previous mode    "@ + previous + "\n"@;
        let after = "  Active mode      "@ + next + "\n  Applies to       subsequent tool calls\n  Usage            /permissions to inspect current mode"@;
        assert(reports::permissions_switch_report(previous, next) =~= before + part + after);
        text::lemma_contains_part(before, part, after);
    }
    {
        reveal_strlit("\n  Active mode      ");
        reveal_strlit("\n");
        reveal_strlit("  Active mode      ");
        reveal_strlit("\n  Applies to       subsequent tool calls\n  Usage            /permissions to inspect current mode");
        reveal_strlit("  Applies to       subsequent tool calls\n  Usage            /permissions to inspect current mode");
        assert("\n  Active mode      "@ =~= "\n"@ + "  Active mode      "@);
        assert("\n  Applies to       subsequent tool calls\n  Usage            /permissions to inspect current mode"@ =~= "\n"@ + "  Applies to       subsequent tool calls\n  Usage            /permissions to inspect current mode"@);
        let before = "Permissions updated\n  Result           mode switched\n  Previous mode    "@ + previous + "\n"@;
        let part = "  Active mode      "@ + next + "\n"@;
        let after = "  Applies to       subsequent tool calls\n  Usage            /permissions to inspect current mode"@;
        assert(reports::permissions_switch_report(previous, next) =~= before + part + after);
        text::lemma_contains_part(before, part, after);
    }
}

/// The report of a resumed session names its file, and tells how many messages and
/// turns it has.
pub proof fn law_resume_reports_name_the_file(path: Seq<char>, messages: nat, turns: nat)
    ensures
        text::contains_text(reports::resume_report(path, messages, turns), "  Session file     "@ + path + "\n"@),
        text::contains_text(reports::resume_report(path, messages, turns), "  Messages         "@ + text::decimal(messages) + "\n"@),
        text::has_suffix(reports::resume_report(path, messages, turns), "  Turns            "@ + text::decimal(turns)),
{
    {
        reveal_strlit("Session resumed\n  Session file     ");
        reveal_strlit("Session resumed\n");
        reveal_strlit("  Session file     ");
        reveal_strlit("\n  Messages         ");
        reveal_strlit("\n");
        reveal_strlit("  Messages         ");
        assert("Session resumed\n  Session file     "@ =~= "Session resumed\n"@ + "  Session file     "@);
        assert("\n  Messages         "@ =~= "\n"@ + "  Messages         "@);
        let before = "Session resumed\n"@;
        let part = "  Session file     "@ + path + "\n"@;
        let after = "  Messages         "@ + text::decimal(messages) + "\n  Turns            "@ + text::decimal(turns);
        assert(reports::resume_report(path, messages, turns) =~= before + part + after);
        text::lemma_contains_part(before, part, after);
    }
    {
        reveal_strlit("\n  Messages         ");
        reveal_strlit("\n");
        reveal_strlit("  Messages         ");
        reveal_strlit("\n  Turns            ");
        reveal_strlit("  Turns            ");
        assert("\n  Messages         "@ =~= "\n"@ + "  Messages         "@);
        assert("\n  Turns            "@ =~= "\n"@ + "  Turns            "@);
        let before = "Session resumed\n  Session file     "@ + path + "\n"@;
        let part = "  Messages         "@ + text::decimal(messages) + "\n"@;
        let after = "  Turns            "@ + text::decimal(turns);
        assert(reports::resume_report(path, messages, turns) =~= before + part + after);
        text::lemma_contains_part(before, part, after);
    }
    {
        reveal_strlit("\n  Turns            ");
        reveal_strlit("\n");
        reveal_strlit("  Turns            ");
        assert("\n  Turns            "@ =~= "\n"@ + "  Turns            "@);
        let before = "Session resumed\n  Session file     "@ + path + "\n  Messages         "@ + text::decimal(messages) + "\n"@;
        let part = "  Turns            "@ + text::decimal(turns);
        let after = Seq::<char>::empty();
        assert(reports::resume_report(path, messages, turns) =~= before + part + after);
        text::lemma_contains_part(before, part, after);
        assert(before + part + after =~= before + part);
    }
}

/// The report of a compaction tells how many messages were removed and how many
/// are left.
pub proof fn law_compaction_reports_tell_the_numbers(removed: nat, kept: nat)
    ensures
        text::contains_text(reports::compact_report(removed, kept, false), "  Messages removed "@ + text::decimal(removed) + "\n"@),
        text::has_suffix(reports::compact_report(removed, kept, false), "  Messages kept    "@ + text::decimal(kept)),
{
    {
        reveal_strlit("Compact\n  Result           compacted\n  Messages removed ");
        reveal_strlit("Compact\n  Result           compacted\n");
        reveal_strlit("  Messages removed ");
        reveal_strlit("\n  Messages kept    ");
        reveal_strlit("\n");
        reveal_strlit("  Messages kept    ");
        assert("Compact\n  Result           compacted\n  Messages removed "@ =~= "Compact\n  Result           compacted\n"@ + "  Messages removed "@);
        assert("\n  Messages kept    "@ =~= "\n"@ + "  Messages kept    "@);
        let before = "Compact\n  Result           compacted\n"@;
        let part = "  Messages removed "@ + text::decimal(removed) + "\n"@;
        let after = "  Messages kept    "@ + text::decimal(kept);
        assert(reports::compact_report(removed, kept, false) =~= before + part + after);
        text::lemma_contains_part(before, part, after);
    }
    {
        reveal_strlit("\n  Messages kept    ");
        reveal_strlit("\n");
        reveal_strlit("  Messages kept    ");
        assert("\n  Messages kept    "@ =~= "\n"@ + "  Messages kept    "@);
        let before = "Compact\n  Result           compacted\n  Messages removed "@ + text::decimal(removed) + "\n"@;
        let part = "  Messages kept    "@ + text::decimal(kept);
        let after = Seq::<char>::empty();
        assert(reports::compact_report(removed, kept, false) =~= before + part + after);
        text::lemma_contains_part(before, part, after);
        assert(before + part + after =~= before + part);
    }
}

/// A compaction that was skipped says so, and tells how many messages are left.
pub proof fn law_skipped_compactions_say_so(removed: nat, kept: nat)
    ensures
        text::has_suffix(reports::compact_report(removed, kept, true), "  Messages kept    "@ + text::decimal(kept)),
        text::contains_text(reports::compact_report(removed, kept, true), "Result           skipped"@),
{
    {
        reveal_strlit("Compact\n  Result           skipped\n  Reason           session below compaction threshold\n  Messages kept    ");
        reveal_strlit("Compact\n  Result           skipped\n  Reason           session below compaction threshold\n");
        reveal_strlit("  Messages kept    ");
        assert("Compact\n  Result           skipped\n  Reason           session below compaction threshold\n  Messages kept    "@ =~= "Compact\n  Result           skipped\n  Reason           session below compaction threshold\n"@ + "  Messages kept    "@);
        let before = "Compact\n  Result           skipped\n  Reason           session below compaction threshold\n"@;
        let part = "  Messages kept    "@ + text::decimal(kept);
        let after = Seq::<char>::empty();
        assert(reports::compact_report(removed, kept, true) =~= before + part + after);
        text::lemma_contains_part(before, part, after);
        assert(before + part + after =~= before + part);
    }
    reveal_strlit("Compact\n  Result           skipped\n  Reason           session below compaction threshold\n  Messages kept    ");
    reveal_strlit("Compact\n  ");
    reveal_strlit("Result           skipped");
    reveal_strlit("\n  Reason           session below compaction threshold\n  Messages kept    ");
    assert("Compact\n  Result           skipped\n  Reason           session below compaction threshold\n  Messages kept    "@ =~= "Compact\n  "@ + "Result           skipped"@ + "\n  Reason           session below compaction threshold\n  Messages kept    "@);
    let tail = "\n  Reason           session below compaction threshold\n  Messages kept    "@
        + text::decimal(kept);
    assert(reports::compact_report(removed, kept, true) =~= "Compact\n  "@
        + "Result           skipped"@ + tail);
    text::lemma_contains_part("Compact\n  "@, "Result           skipped"@, tail);
}

/// The notice of a compaction that came by itself tells how many messages were
/// removed.
pub proof fn law_compaction_notices_tell_the_number(removed: nat)
    ensures
        text::contains_text(reports::auto_compaction_notice(removed), "[auto-compacted: removed "@ + text::decimal(removed) + " "@),
{
    {
        reveal_strlit("[auto-compacted: removed ");
        reveal_strlit(" messages]");
        reveal_strlit(" ");
        reveal_strlit("messages]");
        assert(" messages]"@ =~= " "@ + "messages]"@);
        let before = Seq::<char>::empty();
        let part = "[auto-compacted: removed "@ + text::decimal(removed) + " "@;
        let after = "messages]"@;
        assert(reports::auto_compaction_notice(removed) =~= before + part + after);
        text::lemma_contains_part(before, part, after);
    }
}

/// The report of an export names the file, and tells how many messages it holds.
pub proof fn law_export_reports_name_the_file(file: Seq<char>, messages: nat)
    ensures
        text::contains_text(reports::export_report(file, messages), "  File             "@ + file + "\n"@),
        text::has_suffix(reports::export_report(file, messages), "  Messages         "@ + text::decimal(messages)),
{
    {
        reveal_strlit("Export\n  Result           wrote transcript\n  File             ");
        reveal_strlit("Export\n  Result           wrote transcript\n");
        reveal_strlit("  File             ");
        reveal_strlit("\n  Messages         ");
        reveal_strlit("\n");
        reveal_strlit("  Messages         ");
        assert("Export\n  Result           wrote transcript\n  File             "@ =~= "Export\n  Result           wrote transcript\n"@ + "  File             "@);
        assert("\n  Messages         "@ =~= "\n"@ + "  Messages         "@);
        let before = "Export\n  Result           wrote transcript\n"@;
        let part = "  File             "@ + file + "\n"@;
        let after = "  Messages         "@ + text::decimal(messages);
        assert(reports::export_report(file, messages) =~= before + part + after);
        text::lemma_contains_part(before, part, after);
    }
    {
        reveal_strlit("\n  Messages         ");
        reveal_strlit("\n");
        reveal_strlit("  Messages         ");
        assert("\n  Messages         "@ =~= "\n"@ + "  Messages         "@);
        let before = "Export\n  Result           wrote transcript\n  File             "@ + file + "\n"@;
        let part = "  Messages         "@ + text::decimal(messages);
        let after = Seq::<char>::empty();
        assert(reports::export_report(file, messages) =~= before + part + after);
        text::lemma_contains_part(before, part, after);
        assert(before + part + after =~= before + part);
    }
}

/// The report of used tokens tells each count by its name, and as their total the
/// sum of the four.
pub proof fn law_cost_reports_tell_the_counts(usage: TokenUsage)
    ensures
        text::contains_text(reports::cost_report(usage), "  Input tokens     "@ + text::decimal(usage.input_tokens as nat) + "\n"@),
        text::contains_text(reports::cost_report(usage), "  Output tokens    "@ + text::decimal(usage.output_tokens as nat) + "\n"@),
        text::contains_text(reports::cost_report(usage), "  Cache create     "@ + text::decimal(usage.cache_creation_input_tokens as nat) + "\n"@),
        text::contains_text(reports::cost_report(usage), "  Cache read       "@ + text::decimal(usage.cache_read_input_tokens as nat) + "\n"@),
        text::has_suffix(reports::cost_report(usage), "  Total tokens     "@ + text::decimal((usage.input_tokens + usage.output_tokens + usage.cache_creation_input_tokens + usage.cache_read_input_tokens) as nat)),
{
    {
        reveal_strlit("Cost\n  Input tokens     ");
        reveal_strlit("Cost\n");
        reveal_strlit("  Input tokens     ");
        reveal_strlit("\n  Output tokens    ");
        reveal_strlit("\n");
        reveal_strlit("  Output tokens    ");
        assert("Cost\n  Input tokens     "@ =~= "Cost\n"@ + "  Input tokens     "@);
        assert("\n  Output tokens    "@ =~= "\n"@ + "  Output tokens    "@);
        let before = "Cost\n"@;
        let part = "  Input tokens     "@ + text::decimal(usage.input_tokens as nat) + "\n"@;
        let after = "  Output tokens    "@ + text::decimal(usage.output_tokens as nat) + "\n  Cache create     "@ + text::decimal(usage.cache_creation_input_tokens as nat) + "\n  Cache read       "@ + text::decimal(usage.cache_read_input_tokens as nat) + "\n  Total tokens     "@ + text::decimal((usage.input_tokens + usage.output_tokens + usage.cache_creation_input_tokens + usage.cache_read_input_tokens) as nat);
        assert(reports::cost_report(usage) =~= before + part + after);
        text::lemma_contains_part(before, part, after);
    }
    {
        reveal_strlit("\n  Output tokens    ");
        reveal_strlit("\n");
        reveal_strlit("  Output tokens    ");
        reveal_strlit("\n  Cache create     ");
        reveal_strlit("  Cache create     ");
        assert("\n  Output tokens    "@ =~= "\n"@ + "  Output tokens    "@);
        assert("\n  Cache create     "@ =~= "\n"@ + "  Cache create     "@);
        let before = "Cost\n  Input tokens     "@ + text::decimal(usage.input_tokens as nat) + "\n"@;
        let part = "  Output tokens    "@ + text::decimal(usage.output_tokens as nat) + "\n"@;
        let after = "  Cache create     "@ + text::decimal(usage.cache_creation_input_tokens as nat) + "\n  Cache read       "@ + text::decimal(usage.cache_read_input_tokens as nat) + "\n  Total tokens     "@ + text::decimal((usage.input_tokens + usage.output_tokens + usage.cache_creation_input_tokens + usage.cache_read_input_tokens) as nat);
        assert(reports::cost_report(usage) =~= before + part + after);
        text::lemma_contains_part(before, part, after);
    }
    {
        reveal_strlit("\n  Cache create     ");
        reveal_strlit("\n");
        reveal_strlit("  Cache create     ");
        reveal_strlit("\n  Cache read       ");
        reveal_strlit("  Cache read       ");
        assert("\n  Cache create     "@ =~= "\n"@ + "  Cache create     "@);
        assert("\n  Cache read       "@ =~= "\n"@ + "  Cache read       "@);
        let before = "Cost\n  Input tokens     "@ + text::decimal(usage.input_tokens as nat) + "\n  Output tokens    "@ + text::decimal(usage.output_tokens as nat) + "\n"@;
        let part = "  Cache create     "@ + text::decimal(usage.cache_creation_input_tokens as nat) + "\n"@;
        let after = "  Cache read       "@ + text::decimal(usage.cache_read_input_tokens as nat) + "\n  Total tokens     "@ + text::decimal((usage.input_tokens + usage.output_tokens + usage.cache_creation_input_tokens + usage.cache_read_input_tokens) as nat);
        assert(reports::cost_report(usage) =~= before + part + after);
        text::lemma_contains_part(before, part, after);
    }
    {
        reveal_strlit("\n  Cache read       ");
        reveal_strlit("\n");
        reveal_strlit("  Cache read       ");
        reveal_strlit("\n  Total tokens     ");
        reveal_strlit("  Total tokens     ");
        assert("\n  Cache read       "@ =~= "\n"@ + "  Cache read       "@);
        assert("\n  Total tokens     "@ =~= "\n"@ + "  Total tokens     "@);
        let before = "Cost\n  Input tokens     "@ + text::decimal(usage.input_tokens as nat) + "\n  Output tokens    "@ + text::decimal(usage.output_tokens as nat) + "\n  Cache create     "@ + text::decimal(usage.cache_creation_input_tokens as nat) + "\n"@;
        let part = "  Cache read       "@ + text::decimal(usage.cache_read_input_tokens as nat) + "\n"@;
        let after = "  Total tokens     "@ + text::decimal((usage.input_tokens + usage.output_tokens + usage.cache_creation_input_tokens + usage.cache_read_input_tokens) as nat);
        assert(reports::cost_report(usage) =~= before + part + after);
        text::lemma_contains_part(before, part, after);
    }
    {
        reveal_strlit("\n  Total tokens     ");
        reveal_strlit("\n");
        reveal_strlit("  Total tokens     ");
        assert("\n  Total tokens     "@ =~= "\n"@ + "  Total tokens     "@);
        let before = "Cost\n  Input tokens     "@ + text::decimal(usage.input_tokens as nat) + "\n  Output tokens    "@ + text::decimal(usage.output_tokens as nat) + "\n  Cache create     "@ + text::decimal(usage.cache_creation_input_tokens as nat) + "\n  Cache read       "@ + text::decimal(usage.cache_read_input_tokens as nat) + "\n"@;
        let part = "  Total tokens     "@ + text::decimal((usage.input_tokens + usage.output_tokens + usage.cache_creation_input_tokens + usage.cache_read_input_tokens) as nat);
        let after = Seq::<char>::empty();
        assert(reports::cost_report(usage) =~= before + part + after);
        text::lemma_contains_part(before, part, after);
        assert(before + part + after =~= before + part);
    }
}

/// The report of a hunt for bugs names its scope.
pub proof fn law_bughunter_reports_name_the_scope(scope: Seq<char>)
    ensures
        text::contains_text(reports::bughunter_report(Some(scope)), "  Scope            "@ + scope + "\n"@),
        reports::bughunter_report(None) == reports::bughunter_report(Some("the current repository"@)),
{
    {
        reveal_strlit("Bughunter\n  Scope            ");
        reveal_strlit("Bughunter\n");
        reveal_strlit("  Scope            ");
        reveal_strlit("\n  Action           inspect the selected code for likely bugs and correctness issues\n  Output           findings should include file paths, severity, and suggested fixes");
        reveal_strlit("\n");
        reveal_strlit("  Action           inspect the selected code for likely bugs and correctness issues\n  Output           findings should include file paths, severity, and suggested fixes");
        assert("Bughunter\n  Scope            "@ =~= "Bughunter\n"@ + "  Scope            "@);
        assert("\n  Action           inspect the selected code for likely bugs and correctness issues\n  Output           findings should include file paths, severity, and suggested fixes"@ =~= "\n"@ + "  Action           inspect the selected code for likely bugs and correctness issues\n  Output           findings should include file paths, severity, and suggested fixes"@);
        let before = "Bughunter\n"@;
        let part = "  Scope            "@ + scope + "\n"@;
        let after = "  Action           inspect the selected code for likely bugs and correctness issues\n  Output           findings should include file paths, severity, and suggested fixes"@;
        assert(reports::bughunter_report(Some(scope)) =~= before + part + after);
        text::lemma_contains_part(before, part, after);
    }
}

/// The report of a plan names its task.
pub proof fn law_ultraplan_reports_name_the_task(task: Seq<char>)
    ensures
        text::contains_text(reports::ultraplan_report(Some(task)), "  Task             "@ + task + "\n"@),
        reports::ultraplan_report(None) == reports::ultraplan_report(Some("the current repo work"@)),
{
    {
        reveal_strlit("Ultraplan\n  Task             ");
        reveal_strlit("Ultraplan\n");
        reveal_strlit("  Task             ");
        reveal_strlit("\n  Action           break work into a multi-step execution plan\n  Output           plan should cover goals, risks, sequencing, verification, and rollback");
        reveal_strlit("\n");
        reveal_strlit("  Action           break work into a multi-step execution plan\n  Output           plan should cover goals, risks, sequencing, verification, and rollback");
        assert("Ultraplan\n  Task             "@ =~= "Ultraplan\n"@ + "  Task             "@);
        assert("\n  Action           break work into a multi-step execution plan\n  Output           plan should cover goals, risks, sequencing, verification, and rollback"@ =~= "\n"@ + "  Action           break work into a multi-step execution plan\n  Output           plan should cover goals, risks, sequencing, verification, and rollback"@);
        let before = "Ultraplan\n"@;
        let part = "  Task             "@ + task + "\n"@;
        let after = "  Action           break work into a multi-step execution plan\n  Output           plan should cover goals, risks, sequencing, verification, and rollback"@;
        assert(reports::ultraplan_report(Some(task)) =~= before + part + after);
        text::lemma_contains_part(before, part, after);
    }
}

/// The report of a pull request names the branch and the context.
pub proof fn law_pr_reports_name_the_branch(branch: Seq<char>, context: Seq<char>)
    ensures
        text::contains_text(reports::pr_report(branch, Some(context)), "  Branch           "@ + branch + "\n"@),
        text::contains_text(reports::pr_report(branch, Some(context)), "  Context          "@ + context + "\n"@),
        reports::pr_report(branch, None) == reports::pr_report(branch, Some("none"@)),
{
    {
        reveal_strlit("PR\n  Branch           ");
        reveal_strlit("PR\n");
        reveal_strlit("  Branch           ");
        reveal_strlit("\n  Context          ");
        reveal_strlit("\n");
        reveal_strlit("  Context          ");
        assert("PR\n  Branch           "@ =~= "PR\n"@ + "  Branch           "@);
        assert("\n  Context          "@ =~= "\n"@ + "  Context          "@);
        let before = "PR\n"@;
        let part = "  Branch           "@ + branch + "\n"@;
        let after = "  Context          "@ + context + "\n  Action           draft or create a pull request for the current branch\n  Output           title and markdown body suitable for GitHub"@;
        assert(reports::pr_report(branch, Some(context)) =~= before + part + after);
        text::lemma_contains_part(before, part, after);
    }
    {
        reveal_strlit("\n  Context          ");
        reveal_strlit("\n");
        reveal_strlit("  Context          ");
        reveal_strlit("\n  Action           draft or create a pull request for the current branch\n  Output           title and markdown body suitable for GitHub");
        reveal_strlit("  Action           draft or create a pull request for the current branch\n  Output           title and markdown body suitable for GitHub");
        assert("\n  Context          "@ =~= "\n"@ + "  Context          "@);
        assert("\n  Action           draft or create a pull request for the current branch\n  Output           title and markdown body suitable for GitHub"@ =~= "\n"@ + "  Action           draft or create a pull request for the current branch\n  Output           title and markdown body suitable for GitHub"@);
        let before = "PR\n  Branch           "@ + branch + "\n"@;
        let part = "  Context          "@ + context + "\n"@;
        let after = "  Action           draft or create a pull request for the current branch\n  Output           title and markdown body suitable for GitHub"@;
        assert(reports::pr_report(branch, Some(context)) =~= before + part + after);
        text::lemma_contains_part(before, part, after);
    }
}

/// The report of an issue names the context.
pub proof fn law_issue_reports_name_the_context(context: Seq<char>)
    ensures
        text::contains_text(reports::issue_report(Some(context)), "  Context          "@ + context + "\n"@),
        reports::issue_report(None) == reports::issue_report(Some("none"@)),
{
    {
        reveal_strlit("Issue\n  Context          ");
        reveal_strlit("Issue\n");
        reveal_strlit("  Context          ");
        reveal_strlit("\n  Action           draft or create a GitHub issue from the current context\n  Output           title and markdown body suitable for GitHub");
        reveal_strlit("\n");
        reveal_strlit("  Action           draft or create a GitHub issue from the current context\n  Output           title and markdown body suitable for GitHub");
        assert("Issue\n  Context          "@ =~= "Issue\n"@ + "  Context          "@);
        assert("\n  Action           draft or create a GitHub issue from the current context\n  Output           title and markdown body suitable for GitHub"@ =~= "\n"@ + "  Action           draft or create a GitHub issue from the current context\n  Output           title and markdown body suitable for GitHub"@);
        let before = "Issue\n"@;
        let part = "  Context          "@ + context + "\n"@;
        let after = "  Action           draft or create a GitHub issue from the current context\n  Output           title and markdown body suitable for GitHub"@;
        assert(reports::issue_report(Some(context)) =~= before + part + after);
        text::lemma_contains_part(before, part, after);
    }
}

/// A command that takes no arguments takes white space for none.
pub proof fn law_white_space_is_no_argument(command: Seq<char>, blank: Seq<char>)
    requires
        text::is_blank(blank),
    ensures
        reports::no_args(command, None) is Ok,
        reports::no_args(command, Some(blank)) is Ok,
{
}

/// A command that takes no arguments refuses any that hold something, and tells
/// them behind its name.
pub proof fn law_arguments_are_refused_where_none_are_taken(command: Seq<char>, args: Seq<char>)
    requires
        args.len() > 0,
        !text::is_whitespace(args[0]),
        !text::is_whitespace(args.last()),
    ensures
        reports::no_args(command, Some(args)) is Err,
        text::has_prefix(reports::no_args(command, Some(args))->Err_0, command),
        text::has_suffix(reports::no_args(command, Some(args))->Err_0, args),
{
    text_laws::law_trimmed_texts_stay(args);
    assert(!text::is_blank(args)) by {
        if text::is_blank(args) {
            assert(text::is_whitespace(args[0]));
        }
    }
    lemma_ends(command, " does not accept arguments. Received: "@, args);
}

proof fn lemma_ends(head: Seq<char>, between: Seq<char>, tail: Seq<char>)
    ensures
        text::has_prefix(head + between + tail, head),
        text::has_suffix(head + between + tail, tail),
{
    text::lemma_contains_part(head + between, tail, Seq::empty());
    text::lemma_contains_part(Seq::empty(), head, between + tail);
    assert(head + between + tail =~= head + (between + tail));
}

/// What is said of an unknown command names it, and then the commands that are
/// suggested and the note, where there are any; it ends by pointing at the help.
pub proof fn law_unknown_commands_are_named(
    name: Seq<char>,
    suggestions: Seq<Seq<char>>,
    note: Seq<char>,
)
    requires
        suggestions.len() > 0,
    ensures
        text::has_prefix(
            reports::unknown_command_message(name, suggestions, Some(note)),
            "unknown slash command: /"@ + name + ". Did you mean "@ + text::joined(
                suggestions,
                ", "@,
            ) + "? "@ + note,
        ),
        reports::unknown_command_message(name, Seq::empty(), None) == "unknown slash command: /"@
            + name + ". Use /help to list available commands."@,
        text::has_prefix(
            reports::unknown_command_report(name, suggestions, Some(note)),
            "Unknown slash command: /"@ + name + "\n  Did you mean     "@ + text::joined(
                suggestions,
                ", "@,
            ) + "\n  "@ + note + "\n"@,
        ),
        reports::unknown_command_report(name, Seq::empty(), None) == "Unknown slash command: /"@
            + name + "\n  Help             /help lists available slash commands"@,
{
    reveal_strlit(". Did you mean ");
    reveal_strlit(".");
    reveal_strlit(" Did you mean ");
    assert(". Did you mean "@ =~= "."@ + " Did you mean "@);
    reveal_strlit("? ");
    reveal_strlit("?");
    reveal_strlit(" ");
    assert("? "@ =~= "?"@ + " "@);
    reveal_strlit(". Use /help to list available commands.");
    reveal_strlit(".");
    reveal_strlit(" Use /help to list available commands.");
    assert(". Use /help to list available commands."@ =~= "."@ + " Use /help to list available commands."@);
    reveal_strlit("\n  Help             /help lists available slash commands");
    reveal_strlit("\n");
    reveal_strlit("  Help             /help lists available slash commands");
    assert("\n  Help             /help lists available slash commands"@ =~= "\n"@ + "  Help             /help lists available slash commands"@);
    let listed = text::joined(suggestions, ", "@);
    let head = "unknown slash command: /"@ + name + ". Did you mean "@ + listed + "? "@ + note;
    let message = reports::unknown_command_message(name, suggestions, Some(note));
    assert(message =~= head + " Use /help to list available commands."@);
    text::lemma_contains_part(Seq::empty(), head, " Use /help to list available commands."@);
    assert(reports::unknown_command_message(name, Seq::empty(), None)
        =~= "unknown slash command: /"@ + name + ". Use /help to list available commands."@);
    let top = "Unknown slash command: /"@ + name + "\n  Did you mean     "@ + listed + "\n  "@ + note
        + "\n"@;
    let report = reports::unknown_command_report(name, suggestions, Some(note));
    assert(report =~= top + "  Help             /help lists available slash commands"@);
    text::lemma_contains_part(
        Seq::empty(),
        top,
        "  Help             /help lists available slash commands"@,
    );
}

/// The line of a mode begins with its name, and marks the mode in use as the
/// current one and any other as available.
pub proof fn law_the_active_mode_is_marked(mode: PermissionMode, active: Seq<char>)
    ensures
        text::has_prefix(reports::mode_line(mode, active), "\n  "@ + mode.name()),
        mode.name() == active ==> text::contains_text(
            reports::mode_line(mode, active),
            "● current"@,
        ),
        mode.name() != active ==> text::contains_text(
            reports::mode_line(mode, active),
            "○ available"@,
        ),
{
    let mark = if mode.name() == active {
        "● current"@
    } else {
        "○ available"@
    };
    lemma_mode_line(mode.name(), mark, reports::mode_description(mode));
}

proof fn lemma_mode_line(name: Seq<char>, mark: Seq<char>, description: Seq<char>)
    ensures
        ({
            let line = "\n  "@ + text::padded(name, 18) + " "@ + text::padded(mark, 11) + " "@
                + description;
            &&& text::has_prefix(line, "\n  "@ + name)
            &&& text::contains_text(line, mark)
        }),
{
    let line = "\n  "@ + text::padded(name, 18) + " "@ + text::padded(mark, 11) + " "@ + description;
    let wide = text::padded(name, 18);
    let gap = wide.skip(name.len() as int);
    assert(wide =~= name + gap);
    let marked = text::padded(mark, 11);
    let fill = marked.skip(mark.len() as int);
    assert(marked =~= mark + fill);
    let rest = gap + " "@ + marked + " "@ + description;
    assert(line =~= ("\n  "@ + name) + rest);
    text::lemma_contains_part(Seq::empty(), "\n  "@ + name, rest);
    let before = "\n  "@ + wide + " "@;
    let after = fill + " "@ + description;
    assert(line =~= before + mark + after);
    text::lemma_contains_part(before, mark, after);
}

/// The report of permissions names the mode in use and has a line for each.
pub proof fn law_permission_reports_list_the_modes(mode: PermissionMode, active: Seq<char>)
    ensures
        text::contains_text(
            reports::permissions_report(active),
            "  Active mode      "@ + active + "\n"@,
        ),
        text::contains_text(reports::permissions_report(active), reports::mode_line(mode, active)),
{
    let (one, two, three) = (
        reports::mode_line(PermissionMode::ReadOnly, active),
        reports::mode_line(PermissionMode::WorkspaceWrite, active),
        reports::mode_line(PermissionMode::DangerFullAccess, active),
    );
    reveal_strlit("Permissions\n  Active mode      ");
    reveal_strlit("Permissions\n");
    reveal_strlit("  Active mode      ");
    assert("Permissions\n  Active mode      "@ =~= "Permissions\n"@ + "  Active mode      "@);
    reveal_strlit("\n  Mode status      live session default\n\nModes");
    reveal_strlit("\n");
    reveal_strlit("  Mode status      live session default\n\nModes");
    assert("\n  Mode status      live session default\n\nModes"@ =~= "\n"@
        + "  Mode status      live session default\n\nModes"@);
    let tail =
        "\n\nUsage\n  Inspect current mode with /permissions\n  Switch modes with /permissions <mode>"@;
    let part = "  Active mode      "@ + active + "\n"@;
    let modes = "  Mode status      live session default\n\nModes"@;
    let head = "Permissions\n"@;
    let report = reports::permissions_report(active);
    assert(report =~= head + part + modes + one + two + three + tail);
    lemma_part_of_seven(head, part, modes, one, two, three, tail);
}

proof fn lemma_part_of_seven(
    head: Seq<char>,
    part: Seq<char>,
    modes: Seq<char>,
    one: Seq<char>,
    two: Seq<char>,
    three: Seq<char>,
    tail: Seq<char>,
)
    ensures
        ({
            let whole = head + part + modes + one + two + three + tail;
            &&& text::contains_text(whole, part)
            &&& text::contains_text(whole, one)
            &&& text::contains_text(whole, two)
            &&& text::contains_text(whole, three)
        }),
{
    let whole = head + part + modes + one + two + three + tail;
    assert(whole =~= head + part + (modes + one + two + three + tail));
    text::lemma_contains_part(head, part, modes + one + two + three + tail);
    assert(whole =~= (head + part + modes) + one + (two + three + tail));
    text::lemma_contains_part(head + part + modes, one, two + three + tail);
    assert(whole =~= (head + part + modes + one) + two + (three + tail));
    text::lemma_contains_part(head + part + modes + one, two, three + tail);
    text::lemma_contains_part(head + part + modes + one + two, three, tail);
}

/// Each mode is described as what it allows: the least reads, the next edits in
/// the workspace, and the last is not restricted.
pub proof fn law_modes_are_described(mode: PermissionMode)
    ensures
        text::has_prefix(reports::mode_description(mode), "Read"@) <==> mode
            == PermissionMode::ReadOnly,
        text::has_prefix(reports::mode_description(mode), "Edit"@) <==> mode
            == PermissionMode::WorkspaceWrite,
        text::has_prefix(reports::mode_description(mode), "Unrestricted"@) <==> mode
            == PermissionMode::DangerFullAccess,
{
    reveal_strlit("Read/search tools only");
    reveal_strlit("Edit files inside the workspace");
    reveal_strlit("Unrestricted tool access");
    reveal_strlit("Read");
    reveal_strlit("Edit");
    reveal_strlit("Unrestricted");
    let shown = reports::mode_description(mode);
    assert(shown[0] == 'R' || shown[0] == 'E' || shown[0] == 'U');
    assert("Read"@.len() == 4 && "Edit"@.len() == 4 && "Unrestricted"@.len() == 12);
    assert("Read"@[0] == 'R' && "Edit"@[0] == 'E' && "Unrestricted"@[0] == 'U');
    assert(shown.take(4)[0] == shown[0]);
    assert(shown.take(12)[0] == shown[0]);
    match mode {
        PermissionMode::ReadOnly => {
            assert(shown.take(4) =~= "Read"@);
        },
        PermissionMode::WorkspaceWrite => {
            assert(shown.take(4) =~= "Edit"@);
        },
        PermissionMode::DangerFullAccess => {
            assert(shown.take(12) =~= "Unrestricted"@);
        },
    }
}

/// `/pr` tells the branch that there is, and says where none is known.
pub proof fn law_pull_requests_tell_their_branch(branch: Seq<char>, context: Option<Seq<char>>)
    ensures
        reports::pr_told(Some(branch), context) == reports::pr_report(branch, context),
        reports::pr_told(None, context) == reports::pr_report("unknown"@, context),
{
}

/// The lines of modes have columns: the name in 18 characters, and whether it is the
/// one in use in 11.
pub proof fn law_mode_lines_have_columns(mode: PermissionMode, active: Seq<char>)
    ensures
        ({
            let line = reports::mode_line(mode, active);
            &&& line.len() >= 34
            &&& line.subrange(3, 21) == text::padded(mode.name(), 18)
            &&& line.subrange(22, 33) == text::padded(
                if mode.name() == active {
                    "● current"@
                } else {
                    "○ available"@
                },
                11,
            )
            &&& line.skip(34) == reports::mode_description(mode)
        }),
{
    reveal_strlit("\n  ");
    reveal_strlit(" ");
    reveal_strlit("● current");
    reveal_strlit("○ available");
    reveal_strlit("read-only");
    reveal_strlit("workspace-write");
    reveal_strlit("danger-full-access");
    let line = reports::mode_line(mode, active);
    let name = text::padded(mode.name(), 18);
    let mark = text::padded(
        if mode.name() == active {
            "● current"@
        } else {
            "○ available"@
        },
        11,
    );
    assert(name.len() == 18);
    assert(mark.len() == 11);
    assert(line.subrange(3, 21) =~= name);
    assert(line.subrange(22, 33) =~= mark);
    assert(line.skip(34) =~= reports::mode_description(mode));
}

} // verus!
