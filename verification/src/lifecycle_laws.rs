//! What holds of every sub-agent from its start to its end.

use vstd::prelude::*;

use crate::agent::{self, AgentInput};
use crate::agent_lifecycle::{
    self, AgentOutput, AgentSetting, AgentToolOutput, EndSetting, JobOutcome, JobSettlement,
    LaneView, ManifestView,
};
use crate::text;
use crate::text_laws;

verus! {

/// A started sub-agent is the one that was asked for: with its description, its
/// name, its type and its model, under its identifier, and in files of its own
/// below the directory of all.
pub proof fn law_started_agents_are_those_asked_for(input: AgentInput, setting: AgentSetting)
    ensures
        ({
            let manifest = agent_lifecycle::started(input, setting);
            &&& manifest.agent_id == setting.agent_id@
            &&& manifest.description == input.description@
            &&& manifest.created_at == setting.created_at@
            &&& manifest.started_at == Some(setting.created_at@)
            &&& manifest.lane_events.len() == 1
            &&& manifest.lane_events[0] == (LaneView::Started { at: setting.started_at@ })
            &&& manifest.status == "running"@
            &&& manifest.derived_state == "working"@
            &&& manifest.error is None && manifest.result is None && manifest.completed_at is None
            &&& text::has_suffix(manifest.output_file, setting.agent_id@ + ".md"@)
            &&& text::has_suffix(manifest.manifest_file, setting.agent_id@ + ".json"@)
            &&& input.model is None ==> manifest.model == Some(setting.default_model@)
            &&& input.subagent_type is None ==> manifest.subagent_type == Some("general-purpose"@)
            &&& input.name is None ==> manifest.name == agent::slug(input.description@)
        }),
{
    text_laws::law_paths_stand_below_their_directory(
        setting.output_dir@,
        setting.agent_id@ + ".md"@,
    );
    text_laws::law_paths_stand_below_their_directory(
        setting.output_dir@,
        setting.agent_id@ + ".json"@,
    );
}

/// A model and a name that are asked for are those that the sub-agent has.
pub proof fn law_models_and_names_are_taken(
    input: AgentInput,
    setting: AgentSetting,
    model: Seq<char>,
    name: Seq<char>,
)
    requires
        text::opt_text(input.model) == Some(model),
        model.len() > 0,
        !text::is_whitespace(model[0]),
        !text::is_whitespace(model.last()),
        text::opt_text(input.name) == Some(name),
        agent::slug(name).len() > 0,
    ensures
        agent_lifecycle::started(input, setting).model == Some(model),
        agent_lifecycle::started(input, setting).name == agent::slug(name),
{
    text_laws::law_trimmed_texts_stay(model);
}

/// The output file of a sub-agent begins with what it is and what it is to do.
pub proof fn law_task_documents_tell_the_task(manifest: ManifestView, prompt: Seq<char>, kind: Seq<char>)
    requires
        manifest.subagent_type == Some(kind),
    ensures
        ({
            let shown = agent_lifecycle::task_document(manifest, prompt);
            &&& text::contains_text(shown, "- id: "@ + manifest.agent_id + "\n"@)
            &&& text::contains_text(shown, "- name: "@ + manifest.name + "\n"@)
            &&& text::contains_text(shown, "- description: "@ + manifest.description + "\n"@)
            &&& text::contains_text(shown, "- subagent_type: "@ + kind + "\n"@)
            &&& text::contains_text(shown, "- created_at: "@ + manifest.created_at + "\n"@)
            &&& text::contains_text(shown, ""@ + prompt + "\n"@)
        }),
{
    lemma_task_documents_tell_the_task(manifest.agent_id, manifest.name, manifest.description, kind, manifest.created_at, prompt);
    assert(agent_lifecycle::task_document(manifest, prompt) =~= "# Agent Task\n\n- id: "@ + manifest.agent_id + "\n- name: "@ + manifest.name + "\n- description: "@ + manifest.description + "\n- subagent_type: "@ + kind + "\n- created_at: "@ + manifest.created_at + "\n\n## Prompt\n\n"@ + prompt + "\n"@);
}

proof fn lemma_task_documents_tell_the_task(id: Seq<char>, name: Seq<char>, description: Seq<char>, kind: Seq<char>, created: Seq<char>, prompt: Seq<char>)
    ensures
        ({
            let shown = "# Agent Task\n\n- id: "@ + id + "\n- name: "@ + name + "\n- description: "@ + description + "\n- subagent_type: "@ + kind + "\n- created_at: "@ + created + "\n\n## Prompt\n\n"@ + prompt + "\n"@;
            &&& text::contains_text(shown, "- id: "@ + id + "\n"@)
            &&& text::contains_text(shown, "- name: "@ + name + "\n"@)
            &&& text::contains_text(shown, "- description: "@ + description + "\n"@)
            &&& text::contains_text(shown, "- subagent_type: "@ + kind + "\n"@)
            &&& text::contains_text(shown, "- created_at: "@ + created + "\n"@)
            &&& text::contains_text(shown, ""@ + prompt + "\n"@)
        }),
{
    let shown = "# Agent Task\n\n- id: "@ + id + "\n- name: "@ + name + "\n- description: "@ + description + "\n- subagent_type: "@ + kind + "\n- created_at: "@ + created + "\n\n## Prompt\n\n"@ + prompt + "\n"@;
    assert(text::contains_text(shown, "- id: "@ + id + "\n"@)) by {
        reveal_strlit("# Agent Task\n\n- id: ");
        reveal_strlit("# Agent Task\n\n");
        reveal_strlit("- id: ");
        reveal_strlit("\n- name: ");
        reveal_strlit("\n");
        reveal_strlit("- name: ");
        assert("# Agent Task\n\n- id: "@ =~= "# Agent Task\n\n"@ + "- id: "@);
        assert("\n- name: "@ =~= "\n"@ + "- name: "@);
        let before = "# Agent Task\n\n"@;
        let part = "- id: "@ + id + "\n"@;
        let after = "- name: "@ + name + "\n- description: "@ + description + "\n- subagent_type: "@ + kind + "\n- created_at: "@ + created + "\n\n## Prompt\n\n"@ + prompt + "\n"@;
        assert(shown =~= before + part + after);
        text::lemma_contains_part(before, part, after);
    }
    assert(text::contains_text(shown, "- name: "@ + name + "\n"@)) by {
        reveal_strlit("\n- name: ");
        reveal_strlit("\n");
        reveal_strlit("- name: ");
        reveal_strlit("\n- description: ");
        reveal_strlit("- description: ");
        assert("\n- name: "@ =~= "\n"@ + "- name: "@);
        assert("\n- description: "@ =~= "\n"@ + "- description: "@);
        let before = "# Agent Task\n\n- id: "@ + id + "\n"@;
        let part = "- name: "@ + name + "\n"@;
        let after = "- description: "@ + description + "\n- subagent_type: "@ + kind + "\n- created_at: "@ + created + "\n\n## Prompt\n\n"@ + prompt + "\n"@;
        assert(shown =~= before + part + after);
        text::lemma_contains_part(before, part, after);
    }
    assert(text::contains_text(shown, "- description: "@ + description + "\n"@)) by {
        reveal_strlit("\n- description: ");
        reveal_strlit("\n");
        reveal_strlit("- description: ");
        reveal_strlit("\n- subagent_type: ");
        reveal_strlit("- subagent_type: ");
        assert("\n- description: "@ =~= "\n"@ + "- description: "@);
        assert("\n- subagent_type: "@ =~= "\n"@ + "- subagent_type: "@);
        let before = "# Agent Task\n\n- id: "@ + id + "\n- name: "@ + name + "\n"@;
        let part = "- description: "@ + description + "\n"@;
        let after = "- subagent_type: "@ + kind + "\n- created_at: "@ + created + "\n\n## Prompt\n\n"@ + prompt + "\n"@;
        assert(shown =~= before + part + after);
        text::lemma_contains_part(before, part, after);
    }
    assert(text::contains_text(shown, "- subagent_type: "@ + kind + "\n"@)) by {
        reveal_strlit("\n- subagent_type: ");
        reveal_strlit("\n");
        reveal_strlit("- subagent_type: ");
        reveal_strlit("\n- created_at: ");
        reveal_strlit("- created_at: ");
        assert("\n- subagent_type: "@ =~= "\n"@ + "- subagent_type: "@);
        assert("\n- created_at: "@ =~= "\n"@ + "- created_at: "@);
        let before = "# Agent Task\n\n- id: "@ + id + "\n- name: "@ + name + "\n- description: "@ + description + "\n"@;
        let part = "- subagent_type: "@ + kind + "\n"@;
        let after = "- created_at: "@ + created + "\n\n## Prompt\n\n"@ + prompt + "\n"@;
        assert(shown =~= before + part + after);
        text::lemma_contains_part(before, part, after);
    }
    assert(text::contains_text(shown, "- created_at: "@ + created + "\n"@)) by {
        reveal_strlit("\n- created_at: ");
        reveal_strlit("\n");
        reveal_strlit("- created_at: ");
        reveal_strlit("\n\n## Prompt\n\n");
        reveal_strlit("\n## Prompt\n\n");
        assert("\n- created_at: "@ =~= "\n"@ + "- created_at: "@);
        assert("\n\n## Prompt\n\n"@ =~= "\n"@ + "\n## Prompt\n\n"@);
        let before = "# Agent Task\n\n- id: "@ + id + "\n- name: "@ + name + "\n- description: "@ + description + "\n- subagent_type: "@ + kind + "\n"@;
        let part = "- created_at: "@ + created + "\n"@;
        let after = "\n## Prompt\n\n"@ + prompt + "\n"@;
        assert(shown =~= before + part + after);
        text::lemma_contains_part(before, part, after);
    }
    assert(text::contains_text(shown, ""@ + prompt + "\n"@)) by {
        reveal_strlit("\n\n## Prompt\n\n");
        reveal_strlit("");
        reveal_strlit("\n");
        assert("\n\n## Prompt\n\n"@ =~= "\n\n## Prompt\n\n"@ + ""@);
        let before = "# Agent Task\n\n- id: "@ + id + "\n- name: "@ + name + "\n- description: "@ + description + "\n- subagent_type: "@ + kind + "\n- created_at: "@ + created + "\n\n## Prompt\n\n"@;
        let part = ""@ + prompt + "\n"@;
        let after = Seq::<char>::empty();
        assert(shown =~= before + part + after);
        text::lemma_contains_part(before, part, after);
    }
}

/// The system prompt of a sub-agent is that of the program with one part more,
/// its instruction, which names its type: before the boundary where there is one,
/// and at the end where there is none.
pub proof fn law_instructions_stand_before_the_boundary(
    front: Seq<Seq<char>>,
    back: Seq<Seq<char>>,
    boundary: Seq<char>,
    subagent_type: Seq<char>,
)
    requires
        !front.contains(boundary),
    ensures
        agent_lifecycle::agent_system_prompt(front + seq![boundary] + back, boundary, subagent_type)
            == front + seq![agent_lifecycle::agent_instruction(subagent_type), boundary] + back,
        agent_lifecycle::agent_system_prompt(front, boundary, subagent_type) == front.push(
            agent_lifecycle::agent_instruction(subagent_type),
        ),
        text::contains_text(
            agent_lifecycle::agent_instruction(subagent_type),
            "sub-agent of type `"@ + subagent_type + "`"@,
        ),
{
    let parts = front + seq![boundary] + back;
    lemma_position(parts, boundary, front.len() as int, 0);
    lemma_position(front, boundary, front.len() as int, 0);
    let instruction = agent_lifecycle::agent_instruction(subagent_type);
    assert(parts.insert(front.len() as int, instruction) =~= front + seq![instruction, boundary]
        + back);
    reveal_strlit("You are a delegated sub-agent of type `");
    reveal_strlit("You are a delegated ");
    reveal_strlit("sub-agent of type `");
    assert("You are a delegated sub-agent of type `"@ =~= "You are a delegated "@ + "sub-agent of type `"@);
    reveal_strlit("`. Work only on the delegated task, use only the tools available to you, do not ask the user questions, and finish with a concise result.");
    reveal_strlit("`");
    reveal_strlit(". Work only on the delegated task, use only the tools available to you, do not ask the user questions, and finish with a concise result.");
    assert("`. Work only on the delegated task, use only the tools available to you, do not ask the user questions, and finish with a concise result."@ =~= "`"@ + ". Work only on the delegated task, use only the tools available to you, do not ask the user questions, and finish with a concise result."@);
    let part = "sub-agent of type `"@ + subagent_type + "`"@;
    let tail = ". Work only on the delegated task, use only the tools available to you, do not ask the user questions, and finish with a concise result."@;
    assert(instruction =~= "You are a delegated "@ + part + tail);
    text::lemma_contains_part("You are a delegated "@, part, tail);
}

proof fn lemma_position(parts: Seq<Seq<char>>, part: Seq<char>, at: int, from: int)
    requires
        0 <= from <= at <= parts.len(),
        forall|i: int| 0 <= i < at ==> #[trigger] parts[i] != part,
        at < parts.len() ==> parts[at] == part,
    ensures
        agent_lifecycle::position_of(parts, part, from) == (if at < parts.len() {
            Some(at)
        } else {
            None
        }),
    decreases at - from,
{
    if from < at {
        lemma_position(parts, part, at, from + 1);
    }
}

/// The date that a sub-agent is told is the configured one before that of the
/// system.
pub proof fn law_configured_dates_come_first(
    configured: Seq<char>,
    system: Option<Seq<char>>,
)
    requires
        configured.len() > 0,
        !text::is_whitespace(configured[0]),
        !text::is_whitespace(configured.last()),
    ensures
        agent_lifecycle::system_date(Some(configured), system) == configured,
        agent_lifecycle::system_date(None, Some(configured)) == configured,
        agent_lifecycle::system_date(Some(Seq::empty()), Some(configured)) == configured,
{
    text_laws::law_trimmed_texts_stay(configured);
}

/// The manifests stand where that is configured; otherwise in a directory of
/// their own below the root of the workspace, or else below the current one.
pub proof fn law_manifests_stand_in_their_directory(
    configured: Seq<char>,
    root: Seq<char>,
    cwd: Seq<char>,
)
    ensures
        agent_lifecycle::store_dir(Some(configured), Some(root), cwd) == configured,
        agent_lifecycle::store_dir(None, Some(root), cwd) == agent_lifecycle::store_dir(
            None,
            None,
            root,
        ),
        root.len() > 0 ==> text::has_prefix(
            agent_lifecycle::store_dir(None, Some(root), cwd),
            root,
        ),
        text::has_suffix(agent_lifecycle::store_dir(None, None, cwd), ".clawd-agents"@),
{
    reveal_strlit(".clawd-agents");
    assert(".clawd-agents"@[0] == '.');
    text_laws::law_paths_stand_below_their_directory(root, ".clawd-agents"@);
    text_laws::law_paths_stand_below_their_directory(cwd, ".clawd-agents"@);
}

/// A sub-agent that ends is told with how it ended, when, and its result or its
/// error; a failure leaves a blocker and a failed step behind, a success a
/// finished one, and a commit where its result reports one.
pub proof fn law_ends_tell_how_they_came_out(
    manifest: ManifestView,
    status: Seq<char>,
    result: Option<Seq<char>>,
    error: Option<Seq<char>>,
    setting: EndSetting,
)
    ensures
        ({
            let end = agent_lifecycle::finished(manifest, status, result, error, setting);
            let added = end.lane_events.skip(manifest.lane_events.len() as int);
            &&& end.status == status
            &&& end.completed_at == Some(setting.now@)
            &&& end.result == result
            &&& end.error == error
            &&& end.description == manifest.description
            &&& end.subagent_type == manifest.subagent_type
            &&& end.model == manifest.model
            &&& end.started_at == manifest.started_at
            &&& error matches Some(why) ==> {
                &&& end.current_blocker == Some(agent::blocker_of(why))
                &&& added.len() == 2
                &&& added[0] == (LaneView::Blocked {
                    at: setting.now@,
                    blocker: agent::blocker_of(why),
                })
                &&& added[1] == (LaneView::Failed {
                    at: setting.now@,
                    blocker: agent::blocker_of(why),
                })
            }
            &&& error is None ==> {
                &&& end.current_blocker is None
                &&& added.len() == 1 || added.len() == 2
                &&& added[0] matches LaneView::Finished { at, detail } && at == setting.now@ && (
                detail is Some <==> (result matches Some(left) && !text::is_blank(left)))
                &&& added.len() == 2 <==> (result matches Some(left) && agent::sha_from(left, 0)
                    is Some)
                &&& added.len() == 2 ==> (added[1] matches LaneView::CommitCreated {
                    at,
                    provenance,
                    ..
                } && at == setting.now@ && agent::sha_from(result->0, 0) == Some(provenance.commit))
            }
        }),
{
    let end = agent_lifecycle::finished(manifest, status, result, error, setting);
    let added = agent_lifecycle::final_events(result, error, setting);
    assert(end.lane_events.skip(manifest.lane_events.len() as int) =~= added);
}

/// The caller is told of the manifest on disk, and of the one at hand only where
/// that could not be read; a job that ended has the result of its manifest.
pub proof fn law_callers_are_told_of_the_manifest_on_disk(
    read_back: Result<AgentOutput, String>,
    at_hand: AgentOutput,
)
    ensures
        read_back matches Ok(manifest) ==> agent_lifecycle::told_manifest(read_back, at_hand)
            == manifest && agent_lifecycle::job_result(read_back) == (JobOutcome::Completed {
            result: manifest.result,
        }),
        read_back is Err ==> agent_lifecycle::told_manifest(read_back, at_hand) == at_hand
            && agent_lifecycle::job_result(read_back) == (JobOutcome::Completed { result: None }),
{
}

/// A job counts as completed exactly where it ended by itself; otherwise its
/// manifest is ended with the error, which is also what is told of it.
pub proof fn law_jobs_are_settled_as_they_came_out(
    outcome: JobOutcome,
    settlement: JobSettlement,
)
    requires
        agent_lifecycle::settles(settlement, outcome),
    ensures
        settlement.completed <==> outcome is Completed,
        settlement.persist_error is None <==> settlement.completed,
        settlement.status_text() == "completed"@ <==> settlement.completed,
        outcome matches JobOutcome::Completed { result: Some(result) } ==> settlement.output@
            == result@,
        settlement.persist_error matches Some(error) ==> settlement.output@ == error@,
        outcome matches JobOutcome::Failed { error } ==> settlement.output@ == error@,
        outcome is Panicked ==> text::has_suffix(settlement.output@, "panicked"@),
{
    reveal_strlit("completed");
    reveal_strlit("failed");
    assert("completed"@.len() == 9);
    assert("failed"@.len() == 6);
    reveal_strlit("sub-agent thread panicked");
    reveal_strlit("sub-agent thread ");
    reveal_strlit("panicked");
    assert("sub-agent thread panicked"@ =~= "sub-agent thread "@ + "panicked"@);
    text::lemma_contains_part("sub-agent thread "@, "panicked"@, Seq::empty());
}

/// The session that started a job, and no other, is told of its end.
pub proof fn law_the_session_that_asked_is_told(
    manifest: ManifestView,
    session: Seq<char>,
    status: Seq<char>,
    body: Seq<char>,
)
    ensures
        agent_lifecycle::told_of_end(manifest, None, status, body) is None,
        agent_lifecycle::told_of_end(manifest, Some(session), status, body) == Some(
            (session, agent_lifecycle::notification(manifest, status, body)),
        ),
{
}

/// What is told of a job that has completed names it, and holds its result.
pub proof fn law_results_are_told(manifest: ManifestView, body: Seq<char>)
    requires
        body.len() > 0,
        !text::is_whitespace(body[0]),
        !text::is_whitespace(body.last()),
    ensures
        ({
            let shown = agent_lifecycle::notification(manifest, "completed"@, body);
            &&& text::contains_text(shown, "agentId: "@ + manifest.agent_id + "\n"@)
            &&& text::contains_text(shown, "description: "@ + manifest.description + "\n"@)
            &&& text::contains_text(shown, "status: "@ + "completed"@ + "\n"@)
            &&& text::contains_text(shown, "output_file: "@ + manifest.output_file + "\n"@)
            &&& text::has_suffix(shown, ""@ + body)
        }),
{
    text_laws::law_trimmed_texts_stay(body);
    assert(!text::is_blank(body)) by {
        if text::is_blank(body) {
            assert(text::is_whitespace(body[0]));
        }
    }
    reveal_strlit("completed");
    reveal_strlit("failed");
    assert("completed"@.len() == 9);
    assert("failed"@.len() == 6);
    assert(text::lowered("completed"@) =~= "completed"@);
    assert(text::lowered("failed"@) =~= "failed"@);
    lemma_results_are_told(manifest.agent_id, manifest.description, "completed"@, manifest.output_file, body);
    reveal_strlit("\nresult:\n");
    reveal_strlit("\n");
    reveal_strlit("result");
    reveal_strlit(":\n");
    assert("\nresult:\n"@ =~= "\n"@ + "result"@ + ":\n"@);
    assert(agent_lifecycle::notification(manifest, "completed"@, body) =~= "Background agent finished.\nagentId: "@ + manifest.agent_id + "\ndescription: "@ + manifest.description + "\nstatus: "@ + "completed"@ + "\noutput_file: "@ + manifest.output_file + "\nresult:\n"@ + body);
}

proof fn lemma_results_are_told(id: Seq<char>, description: Seq<char>, told: Seq<char>, file: Seq<char>, body: Seq<char>)
    ensures
        ({
            let shown = "Background agent finished.\nagentId: "@ + id + "\ndescription: "@ + description + "\nstatus: "@ + told + "\noutput_file: "@ + file + "\nresult:\n"@ + body;
            &&& text::contains_text(shown, "agentId: "@ + id + "\n"@)
            &&& text::contains_text(shown, "description: "@ + description + "\n"@)
            &&& text::contains_text(shown, "status: "@ + told + "\n"@)
            &&& text::contains_text(shown, "output_file: "@ + file + "\n"@)
            &&& text::has_suffix(shown, ""@ + body)
        }),
{
    let shown = "Background agent finished.\nagentId: "@ + id + "\ndescription: "@ + description + "\nstatus: "@ + told + "\noutput_file: "@ + file + "\nresult:\n"@ + body;
    assert(text::contains_text(shown, "agentId: "@ + id + "\n"@)) by {
        reveal_strlit("Background agent finished.\nagentId: ");
        reveal_strlit("Background agent finished.\n");
        reveal_strlit("agentId: ");
        reveal_strlit("\ndescription: ");
        reveal_strlit("\n");
        reveal_strlit("description: ");
        assert("Background agent finished.\nagentId: "@ =~= "Background agent finished.\n"@ + "agentId: "@);
        assert("\ndescription: "@ =~= "\n"@ + "description: "@);
        let before = "Background agent finished.\n"@;
        let part = "agentId: "@ + id + "\n"@;
        let after = "description: "@ + description + "\nstatus: "@ + told + "\noutput_file: "@ + file + "\nresult:\n"@ + body;
        assert(shown =~= before + part + after);
        text::lemma_contains_part(before, part, after);
    }
    assert(text::contains_text(shown, "description: "@ + description + "\n"@)) by {
        reveal_strlit("\ndescription: ");
        reveal_strlit("\n");
        reveal_strlit("description: ");
        reveal_strlit("\nstatus: ");
        reveal_strlit("status: ");
        assert("\ndescription: "@ =~= "\n"@ + "description: "@);
        assert("\nstatus: "@ =~= "\n"@ + "status: "@);
        let before = "Background agent finished.\nagentId: "@ + id + "\n"@;
        let part = "description: "@ + description + "\n"@;
        let after = "status: "@ + told + "\noutput_file: "@ + file + "\nresult:\n"@ + body;
        assert(shown =~= before + part + after);
        text::lemma_contains_part(before, part, after);
    }
    assert(text::contains_text(shown, "status: "@ + told + "\n"@)) by {
        reveal_strlit("\nstatus: ");
        reveal_strlit("\n");
        reveal_strlit("status: ");
        reveal_strlit("\noutput_file: ");
        reveal_strlit("output_file: ");
        assert("\nstatus: "@ =~= "\n"@ + "status: "@);
        assert("\noutput_file: "@ =~= "\n"@ + "output_file: "@);
        let before = "Background agent finished.\nagentId: "@ + id + "\ndescription: "@ + description + "\n"@;
        let part = "status: "@ + told + "\n"@;
        let after = "output_file: "@ + file + "\nresult:\n"@ + body;
        assert(shown =~= before + part + after);
        text::lemma_contains_part(before, part, after);
    }
    assert(text::contains_text(shown, "output_file: "@ + file + "\n"@)) by {
        reveal_strlit("\noutput_file: ");
        reveal_strlit("\n");
        reveal_strlit("output_file: ");
        reveal_strlit("\nresult:\n");
        reveal_strlit("result:\n");
        assert("\noutput_file: "@ =~= "\n"@ + "output_file: "@);
        assert("\nresult:\n"@ =~= "\n"@ + "result:\n"@);
        let before = "Background agent finished.\nagentId: "@ + id + "\ndescription: "@ + description + "\nstatus: "@ + told + "\n"@;
        let part = "output_file: "@ + file + "\n"@;
        let after = "result:\n"@ + body;
        assert(shown =~= before + part + after);
        text::lemma_contains_part(before, part, after);
    }
    assert(text::has_suffix(shown, ""@ + body)) by {
        reveal_strlit("\nresult:\n");
        reveal_strlit("");
        assert("\nresult:\n"@ =~= "\nresult:\n"@ + ""@);
        let before = "Background agent finished.\nagentId: "@ + id + "\ndescription: "@ + description + "\nstatus: "@ + told + "\noutput_file: "@ + file + "\nresult:\n"@;
        let part = ""@ + body;
        let after = Seq::<char>::empty();
        assert(shown =~= before + part + after);
        text::lemma_contains_part(before, part, after);
        assert(before + part + after =~= before + part);
    }
}

/// What is told of a job that has failed names it, and holds its error.
pub proof fn law_errors_are_told(manifest: ManifestView, body: Seq<char>)
    requires
        body.len() > 0,
        !text::is_whitespace(body[0]),
        !text::is_whitespace(body.last()),
    ensures
        ({
            let shown = agent_lifecycle::notification(manifest, "failed"@, body);
            &&& text::contains_text(shown, "agentId: "@ + manifest.agent_id + "\n"@)
            &&& text::contains_text(shown, "description: "@ + manifest.description + "\n"@)
            &&& text::contains_text(shown, "status: "@ + "failed"@ + "\n"@)
            &&& text::contains_text(shown, "output_file: "@ + manifest.output_file + "\n"@)
            &&& text::has_suffix(shown, ""@ + body)
        }),
{
    text_laws::law_trimmed_texts_stay(body);
    assert(!text::is_blank(body)) by {
        if text::is_blank(body) {
            assert(text::is_whitespace(body[0]));
        }
    }
    reveal_strlit("completed");
    reveal_strlit("failed");
    assert("completed"@.len() == 9);
    assert("failed"@.len() == 6);
    assert(text::lowered("completed"@) =~= "completed"@);
    assert(text::lowered("failed"@) =~= "failed"@);
    lemma_errors_are_told(manifest.agent_id, manifest.description, "failed"@, manifest.output_file, body);
    reveal_strlit("\nerror:\n");
    reveal_strlit("\n");
    reveal_strlit("error");
    reveal_strlit(":\n");
    assert("\nerror:\n"@ =~= "\n"@ + "error"@ + ":\n"@);
    assert(agent_lifecycle::notification(manifest, "failed"@, body) =~= "Background agent finished.\nagentId: "@ + manifest.agent_id + "\ndescription: "@ + manifest.description + "\nstatus: "@ + "failed"@ + "\noutput_file: "@ + manifest.output_file + "\nerror:\n"@ + body);
}

proof fn lemma_errors_are_told(id: Seq<char>, description: Seq<char>, told: Seq<char>, file: Seq<char>, body: Seq<char>)
    ensures
        ({
            let shown = "Background agent finished.\nagentId: "@ + id + "\ndescription: "@ + description + "\nstatus: "@ + told + "\noutput_file: "@ + file + "\nerror:\n"@ + body;
            &&& text::contains_text(shown, "agentId: "@ + id + "\n"@)
            &&& text::contains_text(shown, "description: "@ + description + "\n"@)
            &&& text::contains_text(shown, "status: "@ + told + "\n"@)
            &&& text::contains_text(shown, "output_file: "@ + file + "\n"@)
            &&& text::has_suffix(shown, ""@ + body)
        }),
{
    let shown = "Background agent finished.\nagentId: "@ + id + "\ndescription: "@ + description + "\nstatus: "@ + told + "\noutput_file: "@ + file + "\nerror:\n"@ + body;
    assert(text::contains_text(shown, "agentId: "@ + id + "\n"@)) by {
        reveal_strlit("Background agent finished.\nagentId: ");
        reveal_strlit("Background agent finished.\n");
        reveal_strlit("agentId: ");
        reveal_strlit("\ndescription: ");
        reveal_strlit("\n");
        reveal_strlit("description: ");
        assert("Background agent finished.\nagentId: "@ =~= "Background agent finished.\n"@ + "agentId: "@);
        assert("\ndescription: "@ =~= "\n"@ + "description: "@);
        let before = "Background agent finished.\n"@;
        let part = "agentId: "@ + id + "\n"@;
        let after = "description: "@ + description + "\nstatus: "@ + told + "\noutput_file: "@ + file + "\nerror:\n"@ + body;
        assert(shown =~= before + part + after);
        text::lemma_contains_part(before, part, after);
    }
    assert(text::contains_text(shown, "description: "@ + description + "\n"@)) by {
        reveal_strlit("\ndescription: ");
        reveal_strlit("\n");
        reveal_strlit("description: ");
        reveal_strlit("\nstatus: ");
        reveal_strlit("status: ");
        assert("\ndescription: "@ =~= "\n"@ + "description: "@);
        assert("\nstatus: "@ =~= "\n"@ + "status: "@);
        let before = "Background agent finished.\nagentId: "@ + id + "\n"@;
        let part = "description: "@ + description + "\n"@;
        let after = "status: "@ + told + "\noutput_file: "@ + file + "\nerror:\n"@ + body;
        assert(shown =~= before + part + after);
        text::lemma_contains_part(before, part, after);
    }
    assert(text::contains_text(shown, "status: "@ + told + "\n"@)) by {
        reveal_strlit("\nstatus: ");
        reveal_strlit("\n");
        reveal_strlit("status: ");
        reveal_strlit("\noutput_file: ");
        reveal_strlit("output_file: ");
        assert("\nstatus: "@ =~= "\n"@ + "status: "@);
        assert("\noutput_file: "@ =~= "\n"@ + "output_file: "@);
        let before = "Background agent finished.\nagentId: "@ + id + "\ndescription: "@ + description + "\n"@;
        let part = "status: "@ + told + "\n"@;
        let after = "output_file: "@ + file + "\nerror:\n"@ + body;
        assert(shown =~= before + part + after);
        text::lemma_contains_part(before, part, after);
    }
    assert(text::contains_text(shown, "output_file: "@ + file + "\n"@)) by {
        reveal_strlit("\noutput_file: ");
        reveal_strlit("\n");
        reveal_strlit("output_file: ");
        reveal_strlit("\nerror:\n");
        reveal_strlit("error:\n");
        assert("\noutput_file: "@ =~= "\n"@ + "output_file: "@);
        assert("\nerror:\n"@ =~= "\n"@ + "error:\n"@);
        let before = "Background agent finished.\nagentId: "@ + id + "\ndescription: "@ + description + "\nstatus: "@ + told + "\n"@;
        let part = "output_file: "@ + file + "\n"@;
        let after = "error:\n"@ + body;
        assert(shown =~= before + part + after);
        text::lemma_contains_part(before, part, after);
    }
    assert(text::has_suffix(shown, ""@ + body)) by {
        reveal_strlit("\nerror:\n");
        reveal_strlit("");
        assert("\nerror:\n"@ =~= "\nerror:\n"@ + ""@);
        let before = "Background agent finished.\nagentId: "@ + id + "\ndescription: "@ + description + "\nstatus: "@ + told + "\noutput_file: "@ + file + "\nerror:\n"@;
        let part = ""@ + body;
        let after = Seq::<char>::empty();
        assert(shown =~= before + part + after);
        text::lemma_contains_part(before, part, after);
        assert(before + part + after =~= before + part);
    }
}

/// A call that starts a sub-agent answers with its manifest, and one that starts a
/// job in the background only announces it: with its identifier, what it is to do
/// and the file in which it will be told.
pub proof fn law_background_jobs_are_announced(
    answer: AgentToolOutput,
    input: AgentInput,
    manifest: AgentOutput,
)
    requires
        agent_lifecycle::is_answer(answer, input, manifest),
    ensures
        answer is AsyncLaunched <==> input.run_in_background == Some(true),
        answer matches AgentToolOutput::Completed(told) ==> told == manifest,
        answer matches AgentToolOutput::AsyncLaunched(launch) ==> {
            &&& launch.agent_id@ == manifest.agent_id@
            &&& launch.description@ == manifest.description@
            &&& launch.prompt@ == input.prompt@
            &&& launch.output_file@ == manifest.output_file@
            &&& launch.status@ == "async_launched"@
        },
{
}

/// The end of a sub-agent's output file tells its status, and then its blocker,
/// its answer and its error, each where there is one.
pub proof fn law_output_files_tell_the_end(
    status: Seq<char>,
    result: Seq<char>,
    error: Seq<char>,
)
    requires
        result.len() > 0,
        !text::is_whitespace(result[0]),
        !text::is_whitespace(result.last()),
        error.len() > 0,
        !text::is_whitespace(error[0]),
        !text::is_whitespace(error.last()),
    ensures
        agent_lifecycle::terminal_output(status, None, None, None) == "\n## Result\n\n- status: "@
            + status + "\n"@,
        agent_lifecycle::terminal_output(status, Some(result), None, None)
            == agent_lifecycle::terminal_output(status, None, None, None)
            + "\n### Final response\n\n"@ + result + "\n"@,
        agent_lifecycle::terminal_output(status, None, None, Some(error))
            == agent_lifecycle::terminal_output(status, None, None, None) + "\n### Error\n\n"@
            + error + "\n"@,
        agent_lifecycle::terminal_output(status, Some(result), None, Some(error))
            == agent_lifecycle::terminal_output(status, Some(result), None, None)
            + "\n### Error\n\n"@ + error + "\n"@,
{
    text_laws::law_trimmed_texts_stay(result);
    text_laws::law_trimmed_texts_stay(error);
    assert(!text::is_blank(result)) by {
        if text::is_blank(result) {
            assert(text::is_whitespace(result[0]));
        }
    }
    assert(!text::is_blank(error)) by {
        if text::is_blank(error) {
            assert(text::is_whitespace(error[0]));
        }
    }
}

/// A blocker is told with its class and its detail, before the answer.
pub proof fn law_output_files_tell_the_blocker(
    status: Seq<char>,
    class: Seq<char>,
    detail: Seq<char>,
)
    requires
        detail.len() > 0,
        !text::is_whitespace(detail[0]),
        !text::is_whitespace(detail.last()),
    ensures
        agent_lifecycle::terminal_output(status, None, Some((class, detail)), None)
            == agent_lifecycle::terminal_output(status, None, None, None)
            + "\n### Blocker\n\n- failure_class: "@ + class + "\n- detail: "@ + detail + "\n"@,
{
    text_laws::law_trimmed_texts_stay(detail);
}

/// Why a sub-agent could not be started is told behind what failed.
pub proof fn law_failed_starts_are_told(error: Seq<char>)
    ensures
        text::has_suffix(agent_lifecycle::not_spawned(error), ": "@ + error),
        text::has_prefix(agent_lifecycle::not_spawned(error), "failed to spawn sub-agent"@),
{
    reveal_strlit("failed to spawn sub-agent: ");
    reveal_strlit("failed to spawn sub-agent");
    reveal_strlit(": ");
    let head = "failed to spawn sub-agent"@;
    assert("failed to spawn sub-agent: "@ =~= head + ": "@);
    assert(Seq::<char>::empty() + head + (": "@ + error) =~= agent_lifecycle::not_spawned(error));
    text::lemma_contains_part(Seq::empty(), head, ": "@ + error);
    assert(head + (": "@ + error) + Seq::<char>::empty() =~= agent_lifecycle::not_spawned(error));
    text::lemma_contains_part(head, ": "@ + error, Seq::empty());
}

} // verus!
