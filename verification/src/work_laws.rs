//! Laws of the standing work: executable threads, watches and the compaction of the memory.

use vstd::prelude::*;
use vstd::string::*;

use crate::compaction::{
    all_events, asked, distinct, first_line, grouped, groups_cover_summaries, headlines, mergeable,
    merged_text, merges, moves_on, ordering_keeps_summaries, real_groups, replaces,
    CompactionRequest, CompactionRun, EpisodicSummary, Merge, MergedSummary,
};
use crate::encode::{field_is_found, record};
use crate::exec_threads::{
    any_did, coding_prompt, coding_rules_text, did, feedback_of, is_mutating, is_verifying,
    message_line, message_lines, normalized, outputs, renamed, result_line, result_lines,
    settled_turn, text_or_default, without_key, ExecThreadLocalState, ExecThreadOutput,
    ExecThreadProposalConfidence, ExecThreadSpec, ExecThreadStatus, PromptCounts, ReplyView,
    ResolvedMessage, ResolvedResult, TurnInput,
};
use crate::json::{lookup, JsonView};
use crate::text::{
    dec, end_is_found, flag_text, found_by_way, found_in_longer, has_text, joined,
    joined_parts_are_found, opt_text, part_is_found, short_texts_stay, start_is_found, texts,
};
use crate::text_laws::{first_line_comes_first, one_line};
use crate::types::{ActionRecord, ThreadId, TickId};
use crate::watches::{
    event_of, events_of, is_triggered, mark_of, poll_of, polls_of, watch_of, DueWatch, Reading,
    WatchDefinition, WatchMark, WatchProposal,
};

verus! {

// ---------------------------------------------------------------------------
// Parameters of proposals
// ---------------------------------------------------------------------------

proof fn other_keys_stay(members: Seq<(Seq<char>, JsonView)>, gone: Seq<char>, key: Seq<char>)
    ensures
        lookup(without_key(members, gone), key) == if key == gone {
            None
        } else {
            lookup(members, key)
        },
    decreases members.len(),
{
    if members.len() > 0 {
        other_keys_stay(members.drop_last(), gone, key);
        let front = without_key(members.drop_last(), gone);
        if members.last().0 != gone {
            assert(front.push(members.last()).drop_last() =~= front);
        }
    }
}

proof fn renaming_keeps_values(
    members: Seq<(Seq<char>, JsonView)>,
    from: Seq<char>,
    to: Seq<char>,
    key: Seq<char>,
)
    requires
        from != to,
    ensures
        lookup(renamed(members, from, to), key) == if key == to && lookup(members, to) is None {
            lookup(members, from)
        } else if key == from {
            None
        } else {
            lookup(members, key)
        },
{
    other_keys_stay(members, from, key);
    other_keys_stay(members, from, to);
    let rest = without_key(members, from);
    if let Some(value) = lookup(members, from) {
        assert(rest.push((to, value)).drop_last() =~= rest);
    }
}

/// A tool that works on a file gets the path of the file, under either of the two names
/// under which it may be given. All other parameters but the content of a write reach it
/// as they are.
pub proof fn file_tools_get_their_path(tool: Seq<char>, params: JsonView, key: Seq<char>)
    requires
        params is Object,
        tool == "code.read"@ || tool == "code.write"@ || tool == "code.edit"@,
        normalized(tool, params) is Some,
    ensures
        ({
            let got = normalized(tool, params)->Some_0;
            &&& got is Object
            &&& got.field("file_path"@) == if params.field("file_path"@) is Some {
                params.field("file_path"@)
            } else {
                params.field("path"@)
            }
            &&& got.field("file_path"@) is Some
            &&& key != "path"@ && key != "file_path"@ && key != "content"@ && key
                != "new_content"@ ==> got.field(key) == params.field(key)
        }),
{
    keys_differ();
    let m = params->Object_0;
    let with_path = renamed(m, "path"@, "file_path"@);
    renaming_keeps_values(m, "path"@, "file_path"@, key);
    renaming_keeps_values(m, "path"@, "file_path"@, "file_path"@);
    renaming_keeps_values(with_path, "new_content"@, "content"@, key);
    renaming_keeps_values(with_path, "new_content"@, "content"@, "file_path"@);
}

proof fn keys_differ()
    ensures
        "path"@ != "file_path"@,
        "new_content"@ != "content"@,
        "content"@ != "file_path"@,
        "new_content"@ != "file_path"@,
        "path"@ != "content"@,
        "path"@ != "new_content"@,
        "path"@ != "old_string"@,
        "path"@ != "new_string"@,
        "file_path"@ != "old_string"@,
        "file_path"@ != "new_string"@,
        "code.read"@ != "code.write"@,
        "code.read"@ != "code.edit"@,
        "code.write"@ != "code.edit"@,
        "code.grep"@ != "code.read"@,
        "code.grep"@ != "code.write"@,
        "code.grep"@ != "code.edit"@,
{
    reveal_strlit("path");
    reveal_strlit("file_path");
    reveal_strlit("content");
    reveal_strlit("new_content");
    reveal_strlit("old_string");
    reveal_strlit("new_string");
    reveal_strlit("code.read");
    reveal_strlit("code.write");
    reveal_strlit("code.edit");
    reveal_strlit("code.grep");
    assert("path"@.len() == 4 && "file_path"@.len() == 9 && "content"@.len() == 7
        && "new_content"@.len() == 11 && "old_string"@.len() == 10 && "new_string"@.len() == 10);
    assert("code.read"@[5] == 'r' && "code.write"@[5] == 'w' && "code.edit"@[5] == 'e'
        && "code.grep"@[5] == 'g');
}

/// A write gets its content, under either of the two names under which it may be given.
/// Without a path or without content it is dropped.
pub proof fn write_gets_its_content(params: JsonView)
    requires
        params is Object,
    ensures
        normalized("code.write"@, params) is Some <==> (params.field("file_path"@) is Some
            || params.field("path"@) is Some) && (params.field("content"@) is Some || params.field(
            "new_content"@,
        ) is Some),
        normalized("code.write"@, params) matches Some(got) ==> got.field("content"@)
            == if params.field("content"@) is Some {
            params.field("content"@)
        } else {
            params.field("new_content"@)
        },
{
    keys_differ();
    let m = params->Object_0;
    let with_path = renamed(m, "path"@, "file_path"@);
    renaming_keeps_values(m, "path"@, "file_path"@, "file_path"@);
    renaming_keeps_values(m, "path"@, "file_path"@, "content"@);
    renaming_keeps_values(m, "path"@, "file_path"@, "new_content"@);
    renaming_keeps_values(with_path, "new_content"@, "content"@, "content"@);
    renaming_keeps_values(with_path, "new_content"@, "content"@, "file_path"@);
}

/// A proposal is dropped exactly if a parameter is missing that its tool needs. A search
/// and any other tool get their parameters as they are.
pub proof fn incomplete_proposals_are_dropped(tool: Seq<char>, params: JsonView)
    ensures
        !(params is Object) ==> normalized(tool, params) is None,
        params is Object ==> {
            let path = params.field("file_path"@) is Some || params.field("path"@) is Some;
            &&& tool == "code.read"@ ==> (normalized(tool, params) is Some <==> path)
            &&& tool == "code.edit"@ ==> (normalized(tool, params) is Some <==> path
                && params.field("old_string"@) is Some && params.field("new_string"@) is Some)
            &&& tool == "code.grep"@ ==> (normalized(tool, params) is Some <==> params.field(
                "pattern"@,
            ) is Some)
            &&& tool != "code.read"@ && tool != "code.edit"@ && tool != "code.write"@
                && normalized(tool, params) is Some ==> normalized(tool, params) == Some(params)
            &&& tool != "code.read"@ && tool != "code.edit"@ && tool != "code.write"@ && tool
                != "code.grep"@ ==> normalized(tool, params) == Some(params)
        },
{
    keys_differ();
    if params is Object {
        let m = params->Object_0;
        renaming_keeps_values(m, "path"@, "file_path"@, "file_path"@);
        renaming_keeps_values(m, "path"@, "file_path"@, "old_string"@);
        renaming_keeps_values(m, "path"@, "file_path"@, "new_string"@);
    }
}

// ---------------------------------------------------------------------------
// Turns of coding threads
// ---------------------------------------------------------------------------

/// A thread that has no feedback on earlier work passes on what the model replies: its
/// summary, its notes, and its proposal if that is complete.
pub proof fn turn_passes_reply_on(
    o: ExecThreadOutput,
    reply: ReplyView,
    input: TurnInput,
    thread_id: ThreadId,
    tick_id: TickId,
)
    requires
        outputs(o, settled_turn(reply, input), thread_id, tick_id),
        !input.feedback.mutating_success,
        !input.feedback.mutating_failure,
        !input.local.verification_pending,
    ensures
        o.thread_id == thread_id,
        o.tick_id == tick_id,
        o.summary@ == reply.summary,
        o.evidence_complete == reply.evidence_complete,
        opt_text(o.local_state.scratchpad) == reply.scratchpad,
        opt_text(o.local_state.current_focus) == reply.current_focus,
        opt_text(o.local_state.work_phase) == if reply.work_phase is Some {
            reply.work_phase
        } else {
            input.local.work_phase
        },
        opt_text(o.local_state.last_completion_reason) == if reply.completion_reason is Some {
            reply.completion_reason
        } else {
            input.local.last_completion_reason
        },
        o.local_state.should_wake_master == reply.should_wake_master,
        o.local_state.awaiting_feedback == (o.proposed_action is Some),
        o.local_state.proposal_confidence == o.proposal_confidence,
        reply.proposal_confidence is Some ==> o.proposal_confidence == reply.proposal_confidence,
        reply.proposal_confidence is None && o.proposed_action is Some ==> o.proposal_confidence
            == Some(
            if reply.evidence_complete {
                ExecThreadProposalConfidence::High
            } else {
                ExecThreadProposalConfidence::Medium
            },
        ),
        reply.proposal_confidence is None && o.proposed_action is None ==> o.proposal_confidence
            == input.local.proposal_confidence,
        o.kind is Coding,
        !o.local_state.verification_pending,
        match (reply.proposed_action, o.proposed_action) {
            (None, None) => true,
            (Some(p), None) => normalized(p.tool_name, p.params) is None,
            (Some(p), Some(q)) => q.tool_name@ == p.tool_name && q.rationale@ == p.rationale
                && normalized(p.tool_name, p.params) == Some(q.params@),
            _ => false,
        },
        match reply.status {
            Some(s) => o.status == if s is Completed {
                ExecThreadStatus::Idle
            } else {
                s
            },
            None => o.status is Active || o.status is Idle,
        },
        reply.status is None && reply.completion_reason is Some ==> o.status is Idle,
        reply.status is None && reply.completion_reason is None && (input.new_messages
            || o.proposed_action is Some) ==> o.status is Active,
{
}

/// A change that succeeded is to be verified next, unless that was already done.
pub proof fn change_is_verified_next(
    o: ExecThreadOutput,
    reply: ReplyView,
    input: TurnInput,
    thread_id: ThreadId,
    tick_id: TickId,
)
    requires
        outputs(o, settled_turn(reply, input), thread_id, tick_id),
        input.feedback.mutating_success,
        !input.feedback.mutating_failure,
        !input.feedback.verification_success,
    ensures
        o.local_state.verification_pending,
        opt_text(o.local_state.work_phase) == Some("verifying"@),
        o.summary@ == reply.summary,
        opt_text(o.local_state.scratchpad) == reply.scratchpad,
{
}

/// A change that failed is worked on further, with what the model proposes.
pub proof fn failed_change_is_edited(
    o: ExecThreadOutput,
    reply: ReplyView,
    input: TurnInput,
    thread_id: ThreadId,
    tick_id: TickId,
)
    requires
        outputs(o, settled_turn(reply, input), thread_id, tick_id),
        input.feedback.mutating_failure,
    ensures
        o.status is Active,
        !o.local_state.verification_pending,
        opt_text(o.local_state.work_phase) == Some("editing"@),
        reply.proposed_action matches Some(p) && normalized(p.tool_name, p.params) is Some
            ==> o.proposed_action is Some,
{
}

/// The record is of an action of the thread, with this outcome.
pub open spec fn thread_acted(r: ActionRecord, thread_id: ThreadId, success: bool) -> bool {
    r.origin_exec_thread_id == Some(thread_id) && (r.outcome is Success) == success
}

/// The tool changes files.
pub open spec fn changes_files(tool: Seq<char>) -> bool {
    tool == "code.edit"@ || tool == "code.write"@ || tool == "code.apply_patch"@ || tool
        == "fs.write"@
}

/// A thread hears of its own actions only: that a change succeeded if one of them did, that
/// one failed if one did, and that one was verified if a look at the code succeeded.
pub proof fn feedback_is_on_own_actions(records: Seq<ActionRecord>, thread_id: ThreadId)
    ensures
        feedback_of(records, thread_id).mutating_success <==> exists|i: int|
            0 <= i < records.len() && thread_acted(#[trigger] records[i], thread_id, true)
                && changes_files(records[i].action_type@),
        feedback_of(records, thread_id).mutating_failure <==> exists|i: int|
            0 <= i < records.len() && thread_acted(#[trigger] records[i], thread_id, false)
                && changes_files(records[i].action_type@),
        feedback_of(records, thread_id).verification_success <==> exists|i: int|
            0 <= i < records.len() && thread_acted(#[trigger] records[i], thread_id, true) && (
            records[i].action_type@ == "code.read"@ || records[i].action_type@ == "code.grep"@
                || records[i].action_type@ == "shell.exec"@),
{
    let mutates = |t: Seq<char>| is_mutating(t);
    let verifies = |t: Seq<char>| is_verifying(t);
    assert forall|i: int, ok: bool| 0 <= i < records.len() implies (#[trigger] did(
        records[i],
        thread_id,
        mutates,
        ok,
    ) <==> thread_acted(records[i], thread_id, ok) && changes_files(records[i].action_type@)) by {}
    assert forall|i: int, ok: bool| 0 <= i < records.len() implies (#[trigger] did(
        records[i],
        thread_id,
        verifies,
        ok,
    ) <==> thread_acted(records[i], thread_id, ok) && (records[i].action_type@ == "code.read"@
        || records[i].action_type@ == "code.grep"@ || records[i].action_type@
        == "shell.exec"@)) by {}
    same_deeds(records, thread_id, mutates, true);
    same_deeds(records, thread_id, mutates, false);
    same_deeds(records, thread_id, verifies, true);
}

proof fn same_deeds(
    records: Seq<ActionRecord>,
    thread_id: ThreadId,
    p: spec_fn(Seq<char>) -> bool,
    success: bool,
)
    ensures
        any_did(records, thread_id, p, success) <==> exists|i: int|
            0 <= i < records.len() && thread_acted(#[trigger] records[i], thread_id, success) && p(
                records[i].action_type@,
            ),
{
    if any_did(records, thread_id, p, success) {
        let i = choose|i: int|
            0 <= i < records.len() && did(#[trigger] records[i], thread_id, p, success);
        assert(thread_acted(records[i], thread_id, success) && p(records[i].action_type@));
    }
    if exists|i: int|
        0 <= i < records.len() && thread_acted(#[trigger] records[i], thread_id, success) && p(
            records[i].action_type@,
        ) {
        let i = choose|i: int|
            0 <= i < records.len() && thread_acted(#[trigger] records[i], thread_id, success) && p(
                records[i].action_type@,
            );
        assert(did(records[i], thread_id, p, success));
    }
}

// ---------------------------------------------------------------------------
// Prompts of coding threads
// ---------------------------------------------------------------------------

/// Every message of a conversation is told with its source, in order.
#[verifier::rlimit(40)]
pub proof fn every_message_is_told(messages: Seq<ResolvedMessage>, i: int)
    requires
        0 <= i < messages.len(),
    ensures
        has_text(message_lines(messages), message_line(messages[i])),
        has_text(message_lines(messages), messages[i].source@),
    decreases messages.len(),
{
    let all = message_lines(messages);
    let front = message_lines(messages.drop_last());
    let last = message_line(messages.last());
    if i == messages.len() - 1 {
        end_is_found(front, last);
    } else {
        every_message_is_told(messages.drop_last(), i);
        found_in_longer(Seq::empty(), front, last, message_line(messages[i]));
        assert(Seq::empty() + front + last =~= all);
    }
    let line = message_line(messages[i]);
    let head = "- ["@;
    let source = messages[i].source@;
    let rest = line.subrange((head.len() + source.len()) as int, line.len() as int);
    assert(head + source + rest =~= line);
    part_is_found(head, source, rest);
    found_by_way(all, line, source);
}

/// Every result is told, in order.
#[verifier::rlimit(40)]
pub proof fn every_result_is_told(results: Seq<ResolvedResult>, i: int)
    requires
        0 <= i < results.len(),
    ensures
        has_text(result_lines(results), result_line(results[i])),
        has_text(result_lines(results), results[i].summary@),
    decreases results.len(),
{
    let all = result_lines(results);
    let front = result_lines(results.drop_last());
    let last = result_line(results.last());
    if i == results.len() - 1 {
        end_is_found(front, last);
    } else {
        every_result_is_told(results.drop_last(), i);
        found_in_longer(Seq::empty(), front, last, result_line(results[i]));
        assert(Seq::empty() + front + last =~= all);
    }
    let line = result_line(results[i]);
    let head = "- "@;
    let summary = results[i].summary@;
    let rest = line.subrange((head.len() + summary.len()) as int, line.len() as int);
    assert(head + summary + rest =~= line);
    part_is_found(head, summary, rest);
    found_by_way(all, line, summary);
}

/// The text holds every one of the parts.
pub open spec fn tells_all(text: Seq<char>, parts: Seq<Seq<char>>) -> bool {
    forall|i: int| 0 <= i < parts.len() ==> has_text(text, #[trigger] parts[i])
}

proof fn one_more_is_told(text: Seq<char>, parts: Seq<Seq<char>>, more: Seq<char>)
    requires
        tells_all(text, parts),
    ensures
        tells_all(text + more, parts.push(more)),
{
    assert forall|i: int| 0 <= i < parts.push(more).len() implies has_text(
        text + more,
        #[trigger] parts.push(more)[i],
    ) by {
        if i < parts.len() {
            start_is_found(text, more);
            found_by_way(text + more, text, parts[i]);
        } else {
            end_is_found(text, more);
        }
    }
}

/// All that the prompt of a coding thread is made of.
pub open spec fn prompt_parts(
    spec: ExecThreadSpec,
    mission: Seq<char>,
    tick_number: u64,
    last_action: Option<String>,
    local: ExecThreadLocalState,
    counts: PromptCounts,
    conversation: Seq<char>,
    results: Seq<char>,
) -> Seq<Seq<char>> {
    seq![
        "Kind: "@,
        "Coding"@,
        "\nName: "@,
        spec.name@,
        "\nCharter: "@,
        spec.charter@,
        "\nMission: "@,
        mission,
        "\nTick: "@,
        dec((tick_number + 1) as nat),
        "\nWorkspace: "@,
        text_or_default(spec.workspace_root, "(none)"@),
        "\nLast action: "@,
        text_or_default(last_action, "none"@),
        "\nCurrent focus: "@,
        text_or_default(local.current_focus, "none"@),
        "\nWork phase: "@,
        text_or_default(local.work_phase, "none"@),
        "\nScratchpad: "@,
        text_or_default(local.scratchpad, "none"@),
        "\nEvidence complete: "@,
        flag_text(local.evidence_complete),
        "\nVerification pending: "@,
        flag_text(local.verification_pending),
        "\nVerification attempted: "@,
        flag_text(local.verification_attempted),
        "\nRecent thread outputs: "@,
        dec(counts.thread_outputs as nat),
        "\nRecent exec outputs: "@,
        dec(counts.exec_thread_outputs as nat),
        "\nRecent messages: "@,
        dec(counts.messages as nat),
        "\n\nConversation context:\n"@,
        conversation,
        "\n\nPending action results:\n"@,
        results,
        coding_rules_text(),
    ]
}

#[verifier::rlimit(40)]
proof fn prompt_holds_its_parts(
    spec: ExecThreadSpec,
    mission: Seq<char>,
    tick_number: u64,
    last_action: Option<String>,
    local: ExecThreadLocalState,
    counts: PromptCounts,
    conversation: Seq<char>,
    results: Seq<char>,
)
    ensures
        tells_all(
            coding_prompt(
                spec,
                mission,
                tick_number,
                last_action,
                local,
                counts,
                conversation,
                results,
            ),
            prompt_parts(
                spec,
                mission,
                tick_number,
                last_action,
                local,
                counts,
                conversation,
                results,
            ),
        ),
{
    let t0 = "Kind: "@;
    let s0 = seq!["Kind: "@];
    assert(tells_all(t0, s0)) by {
        end_is_found(Seq::empty(), t0);
        assert(Seq::empty() + t0 =~= t0);
    }
    let p1 = "Coding"@;
    let t1 = t0 + p1;
    let s1 = s0.push(p1);
    one_more_is_told(t0, s0, p1);
    let p2 = "\nName: "@;
    let t2 = t1 + p2;
    let s2 = s1.push(p2);
    one_more_is_told(t1, s1, p2);
    let p3 = spec.name@;
    let t3 = t2 + p3;
    let s3 = s2.push(p3);
    one_more_is_told(t2, s2, p3);
    let p4 = "\nCharter: "@;
    let t4 = t3 + p4;
    let s4 = s3.push(p4);
    one_more_is_told(t3, s3, p4);
    let p5 = spec.charter@;
    let t5 = t4 + p5;
    let s5 = s4.push(p5);
    one_more_is_told(t4, s4, p5);
    let p6 = "\nMission: "@;
    let t6 = t5 + p6;
    let s6 = s5.push(p6);
    one_more_is_told(t5, s5, p6);
    let p7 = mission;
    let t7 = t6 + p7;
    let s7 = s6.push(p7);
    one_more_is_told(t6, s6, p7);
    let p8 = "\nTick: "@;
    let t8 = t7 + p8;
    let s8 = s7.push(p8);
    one_more_is_told(t7, s7, p8);
    let p9 = dec((tick_number + 1) as nat);
    let t9 = t8 + p9;
    let s9 = s8.push(p9);
    one_more_is_told(t8, s8, p9);
    let p10 = "\nWorkspace: "@;
    let t10 = t9 + p10;
    let s10 = s9.push(p10);
    one_more_is_told(t9, s9, p10);
    let p11 = text_or_default(spec.workspace_root, "(none)"@);
    let t11 = t10 + p11;
    let s11 = s10.push(p11);
    one_more_is_told(t10, s10, p11);
    let p12 = "\nLast action: "@;
    let t12 = t11 + p12;
    let s12 = s11.push(p12);
    one_more_is_told(t11, s11, p12);
    let p13 = text_or_default(last_action, "none"@);
    let t13 = t12 + p13;
    let s13 = s12.push(p13);
    one_more_is_told(t12, s12, p13);
    let p14 = "\nCurrent focus: "@;
    let t14 = t13 + p14;
    let s14 = s13.push(p14);
    one_more_is_told(t13, s13, p14);
    let p15 = text_or_default(local.current_focus, "none"@);
    let t15 = t14 + p15;
    let s15 = s14.push(p15);
    one_more_is_told(t14, s14, p15);
    let p16 = "\nWork phase: "@;
    let t16 = t15 + p16;
    let s16 = s15.push(p16);
    one_more_is_told(t15, s15, p16);
    let p17 = text_or_default(local.work_phase, "none"@);
    let t17 = t16 + p17;
    let s17 = s16.push(p17);
    one_more_is_told(t16, s16, p17);
    let p18 = "\nScratchpad: "@;
    let t18 = t17 + p18;
    let s18 = s17.push(p18);
    one_more_is_told(t17, s17, p18);
    let p19 = text_or_default(local.scratchpad, "none"@);
    let t19 = t18 + p19;
    let s19 = s18.push(p19);
    one_more_is_told(t18, s18, p19);
    let p20 = "\nEvidence complete: "@;
    let t20 = t19 + p20;
    let s20 = s19.push(p20);
    one_more_is_told(t19, s19, p20);
    let p21 = flag_text(local.evidence_complete);
    let t21 = t20 + p21;
    let s21 = s20.push(p21);
    one_more_is_told(t20, s20, p21);
    let p22 = "\nVerification pending: "@;
    let t22 = t21 + p22;
    let s22 = s21.push(p22);
    one_more_is_told(t21, s21, p22);
    let p23 = flag_text(local.verification_pending);
    let t23 = t22 + p23;
    let s23 = s22.push(p23);
    one_more_is_told(t22, s22, p23);
    let p24 = "\nVerification attempted: "@;
    let t24 = t23 + p24;
    let s24 = s23.push(p24);
    one_more_is_told(t23, s23, p24);
    let p25 = flag_text(local.verification_attempted);
    let t25 = t24 + p25;
    let s25 = s24.push(p25);
    one_more_is_told(t24, s24, p25);
    let p26 = "\nRecent thread outputs: "@;
    let t26 = t25 + p26;
    let s26 = s25.push(p26);
    one_more_is_told(t25, s25, p26);
    let p27 = dec(counts.thread_outputs as nat);
    let t27 = t26 + p27;
    let s27 = s26.push(p27);
    one_more_is_told(t26, s26, p27);
    let p28 = "\nRecent exec outputs: "@;
    let t28 = t27 + p28;
    let s28 = s27.push(p28);
    one_more_is_told(t27, s27, p28);
    let p29 = dec(counts.exec_thread_outputs as nat);
    let t29 = t28 + p29;
    let s29 = s28.push(p29);
    one_more_is_told(t28, s28, p29);
    let p30 = "\nRecent messages: "@;
    let t30 = t29 + p30;
    let s30 = s29.push(p30);
    one_more_is_told(t29, s29, p30);
    let p31 = dec(counts.messages as nat);
    let t31 = t30 + p31;
    let s31 = s30.push(p31);
    one_more_is_told(t30, s30, p31);
    let p32 = "\n\nConversation context:\n"@;
    let t32 = t31 + p32;
    let s32 = s31.push(p32);
    one_more_is_told(t31, s31, p32);
    let p33 = conversation;
    let t33 = t32 + p33;
    let s33 = s32.push(p33);
    one_more_is_told(t32, s32, p33);
    let p34 = "\n\nPending action results:\n"@;
    let t34 = t33 + p34;
    let s34 = s33.push(p34);
    one_more_is_told(t33, s33, p34);
    let p35 = results;
    let t35 = t34 + p35;
    let s35 = s34.push(p35);
    one_more_is_told(t34, s34, p35);
    let p36 = coding_rules_text();
    let t36 = t35 + p36;
    let s36 = s35.push(p36);
    one_more_is_told(t35, s35, p36);
    assert(s36 =~= prompt_parts(
        spec,
        mission,
        tick_number,
        last_action,
        local,
        counts,
        conversation,
        results,
    ));
}

/// The prompt of a coding thread tells what the thread remembers: its focus, its phase and
/// its notes, and the workspace and the last action.
#[verifier::rlimit(40)]
pub proof fn coding_prompt_tells_state(
    spec: ExecThreadSpec,
    mission: Seq<char>,
    tick_number: u64,
    last_action: Option<String>,
    local: ExecThreadLocalState,
    counts: PromptCounts,
    conversation: Seq<char>,
    results: Seq<char>,
)
    ensures
        ({
            let text = coding_prompt(
                spec,
                mission,
                tick_number,
                last_action,
                local,
                counts,
                conversation,
                results,
            );
            &&& local.current_focus matches Some(t) ==> has_text(text, t@)
            &&& local.work_phase matches Some(t) ==> has_text(text, t@)
            &&& local.scratchpad matches Some(t) ==> has_text(text, t@)
            &&& spec.workspace_root matches Some(t) ==> has_text(text, t@)
            &&& last_action matches Some(t) ==> has_text(text, t@)
        }),
{
    prompt_holds_its_parts(
        spec,
        mission,
        tick_number,
        last_action,
        local,
        counts,
        conversation,
        results,
    );
    let parts = prompt_parts(
        spec,
        mission,
        tick_number,
        last_action,
        local,
        counts,
        conversation,
        results,
    );
    assert(parts[15] == text_or_default(local.current_focus, "none"@));
    assert(parts[17] == text_or_default(local.work_phase, "none"@));
    assert(parts[19] == text_or_default(local.scratchpad, "none"@));
    assert(parts[11] == text_or_default(spec.workspace_root, "(none)"@));
    assert(parts[13] == text_or_default(last_action, "none"@));
}

/// The prompt of a coding thread tells who it is, its name, its charter and the mission, and
/// then the conversation, the results and the rules.
#[verifier::rlimit(40)]
pub proof fn coding_prompt_tells_work(
    spec: ExecThreadSpec,
    mission: Seq<char>,
    tick_number: u64,
    last_action: Option<String>,
    local: ExecThreadLocalState,
    counts: PromptCounts,
    conversation: Seq<char>,
    results: Seq<char>,
)
    ensures
        ({
            let text = coding_prompt(
                spec,
                mission,
                tick_number,
                last_action,
                local,
                counts,
                conversation,
                results,
            );
            &&& has_text(text, spec.name@)
            &&& has_text(text, spec.charter@)
            &&& has_text(text, mission)
            &&& has_text(text, conversation)
            &&& has_text(text, results)
            &&& has_text(text, coding_rules_text())
        }),
{
    prompt_holds_its_parts(
        spec,
        mission,
        tick_number,
        last_action,
        local,
        counts,
        conversation,
        results,
    );
    let parts = prompt_parts(
        spec,
        mission,
        tick_number,
        last_action,
        local,
        counts,
        conversation,
        results,
    );
    assert(parts[3] == spec.name@);
    assert(parts[5] == spec.charter@);
    assert(parts[7] == mission);
    assert(parts[33] == conversation);
    assert(parts[35] == results);
    assert(parts[36] == coding_rules_text());
}

// ---------------------------------------------------------------------------
// Watches
// ---------------------------------------------------------------------------

/// The watch has a metric whose reading meets the condition.
pub open spec fn has_fired(due: DueWatch) -> bool {
    due.watch.watch_type is Threshold && (due.reading matches Reading::Value { triggered, .. }
        && triggered)
}

/// Every watch whose reading meets its condition gives an event, in order, and no other
/// watch does. Every poll watch gives an action, in order, and no other watch does.
pub proof fn watches_give_what_is_due(due: Seq<DueWatch>)
    ensures
        events_of(due).len() == due.filter(|d: DueWatch| has_fired(d)).len(),
        forall|i: int|
            0 <= i < events_of(due).len() ==> #[trigger] events_of(due)[i] == event_of(
                due.filter(|d: DueWatch| has_fired(d))[i],
            ),
        polls_of(due).len() == due.filter(|d: DueWatch| d.watch.watch_type is Poll).len(),
        forall|i: int|
            0 <= i < polls_of(due).len() ==> #[trigger] polls_of(due)[i] == poll_of(
                due.filter(|d: DueWatch| d.watch.watch_type is Poll)[i],
            ),
    decreases due.len(),
{
    reveal(Seq::filter);
    if due.len() > 0 {
        watches_give_what_is_due(due.drop_last());
        assert(is_triggered(due.last()) == has_fired(due.last()));
    }
}

/// The event of a watch tells its name and the value that was read, and holds the watch,
/// the value and the condition.
pub proof fn watch_event_tells(due: DueWatch)
    requires
        has_fired(due),
    ensures
        has_text(event_of(due).0, due.watch.name@),
        has_text(event_of(due).0, due.reading->rounded@),
        event_of(due).1.field("watch_id"@) == Some(JsonView::Str(due.id_text@)),
        event_of(due).1.field("watch_name"@) == Some(JsonView::Str(due.watch.name@)),
        event_of(due).1.field("metric"@) == Some(due.type_json@),
        event_of(due).1.field("value"@) == Some(due.reading->value@),
        event_of(due).1.field("condition"@) == Some(due.watch.watch_type->Threshold_condition@),
{
    let text = event_of(due).0;
    let name = due.watch.name@;
    let value = due.reading->rounded@;
    part_is_found("Watch '"@, name, "' triggered: value="@ + value);
    assert("Watch '"@ + name + ("' triggered: value="@ + value) =~= text);
    end_is_found("Watch '"@ + name + "' triggered: value="@, value);
    let parts = seq![
        ("watch_id"@, Some(JsonView::Str(due.id_text@))),
        ("watch_name"@, Some(JsonView::Str(due.watch.name@))),
        ("metric"@, Some(due.type_json@)),
        ("value"@, Some(due.reading->value@)),
        ("condition"@, Some(due.watch.watch_type->Threshold_condition@)),
    ];
    reveal_strlit("watch_id");
    reveal_strlit("watch_name");
    reveal_strlit("metric");
    reveal_strlit("value");
    reveal_strlit("condition");
    assert("watch_id"@.len() == 8);
    assert("watch_name"@.len() == 10);
    assert("metric"@.len() == 6);
    assert("value"@.len() == 5);
    assert("condition"@.len() == 9);
    reveal_with_fuel(record, 6);
    assert(event_of(due).1->Object_0 =~= record(parts));
    field_is_found(parts, 0);
    field_is_found(parts, 1);
    field_is_found(parts, 2);
    field_is_found(parts, 3);
    field_is_found(parts, 4);
}

/// The action of a poll watch calls its connector with its parameters and names the watch.
pub proof fn poll_calls_connector(due: DueWatch)
    requires
        due.watch.watch_type is Poll,
    ensures
        poll_of(due).tool_name == due.watch.watch_type->connector@,
        poll_of(due).params == due.watch.watch_type->params@,
        has_text(poll_of(due).rationale, due.watch.name@),
        poll_of(due).plan_task_id is None,
        poll_of(due).origin_exec_thread_id is None,
        poll_of(due).proposal_id is None,
{
    part_is_found("Poll watch '"@, due.watch.name@, "' scheduled check"@);
}

/// A watch is made as it was proposed. It is active from this tick on, and was never
/// checked.
pub proof fn watch_is_as_proposed(w: WatchDefinition, p: WatchProposal)
    requires
        w == watch_of(w.id, p, w.created_at_tick, w.created_at),
    ensures
        w.name@ == p.name@,
        w.description@ == p.description@,
        w.watch_type == p.watch_type,
        w.schedule == p.schedule,
        w.status is Active,
        w.last_checked_tick is None,
        w.trigger_count == 0,
{
}

// ---------------------------------------------------------------------------
// Compaction
// ---------------------------------------------------------------------------

/// Two summaries that follow one another are in one group exactly if the second starts at
/// most two ticks behind the end of the first.
pub proof fn groups_are_runs(s: Seq<EpisodicSummary>)
    ensures
        forall|g: int, i: int|
            0 <= g < grouped(s).len() && 0 < i < grouped(s)[g].len() ==> (#[trigger] grouped(
                s,
            )[g][i]).start_tick <= grouped(s)[g][i - 1].end_tick + 2,
        forall|g: int|
            0 < g < grouped(s).len() ==> (#[trigger] grouped(s)[g])[0].start_tick > grouped(s)[g
                - 1].last().end_tick + 2,
    decreases s.len(),
{
    if s.len() > 0 {
        let rest = s.drop_last();
        let front = grouped(rest);
        let all = grouped(s);
        groups_are_runs(rest);
        groups_cover_summaries(rest);
        groups_cover_summaries(s);
        if s.len() > 1 && s.last().start_tick <= s[s.len() - 2].end_tick + 2 {
            let n = front.len() - 1;
            assert(front.last().last() == s[s.len() - 2]);
            assert(all == front.drop_last().push(front.last().push(s.last())));
            assert forall|g: int, i: int| 0 <= g < all.len() && 0 < i < all[g].len() implies (
            #[trigger] all[g][i]).start_tick <= all[g][i - 1].end_tick + 2 by {
                if g < n {
                    assert(all[g] == front[g]);
                    assert(front[g][i].start_tick <= front[g][i - 1].end_tick + 2);
                } else if i < front[n].len() {
                    assert(all[g][i] == front[n][i]);
                    assert(all[g][i - 1] == front[n][i - 1]);
                    assert(front[n][i].start_tick <= front[n][i - 1].end_tick + 2);
                } else {
                    assert(all[g][i - 1] == front.last().last());
                }
            }
            assert forall|g: int| 0 < g < all.len() implies (#[trigger] all[g])[0].start_tick
                > all[g - 1].last().end_tick + 2 by {
                assert(all[g][0] == front[g][0]);
                assert(all[g - 1] == front[g - 1]);
                assert(front[g][0].start_tick > front[g - 1].last().end_tick + 2);
            }
        } else {
            assert(all == front.push(seq![s.last()]));
            assert forall|g: int, i: int| 0 <= g < all.len() && 0 < i < all[g].len() implies (
            #[trigger] all[g][i]).start_tick <= all[g][i - 1].end_tick + 2 by {
                assert(all[g] == front[g]);
                assert(front[g][i].start_tick <= front[g][i - 1].end_tick + 2);
            }
            assert forall|g: int| 0 < g < all.len() implies (#[trigger] all[g])[0].start_tick
                > all[g - 1].last().end_tick + 2 by {
                assert(all[g - 1] == front[g - 1]);
                if g < front.len() {
                    assert(front[g][0].start_tick > front[g - 1].last().end_tick + 2);
                }
            }
        }
    }
}

/// All groups of two or more summaries are merged, in order, and no others.
pub proof fn groups_of_two_are_merged(groups: Seq<Seq<EpisodicSummary>>)
    ensures
        real_groups(groups) == groups.filter(|g: Seq<EpisodicSummary>| g.len() >= 2),
    decreases groups.len(),
{
    reveal(Seq::filter);
    if groups.len() > 0 {
        groups_of_two_are_merged(groups.drop_last());
    } else {
        assert(real_groups(groups) =~= Seq::empty());
    }
}

/// A merged summary begins with the first of its group and ends with the last.
pub proof fn merged_ticks_are_of_group(m: MergedSummary, group: Seq<EpisodicSummary>)
    requires
        merges(m, group),
        group.len() > 0,
    ensures
        exists|i: int| 0 <= i < group.len() && (#[trigger] group[i]).start_tick == m.start_tick,
        exists|i: int| 0 <= i < group.len() && (#[trigger] group[i]).end_tick == m.end_tick,
        forall|i: int|
            0 <= i < group.len() ==> m.start_tick <= (#[trigger] group[i]).start_tick
                && group[i].end_tick <= m.end_tick,
{
    ticks_are_of_group(group);
    crate::compaction::merged_ticks_cover_group(group);
}

proof fn ticks_are_of_group(group: Seq<EpisodicSummary>)
    requires
        group.len() > 0,
    ensures
        exists|i: int|
            0 <= i < group.len() && (#[trigger] group[i]).start_tick
                == crate::compaction::first_start(group),
        exists|i: int|
            0 <= i < group.len() && (#[trigger] group[i]).end_tick == crate::compaction::last_end(
                group,
            ),
    decreases group.len(),
{
    if group.len() == 1 {
        assert(group[0].start_tick == crate::compaction::first_start(group));
        assert(group[0].end_tick == crate::compaction::last_end(group));
    } else {
        let front = group.drop_last();
        ticks_are_of_group(front);
        let i = choose|i: int|
            0 <= i < front.len() && (#[trigger] front[i]).start_tick
                == crate::compaction::first_start(front);
        let j = choose|j: int|
            0 <= j < front.len() && (#[trigger] front[j]).end_tick == crate::compaction::last_end(
                front,
            );
        assert(group[i] == front[i] && group[j] == front[j]);
        let last = group[group.len() - 1];
        assert(last == group.last());
    }
}

/// A merged summary quotes every summary of its group: the first line, if that is not too
/// long.
pub proof fn merged_summary_quotes_all(
    m: MergedSummary,
    group: Seq<EpisodicSummary>,
    i: int,
    line: Seq<char>,
    rest: Seq<char>,
)
    requires
        merges(m, group),
        0 <= i < group.len(),
        line.len() > 0,
        !line.contains('\n'),
        line.last() != '\r',
        vstd::utf8::encode_utf8(line).len() <= 100,
        group[i].summary@ == line || group[i].summary@ == line + seq!['\n'] + rest,
    ensures
        has_text(m.summary@, line),
{
    if group[i].summary@ == line {
        one_line(line);
    } else {
        first_line_comes_first(line, rest);
    }
    assert(first_line(group[i].summary@) == line);
    short_texts_stay(line, 100, 97);
    assert(headlines(group)[i] == line);
    let list = joined(headlines(group), "; "@);
    joined_parts_are_found(headlines(group), "; "@, i);
    let n = merged_text(group).len() - list.len();
    assert(merged_text(group).subrange(0, n) + list =~= merged_text(group));
    end_is_found(merged_text(group).subrange(0, n), list);
    found_by_way(m.summary@, list, line);
}

proof fn distinct_is_distinct(s: Seq<Seq<char>>)
    ensures
        distinct(s).no_duplicates(),
        forall|x: Seq<char>| s.contains(x) <==> #[trigger] distinct(s).contains(x),
    decreases s.len(),
{
    if s.len() > 0 {
        let rest = s.drop_last();
        let front = distinct(rest);
        distinct_is_distinct(rest);
        assert forall|x: Seq<char>| s.contains(x) <==> #[trigger] distinct(s).contains(x) by {
            if s.contains(x) {
                let k = choose|k: int| 0 <= k < s.len() && s[k] == x;
                if k < rest.len() {
                    assert(rest[k] == x);
                    assert(front.contains(x));
                    let q = choose|q: int| 0 <= q < front.len() && front[q] == x;
                    assert(distinct(s)[q] == x);
                } else if !front.contains(x) {
                    assert(distinct(s)[front.len() as int] == x);
                }
            }
            if distinct(s).contains(x) {
                let q = choose|q: int| 0 <= q < distinct(s).len() && distinct(s)[q] == x;
                if q < front.len() {
                    assert(front[q] == x);
                    assert(front.contains(x));
                    assert(rest.contains(x));
                    let k = choose|k: int| 0 <= k < rest.len() && rest[k] == x;
                    assert(s[k] == x);
                } else {
                    assert(s[s.len() - 1] == x);
                }
            }
        }
        assert(distinct(s).no_duplicates()) by {
            if !front.contains(s.last()) {
                assert(distinct(s) == front.push(s.last()));
                assert forall|i: int, j: int|
                    0 <= i < distinct(s).len() && 0 <= j < distinct(s).len() && i
                        != j implies distinct(s)[i] != distinct(s)[j] by {
                    if i < front.len() {
                        assert(front.contains(front[i]));
                    }
                    if j < front.len() {
                        assert(front.contains(front[j]));
                    }
                }
            }
        }
    }
}

proof fn events_are_those(group: Seq<EpisodicSummary>, x: Seq<char>)
    ensures
        all_events(group).contains(x) <==> exists|i: int|
            0 <= i < group.len() && texts((#[trigger] group[i]).key_events@).contains(x),
    decreases group.len(),
{
    if group.len() > 0 {
        let front = group.drop_last();
        let a = all_events(front);
        let b = texts(group.last().key_events@);
        events_are_those(front, x);
        if all_events(group).contains(x) {
            let k = choose|k: int| 0 <= k < (a + b).len() && (a + b)[k] == x;
            if k < a.len() {
                assert(a[k] == x);
                let i = choose|i: int|
                    0 <= i < front.len() && texts((#[trigger] front[i]).key_events@).contains(x);
                assert(group[i] == front[i]);
            } else {
                assert(b[k - a.len()] == x);
                assert(texts(group[group.len() - 1].key_events@).contains(x));
            }
        }
        if exists|i: int|
            0 <= i < group.len() && texts((#[trigger] group[i]).key_events@).contains(x) {
            let i = choose|i: int|
                0 <= i < group.len() && texts((#[trigger] group[i]).key_events@).contains(x);
            if i < front.len() {
                assert(front[i] == group[i]);
                assert(a.contains(x));
                let k = choose|k: int| 0 <= k < a.len() && a[k] == x;
                assert((a + b)[k] == x);
            } else {
                let k = choose|k: int| 0 <= k < b.len() && b[k] == x;
                assert((a + b)[a.len() + k] == x);
            }
        }
    }
}

/// A merged summary keeps up to ten key events of its group, none twice. If it keeps fewer
/// than ten, it keeps all.
pub proof fn merged_events_are_of_group(
    m: MergedSummary,
    group: Seq<EpisodicSummary>,
    event: Seq<char>,
)
    requires
        merges(m, group),
    ensures
        m.key_events@.len() <= 10,
        texts(m.key_events@).no_duplicates(),
        texts(m.key_events@).contains(event) ==> exists|i: int|
            0 <= i < group.len() && texts((#[trigger] group[i]).key_events@).contains(event),
        m.key_events@.len() < 10 && (exists|i: int|
            0 <= i < group.len() && texts((#[trigger] group[i]).key_events@).contains(event))
            ==> texts(m.key_events@).contains(event),
{
    let all = distinct(all_events(group));
    let kept = texts(m.key_events@);
    distinct_is_distinct(all_events(group));
    events_are_those(group, event);
    assert(kept.len() == m.key_events@.len());
    assert(all.contains(event) <==> all_events(group).contains(event));
    if kept.contains(event) {
        let k = choose|k: int| 0 <= k < kept.len() && kept[k] == event;
        assert(all[k] == event);
    }
}

/// Every watch that was checked is noted, as triggered exactly if its reading meets its
/// condition.
pub proof fn checked_watches_are_noted(due: DueWatch)
    ensures
        has_fired(due) ==> mark_of(due) == WatchMark::Triggered(due.watch.id),
        !has_fired(due) ==> mark_of(due) == WatchMark::Checked(due.watch.id),
{
}

/// All summaries but the newest may be merged, none is lost, and they are ordered by their
/// start.
pub proof fn older_summaries_are_mergeable(all: Seq<EpisodicSummary>, preserve: nat)
    requires
        preserve <= all.len(),
    ensures
        mergeable(all, preserve).to_multiset() == all.subrange(
            preserve as int,
            all.len() as int,
        ).to_multiset(),
        forall|i: int, j: int|
            0 <= i < j < mergeable(all, preserve).len() ==> (#[trigger] mergeable(
                all,
                preserve,
            )[i]).start_tick <= (#[trigger] mergeable(all, preserve)[j]).start_tick,
{
    let rest = all.subrange(preserve as int, all.len() as int);
    ordering_keeps_summaries(rest);
    if all.len() == preserve {
        assert(rest =~= Seq::empty());
        assert(mergeable(all, preserve) =~= rest);
    }
}

/// A compaction writes the merged summary of a merge, then deletes all summaries that it
/// replaces, one after the other, and then turns to the next merge, until all are done.
pub proof fn merges_are_carried_out(run: CompactionRun, next: CompactionRun)
    requires
        run.wf(),
        run.at < run.merges@.len(),
        run.merges@[run.at as int].originals@.len() > 0,
        moves_on(run, next),
    ensures
        next.merges@ == run.merges@,
        !run.written ==> asked(run) == (CompactionRequest::Write { merge: run.at }) && asked(next)
            == (CompactionRequest::Delete { merge: run.at, original: 0 }),
        run.written && run.deleted + 1 < run.merges@[run.at as int].originals@.len() ==> asked(next)
            == (CompactionRequest::Delete {
            merge: run.at,
            original: (run.deleted + 1) as usize,
        }),
        run.written && run.deleted + 1 == run.merges@[run.at as int].originals@.len() ==> next.at
            == run.at + 1 && !next.written,
        next.at < next.merges@.len() && !next.written ==> asked(next) == (
        CompactionRequest::Write { merge: next.at }),
        next.at == next.merges@.len() ==> asked(next) is Finish,
{
}

/// Every group is merged into one summary, which takes the place of all of the group.
pub proof fn every_group_is_merged(merges_done: Seq<Merge>, groups: Seq<Seq<EpisodicSummary>>)
    requires
        replaces(merges_done, groups),
    ensures
        merges_done.len() == groups.len(),
        forall|i: int|
            0 <= i < groups.len() ==> (#[trigger] merges_done[i]).originals@ == groups[i]
                && merges(merges_done[i].merged, groups[i]),
{
}

} // verus!
