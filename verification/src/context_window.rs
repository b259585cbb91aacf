//! The results of tools, as the language model sees them in the inner loop: the
//! newest in full, the earlier ones in one line each.

use vstd::prelude::*;
use vstd::string::*;
use vstd::utf8::encode_utf8;

use crate::json::{ref_text, write_json, written, Json, JsonView};
use crate::text::{
    byte_len, byte_prefix, clean_cut, cuts_cleanly, dec, dec_i64, dec_int, dec_u64, dec_usize,
    end_is_found, found_by_way, found_in_longer, has_text, over_bytes, part_is_found, shorten, shortened, str_eq,
};
use crate::types::ActionExecution;

verus! {

/// The longest output that is shown whole, in bytes.
pub const FULL_OUTPUT_LIMIT: usize = 2000;

/// The bytes of a longer output that are shown.
pub const FULL_OUTPUT_KEEP: usize = 1997;

// ---------------------------------------------------------------------------
// Earlier steps
// ---------------------------------------------------------------------------

/// The text of `a`, or else of `b`, or else `default`.
pub open spec fn first_text(
    a: Option<Seq<char>>,
    b: Option<Seq<char>>,
    default: Seq<char>,
) -> Seq<char> {
    match a {
        Some(t) => t,
        None => match b {
            Some(t) => t,
            None => default,
        },
    }
}

/// The unsigned member `key`, or `default`.
pub open spec fn number_or(j: JsonView, key: Seq<char>, default: u64) -> u64 {
    match j.field_unsigned(key) {
        Some(n) => n,
        None => default,
    }
}

/// The signed member `key` of the member `diff`, or zero.
pub open spec fn diff_number(j: JsonView, key: Seq<char>) -> i64 {
    match j.field("diff"@) {
        Some(d) => match d.field(key) {
            Some(n) => match n.signed() {
                Some(v) => v,
                None => 0,
            },
            None => 0,
        },
        None => 0,
    }
}

/// How many lines a range covers.
pub open spec fn range_len(start: u64, end: u64) -> nat {
    if end >= start {
        (end - start + 1) as nat
    } else {
        0
    }
}

/// The line on a file that was read.
pub open spec fn read_line(step: nat, params: JsonView, value: JsonView) -> Seq<char> {
    let start = number_or(value, "start_line"@, 1);
    let end = number_or(value, "end_line"@, start);
    "Step "@ + dec(step) + ": code.read "@ + first_text(
        params.field_text("file_path"@),
        value.field_text("file_path"@),
        "<unknown>"@,
    ) + ":"@ + dec(start as nat) + "-"@ + dec(end as nat) + " -> "@ + dec(range_len(start, end))
        + " lines (success)"@
}

/// The line on a search.
pub open spec fn grep_line(step: nat, params: JsonView, value: JsonView) -> Seq<char> {
    "Step "@ + dec(step) + ": code.grep '"@ + first_text(
        params.field_text("pattern"@),
        None,
        "<pattern>"@,
    ) + "' -> "@ + dec(number_or(value, "total_matches"@, 0) as nat) + " matches in "@ + dec(
        number_or(value, "files_searched"@, 0) as nat,
    ) + " files (success)"@
}

/// The line on a changed file.
pub open spec fn mutation_line(
    step: nat,
    tool: Seq<char>,
    params: JsonView,
    value: JsonView,
) -> Seq<char> {
    "Step "@ + dec(step) + ": "@ + tool + " "@ + first_text(
        value.field_text("file_path"@),
        params.field_text("file_path"@),
        "<unknown>"@,
    ) + " -> +"@ + dec_int(diff_number(value, "lines_added"@) as int) + "/-"@ + dec_int(
        diff_number(value, "lines_removed"@) as int,
    ) + " lines (success)"@
}

/// The line on an earlier step that succeeded.
pub open spec fn success_line(
    step: nat,
    tool: Seq<char>,
    params: JsonView,
    value: JsonView,
) -> Seq<char> {
    if tool == "code.read"@ {
        read_line(step, params, value)
    } else if tool == "code.grep"@ {
        grep_line(step, params, value)
    } else if tool == "code.edit"@ || tool == "code.write"@ || tool == "code.apply_patch"@ {
        mutation_line(step, tool, params, value)
    } else if tool == "code.glob"@ {
        "Step "@ + dec(step) + ": code.glob -> "@ + dec(
            number_or(value, "total_matches"@, 0) as nat,
        ) + " files (success)"@
    } else if tool == "code.ls"@ {
        "Step "@ + dec(step) + ": code.ls -> "@ + dec(
            number_or(value, "total_entries"@, 0) as nat,
        ) + " entries (success)"@
    } else {
        "Step "@ + dec(step) + ": "@ + tool + " -> success"@
    }
}

/// The line on an earlier step.
pub open spec fn step_line(step: nat, e: ActionExecution) -> Seq<char> {
    match e.result {
        Ok(value) => success_line(step, e.action.tool_name@, e.action.params@, value@),
        Err(error) => "Step "@ + dec(step) + ": "@ + e.action.tool_name@ + " -> FAILED: "@ + error@,
    }
}

fn step_head(step: usize) -> (s: String)
    ensures
        s@ == "Step "@ + dec(step as nat),
{
    let mut s = "Step ".to_owned();
    s.append(dec_usize(step).as_str());
    s
}

fn pick_text<'a>(a: Option<&'a String>, b: Option<&'a String>, default: &'a str) -> (r: &'a str)
    ensures
        r@ == first_text(ref_text(a), ref_text(b), default@),
{
    match a {
        Some(t) => t.as_str(),
        None => match b {
            Some(t) => t.as_str(),
            None => default,
        },
    }
}

fn pick_number(j: &Json, key: &str, default: u64) -> (r: u64)
    ensures
        r == number_or(j@, key@, default),
{
    match j.get_u64(key) {
        Some(n) => n,
        None => default,
    }
}

fn pick_diff(j: &Json, key: &str) -> (r: i64)
    ensures
        r == diff_number(j@, key@),
{
    match j.get("diff") {
        Some(d) => match d.get(key) {
            Some(n) => match n.as_i64() {
                Some(v) => v,
                None => 0,
            },
            None => 0,
        },
        None => 0,
    }
}

fn range_text(start: u64, end: u64) -> (s: String)
    ensures
        s@ == dec(range_len(start, end)),
{
    if end < start {
        dec_u64(0)
    } else if start == 0 && end == u64::MAX {
        let s = "18446744073709551616".to_owned();
        proof {
            big_range_text();
        }
        s
    } else {
        dec_u64(end - start + 1)
    }
}

proof fn big_range_text()
    ensures
        dec(18446744073709551616) == "18446744073709551616"@,
{
    reveal_strlit("18446744073709551616");
    reveal_with_fuel(dec, 21);
    assert(dec(18446744073709551616) =~= "18446744073709551616"@);
}

fn summarize_code_read(step: usize, params: &Json, value: &Json) -> (s: String)
    ensures
        s@ == read_line(step as nat, params@, value@),
{
    let start: u64 = pick_number(value, "start_line", 1);
    let end: u64 = pick_number(value, "end_line", start);
    let mut s = step_head(step);
    s.append(": code.read ");
    s.append(pick_text(params.get_str("file_path"), value.get_str("file_path"), "<unknown>"));
    s.append(":");
    s.append(dec_u64(start).as_str());
    s.append("-");
    s.append(dec_u64(end).as_str());
    s.append(" -> ");
    s.append(range_text(start, end).as_str());
    s.append(" lines (success)");
    s
}

fn summarize_code_grep(step: usize, params: &Json, value: &Json) -> (s: String)
    ensures
        s@ == grep_line(step as nat, params@, value@),
{
    let mut s = step_head(step);
    s.append(": code.grep '");
    s.append(pick_text(params.get_str("pattern"), None, "<pattern>"));
    s.append("' -> ");
    s.append(dec_u64(pick_number(value, "total_matches", 0)).as_str());
    s.append(" matches in ");
    s.append(dec_u64(pick_number(value, "files_searched", 0)).as_str());
    s.append(" files (success)");
    s
}

fn summarize_code_mutation(step: usize, tool: &str, params: &Json, value: &Json) -> (s: String)
    ensures
        s@ == mutation_line(step as nat, tool@, params@, value@),
{
    let mut s = step_head(step);
    s.append(": ");
    s.append(tool);
    s.append(" ");
    s.append(pick_text(value.get_str("file_path"), params.get_str("file_path"), "<unknown>"));
    s.append(" -> +");
    s.append(dec_i64(pick_diff(value, "lines_added")).as_str());
    s.append("/-");
    s.append(dec_i64(pick_diff(value, "lines_removed")).as_str());
    s.append(" lines (success)");
    s
}

/// Summarises an earlier step in one line.
pub fn summarize_execution(step: usize, execution: &ActionExecution) -> (s: String)
    ensures
        s@ == step_line(step as nat, *execution),
{
    let tool = execution.action.tool_name.as_str();
    let params = &execution.action.params;
    match &execution.result {
        Ok(value) => {
            if str_eq(tool, "code.read") {
                summarize_code_read(step, params, value)
            } else if str_eq(tool, "code.grep") {
                summarize_code_grep(step, params, value)
            } else if str_eq(tool, "code.edit") || str_eq(tool, "code.write") || str_eq(
                tool,
                "code.apply_patch",
            ) {
                summarize_code_mutation(step, tool, params, value)
            } else if str_eq(tool, "code.glob") {
                let mut s = step_head(step);
                s.append(": code.glob -> ");
                s.append(dec_u64(pick_number(value, "total_matches", 0)).as_str());
                s.append(" files (success)");
                s
            } else if str_eq(tool, "code.ls") {
                let mut s = step_head(step);
                s.append(": code.ls -> ");
                s.append(dec_u64(pick_number(value, "total_entries", 0)).as_str());
                s.append(" entries (success)");
                s
            } else {
                let mut s = step_head(step);
                s.append(": ");
                s.append(tool);
                s.append(" -> success");
                s
            }
        },
        Err(error) => {
            let mut s = step_head(step);
            s.append(": ");
            s.append(tool);
            s.append(" -> FAILED: ");
            s.append(error.as_str());
            s
        },
    }
}

// ---------------------------------------------------------------------------
// Recent steps
// ---------------------------------------------------------------------------

/// The output can be shortened without splitting a character.
pub open spec fn showable(e: ActionExecution) -> bool {
    match e.result {
        Ok(v) => byte_len(written(v@)) > FULL_OUTPUT_LIMIT ==> cuts_cleanly(
            written(v@),
            FULL_OUTPUT_KEEP as int,
        ),
        Err(_) => true,
    }
}

/// The part on a recent step.
pub open spec fn step_part(step: nat, e: ActionExecution) -> Seq<char> {
    let head = "### Step "@ + dec(step) + ": "@ + e.action.tool_name@;
    match e.result {
        Ok(v) => head + " [SUCCESS]\n"@ + "Output: "@ + shortened(
            written(v@),
            FULL_OUTPUT_LIMIT as nat,
            FULL_OUTPUT_KEEP as int,
        ) + "\n\n"@,
        Err(error) => head + " [FAILED]\n"@ + "Error: "@ + error@ + "\n\n"@,
    }
}

/// The lines on the first `n` steps.
pub open spec fn step_lines(executions: Seq<ActionExecution>, n: int) -> Seq<char>
    decreases n,
{
    if n <= 0 {
        Seq::empty()
    } else {
        step_lines(executions, n - 1) + step_line(n as nat, executions[n - 1]) + "\n"@
    }
}

/// The parts on the steps from `from` up to `n`.
pub open spec fn step_parts(executions: Seq<ActionExecution>, from: int, n: int) -> Seq<char>
    decreases n - from,
{
    if n <= from {
        Seq::empty()
    } else {
        step_parts(executions, from, n - 1) + step_part(n as nat, executions[n - 1])
    }
}

/// The number of steps that are shown in one line each.
pub open spec fn earlier_count(total: nat, window: u32) -> int {
    if total > window {
        total - window
    } else {
        0
    }
}

/// The results as the language model sees them.
pub open spec fn windowed(executions: Seq<ActionExecution>, window: u32) -> Seq<char> {
    let n = executions.len();
    let earlier = earlier_count(n, window);
    if n == 0 {
        "No tool results yet."@
    } else {
        "## Tool Results\n\n"@ + (if earlier > 0 {
            "### Earlier Steps\n"@ + step_lines(executions, earlier) + "\n"@
        } else {
            Seq::empty()
        }) + step_parts(executions, earlier, n as int)
    }
}

/// Every recent output can be shortened without splitting a character.
pub open spec fn all_showable(executions: Seq<ActionExecution>, window: u32) -> bool {
    forall|i: int|
        earlier_count(executions.len(), window) <= i < executions.len() ==> showable(
            #[trigger] executions[i],
        )
}

/// Renders a recent step; nothing if its output would have to split a character.
fn render_step(step: usize, e: &ActionExecution) -> (r: Option<String>)
    ensures
        match r {
            Some(s) => showable(*e) && s@ == step_part(step as nat, *e),
            None => !showable(*e),
        },
{
    let mut s = "### Step ".to_owned();
    s.append(dec_usize(step).as_str());
    s.append(": ");
    s.append(e.action.tool_name.as_str());
    match &e.result {
        Ok(value) => {
            let text = write_json(value);
            if over_bytes(text.as_str(), FULL_OUTPUT_LIMIT) && !clean_cut(
                text.as_str(),
                FULL_OUTPUT_KEEP,
            ) {
                return None;
            }
            s.append(" [SUCCESS]\n");
            s.append("Output: ");
            s.append(shorten(text.as_str(), FULL_OUTPUT_LIMIT, FULL_OUTPUT_KEEP).as_str());
            s.append("\n\n");
        },
        Err(error) => {
            s.append(" [FAILED]\n");
            s.append("Error: ");
            s.append(error.as_str());
            s.append("\n\n");
        },
    }
    Some(s)
}

/// Renders the results of tools: the newest `context_window_size` in full, the
/// earlier ones in one line each.
///
/// Nothing is returned if an output would have to be cut inside a character.
pub fn format_windowed_results(executions: &Vec<ActionExecution>, context_window_size: u32) -> (r:
    Option<String>)
    ensures
        match r {
            Some(s) => all_showable(executions@, context_window_size) && s@ == windowed(
                executions@,
                context_window_size,
            ),
            None => !all_showable(executions@, context_window_size),
        },
{
    let n: usize = executions.len();
    if n == 0 {
        return Some("No tool results yet.".to_owned());
    }
    let start: usize = if (n as u64) > (context_window_size as u64) {
        n - context_window_size as usize
    } else {
        0
    };
    let mut earlier = String::new();
    if start > 0 {
        let mut lines = String::new();
        let mut i: usize = 0;
        assert(lines@ =~= step_lines(executions@, 0));
        while i < start
            invariant
                i <= start <= executions@.len(),
                lines@ == step_lines(executions@, i as int),
            decreases start - i,
        {
            lines.append(summarize_execution(i + 1, &executions[i]).as_str());
            lines.append("\n");
            i = i + 1;
        }
        earlier = "### Earlier Steps\n".to_owned();
        earlier.append(lines.as_str());
        earlier.append("\n");
    }
    let mut recent = String::new();
    let mut i: usize = start;
    assert(recent@ =~= step_parts(executions@, start as int, start as int));
    while i < n
        invariant
            n == executions@.len(),
            start == earlier_count(executions@.len(), context_window_size),
            start <= i <= n,
            recent@ == step_parts(executions@, start as int, i as int),
            forall|k: int| start <= k < i ==> showable(#[trigger] executions@[k]),
        decreases n - i,
    {
        match render_step(i + 1, &executions[i]) {
            Some(part) => {
                recent.append(part.as_str());
            },
            None => {
                assert(!showable(executions@[i as int]));
                return None;
            },
        }
        i = i + 1;
    }
    let mut out = "## Tool Results\n\n".to_owned();
    out.append(earlier.as_str());
    out.append(recent.as_str());
    Some(out)
}

// ---------------------------------------------------------------------------
// Laws
// ---------------------------------------------------------------------------

#[verifier::rlimit(40)]
proof fn line_names_tool(step: nat, e: ActionExecution)
    ensures
        has_text(step_line(step, e), e.action.tool_name@),
        e.result matches Err(error) ==> has_text(step_line(step, e), error@),
{
    let tool = e.action.tool_name@;
    let line = step_line(step, e);
    let head = "Step "@ + dec(step) + ": "@;
    match e.result {
        Err(error) => {
            part_is_found(head, tool, " -> FAILED: "@ + error@);
            assert(head + tool + (" -> FAILED: "@ + error@) =~= line);
            part_is_found(head + tool + " -> FAILED: "@, error@, Seq::empty());
            assert(head + tool + " -> FAILED: "@ + error@ + Seq::<char>::empty() =~= line);
        },
        Ok(value) => {
            reveal_strlit(": ");
            reveal_strlit("code.read");
            reveal_strlit("code.grep");
            reveal_strlit("code.glob");
            reveal_strlit("code.ls");
            reveal_strlit(": code.read ");
            reveal_strlit(": code.grep '");
            reveal_strlit(": code.glob -> ");
            reveal_strlit(": code.ls -> ");
            let base = "Step "@ + dec(step);
            if tool == "code.read"@ {
                assert(": "@ + "code.read"@ =~= ": code.read "@.subrange(0, 11));
                assert(": code.read "@ =~= ": "@ + "code.read"@ + ": code.read "@.subrange(11, 12));
                let rest = line.subrange(base.len() as int + 11, line.len() as int);
                part_is_found(base + ": "@, tool, rest);
                assert(base + ": "@ + tool + rest =~= line);
            } else if tool == "code.grep"@ {
                assert(": code.grep '"@ =~= ": "@ + "code.grep"@ + ": code.grep '"@.subrange(11, 13));
                let rest = line.subrange(base.len() as int + 11, line.len() as int);
                part_is_found(base + ": "@, tool, rest);
                assert(base + ": "@ + tool + rest =~= line);
            } else if tool == "code.edit"@ || tool == "code.write"@ || tool
                == "code.apply_patch"@ {
                let rest = line.subrange((head.len() + tool.len()) as int, line.len() as int);
                part_is_found(head, tool, rest);
                assert(head + tool + rest =~= line);
            } else if tool == "code.glob"@ {
                assert(": code.glob -> "@ =~= ": "@ + "code.glob"@ + ": code.glob -> "@.subrange(
                    11,
                    15,
                ));
                let rest = line.subrange(base.len() as int + 11, line.len() as int);
                part_is_found(base + ": "@, tool, rest);
                assert(base + ": "@ + tool + rest =~= line);
            } else if tool == "code.ls"@ {
                assert(": code.ls -> "@ =~= ": "@ + "code.ls"@ + ": code.ls -> "@.subrange(9, 13));
                let rest = line.subrange(base.len() as int + 9, line.len() as int);
                part_is_found(base + ": "@, tool, rest);
                assert(base + ": "@ + tool + rest =~= line);
            } else {
                part_is_found(head, tool, " -> success"@);
                assert(head + tool + " -> success"@ =~= line);
            }
        },
    }
}

#[verifier::rlimit(40)]
proof fn part_shows_result(step: nat, e: ActionExecution)
    ensures
        has_text(step_part(step, e), e.action.tool_name@),
        match e.result {
            Ok(v) => has_text(step_part(step, e), "[SUCCESS]\nOutput: "@ + shortened(written(v@), 2000, 1997)),
            Err(error) => has_text(step_part(step, e), "[FAILED]\nError: "@ + error@),
        },
{
    let tool = e.action.tool_name@;
    let head = "### Step "@ + dec(step) + ": "@;
    let part = step_part(step, e);
    reveal_strlit(" [SUCCESS]\n");
    reveal_strlit("Output: ");
    reveal_strlit("[SUCCESS]\nOutput: ");
    reveal_strlit(" [FAILED]\n");
    reveal_strlit("Error: ");
    reveal_strlit("[FAILED]\nError: ");
    reveal_strlit(" ");
    assert(" [SUCCESS]\n"@ + "Output: "@ =~= " "@ + "[SUCCESS]\nOutput: "@);
    assert(" [FAILED]\n"@ + "Error: "@ =~= " "@ + "[FAILED]\nError: "@);
    match e.result {
        Ok(v) => {
            let shown = shortened(written(v@), 2000, 1997);
            let told = "[SUCCESS]\nOutput: "@ + shown;
            part_is_found(head, tool, " "@ + told + "\n\n"@);
            assert(head + tool + (" "@ + told + "\n\n"@) =~= part);
            part_is_found(head + tool + " "@, told, "\n\n"@);
            assert(head + tool + " "@ + told + "\n\n"@ =~= part);
        },
        Err(error) => {
            let told = "[FAILED]\nError: "@ + error@;
            part_is_found(head, tool, " "@ + told + "\n\n"@);
            assert(head + tool + (" "@ + told + "\n\n"@) =~= part);
            part_is_found(head + tool + " "@, told, "\n\n"@);
            assert(head + tool + " "@ + told + "\n\n"@ =~= part);
        },
    }
}

proof fn lines_hold_line(executions: Seq<ActionExecution>, n: int, i: int)
    requires
        0 <= i < n <= executions.len(),
    ensures
        has_text(step_lines(executions, n), step_line((i + 1) as nat, executions[i])),
    decreases n,
{
    let line = step_line(n as nat, executions[n - 1]);
    let front = step_lines(executions, n - 1);
    if i == n - 1 {
        part_is_found(front, line, "\n"@);
    } else {
        lines_hold_line(executions, n - 1, i);
        let wanted = step_line((i + 1) as nat, executions[i]);
        found_in_longer(Seq::empty(), front, line + "\n"@, wanted);
        assert(Seq::empty() + front + (line + "\n"@) =~= step_lines(executions, n));
    }
}

proof fn parts_hold_part(executions: Seq<ActionExecution>, from: int, n: int, i: int)
    requires
        0 <= from <= i < n <= executions.len(),
    ensures
        has_text(step_parts(executions, from, n), step_part((i + 1) as nat, executions[i])),
    decreases n - from,
{
    let part = step_part(n as nat, executions[n - 1]);
    let front = step_parts(executions, from, n - 1);
    if i == n - 1 {
        part_is_found(front, part, Seq::empty());
        assert(front + part + Seq::<char>::empty() =~= step_parts(executions, from, n));
    } else {
        parts_hold_part(executions, from, n - 1, i);
        let wanted = step_part((i + 1) as nat, executions[i]);
        found_in_longer(Seq::empty(), front, part, wanted);
        assert(Seq::empty() + front + part =~= step_parts(executions, from, n));
    }
}

/// The model sees every result. The tool of each execution is named, and so is the error
/// of one that failed. The output of the newest executions, as many as the window holds,
/// is shown as JSON, whole if it has at most 2000 bytes and otherwise cut with dots.
#[verifier::rlimit(40)]
pub proof fn every_result_is_shown(executions: Seq<ActionExecution>, window: u32, i: int)
    requires
        0 <= i < executions.len(),
    ensures
        has_text(windowed(executions, window), executions[i].action.tool_name@),
        match executions[i].result {
            Err(error) => has_text(windowed(executions, window), error@),
            Ok(v) => {
                &&& executions.len() - i <= window && encode_utf8(written(v@)).len() <= 2000
                    ==> has_text(windowed(executions, window), "[SUCCESS]\nOutput: "@ + written(v@))
                &&& executions.len() - i <= window && encode_utf8(written(v@)).len() > 2000
                    ==> has_text(
                    windowed(executions, window),
                    "[SUCCESS]\nOutput: "@ + byte_prefix(written(v@), 1997) + "..."@,
                )
            },
        },
{
    let text = windowed(executions, window);
    let e = executions[i];
    let step = (i + 1) as nat;
    if i < earlier_count(executions.len(), window) {
        window_holds_line(executions, window, i);
        line_names_tool(step, e);
        found_by_way(text, step_line(step, e), e.action.tool_name@);
        if let Err(error) = e.result {
            found_by_way(text, step_line(step, e), error@);
        }
    } else {
        window_holds_part(executions, window, i);
        part_shows_result(step, e);
        let part = step_part(step, e);
        found_by_way(text, part, e.action.tool_name@);
        match e.result {
            Err(error) => {
                let told = "[FAILED]\nError: "@ + error@;
                found_by_way(text, part, told);
                end_is_found("[FAILED]\nError: "@, error@);
                found_by_way(text, told, error@);
            },
            Ok(v) => {
                found_by_way(text, part, "[SUCCESS]\nOutput: "@ + shortened(written(v@), 2000, 1997));
                assert("[SUCCESS]\nOutput: "@ + (byte_prefix(written(v@), 1997) + "..."@)
                    =~= "[SUCCESS]\nOutput: "@ + byte_prefix(written(v@), 1997) + "..."@);
            },
        }
    }
}

proof fn window_holds_line(executions: Seq<ActionExecution>, window: u32, i: int)
    requires
        0 <= i < earlier_count(executions.len(), window),
    ensures
        has_text(windowed(executions, window), step_line((i + 1) as nat, executions[i])),
{
    let earlier = earlier_count(executions.len(), window);
    let text = windowed(executions, window);
    let lines = step_lines(executions, earlier);
    let front = "## Tool Results\n\n"@ + "### Earlier Steps\n"@;
    let rest = "\n"@ + step_parts(executions, earlier, executions.len() as int);
    lines_hold_line(executions, earlier, i);
    assert(front + lines + rest =~= text);
    found_in_longer(front, lines, rest, step_line((i + 1) as nat, executions[i]));
}

proof fn window_holds_part(executions: Seq<ActionExecution>, window: u32, i: int)
    requires
        earlier_count(executions.len(), window) <= i < executions.len(),
    ensures
        has_text(windowed(executions, window), step_part((i + 1) as nat, executions[i])),
{
    let n = executions.len() as int;
    let earlier = earlier_count(executions.len(), window);
    let text = windowed(executions, window);
    let parts = step_parts(executions, earlier, n);
    let front = text.subrange(0, text.len() - parts.len());
    parts_hold_part(executions, earlier, n, i);
    assert(front + parts + Seq::<char>::empty() =~= text);
    found_in_longer(front, parts, Seq::empty(), step_part((i + 1) as nat, executions[i]));
}

/// The results come in the order of the executions, each behind those in front of it: with
/// one more execution that still fits into the window, the text grows at its end.
pub proof fn results_come_in_order(executions: Seq<ActionExecution>, e: ActionExecution, window: u32)
    requires
        0 < executions.len() < window,
    ensures
        windowed(executions, window).is_prefix_of(windowed(executions.push(e), window)),
        ({
            let before = windowed(executions, window);
            let after = windowed(executions.push(e), window);
            has_text(after.subrange(before.len() as int, after.len() as int), e.action.tool_name@)
        }),
{
    let n = executions.len() as int;
    let more = executions.push(e);
    parts_do_not_look_ahead(executions, e, n);
    let before = windowed(executions, window);
    let after = windowed(more, window);
    let part = step_part((n + 1) as nat, e);
    assert(step_parts(more, 0, n + 1) == step_parts(more, 0, n) + part);
    assert(after =~= before + part);
    assert(after.subrange(before.len() as int, after.len() as int) =~= part);
    part_shows_result((n + 1) as nat, e);
}

proof fn parts_do_not_look_ahead(executions: Seq<ActionExecution>, e: ActionExecution, n: int)
    requires
        0 <= n <= executions.len(),
    ensures
        step_parts(executions.push(e), 0, n) == step_parts(executions, 0, n),
    decreases n,
{
    if n > 0 {
        parts_do_not_look_ahead(executions, e, n - 1);
    }
}

} // verus!
