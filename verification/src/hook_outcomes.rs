use vstd::prelude::*;

use crate::hook_types::{HookPreToolUseDecision, HookResult};
use crate::text::{from_utf8_lossy, lossy_utf8, trim, trim_ws};

verus! {

/// The program and its arguments for a hook command line; `None` when the
/// line is empty or its program is the empty string.
pub open spec fn spec_command_parts(argv: Seq<String>) -> Option<(String, Seq<String>)> {
    if argv.len() == 0 || argv[0]@.len() == 0 {
        None
    } else {
        Some((argv[0], argv.drop_first()))
    }
}

/// Splits a hook's argv into program and arguments, as the hook runner does
/// before it spawns the program.
pub fn hook_command_parts(argv: &Vec<String>) -> (r: Option<(String, Vec<String>)>)
    ensures
        r matches Some((p, a)) ==> spec_command_parts(argv@) == Some((p, a@)),
        r is None ==> spec_command_parts(argv@) is None,
{
    if argv.len() == 0 {
        return None;
    }
    let program = argv[0].clone();
    if program.as_str().unicode_len() == 0 {
        return None;
    }
    let mut args: Vec<String> = Vec::new();
    let mut i: usize = 1;
    while i < argv.len()
        invariant
            1 <= i <= argv@.len(),
            args@ =~= argv@.subrange(1, i as int),
        decreases argv@.len() - i,
    {
        args.push(argv[i].clone());
        i = i + 1;
    }
    assert(args@ =~= argv@.drop_first());
    Some((program, args))
}

/// The program and arguments a hook runs with: its configured command line
/// with the payload JSON appended as the final argument; `None` when the
/// command line has no program.
pub fn hook_invocation(argv: &Vec<String>, payload_json: String) -> (r: Option<(String, Vec<String>)>)
    ensures
        r is None <==> spec_command_parts(argv@) is None,
        r matches Some((p, a)) ==> spec_command_parts(argv@) matches Some((q, rest)) && p == q
            && a@ == rest.push(payload_json),
{
    match hook_command_parts(argv) {
        Some((program, args)) => {
            let mut args = args;
            args.push(payload_json);
            Some((program, args))
        },
        None => None,
    }
}

/// Every hook receives the payload as its last argument, after the
/// arguments it was configured with.
pub proof fn law_payload_is_final_argument(argv: Seq<String>, payload_json: String)
    requires
        spec_command_parts(argv) is Some,
    ensures
        ({
            let (program, rest) = spec_command_parts(argv)->0;
            &&& program == argv[0]
            &&& rest.push(payload_json).last() == payload_json
            &&& rest.push(payload_json).len() == argv.len()
            &&& forall|i: int| 1 <= i < argv.len() ==> rest.push(payload_json)[i - 1] == argv[i]
        }),
{
}

/// What a hook's finished process calls for next.
#[derive(Debug, Clone, PartialEq, Eq)]
pub enum HookOutputStep {
    /// The process failed; the hook failed with this message.
    Failed(String),
    /// The process succeeded and printed nothing but whitespace.
    Empty,
    /// The process succeeded; this trimmed text is to be read as JSON.
    Json(String),
}

pub open spec fn failed_exit_message(label: Seq<char>, status: Seq<char>, stderr: Seq<u8>) -> Seq<char> {
    label + " hook exited with status "@ + status + ": "@ + trim_ws(lossy_utf8(stderr))
}

pub open spec fn spec_classify_output(
    label: Seq<char>,
    exited_successfully: bool,
    status: Seq<char>,
    stdout: Seq<u8>,
    stderr: Seq<u8>,
) -> HookOutputStepView {
    if !exited_successfully {
        HookOutputStepView::Failed(failed_exit_message(label, status, stderr))
    } else if trim_ws(lossy_utf8(stdout)).len() == 0 {
        HookOutputStepView::Empty
    } else {
        HookOutputStepView::Json(trim_ws(lossy_utf8(stdout)))
    }
}

pub enum HookOutputStepView {
    Failed(Seq<char>),
    Empty,
    Json(Seq<char>),
}

pub open spec fn step_view(s: HookOutputStep) -> HookOutputStepView {
    match s {
        HookOutputStep::Failed(m) => HookOutputStepView::Failed(m@),
        HookOutputStep::Empty => HookOutputStepView::Empty,
        HookOutputStep::Json(t) => HookOutputStepView::Json(t@),
    }
}

/// Judges the finished process of a hook that may answer on stdout
/// (`hook_label` names the hook in the failure message, `status` is the
/// exit status as displayed).
pub fn classify_hook_output(
    hook_label: &str,
    exited_successfully: bool,
    status: &str,
    stdout: &[u8],
    stderr: &[u8],
) -> (r: HookOutputStep)
    ensures
        step_view(r) == spec_classify_output(
            hook_label@,
            exited_successfully,
            status@,
            stdout@,
            stderr@,
        ),
{
    if !exited_successfully {
        let err_text = from_utf8_lossy(stderr);
        let err_trimmed = trim(err_text.as_str());
        let mut m = String::from_str(hook_label);
        m.append(" hook exited with status ");
        m.append(status);
        m.append(": ");
        m.append(err_trimmed.as_str());
        return HookOutputStep::Failed(m);
    }
    let out_text = from_utf8_lossy(stdout);
    let out_trimmed = trim(out_text.as_str());
    if out_trimmed.as_str().unicode_len() == 0 {
        HookOutputStep::Empty
    } else {
        HookOutputStep::Json(out_trimmed)
    }
}

/// What a user-prompt-submit hook may print on stdout.
#[derive(Debug, Clone, PartialEq, Eq)]
pub struct AfterUserPromptSubmitHookResponse {
    pub append_prompt_text: Option<String>,
    pub switch_to_plan_mode: bool,
}

/// The ruling a pre-tool-use hook may print.
#[derive(Debug, Clone, Copy, PartialEq, Eq)]
pub enum PreToolUseHookDecision {
    Allow,
    Deny,
    Replace,
}

/// What a pre-tool-use hook may print on stdout.
#[derive(Debug, Clone, PartialEq, Eq)]
pub struct PreToolUseHookResponse {
    pub decision: Option<PreToolUseHookDecision>,
    pub message: Option<String>,
    pub output: Option<String>,
    pub success: Option<bool>,
}

pub open spec fn nonempty_text(t: Option<String>) -> Option<String> {
    match t {
        Some(s) => if s@.len() > 0 {
            Some(s)
        } else {
            None
        },
        None => None,
    }
}

pub open spec fn invalid_json_message(label: Seq<char>, detail: Seq<char>) -> Seq<char> {
    label + " hook returned invalid JSON on stdout: "@ + detail
}

/// The result of a user-prompt-submit hook whose stdout was read as JSON
/// (`Err` holds the parse error's message).
pub open spec fn spec_after_user_prompt_submit_result(
    parsed: Result<AfterUserPromptSubmitHookResponse, String>,
    r: HookResult,
) -> bool {
    match parsed {
        Ok(resp) => r == HookResult::SuccessWithPromptAugmentation {
            append_prompt_text: nonempty_text(resp.append_prompt_text),
            switch_to_plan_mode: resp.switch_to_plan_mode,
        },
        Err(e) => r matches HookResult::FailedContinue(m) && m@ == invalid_json_message(
            "after_user_prompt_submit"@,
            e@,
        ),
    }
}

fn keep_nonempty(t: Option<String>) -> (r: Option<String>)
    ensures
        r == nonempty_text(t),
{
    match t {
        Some(s) => if s.as_str().unicode_len() > 0 {
            Some(s)
        } else {
            None
        },
        None => None,
    }
}

pub fn after_user_prompt_submit_result(parsed: Result<AfterUserPromptSubmitHookResponse, String>) -> (r:
    HookResult)
    ensures
        spec_after_user_prompt_submit_result(parsed, r),
{
    match parsed {
        Ok(resp) => HookResult::SuccessWithPromptAugmentation {
            append_prompt_text: keep_nonempty(resp.append_prompt_text),
            switch_to_plan_mode: resp.switch_to_plan_mode,
        },
        Err(e) => {
            let mut m = String::from_str("after_user_prompt_submit");
            m.append(" hook returned invalid JSON on stdout: ");
            m.append(e.as_str());
            HookResult::FailedContinue(m)
        },
    }
}

pub open spec fn replace_without_output_message() -> Seq<char> {
    "pre_tool_use hook returned decision=replace without non-empty output"@
}

pub open spec fn default_deny_message() -> Seq<char> {
    "tool call denied by pre_tool_use hook"@
}

/// The result of a pre-tool-use hook whose stdout was read as JSON: no
/// decision or `allow` lets the call run; `deny` blocks it with the given
/// message or a default one; `replace` stands in for the tool with the given
/// output (success only when stated), and without output it is a failure.
pub open spec fn spec_pre_tool_use_result(
    parsed: Result<PreToolUseHookResponse, String>,
    r: HookResult,
) -> bool {
    match parsed {
        Ok(resp) => match resp.decision {
            None => r == HookResult::Success,
            Some(PreToolUseHookDecision::Allow) => r == HookResult::Success,
            Some(PreToolUseHookDecision::Deny) => r matches HookResult::SuccessWithPreToolUseDecision(
                HookPreToolUseDecision::Deny { message },
            ) && message@ == match nonempty_text(resp.message) {
                Some(m) => m@,
                None => default_deny_message(),
            },
            Some(PreToolUseHookDecision::Replace) => match nonempty_text(resp.output) {
                Some(out) => r == HookResult::SuccessWithPreToolUseDecision(
                    HookPreToolUseDecision::Replace {
                        output: out,
                        success: match resp.success {
                            Some(b) => b,
                            None => false,
                        },
                    },
                ),
                None => r matches HookResult::FailedContinue(m) && m@
                    == replace_without_output_message(),
            },
        },
        Err(e) => r matches HookResult::FailedContinue(m) && m@ == invalid_json_message(
            "pre_tool_use"@,
            e@,
        ),
    }
}

pub fn pre_tool_use_result(parsed: Result<PreToolUseHookResponse, String>) -> (r: HookResult)
    ensures
        spec_pre_tool_use_result(parsed, r),
{
    match parsed {
        Ok(resp) => match resp.decision {
            None => HookResult::Success,
            Some(PreToolUseHookDecision::Allow) => HookResult::Success,
            Some(PreToolUseHookDecision::Deny) => {
                let message = match keep_nonempty(resp.message) {
                    Some(m) => m,
                    None => String::from_str("tool call denied by pre_tool_use hook"),
                };
                HookResult::SuccessWithPreToolUseDecision(HookPreToolUseDecision::Deny { message })
            },
            Some(PreToolUseHookDecision::Replace) => match keep_nonempty(resp.output) {
                Some(output) => HookResult::SuccessWithPreToolUseDecision(
                    HookPreToolUseDecision::Replace {
                        output,
                        success: match resp.success {
                            Some(b) => b,
                            None => false,
                        },
                    },
                ),
                None => HookResult::FailedContinue(
                    String::from_str(
                        "pre_tool_use hook returned decision=replace without non-empty output",
                    ),
                ),
            },
        },
        Err(e) => {
            let mut m = String::from_str("pre_tool_use");
            m.append(" hook returned invalid JSON on stdout: ");
            m.append(e.as_str());
            HookResult::FailedContinue(m)
        },
    }
}

/// How a hook command that answers on stdout ended, with JSON output parsed
/// (`Err` holds the parse error's message).
#[derive(Debug)]
pub enum HookProcessReport<T> {
    /// The command line names no program, so nothing was run.
    NoProgram,
    /// The command could not be started; the message says why.
    NotStarted(String),
    /// The process failed, as `classify_hook_output` reported it.
    Failed(String),
    /// The process succeeded and printed nothing but whitespace.
    Blank,
    /// The process succeeded and its stdout was read as JSON.
    Parsed(Result<T, String>),
}

/// The result of a hook run that ended without JSON to read: a command
/// without a program and blank output succeed; a command that could not be
/// started or a failed process is a failure after which the rest goes on.
pub open spec fn spec_process_result_without_json<T>(report: HookProcessReport<T>, r: HookResult) -> bool {
    match report {
        HookProcessReport::NoProgram => r == HookResult::Success,
        HookProcessReport::NotStarted(m) => r == HookResult::FailedContinue(m),
        HookProcessReport::Failed(m) => r == HookResult::FailedContinue(m),
        HookProcessReport::Blank => r == HookResult::Success,
        HookProcessReport::Parsed(_) => false,
    }
}

/// The result of a pre-tool-use hook run.
pub open spec fn spec_pre_tool_use_hook_result(
    report: HookProcessReport<PreToolUseHookResponse>,
    r: HookResult,
) -> bool {
    match report {
        HookProcessReport::Parsed(parsed) => spec_pre_tool_use_result(parsed, r),
        _ => spec_process_result_without_json(report, r),
    }
}

/// The result of a user-prompt-submit hook run.
pub open spec fn spec_after_user_prompt_submit_hook_result(
    report: HookProcessReport<AfterUserPromptSubmitHookResponse>,
    r: HookResult,
) -> bool {
    match report {
        HookProcessReport::Parsed(parsed) => spec_after_user_prompt_submit_result(parsed, r),
        _ => spec_process_result_without_json(report, r),
    }
}

/// What a pre-tool-use hook's run amounts to. It never aborts: a hook that
/// cannot run or fails lets the tool call go on.
pub fn pre_tool_use_hook_result(report: HookProcessReport<PreToolUseHookResponse>) -> (r: HookResult)
    ensures
        spec_pre_tool_use_hook_result(report, r),
        !(r is FailedAbort),
{
    match report {
        HookProcessReport::NoProgram => HookResult::Success,
        HookProcessReport::NotStarted(m) => HookResult::FailedContinue(m),
        HookProcessReport::Failed(m) => HookResult::FailedContinue(m),
        HookProcessReport::Blank => HookResult::Success,
        HookProcessReport::Parsed(parsed) => pre_tool_use_result(parsed),
    }
}

/// What a user-prompt-submit hook's run amounts to. It never aborts: a hook
/// that cannot run or fails leaves the prompt as it was.
pub fn after_user_prompt_submit_hook_result(
    report: HookProcessReport<AfterUserPromptSubmitHookResponse>,
) -> (r: HookResult)
    ensures
        spec_after_user_prompt_submit_hook_result(report, r),
        !(r is FailedAbort),
{
    match report {
        HookProcessReport::NoProgram => HookResult::Success,
        HookProcessReport::NotStarted(m) => HookResult::FailedContinue(m),
        HookProcessReport::Failed(m) => HookResult::FailedContinue(m),
        HookProcessReport::Blank => HookResult::Success,
        HookProcessReport::Parsed(parsed) => after_user_prompt_submit_result(parsed),
    }
}

/// A parsed prompt-submit answer takes effect as written: the text to append
/// is the answer's text when that is not empty (and nothing otherwise),
/// whatever the plan-mode switch says, and the switch is passed on as given.
pub proof fn law_prompt_answer_takes_effect(resp: AfterUserPromptSubmitHookResponse, r: HookResult)
    requires
        spec_after_user_prompt_submit_result(Ok(resp), r),
    ensures
        r is SuccessWithPromptAugmentation,
        (r matches HookResult::SuccessWithPromptAugmentation { switch_to_plan_mode, .. }
            && switch_to_plan_mode == resp.switch_to_plan_mode),
        (r matches HookResult::SuccessWithPromptAugmentation { append_prompt_text, .. }
            && match resp.append_prompt_text {
            Some(t) => if t@.len() > 0 {
                append_prompt_text == Some(t)
            } else {
                append_prompt_text is None
            },
            None => append_prompt_text is None,
        }),
{
}

/// A replace ruling with output stands in with that output, and counts as a
/// success exactly when the hook said `success: true`; saying nothing or
/// `false` makes it a failed call.
pub proof fn law_replace_success_as_stated(resp: PreToolUseHookResponse, r: HookResult)
    requires
        spec_pre_tool_use_result(Ok(resp), r),
        resp.decision == Some(PreToolUseHookDecision::Replace),
        resp.output matches Some(o) && o@.len() > 0,
    ensures
        (r matches HookResult::SuccessWithPreToolUseDecision(
            HookPreToolUseDecision::Replace { output, success },
        ) && Some(output) == resp.output && success == (resp.success == Some(true))),
{
}

/// The result denies the tool call with this message.
pub open spec fn denies_with(r: HookResult, text: Seq<char>) -> bool {
    r matches HookResult::SuccessWithPreToolUseDecision(HookPreToolUseDecision::Deny { message })
        && message@ == text
}

/// The result is a failure with this message after which the rest goes on.
pub open spec fn fails_on_with(r: HookResult, text: Seq<char>) -> bool {
    r matches HookResult::FailedContinue(m) && m@ == text
}

/// What a pre-tool-use hook's parsed answer rules: no decision or `allow`
/// lets the call run; `deny` blocks it with the hook's message, or a default
/// one when the hook gave none; `replace` without output is a failure after
/// which the call goes on; an answer that did not parse is such a failure too.
/// None of them aborts.
pub proof fn law_pre_tool_use_rulings(parsed: Result<PreToolUseHookResponse, String>, r: HookResult)
    requires
        spec_pre_tool_use_result(parsed, r),
    ensures
        !(r is FailedAbort),
        !(r is SuccessWithPromptAugmentation),
        (match parsed {
            Ok(resp) => {
                &&& (resp.decision is None || resp.decision == Some(PreToolUseHookDecision::Allow))
                    ==> r == HookResult::Success
                &&& resp.decision == Some(PreToolUseHookDecision::Deny) ==> denies_with(
                    r,
                    match resp.message {
                        Some(m) => if m@.len() > 0 {
                            m@
                        } else {
                            "tool call denied by pre_tool_use hook"@
                        },
                        None => "tool call denied by pre_tool_use hook"@,
                    },
                )
                &&& resp.decision == Some(PreToolUseHookDecision::Replace) && (resp.output is None
                    || resp.output.unwrap()@.len() == 0) ==> fails_on_with(
                    r,
                    "pre_tool_use hook returned decision=replace without non-empty output"@,
                )
            },
            Err(e) => fails_on_with(r, "pre_tool_use"@ + " hook returned invalid JSON on stdout: "@ + e@),
        }),
{
}

/// A prompt-submit answer that did not parse is a failure after which the
/// prompt goes on unchanged; it never aborts.
pub proof fn law_prompt_answer_parse_failure(parsed: Result<AfterUserPromptSubmitHookResponse, String>, r: HookResult)
    requires
        spec_after_user_prompt_submit_result(parsed, r),
    ensures
        !(r is FailedAbort),
        (match parsed {
            Ok(_) => r is SuccessWithPromptAugmentation,
            Err(e) => fails_on_with(
                r,
                "after_user_prompt_submit"@ + " hook returned invalid JSON on stdout: "@ + e@,
            ),
        }),
{
}

} // verus!
