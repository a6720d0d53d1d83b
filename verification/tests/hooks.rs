use codex_hooks_core::hook_outcomes::{
    after_user_prompt_submit_hook_result, after_user_prompt_submit_result, classify_hook_output,
    hook_command_parts, hook_invocation, pre_tool_use_hook_result, pre_tool_use_result,
    AfterUserPromptSubmitHookResponse, HookOutputStep, HookProcessReport, PreToolUseHookDecision,
    PreToolUseHookResponse,
};
use codex_hooks_core::hook_types::{
    HookEventKind, HookPreToolUseDecision, HookResponse, HookResult,
};
use codex_hooks_core::hooks_registry::{HookDispatchRun, HookRunner, Hooks, HooksConfig};

fn argvs(lines: &[&[&str]]) -> Option<Vec<Vec<String>>> {
    Some(
        lines
            .iter()
            .map(|line| line.iter().map(|s| s.to_string()).collect())
            .collect(),
    )
}

#[test]
fn hooks_config_preserves_multiple_commands_for_same_event() {
    let hooks = Hooks::new(HooksConfig {
        turn_completed_argv: argvs(&[&["/bin/echo", "first"], &["/bin/echo", "second"]]),
        ..HooksConfig::default()
    });

    assert_eq!(hooks.turn_completed.len(), 2);
    assert_eq!(hooks.turn_completed[0].hook_name(), Some("turn_completed"));
    assert_eq!(hooks.turn_completed[1].hook_name(), Some("turn_completed"));
}

#[test]
fn hooks_config_preserves_multiple_commands_for_plan_finalized() {
    let hooks = Hooks::new(HooksConfig {
        plan_finalized_argv: argvs(&[&["/bin/echo", "first"], &["/bin/echo", "second"]]),
        ..HooksConfig::default()
    });

    assert_eq!(hooks.plan_finalized.len(), 2);
    assert_eq!(hooks.plan_finalized[0].hook_name(), Some("plan_finalized"));
    assert_eq!(hooks.plan_finalized[1].hook_name(), Some("plan_finalized"));
}

#[test]
fn hooks_config_preserves_multiple_commands_for_plan_implementation_completed() {
    let hooks = Hooks::new(HooksConfig {
        plan_implementation_completed_argv: argvs(&[
            &["/bin/echo", "first"],
            &["/bin/echo", "second"],
        ]),
        ..HooksConfig::default()
    });

    assert_eq!(hooks.plan_implementation_completed.len(), 2);
    assert_eq!(
        hooks.plan_implementation_completed[0].hook_name(),
        Some("plan_implementation_completed")
    );
    assert_eq!(
        hooks.plan_implementation_completed[1].hook_name(),
        Some("plan_implementation_completed")
    );
}

#[test]
fn hooks_config_drops_commands_without_a_program() {
    let hooks = Hooks::new(HooksConfig {
        pre_tool_use_argv: argvs(&[&[], &["", "x"], &["/bin/check", "a"]]),
        legacy_notify_argv: argvs(&[&["notify-send", "Codex"]]),
        ..HooksConfig::default()
    });
    assert_eq!(hooks.pre_tool_use.len(), 1);
    assert_eq!(hooks.pre_tool_use[0].runner, HookRunner::PreToolUse);
    assert_eq!(hooks.pre_tool_use[0].argv, vec!["/bin/check".to_string(), "a".to_string()]);
    assert_eq!(hooks.pre_tool_use[0].hook_name(), Some("pre_tool_use"));
    assert_eq!(hooks.after_agent.len(), 1);
    assert_eq!(hooks.after_agent[0].runner, HookRunner::LegacyNotify);
    assert_eq!(hooks.after_agent[0].hook_name(), None);
    assert!(hooks.commands_for(HookEventKind::TurnStarted).is_empty());
    assert_eq!(hooks.commands_for(HookEventKind::PreToolUse).len(), 1);
}

fn response(name: &str, result: HookResult) -> HookResponse {
    HookResponse { hook_name: name.to_string(), result }
}

fn run_all(results: Vec<(&str, HookResult)>) -> Vec<HookResponse> {
    let mut run = HookDispatchRun::new(results.len());
    while let Some(i) = run.next_hook() {
        let (name, result) = &results[i];
        run.record(response(name, result.clone()));
    }
    run.into_outcomes()
}

#[test]
fn dispatch_runs_all_hooks_for_event_in_order() {
    let outcomes = run_all(vec![
        ("first", HookResult::Success),
        ("second", HookResult::Success),
        ("third", HookResult::Success),
    ]);
    assert_eq!(outcomes.len(), 3);
    assert_eq!(outcomes[0].hook_name, "first");
    assert_eq!(outcomes[1].hook_name, "second");
    assert_eq!(outcomes[2].hook_name, "third");
}

#[test]
fn dispatch_stops_after_failed_abort() {
    let outcomes = run_all(vec![
        ("first", HookResult::Success),
        ("aborter", HookResult::FailedAbort("stop".to_string())),
        ("third", HookResult::Success),
    ]);
    assert_eq!(outcomes.len(), 2);
    assert_eq!(outcomes[0].hook_name, "first");
    assert_eq!(outcomes[1].hook_name, "aborter");
    assert!(matches!(outcomes[1].result, HookResult::FailedAbort(_)));
}

#[test]
fn dispatch_continues_after_failed_continue() {
    let outcomes = run_all(vec![
        ("first", HookResult::Success),
        ("continue-on-error", HookResult::FailedContinue("keep going".to_string())),
        ("third", HookResult::Success),
    ]);
    assert_eq!(outcomes.len(), 3);
    assert!(matches!(outcomes[1].result, HookResult::FailedContinue(_)));
}

#[test]
fn dispatch_uses_plan_finalized_hooks_for_plan_finalized_event() {
    let hooks = Hooks::new(HooksConfig {
        plan_finalized_argv: argvs(&[&["/bin/plan-hook"]]),
        turn_completed_argv: argvs(&[&["/bin/turn-hook"]]),
        ..HooksConfig::default()
    });
    let planned = hooks.commands_for(HookEventKind::PlanFinalized);
    assert_eq!(planned.len(), 1);
    assert_eq!(planned[0].argv, vec!["/bin/plan-hook".to_string()]);
    assert_eq!(planned[0].hook_name(), Some("plan_finalized"));
}

#[test]
fn hook_result_accessors() {
    let aug = HookResult::SuccessWithPromptAugmentation {
        append_prompt_text: Some("extra".to_string()),
        switch_to_plan_mode: true,
    };
    assert_eq!(aug.appended_user_prompt(), Some("extra"));
    assert!(aug.switch_to_plan_mode());
    assert!(!aug.should_abort_operation());
    assert!(HookResult::FailedAbort("x".to_string()).should_abort_operation());
    assert!(!HookResult::FailedContinue("x".to_string()).should_abort_operation());
    assert_eq!(HookResult::Success.appended_user_prompt(), None);
    assert!(!HookResult::Success.switch_to_plan_mode());
}

#[test]
fn event_type_names_are_snake_case_tags() {
    assert_eq!(HookEventKind::AfterModelResponseCompleted.event_type_name(), "after_model_response_completed");
    assert_eq!(HookEventKind::PostToolUseSuccess.event_type_name(), "post_tool_use_success");
    assert_eq!(HookEventKind::AfterAgent.event_type_name(), "after_agent");
}

#[test]
fn hook_command_parts_splits_program_and_arguments() {
    let argv = vec!["python3".to_string(), "hook.py".to_string(), "-v".to_string()];
    assert_eq!(
        hook_command_parts(&argv),
        Some(("python3".to_string(), vec!["hook.py".to_string(), "-v".to_string()]))
    );
    assert_eq!(hook_command_parts(&vec![]), None);
    assert_eq!(hook_command_parts(&vec![String::new(), "x".to_string()]), None);
}

#[test]
fn hook_output_classification() {
    assert_eq!(
        classify_hook_output("pre_tool_use", false, "exit status: 2", b"", b"  boom \n"),
        HookOutputStep::Failed("pre_tool_use hook exited with status exit status: 2: boom".to_string())
    );
    assert_eq!(classify_hook_output("pre_tool_use", true, "", b" \n\t", b"err"), HookOutputStep::Empty);
    assert_eq!(
        classify_hook_output("pre_tool_use", true, "", b"  {\"decision\":\"allow\"}\n", b""),
        HookOutputStep::Json("{\"decision\":\"allow\"}".to_string())
    );
}

#[test]
fn after_user_prompt_submit_results() {
    assert_eq!(
        after_user_prompt_submit_result(Ok(AfterUserPromptSubmitHookResponse {
            append_prompt_text: Some(String::new()),
            switch_to_plan_mode: true,
        })),
        HookResult::SuccessWithPromptAugmentation { append_prompt_text: None, switch_to_plan_mode: true }
    );
    assert_eq!(
        after_user_prompt_submit_result(Ok(AfterUserPromptSubmitHookResponse {
            append_prompt_text: Some("Remember to keep API compatibility.".to_string()),
            switch_to_plan_mode: false,
        })),
        HookResult::SuccessWithPromptAugmentation {
            append_prompt_text: Some("Remember to keep API compatibility.".to_string()),
            switch_to_plan_mode: false
        }
    );
    assert_eq!(
        after_user_prompt_submit_result(Err("expected value".to_string())),
        HookResult::FailedContinue(
            "after_user_prompt_submit hook returned invalid JSON on stdout: expected value".to_string()
        )
    );
}

fn pre(decision: Option<PreToolUseHookDecision>, message: Option<&str>, output: Option<&str>, success: Option<bool>) -> PreToolUseHookResponse {
    PreToolUseHookResponse {
        decision,
        message: message.map(str::to_string),
        output: output.map(str::to_string),
        success,
    }
}

#[test]
fn pre_tool_use_results() {
    assert_eq!(pre_tool_use_result(Ok(pre(None, Some("x"), None, None))), HookResult::Success);
    assert_eq!(
        pre_tool_use_result(Ok(pre(Some(PreToolUseHookDecision::Allow), None, None, None))),
        HookResult::Success
    );
    assert_eq!(
        pre_tool_use_result(Ok(pre(Some(PreToolUseHookDecision::Deny), Some("blocked by hook"), None, None))),
        HookResult::SuccessWithPreToolUseDecision(HookPreToolUseDecision::Deny {
            message: "blocked by hook".to_string()
        })
    );
    assert_eq!(
        pre_tool_use_result(Ok(pre(Some(PreToolUseHookDecision::Deny), Some(""), None, None))),
        HookResult::SuccessWithPreToolUseDecision(HookPreToolUseDecision::Deny {
            message: "tool call denied by pre_tool_use hook".to_string()
        })
    );
    assert_eq!(
        pre_tool_use_result(Ok(pre(Some(PreToolUseHookDecision::Replace), None, Some("synthetic tool result"), Some(true)))),
        HookResult::SuccessWithPreToolUseDecision(HookPreToolUseDecision::Replace {
            output: "synthetic tool result".to_string(),
            success: true
        })
    );
    assert_eq!(
        pre_tool_use_result(Ok(pre(Some(PreToolUseHookDecision::Replace), None, Some("out"), None))),
        HookResult::SuccessWithPreToolUseDecision(HookPreToolUseDecision::Replace {
            output: "out".to_string(),
            success: false
        })
    );
    assert_eq!(
        pre_tool_use_result(Ok(pre(Some(PreToolUseHookDecision::Replace), None, Some(""), Some(true)))),
        HookResult::FailedContinue(
            "pre_tool_use hook returned decision=replace without non-empty output".to_string()
        )
    );
    assert_eq!(
        pre_tool_use_result(Err("bad".to_string())),
        HookResult::FailedContinue("pre_tool_use hook returned invalid JSON on stdout: bad".to_string())
    );
}

#[test]
fn default_hooks_have_no_commands() {
    let hooks = Hooks::default();
    assert!(hooks.commands_for(HookEventKind::AfterAgent).is_empty());
    assert!(hooks.commands_for(HookEventKind::PreToolUse).is_empty());
    assert!(!hooks.feature_enabled);
    assert!(hooks.engine_shell.program.is_empty());
}

#[test]
fn hook_output_with_invalid_utf8_is_read_lossily() {
    assert_eq!(
        classify_hook_output("pre_tool_use", false, "exit status: 1", b"", b"bad \xff byte"),
        HookOutputStep::Failed(
            "pre_tool_use hook exited with status exit status: 1: bad \u{FFFD} byte".to_string()
        )
    );
}

#[test]
fn hook_invocation_appends_payload_as_last_argument() {
    let argv = vec!["python3".to_string(), "/hook.py".to_string()];
    assert_eq!(
        hook_invocation(&argv, "{\"a\":1}".to_string()),
        Some(("python3".to_string(), vec!["/hook.py".to_string(), "{\"a\":1}".to_string()]))
    );
    assert_eq!(hook_invocation(&vec!["".to_string()], "{}".to_string()), None);
}

#[test]
fn pre_tool_use_hook_run_failures_continue_and_blank_output_succeeds() {
    assert_eq!(pre_tool_use_hook_result(HookProcessReport::NoProgram), HookResult::Success);
    assert_eq!(pre_tool_use_hook_result(HookProcessReport::Blank), HookResult::Success);
    assert_eq!(
        pre_tool_use_hook_result(HookProcessReport::NotStarted("no such file".to_string())),
        HookResult::FailedContinue("no such file".to_string())
    );
    let step = classify_hook_output("pre_tool_use", false, "exit status: 3", b"", b" boom \n");
    let message = match step {
        HookOutputStep::Failed(m) => m,
        other => panic!("unexpected {other:?}"),
    };
    assert_eq!(
        pre_tool_use_hook_result(HookProcessReport::Failed(message)),
        HookResult::FailedContinue("pre_tool_use hook exited with status exit status: 3: boom".to_string())
    );
    assert_eq!(
        pre_tool_use_hook_result(HookProcessReport::Parsed(Err("expected value".to_string()))),
        HookResult::FailedContinue(
            "pre_tool_use hook returned invalid JSON on stdout: expected value".to_string()
        )
    );
    assert_eq!(
        pre_tool_use_hook_result(HookProcessReport::Parsed(Ok(pre(
            Some(PreToolUseHookDecision::Allow),
            None,
            None,
            None
        )))),
        HookResult::Success
    );
    assert_eq!(
        pre_tool_use_hook_result(HookProcessReport::Parsed(Ok(pre(
            Some(PreToolUseHookDecision::Deny),
            Some("no"),
            None,
            None
        )))),
        HookResult::SuccessWithPreToolUseDecision(HookPreToolUseDecision::Deny {
            message: "no".to_string()
        })
    );
}

#[test]
fn prompt_submit_hook_run_failures_continue_and_blank_output_succeeds() {
    assert_eq!(after_user_prompt_submit_hook_result(HookProcessReport::NoProgram), HookResult::Success);
    assert_eq!(after_user_prompt_submit_hook_result(HookProcessReport::Blank), HookResult::Success);
    assert_eq!(
        after_user_prompt_submit_hook_result(HookProcessReport::NotStarted("denied".to_string())),
        HookResult::FailedContinue("denied".to_string())
    );
    assert_eq!(
        after_user_prompt_submit_hook_result(HookProcessReport::Failed("exit 1".to_string())),
        HookResult::FailedContinue("exit 1".to_string())
    );
    assert_eq!(
        after_user_prompt_submit_hook_result(HookProcessReport::Parsed(Err("unknown field `x`".to_string()))),
        HookResult::FailedContinue(
            "after_user_prompt_submit hook returned invalid JSON on stdout: unknown field `x`".to_string()
        )
    );
    assert_eq!(
        after_user_prompt_submit_hook_result(HookProcessReport::Parsed(Ok(
            AfterUserPromptSubmitHookResponse { append_prompt_text: Some(String::new()), switch_to_plan_mode: true }
        ))),
        HookResult::SuccessWithPromptAugmentation { append_prompt_text: None, switch_to_plan_mode: true }
    );
}
