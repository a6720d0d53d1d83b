use codex_hooks_core::hook_types::{HookResponse, HookResult, HookPreToolUseDecision, HookToolInput, HookToolKind};
use codex_hooks_core::tool_dispatch::{
    pre_tool_use_outcome, tool_hook_abort_error, PreToolShortCircuit, ToolCallAction,
    ToolCallEvent, ToolCallFlow, ToolCallOutcome, ToolHookContext, ToolHookEvent,
};
use codex_hooks_core::tool_registry::{
    hook_tool_input, sandbox_policy_tag, unsupported_tool_call_message, FunctionCallError,
    SandboxPolicy, ShellToolCallParams, ToolHandler, ToolKind, ToolPayload, ToolRegistryBuilder,
};

#[derive(Debug, PartialEq)]
struct TestHandler {
    kind: ToolKind,
    id: u32,
}

impl ToolHandler for TestHandler {
    fn spec_kind(&self) -> ToolKind {
        self.kind
    }

    fn kind(&self) -> ToolKind {
        self.kind
    }
}

fn function_payload() -> ToolPayload {
    ToolPayload::Function { arguments: "{}".to_string() }
}

#[test]
fn builder_keeps_specs_in_order_and_last_handler_per_name() {
    let mut builder: ToolRegistryBuilder<&str, TestHandler> = ToolRegistryBuilder::new();
    builder.push_spec("shell");
    builder.push_spec_with_parallel_support("read_file", true);
    assert!(!builder.register_handler("shell".to_string(), TestHandler { kind: ToolKind::Function, id: 1 }));
    assert!(!builder.register_handler("mcp".to_string(), TestHandler { kind: ToolKind::Mcp, id: 2 }));
    assert!(builder.register_handler("shell".to_string(), TestHandler { kind: ToolKind::Function, id: 3 }));
    let (specs, registry) = builder.build();
    assert_eq!(specs.len(), 2);
    assert_eq!(specs[0].spec, "shell");
    assert!(!specs[0].supports_parallel_tool_calls);
    assert_eq!(specs[1].spec, "read_file");
    assert!(specs[1].supports_parallel_tool_calls);
    assert_eq!(registry.handler("shell").map(|h| h.id), Some(3));
    assert_eq!(registry.handler("mcp").map(|h| h.id), Some(2));
    assert!(registry.handler("missing").is_none());
}

#[test]
fn builder_interleaving_keeps_duplicate_specs_and_last_registrations() {
    let mut builder: ToolRegistryBuilder<&str, TestHandler> = ToolRegistryBuilder::new();
    builder.register_handler("a".to_string(), TestHandler { kind: ToolKind::Function, id: 1 });
    builder.push_spec_with_parallel_support("x", true);
    builder.register_handler("b".to_string(), TestHandler { kind: ToolKind::Mcp, id: 2 });
    builder.push_spec("x");
    builder.register_handler("a".to_string(), TestHandler { kind: ToolKind::Function, id: 4 });
    builder.push_spec_with_parallel_support("y", false);
    let (specs, registry) = builder.build();
    let got: Vec<(&str, bool)> =
        specs.iter().map(|s| (s.spec, s.supports_parallel_tool_calls)).collect();
    assert_eq!(got, vec![("x", true), ("x", false), ("y", false)]);
    assert_eq!(registry.handler("a").map(|h| h.id), Some(4));
    assert_eq!(registry.handler("b").map(|h| h.id), Some(2));
    assert!(registry.handler("x").is_none());
}

#[test]
fn routing_reports_unknown_tools_and_mismatched_payloads() {
    let mut builder: ToolRegistryBuilder<(), TestHandler> = ToolRegistryBuilder::new();
    builder.register_handler("shell".to_string(), TestHandler { kind: ToolKind::Function, id: 1 });
    let (_, registry) = builder.build();
    assert_eq!(registry.route("shell", &function_payload()).map(|h| h.id), Ok(1));
    assert_eq!(
        registry.route("nope", &function_payload()).map(|h| h.id),
        Err(FunctionCallError::RespondToModel("unsupported call: nope".to_string()))
    );
    assert_eq!(
        registry.route("nope", &ToolPayload::Custom { input: "x".to_string() }).map(|h| h.id),
        Err(FunctionCallError::RespondToModel("unsupported custom tool call: nope".to_string()))
    );
    let mcp = ToolPayload::Mcp { server: "s".to_string(), tool: "t".to_string(), raw_arguments: "{}".to_string() };
    assert_eq!(
        registry.route("shell", &mcp).map(|h| h.id),
        Err(FunctionCallError::Fatal("tool shell invoked with incompatible payload".to_string()))
    );
    assert!(TestHandler { kind: ToolKind::Mcp, id: 0 }.matches_kind(&mcp));
    assert!(!TestHandler { kind: ToolKind::Mcp, id: 0 }.matches_kind(&function_payload()));
}

#[test]
fn tags_and_messages() {
    assert_eq!(sandbox_policy_tag(&SandboxPolicy::ReadOnly), "read-only");
    assert_eq!(sandbox_policy_tag(&SandboxPolicy::WorkspaceWrite), "workspace-write");
    assert_eq!(sandbox_policy_tag(&SandboxPolicy::DangerFullAccess), "danger-full-access");
    assert_eq!(sandbox_policy_tag(&SandboxPolicy::ExternalSandbox), "external-sandbox");
    assert_eq!(
        unsupported_tool_call_message(&function_payload(), "x"),
        "unsupported call: x"
    );
}

#[test]
fn hook_tool_input_mirrors_payload() {
    let params = ShellToolCallParams {
        command: vec!["cargo".to_string(), "fmt".to_string()],
        workdir: Some("codex-rs".to_string()),
        timeout_ms: Some(60_000),
        sandbox_permissions: Some("use_default".to_string()),
        prefix_rule: None,
        justification: None,
    };
    match hook_tool_input(&ToolPayload::LocalShell { params }) {
        HookToolInput::LocalShell { params } => {
            assert_eq!(params.command, vec!["cargo".to_string(), "fmt".to_string()]);
            assert_eq!(params.workdir.as_deref(), Some("codex-rs"));
            assert_eq!(params.timeout_ms, Some(60_000));
            assert_eq!(params.sandbox_permissions.as_deref(), Some("use_default"));
        }
        other => panic!("unexpected input {other:?}"),
    }
    assert_eq!(
        hook_tool_input(&ToolPayload::Mcp { server: "s".to_string(), tool: "t".to_string(), raw_arguments: "a".to_string() }),
        HookToolInput::Mcp { server: "s".to_string(), tool: "t".to_string(), arguments: "a".to_string() }
    );
}

fn resp(name: &str, result: HookResult) -> HookResponse {
    HookResponse { hook_name: name.to_string(), result }
}

#[test]
fn pre_tool_use_outcome_takes_first_ruling() {
    let outcomes = vec![
        resp("a", HookResult::FailedContinue("meh".to_string())),
        resp("b", HookResult::SuccessWithPreToolUseDecision(HookPreToolUseDecision::Deny { message: "no".to_string() })),
        resp("c", HookResult::FailedAbort("late".to_string())),
    ];
    assert_eq!(
        pre_tool_use_outcome(&outcomes),
        Ok(Some(PreToolShortCircuit { output_text: "no".to_string(), success: false }))
    );
    let aborting = vec![resp("guard", HookResult::FailedAbort("boom".to_string()))];
    assert_eq!(
        pre_tool_use_outcome(&aborting),
        Err("pre_tool_use hook 'guard' failed and aborted operation: boom".to_string())
    );
    assert_eq!(pre_tool_use_outcome(&vec![resp("a", HookResult::Success)]), Ok(None));
    assert_eq!(
        tool_hook_abort_error("tool_failure", &aborting),
        Some("tool_failure hook 'guard' failed and aborted operation: boom".to_string())
    );
    assert_eq!(tool_hook_abort_error("tool_failure", &vec![resp("a", HookResult::Success)]), None);
}

fn context() -> ToolHookContext {
    ToolHookContext {
        turn_id: "turn-2".to_string(),
        call_id: "call-1".to_string(),
        tool_name: "shell_command".to_string(),
        tool_input: HookToolInput::Function { arguments: "{}".to_string() },
        mutating: true,
        sandbox: "none".to_string(),
        sandbox_policy: "danger-full-access".to_string(),
    }
}

#[test]
fn flow_for_a_tool_that_runs_and_succeeds() {
    let (mut flow, action) = ToolCallFlow::start(context());
    match action {
        ToolCallAction::DispatchHooks(ToolHookEvent::PreToolUse(e)) => {
            assert_eq!(e.call_id, "call-1");
            assert_eq!(e.tool_kind, HookToolKind::Function);
        }
        other => panic!("unexpected {other:?}"),
    }
    let action = flow.step(ToolCallEvent::HooksCompleted(vec![resp("p", HookResult::Success)]));
    assert!(matches!(action, ToolCallAction::RunTool { wait_for_gate: true }));
    let action = flow.step(ToolCallEvent::ToolCompleted {
        success: true,
        output_preview: "ok".to_string(),
        duration_ms: 42,
    });
    match action {
        ToolCallAction::DispatchHooks(ToolHookEvent::AfterToolUse(e)) => {
            assert!(e.executed);
            assert!(e.success);
            assert_eq!(e.duration_ms, 42);
            assert_eq!(e.output_preview, "ok");
        }
        other => panic!("unexpected {other:?}"),
    }
    let action = flow.step(ToolCallEvent::HooksCompleted(Vec::new()));
    match action {
        ToolCallAction::DispatchHooks(ToolHookEvent::PostToolUseSuccess(e)) => {
            assert_eq!(e.output_preview, "ok");
        }
        other => panic!("unexpected {other:?}"),
    }
    let action = flow.step(ToolCallEvent::HooksCompleted(Vec::new()));
    assert!(matches!(action, ToolCallAction::Finish(ToolCallOutcome::ToolResult)));
}

#[test]
fn flow_for_a_failing_tool_reports_failure_hooks() {
    let (mut flow, _) = ToolCallFlow::start(context());
    flow.step(ToolCallEvent::HooksCompleted(Vec::new()));
    flow.step(ToolCallEvent::ToolCompleted {
        success: false,
        output_preview: "Exit code: 7".to_string(),
        duration_ms: 3,
    });
    match flow.step(ToolCallEvent::HooksCompleted(Vec::new())) {
        ToolCallAction::DispatchHooks(ToolHookEvent::ToolFailure(e)) => {
            assert_eq!(e.error_preview, "Exit code: 7");
        }
        other => panic!("unexpected {other:?}"),
    }
    let action = flow.step(ToolCallEvent::HooksCompleted(vec![resp(
        "f",
        HookResult::FailedAbort("x".to_string()),
    )]));
    match action {
        ToolCallAction::Finish(ToolCallOutcome::Failed(FunctionCallError::Fatal(m))) => {
            assert_eq!(m, "tool_failure hook 'f' failed and aborted operation: x");
        }
        other => panic!("unexpected {other:?}"),
    }
}

#[test]
fn flow_for_a_denied_tool_skips_follow_up_hooks() {
    let (mut flow, _) = ToolCallFlow::start(context());
    let action = flow.step(ToolCallEvent::HooksCompleted(vec![resp(
        "pre_tool_use",
        HookResult::SuccessWithPreToolUseDecision(HookPreToolUseDecision::Deny {
            message: "blocked by hook".to_string(),
        }),
    )]));
    match action {
        ToolCallAction::RenderShortCircuit(sc) => {
            assert_eq!(sc.output_text, "blocked by hook");
            assert!(!sc.success);
        }
        other => panic!("unexpected {other:?}"),
    }
    match flow.step(ToolCallEvent::PreviewRendered("blocked by hook".to_string())) {
        ToolCallAction::DispatchHooks(ToolHookEvent::AfterToolUse(e)) => {
            assert!(!e.executed);
            assert!(!e.success);
            assert_eq!(e.duration_ms, 0);
        }
        other => panic!("unexpected {other:?}"),
    }
    match flow.step(ToolCallEvent::HooksCompleted(Vec::new())) {
        ToolCallAction::Finish(ToolCallOutcome::ShortCircuited(sc)) => {
            assert_eq!(sc.output_text, "blocked by hook");
        }
        other => panic!("unexpected {other:?}"),
    }
}

#[test]
fn flow_fails_when_a_pre_hook_aborts() {
    let (mut flow, _) = ToolCallFlow::start(context());
    assert!(!flow.accepts(&ToolCallEvent::PreviewRendered(String::new())));
    let event = ToolCallEvent::HooksCompleted(vec![resp("g", HookResult::FailedAbort("no".to_string()))]);
    assert!(flow.accepts(&event));
    match flow.step(event) {
        ToolCallAction::Finish(ToolCallOutcome::Failed(FunctionCallError::Fatal(m))) => {
            assert_eq!(m, "pre_tool_use hook 'g' failed and aborted operation: no");
        }
        other => panic!("unexpected {other:?}"),
    }
}
