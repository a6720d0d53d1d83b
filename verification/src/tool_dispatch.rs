use vstd::prelude::*;

use crate::hook_types::{
    HookEventAfterToolUse, HookEventPostToolUseSuccess, HookEventPreToolUse, HookEventToolFailure,
    HookPreToolUseDecision, HookResponse, HookResult, HookToolInput, HookToolInputLocalShell,
    HookToolKind, hook_tool_kind, spec_hook_tool_kind,
};
use crate::hooks_registry::clone_strings;
use crate::tool_registry::{FunctionCallError, opt_strings_view};

verus! {

/// What a pre-tool-use hook put in place of the tool's output.
#[derive(Debug, Clone, PartialEq, Eq)]
pub struct PreToolShortCircuit {
    pub output_text: String,
    pub success: bool,
}

/// The message of a hook failure that aborts a tool call.
pub open spec fn abort_message(event: Seq<char>, hook_name: Seq<char>, error: Seq<char>) -> Seq<char> {
    event + " hook '"@ + hook_name + "' failed and aborted operation: "@ + error
}

/// The first hook that aborted, as an error message; `None` when none did.
pub open spec fn spec_abort_error(event: Seq<char>, outcomes: Seq<HookResponse>) -> Option<Seq<char>>
    decreases outcomes.len(),
{
    if outcomes.len() == 0 {
        None
    } else {
        match outcomes[0].result {
            HookResult::FailedAbort(e) => Some(abort_message(event, outcomes[0].hook_name@, e@)),
            _ => spec_abort_error(event, outcomes.drop_first()),
        }
    }
}

/// The pre-tool-use hooks' verdict, read in order: the first deny or
/// replace decision stands in for the tool, the first abort fails the call,
/// whichever comes first; other results are passed over.
pub open spec fn spec_pre_tool_use_outcome(outcomes: Seq<HookResponse>) -> Result<
    Option<(Seq<char>, bool)>,
    Seq<char>,
>
    decreases outcomes.len(),
{
    if outcomes.len() == 0 {
        Ok(None)
    } else {
        match outcomes[0].result {
            HookResult::SuccessWithPreToolUseDecision(HookPreToolUseDecision::Deny { message }) => Ok(
                Some((message@, false)),
            ),
            HookResult::SuccessWithPreToolUseDecision(
                HookPreToolUseDecision::Replace { output, success },
            ) => Ok(Some((output@, success))),
            HookResult::FailedAbort(e) => Err(
                abort_message("pre_tool_use"@, outcomes[0].hook_name@, e@),
            ),
            _ => spec_pre_tool_use_outcome(outcomes.drop_first()),
        }
    }
}

fn abort_text(event: &str, hook_name: &str, error: &str) -> (r: String)
    ensures
        r@ == abort_message(event@, hook_name@, error@),
{
    let mut m = String::from_str(event);
    m.append(" hook '");
    m.append(hook_name);
    m.append("' failed and aborted operation: ");
    m.append(error);
    m
}

/// The error that a tool-lifecycle event's hooks end the call with, if any.
pub fn tool_hook_abort_error(event_name: &str, outcomes: &Vec<HookResponse>) -> (r: Option<String>)
    ensures
        r matches Some(m) ==> spec_abort_error(event_name@, outcomes@) == Some(m@),
        r is None ==> spec_abort_error(event_name@, outcomes@) is None,
{
    let mut i: usize = 0;
    assert(outcomes@.skip(0) =~= outcomes@);
    while i < outcomes.len()
        invariant
            0 <= i <= outcomes@.len(),
            spec_abort_error(event_name@, outcomes@) == spec_abort_error(
                event_name@,
                outcomes@.skip(i as int),
            ),
        decreases outcomes@.len() - i,
    {
        let o = &outcomes[i];
        assert(outcomes@.skip(i as int)[0] == outcomes@[i as int]);
        assert(outcomes@.skip(i as int).drop_first() =~= outcomes@.skip(i + 1));
        match &o.result {
            HookResult::FailedAbort(e) => {
                return Some(abort_text(event_name, o.hook_name.as_str(), e.as_str()));
            },
            _ => {},
        }
        i = i + 1;
    }
    None
}

pub open spec fn short_circuit_view(o: Option<PreToolShortCircuit>) -> Option<(Seq<char>, bool)> {
    match o {
        Some(s) => Some((s.output_text@, s.success)),
        None => None,
    }
}

/// Reads the pre-tool-use hooks' responses.
pub fn pre_tool_use_outcome(outcomes: &Vec<HookResponse>) -> (r: Result<
    Option<PreToolShortCircuit>,
    String,
>)
    ensures
        r matches Ok(s) ==> spec_pre_tool_use_outcome(outcomes@) == Ok::<
            Option<(Seq<char>, bool)>,
            Seq<char>,
        >(short_circuit_view(s)),
        r matches Err(m) ==> spec_pre_tool_use_outcome(outcomes@) == Err::<
            Option<(Seq<char>, bool)>,
            Seq<char>,
        >(m@),
{
    let mut i: usize = 0;
    assert(outcomes@.skip(0) =~= outcomes@);
    while i < outcomes.len()
        invariant
            0 <= i <= outcomes@.len(),
            spec_pre_tool_use_outcome(outcomes@) == spec_pre_tool_use_outcome(
                outcomes@.skip(i as int),
            ),
        decreases outcomes@.len() - i,
    {
        let o = &outcomes[i];
        assert(outcomes@.skip(i as int)[0] == outcomes@[i as int]);
        assert(outcomes@.skip(i as int).drop_first() =~= outcomes@.skip(i + 1));
        match &o.result {
            HookResult::SuccessWithPreToolUseDecision(HookPreToolUseDecision::Deny { message }) => {
                return Ok(Some(PreToolShortCircuit { output_text: message.clone(), success: false }));
            },
            HookResult::SuccessWithPreToolUseDecision(
                HookPreToolUseDecision::Replace { output, success },
            ) => {
                return Ok(Some(PreToolShortCircuit { output_text: output.clone(), success: *success }));
            },
            HookResult::FailedAbort(e) => {
                return Err(abort_text("pre_tool_use", o.hook_name.as_str(), e.as_str()));
            },
            _ => {},
        }
        i = i + 1;
    }
    Ok(None)
}


/// The same tool input: equal fields, lists compared by their elements.
pub open spec fn same_tool_input(a: HookToolInput, b: HookToolInput) -> bool {
    match (a, b) {
        (HookToolInput::LocalShell { params: p }, HookToolInput::LocalShell { params: q }) => {
            &&& p.command@ == q.command@
            &&& p.workdir == q.workdir
            &&& p.timeout_ms == q.timeout_ms
            &&& p.sandbox_permissions == q.sandbox_permissions
            &&& opt_strings_view(p.prefix_rule) == opt_strings_view(q.prefix_rule)
            &&& p.justification == q.justification
        },
        (HookToolInput::LocalShell { .. }, _) => false,
        (_, HookToolInput::LocalShell { .. }) => false,
        _ => a == b,
    }
}

fn clone_opt(o: &Option<String>) -> (r: Option<String>)
    ensures
        r == *o,
{
    match o {
        Some(s) => Some(s.clone()),
        None => None,
    }
}

/// A copy of a tool input.
pub fn copy_tool_input(input: &HookToolInput) -> (r: HookToolInput)
    ensures
        same_tool_input(r, *input),
        spec_hook_tool_kind(r) == spec_hook_tool_kind(*input),
{
    match input {
        HookToolInput::Function { arguments } => HookToolInput::Function {
            arguments: arguments.clone(),
        },
        HookToolInput::Custom { input } => HookToolInput::Custom { input: input.clone() },
        HookToolInput::LocalShell { params } => HookToolInput::LocalShell {
            params: HookToolInputLocalShell {
                command: clone_strings(&params.command),
                workdir: clone_opt(&params.workdir),
                timeout_ms: params.timeout_ms,
                sandbox_permissions: clone_opt(&params.sandbox_permissions),
                prefix_rule: match &params.prefix_rule {
                    Some(v) => Some(clone_strings(v)),
                    None => None,
                },
                justification: clone_opt(&params.justification),
            },
        },
        HookToolInput::Mcp { server, tool, arguments } => HookToolInput::Mcp {
            server: server.clone(),
            tool: tool.clone(),
            arguments: arguments.clone(),
        },
    }
}

/// What every tool-lifecycle hook event says about the call.
#[derive(Debug)]
pub struct ToolHookContext {
    pub turn_id: String,
    pub call_id: String,
    pub tool_name: String,
    pub tool_input: HookToolInput,
    pub mutating: bool,
    pub sandbox: String,
    pub sandbox_policy: String,
}

impl ToolHookContext {
    pub fn tool_kind(&self) -> (r: HookToolKind)
        ensures
            r == spec_hook_tool_kind(self.tool_input),
    {
        hook_tool_kind(&self.tool_input)
    }
}

pub open spec fn pre_event_of(c: ToolHookContext, e: HookEventPreToolUse) -> bool {
    &&& e.turn_id == c.turn_id
    &&& e.call_id == c.call_id
    &&& e.tool_name == c.tool_name
    &&& e.tool_kind == spec_hook_tool_kind(c.tool_input)
    &&& same_tool_input(e.tool_input, c.tool_input)
    &&& e.mutating == c.mutating
    &&& e.sandbox == c.sandbox
    &&& e.sandbox_policy == c.sandbox_policy
}

pub open spec fn after_event_of(
    c: ToolHookContext,
    e: HookEventAfterToolUse,
    executed: bool,
    success: bool,
    duration_ms: u64,
    preview: String,
) -> bool {
    &&& e.turn_id == c.turn_id
    &&& e.call_id == c.call_id
    &&& e.tool_name == c.tool_name
    &&& e.tool_kind == spec_hook_tool_kind(c.tool_input)
    &&& same_tool_input(e.tool_input, c.tool_input)
    &&& e.executed == executed
    &&& e.success == success
    &&& e.duration_ms == duration_ms
    &&& e.mutating == c.mutating
    &&& e.sandbox == c.sandbox
    &&& e.sandbox_policy == c.sandbox_policy
    &&& e.output_preview == preview
}

pub open spec fn success_event_of(
    c: ToolHookContext,
    e: HookEventPostToolUseSuccess,
    duration_ms: u64,
    preview: String,
) -> bool {
    &&& e.turn_id == c.turn_id
    &&& e.call_id == c.call_id
    &&& e.tool_name == c.tool_name
    &&& e.tool_kind == spec_hook_tool_kind(c.tool_input)
    &&& same_tool_input(e.tool_input, c.tool_input)
    &&& e.duration_ms == duration_ms
    &&& e.mutating == c.mutating
    &&& e.sandbox == c.sandbox
    &&& e.sandbox_policy == c.sandbox_policy
    &&& e.output_preview == preview
}

pub open spec fn failure_event_of(
    c: ToolHookContext,
    e: HookEventToolFailure,
    duration_ms: u64,
    preview: String,
) -> bool {
    &&& e.turn_id == c.turn_id
    &&& e.call_id == c.call_id
    &&& e.tool_name == c.tool_name
    &&& e.tool_kind == spec_hook_tool_kind(c.tool_input)
    &&& same_tool_input(e.tool_input, c.tool_input)
    &&& e.duration_ms == duration_ms
    &&& e.mutating == c.mutating
    &&& e.sandbox == c.sandbox
    &&& e.sandbox_policy == c.sandbox_policy
    &&& e.error_preview == preview
}

impl ToolHookContext {
    pub fn pre_tool_use_event(&self) -> (r: HookEventPreToolUse)
        ensures
            pre_event_of(*self, r),
    {
        HookEventPreToolUse {
            turn_id: self.turn_id.clone(),
            call_id: self.call_id.clone(),
            tool_name: self.tool_name.clone(),
            tool_kind: self.tool_kind(),
            tool_input: copy_tool_input(&self.tool_input),
            mutating: self.mutating,
            sandbox: self.sandbox.clone(),
            sandbox_policy: self.sandbox_policy.clone(),
        }
    }

    pub fn after_tool_use_event(
        &self,
        executed: bool,
        success: bool,
        duration_ms: u64,
        output_preview: String,
    ) -> (r: HookEventAfterToolUse)
        ensures
            after_event_of(*self, r, executed, success, duration_ms, output_preview),
    {
        HookEventAfterToolUse {
            turn_id: self.turn_id.clone(),
            call_id: self.call_id.clone(),
            tool_name: self.tool_name.clone(),
            tool_kind: self.tool_kind(),
            tool_input: copy_tool_input(&self.tool_input),
            executed,
            success,
            duration_ms,
            mutating: self.mutating,
            sandbox: self.sandbox.clone(),
            sandbox_policy: self.sandbox_policy.clone(),
            output_preview,
        }
    }

    pub fn post_tool_use_success_event(&self, duration_ms: u64, output_preview: String) -> (r:
        HookEventPostToolUseSuccess)
        ensures
            success_event_of(*self, r, duration_ms, output_preview),
    {
        HookEventPostToolUseSuccess {
            turn_id: self.turn_id.clone(),
            call_id: self.call_id.clone(),
            tool_name: self.tool_name.clone(),
            tool_kind: self.tool_kind(),
            tool_input: copy_tool_input(&self.tool_input),
            duration_ms,
            mutating: self.mutating,
            sandbox: self.sandbox.clone(),
            sandbox_policy: self.sandbox_policy.clone(),
            output_preview,
        }
    }

    pub fn tool_failure_event(&self, duration_ms: u64, error_preview: String) -> (r:
        HookEventToolFailure)
        ensures
            failure_event_of(*self, r, duration_ms, error_preview),
    {
        HookEventToolFailure {
            turn_id: self.turn_id.clone(),
            call_id: self.call_id.clone(),
            tool_name: self.tool_name.clone(),
            tool_kind: self.tool_kind(),
            tool_input: copy_tool_input(&self.tool_input),
            duration_ms,
            mutating: self.mutating,
            sandbox: self.sandbox.clone(),
            sandbox_policy: self.sandbox_policy.clone(),
            error_preview,
        }
    }
}


/// A tool-lifecycle event to hand to the hooks.
#[derive(Debug)]
pub enum ToolHookEvent {
    PreToolUse(HookEventPreToolUse),
    AfterToolUse(HookEventAfterToolUse),
    PostToolUseSuccess(HookEventPostToolUseSuccess),
    ToolFailure(HookEventToolFailure),
}

/// Where a tool call stands.
#[derive(Debug)]
pub enum ToolCallStage {
    /// Waiting for the pre-tool-use hooks.
    AwaitingPreHooks,
    /// A hook stood in for the tool; waiting for the preview of its output.
    AwaitingPreview(PreToolShortCircuit),
    /// Waiting for the after-tool-use hooks of a call a hook stood in for.
    AwaitingShortCircuitHooks(PreToolShortCircuit),
    /// Waiting for the tool to run.
    AwaitingTool,
    /// Waiting for the after-tool-use hooks of a call the tool ran for.
    AwaitingAfterHooks { success: bool, output_preview: String, duration_ms: u64 },
    /// Waiting for the success or failure hooks.
    AwaitingFollowUpHooks { success: bool },
    /// The call is over.
    Done,
}

/// What the caller reports back.
#[derive(Debug)]
pub enum ToolCallEvent {
    /// The hooks for the last dispatched event ran, with these responses.
    HooksCompleted(Vec<HookResponse>),
    /// The preview of a stand-in output.
    PreviewRendered(String),
    /// The tool ran.
    ToolCompleted { success: bool, output_preview: String, duration_ms: u64 },
}

/// How a tool call ends.
#[derive(Debug)]
pub enum ToolCallOutcome {
    /// A hook's output stands in for the tool's.
    ShortCircuited(PreToolShortCircuit),
    /// The tool's own result stands.
    ToolResult,
    /// The call fails.
    Failed(FunctionCallError),
}

/// What the caller is to do next.
#[derive(Debug)]
pub enum ToolCallAction {
    DispatchHooks(ToolHookEvent),
    RenderShortCircuit(PreToolShortCircuit),
    /// Run the tool, after the tool gate opens when the call may mutate.
    RunTool { wait_for_gate: bool },
    Finish(ToolCallOutcome),
}

/// The hook side of a tool call: which lifecycle events reach the hooks,
/// with what, and how their responses end the call.
#[derive(Debug)]
pub struct ToolCallFlow {
    pub context: ToolHookContext,
    pub stage: ToolCallStage,
}

/// Whether the flow takes this report in its current stage.
pub open spec fn spec_accepts(stage: ToolCallStage, event: ToolCallEvent) -> bool {
    match (stage, event) {
        (ToolCallStage::AwaitingPreHooks, ToolCallEvent::HooksCompleted(_)) => true,
        (ToolCallStage::AwaitingPreview(_), ToolCallEvent::PreviewRendered(_)) => true,
        (ToolCallStage::AwaitingShortCircuitHooks(_), ToolCallEvent::HooksCompleted(_)) => true,
        (ToolCallStage::AwaitingTool, ToolCallEvent::ToolCompleted { .. }) => true,
        (ToolCallStage::AwaitingAfterHooks { .. }, ToolCallEvent::HooksCompleted(_)) => true,
        (ToolCallStage::AwaitingFollowUpHooks { .. }, ToolCallEvent::HooksCompleted(_)) => true,
        _ => false,
    }
}

pub open spec fn fails_with(a: ToolCallAction, m: Seq<char>) -> bool {
    a matches ToolCallAction::Finish(ToolCallOutcome::Failed(FunctionCallError::Fatal(e))) && e@ == m
}

/// One step of a tool call: the stage and action that follow a report.
pub open spec fn spec_step(
    c: ToolHookContext,
    stage: ToolCallStage,
    event: ToolCallEvent,
    next: ToolCallStage,
    action: ToolCallAction,
) -> bool {
    match (stage, event) {
        (ToolCallStage::AwaitingPreHooks, ToolCallEvent::HooksCompleted(o)) => match spec_pre_tool_use_outcome(o@) {
            Err(m) => next is Done && fails_with(action, m),
            Ok(Some((text, success))) => {
                &&& next matches ToolCallStage::AwaitingPreview(pending)
                &&& pending.output_text@ == text
                &&& pending.success == success
                &&& action matches ToolCallAction::RenderShortCircuit(sc)
                &&& sc.output_text@ == text
                &&& sc.success == success
            },
            Ok(None) => next is AwaitingTool && action == ToolCallAction::RunTool {
                wait_for_gate: c.mutating,
            },
        },
        (ToolCallStage::AwaitingPreview(sc), ToolCallEvent::PreviewRendered(p)) => {
            &&& next == ToolCallStage::AwaitingShortCircuitHooks(sc)
            &&& action matches ToolCallAction::DispatchHooks(ToolHookEvent::AfterToolUse(e))
            &&& after_event_of(c, e, false, sc.success, 0, p)
        },
        (ToolCallStage::AwaitingShortCircuitHooks(sc), ToolCallEvent::HooksCompleted(o)) => next is Done
            && match spec_abort_error("after_tool_use"@, o@) {
            Some(m) => fails_with(action, m),
            None => action == ToolCallAction::Finish(ToolCallOutcome::ShortCircuited(sc)),
        },
        (
            ToolCallStage::AwaitingTool,
            ToolCallEvent::ToolCompleted { success, output_preview, duration_ms },
        ) => {
            &&& next == (ToolCallStage::AwaitingAfterHooks { success, output_preview, duration_ms })
            &&& action matches ToolCallAction::DispatchHooks(ToolHookEvent::AfterToolUse(e))
            &&& after_event_of(c, e, true, success, duration_ms, output_preview)
        },
        (
            ToolCallStage::AwaitingAfterHooks { success, output_preview, duration_ms },
            ToolCallEvent::HooksCompleted(o),
        ) => match spec_abort_error("after_tool_use"@, o@) {
            Some(m) => next is Done && fails_with(action, m),
            None => {
                &&& next == (ToolCallStage::AwaitingFollowUpHooks { success })
                &&& success ==> (action matches ToolCallAction::DispatchHooks(
                    ToolHookEvent::PostToolUseSuccess(e),
                ) && success_event_of(c, e, duration_ms, output_preview))
                &&& !success ==> (action matches ToolCallAction::DispatchHooks(
                    ToolHookEvent::ToolFailure(e),
                ) && failure_event_of(c, e, duration_ms, output_preview))
            },
        },
        (ToolCallStage::AwaitingFollowUpHooks { success }, ToolCallEvent::HooksCompleted(o)) => next is Done
            && match spec_abort_error(
            if success {
                "post_tool_use_success"@
            } else {
                "tool_failure"@
            },
            o@,
        ) {
            Some(m) => fails_with(action, m),
            None => action == ToolCallAction::Finish(ToolCallOutcome::ToolResult),
        },
        _ => false,
    }
}

impl ToolCallFlow {
    /// Starts a call: the pre-tool-use hooks go first.
    pub fn start(context: ToolHookContext) -> (r: (ToolCallFlow, ToolCallAction))
        ensures
            r.0.context == context,
            r.0.stage is AwaitingPreHooks,
            r.1 matches ToolCallAction::DispatchHooks(ToolHookEvent::PreToolUse(e)),
            r.1 matches ToolCallAction::DispatchHooks(ToolHookEvent::PreToolUse(e)) ==> pre_event_of(
                context,
                e,
            ),
    {
        let event = context.pre_tool_use_event();
        (
            ToolCallFlow { context, stage: ToolCallStage::AwaitingPreHooks },
            ToolCallAction::DispatchHooks(ToolHookEvent::PreToolUse(event)),
        )
    }

    pub fn accepts(&self, event: &ToolCallEvent) -> (r: bool)
        ensures
            r == spec_accepts(self.stage, *event),
    {
        match (&self.stage, event) {
            (ToolCallStage::AwaitingPreHooks, ToolCallEvent::HooksCompleted(_)) => true,
            (ToolCallStage::AwaitingPreview(_), ToolCallEvent::PreviewRendered(_)) => true,
            (ToolCallStage::AwaitingShortCircuitHooks(_), ToolCallEvent::HooksCompleted(_)) => true,
            (ToolCallStage::AwaitingTool, ToolCallEvent::ToolCompleted { .. }) => true,
            (ToolCallStage::AwaitingAfterHooks { .. }, ToolCallEvent::HooksCompleted(_)) => true,
            (ToolCallStage::AwaitingFollowUpHooks { .. }, ToolCallEvent::HooksCompleted(_)) => true,
            _ => false,
        }
    }

    /// Takes a report and says what to do next.
    pub fn step(&mut self, event: ToolCallEvent) -> (r: ToolCallAction)
        requires
            spec_accepts(old(self).stage, event),
        ensures
            final(self).context == old(self).context,
            spec_step(old(self).context, old(self).stage, event, final(self).stage, r),
    {
        let mut stage = ToolCallStage::Done;
        std::mem::swap(&mut stage, &mut self.stage);
        match (stage, event) {
            (ToolCallStage::AwaitingPreHooks, ToolCallEvent::HooksCompleted(o)) => {
                match pre_tool_use_outcome(&o) {
                    Err(m) => ToolCallAction::Finish(
                        ToolCallOutcome::Failed(FunctionCallError::Fatal(m)),
                    ),
                    Ok(Some(sc)) => {
                        let copy = PreToolShortCircuit {
                            output_text: sc.output_text.clone(),
                            success: sc.success,
                        };
                        self.stage = ToolCallStage::AwaitingPreview(copy);
                        ToolCallAction::RenderShortCircuit(sc)
                    },
                    Ok(None) => {
                        self.stage = ToolCallStage::AwaitingTool;
                        ToolCallAction::RunTool { wait_for_gate: self.context.mutating }
                    },
                }
            },
            (ToolCallStage::AwaitingPreview(sc), ToolCallEvent::PreviewRendered(p)) => {
                let e = self.context.after_tool_use_event(false, sc.success, 0, p);
                self.stage = ToolCallStage::AwaitingShortCircuitHooks(sc);
                ToolCallAction::DispatchHooks(ToolHookEvent::AfterToolUse(e))
            },
            (ToolCallStage::AwaitingShortCircuitHooks(sc), ToolCallEvent::HooksCompleted(o)) => {
                match tool_hook_abort_error("after_tool_use", &o) {
                    Some(m) => ToolCallAction::Finish(
                        ToolCallOutcome::Failed(FunctionCallError::Fatal(m)),
                    ),
                    None => ToolCallAction::Finish(ToolCallOutcome::ShortCircuited(sc)),
                }
            },
            (
                ToolCallStage::AwaitingTool,
                ToolCallEvent::ToolCompleted { success, output_preview, duration_ms },
            ) => {
                let e = self.context.after_tool_use_event(
                    true,
                    success,
                    duration_ms,
                    output_preview.clone(),
                );
                self.stage = ToolCallStage::AwaitingAfterHooks { success, output_preview, duration_ms };
                ToolCallAction::DispatchHooks(ToolHookEvent::AfterToolUse(e))
            },
            (
                ToolCallStage::AwaitingAfterHooks { success, output_preview, duration_ms },
                ToolCallEvent::HooksCompleted(o),
            ) => {
                match tool_hook_abort_error("after_tool_use", &o) {
                    Some(m) => ToolCallAction::Finish(
                        ToolCallOutcome::Failed(FunctionCallError::Fatal(m)),
                    ),
                    None => {
                        self.stage = ToolCallStage::AwaitingFollowUpHooks { success };
                        if success {
                            let e = self.context.post_tool_use_success_event(
                                duration_ms,
                                output_preview,
                            );
                            ToolCallAction::DispatchHooks(ToolHookEvent::PostToolUseSuccess(e))
                        } else {
                            let e = self.context.tool_failure_event(duration_ms, output_preview);
                            ToolCallAction::DispatchHooks(ToolHookEvent::ToolFailure(e))
                        }
                    },
                }
            },
            (ToolCallStage::AwaitingFollowUpHooks { success }, ToolCallEvent::HooksCompleted(o)) => {
                let event_name = if success {
                    "post_tool_use_success"
                } else {
                    "tool_failure"
                };
                match tool_hook_abort_error(event_name, &o) {
                    Some(m) => ToolCallAction::Finish(
                        ToolCallOutcome::Failed(FunctionCallError::Fatal(m)),
                    ),
                    None => ToolCallAction::Finish(ToolCallOutcome::ToolResult),
                }
            },
            (stage, _) => {
                self.stage = stage;
                ToolCallAction::Finish(ToolCallOutcome::ToolResult)
            },
        }
    }
}


/// A hook that aborts ends the call: whenever some response aborts, the
/// lifecycle event yields an error, and it names the first aborting hook.
pub proof fn law_abort_is_reported(event: Seq<char>, outcomes: Seq<HookResponse>, i: int)
    requires
        0 <= i < outcomes.len(),
        outcomes[i].result is FailedAbort,
        forall|j: int| 0 <= j < i ==> !(#[trigger] outcomes[j].result is FailedAbort),
    ensures
        spec_abort_error(event, outcomes) == Some(
            abort_message(event, outcomes[i].hook_name@, outcomes[i].result->FailedAbort_0@),
        ),
    decreases i,
{
    if i > 0 {
        let d = outcomes.drop_first();
        assert forall|j: int| 0 <= j < i - 1 implies !(#[trigger] d[j].result is FailedAbort) by {
            assert(d[j] == outcomes[j + 1]);
        }
        assert(!(outcomes[0].result is FailedAbort));
        law_abort_is_reported(event, d, i - 1);
    }
}

/// Hook failures that let the operation go on, and plain successes, never
/// end a call: with no aborting response there is no error.
pub proof fn law_no_abort_no_error(event: Seq<char>, outcomes: Seq<HookResponse>)
    requires
        forall|j: int| 0 <= j < outcomes.len() ==> !(#[trigger] outcomes[j].result is FailedAbort),
    ensures
        spec_abort_error(event, outcomes) is None,
    decreases outcomes.len(),
{
    if outcomes.len() > 0 {
        let d = outcomes.drop_first();
        assert forall|j: int| 0 <= j < d.len() implies !(#[trigger] d[j].result is FailedAbort) by {
            assert(d[j] == outcomes[j + 1]);
        }
        assert(!(outcomes[0].result is FailedAbort));
        law_no_abort_no_error(event, d);
    }
}

/// A pre-tool-use result that is neither a ruling nor an abort is passed over:
/// when no response rules on the call or aborts, the tool runs.
pub proof fn law_tool_runs_without_ruling(outcomes: Seq<HookResponse>)
    requires
        forall|j: int|
            0 <= j < outcomes.len() ==> !((#[trigger] outcomes[j].result) is FailedAbort)
                && !(outcomes[j].result is SuccessWithPreToolUseDecision),
    ensures
        spec_pre_tool_use_outcome(outcomes) == Ok::<Option<(Seq<char>, bool)>, Seq<char>>(None),
    decreases outcomes.len(),
{
    if outcomes.len() > 0 {
        let d = outcomes.drop_first();
        assert forall|j: int| 0 <= j < d.len() implies !((#[trigger] d[j].result) is FailedAbort)
            && !(d[j].result is SuccessWithPreToolUseDecision) by {
            assert(d[j] == outcomes[j + 1]);
        }
        assert(!(outcomes[0].result is FailedAbort));
        assert(!(outcomes[0].result is SuccessWithPreToolUseDecision));
        law_tool_runs_without_ruling(d);
    }
}

/// When a pre-tool-use hook denies or replaces a call, only the
/// after-tool-use hooks hear of it, with `executed` false; the success and
/// failure hooks never run for it.
pub proof fn law_short_circuit_skips_follow_up_hooks(
    c: ToolHookContext,
    sc: PreToolShortCircuit,
    preview: String,
    outcomes: Vec<HookResponse>,
    mid: ToolCallStage,
    dispatch: ToolCallAction,
    last: ToolCallStage,
    finish: ToolCallAction,
)
    requires
        spec_step(
            c,
            ToolCallStage::AwaitingPreview(sc),
            ToolCallEvent::PreviewRendered(preview),
            mid,
            dispatch,
        ),
        spec_step(c, mid, ToolCallEvent::HooksCompleted(outcomes), last, finish),
    ensures
        dispatch matches ToolCallAction::DispatchHooks(ToolHookEvent::AfterToolUse(e)) && !e.executed,
        finish is Finish,
        last is Done,
{
}

/// A tool that ran is reported to the after-tool-use hooks with `executed`
/// true and its own success, duration and preview.
pub proof fn law_executed_tool_is_reported(
    c: ToolHookContext,
    success: bool,
    output_preview: String,
    duration_ms: u64,
    next: ToolCallStage,
    action: ToolCallAction,
)
    requires
        spec_step(
            c,
            ToolCallStage::AwaitingTool,
            ToolCallEvent::ToolCompleted { success, output_preview, duration_ms },
            next,
            action,
        ),
    ensures
        action matches ToolCallAction::DispatchHooks(ToolHookEvent::AfterToolUse(e)) && e.executed
            && e.success == success && e.duration_ms == duration_ms && e.output_preview
            == output_preview,
{
}

/// A pre-tool-use response that rules on the call: a deny or replace
/// decision, or an abort.
pub open spec fn rules_on_call(r: HookResult) -> bool {
    r is SuccessWithPreToolUseDecision || r is FailedAbort
}

/// The first pre-tool-use response that rules on the call decides it: a
/// replacement stands in with its own output and its own success flag, a
/// denial stands in with its message as a failed call, and an abort fails
/// the call with the aborting hook's name and error.
pub proof fn law_first_ruling_decides(outcomes: Seq<HookResponse>, i: int)
    requires
        0 <= i < outcomes.len(),
        forall|j: int| 0 <= j < i ==> !rules_on_call(#[trigger] outcomes[j].result),
        rules_on_call(outcomes[i].result),
    ensures
        (outcomes[i].result matches HookResult::SuccessWithPreToolUseDecision(
            HookPreToolUseDecision::Replace { output, success },
        ) ==> spec_pre_tool_use_outcome(outcomes) == Ok::<Option<(Seq<char>, bool)>, Seq<char>>(
            Some((output@, success)),
        )),
        (outcomes[i].result matches HookResult::SuccessWithPreToolUseDecision(
            HookPreToolUseDecision::Deny { message },
        ) ==> spec_pre_tool_use_outcome(outcomes) == Ok::<Option<(Seq<char>, bool)>, Seq<char>>(
            Some((message@, false)),
        )),
        (outcomes[i].result matches HookResult::FailedAbort(e) ==> spec_pre_tool_use_outcome(outcomes)
            == Err::<Option<(Seq<char>, bool)>, Seq<char>>(
            "pre_tool_use"@ + " hook '"@ + outcomes[i].hook_name@ + "' failed and aborted operation: "@
                + e@,
        )),
    decreases i,
{
    if i > 0 {
        assert(!rules_on_call(outcomes[0].result));
        let rest = outcomes.drop_first();
        assert forall|j: int| 0 <= j < i - 1 implies !rules_on_call(#[trigger] rest[j].result) by {
            assert(rest[j] == outcomes[j + 1]);
        }
        assert(rest[i - 1] == outcomes[i]);
        law_first_ruling_decides(rest, i - 1);
    }
}

} // verus!
