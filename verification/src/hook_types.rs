use vstd::prelude::*;

verus! {

/// A pre-tool-use hook's ruling on a tool call.
#[derive(Debug, Clone, PartialEq, Eq)]
pub enum HookPreToolUseDecision {
    Deny { message: String },
    Replace { output: String, success: bool },
}

/// How one hook run ended. A failure carries the failure's message.
#[derive(Debug, Clone, PartialEq, Eq)]
pub enum HookResult {
    /// The hook completed.
    Success,
    /// The hook completed and asked to change the submitted user prompt.
    SuccessWithPromptAugmentation { append_prompt_text: Option<String>, switch_to_plan_mode: bool },
    /// A pre-tool-use hook completed and ruled on the tool call.
    SuccessWithPreToolUseDecision(HookPreToolUseDecision),
    /// The hook failed; later hooks still run and the operation goes on.
    FailedContinue(String),
    /// The hook failed; later hooks do not run and the operation is aborted.
    FailedAbort(String),
}

pub open spec fn spec_should_abort(r: HookResult) -> bool {
    r is FailedAbort
}

pub open spec fn spec_appended_user_prompt(r: HookResult) -> Option<Seq<char>> {
    match r {
        HookResult::SuccessWithPromptAugmentation { append_prompt_text: Some(text), .. } => Some(
            text@,
        ),
        _ => None,
    }
}

pub open spec fn spec_switch_to_plan_mode(r: HookResult) -> bool {
    match r {
        HookResult::SuccessWithPromptAugmentation { switch_to_plan_mode, .. } => switch_to_plan_mode,
        _ => false,
    }
}

impl HookResult {
    pub fn should_abort_operation(&self) -> (r: bool)
        ensures
            r == spec_should_abort(*self),
    {
        match self {
            HookResult::FailedAbort(_) => true,
            _ => false,
        }
    }

    pub fn appended_user_prompt(&self) -> (r: Option<&str>)
        ensures
            r matches Some(t) ==> spec_appended_user_prompt(*self) == Some(t@),
            r is None ==> spec_appended_user_prompt(*self) is None,
    {
        match self {
            HookResult::SuccessWithPromptAugmentation { append_prompt_text: Some(text), .. } => Some(
                text.as_str(),
            ),
            _ => None,
        }
    }

    pub fn switch_to_plan_mode(&self) -> (r: bool)
        ensures
            r == spec_switch_to_plan_mode(*self),
    {
        match self {
            HookResult::SuccessWithPromptAugmentation { switch_to_plan_mode, .. } => *switch_to_plan_mode,
            _ => false,
        }
    }
}

/// The name of a hook that ran and how it ended.
#[derive(Debug, Clone, PartialEq, Eq)]
pub struct HookResponse {
    pub hook_name: String,
    pub result: HookResult,
}

/// The events that hooks are registered for.
#[derive(Debug, Clone, Copy, PartialEq, Eq)]
pub enum HookEventKind {
    AfterAgent,
    AfterUserPromptSubmit,
    BeforeModelRequest,
    AfterModelResponseCreated,
    PlanFinalized,
    TurnStarted,
    TurnCompleted,
    PlanImplementationCompleted,
    TurnAborted,
    SessionStart,
    SessionShutdown,
    Compaction,
    AfterToolUse,
    PreToolUse,
    ToolFailure,
    PostToolUseSuccess,
    AfterModelResponseCompleted,
}

pub open spec fn spec_event_type_name(k: HookEventKind) -> Seq<char> {
    match k {
        HookEventKind::AfterAgent => "after_agent"@,
        HookEventKind::AfterUserPromptSubmit => "after_user_prompt_submit"@,
        HookEventKind::BeforeModelRequest => "before_model_request"@,
        HookEventKind::AfterModelResponseCreated => "after_model_response_created"@,
        HookEventKind::PlanFinalized => "plan_finalized"@,
        HookEventKind::TurnStarted => "turn_started"@,
        HookEventKind::TurnCompleted => "turn_completed"@,
        HookEventKind::PlanImplementationCompleted => "plan_implementation_completed"@,
        HookEventKind::TurnAborted => "turn_aborted"@,
        HookEventKind::SessionStart => "session_start"@,
        HookEventKind::SessionShutdown => "session_shutdown"@,
        HookEventKind::Compaction => "compaction"@,
        HookEventKind::AfterToolUse => "after_tool_use"@,
        HookEventKind::PreToolUse => "pre_tool_use"@,
        HookEventKind::ToolFailure => "tool_failure"@,
        HookEventKind::PostToolUseSuccess => "post_tool_use_success"@,
        HookEventKind::AfterModelResponseCompleted => "after_model_response_completed"@,
    }
}

impl HookEventKind {
    /// The `event_type` tag the event carries on the wire.
    pub fn event_type_name(&self) -> (r: &'static str)
        ensures
            r@ == spec_event_type_name(*self),
    {
        match self {
            HookEventKind::AfterAgent => "after_agent",
            HookEventKind::AfterUserPromptSubmit => "after_user_prompt_submit",
            HookEventKind::BeforeModelRequest => "before_model_request",
            HookEventKind::AfterModelResponseCreated => "after_model_response_created",
            HookEventKind::PlanFinalized => "plan_finalized",
            HookEventKind::TurnStarted => "turn_started",
            HookEventKind::TurnCompleted => "turn_completed",
            HookEventKind::PlanImplementationCompleted => "plan_implementation_completed",
            HookEventKind::TurnAborted => "turn_aborted",
            HookEventKind::SessionStart => "session_start",
            HookEventKind::SessionShutdown => "session_shutdown",
            HookEventKind::Compaction => "compaction",
            HookEventKind::AfterToolUse => "after_tool_use",
            HookEventKind::PreToolUse => "pre_tool_use",
            HookEventKind::ToolFailure => "tool_failure",
            HookEventKind::PostToolUseSuccess => "post_tool_use_success",
            HookEventKind::AfterModelResponseCompleted => "after_model_response_completed",
        }
    }
}

#[derive(Debug, Clone, Copy, PartialEq, Eq)]
pub enum HookCompactionTrigger {
    Manual,
    AutoPreTurn,
    AutoMidTurn,
}

#[derive(Debug, Clone, Copy, PartialEq, Eq)]
pub enum HookCompactionStrategy {
    Local,
    Remote,
}

#[derive(Debug, Clone, Copy, PartialEq, Eq)]
pub enum HookCompactionStatus {
    Started,
    Completed,
    Failed,
}

#[derive(Debug, Clone, Copy, PartialEq, Eq)]
pub enum HookToolKind {
    Function,
    Custom,
    LocalShell,
    Mcp,
}

/// The parameters of a local shell call as hooks see them;
/// `sandbox_permissions` holds the permission's wire name.
#[derive(Debug, Clone, PartialEq, Eq)]
pub struct HookToolInputLocalShell {
    pub command: Vec<String>,
    pub workdir: Option<String>,
    pub timeout_ms: Option<u64>,
    pub sandbox_permissions: Option<String>,
    pub prefix_rule: Option<Vec<String>>,
    pub justification: Option<String>,
}

/// A tool call's input as hooks see it.
#[derive(Debug, Clone, PartialEq, Eq)]
pub enum HookToolInput {
    Function { arguments: String },
    Custom { input: String },
    LocalShell { params: HookToolInputLocalShell },
    Mcp { server: String, tool: String, arguments: String },
}

pub open spec fn spec_hook_tool_kind(input: HookToolInput) -> HookToolKind {
    match input {
        HookToolInput::Function { .. } => HookToolKind::Function,
        HookToolInput::Custom { .. } => HookToolKind::Custom,
        HookToolInput::LocalShell { .. } => HookToolKind::LocalShell,
        HookToolInput::Mcp { .. } => HookToolKind::Mcp,
    }
}

/// The tool kind that matches a hook tool input.
pub fn hook_tool_kind(tool_input: &HookToolInput) -> (r: HookToolKind)
    ensures
        r == spec_hook_tool_kind(*tool_input),
{
    match tool_input {
        HookToolInput::Function { .. } => HookToolKind::Function,
        HookToolInput::Custom { .. } => HookToolKind::Custom,
        HookToolInput::LocalShell { .. } => HookToolKind::LocalShell,
        HookToolInput::Mcp { .. } => HookToolKind::Mcp,
    }
}

#[derive(Debug, Clone, PartialEq, Eq)]
pub struct HookEventAfterToolUse {
    pub turn_id: String,
    pub call_id: String,
    pub tool_name: String,
    pub tool_kind: HookToolKind,
    pub tool_input: HookToolInput,
    pub executed: bool,
    pub success: bool,
    pub duration_ms: u64,
    pub mutating: bool,
    pub sandbox: String,
    pub sandbox_policy: String,
    pub output_preview: String,
}

#[derive(Debug, Clone, PartialEq, Eq)]
pub struct HookEventPreToolUse {
    pub turn_id: String,
    pub call_id: String,
    pub tool_name: String,
    pub tool_kind: HookToolKind,
    pub tool_input: HookToolInput,
    pub mutating: bool,
    pub sandbox: String,
    pub sandbox_policy: String,
}

#[derive(Debug, Clone, PartialEq, Eq)]
pub struct HookEventToolFailure {
    pub turn_id: String,
    pub call_id: String,
    pub tool_name: String,
    pub tool_kind: HookToolKind,
    pub tool_input: HookToolInput,
    pub duration_ms: u64,
    pub mutating: bool,
    pub sandbox: String,
    pub sandbox_policy: String,
    pub error_preview: String,
}

#[derive(Debug, Clone, PartialEq, Eq)]
pub struct HookEventPostToolUseSuccess {
    pub turn_id: String,
    pub call_id: String,
    pub tool_name: String,
    pub tool_kind: HookToolKind,
    pub tool_input: HookToolInput,
    pub duration_ms: u64,
    pub mutating: bool,
    pub sandbox: String,
    pub sandbox_policy: String,
    pub output_preview: String,
}

} // verus!
