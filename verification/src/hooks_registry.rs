use vstd::prelude::*;

use crate::hook_types::{HookEventKind, HookResponse, spec_event_type_name, spec_should_abort};

verus! {

/// The hook commands configured per event: each is an argv, the program first.
#[derive(Debug, Clone, Default)]
pub struct HooksConfig {
    pub legacy_notify_argv: Option<Vec<Vec<String>>>,
    pub after_user_prompt_submit_argv: Option<Vec<Vec<String>>>,
    pub before_model_request_argv: Option<Vec<Vec<String>>>,
    pub after_model_response_created_argv: Option<Vec<Vec<String>>>,
    pub plan_finalized_argv: Option<Vec<Vec<String>>>,
    pub turn_started_argv: Option<Vec<Vec<String>>>,
    pub turn_completed_argv: Option<Vec<Vec<String>>>,
    pub plan_implementation_completed_argv: Option<Vec<Vec<String>>>,
    pub turn_aborted_argv: Option<Vec<Vec<String>>>,
    pub session_start_argv: Option<Vec<Vec<String>>>,
    pub session_shutdown_argv: Option<Vec<Vec<String>>>,
    pub compaction_argv: Option<Vec<Vec<String>>>,
    pub after_tool_use_argv: Option<Vec<Vec<String>>>,
    pub pre_tool_use_argv: Option<Vec<Vec<String>>>,
    pub tool_failure_argv: Option<Vec<Vec<String>>>,
    pub post_tool_use_success_argv: Option<Vec<Vec<String>>>,
    pub after_model_response_completed_argv: Option<Vec<Vec<String>>>,
    pub feature_enabled: bool,
    pub shell_program: Option<String>,
    pub shell_args: Vec<String>,
}

/// How a hook command is run.
#[derive(Debug, Clone, Copy, PartialEq, Eq)]
pub enum HookRunner {
    /// The end-of-turn notifier.
    LegacyNotify,
    /// Run with the payload; stdout may change the submitted prompt.
    AfterUserPromptSubmit,
    /// Run with the payload; stdout may rule on the tool call.
    PreToolUse,
    /// Started with the payload and not waited for.
    JsonPayload(HookEventKind),
}

/// A configured hook: how it runs and its command line.
#[derive(Debug, Clone, PartialEq, Eq)]
pub struct HookCommand {
    pub runner: HookRunner,
    pub argv: Vec<String>,
}

pub open spec fn spec_runner_name(r: HookRunner) -> Option<Seq<char>> {
    match r {
        HookRunner::LegacyNotify => None,
        HookRunner::AfterUserPromptSubmit => Some("after_user_prompt_submit"@),
        HookRunner::PreToolUse => Some("pre_tool_use"@),
        HookRunner::JsonPayload(k) => Some(spec_event_type_name(k)),
    }
}

impl HookCommand {
    /// The name the hook reports in its responses; the end-of-turn notifier
    /// names its own.
    pub fn hook_name(&self) -> (r: Option<&'static str>)
        ensures
            r matches Some(n) ==> spec_runner_name(self.runner) == Some(n@),
            r is None ==> spec_runner_name(self.runner) is None,
    {
        match self.runner {
            HookRunner::LegacyNotify => None,
            HookRunner::AfterUserPromptSubmit => Some("after_user_prompt_submit"),
            HookRunner::PreToolUse => Some("pre_tool_use"),
            HookRunner::JsonPayload(k) => Some(k.event_type_name()),
        }
    }
}

/// The runner used for hooks of an event.
pub open spec fn spec_runner_for(k: HookEventKind) -> HookRunner {
    match k {
        HookEventKind::AfterAgent => HookRunner::LegacyNotify,
        HookEventKind::AfterUserPromptSubmit => HookRunner::AfterUserPromptSubmit,
        HookEventKind::PreToolUse => HookRunner::PreToolUse,
        _ => HookRunner::JsonPayload(k),
    }
}

pub fn runner_for(k: HookEventKind) -> (r: HookRunner)
    ensures
        r == spec_runner_for(k),
{
    match k {
        HookEventKind::AfterAgent => HookRunner::LegacyNotify,
        HookEventKind::AfterUserPromptSubmit => HookRunner::AfterUserPromptSubmit,
        HookEventKind::PreToolUse => HookRunner::PreToolUse,
        _ => HookRunner::JsonPayload(k),
    }
}

/// An argv that can be run: it has a program and the program is not empty.
pub open spec fn runnable_argv(argv: Seq<String>) -> bool {
    argv.len() > 0 && argv[0]@.len() > 0
}

/// The runnable argvs, in their configured order.
pub open spec fn runnable_argvs(argvs: Seq<Vec<String>>) -> Seq<Vec<String>>
    decreases argvs.len(),
{
    if argvs.len() == 0 {
        Seq::empty()
    } else {
        let rest = runnable_argvs(argvs.drop_last());
        if runnable_argv(argvs.last()@) {
            rest.push(argvs.last())
        } else {
            rest
        }
    }
}

pub open spec fn configured(argvs: Option<Vec<Vec<String>>>) -> Seq<Vec<String>> {
    match argvs {
        Some(v) => v@,
        None => Seq::empty(),
    }
}

/// The hooks built from an event's configured argvs: the runnable ones, in
/// order, each with the event's runner.
pub open spec fn commands_match(
    commands: Seq<HookCommand>,
    argvs: Option<Vec<Vec<String>>>,
    runner: HookRunner,
) -> bool {
    let kept = runnable_argvs(configured(argvs));
    &&& commands.len() == kept.len()
    &&& forall|i: int|
        0 <= i < commands.len() ==> (#[trigger] commands[i]).runner == runner && commands[i].argv@
            == kept[i]@
}

/// A copy of a list of strings.
pub fn clone_strings(v: &Vec<String>) -> (r: Vec<String>)
    ensures
        r@ == v@,
{
    let mut out: Vec<String> = Vec::new();
    let mut i: usize = 0;
    while i < v.len()
        invariant
            0 <= i <= v@.len(),
            out@ =~= v@.take(i as int),
        decreases v@.len() - i,
    {
        out.push(v[i].clone());
        i = i + 1;
    }
    assert(v@.take(v@.len() as int) =~= v@);
    out
}

fn build_commands(argvs: Option<Vec<Vec<String>>>, runner: HookRunner) -> (r: Vec<HookCommand>)
    ensures
        commands_match(r@, argvs, runner),
{
    let all: Vec<Vec<String>> = match argvs {
        Some(v) => v,
        None => Vec::new(),
    };
    let ghost cfg = configured(argvs);
    assert(all@ == cfg);
    let mut out: Vec<HookCommand> = Vec::new();
    let mut i: usize = 0;
    while i < all.len()
        invariant
            all@ == cfg,
            0 <= i <= all@.len(),
            out@.len() == runnable_argvs(cfg.take(i as int)).len(),
            forall|j: int|
                0 <= j < out@.len() ==> (#[trigger] out@[j]).runner == runner && out@[j].argv@
                    == runnable_argvs(cfg.take(i as int))[j]@,
        decreases all@.len() - i,
    {
        let argv = &all[i];
        assert(cfg.take(i + 1).drop_last() =~= cfg.take(i as int));
        assert(cfg.take(i + 1).last() == cfg[i as int]);
        if argv.len() > 0 && argv[0].as_str().unicode_len() > 0 {
            out.push(HookCommand { runner, argv: clone_strings(argv) });
        }
        i = i + 1;
    }
    assert(cfg.take(all@.len() as int) =~= cfg);
    out
}

/// The shell the hooks.json engine runs its commands with.
#[derive(Debug, Clone, PartialEq, Eq)]
pub struct CommandShell {
    pub program: String,
    pub args: Vec<String>,
}

/// The hooks of a session, per event, in configured order.
#[derive(Debug, Clone)]
pub struct Hooks {
    pub after_agent: Vec<HookCommand>,
    pub after_user_prompt_submit: Vec<HookCommand>,
    pub before_model_request: Vec<HookCommand>,
    pub after_model_response_created: Vec<HookCommand>,
    pub plan_finalized: Vec<HookCommand>,
    pub turn_started: Vec<HookCommand>,
    pub turn_completed: Vec<HookCommand>,
    pub plan_implementation_completed: Vec<HookCommand>,
    pub turn_aborted: Vec<HookCommand>,
    pub session_start: Vec<HookCommand>,
    pub session_shutdown: Vec<HookCommand>,
    pub compaction: Vec<HookCommand>,
    pub after_tool_use: Vec<HookCommand>,
    pub pre_tool_use: Vec<HookCommand>,
    pub tool_failure: Vec<HookCommand>,
    pub post_tool_use_success: Vec<HookCommand>,
    pub after_model_response_completed: Vec<HookCommand>,
    pub feature_enabled: bool,
    pub engine_shell: CommandShell,
}

/// The argvs configured for an event.
pub open spec fn spec_config_argvs(c: HooksConfig, k: HookEventKind) -> Option<Vec<Vec<String>>> {
    match k {
        HookEventKind::AfterAgent => c.legacy_notify_argv,
        HookEventKind::AfterUserPromptSubmit => c.after_user_prompt_submit_argv,
        HookEventKind::BeforeModelRequest => c.before_model_request_argv,
        HookEventKind::AfterModelResponseCreated => c.after_model_response_created_argv,
        HookEventKind::PlanFinalized => c.plan_finalized_argv,
        HookEventKind::TurnStarted => c.turn_started_argv,
        HookEventKind::TurnCompleted => c.turn_completed_argv,
        HookEventKind::PlanImplementationCompleted => c.plan_implementation_completed_argv,
        HookEventKind::TurnAborted => c.turn_aborted_argv,
        HookEventKind::SessionStart => c.session_start_argv,
        HookEventKind::SessionShutdown => c.session_shutdown_argv,
        HookEventKind::Compaction => c.compaction_argv,
        HookEventKind::AfterToolUse => c.after_tool_use_argv,
        HookEventKind::PreToolUse => c.pre_tool_use_argv,
        HookEventKind::ToolFailure => c.tool_failure_argv,
        HookEventKind::PostToolUseSuccess => c.post_tool_use_success_argv,
        HookEventKind::AfterModelResponseCompleted => c.after_model_response_completed_argv,
    }
}

/// The hooks registered for an event.
pub open spec fn spec_commands_for(h: Hooks, k: HookEventKind) -> Seq<HookCommand> {
    match k {
        HookEventKind::AfterAgent => h.after_agent@,
        HookEventKind::AfterUserPromptSubmit => h.after_user_prompt_submit@,
        HookEventKind::BeforeModelRequest => h.before_model_request@,
        HookEventKind::AfterModelResponseCreated => h.after_model_response_created@,
        HookEventKind::PlanFinalized => h.plan_finalized@,
        HookEventKind::TurnStarted => h.turn_started@,
        HookEventKind::TurnCompleted => h.turn_completed@,
        HookEventKind::PlanImplementationCompleted => h.plan_implementation_completed@,
        HookEventKind::TurnAborted => h.turn_aborted@,
        HookEventKind::SessionStart => h.session_start@,
        HookEventKind::SessionShutdown => h.session_shutdown@,
        HookEventKind::Compaction => h.compaction@,
        HookEventKind::AfterToolUse => h.after_tool_use@,
        HookEventKind::PreToolUse => h.pre_tool_use@,
        HookEventKind::ToolFailure => h.tool_failure@,
        HookEventKind::PostToolUseSuccess => h.post_tool_use_success@,
        HookEventKind::AfterModelResponseCompleted => h.after_model_response_completed@,
    }
}

/// The hooks built from a configuration: for every event, its runnable
/// argvs in configured order, each run by the event's runner.
pub open spec fn built_from(h: Hooks, c: HooksConfig) -> bool {
    forall|k: HookEventKind|
        commands_match(#[trigger] spec_commands_for(h, k), spec_config_argvs(c, k), spec_runner_for(k))
}

impl Default for Hooks {
    /// No hooks for any event, the hooks.json feature off, and no shell.
    fn default() -> (r: Hooks)
        ensures
            forall|k: HookEventKind| (#[trigger] spec_commands_for(r, k)).len() == 0,
            !r.feature_enabled,
            r.engine_shell.program@.len() == 0,
            r.engine_shell.args@.len() == 0,
    {
        Hooks {
            after_agent: Vec::new(),
            after_user_prompt_submit: Vec::new(),
            before_model_request: Vec::new(),
            after_model_response_created: Vec::new(),
            plan_finalized: Vec::new(),
            turn_started: Vec::new(),
            turn_completed: Vec::new(),
            plan_implementation_completed: Vec::new(),
            turn_aborted: Vec::new(),
            session_start: Vec::new(),
            session_shutdown: Vec::new(),
            compaction: Vec::new(),
            after_tool_use: Vec::new(),
            pre_tool_use: Vec::new(),
            tool_failure: Vec::new(),
            post_tool_use_success: Vec::new(),
            after_model_response_completed: Vec::new(),
            feature_enabled: false,
            engine_shell: CommandShell { program: String::new(), args: Vec::new() },
        }
    }
}

impl Hooks {
    pub fn new(config: HooksConfig) -> (r: Hooks)
        ensures
            built_from(r, config),
            r.feature_enabled == config.feature_enabled,
            r.engine_shell.program@ == match config.shell_program {
                Some(p) => p@,
                None => Seq::<char>::empty(),
            },
            r.engine_shell.args == config.shell_args,
    {
        let ghost c = config;
        let program = match config.shell_program {
            Some(p) => p,
            None => String::new(),
        };
        let r = Hooks {
            after_agent: build_commands(config.legacy_notify_argv, runner_for(HookEventKind::AfterAgent)),
            after_user_prompt_submit: build_commands(
                config.after_user_prompt_submit_argv,
                runner_for(HookEventKind::AfterUserPromptSubmit),
            ),
            before_model_request: build_commands(
                config.before_model_request_argv,
                runner_for(HookEventKind::BeforeModelRequest),
            ),
            after_model_response_created: build_commands(
                config.after_model_response_created_argv,
                runner_for(HookEventKind::AfterModelResponseCreated),
            ),
            plan_finalized: build_commands(
                config.plan_finalized_argv,
                runner_for(HookEventKind::PlanFinalized),
            ),
            turn_started: build_commands(
                config.turn_started_argv,
                runner_for(HookEventKind::TurnStarted),
            ),
            turn_completed: build_commands(
                config.turn_completed_argv,
                runner_for(HookEventKind::TurnCompleted),
            ),
            plan_implementation_completed: build_commands(
                config.plan_implementation_completed_argv,
                runner_for(HookEventKind::PlanImplementationCompleted),
            ),
            turn_aborted: build_commands(
                config.turn_aborted_argv,
                runner_for(HookEventKind::TurnAborted),
            ),
            session_start: build_commands(
                config.session_start_argv,
                runner_for(HookEventKind::SessionStart),
            ),
            session_shutdown: build_commands(
                config.session_shutdown_argv,
                runner_for(HookEventKind::SessionShutdown),
            ),
            compaction: build_commands(config.compaction_argv, runner_for(HookEventKind::Compaction)),
            after_tool_use: build_commands(
                config.after_tool_use_argv,
                runner_for(HookEventKind::AfterToolUse),
            ),
            pre_tool_use: build_commands(
                config.pre_tool_use_argv,
                runner_for(HookEventKind::PreToolUse),
            ),
            tool_failure: build_commands(
                config.tool_failure_argv,
                runner_for(HookEventKind::ToolFailure),
            ),
            post_tool_use_success: build_commands(
                config.post_tool_use_success_argv,
                runner_for(HookEventKind::PostToolUseSuccess),
            ),
            after_model_response_completed: build_commands(
                config.after_model_response_completed_argv,
                runner_for(HookEventKind::AfterModelResponseCompleted),
            ),
            feature_enabled: config.feature_enabled,
            engine_shell: CommandShell { program, args: config.shell_args },
        };
        assert forall|k: HookEventKind|
            commands_match(
                #[trigger] spec_commands_for(r, k),
                spec_config_argvs(c, k),
                spec_runner_for(k),
            ) by {
            match k {
                _ => {},
            }
        }
        r
    }

    /// The hooks registered for an event, in the order they run.
    pub fn commands_for(&self, kind: HookEventKind) -> (r: &Vec<HookCommand>)
        ensures
            r@ == spec_commands_for(*self, kind),
    {
        match kind {
            HookEventKind::AfterAgent => &self.after_agent,
            HookEventKind::AfterUserPromptSubmit => &self.after_user_prompt_submit,
            HookEventKind::BeforeModelRequest => &self.before_model_request,
            HookEventKind::AfterModelResponseCreated => &self.after_model_response_created,
            HookEventKind::PlanFinalized => &self.plan_finalized,
            HookEventKind::TurnStarted => &self.turn_started,
            HookEventKind::TurnCompleted => &self.turn_completed,
            HookEventKind::PlanImplementationCompleted => &self.plan_implementation_completed,
            HookEventKind::TurnAborted => &self.turn_aborted,
            HookEventKind::SessionStart => &self.session_start,
            HookEventKind::SessionShutdown => &self.session_shutdown,
            HookEventKind::Compaction => &self.compaction,
            HookEventKind::AfterToolUse => &self.after_tool_use,
            HookEventKind::PreToolUse => &self.pre_tool_use,
            HookEventKind::ToolFailure => &self.tool_failure,
            HookEventKind::PostToolUseSuccess => &self.post_tool_use_success,
            HookEventKind::AfterModelResponseCompleted => &self.after_model_response_completed,
        }
    }
}


/// The progress of running one event's hooks: they run one at a time in
/// configured order, and a hook that aborts ends the run.
pub struct HookDispatchRun {
    planned: usize,
    outcomes: Vec<HookResponse>,
    stopped: bool,
}

/// Only the last response of a run may abort.
pub open spec fn only_last_aborts(outcomes: Seq<HookResponse>) -> bool {
    forall|i: int| 0 <= i < outcomes.len() - 1 ==> !spec_should_abort(#[trigger] outcomes[i].result)
}

impl HookDispatchRun {
    pub closed spec fn planned(&self) -> nat {
        self.planned as nat
    }

    pub closed spec fn outcomes(&self) -> Seq<HookResponse> {
        self.outcomes@
    }

    /// The run is over: every hook has run, or the last one aborted.
    pub open spec fn finished(&self) -> bool {
        self.outcomes().len() == self.planned() || (self.outcomes().len() > 0
            && spec_should_abort(self.outcomes().last().result))
    }

    pub closed spec fn wf(&self) -> bool {
        &&& self.outcomes@.len() <= self.planned
        &&& self.stopped == (self.outcomes@.len() > 0 && spec_should_abort(
            self.outcomes@.last().result,
        ))
        &&& only_last_aborts(self.outcomes@)
    }

    /// A run over `planned` hooks, none run yet.
    pub fn new(planned: usize) -> (r: Self)
        ensures
            r.wf(),
            r.planned() == planned,
            r.outcomes() == Seq::<HookResponse>::empty(),
    {
        HookDispatchRun { planned, outcomes: Vec::new(), stopped: false }
    }

    /// The position of the hook to run next, or `None` when the run is over.
    pub fn next_hook(&self) -> (r: Option<usize>)
        requires
            self.wf(),
        ensures
            r is None <==> self.finished(),
            r matches Some(i) ==> i == self.outcomes().len() && i < self.planned(),
    {
        if self.stopped || self.outcomes.len() >= self.planned {
            None
        } else {
            Some(self.outcomes.len())
        }
    }

    /// Records what the next hook returned.
    pub fn record(&mut self, response: HookResponse)
        requires
            old(self).wf(),
            !old(self).finished(),
        ensures
            final(self).wf(),
            final(self).planned() == old(self).planned(),
            final(self).outcomes() == old(self).outcomes().push(response),
    {
        let abort = response.result.should_abort_operation();
        self.outcomes.push(response);
        self.stopped = abort;
    }

    /// The responses in the order the hooks ran; only the last may abort,
    /// and fewer than all hooks ran only when the last one aborted.
    pub fn into_outcomes(self) -> (r: Vec<HookResponse>)
        requires
            self.wf(),
        ensures
            r@ == self.outcomes(),
            r@.len() <= self.planned(),
            only_last_aborts(r@),
    {
        self.outcomes
    }
}


/// Every hook other than the end-of-turn notifier reports under the wire
/// name of the event it is registered for.
pub proof fn law_hook_names_follow_events(k: HookEventKind)
    requires
        k != HookEventKind::AfterAgent,
    ensures
        spec_runner_name(spec_runner_for(k)) == Some(spec_event_type_name(k)),
{
}

/// Hooks for one event run in configured order, and an aborting hook is the
/// last to run: the run records the hook at position `outcomes().len()` next,
/// and once a hook aborts no further hook is offered.
pub proof fn law_abort_stops_the_run(run: HookDispatchRun)
    requires
        run.wf(),
        run.outcomes().len() > 0,
        spec_should_abort(run.outcomes().last().result),
    ensures
        run.finished(),
{
}

/// Each event's hooks run under the runner fit for it: prompt-submit hooks
/// and pre-tool-use hooks are waited for and their stdout read, the
/// end-of-turn hooks run as the notifier, and the hooks of every other event
/// are started with that event's payload and not waited for.
pub proof fn law_runners_by_event(h: Hooks, c: HooksConfig, k: HookEventKind, i: int)
    requires
        built_from(h, c),
        0 <= i < spec_commands_for(h, k).len(),
    ensures
        ({
            let r = spec_commands_for(h, k)[i].runner;
            &&& (k == HookEventKind::AfterUserPromptSubmit <==> r == HookRunner::AfterUserPromptSubmit)
            &&& (k == HookEventKind::PreToolUse <==> r == HookRunner::PreToolUse)
            &&& (k == HookEventKind::AfterAgent <==> r == HookRunner::LegacyNotify)
            &&& (r is JsonPayload ==> r == HookRunner::JsonPayload(k))
        }),
{
    assert(commands_match(spec_commands_for(h, k), spec_config_argvs(c, k), spec_runner_for(k)));
}

} // verus!
