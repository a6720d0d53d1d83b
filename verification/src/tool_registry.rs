use vstd::prelude::*;

use crate::hook_types::{HookToolInput, HookToolInputLocalShell};
use crate::hooks_registry::clone_strings;
use crate::text::same_text;

verus! {

/// The kinds of payload a tool handler accepts.
#[derive(Clone, Copy, Debug, PartialEq, Eq, Hash)]
pub enum ToolKind {
    Function,
    Mcp,
}

/// The parameters of a local shell call; `sandbox_permissions` holds the
/// permission's wire name.
#[derive(Debug, Clone, PartialEq, Eq)]
pub struct ShellToolCallParams {
    pub command: Vec<String>,
    pub workdir: Option<String>,
    pub timeout_ms: Option<u64>,
    pub sandbox_permissions: Option<String>,
    pub prefix_rule: Option<Vec<String>>,
    pub justification: Option<String>,
}

/// What the model sent for a tool call.
#[derive(Debug, Clone, PartialEq, Eq)]
pub enum ToolPayload {
    Function { arguments: String },
    Custom { input: String },
    LocalShell { params: ShellToolCallParams },
    Mcp { server: String, tool: String, raw_arguments: String },
}

/// A handler of kind `kind` accepts function payloads or MCP payloads, matching its kind.
pub open spec fn spec_kind_matches(kind: ToolKind, payload: ToolPayload) -> bool {
    match (kind, payload) {
        (ToolKind::Function, ToolPayload::Function { .. }) => true,
        (ToolKind::Mcp, ToolPayload::Mcp { .. }) => true,
        _ => false,
    }
}

/// What the registry needs of a tool handler; running the tool is the caller's part.
pub trait ToolHandler {
    spec fn spec_kind(&self) -> ToolKind;

    fn kind(&self) -> (r: ToolKind)
        ensures
            r == self.spec_kind(),
    ;

    /// Whether this handler accepts the payload.
    fn matches_kind(&self, payload: &ToolPayload) -> (r: bool)
        ensures
            r == spec_kind_matches(self.spec_kind(), *payload),
    {
        match (self.kind(), payload) {
            (ToolKind::Function, ToolPayload::Function { .. }) => true,
            (ToolKind::Mcp, ToolPayload::Mcp { .. }) => true,
            _ => false,
        }
    }
}

/// A tool specification and whether calls to it may run in parallel.
#[derive(Debug, Clone)]
pub struct ConfiguredToolSpec<S> {
    pub spec: S,
    pub supports_parallel_tool_calls: bool,
}

impl<S> ConfiguredToolSpec<S> {
    pub fn new(spec: S, supports_parallel_tool_calls: bool) -> (r: Self)
        ensures
            r.spec == spec,
            r.supports_parallel_tool_calls == supports_parallel_tool_calls,
    {
        ConfiguredToolSpec { spec, supports_parallel_tool_calls }
    }
}

/// The handler filed last under `name`.
pub open spec fn lookup<H>(entries: Seq<(String, H)>, name: Seq<char>) -> Option<H>
    decreases entries.len(),
{
    if entries.len() == 0 {
        None
    } else if entries.last().0@ == name {
        Some(entries.last().1)
    } else {
        lookup(entries.drop_last(), name)
    }
}

/// No name is filed twice.
pub open spec fn distinct_names<H>(entries: Seq<(String, H)>) -> bool {
    forall|i: int, j: int|
        0 <= i < j < entries.len() ==> (#[trigger] entries[i]).0@ != (#[trigger] entries[j]).0@
}

pub open spec fn entries_view<H>(entries: Seq<(String, H)>) -> Map<Seq<char>, H> {
    Map::new(|k: Seq<char>| lookup(entries, k) is Some, |k: Seq<char>| lookup(entries, k)->0)
}

proof fn lemma_lookup_found<H>(entries: Seq<(String, H)>, i: int)
    requires
        distinct_names(entries),
        0 <= i < entries.len(),
    ensures
        lookup(entries, entries[i].0@) == Some(entries[i].1),
    decreases entries.len(),
{
    if i < entries.len() - 1 {
        assert(entries.last() == entries[entries.len() - 1]);
        let d = entries.drop_last();
        assert(d[i] == entries[i]);
        assert(distinct_names(d)) by {
            assert forall|a: int, b: int| 0 <= a < b < d.len() implies (#[trigger] d[a]).0@ != (
            #[trigger] d[b]).0@ by {
                assert(d[a] == entries[a] && d[b] == entries[b]);
            }
        }
        lemma_lookup_found(d, i);
    }
}

proof fn lemma_lookup_absent<H>(entries: Seq<(String, H)>, name: Seq<char>)
    requires
        forall|i: int| 0 <= i < entries.len() ==> (#[trigger] entries[i]).0@ != name,
    ensures
        lookup(entries, name) is None,
    decreases entries.len(),
{
    if entries.len() > 0 {
        let d = entries.drop_last();
        assert(entries.last() == entries[entries.len() - 1]);
        assert forall|i: int| 0 <= i < d.len() implies (#[trigger] d[i]).0@ != name by {
            assert(d[i] == entries[i]);
        }
        lemma_lookup_absent(d, name);
    }
}

proof fn lemma_lookup_update<H>(entries: Seq<(String, H)>, i: int, v: H, k: Seq<char>)
    requires
        distinct_names(entries),
        0 <= i < entries.len(),
    ensures
        lookup(entries.update(i, (entries[i].0, v)), k) == if k == entries[i].0@ {
            Some(v)
        } else {
            lookup(entries, k)
        },
    decreases entries.len(),
{
    let u = entries.update(i, (entries[i].0, v));
    let n = entries.len();
    assert(u.last() == u[n - 1]);
    assert(entries.last() == entries[n - 1]);
    if i < n - 1 {
        let d = entries.drop_last();
        assert(u.drop_last() =~= d.update(i, (d[i].0, v)));
        assert(distinct_names(d)) by {
            assert forall|a: int, b: int| 0 <= a < b < d.len() implies (#[trigger] d[a]).0@ != (
            #[trigger] d[b]).0@ by {
                assert(d[a] == entries[a] && d[b] == entries[b]);
            }
        }
        assert(entries[i].0@ != entries[n - 1].0@);
        lemma_lookup_update(d, i, v, k);
    } else {
        assert(u.drop_last() =~= entries.drop_last());
    }
}

/// Finds where `name` is filed.
fn position_of<H>(entries: &Vec<(String, H)>, name: &str) -> (r: Option<usize>)
    ensures
        r matches Some(i) ==> i < entries@.len() && entries@[i as int].0@ == name@,
        r is None ==> forall|i: int| 0 <= i < entries@.len() ==> (#[trigger] entries@[i]).0@ != name@,
{
    let mut i: usize = 0;
    while i < entries.len()
        invariant
            0 <= i <= entries@.len(),
            forall|j: int| 0 <= j < i ==> (#[trigger] entries@[j]).0@ != name@,
        decreases entries@.len() - i,
    {
        if same_text(entries[i].0.as_str(), name) {
            return Some(i);
        }
        i = i + 1;
    }
    None
}

/// Why a tool call could not be dispatched.
#[derive(Debug, Clone, PartialEq, Eq)]
pub enum FunctionCallError {
    /// Reported back to the model, which may try something else.
    RespondToModel(String),
    /// Ends the turn.
    Fatal(String),
}

/// The message for a call to a tool that no handler serves.
pub open spec fn spec_unsupported_message(payload: ToolPayload, tool_name: Seq<char>) -> Seq<char> {
    match payload {
        ToolPayload::Custom { .. } => "unsupported custom tool call: "@ + tool_name,
        _ => "unsupported call: "@ + tool_name,
    }
}

pub fn unsupported_tool_call_message(payload: &ToolPayload, tool_name: &str) -> (r: String)
    ensures
        r@ == spec_unsupported_message(*payload, tool_name@),
{
    let mut m = match payload {
        ToolPayload::Custom { .. } => String::from_str("unsupported custom tool call: "),
        _ => String::from_str("unsupported call: "),
    };
    m.append(tool_name);
    m
}

pub open spec fn incompatible_payload_message(tool_name: Seq<char>) -> Seq<char> {
    "tool "@ + tool_name + " invoked with incompatible payload"@
}

/// The handlers of the tools, by name.
pub struct ToolRegistry<H> {
    handlers: Vec<(String, H)>,
}

impl<H> ToolRegistry<H> {
    pub closed spec fn view(&self) -> Map<Seq<char>, H> {
        entries_view(self.handlers@)
    }

    pub closed spec fn wf(&self) -> bool {
        distinct_names(self.handlers@)
    }

    /// The handler registered under `name`.
    pub fn handler(&self, name: &str) -> (r: Option<&H>)
        requires
            self.wf(),
        ensures
            r matches Some(h) ==> self.view().contains_key(name@) && self.view()[name@] == *h,
            r is None ==> !self.view().contains_key(name@),
    {
        match position_of(&self.handlers, name) {
            Some(i) => {
                proof {
                    lemma_lookup_found(self.handlers@, i as int);
                }
                Some(&self.handlers[i].1)
            },
            None => {
                proof {
                    lemma_lookup_absent(self.handlers@, name@);
                }
                None
            },
        }
    }
}

impl<H: ToolHandler> ToolRegistry<H> {
    /// The handler for a call: an unknown tool is reported to the model, and
    /// a handler that does not accept the payload ends the turn.
    pub fn route(&self, tool_name: &str, payload: &ToolPayload) -> (r: Result<&H, FunctionCallError>)
        requires
            self.wf(),
        ensures
            !self.view().contains_key(tool_name@) ==> (r matches Err(
                FunctionCallError::RespondToModel(m),
            ) && m@ == spec_unsupported_message(*payload, tool_name@)),
            self.view().contains_key(tool_name@) && !spec_kind_matches(
                self.view()[tool_name@].spec_kind(),
                *payload,
            ) ==> (r matches Err(FunctionCallError::Fatal(m)) && m@ == incompatible_payload_message(
                tool_name@,
            )),
            self.view().contains_key(tool_name@) && spec_kind_matches(
                self.view()[tool_name@].spec_kind(),
                *payload,
            ) ==> (r matches Ok(h) && *h == self.view()[tool_name@]),
    {
        match self.handler(tool_name) {
            None => Err(FunctionCallError::RespondToModel(unsupported_tool_call_message(payload, tool_name))),
            Some(h) => {
                if h.matches_kind(payload) {
                    Ok(h)
                } else {
                    let mut m = String::from_str("tool ");
                    m.append(tool_name);
                    m.append(" invoked with incompatible payload");
                    Err(FunctionCallError::Fatal(m))
                }
            },
        }
    }
}

/// Collects tool specifications and handlers, then builds the registry.
pub struct ToolRegistryBuilder<S, H> {
    handlers: Vec<(String, H)>,
    specs: Vec<ConfiguredToolSpec<S>>,
}

impl<S, H> ToolRegistryBuilder<S, H> {
    pub closed spec fn handlers_view(&self) -> Map<Seq<char>, H> {
        entries_view(self.handlers@)
    }

    pub closed spec fn specs_view(&self) -> Seq<ConfiguredToolSpec<S>> {
        self.specs@
    }

    pub closed spec fn wf(&self) -> bool {
        distinct_names(self.handlers@)
    }

    pub fn new() -> (r: Self)
        ensures
            r.wf(),
            r.handlers_view() == Map::<Seq<char>, H>::empty(),
            r.specs_view() == Seq::<ConfiguredToolSpec<S>>::empty(),
    {
        let r = ToolRegistryBuilder { handlers: Vec::new(), specs: Vec::new() };
        assert(r.handlers_view() =~= Map::<Seq<char>, H>::empty());
        r
    }

    /// Adds a specification whose calls do not run in parallel.
    pub fn push_spec(&mut self, spec: S)
        requires
            old(self).wf(),
        ensures
            final(self).wf(),
            final(self).handlers_view() == old(self).handlers_view(),
            final(self).specs_view() == old(self).specs_view().push(
                ConfiguredToolSpec { spec, supports_parallel_tool_calls: false },
            ),
    {
        self.push_spec_with_parallel_support(spec, false);
    }

    /// Adds a specification, stating whether its calls may run in parallel.
    pub fn push_spec_with_parallel_support(&mut self, spec: S, supports_parallel_tool_calls: bool)
        requires
            old(self).wf(),
        ensures
            final(self).wf(),
            final(self).handlers_view() == old(self).handlers_view(),
            final(self).specs_view() == old(self).specs_view().push(
                ConfiguredToolSpec { spec, supports_parallel_tool_calls },
            ),
    {
        self.specs.push(ConfiguredToolSpec::new(spec, supports_parallel_tool_calls));
    }

    /// Files `handler` under `name`, replacing an earlier handler of that
    /// name; says whether one was replaced.
    pub fn register_handler(&mut self, name: String, handler: H) -> (replaced: bool)
        requires
            old(self).wf(),
        ensures
            final(self).wf(),
            replaced == old(self).handlers_view().contains_key(name@),
            final(self).handlers_view() == old(self).handlers_view().insert(name@, handler),
            final(self).specs_view() == old(self).specs_view(),
    {
        let ghost old_entries = self.handlers@;
        match position_of(&self.handlers, name.as_str()) {
            Some(i) => {
                proof {
                    lemma_lookup_found(old_entries, i as int);
                }
                let ghost key = old_entries[i as int].0;
                let entry = (name, handler);
                let ghost new_entry = entry;
                self.handlers.set(i, entry);
                proof {
                    assert(self.handlers@ =~= old_entries.update(i as int, new_entry));
                    assert forall|k: Seq<char>| #[trigger] lookup(self.handlers@, k) == if k
                        == key@ {
                        Some(handler)
                    } else {
                        lookup(old_entries, k)
                    } by {
                        lemma_lookup_update(old_entries, i as int, handler, k);
                        lemma_lookup_names_only(
                            old_entries.update(i as int, (old_entries[i as int].0, handler)),
                            self.handlers@,
                            k,
                        );
                    }
                    assert(distinct_names(self.handlers@)) by {
                        assert forall|a: int, b: int| 0 <= a < b < self.handlers@.len() implies (
                        #[trigger] self.handlers@[a]).0@ != (#[trigger] self.handlers@[b]).0@ by {
                            assert(old_entries[a].0@ != old_entries[b].0@);
                        }
                    }
                    assert(self.handlers_view() =~= old(self).handlers_view().insert(name@, handler));
                }
                true
            },
            None => {
                proof {
                    lemma_lookup_absent(old_entries, name@);
                }
                self.handlers.push((name, handler));
                proof {
                    assert(self.handlers@.drop_last() =~= old_entries);
                    assert(distinct_names(self.handlers@)) by {
                        assert forall|a: int, b: int| 0 <= a < b < self.handlers@.len() implies (
                        #[trigger] self.handlers@[a]).0@ != (#[trigger] self.handlers@[b]).0@ by {
                            if b < old_entries.len() {
                                assert(old_entries[a].0@ != old_entries[b].0@);
                            } else {
                                assert(self.handlers@[a] == old_entries[a]);
                            }
                        }
                    }
                    assert(self.handlers_view() =~= old(self).handlers_view().insert(name@, handler));
                }
                false
            },
        }
    }

    /// The specifications in the order they were added, and the registry of handlers.
    pub fn build(self) -> (r: (Vec<ConfiguredToolSpec<S>>, ToolRegistry<H>))
        requires
            self.wf(),
        ensures
            r.0@ == self.specs_view(),
            r.1.wf(),
            r.1.view() == self.handlers_view(),
    {
        (self.specs, ToolRegistry { handlers: self.handlers })
    }
}

/// A call made on a registry builder: `push_spec` is a push whose calls do
/// not run in parallel.
pub enum BuilderCall<S, H> {
    PushSpec { spec: S, supports_parallel_tool_calls: bool },
    RegisterHandler { name: Seq<char>, handler: H },
}

/// The call registers a handler under `n`.
pub open spec fn registers_name<S, H>(call: BuilderCall<S, H>, n: Seq<char>) -> bool {
    call matches BuilderCall::RegisterHandler { name, .. } && name == n
}

/// How a builder changes under one call, as the methods' contracts state it.
pub open spec fn builder_call_effect<S, H>(
    before: ToolRegistryBuilder<S, H>,
    call: BuilderCall<S, H>,
    after: ToolRegistryBuilder<S, H>,
) -> bool {
    match call {
        BuilderCall::PushSpec { spec, supports_parallel_tool_calls } => {
            &&& after.handlers_view() == before.handlers_view()
            &&& after.specs_view() == before.specs_view().push(
                ConfiguredToolSpec { spec, supports_parallel_tool_calls },
            )
        },
        BuilderCall::RegisterHandler { name, handler } => {
            &&& after.handlers_view() == before.handlers_view().insert(name, handler)
            &&& after.specs_view() == before.specs_view()
        },
    }
}

/// Call `i` registers `handler` under `n`, and no later call registers `n`.
pub open spec fn is_last_registration<S, H>(
    calls: Seq<BuilderCall<S, H>>,
    i: int,
    n: Seq<char>,
    handler: H,
) -> bool {
    &&& 0 <= i < calls.len()
    &&& calls[i] == (BuilderCall::<S, H>::RegisterHandler { name: n, handler })
    &&& forall|j: int| i < j < calls.len() ==> !registers_name(#[trigger] calls[j], n)
}

/// The pushed specifications of a run of calls, in the order of the calls.
pub open spec fn pushed_specs<S, H>(calls: Seq<BuilderCall<S, H>>) -> Seq<ConfiguredToolSpec<S>>
    decreases calls.len(),
{
    if calls.len() == 0 {
        Seq::empty()
    } else {
        match calls.last() {
            BuilderCall::PushSpec { spec, supports_parallel_tool_calls } => pushed_specs(
                calls.drop_last(),
            ).push(ConfiguredToolSpec { spec, supports_parallel_tool_calls }),
            BuilderCall::RegisterHandler { .. } => pushed_specs(calls.drop_last()),
        }
    }
}

/// Whatever the order of pushes and registrations on a new builder, the
/// builder ends with every pushed specification, duplicates included, in the
/// order of the pushes; it has a handler for exactly the names registered,
/// and for each such name the handler of its last registration.
pub proof fn law_builder_keeps_pushes_and_last_registrations<S, H>(
    calls: Seq<BuilderCall<S, H>>,
    builders: Seq<ToolRegistryBuilder<S, H>>,
)
    requires
        builders.len() == calls.len() + 1,
        builders[0].specs_view() == Seq::<ConfiguredToolSpec<S>>::empty(),
        builders[0].handlers_view() == Map::<Seq<char>, H>::empty(),
        forall|i: int|
            0 <= i < calls.len() ==> builder_call_effect(
                builders[i],
                #[trigger] calls[i],
                builders[i + 1],
            ),
    ensures
        builders.last().specs_view() == pushed_specs(calls),
        forall|n: Seq<char>| #[trigger]
            builders.last().handlers_view().contains_key(n) <==> exists|i: int|
                0 <= i < calls.len() && registers_name(#[trigger] calls[i], n),
        forall|n: Seq<char>| #[trigger]
            builders.last().handlers_view().contains_key(n) ==> (exists|i: int|
                is_last_registration(calls, i, n, builders.last().handlers_view()[n])),
    decreases calls.len(),
{
    if calls.len() > 0 {
        let k = calls.len() - 1;
        let pc = calls.drop_last();
        let pb = builders.drop_last();
        assert forall|i: int| 0 <= i < pc.len() implies builder_call_effect(
            pb[i],
            #[trigger] pc[i],
            pb[i + 1],
        ) by {
            assert(pc[i] == calls[i]);
            assert(builder_call_effect(builders[i], calls[i], builders[i + 1]));
        }
        law_builder_keeps_pushes_and_last_registrations(pc, pb);
        let before = pb.last();
        let after = builders.last();
        assert(before == builders[k]);
        assert(after == builders[k + 1]);
        assert(builder_call_effect(builders[k], calls[k], builders[k + 1]));
        assert(calls.last() == calls[k]);
        assert forall|n: Seq<char>| #[trigger]
            after.handlers_view().contains_key(n) <==> exists|i: int|
                0 <= i < calls.len() && registers_name(#[trigger] calls[i], n) by {
            if after.handlers_view().contains_key(n) {
                if registers_name(calls[k], n) {
                } else {
                    assert(before.handlers_view().contains_key(n));
                    let i = choose|i: int| 0 <= i < pc.len() && registers_name(#[trigger] pc[i], n);
                    assert(pc[i] == calls[i]);
                }
            }
            if exists|i: int| 0 <= i < calls.len() && registers_name(#[trigger] calls[i], n) {
                let i = choose|i: int| 0 <= i < calls.len() && registers_name(#[trigger] calls[i], n);
                if i < k {
                    assert(pc[i] == calls[i]);
                    assert(registers_name(pc[i], n));
                }
            }
        }
        assert forall|n: Seq<char>| #[trigger]
            after.handlers_view().contains_key(n) implies (exists|i: int|
                is_last_registration(calls, i, n, after.handlers_view()[n])) by {
            if registers_name(calls[k], n) {
                assert(is_last_registration(calls, k, n, after.handlers_view()[n]));
            } else {
                assert(before.handlers_view().contains_key(n));
                assert(after.handlers_view()[n] == before.handlers_view()[n]);
                let i = choose|i: int| is_last_registration(pc, i, n, before.handlers_view()[n]);
                assert(pc[i] == calls[i]);
                assert forall|j: int| i < j < calls.len() implies !registers_name(
                    #[trigger] calls[j],
                    n,
                ) by {
                    if j < k {
                        assert(pc[j] == calls[j]);
                    }
                }
                assert(is_last_registration(calls, i, n, after.handlers_view()[n]));
            }
        }
    }
}

/// Registering a handler twice under one name, with other calls between:
/// the builder then holds the later handler under that name, every other
/// name keeps the handler it had, and the specifications are untouched.
pub proof fn law_last_registration_wins<S, H>(
    b0: ToolRegistryBuilder<S, H>,
    b1: ToolRegistryBuilder<S, H>,
    b2: ToolRegistryBuilder<S, H>,
    b3: ToolRegistryBuilder<S, H>,
    name: Seq<char>,
    first: H,
    middle: BuilderCall<S, H>,
    second: H,
    other: Seq<char>,
)
    requires
        builder_call_effect(b0, BuilderCall::RegisterHandler { name, handler: first }, b1),
        builder_call_effect(b1, middle, b2),
        !registers_name(middle, name),
        builder_call_effect(b2, BuilderCall::RegisterHandler { name, handler: second }, b3),
        other != name,
    ensures
        b3.handlers_view().contains_key(name),
        b3.handlers_view()[name] == second,
        b3.handlers_view().contains_key(other) == b2.handlers_view().contains_key(other),
        b2.handlers_view().contains_key(other) ==> b3.handlers_view()[other]
            == b2.handlers_view()[other],
        b1.handlers_view()[name] == first,
        b2.handlers_view()[name] == first,
        b3.specs_view() == b2.specs_view(),
{
}

/// Two lists with the same names and handlers in the same order have the same lookups.
proof fn lemma_lookup_names_only<H>(a: Seq<(String, H)>, b: Seq<(String, H)>, k: Seq<char>)
    requires
        a.len() == b.len(),
        forall|i: int| 0 <= i < a.len() ==> (#[trigger] a[i]).0@ == b[i].0@ && a[i].1 == b[i].1,
    ensures
        lookup(a, k) == lookup(b, k),
    decreases a.len(),
{
    if a.len() > 0 {
        assert(a.last() == a[a.len() - 1]);
        assert(b.last() == b[b.len() - 1]);
        let da = a.drop_last();
        let db = b.drop_last();
        assert forall|i: int| 0 <= i < da.len() implies (#[trigger] da[i]).0@ == db[i].0@ && da[i].1
            == db[i].1 by {
            assert(da[i] == a[i] && db[i] == b[i]);
        }
        lemma_lookup_names_only(da, db, k);
    }
}


/// The sandbox a turn runs its tools in.
#[derive(Debug, Clone, Copy, PartialEq, Eq)]
pub enum SandboxPolicy {
    ReadOnly,
    WorkspaceWrite,
    DangerFullAccess,
    ExternalSandbox,
}

pub open spec fn spec_sandbox_policy_tag(p: SandboxPolicy) -> Seq<char> {
    match p {
        SandboxPolicy::ReadOnly => "read-only"@,
        SandboxPolicy::WorkspaceWrite => "workspace-write"@,
        SandboxPolicy::DangerFullAccess => "danger-full-access"@,
        SandboxPolicy::ExternalSandbox => "external-sandbox"@,
    }
}

/// The tag that names a sandbox policy in hook payloads and metrics.
pub fn sandbox_policy_tag(policy: &SandboxPolicy) -> (r: &'static str)
    ensures
        r@ == spec_sandbox_policy_tag(*policy),
{
    match policy {
        SandboxPolicy::ReadOnly => "read-only",
        SandboxPolicy::WorkspaceWrite => "workspace-write",
        SandboxPolicy::DangerFullAccess => "danger-full-access",
        SandboxPolicy::ExternalSandbox => "external-sandbox",
    }
}

pub open spec fn opt_strings_view(o: Option<Vec<String>>) -> Option<Seq<String>> {
    match o {
        Some(v) => Some(v@),
        None => None,
    }
}

/// The hook input carries the payload's fields unchanged, variant for variant.
pub open spec fn spec_hook_input_of(payload: ToolPayload, input: HookToolInput) -> bool {
    match payload {
        ToolPayload::Function { arguments } => input == HookToolInput::Function { arguments },
        ToolPayload::Custom { input: text } => input == HookToolInput::Custom { input: text },
        ToolPayload::LocalShell { params } => match input {
            HookToolInput::LocalShell { params: p } => {
                &&& p.command@ == params.command@
                &&& p.workdir == params.workdir
                &&& p.timeout_ms == params.timeout_ms
                &&& p.sandbox_permissions == params.sandbox_permissions
                &&& opt_strings_view(p.prefix_rule) == opt_strings_view(params.prefix_rule)
                &&& p.justification == params.justification
            },
            _ => false,
        },
        ToolPayload::Mcp { server, tool, raw_arguments } => input == HookToolInput::Mcp {
            server,
            tool,
            arguments: raw_arguments,
        },
    }
}

fn clone_opt_string(o: &Option<String>) -> (r: Option<String>)
    ensures
        r == *o,
{
    match o {
        Some(s) => Some(s.clone()),
        None => None,
    }
}

/// The tool input as hooks see it: the same data in the hooks' own shape.
pub fn hook_tool_input(payload: &ToolPayload) -> (r: HookToolInput)
    ensures
        spec_hook_input_of(*payload, r),
{
    match payload {
        ToolPayload::Function { arguments } => HookToolInput::Function {
            arguments: arguments.clone(),
        },
        ToolPayload::Custom { input } => HookToolInput::Custom { input: input.clone() },
        ToolPayload::LocalShell { params } => HookToolInput::LocalShell {
            params: HookToolInputLocalShell {
                command: clone_strings(&params.command),
                workdir: clone_opt_string(&params.workdir),
                timeout_ms: params.timeout_ms,
                sandbox_permissions: clone_opt_string(&params.sandbox_permissions),
                prefix_rule: match &params.prefix_rule {
                    Some(v) => Some(clone_strings(v)),
                    None => None,
                },
                justification: clone_opt_string(&params.justification),
            },
        },
        ToolPayload::Mcp { server, tool, raw_arguments } => HookToolInput::Mcp {
            server: server.clone(),
            tool: tool.clone(),
            arguments: raw_arguments.clone(),
        },
    }
}

} // verus!
