use vstd::prelude::*;
use vstd::utf8::encode_utf8;

use crate::text::{
    decimal, file_name, first_word, first_word_of, join_strings, join_with, path_file_name,
    push_decimal, string_views,
};

verus! {

/// Where a configured hook was found.
#[derive(Debug, Clone, Copy, PartialEq, Eq)]
pub enum HookConfigurationSource {
    HooksJson,
    ConfigToml,
}

pub open spec fn spec_source_label(s: HookConfigurationSource) -> Seq<char> {
    match s {
        HookConfigurationSource::HooksJson => "hooks.json"@,
        HookConfigurationSource::ConfigToml => "config.toml"@,
    }
}

impl HookConfigurationSource {
    /// The name of the file the hook was configured in.
    pub fn label(self) -> (r: &'static str)
        ensures
            r@ == spec_source_label(self),
    {
        match self {
            HookConfigurationSource::HooksJson => "hooks.json",
            HookConfigurationSource::ConfigToml => "config.toml",
        }
    }
}

/// One configured hook as listed to the user.
#[derive(Debug, Clone, PartialEq, Eq)]
pub struct ConfiguredHookSummary {
    pub source: HookConfigurationSource,
    pub label: String,
    pub description: String,
    pub command_preview: String,
}

/// The configured hooks and the warnings about them.
#[derive(Debug, Clone, PartialEq, Eq, Default)]
pub struct HookConfigurationSummary {
    pub hooks: Vec<ConfiguredHookSummary>,
    pub warnings: Vec<String>,
}

impl HookConfigurationSummary {
    pub fn total_hook_count(&self) -> (r: usize)
        ensures
            r == self.hooks@.len(),
    {
        self.hooks.len()
    }
}

/// The events that `hooks.json` hooks can be registered for.
#[derive(Debug, Clone, Copy, PartialEq, Eq)]
pub enum HookEventName {
    PreToolUse,
    PostToolUse,
    SessionStart,
    UserPromptSubmit,
    Stop,
}

/// A command hook discovered in a `hooks.json`.
#[derive(Debug, Clone, PartialEq, Eq)]
pub struct ConfiguredHandler {
    pub event_name: HookEventName,
    pub matcher: Option<String>,
    pub command: String,
    pub timeout_sec: u64,
    pub status_message: Option<String>,
    pub source_path: String,
}

pub open spec fn spec_event_label(e: HookEventName) -> Seq<char> {
    match e {
        HookEventName::PreToolUse => "PreToolUse"@,
        HookEventName::PostToolUse => "PostToolUse"@,
        HookEventName::SessionStart => "SessionStart"@,
        HookEventName::UserPromptSubmit => "UserPromptSubmit"@,
        HookEventName::Stop => "Stop"@,
    }
}

pub fn event_label(event_name: HookEventName) -> (r: &'static str)
    ensures
        r@ == spec_event_label(event_name),
{
    match event_name {
        HookEventName::PreToolUse => "PreToolUse",
        HookEventName::PostToolUse => "PostToolUse",
        HookEventName::SessionStart => "SessionStart",
        HookEventName::UserPromptSubmit => "UserPromptSubmit",
        HookEventName::Stop => "Stop",
    }
}

/// A matcher as shown to the user: `*` for the match-everything patterns,
/// the inside of a `^...$` anchored pattern, or the matcher as written.
pub open spec fn spec_matcher_summary(m: Seq<char>) -> Seq<char> {
    if m == seq!['*'] || m == seq!['^', '.', '*', '$'] {
        seq!['*']
    } else if m.len() >= 1 && m[0] == '^' && m.drop_first().len() >= 1 && m.drop_first().last()
        == '$' {
        m.drop_first().drop_last()
    } else {
        m
    }
}

pub fn matcher_summary(matcher: &str) -> (r: String)
    ensures
        r@ == spec_matcher_summary(matcher@),
{
    let n = matcher.unicode_len();
    if n == 1 && matcher.get_char(0) == '*' {
        assert(matcher@ =~= seq!['*']);
        let mut s = String::new();
        crate::text::push_char(&mut s, '*');
        return s;
    }
    if n == 4 && matcher.get_char(0) == '^' && matcher.get_char(1) == '.' && matcher.get_char(2)
        == '*' && matcher.get_char(3) == '$' {
        assert(matcher@ =~= seq!['^', '.', '*', '$']);
        let mut s = String::new();
        crate::text::push_char(&mut s, '*');
        return s;
    }
    proof {
        if matcher@ == seq!['*'] {
            assert(matcher@[0] == '*');
        }
        if matcher@ == seq!['^', '.', '*', '$'] {
            assert(matcher@[0] == '^' && matcher@[1] == '.' && matcher@[2] == '*' && matcher@[3] == '$');
        }
    }
    if n >= 2 && matcher.get_char(0) == '^' && matcher.get_char(n - 1) == '$' {
        assert(matcher@.drop_first().last() == matcher@[n - 1]);
        let inner = matcher.substring_char(1, n - 1);
        assert(inner@ =~= matcher@.drop_first().drop_last());
        String::from_str(inner)
    } else {
        proof {
            if n >= 1 && matcher@[0] == '^' && matcher@.drop_first().len() >= 1 {
                assert(matcher@.drop_first().last() == matcher@[n - 1]);
            }
        }
        String::from_str(matcher)
    }
}

pub const SHELL_PREVIEW_MAX_LEN: usize = 72;

/// A command as shown to the user: the command itself when it is at most 72
/// bytes long, else the file name of its program and ` ...`.
pub open spec fn spec_shell_preview(command: Seq<char>) -> Seq<char> {
    if encode_utf8(command).len() <= SHELL_PREVIEW_MAX_LEN {
        command
    } else {
        let program = match first_word(command) {
            Some(w) => match path_file_name(w) {
                Some(f) => f,
                None => "command"@,
            },
            None => "command"@,
        };
        program + " ..."@
    }
}

pub fn shell_preview(command: &str) -> (r: String)
    ensures
        r@ == spec_shell_preview(command@),
{
    if command.as_bytes().len() <= SHELL_PREVIEW_MAX_LEN {
        return String::from_str(command);
    }
    let program = match first_word_of(command) {
        Some(w) => match file_name(w.as_str()) {
            Some(f) => f,
            None => String::from_str("command"),
        },
        None => String::from_str("command"),
    };
    let mut out = program;
    out.append(" ...");
    out
}

pub open spec fn opt_view(o: Option<String>) -> Option<Seq<char>> {
    match o {
        Some(s) => Some(s@),
        None => None,
    }
}

/// The label of a discovered hook: its event, and the matcher when there is one.
pub open spec fn spec_handler_label(h: ConfiguredHandler) -> Seq<char> {
    match h.matcher {
        Some(m) => spec_event_label(h.event_name) + " · "@ + spec_matcher_summary(m@),
        None => spec_event_label(h.event_name),
    }
}

/// Where a discovered hook comes from, its matcher, its timeout in seconds and
/// its status message, as one line.
pub open spec fn spec_handler_description(h: ConfiguredHandler) -> Seq<char> {
    let base = "Command hook from "@ + h.source_path@;
    let with_matcher = match h.matcher {
        Some(m) => base + "; matcher: "@ + spec_matcher_summary(m@),
        None => base,
    };
    let with_timeout = with_matcher + "; timeout: "@ + decimal(h.timeout_sec as nat) + "s"@;
    match h.status_message {
        Some(s) => with_timeout + "; status: "@ + s@,
        None => with_timeout,
    }
}

pub open spec fn spec_handler_summary(h: ConfiguredHandler, s: ConfiguredHookSummary) -> bool {
    &&& s.source == HookConfigurationSource::HooksJson
    &&& s.label@ == spec_handler_label(h)
    &&& s.description@ == spec_handler_description(h)
    &&& s.command_preview@ == spec_shell_preview(h.command@)
}

fn summarize_handler(h: &ConfiguredHandler) -> (r: ConfiguredHookSummary)
    ensures
        spec_handler_summary(*h, r),
{
    let mut label = String::from_str(event_label(h.event_name));
    let mut description = String::from_str("Command hook from ");
    description.append(h.source_path.as_str());
    match &h.matcher {
        Some(m) => {
            let summary = matcher_summary(m.as_str());
            label.append(" · ");
            label.append(summary.as_str());
            description.append("; matcher: ");
            description.append(summary.as_str());
        },
        None => {},
    }
    description.append("; timeout: ");
    push_decimal(&mut description, h.timeout_sec);
    description.append("s");
    match &h.status_message {
        Some(s) => {
            description.append("; status: ");
            description.append(s.as_str());
        },
        None => {},
    }
    ConfiguredHookSummary {
        source: HookConfigurationSource::HooksJson,
        label,
        description,
        command_preview: shell_preview(h.command.as_str()),
    }
}

/// One summary per discovered hook, in the order they were discovered.
pub fn summarize_discovered_handlers(handlers: &Vec<ConfiguredHandler>) -> (r: Vec<
    ConfiguredHookSummary,
>)
    ensures
        r@.len() == handlers@.len(),
        forall|i: int| 0 <= i < r@.len() ==> spec_handler_summary(handlers@[i], #[trigger] r@[i]),
{
    let mut out: Vec<ConfiguredHookSummary> = Vec::new();
    let mut i: usize = 0;
    while i < handlers.len()
        invariant
            0 <= i <= handlers@.len(),
            out@.len() == i,
            forall|j: int| 0 <= j < i ==> spec_handler_summary(handlers@[j], #[trigger] out@[j]),
        decreases handlers@.len() - i,
    {
        out.push(summarize_handler(&handlers[i]));
        i = i + 1;
    }
    out
}

pub open spec fn legacy_notify_description(feature_enabled: bool) -> Seq<char> {
    if feature_enabled {
        "Legacy notify command after each completed turn"@
    } else {
        "Legacy notify command after each completed turn"@
            + "; available even when `codex_hooks` is disabled"@
    }
}

/// The summary of the legacy notify command: present when the command line
/// has a non-empty program; its preview shows the whole command line.
pub open spec fn spec_legacy_notify(
    argv: Option<Vec<String>>,
    feature_enabled: bool,
    r: Option<ConfiguredHookSummary>,
) -> bool {
    match argv {
        Some(a) => if a@.len() > 0 && a@[0]@.len() > 0 {
            r matches Some(s) && s.source == HookConfigurationSource::ConfigToml && s.label@
                == "Notification"@ && s.description@ == legacy_notify_description(feature_enabled)
                && s.command_preview@ == spec_shell_preview(
                join_with(string_views(a@), " "@),
            )
        } else {
            r is None
        },
        None => r is None,
    }
}

pub fn summarize_legacy_notify(argv: &Option<Vec<String>>, feature_enabled: bool) -> (r: Option<
    ConfiguredHookSummary,
>)
    ensures
        spec_legacy_notify(*argv, feature_enabled, r),
{
    let a = match argv {
        Some(a) => a,
        None => return None,
    };
    if a.len() == 0 || a[0].as_str().unicode_len() == 0 {
        return None;
    }
    let mut description = String::from_str("Legacy notify command after each completed turn");
    if !feature_enabled {
        description.append("; available even when `codex_hooks` is disabled");
    }
    let joined = join_strings(a, " ");
    Some(
        ConfiguredHookSummary {
            source: HookConfigurationSource::ConfigToml,
            label: String::from_str("Notification"),
            description,
            command_preview: shell_preview(joined.as_str()),
        },
    )
}

pub open spec fn disabled_feature_warning() -> Seq<char> {
    "hooks.json lifecycle hooks are configured, but the `codex_hooks` feature is disabled for this session."@
}

pub open spec fn windows_warning() -> Seq<char> {
    "Disabled `codex_hooks` for this session because `hooks.json` lifecycle hooks are not supported on Windows yet."@
}

/// The warnings of a summary: those of discovery, then one when a
/// `hooks.json` exists but the feature is off, then one when it exists on Windows.
pub open spec fn spec_summary_warnings(
    discovered: Seq<String>,
    has_hooks_json: bool,
    feature_enabled: bool,
    on_windows: bool,
) -> Seq<Seq<char>> {
    let base = string_views(discovered);
    let w1 = if has_hooks_json && !feature_enabled {
        base.push(disabled_feature_warning())
    } else {
        base
    };
    if has_hooks_json && on_windows {
        w1.push(windows_warning())
    } else {
        w1
    }
}

/// The summary of the configured hooks: the discovered `hooks.json` hooks
/// when the feature is on (and not on Windows), then the legacy notify command.
pub fn summarize_configured_hooks(
    discovered_handlers: &Vec<ConfiguredHandler>,
    discovered_warnings: Vec<String>,
    has_hooks_json: bool,
    feature_enabled: bool,
    legacy_notify_argv: &Option<Vec<String>>,
    on_windows: bool,
) -> (r: HookConfigurationSummary)
    ensures
        string_views(r.warnings@) == spec_summary_warnings(
            discovered_warnings@,
            has_hooks_json,
            feature_enabled,
            on_windows,
        ),
        ({
            let n = if feature_enabled && !on_windows {
                discovered_handlers@.len()
            } else {
                0
            };
            &&& forall|i: int|
                0 <= i < n ==> spec_handler_summary(discovered_handlers@[i], #[trigger] r.hooks@[i])
            &&& n <= r.hooks@.len() <= n + 1
            &&& spec_legacy_notify(
                *legacy_notify_argv,
                feature_enabled,
                if r.hooks@.len() > n {
                    Some(r.hooks@[n as int])
                } else {
                    None
                },
            )
        }),
{
    let mut warnings = discovered_warnings;
    let ghost base = string_views(warnings@);
    if has_hooks_json && !feature_enabled {
        warnings.push(
            String::from_str(
                "hooks.json lifecycle hooks are configured, but the `codex_hooks` feature is disabled for this session.",
            ),
        );
    }
    let ghost w1 = string_views(warnings@);
    assert(w1 =~= if has_hooks_json && !feature_enabled {
        base.push(disabled_feature_warning())
    } else {
        base
    });
    if has_hooks_json && on_windows {
        warnings.push(
            String::from_str(
                "Disabled `codex_hooks` for this session because `hooks.json` lifecycle hooks are not supported on Windows yet.",
            ),
        );
    }
    assert(string_views(warnings@) =~= if has_hooks_json && on_windows {
        w1.push(windows_warning())
    } else {
        w1
    });
    let mut hooks: Vec<ConfiguredHookSummary> = if feature_enabled && !on_windows {
        summarize_discovered_handlers(discovered_handlers)
    } else {
        Vec::new()
    };
    let legacy = summarize_legacy_notify(legacy_notify_argv, feature_enabled);
    match legacy {
        Some(s) => hooks.push(s),
        None => {},
    }
    HookConfigurationSummary { hooks, warnings }
}


pub const HOOKS_SELECTION_VIEW_ID: &'static str = "hooks-selection";

/// One entry of the read-only hooks menu.
#[derive(Debug, Clone, PartialEq, Eq)]
pub struct HooksPopupItem {
    pub name: String,
    pub name_prefix: Option<String>,
    pub description: Option<String>,
    pub selected_description: Option<String>,
    pub is_disabled: bool,
}

/// The contents of the read-only hooks menu.
#[derive(Debug, Clone, PartialEq, Eq)]
pub struct HooksPopup {
    pub view_id: &'static str,
    pub title: String,
    pub subtitle: String,
    pub footer_note: String,
    pub items: Vec<HooksPopupItem>,
    pub initial_selected_idx: Option<usize>,
}

pub open spec fn spec_popup_subtitle(count: nat) -> Seq<char> {
    if count == 0 {
        "No active hooks discovered"@
    } else if count == 1 {
        "1 hook discovered"@
    } else {
        decimal(count) + " hooks discovered"@
    }
}

pub open spec fn spec_popup_footer(has_warnings: bool) -> Seq<char> {
    if has_warnings {
        "This menu is read-only. It shows the hooks discovered for this session. Some configured hooks may be inactive or skipped."@
    } else {
        "This menu is read-only. It shows the hooks discovered for this session."@
    }
}

/// The menu entry for a configured hook.
pub open spec fn spec_popup_item(h: ConfiguredHookSummary, item: HooksPopupItem) -> bool {
    &&& item.name@ == h.label@
    &&& item.name_prefix matches Some(p) && p@ == spec_source_label(h.source) + " · "@
    &&& item.description matches Some(d) && d@ == h.command_preview@
    &&& item.selected_description matches Some(d) && d@ == h.description@ + "\nCommand: "@
        + h.command_preview@
    &&& !item.is_disabled
}

/// The single disabled entry shown when no hook is active; it explains why
/// with the first warning, or says how to add hooks.
pub open spec fn spec_empty_popup_item(warnings: Seq<String>, item: HooksPopupItem) -> bool {
    &&& item.name@ == "No active hooks discovered"@
    &&& item.name_prefix is None
    &&& item.description matches Some(d) && d@ == if warnings.len() > 0 {
        warnings[0]@
    } else {
        "Edit hooks.json or config.toml directly to add hooks."@
    }
    &&& item.selected_description is None
    &&& item.is_disabled
}

fn popup_item(h: &ConfiguredHookSummary) -> (r: HooksPopupItem)
    ensures
        spec_popup_item(*h, r),
{
    let mut prefix = String::from_str(h.source.label());
    prefix.append(" · ");
    let mut selected = h.description.clone();
    selected.append("\nCommand: ");
    selected.append(h.command_preview.as_str());
    HooksPopupItem {
        name: h.label.clone(),
        name_prefix: Some(prefix),
        description: Some(h.command_preview.clone()),
        selected_description: Some(selected),
        is_disabled: false,
    }
}

/// The read-only menu listing the hooks of a summary.
pub fn hooks_popup(summary: &HookConfigurationSummary) -> (r: HooksPopup)
    ensures
        r.view_id@ == HOOKS_SELECTION_VIEW_ID@,
        r.title@ == "Hooks"@,
        r.subtitle@ == spec_popup_subtitle(summary.hooks@.len()),
        r.footer_note@ == spec_popup_footer(summary.warnings@.len() > 0),
        summary.hooks@.len() == 0 ==> r.items@.len() == 1 && spec_empty_popup_item(
            summary.warnings@,
            r.items@[0],
        ),
        summary.hooks@.len() > 0 ==> r.items@.len() == summary.hooks@.len() && forall|i: int|
            0 <= i < r.items@.len() ==> spec_popup_item(summary.hooks@[i], #[trigger] r.items@[i]),
        r.initial_selected_idx == if summary.hooks@.len() > 0 {
            Some(0usize)
        } else {
            None
        },
{
    let total = summary.total_hook_count();
    let subtitle = if total == 0 {
        String::from_str("No active hooks discovered")
    } else if total == 1 {
        String::from_str("1 hook discovered")
    } else {
        let mut t = String::new();
        push_decimal(&mut t, total as u64);
        t.append(" hooks discovered");
        t
    };
    let footer_note = if summary.warnings.len() > 0 {
        String::from_str(
            "This menu is read-only. It shows the hooks discovered for this session. Some configured hooks may be inactive or skipped.",
        )
    } else {
        String::from_str("This menu is read-only. It shows the hooks discovered for this session.")
    };
    let mut items: Vec<HooksPopupItem> = Vec::new();
    if total == 0 {
        let description = if summary.warnings.len() > 0 {
            summary.warnings[0].clone()
        } else {
            String::from_str("Edit hooks.json or config.toml directly to add hooks.")
        };
        items.push(
            HooksPopupItem {
                name: String::from_str("No active hooks discovered"),
                name_prefix: None,
                description: Some(description),
                selected_description: None,
                is_disabled: true,
            },
        );
    } else {
        let mut i: usize = 0;
        while i < summary.hooks.len()
            invariant
                0 <= i <= summary.hooks@.len(),
                items@.len() == i,
                forall|j: int|
                    0 <= j < i ==> spec_popup_item(summary.hooks@[j], #[trigger] items@[j]),
            decreases summary.hooks@.len() - i,
        {
            items.push(popup_item(&summary.hooks[i]));
            i = i + 1;
        }
    }
    HooksPopup {
        view_id: HOOKS_SELECTION_VIEW_ID,
        title: String::from_str("Hooks"),
        subtitle,
        footer_note,
        items,
        initial_selected_idx: if total > 0 {
            Some(0)
        } else {
            None
        },
    }
}

/// A summary's warnings are the discovered ones, in order, then the
/// disabled-feature warning when a `hooks.json` exists and the feature is
/// off, then the Windows warning when a `hooks.json` exists on Windows;
/// without a `hooks.json` they are the discovered warnings alone.
pub proof fn law_summary_warnings(
    discovered: Seq<String>,
    has_hooks_json: bool,
    feature_enabled: bool,
    on_windows: bool,
)
    ensures
        ({
            let w = spec_summary_warnings(discovered, has_hooks_json, feature_enabled, on_windows);
            let off = has_hooks_json && !feature_enabled;
            let windows = has_hooks_json && on_windows;
            let n = discovered.len() as int;
            &&& w.len() == n + (if off { 1int } else { 0int }) + (if windows { 1int } else { 0int })
            &&& forall|i: int| 0 <= i < n ==> #[trigger] w[i] == discovered[i]@
            &&& off ==> w[n]
                == "hooks.json lifecycle hooks are configured, but the `codex_hooks` feature is disabled for this session."@
            &&& windows ==> w.last()
                == "Disabled `codex_hooks` for this session because `hooks.json` lifecycle hooks are not supported on Windows yet."@
            &&& !has_hooks_json ==> w.len() == n
        }),
{
    let base = string_views(discovered);
    assert(base.len() == discovered.len());
    assert forall|i: int| 0 <= i < discovered.len() implies #[trigger] base[i] == discovered[i]@ by {}
}

} // verus!
