use codex_hooks_core::hook_summary::{
    hooks_popup, matcher_summary, shell_preview, summarize_configured_hooks, ConfiguredHandler,
    ConfiguredHookSummary, HookConfigurationSource, HookConfigurationSummary, HookEventName,
};
use codex_hooks_core::hooks_table::{hooks_table_lines, HookCommandConfigEntry};

fn handler(event_name: HookEventName, matcher: Option<&str>, command: &str, timeout_sec: u64) -> ConfiguredHandler {
    ConfiguredHandler {
        event_name,
        matcher: matcher.map(str::to_string),
        command: command.to_string(),
        timeout_sec,
        status_message: None,
        source_path: "/tmp/project/hooks.json".to_string(),
    }
}

#[test]
fn summarize_configured_hooks_lists_discovered_handlers_and_notify() {
    let handlers = vec![
        handler(HookEventName::PreToolUse, Some("Edit"), "python3 pre.py", 5),
        handler(HookEventName::UserPromptSubmit, None, "python3 prompt.py", 600),
    ];
    let summary = summarize_configured_hooks(
        &handlers,
        Vec::new(),
        true,
        true,
        &Some(vec!["notify-send".to_string(), "Codex".to_string()]),
        false,
    );

    assert_eq!(summary.total_hook_count(), 3);
    assert_eq!(summary.warnings, Vec::<String>::new());
    assert_eq!(summary.hooks[0].source, HookConfigurationSource::HooksJson);
    assert_eq!(summary.hooks[0].label, "PreToolUse · Edit");
    assert!(summary.hooks[0].description.contains("timeout: 5s"));
    assert_eq!(summary.hooks[1].label, "UserPromptSubmit");
    assert_eq!(summary.hooks[2].source, HookConfigurationSource::ConfigToml);
    assert_eq!(summary.hooks[2].label, "Notification");
}

#[test]
fn summarize_configured_hooks_warns_when_hooks_are_present_but_disabled() {
    let handlers = vec![handler(HookEventName::Stop, None, "echo stop", 600)];
    let summary = summarize_configured_hooks(&handlers, Vec::new(), true, false, &None, false);

    assert!(summary.hooks.is_empty());
    assert_eq!(summary.warnings.len(), 1);
    assert!(summary.warnings[0].contains("feature is disabled"));
}

#[test]
fn summary_descriptions_and_previews() {
    let mut h = handler(HookEventName::PreToolUse, Some("^Bash$"), "python3 pre.py", 30);
    h.status_message = Some("checking".to_string());
    let summary = summarize_configured_hooks(&vec![h], vec!["w".to_string()], true, true, &None, false);
    assert_eq!(summary.hooks[0].label, "PreToolUse · Bash");
    assert_eq!(
        summary.hooks[0].description,
        "Command hook from /tmp/project/hooks.json; matcher: Bash; timeout: 30s; status: checking"
    );
    assert_eq!(summary.hooks[0].command_preview, "python3 pre.py");
    assert_eq!(summary.warnings, vec!["w".to_string()]);

    let windows = summarize_configured_hooks(
        &vec![handler(HookEventName::Stop, None, "x", 1)],
        Vec::new(),
        true,
        true,
        &Some(vec!["n".to_string()]),
        true,
    );
    assert_eq!(windows.hooks.len(), 1);
    assert_eq!(windows.hooks[0].label, "Notification");
    assert_eq!(windows.hooks[0].description, "Legacy notify command after each completed turn");
    assert_eq!(windows.warnings.len(), 1);
    assert!(windows.warnings[0].contains("not supported on Windows"));

    let disabled_notify = summarize_configured_hooks(
        &Vec::new(),
        Vec::new(),
        false,
        false,
        &Some(vec!["n".to_string(), "a".to_string()]),
        false,
    );
    assert_eq!(
        disabled_notify.hooks[0].description,
        "Legacy notify command after each completed turn; available even when `codex_hooks` is disabled"
    );
    assert_eq!(disabled_notify.hooks[0].command_preview, "n a");
    let no_program = summarize_configured_hooks(&Vec::new(), Vec::new(), false, true, &Some(vec![String::new()]), false);
    assert!(no_program.hooks.is_empty());
}

#[test]
fn matcher_summary_cases() {
    assert_eq!(matcher_summary("*"), "*");
    assert_eq!(matcher_summary("^.*$"), "*");
    assert_eq!(matcher_summary("^Edit$"), "Edit");
    assert_eq!(matcher_summary("^Edit"), "^Edit");
    assert_eq!(matcher_summary("Edit$"), "Edit$");
    assert_eq!(matcher_summary("^"), "^");
    assert_eq!(matcher_summary("^$"), "");
}

#[test]
fn shell_preview_shortens_long_commands_to_program_name() {
    assert_eq!(shell_preview("echo hi"), "echo hi");
    let long = format!("/usr/local/bin/my-hook {}", "x".repeat(80));
    assert_eq!(shell_preview(&long), "my-hook ...");
    let exactly = "a".repeat(72);
    assert_eq!(shell_preview(&exactly), exactly);
    let spaces = " ".repeat(73);
    assert_eq!(shell_preview(&spaces), "command ...");
    let dots = format!(".. {}", "y".repeat(80));
    assert_eq!(shell_preview(&dots), "command ...");
}

fn hook(source: HookConfigurationSource, label: &str) -> ConfiguredHookSummary {
    ConfiguredHookSummary {
        source,
        label: label.to_string(),
        description: format!("{label} description"),
        command_preview: "run it".to_string(),
    }
}

#[test]
fn hooks_popup_lists_hooks() {
    let summary = HookConfigurationSummary {
        hooks: vec![
            hook(HookConfigurationSource::HooksJson, "PreToolUse · Edit"),
            hook(HookConfigurationSource::ConfigToml, "Notification"),
        ],
        warnings: vec!["careful".to_string()],
    };
    let popup = hooks_popup(&summary);
    assert_eq!(popup.view_id, "hooks-selection");
    assert_eq!(popup.title, "Hooks");
    assert_eq!(popup.subtitle, "2 hooks discovered");
    assert!(popup.footer_note.ends_with("Some configured hooks may be inactive or skipped."));
    assert_eq!(popup.items.len(), 2);
    assert_eq!(popup.items[0].name_prefix.as_deref(), Some("hooks.json · "));
    assert_eq!(popup.items[1].name_prefix.as_deref(), Some("config.toml · "));
    assert_eq!(popup.items[0].description.as_deref(), Some("run it"));
    assert_eq!(
        popup.items[0].selected_description.as_deref(),
        Some("PreToolUse · Edit description\nCommand: run it")
    );
    assert_eq!(popup.initial_selected_idx, Some(0));
}

#[test]
fn hooks_popup_when_nothing_is_active() {
    let empty = hooks_popup(&HookConfigurationSummary::default());
    assert_eq!(empty.subtitle, "No active hooks discovered");
    assert_eq!(empty.items.len(), 1);
    assert!(empty.items[0].is_disabled);
    assert_eq!(
        empty.items[0].description.as_deref(),
        Some("Edit hooks.json or config.toml directly to add hooks.")
    );
    assert_eq!(empty.initial_selected_idx, None);
    assert_eq!(
        empty.footer_note,
        "This menu is read-only. It shows the hooks discovered for this session."
    );
    let warned = hooks_popup(&HookConfigurationSummary {
        hooks: Vec::new(),
        warnings: vec!["feature is disabled".to_string(), "other".to_string()],
    });
    assert_eq!(warned.items[0].description.as_deref(), Some("feature is disabled"));
    let one = hooks_popup(&HookConfigurationSummary {
        hooks: vec![hook(HookConfigurationSource::ConfigToml, "Notification")],
        warnings: Vec::new(),
    });
    assert_eq!(one.subtitle, "1 hook discovered");
}

#[test]
fn hooks_table_pads_columns() {
    let entries = vec![
        HookCommandConfigEntry {
            config_key: "notify_on_turn_completed".to_string(),
            event_type: "turn_completed".to_string(),
            commands: vec![
                vec!["python3".to_string(), "/a.py".to_string()],
                vec!["bash".to_string(), "/b.sh".to_string()],
            ],
        },
        HookCommandConfigEntry {
            config_key: "notify".to_string(),
            event_type: "after_agent".to_string(),
            commands: vec![vec!["notify-send".to_string()]],
        },
    ];
    let lines = hooks_table_lines(&entries);
    assert_eq!(
        lines,
        vec![
            "Event           Config Key                Command      ".to_string(),
            "turn_completed  notify_on_turn_completed  python3 /a.py".to_string(),
            "turn_completed  notify_on_turn_completed  bash /b.sh   ".to_string(),
            "after_agent     notify                    notify-send  ".to_string(),
        ]
    );
    assert_eq!(
        hooks_table_lines(&Vec::new()),
        vec!["No hooks configured. Add `notify`/`notify_on_*` entries in config.toml.".to_string()]
    );
}

#[test]
fn hooks_table_widths_count_bytes_and_padding_counts_characters() {
    let entries = vec![HookCommandConfigEntry {
        config_key: "k".to_string(),
        event_type: "é".to_string(),
        commands: vec![vec!["c".to_string()]],
    }];
    let lines = hooks_table_lines(&entries);
    let expected_header = format!("{:<5}  {:<10}  {:<7}", "Event", "Config Key", "Command");
    let expected_row = format!("{:<5}  {:<10}  {:<7}", "é", "k", "c");
    assert_eq!(lines, vec![expected_header, expected_row]);
}
