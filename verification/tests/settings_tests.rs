use rata_pi::app::{AgentState, App};
use rata_pi::keys::KeyCode;
use rata_pi::settings::{
    build_settings_rows, dispatch_settings_action, mode_display, row_to_action,
    settings_key, settings_row_source_line, AgentCommand, CycleAction, CycleDir, HostInfo,
    QueueMode, SettingsAction, SettingsEffect, SettingsRow, SettingsState, ToggleAction,
};
use rata_pi::doctor::{doctor_checks, DoctorStatus, GitSummary};
use rata_pi::status::FlashKind;

fn app() -> App {
    let mut a = App::new();
    a.notify_enabled = false;
    a
}

fn host() -> HostInfo {
    HostInfo {
        spawn_error: None,
        pi_binary: Some("/usr/bin/pi".into()),
        theme_name: "tokyo-night".into(),
        stats: None,
        terminal: "Kitty".into(),
        kitty_keyboard: true,
        graphics: false,
        clipboard_native: false,
        notify_feature: false,
        history_path: None,
        state_dir: "/home/u/.local/state/rata-pi".into(),
        version: "0.1.0".into(),
        platform: "linux · x86_64".into(),
    }
}

fn fresh_state() -> SettingsState {
    SettingsState { selected: 0, scroll: 0, user_scrolled: false }
}

#[test]
fn settings_rows_cover_every_section() {
    let a = app();
    let rows = build_settings_rows(&a, &host());
    let titles: Vec<String> = rows
        .iter()
        .filter_map(|r| match r {
            SettingsRow::Header(t) => Some(t.clone()),
            _ => None,
        })
        .collect();
    assert_eq!(
        titles,
        vec!["Session", "Model", "Behavior", "Appearance", "Live state", "Capabilities", "Paths", "Build"]
    );
}

#[test]
fn settings_rows_expose_every_toggle_action() {
    let a = app();
    let rows = build_settings_rows(&a, &host());
    let mut seen: std::collections::HashSet<ToggleAction> = std::collections::HashSet::new();
    for r in &rows {
        if let SettingsRow::Toggle { action, .. } = r {
            seen.insert(*action);
        }
    }
    for expected in [
        ToggleAction::ShowThinking,
        ToggleAction::Notify,
        ToggleAction::Vim,
        ToggleAction::AutoCompact,
        ToggleAction::AutoRetry,
        ToggleAction::PlanAutoRun,
    ] {
        assert!(seen.contains(&expected), "missing {expected:?}");
    }
}

#[test]
fn settings_rows_expose_every_cycle_action() {
    let a = app();
    let rows = build_settings_rows(&a, &host());
    let mut seen: std::collections::HashSet<CycleAction> = std::collections::HashSet::new();
    for r in &rows {
        if let SettingsRow::Cycle { action, .. } = r {
            seen.insert(*action);
        }
    }
    for expected in [
        CycleAction::Theme,
        CycleAction::ThinkingLevel,
        CycleAction::SteeringMode,
        CycleAction::FollowUpMode,
        CycleAction::Model,
    ] {
        assert!(seen.contains(&expected), "missing {expected:?}");
    }
}

#[test]
fn settings_enter_on_toggle_dispatches_action() {
    let a = app();
    let rows = build_settings_rows(&a, &host());
    let target = rows
        .iter()
        .position(|r| matches!(r, SettingsRow::Toggle { action, .. } if *action == ToggleAction::ShowThinking))
        .unwrap();
    let mut state = fresh_state();
    state.selected = target;
    let (action, close) = settings_key(&rows, &mut state, KeyCode::Enter);
    assert!(!close);
    assert!(matches!(action, Some(SettingsAction::Toggle(ToggleAction::ShowThinking))));
}

#[test]
fn settings_esc_closes() {
    let a = app();
    let rows = build_settings_rows(&a, &host());
    let mut state = fresh_state();
    let (_, close) = settings_key(&rows, &mut state, KeyCode::Esc);
    assert!(close);
}

#[test]
fn settings_tab_and_shift_tab_step_selection() {
    let a = app();
    let rows = build_settings_rows(&a, &host());
    let mut state = fresh_state();
    let _ = settings_key(&rows, &mut state, KeyCode::Tab);
    let after_tab = state.selected;
    assert!(after_tab > 0, "Tab should advance selection");
    let _ = settings_key(&rows, &mut state, KeyCode::BackTab);
    let after_backtab = state.selected;
    assert!(after_backtab < after_tab);
}

#[test]
fn settings_rows_read_from_app_caps() {
    let a = app();
    let h = host();
    let rows = build_settings_rows(&a, &h);
    let find = |needle: &str| -> Option<String> {
        rows.iter().find_map(|r| match r {
            SettingsRow::Info { label, value } if label == needle => Some(value.clone()),
            _ => None,
        })
    };
    assert_eq!(find("pi binary"), h.pi_binary.clone());
    assert_eq!(find("crash dumps").as_deref(), Some(h.state_dir.as_str()));
    assert_eq!(find("platform").as_deref(), Some(h.platform.as_str()));
}

#[test]
fn settings_rows_show_live_values() {
    let mut a = app();
    a.turn_count = 12;
    a.tool_running = 1;
    a.tool_done = 30;
    a.queue_steering = vec!["x".into()];
    a.status.ticks = 36_123;
    a.apply_state(AgentState {
        model: Some(("acme".into(), "large-model-4-6".into())),
        thinking_level: "High".into(),
        steering_mode: QueueMode::OneAtATime,
        follow_up_mode: QueueMode::All,
        auto_compaction_enabled: false,
        session_name: None,
    });
    let mut h = host();
    h.spawn_error = Some("pi not found".into());
    h.stats = Some(("12% · 24k / 200k tok".into(), "$0.0123".into()));
    let rows = build_settings_rows(&a, &h);
    let value = |needle: &str| -> String {
        rows.iter()
            .find_map(|r| match r {
                SettingsRow::Info { label, value } if label == needle => Some(value.clone()),
                SettingsRow::Cycle { label, display, .. } if label == needle => Some(display.clone()),
                _ => None,
            })
            .unwrap()
    };
    assert_eq!(value("name"), "(unset · /rename to set)");
    assert_eq!(value("connection"), "offline · pi not found");
    assert_eq!(value("active model"), "acme/large-model-4-6");
    assert_eq!(value("thinking level"), "high");
    assert_eq!(value("steering mode"), "oneatatime");
    assert_eq!(value("follow-up mode"), "all");
    assert_eq!(value("live"), "idle · 01:00:12");
    assert_eq!(value("turn"), "12");
    assert_eq!(value("tools"), "1 running · 30 done");
    assert_eq!(value("queue"), "steer 1 · follow-up 0");
    assert_eq!(value("context"), "12% · 24k / 200k tok");
    assert_eq!(value("session cost"), "$0.0123");
    assert_eq!(value("kitty keyboard"), "advertised");
    assert_eq!(value("graphics"), "no image protocol detected");
    assert_eq!(value("clipboard"), "OSC 52 fallback");
    assert_eq!(value("history file"), "(no history path)");
    let compaction = rows
        .iter()
        .find_map(|r| match r {
            SettingsRow::Toggle { action: ToggleAction::AutoCompact, value, .. } => Some(*value),
            _ => None,
        })
        .unwrap();
    assert!(!compaction);
}

#[test]
fn settings_navigation_wraps_and_pages() {
    let a = app();
    let rows = build_settings_rows(&a, &host());
    let selectable: Vec<usize> = (0..rows.len()).filter(|i| rows[*i].is_selectable()).collect();
    let first = selectable[0];
    let last = *selectable.last().unwrap();
    let mut state = fresh_state();
    let _ = settings_key(&rows, &mut state, KeyCode::Up);
    assert_eq!(state.selected, last, "stepping back from the first selectable wraps");
    let _ = settings_key(&rows, &mut state, KeyCode::Down);
    assert_eq!(state.selected, first);
    let _ = settings_key(&rows, &mut state, KeyCode::PageDown);
    assert_eq!(state.selected, selectable[5]);
    assert!(state.user_scrolled);
    let _ = settings_key(&rows, &mut state, KeyCode::Char('g'));
    assert_eq!(state.selected, first);
    assert!(!state.user_scrolled);
    let _ = settings_key(&rows, &mut state, KeyCode::End);
    assert_eq!(state.selected, last);
    let (action, _) = settings_key(&rows, &mut state, KeyCode::Left);
    assert!(matches!(action, Some(SettingsAction::Toggle(ToggleAction::ShowRawMarkers))));
}

#[test]
fn row_actions_and_source_lines() {
    let rows = vec![
        SettingsRow::Header("A".into()),
        SettingsRow::Info { label: "x".into(), value: "y".into() },
        SettingsRow::Cycle { label: "c".into(), display: "d".into(), action: CycleAction::Model },
    ];
    assert_eq!(row_to_action(&rows[0], CycleDir::Forward), None);
    assert_eq!(
        row_to_action(&rows[2], CycleDir::Backward),
        Some(SettingsAction::Cycle(CycleAction::Model, CycleDir::Backward))
    );
    assert_eq!(settings_row_source_line(&rows, 0), Some(1));
    assert_eq!(settings_row_source_line(&rows, 1), Some(3));
    assert_eq!(settings_row_source_line(&rows, 2), Some(4));
    assert_eq!(settings_row_source_line(&rows, 3), None);
}

#[test]
fn mode_display_lowercases_and_dashes() {
    assert_eq!(mode_display(None), "default");
    assert_eq!(mode_display(Some("One_At_A_Time".into())), "one-at-a-time");
}

#[test]
fn settings_toggle_offline_flashes_for_rpc_backed_flags() {
    for (action, expected_label) in [
        (ToggleAction::AutoCompact, "auto-compact"),
        (ToggleAction::AutoRetry, "auto-retry"),
    ] {
        let mut a = app();
        let before_compact = a.session.auto_compaction;
        let before_retry = a.session.auto_retry;
        let eff = dispatch_settings_action(&mut a, false, SettingsAction::Toggle(action));
        assert_eq!(eff, SettingsEffect::Nothing);
        match action {
            ToggleAction::AutoCompact => assert_ne!(a.session.auto_compaction, before_compact),
            ToggleAction::AutoRetry => assert_ne!(a.session.auto_retry, before_retry),
            _ => unreachable!(),
        }
        let f = a.flash.as_ref().unwrap();
        assert!(f.text.contains(expected_label) && f.text.contains("offline"), "got {:?}", f.text);
        assert_eq!(f.kind, FlashKind::Warn);
    }
}

#[test]
fn settings_cycle_dispatch_fires_correct_rpc() {
    let cases = [
        (CycleAction::ThinkingLevel, AgentCommand::CycleThinkingLevel),
        (CycleAction::Model, AgentCommand::CycleModel),
        (CycleAction::SteeringMode, AgentCommand::SetSteeringMode(QueueMode::OneAtATime)),
        (CycleAction::FollowUpMode, AgentCommand::SetFollowUpMode(QueueMode::OneAtATime)),
    ];
    for (cycle, expected) in cases {
        let mut a = app();
        let eff = dispatch_settings_action(&mut a, true, SettingsAction::Cycle(cycle, CycleDir::Forward));
        assert_eq!(eff, SettingsEffect::Send(expected));
    }
}

#[test]
fn settings_toggle_rpc_fires_with_new_value() {
    for (action, expected) in [
        (ToggleAction::AutoCompact, AgentCommand::SetAutoCompaction(false)),
        (ToggleAction::AutoRetry, AgentCommand::SetAutoRetry(false)),
    ] {
        let mut a = app();
        let eff = dispatch_settings_action(&mut a, true, SettingsAction::Toggle(action));
        assert_eq!(eff, SettingsEffect::Send(expected));
    }
}

#[test]
fn settings_theme_cycle_does_not_hit_pi() {
    let mut a = app();
    let eff = dispatch_settings_action(&mut a, true, SettingsAction::Cycle(CycleAction::Theme, CycleDir::Forward));
    assert_eq!(eff, SettingsEffect::NextTheme);
}

#[test]
fn show_raw_markers_toggle_does_not_hit_pi() {
    let mut a = app();
    let eff = dispatch_settings_action(&mut a, true, SettingsAction::Toggle(ToggleAction::ShowRawMarkers));
    assert_eq!(eff, SettingsEffect::Nothing);
    assert!(a.prefs.show_raw_markers);
}

#[test]
fn settings_toggles_flip_and_flash() {
    let mut a = app();
    let eff = dispatch_settings_action(&mut a, true, SettingsAction::Toggle(ToggleAction::AutoRetry));
    assert_eq!(eff, SettingsEffect::Send(AgentCommand::SetAutoRetry(false)));
    assert_eq!(a.flash.as_ref().unwrap().text, "auto-retry off");
    assert_eq!(a.flash.as_ref().unwrap().kind, FlashKind::Success);
    let eff = dispatch_settings_action(&mut a, true, SettingsAction::Toggle(ToggleAction::Vim));
    assert_eq!(eff, SettingsEffect::ComposerInsert);
    assert_eq!(a.flash.as_ref().unwrap().text, "vim mode on");
    dispatch_settings_action(&mut a, true, SettingsAction::Toggle(ToggleAction::ShowRawMarkers));
    assert_eq!(a.flash.as_ref().unwrap().text, "raw markers visible");
    dispatch_settings_action(&mut a, true, SettingsAction::Toggle(ToggleAction::Notify));
    assert!(a.notify_enabled);
    assert_eq!(a.flash.as_ref().unwrap().text, "notifications on");
    // Twice flips back.
    dispatch_settings_action(&mut a, false, SettingsAction::Toggle(ToggleAction::ShowThinking));
    dispatch_settings_action(&mut a, false, SettingsAction::Toggle(ToggleAction::ShowThinking));
    assert!(!a.prefs.show_thinking);
}

#[test]
fn doctor_checks_read_state_and_host() {
    let mut a = app();
    let rows = doctor_checks(&a, &host(), &None);
    let view: Vec<(&str, DoctorStatus, &str)> =
        rows.iter().map(|c| (c.label.as_str(), c.status, c.detail.as_str())).collect();
    assert_eq!(
        view,
        vec![
            ("pi binary", DoctorStatus::Pass, "/usr/bin/pi"),
            ("pi connection", DoctorStatus::Pass, "connected"),
            ("terminal", DoctorStatus::Info, "Kitty"),
            ("kitty keyboard", DoctorStatus::Pass, "enabled (Ctrl+Shift+T disambiguated)"),
            ("graphics", DoctorStatus::Info, "no image protocol detected"),
            ("clipboard", DoctorStatus::Warn, "OSC 52 fallback"),
            ("git", DoctorStatus::Info, "not a git repository"),
            ("theme", DoctorStatus::Info, "tokyo-night"),
            ("notifications", DoctorStatus::Info, "off · osc777 always · native feature disabled"),
        ]
    );
    a.notify_enabled = true;
    let mut h = host();
    h.pi_binary = None;
    h.spawn_error = Some("spawn failed".into());
    let git = Some(GitSummary { is_repo: true, branch: None });
    let rows = doctor_checks(&a, &h, &git);
    assert_eq!((rows[0].status, rows[0].detail.as_str()), (DoctorStatus::Fail, "not found on PATH"));
    assert_eq!((rows[1].status, rows[1].detail.as_str()), (DoctorStatus::Fail, "spawn failed"));
    assert_eq!((rows[6].status, rows[6].detail.as_str()), (DoctorStatus::Pass, "(detached)"));
    assert_eq!(rows[8].status, DoctorStatus::Pass);
    let git = Some(GitSummary { is_repo: true, branch: Some("main".into()) });
    assert_eq!(doctor_checks(&a, &h, &git)[6].detail, "main");
}

#[test]
fn backtab_returns_to_the_row_tab_left() {
    let a = app();
    let rows = build_settings_rows(&a, &host());
    let selectable: Vec<usize> = (0..rows.len()).filter(|&i| rows[i].is_selectable()).collect();
    assert!(selectable.len() > 1);
    for &start in &selectable {
        let mut state = SettingsState { selected: start, scroll: 0, user_scrolled: true };
        let _ = settings_key(&rows, &mut state, KeyCode::Tab);
        assert_ne!(state.selected, start);
        let _ = settings_key(&rows, &mut state, KeyCode::BackTab);
        assert_eq!(state.selected, start);
    }
    // From the last selectable row, Tab wraps to the first and back.
    let last = *selectable.last().unwrap();
    let mut state = SettingsState { selected: last, scroll: 0, user_scrolled: false };
    let _ = settings_key(&rows, &mut state, KeyCode::Tab);
    assert_eq!(state.selected, selectable[0]);
}

#[test]
fn every_setting_has_exactly_one_row() {
    let mut a = app();
    a.is_streaming = true;
    a.session.thinking = Some("high".into());
    let rows = build_settings_rows(&a, &host());
    for t in [
        ToggleAction::ShowThinking,
        ToggleAction::Notify,
        ToggleAction::Vim,
        ToggleAction::AutoCompact,
        ToggleAction::AutoRetry,
        ToggleAction::PlanAutoRun,
        ToggleAction::ShowRawMarkers,
    ] {
        let n = rows.iter().filter(|r| matches!(r, SettingsRow::Toggle { action, .. } if *action == t)).count();
        assert_eq!(n, 1, "{t:?}");
    }
    for c in [
        CycleAction::Theme,
        CycleAction::ThinkingLevel,
        CycleAction::SteeringMode,
        CycleAction::FollowUpMode,
        CycleAction::Model,
    ] {
        let n = rows.iter().filter(|r| matches!(r, SettingsRow::Cycle { action, .. } if *action == c)).count();
        assert_eq!(n, 1, "{c:?}");
    }
    // The switch for thinking sits on row 10, the model's cycle on row 5.
    assert!(matches!(rows[10], SettingsRow::Toggle { action: ToggleAction::ShowThinking, .. }));
    assert!(matches!(rows[5], SettingsRow::Cycle { action: CycleAction::Model, .. }));
}

#[test]
fn theme_steps_back_and_agent_cycles_ignore_left() {
    let mut a = app();
    let eff = dispatch_settings_action(&mut a, true, SettingsAction::Cycle(CycleAction::Theme, CycleDir::Backward));
    assert_eq!(eff, SettingsEffect::PrevTheme);
    for c in [CycleAction::ThinkingLevel, CycleAction::Model, CycleAction::SteeringMode, CycleAction::FollowUpMode] {
        let mut a = app();
        let before = a.session.steering_mode;
        let eff = dispatch_settings_action(&mut a, true, SettingsAction::Cycle(c, CycleDir::Backward));
        assert_eq!(eff, SettingsEffect::Nothing);
        assert_eq!(a.session.steering_mode, before);
    }
}
