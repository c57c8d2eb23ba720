use rata_pi::app::App;
use rata_pi::settings::QueueMode;
use rata_pi::slash::{
    last_user_text, parse_submission, split_word, thinking_pick_index, SendKind, SlashCommand,
    SlashFollowUp, SlashOutcome, SlashReply, SubmitAction, Submission, ThinkingLevel,
};
use rata_pi::status::{ComposerMode, FlashKind, LiveState};
use rata_pi::transcript::{BashExec, Entry};

fn app() -> App {
    let mut a = App::new();
    a.notify_enabled = false;
    a
}

fn flash(a: &App) -> (String, FlashKind) {
    let f = a.flash.as_ref().expect("a flash");
    (f.text.clone(), f.kind)
}

fn run(o: SlashOutcome) -> SlashCommand {
    match o {
        SlashOutcome::Run(c) => c,
        SlashOutcome::Done => panic!("done, not run"),
        SlashOutcome::Unknown => panic!("unknown"),
    }
}

#[test]
fn split_word_takes_the_first_word_and_trims_the_rest() {
    assert_eq!(split_word("save  my template  "), ("save".to_string(), "my template".to_string()));
    assert_eq!(split_word("list"), ("list".to_string(), String::new()));
    assert_eq!(split_word(""), (String::new(), String::new()));
    assert_eq!(split_word("a\tb"), ("a".to_string(), "b".to_string()));
    // Unicode whitespace splits too.
    assert_eq!(split_word("a\u{3000}b"), ("a".to_string(), "b".to_string()));
}

#[test]
fn submissions_are_read_by_their_first_character() {
    assert!(matches!(parse_submission("   \n"), Submission::Empty));
    match parse_submission("  /git-log 5 ") {
        Submission::Slash { name, arg } => {
            assert_eq!(name, "git-log");
            assert_eq!(arg, "5");
        }
        _ => panic!(),
    }
    match parse_submission("/") {
        Submission::Slash { name, arg } => assert!(name.is_empty() && arg.is_empty()),
        _ => panic!(),
    }
    match parse_submission("! ls -la ") {
        Submission::Bash(c) => assert_eq!(c, "ls -la"),
        _ => panic!(),
    }
    match parse_submission(" hello there ") {
        Submission::Prompt(p) => assert_eq!(p, "hello there"),
        _ => panic!(),
    }
}

#[test]
fn git_log_count_defaults_to_thirty() {
    let mut a = app();
    let n = |a: &mut App, arg: &str| match run(a.local_slash("git-log", arg, false, "")) {
        SlashCommand::GitLog(n) => n,
        _ => panic!(),
    };
    assert_eq!(n(&mut a, ""), 30);
    assert_eq!(n(&mut a, "5"), 5);
    assert_eq!(n(&mut a, "+7"), 7);
    assert_eq!(n(&mut a, "abc"), 30);
    assert_eq!(n(&mut a, "-3"), 30);
    assert_eq!(n(&mut a, "4294967295"), 4_294_967_295);
    assert_eq!(n(&mut a, "4294967296"), 30);
}

#[test]
fn diff_is_staged_with_either_flag() {
    let mut a = app();
    for (arg, staged) in [("", false), ("--staged", true), ("x --cached", true), ("--stage", false)] {
        match run(a.local_slash("diff", arg, false, "")) {
            SlashCommand::GitDiff { staged: s } => assert_eq!(s, staged, "{arg}"),
            _ => panic!(),
        }
    }
}

#[test]
fn local_commands_flash_or_hand_over() {
    let mut a = app();
    assert!(matches!(a.local_slash("help", "", false, ""), SlashOutcome::Run(SlashCommand::Help)));
    assert!(matches!(a.local_slash("stats", "", false, ""), SlashOutcome::Done));
    assert_eq!(flash(&a), ("no stats yet — try again once pi has responded".to_string(), FlashKind::Warn));
    assert!(matches!(a.local_slash("stats", "", true, ""), SlashOutcome::Run(SlashCommand::Stats)));
    assert!(matches!(a.local_slash("switch-branch", "", false, ""), SlashOutcome::Done));
    assert_eq!(flash(&a).0, "usage: /switch-branch <name>");
    assert!(matches!(
        a.local_slash("switch-branch", "main", false, ""),
        SlashOutcome::Run(SlashCommand::SwitchBranch(ref b)) if b == "main"
    ));
    assert!(matches!(a.local_slash("commit", "", false, ""), SlashOutcome::Done));
    assert_eq!(flash(&a).0, "usage: /commit <message>");
    assert!(matches!(a.local_slash("keys", "", false, ""), SlashOutcome::Run(SlashCommand::Shortcuts)));
    assert!(matches!(a.local_slash("prefs", "", false, ""), SlashOutcome::Run(SlashCommand::Settings)));
    assert!(matches!(
        a.local_slash("files", "src", false, ""),
        SlashOutcome::Run(SlashCommand::FindFiles(ref q)) if q == "src"
    ));
    assert!(matches!(a.local_slash("nope", "", false, ""), SlashOutcome::Unknown));
}

#[test]
fn clear_empties_the_view_and_vim_switches_keys() {
    let mut a = app();
    a.transcript.push(Entry::User("x".into()));
    assert!(matches!(a.local_slash("clear", "", false, ""), SlashOutcome::Done));
    assert!(a.transcript.entries().is_empty());
    assert_eq!(flash(&a).0, "transcript view cleared (pi session intact)");
    assert!(matches!(a.local_slash("vim", "", false, ""), SlashOutcome::Run(SlashCommand::EditorMode)));
    assert!(a.prefs.vim_enabled);
    assert_eq!(flash(&a).0, "vim mode on — Esc → NORMAL · i/a/o insert · hjkl/wb move");
    a.local_slash("emacs", "", false, "");
    assert!(!a.prefs.vim_enabled);
    assert_eq!(flash(&a).0, "default editor mode · Esc clears composer");
}

#[test]
fn notify_flips_the_switch() {
    let mut a = app();
    assert!(matches!(a.local_slash("notify", "", false, ""), SlashOutcome::Run(SlashCommand::Notify(true))));
    assert!(a.notify_enabled);
    assert!(matches!(a.local_slash("notify", "", false, ""), SlashOutcome::Run(SlashCommand::Notify(false))));
    assert!(!a.notify_enabled);
}

#[test]
fn search_slash_opens_on_the_last_match() {
    let mut a = app();
    a.transcript.push(Entry::User("one foo".into()));
    a.transcript.push(Entry::Info("two foo".into()));
    match run(a.local_slash("search", " foo ", false, "")) {
        SlashCommand::Search(s) => {
            assert_eq!(s.query, "foo");
            assert_eq!(s.hits, vec![0, 1]);
            assert_eq!(s.hit_idx, 1);
        }
        _ => panic!(),
    }
}

#[test]
fn template_subcommands() {
    let mut a = app();
    assert!(matches!(a.local_slash("template", "", false, ""), SlashOutcome::Run(SlashCommand::TemplatePicker)));
    assert!(matches!(a.local_slash("tpl", "pick", false, ""), SlashOutcome::Run(SlashCommand::TemplatePicker)));
    assert!(matches!(a.local_slash("template", "save", false, "body"), SlashOutcome::Done));
    assert_eq!(flash(&a), ("usage: /template save <name>".to_string(), FlashKind::Warn));
    assert!(matches!(a.local_slash("template", "save x", false, "  "), SlashOutcome::Done));
    assert_eq!(flash(&a).0, "composer is empty — nothing to save");
    match run(a.local_slash("template", "save my tpl", false, "hello")) {
        SlashCommand::TemplateSave { name, body } => {
            assert_eq!(name, "my tpl");
            assert_eq!(body, "hello");
        }
        _ => panic!(),
    }
    assert_eq!(flash(&a), ("saved template \"my tpl\"".to_string(), FlashKind::Success));
    assert!(matches!(
        a.local_slash("template", "load x", false, ""),
        SlashOutcome::Run(SlashCommand::TemplateLoad(ref n)) if n == "x"
    ));
    assert!(matches!(a.local_slash("template", "use", false, ""), SlashOutcome::Done));
    assert_eq!(flash(&a).0, "usage: /template use <name>");
    assert!(matches!(
        a.local_slash("template", "rm x", false, ""),
        SlashOutcome::Run(SlashCommand::TemplateDelete(ref n)) if n == "x"
    ));
    assert!(matches!(a.local_slash("template", "delete", false, ""), SlashOutcome::Done));
    assert_eq!(flash(&a).0, "usage: /template delete <name>");
    assert!(matches!(a.local_slash("template", "frob", false, ""), SlashOutcome::Done));
    assert_eq!(flash(&a).0, "/template <save|use|list|delete> [name]");
}

#[test]
fn agent_commands_flash_or_hand_over() {
    let mut a = app();
    assert!(matches!(a.pi_slash("rename", ""), SlashOutcome::Done));
    assert_eq!(flash(&a).0, "usage: /rename <name>");
    assert!(matches!(a.pi_slash("switch", ""), SlashOutcome::Done));
    assert_eq!(flash(&a).0, "usage: /switch <session-file>");
    assert!(matches!(a.pi_slash("compact", ""), SlashOutcome::Run(SlashCommand::Compact(None))));
    assert_eq!(flash(&a).0, "compacting…");
    assert!(matches!(
        a.pi_slash("compact", "keep tests"),
        SlashOutcome::Run(SlashCommand::Compact(Some(ref i))) if i == "keep tests"
    ));
    assert!(matches!(a.pi_slash("abort-bash", ""), SlashOutcome::Run(SlashCommand::AbortBash)));
    assert_eq!(flash(&a).0, "bash aborted");
    assert!(matches!(a.pi_slash("steer-mode", "some"), SlashOutcome::Done));
    assert_eq!(flash(&a).0, "usage: /steer-mode <all | one-at-a-time>");
    assert!(matches!(
        a.pi_slash("follow-up-mode", "one-at-a-time"),
        SlashOutcome::Run(SlashCommand::FollowUpMode(QueueMode::OneAtATime))
    ));
    assert!(matches!(a.pi_slash("help", ""), SlashOutcome::Unknown));
}

#[test]
fn auto_switches_flip_from_on() {
    let mut a = app();
    assert!(matches!(a.pi_slash("auto-compact", ""), SlashOutcome::Run(SlashCommand::SetAutoCompaction(false))));
    assert_eq!(a.session.auto_compaction, Some(false));
    assert_eq!(flash(&a).0, "auto-compact off");
    assert!(matches!(a.pi_slash("auto-retry", ""), SlashOutcome::Run(SlashCommand::SetAutoRetry(false))));
    assert!(matches!(a.pi_slash("auto-retry", ""), SlashOutcome::Run(SlashCommand::SetAutoRetry(true))));
    assert_eq!(flash(&a).0, "auto-retry on");
}

#[test]
fn retry_resends_the_last_user_prompt() {
    let mut a = app();
    assert!(matches!(a.pi_slash("retry", ""), SlashOutcome::Done));
    assert_eq!(flash(&a).0, "no previous user prompt");
    a.transcript.push(Entry::User("first".into()));
    a.transcript.push(Entry::User("second".into()));
    a.transcript.push(Entry::Assistant("answer".into()));
    assert_eq!(last_user_text(&a.transcript), Some("second".to_string()));
    a.is_streaming = true;
    match run(a.pi_slash("retry", "")) {
        SlashCommand::Retry { text, steer } => {
            assert_eq!(text, "second");
            assert!(steer);
        }
        _ => panic!(),
    }
}

#[test]
fn thinking_picker_starts_on_the_current_level() {
    assert_eq!(thinking_pick_index(&None), 3);
    assert_eq!(thinking_pick_index(&Some("off".into())), 0);
    assert_eq!(thinking_pick_index(&Some("xhigh".into())), 5);
    assert_eq!(thinking_pick_index(&Some("weird".into())), 3);
    let mut a = app();
    a.session.thinking = Some("low".into());
    assert!(matches!(a.pi_slash("think", ""), SlashOutcome::Run(SlashCommand::Thinking(2))));
}

#[test]
fn replies_flash_results_and_failures() {
    let mut a = app();
    let f = a.slash_reply(&SlashCommand::Export, SlashReply::Text("/tmp/t.md".into()));
    assert!(matches!(f, SlashFollowUp::Nothing));
    assert_eq!(flash(&a), ("exported → /tmp/t.md".to_string(), FlashKind::Success));
    a.slash_reply(&SlashCommand::Export, SlashReply::Failed("disk full".into()));
    assert_eq!(flash(&a), ("export failed: disk full".to_string(), FlashKind::Error));
    assert!(matches!(a.slash_reply(&SlashCommand::GitLog(30), SlashReply::Done), SlashFollowUp::Show));
    a.slash_reply(&SlashCommand::GitBranches, SlashReply::Failed("no repo".into()));
    assert_eq!(flash(&a).0, "git branch failed: no repo");
    a.slash_reply(&SlashCommand::Commit("m".into()), SlashReply::Text("[main 1a2b] m\n 1 file".into()));
    assert_eq!(flash(&a), ("commit: [main 1a2b] m".to_string(), FlashKind::Success));
    a.slash_reply(&SlashCommand::Commit("m".into()), SlashReply::Text(String::new()));
    assert_eq!(flash(&a).0, "commit: committed");
    a.slash_reply(&SlashCommand::Stash, SlashReply::Text(String::new()));
    assert_eq!(flash(&a), ("stashed".to_string(), FlashKind::Info));
    a.slash_reply(&SlashCommand::SwitchBranch("dev".into()), SlashReply::Done);
    assert_eq!(flash(&a).0, "switched to dev");
    a.slash_reply(&SlashCommand::ExportHtml, SlashReply::Missing);
    assert_eq!(flash(&a), ("html → (no path)".to_string(), FlashKind::Success));
    a.slash_reply(&SlashCommand::ExportHtml, SlashReply::Failed("x".into()));
    assert_eq!(flash(&a), ("export-html failed: x".to_string(), FlashKind::Info));
}

#[test]
fn replies_update_the_session() {
    let mut a = app();
    a.slash_reply(&SlashCommand::Rename("work".into()), SlashReply::Done);
    assert_eq!(a.session.session_name.as_deref(), Some("work"));
    assert_eq!(flash(&a), ("session renamed → work".to_string(), FlashKind::Success));
    a.slash_reply(&SlashCommand::CycleModel, SlashReply::Model("anth".into(), "m-1".into()));
    assert_eq!(a.session.model_label, "anth/m-1");
    assert_eq!(flash(&a).0, "model → anth/m-1");
    a.slash_reply(&SlashCommand::CycleModel, SlashReply::Done);
    assert_eq!(flash(&a).0, "cycled model");
    a.slash_reply(&SlashCommand::SteeringMode(QueueMode::All), SlashReply::Done);
    assert_eq!(a.session.steering_mode, Some(QueueMode::All));
    assert_eq!(flash(&a).0, "steer-mode → all");
    a.slash_reply(&SlashCommand::FollowUpMode(QueueMode::OneAtATime), SlashReply::Failed("e".into()));
    assert_eq!(a.session.follow_up_mode, None);
    assert_eq!(flash(&a).0, "follow-up-mode failed: e");
    a.transcript.push(Entry::User("x".into()));
    a.slash_reply(&SlashCommand::NewSession, SlashReply::Done);
    assert!(a.transcript.entries().is_empty());
    assert_eq!(flash(&a), ("new session started".to_string(), FlashKind::Success));
    assert!(matches!(
        a.slash_reply(&SlashCommand::SwitchSession("s.jsonl".into()), SlashReply::Done),
        SlashFollowUp::Bootstrap
    ));
    assert_eq!(flash(&a).0, "switched → s.jsonl");
}

#[test]
fn replies_for_templates_copy_and_forks() {
    let mut a = app();
    match a.slash_reply(&SlashCommand::TemplateLoad("t".into()), SlashReply::Text("body".into())) {
        SlashFollowUp::SetComposer(b) => assert_eq!(b, "body"),
        _ => panic!(),
    }
    assert_eq!(flash(&a).0, "loaded template \"t\"");
    a.slash_reply(&SlashCommand::TemplateLoad("t".into()), SlashReply::Missing);
    assert_eq!(flash(&a), ("no template \"t\"".to_string(), FlashKind::Error));
    a.slash_reply(&SlashCommand::TemplateDelete("t".into()), SlashReply::Done);
    assert_eq!(flash(&a).0, "deleted template \"t\"");
    a.slash_reply(&SlashCommand::TemplatePicker, SlashReply::Missing);
    assert_eq!(flash(&a).0, "no templates saved yet — /template save <name> first");
    match a.slash_reply(&SlashCommand::CopyLast, SlashReply::Text("answer".into())) {
        SlashFollowUp::Copy(t) => assert_eq!(t, "answer"),
        _ => panic!(),
    }
    a.slash_reply(&SlashCommand::CopyLast, SlashReply::Text(String::new()));
    assert_eq!(flash(&a).0, "no assistant message yet");
    a.slash_reply(&SlashCommand::Fork, SlashReply::Missing);
    assert_eq!(flash(&a).0, "no fork candidates");
    assert!(matches!(a.slash_reply(&SlashCommand::Fork, SlashReply::Done), SlashFollowUp::Show));
}

#[test]
fn submit_routes_slash_lines() {
    let mut a = app();
    assert!(matches!(a.submit("   ", true, false), SubmitAction::Nothing));
    assert!(matches!(a.submit("/help", false, false), SubmitAction::Slash(SlashCommand::Help)));
    assert!(matches!(a.submit("/frob x", false, false), SubmitAction::Nothing));
    assert_eq!(flash(&a).0, "unknown /frob (pi is offline)");
    assert!(matches!(a.submit("/abort", true, false), SubmitAction::Slash(SlashCommand::Abort)));
    // The composer is empty by the time a template is saved.
    assert!(matches!(a.submit("/template save t", true, false), SubmitAction::Nothing));
    assert_eq!(flash(&a).0, "composer is empty — nothing to save");
    // Unknown online: sent as a message.
    match a.submit("/skill review", true, false) {
        SubmitAction::Send { text, how } => {
            assert_eq!(text, "/skill review");
            assert_eq!(how, SendKind::Prompt);
        }
        _ => panic!(),
    }
}

#[test]
fn submit_sends_prompts_and_shell_commands() {
    let mut a = app();
    assert!(matches!(a.submit("hi", false, false), SubmitAction::Nothing));
    assert_eq!(flash(&a).0, "pi is offline");
    match a.submit("  hi  ", true, false) {
        SubmitAction::Send { text, how } => {
            assert_eq!(text, "hi");
            assert_eq!(how, SendKind::Prompt);
        }
        _ => panic!(),
    }
    assert!(matches!(a.transcript.entries().last(), Some(Entry::User(s)) if s == "hi"));
    assert_eq!(a.status.live, LiveState::Sending);
    a.is_streaming = true;
    a.composer_mode = ComposerMode::FollowUp;
    assert!(matches!(a.submit("more", true, false), SubmitAction::Send { how: SendKind::FollowUp, .. }));
    a.composer_mode = ComposerMode::Prompt;
    assert!(matches!(a.submit("steer", true, false), SubmitAction::Send { how: SendKind::Steer, .. }));
    let n = a.transcript.entries().len();
    assert!(matches!(a.submit("!  ", true, false), SubmitAction::Nothing));
    assert_eq!(a.transcript.entries().len(), n);
    match a.submit("! ls ", true, false) {
        SubmitAction::Bash(c) => assert_eq!(c, "ls"),
        _ => panic!(),
    }
    assert!(matches!(a.transcript.entries().last(), Some(Entry::User(s)) if s == "!ls"));
}

#[test]
fn bash_and_send_results_land_in_the_transcript() {
    let mut a = app();
    a.bash_done(Err("boom".into()));
    assert!(matches!(a.transcript.entries().last(), Some(Entry::Error(s)) if s == "bash failed: boom"));
    let exec = BashExec {
        command: "ls".into(),
        output: "a\nb".into(),
        exit_code: 0,
        cancelled: false,
        truncated: false,
        full_output_path: None,
    };
    a.bash_done(Ok(exec));
    assert!(matches!(a.transcript.entries().last(), Some(Entry::BashExec(x)) if x.output == "a\nb"));
    a.send_failed("closed");
    assert!(matches!(a.transcript.entries().last(), Some(Entry::Error(s)) if s == "submit failed: closed"));
}

#[test]
fn palette_runs_builtins_without_argument() {
    let mut a = app();
    assert!(matches!(a.palette_command("help", false, false, ""), Some(SlashCommand::Help)));
    // The composer is still there when a template is saved from the palette.
    assert!(a.palette_command("template", false, false, "draft").is_some());
    assert!(a.palette_command("compact", false, false, "").is_none());
    assert_eq!(flash(&a).0, "/compact needs pi (offline)");
    assert!(matches!(a.palette_command("compact", true, false, ""), Some(SlashCommand::Compact(None))));
    assert!(a.palette_command("rename", true, false, "").is_none());
    assert_eq!(flash(&a).0, "usage: /rename <name>");
    assert!(a.palette_command("mystery", true, false, "").is_none());
}

#[test]
fn thinking_levels_by_picker_option() {
    assert_eq!(ThinkingLevel::at(0), Some(ThinkingLevel::Off));
    assert_eq!(ThinkingLevel::at(5), Some(ThinkingLevel::Xhigh));
    assert_eq!(ThinkingLevel::at(6), None);
    assert_eq!(ThinkingLevel::High.name(), "high");
    assert_eq!(ThinkingLevel::High.label(), "High");
    let mut a = app();
    a.slash_reply(&SlashCommand::SetThinking(ThinkingLevel::Low), SlashReply::Done);
    assert_eq!(a.session.thinking.as_deref(), Some("low"));
    assert_eq!(flash(&a).0, "thinking → Low");
    assert!(matches!(a.pi_slash("think", ""), SlashOutcome::Run(SlashCommand::Thinking(2))));
    a.slash_reply(&SlashCommand::SetThinking(ThinkingLevel::Off), SlashReply::Failed("x".into()));
    assert_eq!(flash(&a), ("set_thinking_level failed: x".to_string(), FlashKind::Error));
    assert_eq!(a.session.thinking.as_deref(), Some("low"));
}

#[test]
fn model_and_fork_picks_reply() {
    let mut a = app();
    let pick = SlashCommand::SetModel { provider: "p".into(), id: "m".into() };
    a.slash_reply(&pick, SlashReply::Done);
    assert_eq!(a.session.model_label, "p/m");
    assert_eq!(flash(&a).0, "model → p/m");
    a.slash_reply(&pick, SlashReply::Failed("no".into()));
    assert_eq!(flash(&a), ("set_model failed: no".to_string(), FlashKind::Error));
    let fork = SlashCommand::ForkAt { entry_id: "e1".into(), text: "x".repeat(50) };
    assert!(matches!(a.slash_reply(&fork, SlashReply::Done), SlashFollowUp::Bootstrap));
    assert_eq!(flash(&a), (format!("forked at {}…", "x".repeat(39)), FlashKind::Success));
    a.slash_reply(&fork, SlashReply::Failed("gone".into()));
    assert_eq!(flash(&a).0, "fork failed: gone");
}

#[test]
fn slash_lines_read_back_as_written() {
    for (line, name, arg) in [("/rename my session", "rename", "my session"), ("/help", "help", "")] {
        match parse_submission(line) {
            Submission::Slash { name: n, arg: a } => {
                assert_eq!(n, name);
                assert_eq!(a, arg);
            }
            _ => panic!(),
        }
    }
}

#[test]
fn local_commands_do_not_need_the_agent() {
    for online in [false, true] {
        let mut a = app();
        assert!(matches!(a.submit("/version", online, false), SubmitAction::Slash(SlashCommand::Version)));
        assert!(matches!(a.submit("/stats", online, false), SubmitAction::Nothing));
        assert_eq!(flash(&a).0, "no stats yet — try again once pi has responded");
    }
}

#[test]
fn offline_nothing_is_sent() {
    let mut a = app();
    for line in ["hello", "!ls", "/rename x", "/unknown"] {
        let act = a.submit(line, false, false);
        assert!(!matches!(act, SubmitAction::Send { .. } | SubmitAction::Bash(_)), "{line}");
    }
    assert!(a.transcript.entries().is_empty());
}

#[test]
fn interview_submit_records_the_line_and_prompts_when_idle() {
    let mut a = app();
    let how = a.interview_submitted("scope: all");
    assert_eq!(how, SendKind::Prompt);
    assert_eq!(a.status.live, LiveState::Sending);
    assert!(matches!(a.transcript.entries().last(),
        Some(Entry::User(s)) if s == "(interview) interview submitted · scope: all"));
    let mut b = app();
    b.interview_submitted("");
    assert!(matches!(b.transcript.entries().last(), Some(Entry::User(s)) if s == "(interview) interview submitted"));
}

#[test]
fn interview_submit_steers_or_follows_up_while_streaming() {
    let mut a = app();
    a.is_streaming = true;
    assert_eq!(a.interview_submitted("x"), SendKind::Steer);
    a.composer_mode = ComposerMode::FollowUp;
    assert_eq!(a.interview_submitted("y"), SendKind::FollowUp);
    assert_ne!(a.status.live, LiveState::Sending);
}

#[test]
fn interview_cancel_notes_it_and_flashes() {
    let mut a = app();
    a.interview_cancelled();
    assert!(matches!(a.transcript.entries().last(), Some(Entry::Info(s)) if s == "interview cancelled by user"));
    assert_eq!(flash(&a), ("interview cancelled".to_string(), FlashKind::Info));
    a.interview_send_failed("pipe closed");
    assert!(matches!(a.transcript.entries().last(),
        Some(Entry::Error(s)) if s == "interview dispatch failed: pipe closed"));
}

#[test]
fn interview_dispatch_chooses_correct_rpc_by_mode() {
    // Idle — Prompt.
    let mut a = app();
    assert_eq!(a.interview_submitted("one"), SendKind::Prompt);

    // Streaming + Steer.
    let mut a = app();
    a.is_streaming = true;
    a.composer_mode = ComposerMode::Steer;
    assert_eq!(a.interview_submitted("two"), SendKind::Steer);

    // Streaming + FollowUp.
    let mut a = app();
    a.is_streaming = true;
    a.composer_mode = ComposerMode::FollowUp;
    assert_eq!(a.interview_submitted("three"), SendKind::FollowUp);
}

#[test]
fn interview_open_is_recorded_with_its_question_count() {
    let mut a = app();
    a.interview_opened("Project setup", 3);
    match a.transcript.entries().last() {
        Some(Entry::Info(s)) => {
            assert!(s.contains("Project setup") && s.contains("3 question"), "got {s}");
            assert_eq!(s, "✍ agent opened an interview: \"Project setup\" (3 questions) — answer and Ctrl+Enter to submit (Esc cancels)");
        },
        _ => panic!("expected an info line"),
    }
    assert_eq!(flash(&a), ("interview · Project setup".to_string(), FlashKind::Info));
    a.interview_opened("One", 1);
    assert!(matches!(a.transcript.entries().last(), Some(Entry::Info(s)) if s.contains("(1 question)")));
}
