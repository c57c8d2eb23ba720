use rata_pi::app::{agent_end_notice, App, Notice};
use rata_pi::json::{extract_error_detail, Json, JsonKind};
use rata_pi::messages::{AgentMessage, AssistantEvent, ContentBlock, Incoming, StopReason};
use rata_pi::status::{ComposerMode, LiveState};
use rata_pi::transcript::{Entry, RetryState, ToolStatus};

fn app() -> App {
    let mut a = App::new();
    a.notify_enabled = false;
    a
}

fn null() -> Json {
    Json { kind: JsonKind::Null, text: "null".into() }
}

fn jstr(s: &str) -> Json {
    Json { kind: JsonKind::Str(s.into()), text: format!("{:?}", s) }
}

fn jobj(members: Vec<(&str, Json)>) -> Json {
    let text = format!(
        "{{{}}}",
        members
            .iter()
            .map(|(k, v)| format!("{:?}:{}", k, v.text))
            .collect::<Vec<_>>()
            .join(",")
    );
    Json {
        kind: JsonKind::Object(members.into_iter().map(|(k, v)| (k.to_string(), v)).collect()),
        text,
    }
}

fn text_delta(s: &str) -> Incoming {
    Incoming::MessageUpdate { event: AssistantEvent::TextDelta { delta: s.into() } }
}

fn thinking_delta(s: &str) -> Incoming {
    Incoming::MessageUpdate { event: AssistantEvent::ThinkingDelta { delta: s.into() } }
}

fn tool_result_text(s: &str) -> Vec<ContentBlock> {
    vec![ContentBlock::Text { text: s.into() }]
}

fn stream_error(error: Json) -> Incoming {
    Incoming::MessageUpdate {
        event: AssistantEvent::Error { reason: "Error".into(), error },
    }
}

fn last_entry(a: &App) -> &Entry {
    a.transcript.entries().last().unwrap()
}

#[test]
fn agent_start_sets_streaming_and_llm_state() {
    let mut a = app();
    assert!(!a.is_streaming);
    assert!(matches!(a.status.live, LiveState::Idle));
    a.on_event(Incoming::AgentStart);
    assert!(a.is_streaming);
    assert!(matches!(a.status.live, LiveState::Llm));
    assert_eq!(a.tool_calls_this_turn, 0);
    assert!(a.agent_start_tick.is_some());
}

#[test]
fn agent_end_returns_to_idle_and_clears_tool_running() {
    let mut a = app();
    a.on_event(Incoming::AgentStart);
    a.on_event(Incoming::ToolExecutionStart {
        tool_call_id: "t1".into(),
        tool_name: "bash".into(),
        args: null(),
    });
    assert_eq!(a.tool_running, 1);
    a.on_event(Incoming::AgentEnd { messages: vec![] });
    assert!(!a.is_streaming);
    assert_eq!(a.tool_running, 0);
    assert!(matches!(a.status.live, LiveState::Idle));
    assert_eq!(a.agent_start_tick, None);
}

#[test]
fn turn_start_bumps_counter_without_first_divider() {
    let mut a = app();
    a.on_event(Incoming::TurnStart);
    assert_eq!(a.turn_count, 1);
    let has_marker = a
        .transcript
        .entries()
        .iter()
        .any(|e| matches!(e, Entry::TurnMarker { .. }));
    assert!(!has_marker);
}

#[test]
fn second_turn_start_pushes_divider() {
    let mut a = app();
    a.on_event(Incoming::TurnStart);
    a.on_event(Incoming::TurnStart);
    assert_eq!(a.turn_count, 2);
    let markers: Vec<u32> = a
        .transcript
        .entries()
        .iter()
        .filter_map(|e| match e {
            Entry::TurnMarker { number } => Some(*number),
            _ => None,
        })
        .collect();
    assert_eq!(markers, vec![2]);
}

#[test]
fn text_delta_accumulates_into_single_assistant_entry() {
    let mut a = app();
    a.on_event(text_delta("Hel"));
    a.on_event(text_delta("lo "));
    a.on_event(text_delta("world"));
    let last = last_entry(&a);
    assert!(matches!(last, Entry::Assistant(s) if s == "Hello world"));
    assert!(matches!(a.status.live, LiveState::Streaming));
}

#[test]
fn thinking_delta_is_separate_entry_from_assistant_text() {
    let mut a = app();
    a.on_event(thinking_delta("hmm"));
    a.on_event(text_delta("ok"));
    let n = a.transcript.entries().len();
    assert_eq!(n, 2);
    assert!(matches!(a.transcript.entries()[0], Entry::Thinking(ref s) if s == "hmm"));
    assert!(matches!(a.transcript.entries()[1], Entry::Assistant(ref s) if s == "ok"));
    assert!(matches!(a.status.live, LiveState::Streaming));
}

#[test]
fn stream_error_pushes_error_entry_and_sets_error_state() {
    let mut a = app();
    a.on_event(stream_error(null()));
    assert!(matches!(a.status.live, LiveState::Error));
    assert!(matches!(a.transcript.entries().last(), Some(Entry::Error(_))));
}

#[test]
fn tool_start_then_end_updates_counters_and_transcript() {
    let mut a = app();
    a.on_event(Incoming::AgentStart);
    a.on_event(Incoming::ToolExecutionStart {
        tool_call_id: "t1".into(),
        tool_name: "bash".into(),
        args: jobj(vec![("command", jstr("ls"))]),
    });
    assert_eq!(a.tool_running, 1);
    assert_eq!(a.tool_done, 0);
    assert_eq!(a.tool_calls_this_turn, 1);
    assert!(matches!(a.status.live, LiveState::Tool));
    a.on_event(Incoming::ToolExecutionEnd {
        tool_call_id: "t1".into(),
        result: tool_result_text("done"),
        is_error: false,
    });
    assert_eq!(a.tool_running, 0);
    assert_eq!(a.tool_done, 1);
    assert!(matches!(a.status.live, LiveState::Llm));
}

#[test]
fn tool_end_when_not_streaming_stays_tool_not_llm() {
    let mut a = app();
    a.on_event(Incoming::ToolExecutionStart {
        tool_call_id: "t1".into(),
        tool_name: "bash".into(),
        args: null(),
    });
    a.on_event(Incoming::ToolExecutionEnd {
        tool_call_id: "t1".into(),
        result: tool_result_text("ok"),
        is_error: false,
    });
    assert!(!matches!(a.status.live, LiveState::Llm));
}

#[test]
fn auto_retry_start_enters_retrying_and_records_entry() {
    let mut a = app();
    a.on_event(Incoming::AutoRetryStart {
        attempt: 1,
        max_attempts: 3,
        delay_ms: 500,
        error_message: Some("429 Too Many Requests".into()),
    });
    match a.status.live {
        LiveState::Retrying { attempt, max_attempts, delay_ms } => {
            assert_eq!(attempt, 1);
            assert_eq!(max_attempts, 3);
            assert_eq!(delay_ms, 500);
        }
        _ => panic!("expected Retrying state"),
    }
    assert!(matches!(a.transcript.entries().last(), Some(Entry::Retry(_))));
}

#[test]
fn auto_retry_end_succeeded_while_streaming_goes_llm() {
    let mut a = app();
    a.is_streaming = true;
    a.on_event(Incoming::AutoRetryStart {
        attempt: 1,
        max_attempts: 3,
        delay_ms: 100,
        error_message: None,
    });
    a.on_event(Incoming::AutoRetryEnd { success: true, attempt: 1, final_error: None });
    assert!(matches!(a.status.live, LiveState::Llm));
}

#[test]
fn auto_retry_end_exhausted_goes_idle() {
    let mut a = app();
    a.on_event(Incoming::AutoRetryStart {
        attempt: 3,
        max_attempts: 3,
        delay_ms: 100,
        error_message: None,
    });
    a.on_event(Incoming::AutoRetryEnd {
        success: false,
        attempt: 3,
        final_error: Some("rate limited".into()),
    });
    assert!(matches!(a.status.live, LiveState::Idle));
}

#[test]
fn compaction_start_and_end_flow() {
    let mut a = app();
    a.on_event(Incoming::CompactionStart { reason: "Threshold".into() });
    assert!(matches!(a.status.live, LiveState::Compacting));
    assert!(matches!(a.transcript.entries().last(), Some(Entry::Compaction(_))));
    a.on_event(Incoming::CompactionEnd {
        reason: "Threshold".into(),
        summary: Some("summarised".into()),
        aborted: false,
        error_message: None,
    });
    assert!(matches!(a.status.live, LiveState::Idle));
}

#[test]
fn queue_update_replaces_session_queues() {
    let mut a = app();
    a.on_event(Incoming::QueueUpdate {
        steering: vec!["steer A".into(), "steer B".into()],
        follow_up: vec!["follow-up X".into()],
    });
    assert_eq!(a.queue_steering, vec!["steer A", "steer B"]);
    assert_eq!(a.queue_follow_up, vec!["follow-up X"]);
}

#[test]
fn extension_error_pushes_error_entry() {
    let mut a = app();
    a.on_event(Incoming::ExtensionError { error: Some("boom".into()) });
    let last = last_entry(&a);
    assert!(matches!(last, Entry::Error(s) if s.contains("boom")));
}

#[test]
fn command_error_pushes_error_and_clears_streaming() {
    let mut a = app();
    a.on_event(Incoming::AgentStart);
    assert!(a.is_streaming);
    a.on_event(Incoming::CommandError {
        command: "prompt".into(),
        message: "insufficient credits".into(),
    });
    assert!(!a.is_streaming);
    assert!(matches!(a.status.live, LiveState::Error));
    assert_eq!(a.tool_running, 0);
    match last_entry(&a) {
        Entry::Error(s) => {
            assert!(s.contains("prompt"), "got {s}");
            assert!(s.contains("insufficient credits"), "got {s}");
        }
        _ => panic!("expected Entry::Error"),
    }
}

#[test]
fn stream_error_extracts_anthropic_nested_message() {
    let mut a = app();
    a.on_event(stream_error(jobj(vec![(
        "error",
        jobj(vec![
            ("type", jstr("invalid_request_error")),
            ("message", jstr("Your credit balance is too low to access the API.")),
        ]),
    )])));
    assert!(matches!(a.status.live, LiveState::Error));
    match last_entry(&a) {
        Entry::Error(s) => {
            assert!(s.contains("credit balance is too low"), "got {s}");
            assert!(s.contains("invalid_request_error"), "got {s}");
        }
        _ => panic!("expected Entry::Error"),
    }
}

#[test]
fn stream_error_falls_back_on_unknown_partial_shape() {
    let mut a = app();
    a.on_event(stream_error(null()));
    let last = last_entry(&a);
    assert!(matches!(last, Entry::Error(s) if s.contains("stream error")));
}

#[test]
fn extract_error_detail_handles_top_level_message() {
    let v = jobj(vec![("message", jstr("rate limited"))]);
    assert_eq!(extract_error_detail(&v), Some("rate limited".into()));
}

#[test]
fn extract_error_detail_returns_none_for_null() {
    assert!(extract_error_detail(&null()).is_none());
}

#[test]
fn extract_error_detail_handles_assistant_message_error_message_field() {
    let v = jobj(vec![
        ("role", jstr("assistant")),
        ("content", Json { kind: JsonKind::Array(vec![]), text: "[]".into() }),
        ("stopReason", jstr("error")),
        ("errorMessage", jstr("Your credit balance is too low to access the API.")),
    ]);
    assert_eq!(
        extract_error_detail(&v).as_deref(),
        Some("Your credit balance is too low to access the API.")
    );
}

#[test]
fn agent_end_with_error_assistant_message_pushes_error_entry() {
    let mut a = app();
    a.on_event(Incoming::AgentStart);
    a.on_event(Incoming::AgentEnd {
        messages: vec![AgentMessage::Assistant {
            content: vec![],
            stop_reason: Some(StopReason::Error),
            error_message: Some("Your credit balance is too low to access the API.".into()),
        }],
    });
    assert!(!a.is_streaming);
    assert!(matches!(a.status.live, LiveState::Error));
    match last_entry(&a) {
        Entry::Error(s) => {
            assert!(s.contains("pi:"), "got {s}");
            assert!(s.contains("credit balance is too low"), "got {s}");
        }
        _ => panic!("expected Entry::Error"),
    }
}

#[test]
fn message_update_error_uses_correct_field_name() {
    let mut a = app();
    a.on_event(stream_error(jobj(vec![
        ("role", jstr("assistant")),
        ("content", Json { kind: JsonKind::Array(vec![]), text: "[]".into() }),
        ("stopReason", jstr("error")),
        ("errorMessage", jstr("429 rate_limit: Too many requests")),
    ])));
    assert!(matches!(a.status.live, LiveState::Error));
    match last_entry(&a) {
        Entry::Error(s) => assert!(s.contains("rate_limit"), "got {s}"),
        _ => panic!("expected Entry::Error"),
    }
}

#[test]
fn any_event_bumps_last_event_tick() {
    let mut a = app();
    a.status.ticks = 100;
    a.status.last_event_tick = 0;
    a.on_event(Incoming::AgentStart);
    assert_eq!(a.status.last_event_tick, 100);
}

#[test]
fn full_turn_produces_expected_entries() {
    let mut a = app();
    a.on_event(Incoming::AgentStart);
    a.on_event(Incoming::TurnStart);
    a.on_event(thinking_delta("let me think…"));
    a.on_event(text_delta("Hello "));
    a.on_event(text_delta("world"));
    a.on_event(Incoming::ToolExecutionStart {
        tool_call_id: "t1".into(),
        tool_name: "bash".into(),
        args: jobj(vec![("command", jstr("ls"))]),
    });
    a.on_event(Incoming::ToolExecutionEnd {
        tool_call_id: "t1".into(),
        result: tool_result_text("file1\nfile2"),
        is_error: false,
    });
    a.on_event(Incoming::AgentEnd { messages: vec![] });
    let kinds: Vec<&str> = a
        .transcript
        .entries()
        .iter()
        .map(|e| match e {
            Entry::Thinking(_) => "thinking",
            Entry::Assistant(_) => "assistant",
            Entry::ToolCall(_) => "tool",
            Entry::TurnMarker { .. } => "turn",
            _ => "other",
        })
        .collect();
    assert_eq!(kinds, vec!["thinking", "assistant", "tool"]);
    assert!(!a.is_streaming);
    assert!(matches!(a.status.live, LiveState::Idle));
}

// ── Notices and exact texts ─────────────────────────────────────────

fn desktop(n: &Notice) -> (String, String) {
    match n {
        Notice::Desktop { title, body } => (title.clone(), body.clone()),
        _ => panic!("expected a desktop notice"),
    }
}

#[test]
fn stream_error_text_and_notice_are_exact() {
    let mut a = App::new();
    let out = a.on_event(stream_error(jobj(vec![("message", jstr("overloaded"))])));
    assert!(matches!(last_entry(&a), Entry::Error(s) if s == "stream error (Error): overloaded"));
    assert_eq!(out.len(), 1);
    let (title, body) = desktop(&out[0]);
    assert_eq!(title, "pi · stream error");
    assert_eq!(body, "stream error (Error): overloaded");
    let out = a.on_event(stream_error(null()));
    assert!(matches!(last_entry(&a), Entry::Error(s) if s == "stream error: Error"));
    assert_eq!(out.len(), 1);
}

#[test]
fn notices_stay_quiet_when_notifications_are_off() {
    let mut a = app();
    assert!(a.on_event(stream_error(null())).is_empty());
    assert!(a.on_event(Incoming::AgentEnd { messages: vec![] }).is_empty());
    assert!(a
        .on_event(Incoming::CommandError { command: "prompt".into(), message: "x".into() })
        .is_empty());
}

#[test]
fn agent_end_announces_the_run_with_its_length() {
    let mut a = App::new();
    a.status.ticks = 40;
    a.on_event(Incoming::AgentStart);
    a.on_event(Incoming::ToolExecutionStart {
        tool_call_id: "t".into(),
        tool_name: "bash".into(),
        args: null(),
    });
    a.status.ticks = 190;
    let out = a.on_event(Incoming::AgentEnd { messages: vec![] });
    assert_eq!(out.len(), 1);
    match &out[0] {
        Notice::TurnSummary { duration_ticks, min_ticks, tool_calls } => {
            assert_eq!(*duration_ticks, 150);
            assert_eq!(*min_ticks, 100);
            assert_eq!(*tool_calls, 1);
        }
        _ => panic!("expected a turn summary"),
    }
    assert_eq!(a.composer_mode, ComposerMode::Prompt);
}

#[test]
fn agent_end_error_without_message_uses_generic_text() {
    let mut a = App::new();
    let out = a.on_event(Incoming::AgentEnd {
        messages: vec![
            AgentMessage::Assistant {
                content: vec![],
                stop_reason: Some(StopReason::Other),
                error_message: Some("ignored".into()),
            },
            AgentMessage::Assistant { content: vec![], stop_reason: Some(StopReason::Error), error_message: None },
        ],
    });
    assert!(matches!(last_entry(&a), Entry::Error(s) if s == "pi: agent ended with error"));
    let (title, body) = desktop(&out[0]);
    assert_eq!(title, "pi · agent error");
    assert_eq!(body, "agent ended with error");
}

#[test]
fn command_error_notice_names_the_command() {
    let mut a = App::new();
    let out = a.on_event(Incoming::CommandError { command: "prompt".into(), message: "no".into() });
    assert!(matches!(last_entry(&a), Entry::Error(s) if s == "prompt: no"));
    let (title, body) = desktop(&out[0]);
    assert_eq!(title, "pi · prompt failed");
    assert_eq!(body, "no");
}

#[test]
fn failed_tool_notice_shows_trimmed_first_line() {
    let mut a = App::new();
    a.on_event(Incoming::ToolExecutionStart { tool_call_id: "t".into(), tool_name: "bash".into(), args: null() });
    let out = a.on_event(Incoming::ToolExecutionEnd {
        tool_call_id: "t".into(),
        result: vec![ContentBlock::Image, ContentBlock::Text { text: "  permission denied \r\nmore".into() }],
        is_error: true,
    });
    let (title, body) = desktop(&out[0]);
    assert_eq!(title, "pi · tool error");
    assert_eq!(body, "permission denied");
    match last_entry(&a) {
        Entry::ToolCall(tc) => {
            assert_eq!(tc.output, "  permission denied \r\nmore");
            assert_eq!(tc.status, ToolStatus::Failed);
        }
        _ => panic!("expected the tool card"),
    }
    a.on_event(Incoming::ToolExecutionStart { tool_call_id: "u".into(), tool_name: "bash".into(), args: null() });
    let out = a.on_event(Incoming::ToolExecutionEnd {
        tool_call_id: "u".into(),
        result: vec![ContentBlock::Text { text: "   \nsecond".into() }],
        is_error: true,
    });
    assert_eq!(desktop(&out[0]).1, "tool call failed");
}

#[test]
fn retry_exhausted_notice_and_entry() {
    let mut a = App::new();
    a.on_event(Incoming::AutoRetryStart { attempt: 2, max_attempts: 3, delay_ms: 10, error_message: None });
    assert!(matches!(last_entry(&a), Entry::Retry(r) if matches!(&r.state, RetryState::Waiting { error, .. } if error == "transient error")));
    let out = a.on_event(Incoming::AutoRetryEnd { success: false, attempt: 2, final_error: None });
    assert!(matches!(last_entry(&a), Entry::Retry(r) if matches!(&r.state, RetryState::Exhausted(e) if e == "unknown")));
    let (title, body) = desktop(&out[0]);
    assert_eq!(title, "pi · retries exhausted");
    assert_eq!(body, "retries exhausted");
}

#[test]
fn extension_error_without_detail() {
    let mut a = app();
    a.on_event(Incoming::ExtensionError { error: None });
    assert!(matches!(last_entry(&a), Entry::Error(s) if s == "extension error: (no detail)"));
}

#[test]
fn tool_update_shows_partial_text_blocks() {
    let mut a = app();
    a.on_event(Incoming::ToolExecutionStart { tool_call_id: "t".into(), tool_name: "grep".into(), args: null() });
    a.on_event(Incoming::ToolExecutionUpdate {
        tool_call_id: "t".into(),
        partial_result: vec![
            ContentBlock::Text { text: "a".into() },
            ContentBlock::Image,
            ContentBlock::Text { text: "b".into() },
        ],
    });
    match last_entry(&a) {
        Entry::ToolCall(tc) => {
            assert_eq!(tc.output, "a\nb");
            assert_eq!(tc.status, ToolStatus::Running);
        }
        _ => panic!("expected the tool card"),
    }
}

#[test]
fn stream_of_two_deltas_equals_one_joined_delta() {
    let mut a = app();
    a.transcript.push(Entry::User("q".into()));
    let mut b = app();
    b.transcript.push(Entry::User("q".into()));
    a.on_event(text_delta("ab"));
    a.on_event(text_delta("cd"));
    b.on_event(text_delta("abcd"));
    assert_eq!(a.transcript.entries().len(), b.transcript.entries().len());
    assert!(matches!(last_entry(&a), Entry::Assistant(s) if s == "abcd"));
    assert!(matches!(last_entry(&b), Entry::Assistant(s) if s == "abcd"));
}

fn assistant_end(text: &str) -> Incoming {
    Incoming::AgentEnd {
        messages: vec![AgentMessage::Assistant {
            content: vec![rata_pi::messages::AssistantBlock::Text { text: text.into() }],
            stop_reason: Some(StopReason::Other),
            error_message: None,
        }],
    }
}

fn last_assistant(a: &App) -> String {
    a.transcript
        .entries()
        .iter()
        .rev()
        .find_map(|e| match e {
            Entry::Assistant(s) => Some(s.clone()),
            _ => None,
        })
        .expect("assistant entry should exist")
}

#[test]
fn plan_markers_stripped_from_transcript_by_default() {
    let mut a = app();
    let body = "Here's the plan: [[PLAN_SET: step a | step b]]";
    a.on_event(Incoming::AgentStart);
    a.on_event(text_delta(body));
    let out = a.on_event(assistant_end(body));
    // The plan markers are handed over, as the run wrote them, for the plan.
    assert!(out.iter().any(|n| matches!(n, Notice::Markers { text, interview: false, plan: true } if text == body)));
    let last = last_assistant(&a);
    assert!(!last.contains("[[PLAN_SET"), "marker leaked into transcript: {last:?}");
    assert!(last.contains("Here's the plan:"));
}

#[test]
fn raw_markers_stay_when_shown() {
    let mut a = app();
    a.prefs.show_raw_markers = true;
    let body = "Here's the plan: [[PLAN_SET: one | two]]";
    a.on_event(Incoming::AgentStart);
    a.on_event(text_delta(body));
    a.on_event(assistant_end(body));
    let last = last_assistant(&a);
    assert!(last.contains("[[PLAN_SET: one | two]]"), "raw marker missing with toggle on: {last:?}");
}

#[test]
fn ask_markers_are_stripped_and_the_interview_announced() {
    let mut a = app();
    let body = "Let me set up your project.\n\n[[ASK_TITLE: Project setup]]\n[[ASK_SECTION: Basics]]\n[[ASK_TEXT!: name | Project name | my-app]]\n[[ASK_PICK: framework | Framework | React | Vue* | Svelte]]\n[[ASK_YESNO: typescript | Use TypeScript? | yes]]\n[[ASK_SUBMIT: Create]]\n\nI'll take it from here.";
    a.on_event(Incoming::AgentStart);
    a.on_event(text_delta(body));
    let out = a.on_event(Incoming::AgentEnd { messages: vec![] });
    let text = last_assistant(&a);
    assert!(!text.contains("[[ASK_"), "got {text:?}");
    assert!(text.contains("Let me set up your project"));
    assert!(text.contains("I'll take it from here"));
    assert_eq!(out.len(), 1);
    match &out[0] {
        Notice::Markers { text, interview, plan } => {
            assert!(text.contains("[[ASK_TITLE: Project setup]]"));
            assert!(*interview);
            assert!(!*plan);
        }
        _ => panic!("expected the markers notice"),
    }
}

#[test]
fn interview_markers_stay_stripped_even_with_raw_markers_shown() {
    let mut a = app();
    a.prefs.show_raw_markers = true;
    a.on_event(Incoming::AgentStart);
    a.on_event(text_delta("Form: [[ASK_TITLE: T]] [[PLAN_ADD: x]] done"));
    a.on_event(Incoming::AgentEnd { messages: vec![] });
    assert_eq!(last_assistant(&a), "Form:  [[PLAN_ADD: x]] done");
}

#[test]
fn text_without_markers_is_left_alone() {
    let mut a = app();
    a.on_event(Incoming::AgentStart);
    a.on_event(text_delta("plain [[not a marker]] and [[PLAN_SET unclosed"));
    let epoch = a.transcript.mutation_epoch();
    let out = a.on_event(Incoming::AgentEnd { messages: vec![] });
    assert!(out.is_empty());
    assert_eq!(a.transcript.mutation_epoch(), epoch);
    assert_eq!(last_assistant(&a), "plain [[not a marker]] and [[PLAN_SET unclosed");
}

#[test]
fn agent_end_notice_announces_long_runs_only() {
    assert_eq!(agent_end_notice(99, 100, 3), None);
    assert_eq!(
        agent_end_notice(250, 100, 3),
        Some(("pi".to_string(), "done in 25s · 3 tool calls".to_string()))
    );
}
