use rata_pi::anim::{finished, Anim};
use rata_pi::cards::tool_card_titles;
use rata_pi::import::import_messages;
use rata_pi::json::{Json, JsonKind};
use rata_pi::messages::{
    collect_assistant_text, first_text_block, result_text, user_content_text, AgentMessage,
    AssistantBlock, ContentBlock, UserContent,
};
use rata_pi::tools::{args_preview, primary_arg_chip, tool_family, tool_family_icon, ToolFamily};
use rata_pi::transcript::{Entry, ToolCall, ToolStatus, Transcript};
use std::time::Duration;

fn null() -> Json {
    Json { kind: JsonKind::Null, text: "null".into() }
}

fn jstr(s: &str) -> Json {
    Json { kind: JsonKind::Str(s.into()), text: format!("{:?}", s) }
}

fn jnum(n: i64) -> Json {
    Json { kind: JsonKind::Number, text: n.to_string() }
}

fn jobj(members: Vec<(&str, Json)>) -> Json {
    let text = format!(
        "{{{}}}",
        members.iter().map(|(k, v)| format!("{:?}:{}", k, v.text)).collect::<Vec<_>>().join(",")
    );
    Json { kind: JsonKind::Object(members.into_iter().map(|(k, v)| (k.to_string(), v)).collect()), text }
}

fn call(args: Json) -> ToolCall {
    ToolCall {
        id: "t".into(),
        name: "x".into(),
        args,
        output: String::new(),
        status: ToolStatus::Running,
        is_error: false,
        expanded: false,
    }
}

#[test]
fn tool_families_ignore_ascii_case() {
    assert_eq!(tool_family("Bash"), ToolFamily::Bash);
    assert_eq!(tool_family("str_replace_editor"), ToolFamily::Edit);
    assert_eq!(tool_family("READ_FILE"), ToolFamily::ReadFile);
    assert_eq!(tool_family("rg"), ToolFamily::Grep);
    assert_eq!(tool_family("create_file"), ToolFamily::Write);
    assert_eq!(tool_family("TodoWrite"), ToolFamily::Todo);
    assert_eq!(tool_family("mystery"), ToolFamily::Generic);
    assert_eq!(tool_family_icon("bash"), tool_family_icon("shell"));
    assert_ne!(tool_family_icon("bash"), tool_family_icon("grep"));
}

#[test]
fn argument_chip_prefers_paths_then_patterns_then_commands() {
    let tc = call(jobj(vec![("command", jstr("ls -la")), ("path", jstr("/tmp"))]));
    assert_eq!(primary_arg_chip(&tc), Some("/tmp".to_string()));
    let tc = call(jobj(vec![("query", jstr("needle"))]));
    assert_eq!(primary_arg_chip(&tc), Some("\"needle\"".to_string()));
    let tc = call(jobj(vec![("cmd", jstr("make"))]));
    assert_eq!(primary_arg_chip(&tc), Some("make".to_string()));
    let tc = call(jobj(vec![("n", jnum(3))]));
    assert_eq!(primary_arg_chip(&tc), None);
    assert_eq!(primary_arg_chip(&call(null())), None);
}

#[test]
fn argument_preview_shows_first_four_members() {
    let args = jobj(vec![
        ("a", jstr("x")),
        ("b", jnum(2)),
        ("c", jstr("say \"hi\"")),
        ("d", jnum(4)),
        ("e", jnum(5)),
    ]);
    assert_eq!(args_preview(&args), "a=\"x\"  b=2  c=\"say \\\"hi\\\"\"  d=4");
    assert_eq!(args_preview(&null()), "");
    assert_eq!(args_preview(&jnum(7)), "7");
}

#[test]
fn message_text_helpers() {
    let c = UserContent::Blocks(vec![ContentBlock::Text { text: "look".into() }, ContentBlock::Image]);
    assert_eq!(user_content_text(&c), "look\n[image]");
    assert_eq!(user_content_text(&UserContent::Text("plain".into())), "plain");
    let bs = vec![ContentBlock::Image, ContentBlock::Text { text: "a".into() }, ContentBlock::Text { text: "b".into() }];
    assert_eq!(result_text(&bs), "a\nb");
    assert_eq!(first_text_block(&bs), "a");
    assert_eq!(first_text_block(&vec![ContentBlock::Image]), "");
    let ms = vec![
        AgentMessage::User { content: UserContent::Text("q".into()) },
        AgentMessage::Assistant {
            content: vec![
                AssistantBlock::Thinking { thinking: "t".into() },
                AssistantBlock::Text { text: "one".into() },
            ],
            stop_reason: None,
            error_message: None,
        },
        AgentMessage::Assistant {
            content: vec![AssistantBlock::Text { text: "two".into() }],
            stop_reason: None,
            error_message: None,
        },
    ];
    assert_eq!(collect_assistant_text(&ms), "one\ntwo");
}

#[test]
fn history_import_rebuilds_entries() {
    let mut t = Transcript::new();
    import_messages(
        &mut t,
        vec![
            AgentMessage::User { content: UserContent::Text("hi".into()) },
            AgentMessage::Assistant {
                content: vec![
                    AssistantBlock::Thinking { thinking: "a".into() },
                    AssistantBlock::Text { text: "b".into() },
                    AssistantBlock::Thinking { thinking: "c".into() },
                    AssistantBlock::ToolCall { id: "t1".into(), name: "bash".into(), arguments: null() },
                    AssistantBlock::ToolCall { id: "t2".into(), name: "read".into(), arguments: null() },
                ],
                stop_reason: None,
                error_message: None,
            },
            AgentMessage::ToolResult {
                tool_call_id: "t1".into(),
                content: vec![ContentBlock::Text { text: "ok".into() }],
                is_error: false,
            },
            AgentMessage::BashExecution {
                command: "ls".into(),
                output: "x".into(),
                exit_code: 2,
                cancelled: false,
                truncated: true,
                full_output_path: None,
            },
        ],
    );
    let es = t.entries();
    assert_eq!(es.len(), 6);
    assert!(matches!(&es[0], Entry::User(s) if s == "hi"));
    assert!(matches!(&es[1], Entry::Thinking(s) if s == "a\nc"));
    assert!(matches!(&es[2], Entry::Assistant(s) if s == "b"));
    assert!(matches!(&es[3], Entry::ToolCall(tc) if tc.id == "t1" && tc.output == "ok" && tc.status == ToolStatus::Succeeded));
    assert!(matches!(&es[4], Entry::ToolCall(tc) if tc.id == "t2" && tc.status == ToolStatus::Running));
    assert!(matches!(&es[5], Entry::BashExec(b) if b.command == "ls" && b.exit_code == 2 && b.truncated));
    assert_eq!(t.mutation_epoch(), 7);
}

#[test]
fn animations_finish_only_when_one_shot() {
    assert!(finished(false, 10, 10));
    assert!(!finished(false, 9, 10));
    assert!(!finished(true, 100, 10));
    let a = Anim::looping(Duration::from_millis(10));
    assert!(!a.is_done());
    assert!(a.repeats());
    let b = Anim::new(Duration::ZERO);
    assert!(b.is_done());
    assert_eq!(b.duration(), Duration::ZERO);
}

#[test]
fn tool_card_titles_show_arrow_name_and_chip() {
    let mut tc = call(null());
    assert_eq!(tool_card_titles(&tc), ("▸ x".to_string(), "⚙ running".to_string()));
    tc.status = ToolStatus::Failed;
    tc.expanded = true;
    assert_eq!(tool_card_titles(&tc), ("▾ x".to_string(), "✗ error".to_string()));
    let long = "a".repeat(70);
    let tc = call(jobj(vec![("cmd", jstr(&long))]));
    // The chip is already cut short; the card keeps it.
    assert_eq!(tool_card_titles(&tc).1, format!("{}…", "a".repeat(39)));
    let tc = ToolCall { status: ToolStatus::Succeeded, ..call(jobj(vec![("n", jnum(3))])) };
    assert_eq!(tool_card_titles(&tc).1, "✓ ok");
}

#[test]
fn anim_starting_at_keeps_its_start() {
    let t0 = std::time::Instant::now();
    let a = Anim::starting_at(t0, Duration::from_millis(5), true);
    assert_eq!(a.started_at(), t0);
    assert!(a.repeats());
    assert_eq!(a.duration(), Duration::from_millis(5));
    assert!(!a.is_done());
}
