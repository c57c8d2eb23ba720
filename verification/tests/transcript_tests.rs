use rata_pi::json::{Json, JsonKind};
use rata_pi::transcript::{
    fingerprint_entry, last_tool_id, transcript_hits, CompactionState, Entry, RetryState, ToolCall,
    ToolStatus, Transcript,
};

fn user(s: &str) -> Entry {
    Entry::User(s.into())
}

fn assistant(s: &str) -> Entry {
    Entry::Assistant(s.into())
}

fn null() -> Json {
    Json { kind: JsonKind::Null, text: "null".into() }
}

#[test]
fn fingerprint_equal_for_equal_content() {
    let a = fingerprint_entry(&user("hello"), false);
    let b = fingerprint_entry(&user("hello"), false);
    assert_eq!(a, b);
}

#[test]
fn fingerprint_differs_on_appended_text() {
    let a = fingerprint_entry(&assistant("hi"), false);
    let b = fingerprint_entry(&assistant("hi there"), false);
    assert_ne!(a, b);
}

#[test]
fn fingerprint_differs_across_variants() {
    let a = fingerprint_entry(&user("abc"), false);
    let b = fingerprint_entry(&assistant("abc"), false);
    assert_ne!(a, b);
}

#[test]
fn fingerprint_respects_show_thinking() {
    let e = Entry::Thinking("abc".into());
    let a = fingerprint_entry(&e, false);
    let b = fingerprint_entry(&e, true);
    assert_ne!(a, b);
}

fn tool(status: ToolStatus, expanded: bool) -> Entry {
    Entry::ToolCall(ToolCall {
        id: "x".into(),
        name: "bash".into(),
        args: null(),
        output: String::new(),
        status,
        is_error: false,
        expanded,
    })
}

#[test]
fn fingerprint_covers_tool_status_transitions() {
    let running = fingerprint_entry(&tool(ToolStatus::Running, false), false);
    let ok = fingerprint_entry(&tool(ToolStatus::Succeeded, false), false);
    let expanded = fingerprint_entry(&tool(ToolStatus::Succeeded, true), false);
    assert_ne!(running, ok);
    assert_ne!(ok, expanded);
}

#[test]
fn fingerprint_of_empty_user_entry_is_exact() {
    // FNV-1a over the words [0, 0]: each step xors the word in and
    // multiplies by the FNV prime.
    let prime: u64 = 0x0100_0000_01b3;
    let mut h: u64 = 0xcbf2_9ce4_8422_2325;
    for w in [0u64, 0u64] {
        h = (h ^ w).wrapping_mul(prime);
    }
    assert_eq!(fingerprint_entry(&user(""), false), h);
    // And a text's byte length is the second word.
    let mut h2: u64 = 0xcbf2_9ce4_8422_2325;
    for w in [0u64, 3u64] {
        h2 = (h2 ^ w).wrapping_mul(prime);
    }
    assert_eq!(fingerprint_entry(&user("é!"), false), h2);
}

#[test]
fn transcript_hits_finds_matches_case_insensitive() {
    let mut t = Transcript::default();
    t.push(Entry::User("Hello World".into()));
    t.push(Entry::Assistant("The Credit Balance was too low".into()));
    t.push(Entry::Info("unrelated".into()));
    t.push(Entry::User("world again".into()));
    let h = transcript_hits(&t, "world");
    assert_eq!(h, vec![0, 3]);
    let h = transcript_hits(&t, "CREDIT");
    assert_eq!(h, vec![1]);
    let h = transcript_hits(&t, "zzz");
    assert!(h.is_empty());
    assert!(transcript_hits(&t, "").is_empty());
}

#[test]
fn push_bumps_the_mutation_epoch() {
    let mut t = Transcript::new();
    assert_eq!(t.mutation_epoch(), 0);
    t.push(user("a"));
    t.push(user("b"));
    assert_eq!(t.mutation_epoch(), 2);
    assert_eq!(t.entries().len(), 2);
}

#[test]
fn assistant_text_streams_into_one_entry() {
    let mut t = Transcript::new();
    t.append_assistant("Hel");
    t.append_assistant("lo");
    assert_eq!(t.entries().len(), 1);
    assert!(matches!(&t.entries()[0], Entry::Assistant(s) if s == "Hello"));
    t.append_thinking("hmm");
    t.append_assistant("!");
    assert_eq!(t.entries().len(), 3);
    assert!(matches!(&t.entries()[2], Entry::Assistant(s) if s == "!"));
    assert_eq!(t.mutation_epoch(), 4);
}

#[test]
fn tool_lifecycle_updates_the_last_card_with_the_id() {
    let mut t = Transcript::new();
    t.start_tool("t1".into(), "bash".into(), null());
    t.start_tool("t2".into(), "read".into(), null());
    t.update_tool_output("t1", "partial");
    t.finish_tool("t1", "done", true);
    match &t.entries()[0] {
        Entry::ToolCall(tc) => {
            assert_eq!(tc.output, "done");
            assert_eq!(tc.status, ToolStatus::Failed);
            assert!(tc.is_error);
            assert!(!tc.expanded);
        }
        _ => panic!("expected a tool call"),
    }
    match &t.entries()[1] {
        Entry::ToolCall(tc) => {
            assert_eq!(tc.output, "");
            assert_eq!(tc.status, ToolStatus::Running);
        }
        _ => panic!("expected a tool call"),
    }
    t.toggle_tool_expanded("t2");
    assert!(matches!(&t.entries()[1], Entry::ToolCall(tc) if tc.expanded));
    // Unknown ids change nothing, counter included.
    let epoch = t.mutation_epoch();
    t.finish_tool("nope", "x", false);
    t.update_tool_output("nope", "x");
    t.toggle_tool_expanded("nope");
    assert_eq!(t.mutation_epoch(), epoch);
    assert_eq!(last_tool_id(&t), Some("t2".to_string()));
}

#[test]
fn last_tool_id_is_none_without_tools() {
    let mut t = Transcript::new();
    t.push(user("hi"));
    assert_eq!(last_tool_id(&t), None);
}

#[test]
fn retry_entries_resolve_by_attempt() {
    let mut t = Transcript::new();
    t.push_retry_waiting(1, 3, 500, "429".into());
    t.push(user("x"));
    t.resolve_retry(1, RetryState::Exhausted("gave up".into()));
    match &t.entries()[0] {
        Entry::Retry(r) => {
            assert_eq!(r.attempt, 1);
            assert_eq!(r.max_attempts, 3);
            assert!(matches!(&r.state, RetryState::Exhausted(e) if e == "gave up"));
        }
        _ => panic!("expected a retry entry"),
    }
    let n = t.entries().len();
    t.resolve_retry(7, RetryState::Succeeded);
    assert_eq!(t.entries().len(), n);
}

#[test]
fn compaction_finishes_the_running_entry_or_appends() {
    let mut t = Transcript::new();
    t.push_compaction_start("Threshold".into());
    t.finish_compaction("Threshold".into(), CompactionState::Aborted);
    assert_eq!(t.entries().len(), 1);
    assert!(matches!(&t.entries()[0], Entry::Compaction(c) if matches!(c.state, CompactionState::Aborted)));
    // Nothing running: a finished entry is appended.
    t.finish_compaction("Overflow".into(), CompactionState::Failed("boom".into()));
    assert_eq!(t.entries().len(), 2);
    assert!(matches!(&t.entries()[1], Entry::Compaction(c) if c.reason == "Overflow"));
}
