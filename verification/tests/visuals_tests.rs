use rata_pi::app::App;
use rata_pi::messages::Incoming;
use rata_pi::transcript::{fingerprint_entry, Entry};
use rata_pi::visuals::{update_visuals_cache, SlotWork, VisualsCache};

fn app() -> App {
    let mut a = App::new();
    a.notify_enabled = false;
    a
}

#[test]
fn visuals_cache_skips_walk_when_epoch_unchanged() {
    let mut a = app();
    a.transcript.push(Entry::User("hi".into()));
    a.transcript.push(Entry::Assistant("hello".into()));
    let mut c = VisualsCache::new();
    // First walk — populates the cache.
    update_visuals_cache(&mut c, &a, "dark", 80);
    assert_eq!(c.entries.len(), 2);
    let epoch_after_first = c.last_seen_epoch;
    assert_eq!(epoch_after_first, a.transcript.mutation_epoch());
    // Corrupt a slot: a second walk would overwrite it.
    let sentinel_fp: u64 = 0xDEAD_BEEF;
    c.entries[0].fingerprint = sentinel_fp;
    assert!(update_visuals_cache(&mut c, &a, "dark", 80).is_none());
    assert_eq!(
        c.entries[0].fingerprint, sentinel_fp,
        "epoch was unchanged; fingerprint walk must have been skipped"
    );
}

#[test]
fn visuals_cache_walks_after_mutation() {
    let mut a = app();
    a.transcript.push(Entry::User("hi".into()));
    let mut c = VisualsCache::new();
    update_visuals_cache(&mut c, &a, "dark", 80);
    let fp_before = c.entries[0].fingerprint;
    c.entries[0].fingerprint = 0;
    a.transcript.push(Entry::Assistant("hey".into()));
    update_visuals_cache(&mut c, &a, "dark", 80);
    assert_eq!(c.entries.len(), 2);
    assert_eq!(
        c.entries[0].fingerprint, fp_before,
        "walk must restore the correct fingerprint after mutation"
    );
}

#[test]
fn first_frame_builds_everything_then_width_only_measures() {
    let mut a = app();
    a.transcript.push(Entry::User("a".into()));
    a.transcript.push(Entry::Info("b".into()));
    let mut c = VisualsCache::new();
    let w = update_visuals_cache(&mut c, &a, "dark", 80).unwrap();
    assert_eq!(w, vec![SlotWork::Build, SlotWork::Build]);
    assert_eq!(c.entries[1].fingerprint, fingerprint_entry(&Entry::Info("b".into()), false));
    let w = update_visuals_cache(&mut c, &a, "dark", 100).unwrap();
    assert_eq!(w, vec![SlotWork::Measure, SlotWork::Measure]);
    assert_eq!(c.last_seen_width, 100);
    // A theme change throws every rendering away.
    let w = update_visuals_cache(&mut c, &a, "light", 100).unwrap();
    assert_eq!(w, vec![SlotWork::Build, SlotWork::Build]);
    assert_eq!(c.theme_key, "light");
}

#[test]
fn only_changed_entries_are_rebuilt() {
    let mut a = app();
    a.transcript.push(Entry::User("a".into()));
    a.on_event(Incoming::ToolExecutionStart {
        tool_call_id: "t".into(),
        tool_name: "bash".into(),
        args: rata_pi::json::Json { kind: rata_pi::json::JsonKind::Null, text: "null".into() },
    });
    let mut c = VisualsCache::new();
    update_visuals_cache(&mut c, &a, "dark", 80);
    a.transcript.toggle_tool_expanded("t");
    let w = update_visuals_cache(&mut c, &a, "dark", 80).unwrap();
    assert_eq!(w, vec![SlotWork::Keep, SlotWork::Build]);
    // Showing thinking changes no key of non-thinking entries.
    a.prefs.show_thinking = true;
    a.transcript.push(Entry::Thinking("t".into()));
    let w = update_visuals_cache(&mut c, &a, "dark", 80).unwrap();
    assert_eq!(w, vec![SlotWork::Keep, SlotWork::Keep, SlotWork::Build]);
}

#[test]
fn live_tail_is_rebuilt_every_frame() {
    let mut a = app();
    a.on_event(Incoming::AgentStart);
    a.on_event(Incoming::MessageUpdate {
        event: rata_pi::messages::AssistantEvent::TextDelta { delta: "par".into() },
    });
    let mut c = VisualsCache::new();
    update_visuals_cache(&mut c, &a, "dark", 80);
    let last = c.entries.len() - 1;
    assert_eq!(c.entries[last].fingerprint, u64::MAX);
    let w = update_visuals_cache(&mut c, &a, "dark", 80).unwrap();
    assert_eq!(w[last], SlotWork::Build);
}

#[test]
fn cleared_transcript_drops_keys() {
    let mut a = app();
    a.transcript.push(Entry::User("a".into()));
    a.transcript.push(Entry::User("b".into()));
    let mut c = VisualsCache::new();
    update_visuals_cache(&mut c, &a, "dark", 80);
    a.local_slash("clear", "", false, "");
    let w = update_visuals_cache(&mut c, &a, "dark", 80).unwrap();
    assert!(w.is_empty());
    assert!(c.entries.is_empty());
}
