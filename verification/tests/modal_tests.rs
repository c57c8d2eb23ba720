use rata_pi::app::App;
use rata_pi::keys::{KeyCode, KeyModifiers};
use rata_pi::modals::{
    confirm_key, context_snippet, git_log_key, handle_list_keys, input_key, open_search, pick_branch, pick_key,
    plan_review_key,
    viewer_dismiss_key, viewer_scroll_key, ConfirmOutcome, EditingStep, InputOutcome, PickOutcome,
    PlanReviewMode, PlanReviewState, ReviewOutcome, Template, TemplateOutcome,
};
use rata_pi::status::FlashKind;
use rata_pi::transcript::Entry;

const NONE: KeyModifiers = KeyModifiers { shift: false, control: false, alt: false, other: false };
const SHIFT: KeyModifiers = KeyModifiers { shift: true, control: false, alt: false, other: false };
const CONTROL: KeyModifiers = KeyModifiers { shift: false, control: true, alt: false, other: false };

fn app() -> App {
    let mut a = App::new();
    a.notify_enabled = false;
    a
}

fn templates(items: &[(&str, &str)]) -> Vec<Template> {
    items.iter().map(|(n, b)| Template { name: n.to_string(), body: b.to_string() }).collect()
}

fn review(items: &[&str]) -> PlanReviewState {
    PlanReviewState {
        items: items.iter().map(|s| s.to_string()).collect(),
        selected: 0,
        scroll: 0,
        mode: PlanReviewMode::Review,
        editing: None,
        auto_run_pref: false,
    }
}

#[test]
fn slash_search_opens_modal_prefilled() {
    let mut a = app();
    a.transcript.push(Entry::User("one".into()));
    a.transcript.push(Entry::Assistant("two matches here".into()));
    a.transcript.push(Entry::User("three".into()));
    a.transcript.push(Entry::Assistant("also match".into()));
    let s = open_search(&a.transcript, "match");
    assert_eq!(s.query, "match");
    assert_eq!(s.hits, vec![1, 3]);
    // Last hit by default.
    assert_eq!(s.hit_idx, 1);
}

#[test]
fn search_modal_live_filter() {
    let mut a = app();
    a.transcript.push(Entry::User("alpha".into()));
    a.transcript.push(Entry::Assistant("beta gamma".into()));
    a.transcript.push(Entry::User("gamma delta".into()));
    let mut s = open_search(&a.transcript, "");
    for ch in "gamma".chars() {
        assert!(!a.search_key(&mut s, KeyCode::Char(ch), NONE));
    }
    assert_eq!(s.query, "gamma");
    assert_eq!(s.hits, vec![1, 2]);
    a.search_key(&mut s, KeyCode::Backspace, NONE);
    a.search_key(&mut s, KeyCode::Backspace, NONE);
    assert_eq!(s.query, "gam");
    assert_eq!(s.hits, vec![1, 2]);
}

#[test]
fn search_modal_navigate_and_enter_focus() {
    let mut a = app();
    a.transcript.push(Entry::User("one foo".into()));
    a.transcript.push(Entry::Assistant("two foo bar".into()));
    a.transcript.push(Entry::User("three".into()));
    a.transcript.push(Entry::Info("four foo".into()));
    let mut s = open_search(&a.transcript, "foo");
    assert_eq!(s.hits, vec![0, 1, 3]);
    assert_eq!(s.hit_idx, 2);
    a.search_key(&mut s, KeyCode::Char('n'), NONE);
    assert_eq!(s.hit_idx, 0);
    a.search_key(&mut s, KeyCode::Char('N'), SHIFT);
    assert_eq!(s.hit_idx, 2);
    assert!(a.search_key(&mut s, KeyCode::Enter, NONE));
    assert_eq!(a.focus_idx, Some(3));
}

#[test]
fn search_esc_closes_without_focusing() {
    let mut a = app();
    a.transcript.push(Entry::User("foo".into()));
    a.scroll = Some(9);
    let mut s = open_search(&a.transcript, "  foo  ");
    assert_eq!(s.query, "foo");
    assert_eq!(s.query_cursor, 3);
    assert!(a.search_key(&mut s, KeyCode::Esc, NONE));
    assert_eq!(a.focus_idx, None);
    assert_eq!(a.scroll, Some(9));
}

#[test]
fn search_with_no_match_keeps_index_in_range() {
    let mut a = app();
    a.transcript.push(Entry::User("abc".into()));
    let mut s = open_search(&a.transcript, "b");
    assert_eq!(s.hits, vec![0]);
    a.search_key(&mut s, KeyCode::Char('z'), NONE);
    assert!(s.hits.is_empty());
    assert_eq!(s.hit_idx, 0);
    // Enter with no match closes and leaves focus alone.
    assert!(a.search_key(&mut s, KeyCode::Enter, NONE));
    assert_eq!(a.focus_idx, None);
}

#[test]
fn template_picker_enter_loads_body() {
    let mut a = app();
    let mut items = templates(&[("alpha", "first body"), ("beta", "second body")]);
    let mut sel = 0usize;
    a.template_key(&mut items, &mut sel, KeyCode::Down);
    match a.template_key(&mut items, &mut sel, KeyCode::Enter) {
        TemplateOutcome::Load(body) => assert_eq!(body, "second body"),
        _ => panic!("Enter should load the body"),
    }
    let f = a.flash.as_ref().unwrap();
    assert_eq!(f.text, "loaded template \"beta\"");
    assert_eq!(f.kind, FlashKind::Success);
}

#[test]
fn template_picker_delete_removes_and_auto_closes_when_empty() {
    let mut a = app();
    let mut items = templates(&[("only", "body")]);
    let mut sel = 0usize;
    match a.template_key(&mut items, &mut sel, KeyCode::Char('d')) {
        TemplateOutcome::Delete { name, close } => {
            assert_eq!(name, "only");
            assert!(close, "emptying the list should auto-close the picker");
        }
        _ => panic!("d should delete"),
    }
    assert!(items.is_empty());
    assert_eq!(a.flash.as_ref().unwrap().text, "deleted \"only\" — no templates left");
}

#[test]
fn template_picker_esc_closes_without_loading() {
    let mut a = app();
    let mut items = templates(&[("one", "body")]);
    let mut sel = 0usize;
    assert!(matches!(a.template_key(&mut items, &mut sel, KeyCode::Esc), TemplateOutcome::Close));
    assert_eq!(items.len(), 1);
    assert!(a.flash.is_none());
}

#[test]
fn template_delete_keeps_selection_in_range() {
    let mut a = app();
    let mut items = templates(&[("a", "1"), ("b", "2"), ("c", "3")]);
    let mut sel = 0usize;
    a.template_key(&mut items, &mut sel, KeyCode::End);
    assert_eq!(sel, 2);
    match a.template_key(&mut items, &mut sel, KeyCode::Delete) {
        TemplateOutcome::Delete { name, close } => {
            assert_eq!(name, "c");
            assert!(!close);
        }
        _ => panic!(),
    }
    assert_eq!(sel, 1);
    assert_eq!(a.flash.as_ref().unwrap().text, "deleted template \"c\"");
    a.template_key(&mut items, &mut sel, KeyCode::Char('g'));
    assert_eq!(sel, 0);
    a.template_key(&mut items, &mut sel, KeyCode::Char('k'));
    assert_eq!(sel, 0);
}

#[test]
fn shortcuts_modal_scroll_and_close_bindings() {
    let mut scroll = 0u16;
    assert!(!viewer_scroll_key(&mut scroll, KeyCode::PageDown));
    assert_eq!(scroll, 10);
    assert!(!viewer_scroll_key(&mut scroll, KeyCode::Home));
    assert_eq!(scroll, 0);
    assert!(viewer_scroll_key(&mut scroll, KeyCode::Char('q')), "q should close Shortcuts");
}

#[test]
fn viewer_scroll_keys_saturate() {
    let mut scroll = 0u16;
    viewer_scroll_key(&mut scroll, KeyCode::Char('k'));
    assert_eq!(scroll, 0);
    viewer_scroll_key(&mut scroll, KeyCode::Char('G'));
    assert_eq!(scroll, u16::MAX);
    viewer_scroll_key(&mut scroll, KeyCode::Down);
    assert_eq!(scroll, u16::MAX);
    viewer_scroll_key(&mut scroll, KeyCode::PageUp);
    assert_eq!(scroll, u16::MAX - 10);
    assert!(viewer_scroll_key(&mut scroll, KeyCode::Esc));
    assert!(!viewer_scroll_key(&mut scroll, KeyCode::Enter));
}

#[test]
fn viewers_dismiss_on_esc_enter_q() {
    assert!(viewer_dismiss_key(KeyCode::Esc));
    assert!(viewer_dismiss_key(KeyCode::Enter));
    assert!(viewer_dismiss_key(KeyCode::Char('q')));
    assert!(!viewer_dismiss_key(KeyCode::Char('Q')));
    assert!(!viewer_dismiss_key(KeyCode::Down));
}

#[test]
fn list_keys_filter_and_move() {
    let mut q = String::new();
    let mut sel = 0usize;
    assert!(handle_list_keys(&mut q, &mut sel, KeyCode::Down, 3));
    assert!(handle_list_keys(&mut q, &mut sel, KeyCode::Down, 3));
    assert_eq!(sel, 2);
    handle_list_keys(&mut q, &mut sel, KeyCode::Down, 3);
    assert_eq!(sel, 2);
    handle_list_keys(&mut q, &mut sel, KeyCode::Char('é'), 3);
    assert_eq!(q, "é");
    assert_eq!(sel, 0);
    handle_list_keys(&mut q, &mut sel, KeyCode::Up, 3);
    assert_eq!(sel, 0);
    handle_list_keys(&mut q, &mut sel, KeyCode::Backspace, 3);
    assert_eq!(q, "");
    handle_list_keys(&mut q, &mut sel, KeyCode::Backspace, 3);
    assert_eq!(q, "");
    assert!(!handle_list_keys(&mut q, &mut sel, KeyCode::Enter, 3));
    handle_list_keys(&mut q, &mut sel, KeyCode::Down, 0);
    assert_eq!(sel, 0);
}

#[test]
fn git_log_keys_clamp_to_the_log() {
    let mut sel = 0usize;
    assert!(!git_log_key(&mut sel, 25, KeyCode::PageDown));
    assert_eq!(sel, 10);
    git_log_key(&mut sel, 25, KeyCode::PageDown);
    git_log_key(&mut sel, 25, KeyCode::PageDown);
    assert_eq!(sel, 24);
    git_log_key(&mut sel, 25, KeyCode::Char('j'));
    assert_eq!(sel, 24);
    git_log_key(&mut sel, 25, KeyCode::PageUp);
    assert_eq!(sel, 14);
    git_log_key(&mut sel, 25, KeyCode::Home);
    assert_eq!(sel, 0);
    git_log_key(&mut sel, 25, KeyCode::Up);
    assert_eq!(sel, 0);
    git_log_key(&mut sel, 25, KeyCode::Char('G'));
    assert_eq!(sel, 24);
    assert!(git_log_key(&mut sel, 25, KeyCode::Esc));
    let mut empty = 0usize;
    git_log_key(&mut empty, 0, KeyCode::End);
    assert_eq!(empty, 0);
}

#[test]
fn pick_confirm_and_input_dialogs() {
    let mut sel = 0usize;
    assert_eq!(pick_key(&mut sel, 3, KeyCode::Down), PickOutcome::Nothing);
    assert_eq!(pick_key(&mut sel, 3, KeyCode::Down), PickOutcome::Nothing);
    pick_key(&mut sel, 3, KeyCode::Down);
    assert_eq!(pick_key(&mut sel, 3, KeyCode::Enter), PickOutcome::Choose(2));
    assert_eq!(pick_key(&mut sel, 3, KeyCode::Esc), PickOutcome::Cancel);

    let mut yes = 0usize;
    assert_eq!(confirm_key(&mut yes, KeyCode::Tab), ConfirmOutcome::Nothing);
    assert_eq!(yes, 1);
    assert_eq!(confirm_key(&mut yes, KeyCode::Enter), ConfirmOutcome::Answer(true));
    assert_eq!(confirm_key(&mut yes, KeyCode::Char('n')), ConfirmOutcome::Answer(false));
    assert_eq!(confirm_key(&mut yes, KeyCode::Left), ConfirmOutcome::Nothing);
    assert_eq!(confirm_key(&mut yes, KeyCode::Enter), ConfirmOutcome::Answer(false));
    assert_eq!(confirm_key(&mut yes, KeyCode::Char('Y')), ConfirmOutcome::Answer(true));
    assert_eq!(confirm_key(&mut yes, KeyCode::Esc), ConfirmOutcome::Cancel);

    let mut v = String::from("ab");
    assert!(matches!(input_key(&mut v, KeyCode::Char('c')), InputOutcome::Nothing));
    assert!(matches!(input_key(&mut v, KeyCode::Backspace), InputOutcome::Nothing));
    assert_eq!(v, "ab");
    match input_key(&mut v, KeyCode::Enter) {
        InputOutcome::Submit(s) => assert_eq!(s, "ab"),
        _ => panic!(),
    }
    assert_eq!(v, "");
    assert!(matches!(input_key(&mut v, KeyCode::Esc), InputOutcome::Cancel));
}

#[test]
fn plan_review_edit_delete_add_accept() {
    let mut s = review(&["alpha", "beta", "gamma"]);
    assert_eq!(plan_review_key(&mut s, KeyCode::Char('e'), NONE), ReviewOutcome::Nothing);
    assert_eq!(s.mode, PlanReviewMode::Edit);

    plan_review_key(&mut s, KeyCode::Down, NONE);
    assert_eq!(plan_review_key(&mut s, KeyCode::Char('x'), NONE), ReviewOutcome::SyncItems);
    assert_eq!(s.items, vec!["alpha".to_string(), "gamma".to_string()]);

    plan_review_key(&mut s, KeyCode::Down, NONE);
    assert_eq!(plan_review_key(&mut s, KeyCode::Char('a'), NONE), ReviewOutcome::SyncItems);
    assert!(s.editing.is_some());
    s.editing = Some(EditingStep { index: s.selected, buffer: "delta".into(), cursor: 5 });
    plan_review_key(&mut s, KeyCode::Enter, NONE);
    assert!(s.editing.is_none());

    assert_eq!(plan_review_key(&mut s, KeyCode::Char('s'), CONTROL), ReviewOutcome::AcceptEdited);
    assert_eq!(s.items, vec!["alpha".to_string(), "gamma".to_string(), "delta".to_string()]);
}

#[test]
fn plan_review_chips_and_keys() {
    let mut s = review(&["one", "two"]);
    assert_eq!(plan_review_key(&mut s, KeyCode::Enter, NONE), ReviewOutcome::Accept);
    plan_review_key(&mut s, KeyCode::Right, NONE);
    plan_review_key(&mut s, KeyCode::Char('l'), NONE);
    plan_review_key(&mut s, KeyCode::Right, NONE);
    assert_eq!(s.selected, 2);
    assert_eq!(plan_review_key(&mut s, KeyCode::Enter, NONE), ReviewOutcome::Deny);
    plan_review_key(&mut s, KeyCode::Left, NONE);
    assert_eq!(plan_review_key(&mut s, KeyCode::Enter, NONE), ReviewOutcome::Nothing);
    assert_eq!(s.mode, PlanReviewMode::Edit);
    assert_eq!(s.selected, 0);
    assert_eq!(plan_review_key(&mut s, KeyCode::Esc, NONE), ReviewOutcome::Nothing);
    assert_eq!(s.mode, PlanReviewMode::Review);
    assert_eq!(s.selected, 1);
    assert_eq!(plan_review_key(&mut s, KeyCode::Char('t'), NONE), ReviewOutcome::SyncAutoRun);
    assert!(s.auto_run_pref);
    plan_review_key(&mut s, KeyCode::PageDown, NONE);
    assert_eq!(s.scroll, 10);
    assert_eq!(plan_review_key(&mut s, KeyCode::Char('A'), NONE), ReviewOutcome::Accept);
    assert_eq!(plan_review_key(&mut s, KeyCode::Esc, NONE), ReviewOutcome::Deny);
}

#[test]
fn plan_review_step_rewrite_edits_then_drops() {
    let mut s = review(&["one"]);
    s.mode = PlanReviewMode::Edit;
    plan_review_key(&mut s, KeyCode::Char('i'), NONE);
    let e = s.editing.as_ref().unwrap();
    assert_eq!((e.index, e.buffer.as_str(), e.cursor), (0, "one", 3));
    plan_review_key(&mut s, KeyCode::Char('!'), NONE);
    assert_eq!(s.editing.as_ref().unwrap().buffer, "one!");
    plan_review_key(&mut s, KeyCode::Esc, NONE);
    assert!(s.editing.is_none());
    assert_eq!(s.items, vec!["one".to_string()]);
}

#[test]
fn branch_pick_follows_the_filter() {
    let names: Vec<String> = ["main", "Feature-Login", "fix/login-bug", "release"].iter().map(|s| s.to_string()).collect();
    assert_eq!(pick_branch(&names, "", 2), Some("fix/login-bug".to_string()));
    assert_eq!(pick_branch(&names, "LOGIN", 0), Some("Feature-Login".to_string()));
    assert_eq!(pick_branch(&names, "login", 1), Some("fix/login-bug".to_string()));
    assert_eq!(pick_branch(&names, "login", 2), None);
    assert_eq!(pick_branch(&names, "zzz", 0), None);
}

#[test]
fn context_snippet_windows_the_first_match() {
    let snip = |t: &str, n: &str, m: usize| context_snippet(t, n, m);
    assert_eq!(snip("Hello World, the world is big", "world", 10).as_deref(), Some("…ello World, the…"));
    // No match: the window opens at the start.
    assert_eq!(snip("abc\ndef", "zz", 4).as_deref(), Some("abc …"));
    assert_eq!(snip("a\tb", "b", 100).as_deref(), Some("a b"));
    assert_eq!(snip("héllo wörld", "wörld", 2).as_deref(), Some("… wörld"));
    // A window edge inside a character moves forward to the next one.
    assert_eq!(snip("éa", "a", 2).as_deref(), Some("…a"));
    // Lowercasing lengthened the text and the match lies past its end.
    assert_eq!(snip("İİİİx", "x", 0), None);
    assert_eq!(snip("İİİİx", "x", 8).as_deref(), Some("…x"));
}
