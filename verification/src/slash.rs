//! What the composer sends: a submitted line read as a slash command, a
//! shell command or a prompt; the slash commands split into the part the
//! client state carries out and the work left to the host; and what the
//! state makes of the host's reply.

use vstd::prelude::*;
use vstd::string::*;

use crate::app::{App, keeps_core, keeps_queues, keeps_run, keeps_tools, keeps_turn};
use crate::helpers::{concat2, concat3, decimal, decimal_string, on_off, truncate_preview, truncated};
use crate::modals::{SearchState, open_search};
use crate::settings::{QueueMode, Session, flashed, on_off_text, session_with};
use crate::status::{ComposerMode, FlashKind, LiveState};
use crate::text::{
    char_is_whitespace, find, first_line, first_line_of, occurs_at, str_eq, trim, trimmed,
    unicode_whitespace,
};
use crate::keymap::switch_flipped;
use crate::tools::{debug_quote, debug_quoted};
use crate::transcript::{BashExec, Entry, Transcript, appended, bumped, contains_text, search_hits};

verus! {

/// The index of the first whitespace character of `t`, or its length.
pub open spec fn first_space(t: Seq<char>) -> nat
    decreases t.len(),
{
    if t.len() == 0 || unicode_whitespace(t[0]) {
        0
    } else {
        1 + first_space(t.drop_first())
    }
}

/// The first word of `t`: what comes before its first whitespace
/// character.
pub open spec fn head_word(t: Seq<char>) -> Seq<char> {
    t.take(first_space(t) as int)
}

/// What follows the first whitespace character of `t`, trimmed (nothing
/// when `t` holds no whitespace).
pub open spec fn rest_words(t: Seq<char>) -> Seq<char> {
    let i = first_space(t) as int;
    if i < t.len() {
        trimmed(t.skip(i + 1))
    } else {
        Seq::empty()
    }
}

/// Index `i` is the first whitespace character of `t` (or its length).
proof fn lemma_first_space(t: Seq<char>, i: int)
    requires
        0 <= i <= t.len(),
        forall|j: int| 0 <= j < i ==> !unicode_whitespace(#[trigger] t[j]),
        i == t.len() || unicode_whitespace(t[i]),
    ensures
        first_space(t) == i,
    decreases i,
{
    if i > 0 {
        let u = t.drop_first();
        assert forall|j: int| 0 <= j < i - 1 implies !unicode_whitespace(#[trigger] u[j]) by {
            assert(u[j] == t[j + 1]);
        }
        if i < t.len() {
            assert(u[i - 1] == t[i]);
        }
        lemma_first_space(u, i - 1);
    }
}

/// Split `s` at its first whitespace character into the word before it
/// and what follows, trimmed: `splitn(2, char::is_whitespace)` with the
/// second part trimmed.
pub fn split_word(s: &str) -> (r: (String, String))
    ensures
        r.0@ == head_word(s@),
        r.1@ == rest_words(s@),
{
    let n = s.unicode_len();
    let mut i: usize = 0;
    while i < n
        invariant
            i <= n,
            n == s@.len(),
            forall|j: int| 0 <= j < i ==> !unicode_whitespace(#[trigger] s@[j]),
        ensures
            i <= n,
            forall|j: int| 0 <= j < i ==> !unicode_whitespace(#[trigger] s@[j]),
            i == n || unicode_whitespace(s@[i as int]),
        decreases n - i,
    {
        if char_is_whitespace(s.get_char(i)) {
            break;
        }
        i += 1;
    }
    proof {
        lemma_first_space(s@, i as int);
    }
    let head = String::from_str(s.substring_char(0, i));
    let rest = if i < n {
        String::from_str(trim(s.substring_char(i + 1, n)))
    } else {
        String::new()
    };
    (head, rest)
}

/// What a submitted line asks for.
pub enum Submission {
    /// Nothing: the line held only whitespace.
    Empty,
    /// `/name arg`.
    Slash { name: String, arg: String },
    /// `!command`, the command trimmed (possibly empty).
    Bash(String),
    /// Anything else: a message for the agent, trimmed.
    Prompt(String),
}

/// `s` is what line `text` asks for: the trimmed line is empty, or a
/// slash command split into its name and argument, or a shell command
/// after `!`, or else a prompt.
pub open spec fn parsed_as(text: Seq<char>, s: Submission) -> bool {
    let t = trimmed(text);
    if t.len() == 0 {
        s is Empty
    } else if t[0] == '/' {
        s matches Submission::Slash { name, arg } && name@ == head_word(t.drop_first()) && arg@
            == rest_words(t.drop_first())
    } else if t[0] == '!' {
        s matches Submission::Bash(c) && c@ == trimmed(t.drop_first())
    } else {
        s matches Submission::Prompt(p) && p@ == t
    }
}

/// Read a submitted line.
pub fn parse_submission(text: &str) -> (s: Submission)
    ensures
        parsed_as(text@, s),
{
    let t = trim(text);
    let n = t.unicode_len();
    if n == 0 {
        return Submission::Empty;
    }
    let c = t.get_char(0);
    if c == '/' {
        let (name, arg) = split_word(t.substring_char(1, n));
        proof {
            assert(t@.subrange(1, n as int) =~= t@.drop_first());
        }
        Submission::Slash { name, arg }
    } else if c == '!' {
        let cmd = String::from_str(trim(t.substring_char(1, n)));
        proof {
            assert(t@.subrange(1, n as int) =~= t@.drop_first());
        }
        Submission::Bash(cmd)
    } else {
        Submission::Prompt(String::from_str(t))
    }
}

/// The decimal value of a run of ASCII digits.
pub open spec fn digits_value(t: Seq<char>) -> nat
    decreases t.len(),
{
    if t.len() == 0 {
        0
    } else {
        digits_value(t.drop_last()) * 10 + (t.last() as nat - '0' as nat) as nat
    }
}

/// Every character of `t` is an ASCII digit.
pub open spec fn all_digits(t: Seq<char>) -> bool {
    forall|i: int| 0 <= i < t.len() ==> '0' <= #[trigger] t[i] <= '9'
}

/// What `str::parse::<u32>` makes of `t`: an optional `+` and then at
/// least one ASCII digit, nothing else, with a value that fits.
pub open spec fn parsed_u32(t: Seq<char>) -> Option<u32> {
    let d = if t.len() > 0 && t[0] == '+' {
        t.drop_first()
    } else {
        t
    };
    if d.len() > 0 && all_digits(d) && digits_value(d) <= u32::MAX {
        Some(digits_value(d) as u32)
    } else {
        None
    }
}

/// `s` read as a `u32` the way `str::parse::<u32>` reads it: an optional
/// `+` and then ASCII digits only, none on any other character or on
/// overflow.
fn parse_u32(s: &str) -> (r: Option<u32>)
    ensures
        r == parsed_u32(s@),
{
    let n = s.unicode_len();
    let start: usize = if n > 0 && s.get_char(0) == '+' {
        1
    } else {
        0
    };
    let ghost d = s@.subrange(start as int, n as int);
    proof {
        if start == 1 {
            assert(d =~= s@.drop_first());
        } else {
            assert(d =~= s@);
        }
    }
    if start == n {
        return None;
    }
    let mut v: u64 = 0;
    let mut k: usize = start;
    while k < n
        invariant
            n == s@.len(),
            start <= k <= n,
            d == s@.subrange(start as int, n as int),
            d == (if s@.len() > 0 && s@[0] == '+' {
                s@.drop_first()
            } else {
                s@
            }),
            all_digits(s@.subrange(start as int, k as int)),
            v == digits_value(s@.subrange(start as int, k as int)),
            v <= u32::MAX,
        decreases n - k,
    {
        let c = s.get_char(k);
        let ghost p = s@.subrange(start as int, k + 1);
        assert(p.drop_last() =~= s@.subrange(start as int, k as int));
        if !('0' <= c && c <= '9') {
            proof {
                assert(!all_digits(d)) by {
                    assert(d[k - start] == c);
                }
            }
            return None;
        }
        let digit = (c as u32 - '0' as u32) as u64;
        v = v * 10 + digit;
        assert(v == digits_value(p));
        if v > u32::MAX as u64 {
            proof {
                if all_digits(d) {
                    lemma_digits_value_prefix(d, k + 1 - start);
                    assert(d.take(k + 1 - start) =~= p);
                }
            }
            return None;
        }
        k += 1;
    }
    assert(s@.subrange(start as int, k as int) =~= d);
    Some(v as u32)
}

/// The value of the digits of a prefix is at most that of the whole.
proof fn lemma_digits_value_prefix(t: Seq<char>, k: int)
    requires
        0 <= k <= t.len(),
        all_digits(t),
    ensures
        digits_value(t.take(k)) <= digits_value(t),
    decreases t.len() - k,
{
    if k < t.len() {
        lemma_digits_value_prefix(t, k + 1);
        assert(t.take(k + 1).drop_last() =~= t.take(k));
        assert('0' <= t[k] <= '9');
    } else {
        assert(t.take(k) =~= t);
    }
}

/// The number of commits `/git-log` shows for argument `arg`: 30 unless
/// the argument is a number.
pub open spec fn git_log_count(arg: Seq<char>) -> u32 {
    if arg.len() == 0 {
        30
    } else {
        match parsed_u32(arg) {
            Some(n) => n,
            None => 30,
        }
    }
}

/// The picker option of a thinking level given by name: the levels are
/// listed from off to xhigh, and an unknown or missing level picks medium.
pub open spec fn thinking_index(level: Option<String>) -> usize {
    let name = match level {
        Some(s) => s@,
        None => "medium"@,
    };
    if name == "off"@ {
        0
    } else if name == "minimal"@ {
        1
    } else if name == "low"@ {
        2
    } else if name == "medium"@ {
        3
    } else if name == "high"@ {
        4
    } else if name == "xhigh"@ {
        5
    } else {
        3
    }
}

/// The option of the thinking-level picker that starts selected: the
/// current level, medium when unknown.
pub fn thinking_pick_index(level: &Option<String>) -> (i: usize)
    ensures
        i == thinking_index(*level),
{
    let name: &str = match level {
        Some(s) => s.as_str(),
        None => "medium",
    };
    proof {
        reveal_strlit("medium");
    }
    if str_eq(name, "off") {
        0
    } else if str_eq(name, "minimal") {
        1
    } else if str_eq(name, "low") {
        2
    } else if str_eq(name, "medium") {
        3
    } else if str_eq(name, "high") {
        4
    } else if str_eq(name, "xhigh") {
        5
    } else {
        3
    }
}

/// The text of the most recent user prompt.
pub open spec fn last_user(es: Seq<Entry>) -> Option<String>
    decreases es.len(),
{
    if es.len() == 0 {
        None
    } else {
        match es.last() {
            Entry::User(s) => Some(s),
            _ => last_user(es.drop_last()),
        }
    }
}

/// The text of the most recent user prompt, if any.
pub fn last_user_text(t: &Transcript) -> (r: Option<String>)
    ensures
        r == last_user(t@),
{
    let es = t.entries();
    let mut i = es.len();
    assert(es@.take(i as int) =~= es@);
    while i > 0
        invariant
            i <= es@.len(),
            es@ == t@,
            last_user(es@) == last_user(es@.take(i as int)),
        decreases i,
    {
        proof {
            assert(es@.take(i as int).drop_last() =~= es@.take(i - 1));
        }
        match &es[i - 1] {
            Entry::User(s) => {
                return Some(s.clone());
            },
            _ => {},
        }
        i -= 1;
    }
    proof {
        assert(es@.take(0) =~= Seq::<Entry>::empty());
    }
    None
}

} // verus!

verus! {

/// A thinking level of the agent.
#[derive(Clone, Copy, Debug, PartialEq, Eq, Structural)]
pub enum ThinkingLevel {
    Off,
    Minimal,
    Low,
    Medium,
    High,
    Xhigh,
}

impl ThinkingLevel {
    /// The level's name on the wire.
    pub open spec fn name_spec(self) -> Seq<char> {
        match self {
            ThinkingLevel::Off => "off"@,
            ThinkingLevel::Minimal => "minimal"@,
            ThinkingLevel::Low => "low"@,
            ThinkingLevel::Medium => "medium"@,
            ThinkingLevel::High => "high"@,
            ThinkingLevel::Xhigh => "xhigh"@,
        }
    }

    pub fn name(self) -> (r: &'static str)
        ensures
            r@ == self.name_spec(),
    {
        match self {
            ThinkingLevel::Off => "off",
            ThinkingLevel::Minimal => "minimal",
            ThinkingLevel::Low => "low",
            ThinkingLevel::Medium => "medium",
            ThinkingLevel::High => "high",
            ThinkingLevel::Xhigh => "xhigh",
        }
    }

    /// The level as the flash names it.
    pub open spec fn label_spec(self) -> Seq<char> {
        match self {
            ThinkingLevel::Off => "Off"@,
            ThinkingLevel::Minimal => "Minimal"@,
            ThinkingLevel::Low => "Low"@,
            ThinkingLevel::Medium => "Medium"@,
            ThinkingLevel::High => "High"@,
            ThinkingLevel::Xhigh => "Xhigh"@,
        }
    }

    pub fn label(self) -> (r: &'static str)
        ensures
            r@ == self.label_spec(),
    {
        match self {
            ThinkingLevel::Off => "Off",
            ThinkingLevel::Minimal => "Minimal",
            ThinkingLevel::Low => "Low",
            ThinkingLevel::Medium => "Medium",
            ThinkingLevel::High => "High",
            ThinkingLevel::Xhigh => "Xhigh",
        }
    }

    /// The level at option `i` of the thinking-level picker, which lists
    /// them from off to xhigh.
    pub open spec fn option(i: int) -> Option<ThinkingLevel> {
        if i == 0 {
            Some(ThinkingLevel::Off)
        } else if i == 1 {
            Some(ThinkingLevel::Minimal)
        } else if i == 2 {
            Some(ThinkingLevel::Low)
        } else if i == 3 {
            Some(ThinkingLevel::Medium)
        } else if i == 4 {
            Some(ThinkingLevel::High)
        } else if i == 5 {
            Some(ThinkingLevel::Xhigh)
        } else {
            None
        }
    }

    /// The level at option `i` of the thinking-level picker, which lists
    /// them from off to xhigh.
    pub fn at(i: usize) -> (r: Option<ThinkingLevel>)
        ensures
            r == ThinkingLevel::option(i as int),
    {
        if i == 0 {
            Some(ThinkingLevel::Off)
        } else if i == 1 {
            Some(ThinkingLevel::Minimal)
        } else if i == 2 {
            Some(ThinkingLevel::Low)
        } else if i == 3 {
            Some(ThinkingLevel::Medium)
        } else if i == 4 {
            Some(ThinkingLevel::High)
        } else if i == 5 {
            Some(ThinkingLevel::Xhigh)
        } else {
            None
        }
    }
}

/// Work left to the host by a slash command or a dialog: a dialog to
/// open, a file or git operation, or a call to the agent.
pub enum SlashCommand {
    Help,
    Stats,
    /// Write the transcript to a file.
    Export,
    /// Step to the next theme (empty) or pick the theme of this name.
    Theme(String),
    Themes,
    Version,
    Log,
    Env,
    /// Open the file finder on this query.
    FindFiles(String),
    /// `/plan` with its argument.
    Plan(String),
    GitStatus,
    /// Show the diff, of the index or of the working tree.
    GitDiff { staged: bool },
    /// Show this many of the last commits.
    GitLog(u32),
    GitBranches,
    SwitchBranch(String),
    /// Commit everything with this message.
    Commit(String),
    Stash,
    Doctor,
    Mcp,
    Shortcuts,
    Settings,
    /// Open the template picker.
    TemplatePicker,
    /// Store this body as the template of this name.
    TemplateSave { name: String, body: String },
    /// Look up the template of this name.
    TemplateLoad(String),
    TemplateDelete(String),
    /// Open the transcript search.
    Search(SearchState),
    /// Notifications were switched to this; say so through them.
    Notify(bool),
    /// The editor keys changed; put the composer in insert mode.
    EditorMode,
    /// Rename the session.
    Rename(String),
    NewSession,
    ExportHtml,
    /// Switch to the session in this file.
    SwitchSession(String),
    Fork,
    /// Compact the context, with these instructions if any.
    Compact(Option<String>),
    Models,
    /// Open the thinking-level picker on this option.
    Thinking(usize),
    CycleModel,
    CycleThinking,
    SetAutoCompaction(bool),
    SetAutoRetry(bool),
    /// Copy the agent's last answer.
    CopyLast,
    /// Send this earlier prompt again, as a steer while the agent runs.
    Retry { text: String, steer: bool },
    Abort,
    AbortBash,
    AbortRetry,
    SteeringMode(QueueMode),
    FollowUpMode(QueueMode),
    /// Set the thinking level picked in its dialog.
    SetThinking(ThinkingLevel),
    /// Switch to the model picked in its dialog.
    SetModel { provider: String, id: String },
    /// Fork the session at the picked message, whose text is given.
    ForkAt { entry_id: String, text: String },
}

/// What became of a slash command.
pub enum SlashOutcome {
    /// The state did all there was to do.
    Done,
    /// The host carries this out.
    Run(SlashCommand),
    /// Not a command of this kind.
    Unknown,
}

/// Only the flash changed: it reads `text`, of kind `kind`, raised now.
pub open spec fn only_flashed(a: App, b: App, text: Seq<char>, kind: FlashKind) -> bool {
    &&& flashed(b.flash, text, a.status.ticks, kind)
    &&& keeps_core(a, b) && b.status == a.status && b.focus_idx == a.focus_idx && b.scroll == a.scroll
}

/// The commands that need no agent.
pub open spec fn local_name(n: Seq<char>) -> bool {
    ||| n == "help"@ || n == "stats"@ || n == "export"@ || n == "clear"@ || n == "theme"@
    ||| n == "themes"@ || n == "version"@ || n == "log"@ || n == "env"@ || n == "find"@
    ||| n == "files"@ || n == "plan"@ || n == "vim"@ || n == "default"@ || n == "emacs"@
    ||| n == "status"@ || n == "diff"@ || n == "git-log"@ || n == "branch"@
    ||| n == "switch-branch"@ || n == "commit"@ || n == "stash"@ || n == "doctor"@ || n == "mcp"@
    ||| n == "shortcuts"@ || n == "keys"@ || n == "hotkeys"@ || n == "settings"@ || n == "prefs"@
    ||| n == "preferences"@ || n == "template"@ || n == "tpl"@ || n == "search"@
    ||| n == "find-in-transcript"@ || n == "notify"@
}

/// `/template` with argument `arg`, the composer holding `composer`.
pub open spec fn template_effect(a: App, b: App, arg: Seq<char>, composer: Seq<char>, r: SlashOutcome) -> bool {
    let sub = head_word(arg);
    let rest = rest_words(arg);
    if sub.len() == 0 || sub == "list"@ || sub == "pick"@ {
        r == SlashOutcome::Run(SlashCommand::TemplatePicker) && b == a
    } else if sub == "save"@ {
        if rest.len() == 0 {
            r is Done && only_flashed(a, b, "usage: /template save <name>"@, FlashKind::Warn)
        } else if trimmed(composer).len() == 0 {
            r is Done && only_flashed(a, b, "composer is empty — nothing to save"@, FlashKind::Warn)
        } else {
            &&& r matches SlashOutcome::Run(SlashCommand::TemplateSave { name, body }) && name@ == rest
                && body@ == composer
            &&& only_flashed(a, b, "saved template "@ + debug_quoted(rest), FlashKind::Success)
        }
    } else if sub == "use"@ || sub == "load"@ {
        if rest.len() == 0 {
            r is Done && only_flashed(a, b, "usage: /template use <name>"@, FlashKind::Warn)
        } else {
            r matches SlashOutcome::Run(SlashCommand::TemplateLoad(n)) && n@ == rest && b == a
        }
    } else if sub == "delete"@ || sub == "rm"@ {
        if rest.len() == 0 {
            r is Done && only_flashed(a, b, "usage: /template delete <name>"@, FlashKind::Warn)
        } else {
            r matches SlashOutcome::Run(SlashCommand::TemplateDelete(n)) && n@ == rest && b == a
        }
    } else {
        r is Done && only_flashed(a, b, "/template <save|use|list|delete> [name]"@, FlashKind::Warn)
    }
}

/// A command needing no agent, `/name arg`, typed with the composer
/// holding `composer`, with session statistics at hand when `has_stats`:
/// what it asks of the host, and what the state did.
pub open spec fn local_effect(
    a: App,
    b: App,
    name: Seq<char>,
    arg: Seq<char>,
    has_stats: bool,
    composer: Seq<char>,
    r: SlashOutcome,
) -> bool {
    let run_same = |c: SlashCommand| r == SlashOutcome::Run(c) && b == a;
    if name == "help"@ {
        run_same(SlashCommand::Help)
    } else if name == "stats"@ {
        if has_stats {
            run_same(SlashCommand::Stats)
        } else {
            r is Done && only_flashed(
                a,
                b,
                "no stats yet — try again once pi has responded"@,
                FlashKind::Warn,
            )
        }
    } else if name == "export"@ {
        run_same(SlashCommand::Export)
    } else if name == "clear"@ {
        &&& r is Done
        &&& b.transcript@ == Seq::<Entry>::empty() && b.transcript.epoch_spec() == 0
        &&& flashed(b.flash, "transcript view cleared (pi session intact)"@, a.status.ticks, FlashKind::Info)
        &&& keeps_run(a, b) && keeps_tools(a, b) && keeps_turn(a, b) && keeps_queues(a, b)
        &&& b.notify_enabled == a.notify_enabled && b.session == a.session && b.prefs == a.prefs
        &&& b.status == a.status && b.focus_idx == a.focus_idx && b.scroll == a.scroll
    } else if name == "theme"@ {
        r matches SlashOutcome::Run(SlashCommand::Theme(t)) && t@ == arg && b == a
    } else if name == "themes"@ {
        run_same(SlashCommand::Themes)
    } else if name == "version"@ {
        run_same(SlashCommand::Version)
    } else if name == "log"@ {
        run_same(SlashCommand::Log)
    } else if name == "env"@ {
        run_same(SlashCommand::Env)
    } else if name == "find"@ || name == "files"@ {
        r matches SlashOutcome::Run(SlashCommand::FindFiles(q)) && q@ == arg && b == a
    } else if name == "plan"@ {
        r matches SlashOutcome::Run(SlashCommand::Plan(p)) && p@ == arg && b == a
    } else if name == "vim"@ || name == "default"@ || name == "emacs"@ {
        let vim = name == "vim"@;
        &&& r == SlashOutcome::Run(SlashCommand::EditorMode)
        &&& b.prefs.vim_enabled == vim && b.prefs.show_thinking == a.prefs.show_thinking
        &&& b.prefs.show_raw_markers == a.prefs.show_raw_markers
        &&& b.prefs.plan_auto_run == a.prefs.plan_auto_run
        &&& b.transcript == a.transcript && b.session == a.session && b.status == a.status
        &&& keeps_run(a, b) && keeps_tools(a, b) && keeps_turn(a, b) && keeps_queues(a, b)
        &&& b.notify_enabled == a.notify_enabled && b.focus_idx == a.focus_idx && b.scroll == a.scroll
        &&& flashed(
            b.flash,
            if vim {
                "vim mode on — Esc → NORMAL · i/a/o insert · hjkl/wb move"@
            } else {
                "default editor mode · Esc clears composer"@
            },
            a.status.ticks,
            FlashKind::Info,
        )
    } else if name == "status"@ {
        run_same(SlashCommand::GitStatus)
    } else if name == "diff"@ {
        run_same(
            SlashCommand::GitDiff {
                staged: contains_text(arg, "--staged"@) || contains_text(arg, "--cached"@),
            },
        )
    } else if name == "git-log"@ {
        run_same(SlashCommand::GitLog(git_log_count(arg)))
    } else if name == "branch"@ {
        run_same(SlashCommand::GitBranches)
    } else if name == "switch-branch"@ {
        if arg.len() == 0 {
            r is Done && only_flashed(a, b, "usage: /switch-branch <name>"@, FlashKind::Info)
        } else {
            r matches SlashOutcome::Run(SlashCommand::SwitchBranch(s)) && s@ == arg && b == a
        }
    } else if name == "commit"@ {
        if arg.len() == 0 {
            r is Done && only_flashed(a, b, "usage: /commit <message>"@, FlashKind::Info)
        } else {
            r matches SlashOutcome::Run(SlashCommand::Commit(m)) && m@ == arg && b == a
        }
    } else if name == "stash"@ {
        run_same(SlashCommand::Stash)
    } else if name == "doctor"@ {
        run_same(SlashCommand::Doctor)
    } else if name == "mcp"@ {
        run_same(SlashCommand::Mcp)
    } else if name == "shortcuts"@ || name == "keys"@ || name == "hotkeys"@ {
        run_same(SlashCommand::Shortcuts)
    } else if name == "settings"@ || name == "prefs"@ || name == "preferences"@ {
        run_same(SlashCommand::Settings)
    } else if name == "template"@ || name == "tpl"@ {
        template_effect(a, b, arg, composer, r)
    } else if name == "search"@ || name == "find-in-transcript"@ {
        &&& r matches SlashOutcome::Run(SlashCommand::Search(s)) && s.query@ == trimmed(arg)
            && s.hits@ == search_hits(a.transcript@, s.query@) && s.hit_idx == (if s.hits@.len() > 0 {
            s.hits@.len() - 1
        } else {
            0
        }) && s.wf()
        &&& b == a
    } else if name == "notify"@ {
        &&& r == SlashOutcome::Run(SlashCommand::Notify(!a.notify_enabled))
        &&& b.notify_enabled == !a.notify_enabled
        &&& b.transcript == a.transcript && b.status == a.status && b.session == a.session
        &&& b.prefs == a.prefs && keeps_run(a, b) && keeps_tools(a, b) && keeps_turn(a, b)
        &&& keeps_queues(a, b) && b.focus_idx == a.focus_idx && b.scroll == a.scroll
        &&& b.flash == a.flash
    } else {
        r is Unknown && b == a
    }
}

} // verus!

verus! {

impl App {
    /// `/template` with its argument, the composer holding `composer`.
    fn template_slash(&mut self, arg: &str, composer: &str) -> (r: SlashOutcome)
        ensures
            template_effect(*old(self), *final(self), arg@, composer@, r),
    {
        let (sub, rest) = split_word(arg);
        let sub = sub.as_str();
        if sub.unicode_len() == 0 || str_eq(sub, "list") || str_eq(sub, "pick") {
            SlashOutcome::Run(SlashCommand::TemplatePicker)
        } else if str_eq(sub, "save") {
            if rest.unicode_len() == 0 {
                self.flash_warn(String::from_str("usage: /template save <name>"));
                SlashOutcome::Done
            } else if trim(composer).unicode_len() == 0 {
                self.flash_warn(String::from_str("composer is empty — nothing to save"));
                SlashOutcome::Done
            } else {
                let quoted = debug_quote(rest.as_str());
                self.flash_success(concat2("saved template ", quoted.as_str()));
                SlashOutcome::Run(SlashCommand::TemplateSave { name: rest, body: String::from_str(composer) })
            }
        } else if str_eq(sub, "use") || str_eq(sub, "load") {
            if rest.unicode_len() == 0 {
                self.flash_warn(String::from_str("usage: /template use <name>"));
                SlashOutcome::Done
            } else {
                SlashOutcome::Run(SlashCommand::TemplateLoad(rest))
            }
        } else if str_eq(sub, "delete") || str_eq(sub, "rm") {
            if rest.unicode_len() == 0 {
                self.flash_warn(String::from_str("usage: /template delete <name>"));
                SlashOutcome::Done
            } else {
                SlashOutcome::Run(SlashCommand::TemplateDelete(rest))
            }
        } else {
            self.flash_warn(String::from_str("/template <save|use|list|delete> [name]"));
            SlashOutcome::Done
        }
    }

    /// A slash command that needs no agent, `/name arg`, typed with the
    /// composer holding `composer`; `has_stats` tells whether session
    /// statistics have arrived. The state does its part (flashes, the
    /// editor keys, clearing the view, the notification switch) and hands
    /// the rest to the host; an unknown name changes nothing.
    pub fn local_slash(&mut self, name: &str, arg: &str, has_stats: bool, composer: &str) -> (r:
        SlashOutcome)
        ensures
            local_effect(*old(self), *final(self), name@, arg@, has_stats, composer@, r),
    {
        if str_eq(name, "help") {
            SlashOutcome::Run(SlashCommand::Help)
        } else if str_eq(name, "stats") {
            if has_stats {
                SlashOutcome::Run(SlashCommand::Stats)
            } else {
                self.flash_warn(String::from_str("no stats yet — try again once pi has responded"));
                SlashOutcome::Done
            }
        } else if str_eq(name, "export") {
            SlashOutcome::Run(SlashCommand::Export)
        } else if str_eq(name, "clear") {
            self.transcript = Transcript::default();
            self.flash(String::from_str("transcript view cleared (pi session intact)"));
            SlashOutcome::Done
        } else if str_eq(name, "theme") {
            SlashOutcome::Run(SlashCommand::Theme(String::from_str(arg)))
        } else if str_eq(name, "themes") {
            SlashOutcome::Run(SlashCommand::Themes)
        } else if str_eq(name, "version") {
            SlashOutcome::Run(SlashCommand::Version)
        } else if str_eq(name, "log") {
            SlashOutcome::Run(SlashCommand::Log)
        } else if str_eq(name, "env") {
            SlashOutcome::Run(SlashCommand::Env)
        } else if str_eq(name, "find") || str_eq(name, "files") {
            SlashOutcome::Run(SlashCommand::FindFiles(String::from_str(arg)))
        } else if str_eq(name, "plan") {
            SlashOutcome::Run(SlashCommand::Plan(String::from_str(arg)))
        } else if str_eq(name, "vim") {
            self.prefs.vim_enabled = true;
            self.flash(String::from_str("vim mode on — Esc → NORMAL · i/a/o insert · hjkl/wb move"));
            SlashOutcome::Run(SlashCommand::EditorMode)
        } else if str_eq(name, "default") || str_eq(name, "emacs") {
            self.prefs.vim_enabled = false;
            self.flash(String::from_str("default editor mode · Esc clears composer"));
            SlashOutcome::Run(SlashCommand::EditorMode)
        } else if str_eq(name, "status") {
            SlashOutcome::Run(SlashCommand::GitStatus)
        } else if str_eq(name, "diff") {
            let staged = find(arg, "--staged").is_some() || find(arg, "--cached").is_some();
            SlashOutcome::Run(SlashCommand::GitDiff { staged })
        } else if str_eq(name, "git-log") {
            let n: u32 = if arg.unicode_len() == 0 {
                30
            } else {
                match parse_u32(arg) {
                    Some(v) => v,
                    None => 30,
                }
            };
            SlashOutcome::Run(SlashCommand::GitLog(n))
        } else if str_eq(name, "branch") {
            SlashOutcome::Run(SlashCommand::GitBranches)
        } else if str_eq(name, "switch-branch") {
            if arg.unicode_len() == 0 {
                self.flash(String::from_str("usage: /switch-branch <name>"));
                SlashOutcome::Done
            } else {
                SlashOutcome::Run(SlashCommand::SwitchBranch(String::from_str(arg)))
            }
        } else if str_eq(name, "commit") {
            if arg.unicode_len() == 0 {
                self.flash(String::from_str("usage: /commit <message>"));
                SlashOutcome::Done
            } else {
                SlashOutcome::Run(SlashCommand::Commit(String::from_str(arg)))
            }
        } else if str_eq(name, "stash") {
            SlashOutcome::Run(SlashCommand::Stash)
        } else if str_eq(name, "doctor") {
            SlashOutcome::Run(SlashCommand::Doctor)
        } else if str_eq(name, "mcp") {
            SlashOutcome::Run(SlashCommand::Mcp)
        } else if str_eq(name, "shortcuts") || str_eq(name, "keys") || str_eq(name, "hotkeys") {
            SlashOutcome::Run(SlashCommand::Shortcuts)
        } else if str_eq(name, "settings") || str_eq(name, "prefs") || str_eq(name, "preferences") {
            SlashOutcome::Run(SlashCommand::Settings)
        } else if str_eq(name, "template") || str_eq(name, "tpl") {
            self.template_slash(arg, composer)
        } else if str_eq(name, "search") || str_eq(name, "find-in-transcript") {
            SlashOutcome::Run(SlashCommand::Search(open_search(&self.transcript, arg)))
        } else if str_eq(name, "notify") {
            self.notify_enabled = !self.notify_enabled;
            SlashOutcome::Run(SlashCommand::Notify(self.notify_enabled))
        } else {
            SlashOutcome::Unknown
        }
    }
}

} // verus!

verus! {

/// The commands that need the agent.
pub open spec fn pi_name(n: Seq<char>) -> bool {
    ||| n == "rename"@ || n == "new"@ || n == "export-html"@ || n == "switch"@ || n == "fork"@
    ||| n == "compact"@ || n == "model"@ || n == "think"@ || n == "cycle-model"@
    ||| n == "cycle-think"@ || n == "auto-compact"@ || n == "auto-retry"@ || n == "copy"@
    ||| n == "retry"@ || n == "abort"@ || n == "abort-bash"@ || n == "abort-retry"@
    ||| n == "steer-mode"@ || n == "follow-up-mode"@
}

/// The queue mode an argument names.
pub open spec fn queue_mode_arg(arg: Seq<char>) -> Option<QueueMode> {
    if arg == "all"@ {
        Some(QueueMode::All)
    } else if arg == "one-at-a-time"@ {
        Some(QueueMode::OneAtATime)
    } else {
        None
    }
}

/// A command needing the agent, `/name arg`: what it asks of the host,
/// and what the state did.
pub open spec fn pi_effect(a: App, b: App, name: Seq<char>, arg: Seq<char>, r: SlashOutcome) -> bool {
    let run_same = |c: SlashCommand| r == SlashOutcome::Run(c) && b == a;
    let run_flashed = |c: SlashCommand, text: Seq<char>|
        r == SlashOutcome::Run(c) && only_flashed(a, b, text, FlashKind::Info);
    if name == "rename"@ {
        if arg.len() == 0 {
            r is Done && only_flashed(a, b, "usage: /rename <name>"@, FlashKind::Info)
        } else {
            r matches SlashOutcome::Run(SlashCommand::Rename(n)) && n@ == arg && b == a
        }
    } else if name == "new"@ {
        run_same(SlashCommand::NewSession)
    } else if name == "export-html"@ {
        run_same(SlashCommand::ExportHtml)
    } else if name == "switch"@ {
        if arg.len() == 0 {
            r is Done && only_flashed(a, b, "usage: /switch <session-file>"@, FlashKind::Info)
        } else {
            r matches SlashOutcome::Run(SlashCommand::SwitchSession(p)) && p@ == arg && b == a
        }
    } else if name == "fork"@ {
        run_same(SlashCommand::Fork)
    } else if name == "compact"@ {
        &&& r matches SlashOutcome::Run(SlashCommand::Compact(i)) && (if arg.len() == 0 {
            i is None
        } else {
            i matches Some(t) && t@ == arg
        })
        &&& only_flashed(a, b, "compacting…"@, FlashKind::Info)
    } else if name == "model"@ {
        run_same(SlashCommand::Models)
    } else if name == "think"@ {
        run_same(SlashCommand::Thinking(thinking_index(a.session.thinking)))
    } else if name == "cycle-model"@ {
        run_same(SlashCommand::CycleModel)
    } else if name == "cycle-think"@ {
        run_same(SlashCommand::CycleThinking)
    } else if name == "auto-compact"@ {
        &&& r == SlashOutcome::Run(SlashCommand::SetAutoCompaction(b.session.auto_compaction->0))
        &&& switch_flipped(a, b, true)
    } else if name == "auto-retry"@ {
        &&& r == SlashOutcome::Run(SlashCommand::SetAutoRetry(b.session.auto_retry->0))
        &&& switch_flipped(a, b, false)
    } else if name == "copy"@ {
        run_same(SlashCommand::CopyLast)
    } else if name == "retry"@ {
        match last_user(a.transcript@) {
            Some(t) => run_same(SlashCommand::Retry { text: t, steer: a.is_streaming }),
            None => r is Done && only_flashed(a, b, "no previous user prompt"@, FlashKind::Info),
        }
    } else if name == "abort"@ {
        run_flashed(SlashCommand::Abort, "aborted"@)
    } else if name == "abort-bash"@ {
        run_flashed(SlashCommand::AbortBash, "bash aborted"@)
    } else if name == "abort-retry"@ {
        run_flashed(SlashCommand::AbortRetry, "retry aborted"@)
    } else if name == "steer-mode"@ {
        match queue_mode_arg(arg) {
            Some(m) => run_same(SlashCommand::SteeringMode(m)),
            None => r is Done && only_flashed(
                a,
                b,
                "usage: /steer-mode <all | one-at-a-time>"@,
                FlashKind::Info,
            ),
        }
    } else if name == "follow-up-mode"@ {
        match queue_mode_arg(arg) {
            Some(m) => run_same(SlashCommand::FollowUpMode(m)),
            None => r is Done && only_flashed(
                a,
                b,
                "usage: /follow-up-mode <all | one-at-a-time>"@,
                FlashKind::Info,
            ),
        }
    } else {
        r is Unknown && b == a
    }
}

/// The queue mode named by `arg`, if any.
fn queue_mode_of(arg: &str) -> (m: Option<QueueMode>)
    ensures
        m == queue_mode_arg(arg@),
{
    if str_eq(arg, "all") {
        Some(QueueMode::All)
    } else if str_eq(arg, "one-at-a-time") {
        Some(QueueMode::OneAtATime)
    } else {
        None
    }
}

impl App {
    /// A slash command that needs the agent, `/name arg`. The state does
    /// its part (usage hints, the auto-compaction and auto-retry
    /// switches, the flashes that do not wait for a reply) and hands the
    /// call to the host; an unknown name changes nothing.
    pub fn pi_slash(&mut self, name: &str, arg: &str) -> (r: SlashOutcome)
        ensures
            pi_effect(*old(self), *final(self), name@, arg@, r),
    {
        if str_eq(name, "rename") {
            if arg.unicode_len() == 0 {
                self.flash(String::from_str("usage: /rename <name>"));
                SlashOutcome::Done
            } else {
                SlashOutcome::Run(SlashCommand::Rename(String::from_str(arg)))
            }
        } else if str_eq(name, "new") {
            SlashOutcome::Run(SlashCommand::NewSession)
        } else if str_eq(name, "export-html") {
            SlashOutcome::Run(SlashCommand::ExportHtml)
        } else if str_eq(name, "switch") {
            if arg.unicode_len() == 0 {
                self.flash(String::from_str("usage: /switch <session-file>"));
                SlashOutcome::Done
            } else {
                SlashOutcome::Run(SlashCommand::SwitchSession(String::from_str(arg)))
            }
        } else if str_eq(name, "fork") {
            SlashOutcome::Run(SlashCommand::Fork)
        } else if str_eq(name, "compact") {
            let instructions = if arg.unicode_len() == 0 {
                None
            } else {
                Some(String::from_str(arg))
            };
            self.flash(String::from_str("compacting…"));
            SlashOutcome::Run(SlashCommand::Compact(instructions))
        } else if str_eq(name, "model") {
            SlashOutcome::Run(SlashCommand::Models)
        } else if str_eq(name, "think") {
            SlashOutcome::Run(SlashCommand::Thinking(thinking_pick_index(&self.session.thinking)))
        } else if str_eq(name, "cycle-model") {
            SlashOutcome::Run(SlashCommand::CycleModel)
        } else if str_eq(name, "cycle-think") {
            SlashOutcome::Run(SlashCommand::CycleThinking)
        } else if str_eq(name, "auto-compact") {
            let next = !match self.session.auto_compaction {
                Some(x) => x,
                None => true,
            };
            self.session.auto_compaction = Some(next);
            self.flash(concat2("auto-compact ", on_off(next)));
            SlashOutcome::Run(SlashCommand::SetAutoCompaction(next))
        } else if str_eq(name, "auto-retry") {
            let next = !match self.session.auto_retry {
                Some(x) => x,
                None => true,
            };
            self.session.auto_retry = Some(next);
            self.flash(concat2("auto-retry ", on_off(next)));
            SlashOutcome::Run(SlashCommand::SetAutoRetry(next))
        } else if str_eq(name, "copy") {
            SlashOutcome::Run(SlashCommand::CopyLast)
        } else if str_eq(name, "retry") {
            match last_user_text(&self.transcript) {
                Some(text) => SlashOutcome::Run(SlashCommand::Retry { text, steer: self.is_streaming }),
                None => {
                    self.flash(String::from_str("no previous user prompt"));
                    SlashOutcome::Done
                },
            }
        } else if str_eq(name, "abort") {
            self.flash(String::from_str("aborted"));
            SlashOutcome::Run(SlashCommand::Abort)
        } else if str_eq(name, "abort-bash") {
            self.flash(String::from_str("bash aborted"));
            SlashOutcome::Run(SlashCommand::AbortBash)
        } else if str_eq(name, "abort-retry") {
            self.flash(String::from_str("retry aborted"));
            SlashOutcome::Run(SlashCommand::AbortRetry)
        } else if str_eq(name, "steer-mode") {
            match queue_mode_of(arg) {
                Some(m) => SlashOutcome::Run(SlashCommand::SteeringMode(m)),
                None => {
                    self.flash(String::from_str("usage: /steer-mode <all | one-at-a-time>"));
                    SlashOutcome::Done
                },
            }
        } else if str_eq(name, "follow-up-mode") {
            match queue_mode_of(arg) {
                Some(m) => SlashOutcome::Run(SlashCommand::FollowUpMode(m)),
                None => {
                    self.flash(String::from_str("usage: /follow-up-mode <all | one-at-a-time>"));
                    SlashOutcome::Done
                },
            }
        } else {
            SlashOutcome::Unknown
        }
    }
}

} // verus!

verus! {

/// What came back from the host's work on a slash command.
pub enum SlashReply {
    /// The work failed with this message.
    Failed(String),
    /// It succeeded with nothing to report.
    Done,
    /// It succeeded and gave back this text: a path, the output of git, a
    /// template's body, the agent's last answer.
    Text(String),
    /// It found nothing: no template of that name or none at all, no fork
    /// candidate, no path or model in the agent's reply.
    Missing,
    /// The agent moved to the model of this provider and id.
    Model(String, String),
}

/// What is left for the host once the state has taken in a reply.
pub enum SlashFollowUp {
    Nothing,
    /// Show what came back in its dialog.
    Show,
    /// Load the session's state anew.
    Bootstrap,
    /// Put this text in the composer.
    SetComposer(String),
    /// Copy this text to the clipboard.
    Copy(String),
}

/// The argument that names queue mode `m`.
pub open spec fn queue_mode_word(m: QueueMode) -> Seq<char> {
    match m {
        QueueMode::All => "all"@,
        QueueMode::OneAtATime => "one-at-a-time"@,
    }
}

/// The session became `s` and the flash reads `text`; nothing else changed.
pub open spec fn session_flashed(a: App, b: App, s: Session, text: Seq<char>, kind: FlashKind) -> bool {
    &&& b.session == s && flashed(b.flash, text, a.status.ticks, kind)
    &&& b.transcript == a.transcript && b.status == a.status && b.prefs == a.prefs
    &&& keeps_run(a, b) && keeps_tools(a, b) && keeps_turn(a, b) && keeps_queues(a, b)
    &&& b.notify_enabled == a.notify_enabled && b.focus_idx == a.focus_idx && b.scroll == a.scroll
}

/// `s` with this session name.
pub open spec fn session_named(s: Session, name: Option<String>) -> Session {
    Session {
        model_label: s.model_label,
        thinking: s.thinking,
        steering_mode: s.steering_mode,
        follow_up_mode: s.follow_up_mode,
        auto_compaction: s.auto_compaction,
        auto_retry: s.auto_retry,
        session_name: name,
    }
}

/// `s` with this model label.
pub open spec fn session_labelled(s: Session, label: String) -> Session {
    Session {
        model_label: label,
        thinking: s.thinking,
        steering_mode: s.steering_mode,
        follow_up_mode: s.follow_up_mode,
        auto_compaction: s.auto_compaction,
        auto_retry: s.auto_retry,
        session_name: s.session_name,
    }
}

/// The transcript was emptied for a new session, with a success flash;
/// nothing else changed.
pub open spec fn started_afresh(a: App, b: App) -> bool {
    &&& b.transcript@ == Seq::<Entry>::empty() && b.transcript.epoch_spec() == 0
    &&& flashed(b.flash, "new session started"@, a.status.ticks, FlashKind::Success)
    &&& keeps_run(a, b) && keeps_tools(a, b) && keeps_turn(a, b) && keeps_queues(a, b)
    &&& b.notify_enabled == a.notify_enabled && b.session == a.session && b.prefs == a.prefs
    &&& b.status == a.status && b.focus_idx == a.focus_idx && b.scroll == a.scroll
}

/// `s` with this thinking level.
pub open spec fn session_thinking(s: Session, level: Option<String>) -> Session {
    Session {
        model_label: s.model_label,
        thinking: level,
        steering_mode: s.steering_mode,
        follow_up_mode: s.follow_up_mode,
        auto_compaction: s.auto_compaction,
        auto_retry: s.auto_retry,
        session_name: s.session_name,
    }
}

/// The thinking level became `l`, and the flash says so.
pub open spec fn thinking_set(a: App, b: App, l: ThinkingLevel) -> bool {
    &&& b.session.thinking matches Some(t) && t@ == l.name_spec()
    &&& session_flashed(
        a,
        b,
        session_thinking(a.session, b.session.thinking),
        "thinking → "@ + l.label_spec(),
        FlashKind::Info,
    )
}

/// The model became `provider/id`, and the flash says so.
pub open spec fn model_set(a: App, b: App, provider: Seq<char>, id: Seq<char>) -> bool {
    &&& b.session.model_label@ == provider + "/"@ + id
    &&& session_flashed(
        a,
        b,
        session_labelled(a.session, b.session.model_label),
        "model → "@ + provider + "/"@ + id,
        FlashKind::Info,
    )
}

/// The first line of git's output, or `d` when it printed nothing.
pub open spec fn head_or(out: Seq<char>, d: Seq<char>) -> Seq<char> {
    if out.len() == 0 {
        d
    } else {
        first_line(out)
    }
}

/// A failed reply flashes `prefix` and the message, of kind `kind`; any
/// other reply satisfies `rest`.
pub open spec fn failed_or(
    a: App,
    b: App,
    reply: SlashReply,
    f: SlashFollowUp,
    prefix: Seq<char>,
    kind: FlashKind,
    rest: bool,
) -> bool {
    match reply {
        SlashReply::Failed(e) => f is Nothing && only_flashed(a, b, prefix + e@, kind),
        _ => rest,
    }
}

/// What the state makes of reply `reply` to command `cmd`, and what it
/// leaves for the host.
pub open spec fn replied(a: App, b: App, cmd: SlashCommand, reply: SlashReply, f: SlashFollowUp) -> bool {
    let show = f is Show && b == a;
    let quiet = f is Nothing && b == a;
    match cmd {
        SlashCommand::Export => failed_or(
            a,
            b,
            reply,
            f,
            "export failed: "@,
            FlashKind::Error,
            match reply {
                SlashReply::Text(p) => f is Nothing && only_flashed(
                    a,
                    b,
                    "exported → "@ + p@,
                    FlashKind::Success,
                ),
                _ => quiet,
            },
        ),
        SlashCommand::GitStatus => show,
        SlashCommand::GitDiff { .. } => failed_or(a, b, reply, f, "git diff failed: "@, FlashKind::Error, show),
        SlashCommand::GitLog(_) => failed_or(a, b, reply, f, "git log failed: "@, FlashKind::Error, show),
        SlashCommand::GitBranches => failed_or(a, b, reply, f, "git branch failed: "@, FlashKind::Error, show),
        SlashCommand::SwitchBranch(name) => failed_or(
            a,
            b,
            reply,
            f,
            "switch failed: "@,
            FlashKind::Error,
            f is Nothing && only_flashed(a, b, "switched to "@ + name@, FlashKind::Success),
        ),
        SlashCommand::Commit(_) => failed_or(
            a,
            b,
            reply,
            f,
            "commit failed: "@,
            FlashKind::Error,
            f is Nothing && only_flashed(
                a,
                b,
                "commit: "@ + head_or(
                    match reply {
                        SlashReply::Text(o) => o@,
                        _ => Seq::empty(),
                    },
                    "committed"@,
                ),
                FlashKind::Success,
            ),
        ),
        SlashCommand::Stash => failed_or(
            a,
            b,
            reply,
            f,
            "stash failed: "@,
            FlashKind::Error,
            f is Nothing && only_flashed(
                a,
                b,
                head_or(
                    match reply {
                        SlashReply::Text(o) => o@,
                        _ => Seq::empty(),
                    },
                    "stashed"@,
                ),
                FlashKind::Info,
            ),
        ),
        SlashCommand::TemplatePicker => match reply {
            SlashReply::Missing => f is Nothing && only_flashed(
                a,
                b,
                "no templates saved yet — /template save <name> first"@,
                FlashKind::Info,
            ),
            _ => show,
        },
        SlashCommand::TemplateLoad(name) => match reply {
            SlashReply::Text(body) => f == SlashFollowUp::SetComposer(body) && only_flashed(
                a,
                b,
                "loaded template "@ + debug_quoted(name@),
                FlashKind::Success,
            ),
            _ => f is Nothing && only_flashed(a, b, "no template "@ + debug_quoted(name@), FlashKind::Error),
        },
        SlashCommand::TemplateDelete(name) => match reply {
            SlashReply::Done | SlashReply::Text(_) => f is Nothing && only_flashed(
                a,
                b,
                "deleted template "@ + debug_quoted(name@),
                FlashKind::Success,
            ),
            _ => f is Nothing && only_flashed(a, b, "no template "@ + debug_quoted(name@), FlashKind::Error),
        },
        SlashCommand::Rename(name) => failed_or(
            a,
            b,
            reply,
            f,
            "rename failed: "@,
            FlashKind::Error,
            f is Nothing && session_flashed(
                a,
                b,
                session_named(a.session, Some(name)),
                "session renamed → "@ + name@,
                FlashKind::Success,
            ),
        ),
        SlashCommand::NewSession => failed_or(
            a,
            b,
            reply,
            f,
            "new session failed: "@,
            FlashKind::Error,
            f is Nothing && started_afresh(a, b),
        ),
        SlashCommand::ExportHtml => failed_or(
            a,
            b,
            reply,
            f,
            "export-html failed: "@,
            FlashKind::Info,
            f is Nothing && only_flashed(
                a,
                b,
                "html → "@ + match reply {
                    SlashReply::Text(p) => p@,
                    _ => "(no path)"@,
                },
                FlashKind::Success,
            ),
        ),
        SlashCommand::SwitchSession(p) => failed_or(
            a,
            b,
            reply,
            f,
            "switch failed: "@,
            FlashKind::Error,
            f is Bootstrap && only_flashed(a, b, "switched → "@ + p@, FlashKind::Info),
        ),
        SlashCommand::Fork => failed_or(
            a,
            b,
            reply,
            f,
            "get_fork_messages failed: "@,
            FlashKind::Info,
            match reply {
                SlashReply::Missing => f is Nothing && only_flashed(a, b, "no fork candidates"@, FlashKind::Info),
                _ => show,
            },
        ),
        SlashCommand::CycleModel => failed_or(
            a,
            b,
            reply,
            f,
            "cycle_model failed: "@,
            FlashKind::Info,
            f is Nothing && match reply {
                SlashReply::Model(p, i) => model_set(a, b, p@, i@),
                _ => only_flashed(a, b, "cycled model"@, FlashKind::Info),
            },
        ),
        SlashCommand::CycleThinking => failed_or(
            a,
            b,
            reply,
            f,
            "cycle_thinking_level failed: "@,
            FlashKind::Info,
            f is Nothing && only_flashed(a, b, "cycled thinking level"@, FlashKind::Info),
        ),
        SlashCommand::CopyLast => failed_or(
            a,
            b,
            reply,
            f,
            "copy failed: "@,
            FlashKind::Error,
            match reply {
                SlashReply::Text(t) => if t@.len() > 0 {
                    f == SlashFollowUp::Copy(t) && b == a
                } else {
                    f is Nothing && only_flashed(a, b, "no assistant message yet"@, FlashKind::Info)
                },
                _ => f is Nothing && only_flashed(a, b, "no assistant message yet"@, FlashKind::Info),
            },
        ),
        SlashCommand::Retry { .. } => failed_or(
            a,
            b,
            reply,
            f,
            "retry failed: "@,
            FlashKind::Info,
            f is Nothing && only_flashed(a, b, "retried last prompt"@, FlashKind::Info),
        ),
        SlashCommand::SteeringMode(m) => failed_or(
            a,
            b,
            reply,
            f,
            "steer-mode failed: "@,
            FlashKind::Info,
            f is Nothing && session_flashed(
                a,
                b,
                session_with(
                    a.session,
                    Some(m),
                    a.session.follow_up_mode,
                    a.session.auto_compaction,
                    a.session.auto_retry,
                ),
                "steer-mode → "@ + queue_mode_word(m),
                FlashKind::Info,
            ),
        ),
        SlashCommand::FollowUpMode(m) => failed_or(
            a,
            b,
            reply,
            f,
            "follow-up-mode failed: "@,
            FlashKind::Info,
            f is Nothing && session_flashed(
                a,
                b,
                session_with(
                    a.session,
                    a.session.steering_mode,
                    Some(m),
                    a.session.auto_compaction,
                    a.session.auto_retry,
                ),
                "follow-up-mode → "@ + queue_mode_word(m),
                FlashKind::Info,
            ),
        ),
        SlashCommand::SetThinking(l) => failed_or(
            a,
            b,
            reply,
            f,
            "set_thinking_level failed: "@,
            FlashKind::Error,
            f is Nothing && thinking_set(a, b, l),
        ),
        SlashCommand::SetModel { provider, id } => failed_or(
            a,
            b,
            reply,
            f,
            "set_model failed: "@,
            FlashKind::Error,
            f is Nothing && model_set(a, b, provider@, id@),
        ),
        SlashCommand::ForkAt { text, .. } => failed_or(
            a,
            b,
            reply,
            f,
            "fork failed: "@,
            FlashKind::Error,
            f is Bootstrap && only_flashed(
                a,
                b,
                "forked at "@ + truncated(text@, 40),
                FlashKind::Success,
            ),
        ),
        _ => quiet,
    }
}

} // verus!

verus! {

/// The first line of `out`, or `d` when `out` is empty.
fn head_line_or(out: &str, d: &str) -> (r: String)
    ensures
        r@ == head_or(out@, d@),
{
    if out.unicode_len() == 0 {
        String::from_str(d)
    } else {
        String::from_str(first_line_of(out))
    }
}

impl App {
    /// Take in what the host's work on `cmd` gave back: flash the result
    /// or the failure, record a rename, a new session, a model or a queue
    /// mode, and say what is left to do (show a dialog, reload the
    /// session, fill the composer, copy).
    pub fn slash_reply(&mut self, cmd: &SlashCommand, reply: SlashReply) -> (f: SlashFollowUp)
        ensures
            replied(*old(self), *final(self), *cmd, reply, f),
    {
        if let SlashReply::Failed(e) = &reply {
            let prefix = match cmd {
                SlashCommand::Export => Some(("export failed: ", true)),
                SlashCommand::GitDiff { .. } => Some(("git diff failed: ", true)),
                SlashCommand::GitLog(_) => Some(("git log failed: ", true)),
                SlashCommand::GitBranches => Some(("git branch failed: ", true)),
                SlashCommand::SwitchBranch(_) => Some(("switch failed: ", true)),
                SlashCommand::Commit(_) => Some(("commit failed: ", true)),
                SlashCommand::Stash => Some(("stash failed: ", true)),
                SlashCommand::Rename(_) => Some(("rename failed: ", true)),
                SlashCommand::NewSession => Some(("new session failed: ", true)),
                SlashCommand::ExportHtml => Some(("export-html failed: ", false)),
                SlashCommand::SwitchSession(_) => Some(("switch failed: ", true)),
                SlashCommand::Fork => Some(("get_fork_messages failed: ", false)),
                SlashCommand::CycleModel => Some(("cycle_model failed: ", false)),
                SlashCommand::CycleThinking => Some(("cycle_thinking_level failed: ", false)),
                SlashCommand::CopyLast => Some(("copy failed: ", true)),
                SlashCommand::Retry { .. } => Some(("retry failed: ", false)),
                SlashCommand::SteeringMode(_) => Some(("steer-mode failed: ", false)),
                SlashCommand::FollowUpMode(_) => Some(("follow-up-mode failed: ", false)),
                SlashCommand::SetThinking(_) => Some(("set_thinking_level failed: ", true)),
                SlashCommand::SetModel { .. } => Some(("set_model failed: ", true)),
                SlashCommand::ForkAt { .. } => Some(("fork failed: ", true)),
                _ => None,
            };
            match prefix {
                Some((p, error)) => {
                    let text = concat2(p, e.as_str());
                    if error {
                        self.flash_error(text);
                    } else {
                        self.flash(text);
                    }
                    return SlashFollowUp::Nothing;
                },
                None => {},
            }
        }
        match cmd {
            SlashCommand::Export => {
                if let SlashReply::Text(p) = &reply {
                    self.flash_success(concat2("exported → ", p.as_str()));
                }
                SlashFollowUp::Nothing
            },
            SlashCommand::GitStatus | SlashCommand::GitDiff { .. } | SlashCommand::GitLog(_)
            | SlashCommand::GitBranches => SlashFollowUp::Show,
            SlashCommand::SwitchBranch(name) => {
                self.flash_success(concat2("switched to ", name.as_str()));
                SlashFollowUp::Nothing
            },
            SlashCommand::Commit(_) => {
                let out = match &reply {
                    SlashReply::Text(o) => o.as_str(),
                    _ => "",
                };
                proof {
                    reveal_strlit("");
                }
                let head = head_line_or(out, "committed");
                self.flash_success(concat2("commit: ", head.as_str()));
                SlashFollowUp::Nothing
            },
            SlashCommand::Stash => {
                let out = match &reply {
                    SlashReply::Text(o) => o.as_str(),
                    _ => "",
                };
                proof {
                    reveal_strlit("");
                }
                self.flash(head_line_or(out, "stashed"));
                SlashFollowUp::Nothing
            },
            SlashCommand::TemplatePicker => match reply {
                SlashReply::Missing => {
                    self.flash_info(
                        String::from_str("no templates saved yet — /template save <name> first"),
                    );
                    SlashFollowUp::Nothing
                },
                _ => SlashFollowUp::Show,
            },
            SlashCommand::TemplateLoad(name) => {
                let quoted = debug_quote(name.as_str());
                match reply {
                    SlashReply::Text(body) => {
                        self.flash_success(concat2("loaded template ", quoted.as_str()));
                        SlashFollowUp::SetComposer(body)
                    },
                    _ => {
                        self.flash_error(concat2("no template ", quoted.as_str()));
                        SlashFollowUp::Nothing
                    },
                }
            },
            SlashCommand::TemplateDelete(name) => {
                let quoted = debug_quote(name.as_str());
                match reply {
                    SlashReply::Done | SlashReply::Text(_) => {
                        self.flash_success(concat2("deleted template ", quoted.as_str()));
                    },
                    _ => {
                        self.flash_error(concat2("no template ", quoted.as_str()));
                    },
                }
                SlashFollowUp::Nothing
            },
            SlashCommand::Rename(name) => {
                self.session.session_name = Some(name.clone());
                self.flash_success(concat2("session renamed → ", name.as_str()));
                SlashFollowUp::Nothing
            },
            SlashCommand::NewSession => {
                self.transcript = Transcript::default();
                self.flash_success(String::from_str("new session started"));
                SlashFollowUp::Nothing
            },
            SlashCommand::ExportHtml => {
                let path = match &reply {
                    SlashReply::Text(p) => p.as_str(),
                    _ => "(no path)",
                };
                self.flash_success(concat2("html → ", path));
                SlashFollowUp::Nothing
            },
            SlashCommand::SwitchSession(p) => {
                self.flash(concat2("switched → ", p.as_str()));
                SlashFollowUp::Bootstrap
            },
            SlashCommand::Fork => match reply {
                SlashReply::Missing => {
                    self.flash(String::from_str("no fork candidates"));
                    SlashFollowUp::Nothing
                },
                _ => SlashFollowUp::Show,
            },
            SlashCommand::CycleModel => {
                match &reply {
                    SlashReply::Model(p, i) => {
                        let label = concat3(p.as_str(), "/", i.as_str());
                        let text = concat2("model → ", label.as_str());
                        assert(text@ =~= "model → "@ + p@ + "/"@ + i@);
                        self.session.model_label = label;
                        self.flash(text);
                    },
                    _ => {
                        self.flash(String::from_str("cycled model"));
                    },
                }
                SlashFollowUp::Nothing
            },
            SlashCommand::CycleThinking => {
                self.flash(String::from_str("cycled thinking level"));
                SlashFollowUp::Nothing
            },
            SlashCommand::CopyLast => match reply {
                SlashReply::Text(t) => {
                    if t.unicode_len() > 0 {
                        SlashFollowUp::Copy(t)
                    } else {
                        self.flash(String::from_str("no assistant message yet"));
                        SlashFollowUp::Nothing
                    }
                },
                _ => {
                    self.flash(String::from_str("no assistant message yet"));
                    SlashFollowUp::Nothing
                },
            },
            SlashCommand::Retry { .. } => {
                self.flash(String::from_str("retried last prompt"));
                SlashFollowUp::Nothing
            },
            SlashCommand::SteeringMode(m) => {
                self.session.steering_mode = Some(*m);
                let word = match m {
                    QueueMode::All => "all",
                    QueueMode::OneAtATime => "one-at-a-time",
                };
                self.flash(concat2("steer-mode → ", word));
                SlashFollowUp::Nothing
            },
            SlashCommand::FollowUpMode(m) => {
                self.session.follow_up_mode = Some(*m);
                let word = match m {
                    QueueMode::All => "all",
                    QueueMode::OneAtATime => "one-at-a-time",
                };
                self.flash(concat2("follow-up-mode → ", word));
                SlashFollowUp::Nothing
            },
            SlashCommand::SetThinking(l) => {
                self.session.thinking = Some(String::from_str(l.name()));
                self.flash(concat2("thinking → ", l.label()));
                SlashFollowUp::Nothing
            },
            SlashCommand::SetModel { provider, id } => {
                let label = concat3(provider.as_str(), "/", id.as_str());
                let text = concat2("model → ", label.as_str());
                assert(text@ =~= "model → "@ + provider@ + "/"@ + id@);
                self.session.model_label = label;
                self.flash(text);
                SlashFollowUp::Nothing
            },
            SlashCommand::ForkAt { text, .. } => {
                let preview = truncate_preview(text.as_str(), 40);
                self.flash_success(concat2("forked at ", preview.as_str()));
                SlashFollowUp::Bootstrap
            },
            _ => SlashFollowUp::Nothing,
        }
    }
}

} // verus!

verus! {

/// How a message goes to the agent.
#[derive(Clone, Copy, Debug, PartialEq, Eq, Structural)]
pub enum SendKind {
    /// A new prompt.
    Prompt,
    /// Steer the running agent.
    Steer,
    /// Queue after the current run.
    FollowUp,
}

/// What the host does with a submitted line.
pub enum SubmitAction {
    Nothing,
    /// Carry out this slash command.
    Slash(SlashCommand),
    /// Run this shell command through the agent.
    Bash(String),
    /// Send this message to the agent.
    Send { text: String, how: SendKind },
}

/// A message typed in composer mode `m` goes out as a prompt when the
/// agent is idle; while it runs, as a steer (the prompt mode steers too)
/// or a follow-up.
pub open spec fn send_kind(streaming: bool, m: ComposerMode) -> SendKind {
    if !streaming {
        SendKind::Prompt
    } else {
        match m {
            ComposerMode::FollowUp => SendKind::FollowUp,
            _ => SendKind::Steer,
        }
    }
}

/// `b` is `a` with the user's line `line` appended to the transcript;
/// `sending` switches an idle agent's live state to sending.
pub open spec fn line_added(a: App, b: App, line: Seq<char>, sending: bool) -> bool {
    &&& bumped(a.transcript, b.transcript) && appended(a.transcript@, b.transcript@)
    &&& b.transcript@.last() matches Entry::User(s) && s@ == line
    &&& if sending && !a.is_streaming {
        a.status.live_set(b.status, LiveState::Sending)
    } else {
        b.status == a.status
    }
    &&& keeps_run(a, b) && keeps_tools(a, b) && keeps_turn(a, b) && keeps_queues(a, b)
    &&& b.notify_enabled == a.notify_enabled && b.session == a.session && b.prefs == a.prefs
    &&& b.focus_idx == a.focus_idx && b.scroll == a.scroll && b.flash == a.flash
}

/// What submitting line `text` asks of the host and does to the state,
/// the agent running when `online`, statistics at hand when `has_stats`.
/// A slash command is tried among those needing no agent (the composer
/// is already empty by then), then, online, among the agent's; offline,
/// an unknown one is flashed. Anything else needs the agent: `!command`
/// runs a shell command, and any other line (an unknown slash command
/// too) is sent as a message.
pub open spec fn submitted(a: App, b: App, text: Seq<char>, online: bool, has_stats: bool, act: SubmitAction) -> bool {
    let t = trimmed(text);
    let rest = t.drop_first();
    let name = head_word(rest);
    let arg = rest_words(rest);
    if t.len() == 0 {
        act is Nothing && b == a
    } else if t[0] == '/' && local_name(name) {
        match act {
            SubmitAction::Nothing => local_effect(a, b, name, arg, has_stats, Seq::empty(), SlashOutcome::Done),
            SubmitAction::Slash(c) => local_effect(a, b, name, arg, has_stats, Seq::empty(), SlashOutcome::Run(c)),
            _ => false,
        }
    } else if t[0] == '/' && online && pi_name(name) {
        match act {
            SubmitAction::Nothing => pi_effect(a, b, name, arg, SlashOutcome::Done),
            SubmitAction::Slash(c) => pi_effect(a, b, name, arg, SlashOutcome::Run(c)),
            _ => false,
        }
    } else if t[0] == '/' && !online {
        act is Nothing && only_flashed(a, b, "unknown /"@ + name + " (pi is offline)"@, FlashKind::Info)
    } else if !online {
        act is Nothing && only_flashed(a, b, "pi is offline"@, FlashKind::Info)
    } else if t[0] == '!' {
        let cmd = trimmed(rest);
        if cmd.len() == 0 {
            act is Nothing && b == a
        } else {
            act matches SubmitAction::Bash(c) && c@ == cmd && line_added(a, b, "!"@ + cmd, false)
        }
    } else {
        &&& act matches SubmitAction::Send { text: m, how } && m@ == t && how == send_kind(
            a.is_streaming,
            a.composer_mode,
        )
        &&& line_added(a, b, t, true)
    }
}

/// A local command never comes back unknown, and an unknown name changes
/// nothing.
proof fn lemma_local_known(a: App, b: App, name: Seq<char>, arg: Seq<char>, has_stats: bool, composer: Seq<char>, r: SlashOutcome)
    requires
        local_effect(a, b, name, arg, has_stats, composer, r),
    ensures
        (r is Unknown) == !local_name(name),
        r is Unknown ==> b == a,
{
}

/// An agent command never comes back unknown, and an unknown name
/// changes nothing.
proof fn lemma_pi_known(a: App, b: App, name: Seq<char>, arg: Seq<char>, r: SlashOutcome)
    requires
        pi_effect(a, b, name, arg, r),
    ensures
        (r is Unknown) == !pi_name(name),
        r is Unknown ==> b == a,
{
}

impl App {
    /// Submit the composer's line `text` (see `submitted`). The host has
    /// emptied the composer and recorded the line in the history.
    pub fn submit(&mut self, text: &str, online: bool, has_stats: bool) -> (act: SubmitAction)
        ensures
            submitted(*old(self), *final(self), text@, online, has_stats, act),
    {
        let t = trim(text);
        let n = t.unicode_len();
        if n == 0 {
            return SubmitAction::Nothing;
        }
        let first = t.get_char(0);
        let rest = t.substring_char(1, n);
        proof {
            assert(rest@ =~= t@.drop_first());
        }
        if first == '/' {
            let (name, arg) = split_word(rest);
            let local = self.local_slash(name.as_str(), arg.as_str(), has_stats, "");
            proof {
                reveal_strlit("");
                lemma_local_known(*old(self), *self, name@, arg@, has_stats, Seq::empty(), local);
            }
            match local {
                SlashOutcome::Done => {
                    return SubmitAction::Nothing;
                },
                SlashOutcome::Run(c) => {
                    return SubmitAction::Slash(c);
                },
                SlashOutcome::Unknown => {},
            }
            if !online {
                let text = concat3("unknown /", name.as_str(), " (pi is offline)");
                self.flash(text);
                return SubmitAction::Nothing;
            }
            let remote = self.pi_slash(name.as_str(), arg.as_str());
            proof {
                lemma_pi_known(*old(self), *self, name@, arg@, remote);
            }
            match remote {
                SlashOutcome::Done => {
                    return SubmitAction::Nothing;
                },
                SlashOutcome::Run(c) => {
                    return SubmitAction::Slash(c);
                },
                SlashOutcome::Unknown => {},
            }
        }
        if !online {
            self.flash(String::from_str("pi is offline"));
            return SubmitAction::Nothing;
        }
        if first == '!' {
            let cmd = trim(rest);
            if cmd.unicode_len() == 0 {
                return SubmitAction::Nothing;
            }
            let line = concat2("!", cmd);
            self.transcript.push(Entry::User(line));
            proof {
                assert(self.transcript@.drop_last() =~= old(self).transcript@);
            }
            return SubmitAction::Bash(String::from_str(cmd));
        }
        let line = String::from_str(t);
        self.transcript.push(Entry::User(line));
        proof {
            assert(self.transcript@.drop_last() =~= old(self).transcript@);
        }
        if !self.is_streaming {
            self.status.set_live(LiveState::Sending);
        }
        let how = if !self.is_streaming {
            SendKind::Prompt
        } else {
            match self.composer_mode {
                ComposerMode::FollowUp => SendKind::FollowUp,
                _ => SendKind::Steer,
            }
        };
        SubmitAction::Send { text: String::from_str(t), how }
    }

    /// A shell command run for a `!` line came back: its result, or the
    /// failure as an error entry.
    pub fn bash_done(&mut self, result: Result<BashExec, String>)
        ensures
            bumped(old(self).transcript, final(self).transcript),
            appended(old(self).transcript@, final(self).transcript@),
            match result {
                Ok(x) => final(self).transcript@.last() == Entry::BashExec(x),
                Err(m) => final(self).transcript@.last() matches Entry::Error(s) && s@ == "bash failed: "@
                    + m@,
            },
            keeps_run(*old(self), *final(self)) && keeps_tools(*old(self), *final(self)),
            keeps_turn(*old(self), *final(self)) && keeps_queues(*old(self), *final(self)),
            final(self).status == old(self).status,
            final(self).session == old(self).session,
            final(self).prefs == old(self).prefs,
            final(self).notify_enabled == old(self).notify_enabled,
            final(self).focus_idx == old(self).focus_idx,
            final(self).scroll == old(self).scroll,
            final(self).flash == old(self).flash,
    {
        let e = match result {
            Ok(x) => Entry::BashExec(x),
            Err(m) => Entry::Error(concat2("bash failed: ", m.as_str())),
        };
        self.transcript.push(e);
        proof {
            assert(self.transcript@.drop_last() =~= old(self).transcript@);
        }
    }

    /// Sending a message failed: an error entry says why.
    pub fn send_failed(&mut self, message: &str)
        ensures
            bumped(old(self).transcript, final(self).transcript),
            appended(old(self).transcript@, final(self).transcript@),
            final(self).transcript@.last() matches Entry::Error(s) && s@ == "submit failed: "@ + message@,
            keeps_run(*old(self), *final(self)) && keeps_tools(*old(self), *final(self)),
            keeps_turn(*old(self), *final(self)) && keeps_queues(*old(self), *final(self)),
            final(self).status == old(self).status,
            final(self).session == old(self).session,
            final(self).prefs == old(self).prefs,
            final(self).notify_enabled == old(self).notify_enabled,
            final(self).focus_idx == old(self).focus_idx,
            final(self).scroll == old(self).scroll,
            final(self).flash == old(self).flash,
    {
        self.transcript.push(Entry::Error(concat2("submit failed: ", message)));
        proof {
            assert(self.transcript@.drop_last() =~= old(self).transcript@);
        }
    }

    /// An interview form was submitted, `summary` summing up its answers:
    /// the transcript records it as a user line, an idle agent switches to
    /// sending, and the answers go out as a new prompt when the agent is
    /// idle, else as a steer or, in follow-up mode, a follow-up.
    pub fn interview_submitted(&mut self, summary: &str) -> (how: SendKind)
        ensures
            line_added(*old(self), *final(self), interview_line(summary@), true),
            how == send_kind(old(self).is_streaming, old(self).composer_mode),
    {
        let line = if summary.unicode_len() == 0 {
            String::from_str("(interview) interview submitted")
        } else {
            concat2("(interview) interview submitted · ", summary)
        };
        proof {
            reveal_strlit("(interview) interview submitted");
        }
        self.transcript.push(Entry::User(line));
        proof {
            assert(self.transcript@.drop_last() =~= old(self).transcript@);
        }
        if !self.is_streaming {
            self.status.set_live(LiveState::Sending);
        }
        if !self.is_streaming {
            SendKind::Prompt
        } else {
            match self.composer_mode {
                ComposerMode::FollowUp => SendKind::FollowUp,
                _ => SendKind::Steer,
            }
        }
    }

    /// Sending an interview's answers failed with `message`.
    pub fn interview_send_failed(&mut self, message: &str)
        ensures
            bumped(old(self).transcript, final(self).transcript),
            appended(old(self).transcript@, final(self).transcript@),
            final(self).transcript@.last() matches Entry::Error(s) && s@ == "interview dispatch failed: "@
                + message@,
            keeps_run(*old(self), *final(self)) && keeps_tools(*old(self), *final(self)),
            keeps_turn(*old(self), *final(self)) && keeps_queues(*old(self), *final(self)),
            final(self).status == old(self).status,
            final(self).session == old(self).session,
            final(self).prefs == old(self).prefs,
            final(self).notify_enabled == old(self).notify_enabled,
            final(self).focus_idx == old(self).focus_idx,
            final(self).scroll == old(self).scroll,
            final(self).flash == old(self).flash,
    {
        self.transcript.push(Entry::Error(concat2("interview dispatch failed: ", message)));
        proof {
            assert(self.transcript@.drop_last() =~= old(self).transcript@);
        }
    }

    /// The agent opened an interview form titled `title` with `questions`
    /// questions: the transcript notes it and a flash names it.
    pub fn interview_opened(&mut self, title: &str, questions: u64)
        ensures
            bumped(old(self).transcript, final(self).transcript),
            appended(old(self).transcript@, final(self).transcript@),
            final(self).transcript@.last() matches Entry::Info(s) && s@ == interview_note(title@, questions as nat),
            keeps_run(*old(self), *final(self)) && keeps_tools(*old(self), *final(self)),
            keeps_turn(*old(self), *final(self)) && keeps_queues(*old(self), *final(self)),
            final(self).status == old(self).status,
            final(self).session == old(self).session,
            final(self).prefs == old(self).prefs,
            final(self).notify_enabled == old(self).notify_enabled,
            final(self).focus_idx == old(self).focus_idx,
            final(self).scroll == old(self).scroll,
            flashed(final(self).flash, "interview · "@ + title@, old(self).status.ticks, FlashKind::Info),
    {
        let n = decimal_string(questions);
        let noun = if questions == 1 {
            " question"
        } else {
            " questions"
        };
        let head = concat3("✍ agent opened an interview: \"", title, "\" (");
        let mid = concat3(head.as_str(), n.as_str(), noun);
        let line = concat2(mid.as_str(), ") — answer and Ctrl+Enter to submit (Esc cancels)");
        self.transcript.push(Entry::Info(line));
        proof {
            assert(self.transcript@.drop_last() =~= old(self).transcript@);
        }
        self.flash(concat2("interview · ", title));
    }

    /// The user cancelled the interview: the transcript notes it and a
    /// flash says so.
    pub fn interview_cancelled(&mut self)
        ensures
            interview_cancel_effect(*old(self), *final(self)),
    {
        self.transcript.push(Entry::Info(String::from_str("interview cancelled by user")));
        proof {
            reveal_strlit("interview cancelled by user");
            assert(self.transcript@.drop_last() =~= old(self).transcript@);
        }
        self.flash(String::from_str("interview cancelled"));
        proof {
            reveal_strlit("interview cancelled");
        }
    }
}

/// The transcript's note that the agent opened an interview form titled
/// `title` with `n` questions.
pub open spec fn interview_note(title: Seq<char>, n: nat) -> Seq<char> {
    "✍ agent opened an interview: \""@ + title + "\" ("@ + decimal(n) + (if n == 1 {
        " question"@
    } else {
        " questions"@
    }) + ") — answer and Ctrl+Enter to submit (Esc cancels)"@
}

/// The user cancelled the interview, taking the app from `a` to `b`: the
/// transcript notes it and a flash says so.
pub open spec fn interview_cancel_effect(a: App, b: App) -> bool {
    &&& bumped(a.transcript, b.transcript)
    &&& appended(a.transcript@, b.transcript@)
    &&& b.transcript@.last() matches Entry::Info(s) && s@ == "interview cancelled by user"@
    &&& keeps_run(a, b) && keeps_tools(a, b)
    &&& keeps_turn(a, b) && keeps_queues(a, b)
    &&& b.status == a.status && b.session == a.session && b.prefs == a.prefs
    &&& b.notify_enabled == a.notify_enabled && b.focus_idx == a.focus_idx && b.scroll == a.scroll
    &&& flashed(b.flash, "interview cancelled"@, a.status.ticks, FlashKind::Info)
}

/// The transcript line that records a submitted interview.
pub open spec fn interview_line(summary: Seq<char>) -> Seq<char> {
    if summary.len() == 0 {
        "(interview) interview submitted"@
    } else {
        "(interview) interview submitted · "@ + summary
    }
}

} // verus!

verus! {

/// A built-in command picked from the command palette, run with no
/// argument: one needing no agent runs at once; otherwise, online, the
/// agent's command of that name runs, and offline a flash says it needs
/// the agent.
pub open spec fn palette_effect(
    a: App,
    b: App,
    name: Seq<char>,
    online: bool,
    has_stats: bool,
    composer: Seq<char>,
    r: Option<SlashCommand>,
) -> bool {
    if local_name(name) {
        match r {
            Some(c) => local_effect(a, b, name, Seq::empty(), has_stats, composer, SlashOutcome::Run(c)),
            None => local_effect(a, b, name, Seq::empty(), has_stats, composer, SlashOutcome::Done),
        }
    } else if online {
        match r {
            Some(c) => pi_effect(a, b, name, Seq::empty(), SlashOutcome::Run(c)),
            None => pi_effect(a, b, name, Seq::empty(), SlashOutcome::Done) || pi_effect(
                a,
                b,
                name,
                Seq::empty(),
                SlashOutcome::Unknown,
            ),
        }
    } else {
        r is None && only_flashed(a, b, "/"@ + name + " needs pi (offline)"@, FlashKind::Info)
    }
}

impl App {
    /// Run the built-in command `name` picked from the command palette,
    /// the composer holding `composer` (see `palette_effect`).
    pub fn palette_command(&mut self, name: &str, online: bool, has_stats: bool, composer: &str) -> (r:
        Option<SlashCommand>)
        ensures
            palette_effect(*old(self), *final(self), name@, online, has_stats, composer@, r),
    {
        let local = self.local_slash(name, "", has_stats, composer);
        proof {
            reveal_strlit("");
            assert(""@ =~= Seq::<char>::empty());
            lemma_local_known(*old(self), *self, name@, Seq::empty(), has_stats, composer@, local);
        }
        match local {
            SlashOutcome::Done => {
                return None;
            },
            SlashOutcome::Run(c) => {
                return Some(c);
            },
            SlashOutcome::Unknown => {},
        }
        if !online {
            self.flash(concat3("/", name, " needs pi (offline)"));
            return None;
        }
        let remote = self.pi_slash(name, "");
        proof {
            reveal_strlit("");
            assert(""@ =~= Seq::<char>::empty());
        }
        match remote {
            SlashOutcome::Run(c) => Some(c),
            _ => None,
        }
    }
}

} // verus!

verus! {

/// A line with no whitespace at either end is its own trim.
proof fn lemma_trim_fixed(x: Seq<char>)
    requires
        x.len() > 0,
        !unicode_whitespace(x[0]),
        !unicode_whitespace(x.last()),
    ensures
        trimmed(x) == x,
{
    assert(crate::text::trim_start(x) == x);
    assert(crate::text::trim_end(x) == x);
}

/// Writing a slash command out and reading it back gives the command:
/// `/name arg` (just `/name` with no argument) reads as name `name` and
/// argument `arg`, for a non-empty name without whitespace and an
/// argument without whitespace at either end.
pub proof fn lemma_slash_line_round_trip(name: Seq<char>, arg: Seq<char>, s: Submission)
    requires
        name.len() > 0,
        forall|i: int| 0 <= i < name.len() ==> !unicode_whitespace(#[trigger] name[i]),
        trimmed(arg) == arg,
        parsed_as(
            if arg.len() == 0 {
                seq!['/'] + name
            } else {
                seq!['/'] + name + seq![' '] + arg
            },
            s,
        ),
    ensures
        s matches Submission::Slash { name: n, arg: a } && n@ == name && a@ == arg,
{
    let rest = if arg.len() == 0 {
        name
    } else {
        name + seq![' '] + arg
    };
    let line = seq!['/'] + rest;
    assert(if arg.len() == 0 {
        seq!['/'] + name
    } else {
        seq!['/'] + name + seq![' '] + arg
    } =~= line);
    if arg.len() > 0 {
        crate::text::lemma_trimmed_ends(arg);
        assert(line.last() == arg.last());
    } else {
        assert(line.last() == name.last());
    }
    lemma_trim_fixed(line);
    assert(line.drop_first() =~= rest);
    assert forall|j: int| 0 <= j < name.len() implies !unicode_whitespace(#[trigger] rest[j]) by {
        assert(rest[j] == name[j]);
    }
    if arg.len() > 0 {
        assert(rest[name.len() as int] == ' ');
    }
    lemma_first_space(rest, name.len() as int);
    assert(rest.take(name.len() as int) =~= name);
    if arg.len() > 0 {
        assert(rest.skip(name.len() as int + 1) =~= arg);
    }
}

/// Offline, a line is never sent to the agent: no message and no shell
/// command leave, whatever was typed.
pub proof fn lemma_offline_sends_nothing(
    a: App,
    b: App,
    text: Seq<char>,
    has_stats: bool,
    act: SubmitAction,
)
    requires
        submitted(a, b, text, false, has_stats, act),
    ensures
        !(act is Bash) && !(act is Send),
{
}

/// The commands needing no agent behave the same whether the agent runs
/// or not.
pub proof fn lemma_local_commands_work_offline(
    a: App,
    b: App,
    text: Seq<char>,
    has_stats: bool,
    act: SubmitAction,
)
    requires
        trimmed(text).len() > 0,
        trimmed(text)[0] == '/',
        local_name(head_word(trimmed(text).drop_first())),
    ensures
        submitted(a, b, text, true, has_stats, act) == submitted(a, b, text, false, has_stats, act),
{
}

} // verus!
