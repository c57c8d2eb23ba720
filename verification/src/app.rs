//! The client's core state, and the reducer that applies each event from
//! the agent to it.
//!
//! The reducer decides; it performs no I/O. What the host has to do in
//! response (raise a desktop notification) comes back as a list of
//! notices.

use vstd::prelude::*;

use crate::helpers::{concat2, concat3, decimal, decimal_string, token_estimate, truncated, truncate_preview, approx_tokens};
use crate::json::{Json, error_detail, extract_error_detail};
use crate::keys::KeyCode;
use crate::messages::{
    AgentMessage, AssistantEvent, ContentBlock, Incoming, StopReason, first_text, first_text_block,
    join_lines, result_text, text_blocks,
};
use crate::settings::{Preferences, Session};
use crate::status::{ComposerMode, FlashKind, LiveState, LiveStatus, stepped};
use crate::text::{first_line, first_line_of, trim, trimmed};
use crate::markers::{has_markers, strip_markers, stripped_markers};
use crate::messages::{assistant_text, collect_assistant_text};
use crate::text::str_eq;
use crate::transcript::{
    last_assistant_at, lemma_last_assistant_at, rewritten,
    CompactionState, Entry, RetryState, ToolStatus, Transcript, appended, bumped, is_last_retry, is_last_tool, text_of,
    is_last_running_compaction, same_except, streamed_assistant, streamed_thinking, tool_finished,
    tool_output_updated, tool_started, tool_toggled, untouched,
};

verus! {

/// Turns shorter than this many ticks (10 s) are not announced.
pub const TURN_NOTICE_MIN_TICKS: u64 = 100;

/// A transient footer message: its text, the tick it was raised at, and
/// its kind.
pub struct Flash {
    pub text: String,
    pub at: u64,
    pub kind: FlashKind,
}

/// Something the host is asked to do after an event.
pub enum Notice {
    /// Raise a desktop notification.
    Desktop { title: String, body: String },
    /// Announce the end of a turn that ran `duration_ticks` ticks and made
    /// `tool_calls` tool calls, when it ran at least `min_ticks`.
    TurnSummary { duration_ticks: u64, min_ticks: u64, tool_calls: u32 },
    /// The run's text `text` holds protocol markers: interview markers
    /// (`interview`), which ask the user to fill in a form that the host
    /// reads from them and opens with `App::open_interview` when no dialog
    /// is open, and plan markers (`plan`), which the host's plan reads.
    Markers { text: String, interview: bool, plan: bool },
}

/// The client's state as the agent's events shape it.
pub struct App {
    pub transcript: Transcript,
    /// The agent is working on a prompt.
    pub is_streaming: bool,
    pub composer_mode: ComposerMode,
    pub status: LiveStatus,
    /// Tool calls started and not yet ended.
    pub tool_running: u32,
    /// Tool calls ended over the session.
    pub tool_done: u32,
    /// Turns started over the session.
    pub turn_count: u32,
    /// Tick at which the current run of the agent started.
    pub agent_start_tick: Option<u64>,
    /// Tool calls made since the current run started.
    pub tool_calls_this_turn: u32,
    /// Desktop notifications are on.
    pub notify_enabled: bool,
    /// Prompts queued to steer the running agent.
    pub queue_steering: Vec<String>,
    /// Prompts queued to follow the current run.
    pub queue_follow_up: Vec<String>,
    /// The focused transcript entry, in focus mode.
    pub focus_idx: Option<usize>,
    /// Manual scroll offset of the transcript; none follows the live tail.
    pub scroll: Option<u16>,
    pub flash: Option<Flash>,
    pub session: Session,
    pub prefs: Preferences,
}

/// The text of an optional string, or `d` when there is none.
pub open spec fn or_default(o: Option<String>, d: Seq<char>) -> Seq<char> {
    match o {
        Some(s) => s@,
        None => d,
    }
}

/// An optional string by its text.
pub open spec fn opt_view(o: Option<String>) -> Option<Seq<char>> {
    match o {
        Some(s) => Some(s@),
        None => None,
    }
}

/// Notice `n` is the desktop notification `title` / `body`.
pub open spec fn is_desktop(n: Notice, title: Seq<char>, body: Seq<char>) -> bool {
    n matches Notice::Desktop { title: t, body: b } && t@ == title && b@ == body
}

/// `out` is the desktop notification `title` / `body` when notifications
/// are `on`, and nothing otherwise.
pub open spec fn notified(out: Seq<Notice>, on: bool, title: Seq<char>, body: Seq<char>) -> bool {
    if on {
        out.len() == 1 && is_desktop(out[0], title, body)
    } else {
        out.len() == 0
    }
}

/// `b` is `a` with entry `e` appended.
pub open spec fn pushed(a: Transcript, b: Transcript, e: Entry) -> bool {
    b@ == a@.push(e) && bumped(a, b)
}

/// `b` is `a` with an error entry reading `msg` appended.
pub open spec fn pushed_error(a: Transcript, b: Transcript, msg: Seq<char>) -> bool {
    &&& bumped(a, b)
    &&& appended(a@, b@)
    &&& b@.last() matches Entry::Error(s) && s@ == msg
}

/// The error text of the first assistant message of `ms` that stopped on
/// an error: its error message, or a generic line when it has none.
pub open spec fn agent_error(ms: Seq<AgentMessage>) -> Option<Seq<char>>
    decreases ms.len(),
{
    if ms.len() == 0 {
        None
    } else {
        match ms[0] {
            AgentMessage::Assistant { stop_reason, error_message, .. } => if stop_reason == Some(
                StopReason::Error,
            ) {
                Some(or_default(error_message, "agent ended with error"@))
            } else {
                agent_error(ms.drop_first())
            },
            _ => agent_error(ms.drop_first()),
        }
    }
}

/// The transcript line for a stream error: the reason, and the detail
/// dug out of the payload when there is one.
pub open spec fn stream_error_text(reason: Seq<char>, detail: Option<Seq<char>>) -> Seq<char> {
    match detail {
        Some(d) => "stream error ("@ + reason + "): "@ + d,
        None => "stream error: "@ + reason,
    }
}

/// The body of a tool-error notification: the first line of the tool's
/// first text block, trimmed and cut to 80 characters, or a generic line
/// when that is empty.
pub open spec fn tool_error_body(text: Seq<char>) -> Seq<char> {
    let f = trimmed(first_line(text));
    if f.len() == 0 {
        "tool call failed"@
    } else {
        truncated(f, 80)
    }
}

/// How long the current run has lasted, in ticks (0 when none started).
pub open spec fn run_ticks(a: App) -> u64 {
    match a.agent_start_tick {
        Some(t0) => a.status.ticks.saturating_sub(t0),
        None => 0,
    }
}

/// No event changes the settings, the session facts, the focus, the
/// scroll or the flash.
pub open spec fn keeps_view(a: App, b: App) -> bool {
    &&& b.notify_enabled == a.notify_enabled
    &&& b.focus_idx == a.focus_idx
    &&& b.scroll == a.scroll
    &&& b.flash == a.flash
    &&& b.session == a.session
    &&& b.prefs == a.prefs
}

pub open spec fn keeps_queues(a: App, b: App) -> bool {
    b.queue_steering == a.queue_steering && b.queue_follow_up == a.queue_follow_up
}

pub open spec fn keeps_run(a: App, b: App) -> bool {
    b.is_streaming == a.is_streaming && b.composer_mode == a.composer_mode
}

pub open spec fn keeps_tools(a: App, b: App) -> bool {
    &&& b.tool_running == a.tool_running
    &&& b.tool_done == a.tool_done
    &&& b.tool_calls_this_turn == a.tool_calls_this_turn
}

pub open spec fn keeps_turn(a: App, b: App) -> bool {
    b.turn_count == a.turn_count && b.agent_start_tick == a.agent_start_tick
}

/// What every event does: it is stamped on the status, `tokens` more
/// tokens are counted, the live state becomes `live` when one is given,
/// and the view settings stay.
pub open spec fn base_step(a: App, b: App, live: Option<LiveState>, tokens: u32) -> bool {
    keeps_view(a, b) && stepped(a.status, b.status, live, tokens)
}

/// An event that changes nothing but the event stamp.
pub open spec fn quiet_step(a: App, b: App, out: Seq<Notice>) -> bool {
    &&& base_step(a, b, None, 0)
    &&& keeps_queues(a, b) && keeps_run(a, b) && keeps_tools(a, b) && keeps_turn(a, b)
    &&& untouched(a.transcript, b.transcript)
    &&& out.len() == 0
}

/// The agent started: streaming, the LLM is working, and a new run is
/// timed from now with no tool calls yet.
pub open spec fn agent_start_step(a: App, b: App, out: Seq<Notice>) -> bool {
    &&& base_step(a, b, Some(LiveState::Llm), 0)
    &&& b.is_streaming && b.composer_mode == a.composer_mode
    &&& b.agent_start_tick == Some(a.status.ticks)
    &&& b.tool_calls_this_turn == 0
    &&& b.tool_running == a.tool_running && b.tool_done == a.tool_done
    &&& b.turn_count == a.turn_count
    &&& keeps_queues(a, b)
    &&& untouched(a.transcript, b.transcript)
    &&& out.len() == 0
}

/// The desktop notification for a finished run of `duration_ticks` ticks
/// (ten a second) with `tool_calls` tool calls: none for a run shorter
/// than `min_ticks`, else "pi" / "done in Ns · K tool calls".
pub fn agent_end_notice(duration_ticks: u64, min_ticks: u64, tool_calls: u32) -> (r: Option<(String, String)>)
    ensures
        match r {
            Some(n) => duration_ticks >= min_ticks && n.0@ == "pi"@ && n.1@ == "done in "@ + decimal(
                (duration_ticks / 10) as nat,
            ) + "s · "@ + decimal(tool_calls as nat) + " tool calls"@,
            None => duration_ticks < min_ticks,
        },
{
    if duration_ticks < min_ticks {
        return None;
    }
    let secs = decimal_string(duration_ticks / 10);
    let calls = decimal_string(tool_calls as u64);
    let body = concat2(concat3(concat2("done in ", secs.as_str()).as_str(), "s · ", calls.as_str()).as_str(), " tool calls");
    Some((String::from_str("pi"), body))
}

/// The text the end of a run reads its markers from: the run's assistant
/// text, else the text of the last assistant entry.
pub open spec fn end_text(ms: Seq<AgentMessage>, es: Seq<Entry>) -> Option<Seq<char>> {
    if assistant_text(ms).len() > 0 {
        Some(assistant_text(ms))
    } else {
        match last_assistant_at(es) {
            Some(i) => Some(text_of(es[i])),
            None => None,
        }
    }
}

/// The run's text holds an interview or a plan marker.
pub open spec fn says_markers(ms: Seq<AgentMessage>, es: Seq<Entry>) -> bool {
    end_text(ms, es) matches Some(t) && (has_markers(t, false, true) || has_markers(t, true, false))
}

/// The markers at the end of a run, taking the transcript from `a` to `b`:
/// the last assistant entry reads the run's text without its interview
/// markers when the run asks for an interview, and loses its plan markers
/// unless raw markers are shown (`raw`). It is counted as a mutation only
/// when its text changes.
pub open spec fn markers_applied(a: Transcript, b: Transcript, ms: Seq<AgentMessage>, raw: bool) -> bool {
    match (end_text(ms, a@), last_assistant_at(a@)) {
        (Some(t), Some(i)) => {
            let tail = text_of(a@[i]);
            let base = if has_markers(t, false, true) {
                stripped_markers(t, false, true)
            } else {
                tail
            };
            let new = if raw {
                base
            } else {
                stripped_markers(base, true, false)
            };
            if new == tail {
                untouched(a, b)
            } else {
                rewritten(a, b, i, new)
            }
        },
        _ => untouched(a, b),
    }
}

/// `out` hands the host the run's text `t` and the kinds of markers it
/// holds when it holds any (`says`), and nothing otherwise.
pub open spec fn markers_said(out: Seq<Notice>, says: bool, t: Option<Seq<char>>) -> bool {
    if says {
        &&& out.len() == 1
        &&& out[0] matches Notice::Markers { text, interview, plan }
        &&& t == Some(text@)
        &&& interview == has_markers(text@, false, true) && plan == has_markers(text@, true, false)
    } else {
        out.len() == 0
    }
}

/// The agent ended with messages `ms`: streaming stops, the composer goes
/// back to prompting, no tool counts as running, and the run is closed.
/// When an assistant message stopped on an error, its text is shown as an
/// error, the live state is error and (notifications on) a notification
/// says so; else the live state is idle and (notifications on) the end of
/// the run is announced with its length and tool calls.
pub open spec fn agent_end_step(a: App, b: App, ms: Seq<AgentMessage>, out: Seq<Notice>) -> bool {
    &&& base_step(
        a,
        b,
        Some(
            if agent_error(ms) is Some {
                LiveState::Error
            } else {
                LiveState::Idle
            },
        ),
        0,
    )
    &&& !b.is_streaming && b.composer_mode == ComposerMode::Prompt
    &&& b.tool_running == 0 && b.tool_done == a.tool_done
    &&& b.tool_calls_this_turn == a.tool_calls_this_turn
    &&& b.turn_count == a.turn_count && b.agent_start_tick is None
    &&& keeps_queues(a, b)
    &&& match agent_error(ms) {
        Some(m) => {
            let d: int = if a.notify_enabled {
                1
            } else {
                0
            };
            &&& out.len() >= d
            &&& notified(out.take(d), a.notify_enabled, "pi · agent error"@, truncated(m, 100))
            &&& exists|mid: Transcript|
                #![trigger markers_applied(mid, b.transcript, ms, a.prefs.show_raw_markers)]
                pushed_error(a.transcript, mid, "pi: "@ + m) && markers_applied(
                    mid,
                    b.transcript,
                    ms,
                    a.prefs.show_raw_markers,
                ) && markers_said(out.skip(d), says_markers(ms, mid@), end_text(ms, mid@))
        },
        None => {
            let k: int = if says_markers(ms, a.transcript@) {
                1
            } else {
                0
            };
            &&& markers_applied(a.transcript, b.transcript, ms, a.prefs.show_raw_markers)
            &&& out.len() >= k
            &&& markers_said(out.take(k), says_markers(ms, a.transcript@), end_text(ms, a.transcript@))
            &&& if a.notify_enabled {
                out.skip(k) == seq![
                    Notice::TurnSummary {
                        duration_ticks: run_ticks(a),
                        min_ticks: TURN_NOTICE_MIN_TICKS,
                        tool_calls: a.tool_calls_this_turn,
                    },
                ]
            } else {
                out.skip(k).len() == 0
            }
        },
    }
}

/// A turn started: the count goes up (saturating), and every turn after
/// the first gets a divider carrying its number.
pub open spec fn turn_start_step(a: App, b: App, out: Seq<Notice>) -> bool {
    let n = a.turn_count.saturating_add(1);
    &&& base_step(a, b, None, 0)
    &&& b.turn_count == n && b.agent_start_tick == a.agent_start_tick
    &&& keeps_queues(a, b) && keeps_run(a, b) && keeps_tools(a, b)
    &&& if n > 1 {
        pushed(a.transcript, b.transcript, Entry::TurnMarker { number: n })
    } else {
        untouched(a.transcript, b.transcript)
    }
    &&& out.len() == 0
}

/// Assistant text streamed in: the live state is streaming, its tokens
/// are counted, and the text extends the assistant entry.
pub open spec fn text_delta_step(a: App, b: App, delta: Seq<char>, out: Seq<Notice>) -> bool {
    &&& base_step(a, b, Some(LiveState::Streaming), token_estimate(delta))
    &&& keeps_queues(a, b) && keeps_run(a, b) && keeps_tools(a, b) && keeps_turn(a, b)
    &&& streamed_assistant(a.transcript, b.transcript, delta)
    &&& out.len() == 0
}

/// Thinking streamed in: the live state is thinking, its tokens are
/// counted, and the text extends the thinking entry.
pub open spec fn thinking_delta_step(a: App, b: App, delta: Seq<char>, out: Seq<Notice>) -> bool {
    &&& base_step(a, b, Some(LiveState::Thinking), token_estimate(delta))
    &&& keeps_queues(a, b) && keeps_run(a, b) && keeps_tools(a, b) && keeps_turn(a, b)
    &&& streamed_thinking(a.transcript, b.transcript, delta)
    &&& out.len() == 0
}

/// The stream failed: the live state is error, the failure is shown as
/// an error entry, and (notifications on) a notification carries it.
pub open spec fn stream_error_step(
    a: App,
    b: App,
    reason: Seq<char>,
    payload: Json,
    out: Seq<Notice>,
) -> bool {
    let msg = stream_error_text(reason, error_detail(payload));
    &&& base_step(a, b, Some(LiveState::Error), 0)
    &&& keeps_queues(a, b) && keeps_run(a, b) && keeps_tools(a, b) && keeps_turn(a, b)
    &&& pushed_error(a.transcript, b.transcript, msg)
    &&& notified(out, a.notify_enabled, "pi · stream error"@, truncated(msg, 100))
}

/// A tool call started: one more running and one more this run
/// (saturating), the live state is tool, and its card is appended.
pub open spec fn tool_start_step(
    a: App,
    b: App,
    id: Seq<char>,
    name: Seq<char>,
    args: Json,
    out: Seq<Notice>,
) -> bool {
    &&& base_step(a, b, Some(LiveState::Tool), 0)
    &&& b.tool_running == a.tool_running.saturating_add(1)
    &&& b.tool_calls_this_turn == a.tool_calls_this_turn.saturating_add(1)
    &&& b.tool_done == a.tool_done
    &&& keeps_queues(a, b) && keeps_run(a, b) && keeps_turn(a, b)
    &&& tool_started(a.transcript, b.transcript, id, name, args)
    &&& out.len() == 0
}

/// A tool streamed partial output: its card shows the text blocks.
pub open spec fn tool_update_step(
    a: App,
    b: App,
    id: Seq<char>,
    partial: Seq<ContentBlock>,
    out: Seq<Notice>,
) -> bool {
    &&& base_step(a, b, None, 0)
    &&& keeps_queues(a, b) && keeps_run(a, b) && keeps_tools(a, b) && keeps_turn(a, b)
    &&& tool_output_updated(a.transcript, b.transcript, id, join_lines(text_blocks(partial)))
    &&& out.len() == 0
}

/// A tool call ended: one fewer running and one more done (saturating);
/// when none is left running during a run the LLM is working again; a
/// failed call is notified (notifications on); its card gets the final
/// output and status.
pub open spec fn tool_end_step(
    a: App,
    b: App,
    id: Seq<char>,
    result: Seq<ContentBlock>,
    is_error: bool,
    out: Seq<Notice>,
) -> bool {
    let running = a.tool_running.saturating_sub(1);
    &&& base_step(
        a,
        b,
        if running == 0 && a.is_streaming {
            Some(LiveState::Llm)
        } else {
            None
        },
        0,
    )
    &&& b.tool_running == running && b.tool_done == a.tool_done.saturating_add(1)
    &&& b.tool_calls_this_turn == a.tool_calls_this_turn
    &&& keeps_queues(a, b) && keeps_run(a, b) && keeps_turn(a, b)
    &&& tool_finished(a.transcript, b.transcript, id, join_lines(text_blocks(result)), is_error)
    &&& notified(
        out,
        is_error && a.notify_enabled,
        "pi · tool error"@,
        tool_error_body(first_text(result)),
    )
}

/// `b` is `a` with a waiting retry entry appended.
pub open spec fn retry_waiting_pushed(
    a: Transcript,
    b: Transcript,
    attempt: u32,
    max_attempts: u32,
    delay_ms: u64,
    error: Seq<char>,
) -> bool {
    &&& bumped(a, b)
    &&& appended(a@, b@)
    &&& b@.last() matches Entry::Retry(r) && r.attempt == attempt && r.max_attempts == max_attempts
        && waiting_with(r.state, delay_ms, error)
}

/// Retry state `s` is waiting `delay_ms` after `error`.
pub open spec fn waiting_with(s: RetryState, delay_ms: u64, error: Seq<char>) -> bool {
    s matches RetryState::Waiting { delay_ms: d, error: e } && d == delay_ms && e@ == error
}

/// `b` is `a` with the last retry entry for `attempt` resolved: succeeded,
/// or exhausted with `error`; with no such entry, `b` is `a`.
pub open spec fn retry_resolved(
    a: Transcript,
    b: Transcript,
    attempt: u32,
    succeeded: bool,
    error: Seq<char>,
) -> bool {
    if exists|i: int| is_last_retry(a@, attempt, i) {
        let i = choose|i: int| is_last_retry(a@, attempt, i);
        let r = a@[i]->Retry_0;
        &&& bumped(a, b)
        &&& same_except(a@, b@, i)
        &&& b@[i] matches Entry::Retry(x) && x.attempt == r.attempt && x.max_attempts
            == r.max_attempts && if succeeded {
            x.state is Succeeded
        } else {
            x.state matches RetryState::Exhausted(e) && e@ == error
        }
    } else {
        untouched(a, b)
    }
}

/// An automatic retry started: the live state shows it, and a waiting
/// entry records it with its error (a generic one when none was given).
pub open spec fn retry_start_step(
    a: App,
    b: App,
    attempt: u32,
    max_attempts: u32,
    delay_ms: u64,
    error: Option<Seq<char>>,
    out: Seq<Notice>,
) -> bool {
    &&& base_step(a, b, Some(LiveState::Retrying { attempt, max_attempts, delay_ms }), 0)
    &&& keeps_queues(a, b) && keeps_run(a, b) && keeps_tools(a, b) && keeps_turn(a, b)
    &&& retry_waiting_pushed(
        a.transcript,
        b.transcript,
        attempt,
        max_attempts,
        delay_ms,
        match error {
            Some(e) => e,
            None => "transient error"@,
        },
    )
    &&& out.len() == 0
}

/// An automatic retry ended: after a success during a run the LLM works
/// again, else the client is idle; an exhausted retry is notified
/// (notifications on) and its entry records the final error.
pub open spec fn retry_end_step(
    a: App,
    b: App,
    success: bool,
    attempt: u32,
    final_error: Option<Seq<char>>,
    out: Seq<Notice>,
) -> bool {
    &&& base_step(
        a,
        b,
        Some(
            if success && a.is_streaming {
                LiveState::Llm
            } else {
                LiveState::Idle
            },
        ),
        0,
    )
    &&& keeps_queues(a, b) && keeps_run(a, b) && keeps_tools(a, b) && keeps_turn(a, b)
    &&& retry_resolved(
        a.transcript,
        b.transcript,
        attempt,
        success,
        match final_error {
            Some(e) => e,
            None => "unknown"@,
        },
    )
    &&& notified(
        out,
        !success && a.notify_enabled,
        "pi · retries exhausted"@,
        match final_error {
            Some(e) => truncated(e, 80),
            None => "retries exhausted"@,
        },
    )
}

/// The outcome a finished compaction shows: aborted; else failed with
/// `error` when there is one; else done with `summary`.
pub open spec fn compaction_outcome(
    s: CompactionState,
    aborted: bool,
    error: Option<Seq<char>>,
    summary: Option<Seq<char>>,
) -> bool {
    if aborted {
        s is Aborted
    } else {
        match error {
            Some(m) => s matches CompactionState::Failed(e) && e@ == m,
            None => s matches CompactionState::Done { summary: x } && opt_view(x) == summary,
        }
    }
}

/// `b` is `a` with the last running compaction finished with `reason` and
/// the outcome; with none running, a finished entry is appended.
pub open spec fn compaction_finished(
    a: Transcript,
    b: Transcript,
    reason: Seq<char>,
    aborted: bool,
    error: Option<Seq<char>>,
    summary: Option<Seq<char>>,
) -> bool {
    &&& bumped(a, b)
    &&& if exists|i: int| is_last_running_compaction(a@, i) {
        let i = choose|i: int| is_last_running_compaction(a@, i);
        &&& same_except(a@, b@, i)
        &&& b@[i] matches Entry::Compaction(c) && c.reason@ == reason && compaction_outcome(
            c.state,
            aborted,
            error,
            summary,
        )
    } else {
        &&& appended(a@, b@)
        &&& b@.last() matches Entry::Compaction(c) && c.reason@ == reason && compaction_outcome(
            c.state,
            aborted,
            error,
            summary,
        )
    }
}

/// A compaction started: the live state is compacting, and a running
/// entry records it.
pub open spec fn compaction_start_step(a: App, b: App, reason: Seq<char>, out: Seq<Notice>) -> bool {
    &&& base_step(a, b, Some(LiveState::Compacting), 0)
    &&& keeps_queues(a, b) && keeps_run(a, b) && keeps_tools(a, b) && keeps_turn(a, b)
    &&& bumped(a.transcript, b.transcript)
    &&& appended(a.transcript@, b.transcript@)
    &&& b.transcript@.last() matches Entry::Compaction(c) && c.reason@ == reason && c.state is Running
    &&& out.len() == 0
}

/// A compaction ended: the LLM works again during a run, else the client
/// is idle; the compaction entry records the outcome.
pub open spec fn compaction_end_step(
    a: App,
    b: App,
    reason: Seq<char>,
    summary: Option<Seq<char>>,
    aborted: bool,
    error: Option<Seq<char>>,
    out: Seq<Notice>,
) -> bool {
    &&& base_step(
        a,
        b,
        Some(
            if a.is_streaming {
                LiveState::Llm
            } else {
                LiveState::Idle
            },
        ),
        0,
    )
    &&& keeps_queues(a, b) && keeps_run(a, b) && keeps_tools(a, b) && keeps_turn(a, b)
    &&& compaction_finished(a.transcript, b.transcript, reason, aborted, error, summary)
    &&& out.len() == 0
}

/// An extension failed: an error entry shows its message.
pub open spec fn extension_error_step(a: App, b: App, error: Option<Seq<char>>, out: Seq<Notice>) -> bool {
    &&& base_step(a, b, None, 0)
    &&& keeps_queues(a, b) && keeps_run(a, b) && keeps_tools(a, b) && keeps_turn(a, b)
    &&& pushed_error(
        a.transcript,
        b.transcript,
        "extension error: "@ + match error {
            Some(e) => e,
            None => "(no detail)"@,
        },
    )
    &&& out.len() == 0
}

/// The agent refused a command: streaming stops, the composer goes back
/// to prompting, the live state is error, no tool counts as running, the
/// refusal is shown, and (notifications on) notified.
pub open spec fn command_error_step(
    a: App,
    b: App,
    command: Seq<char>,
    message: Seq<char>,
    out: Seq<Notice>,
) -> bool {
    &&& base_step(a, b, Some(LiveState::Error), 0)
    &&& !b.is_streaming && b.composer_mode == ComposerMode::Prompt
    &&& b.tool_running == 0 && b.tool_done == a.tool_done
    &&& b.tool_calls_this_turn == a.tool_calls_this_turn
    &&& keeps_queues(a, b) && keeps_turn(a, b)
    &&& pushed_error(a.transcript, b.transcript, command + ": "@ + message)
    &&& notified(out, a.notify_enabled, "pi · "@ + command + " failed"@, truncated(message, 100))
}

/// The prompt queues changed: both are replaced.
pub open spec fn queue_update_step(
    a: App,
    b: App,
    steering: Vec<String>,
    follow_up: Vec<String>,
    out: Seq<Notice>,
) -> bool {
    &&& base_step(a, b, None, 0)
    &&& b.queue_steering == steering && b.queue_follow_up == follow_up
    &&& keeps_run(a, b) && keeps_tools(a, b) && keeps_turn(a, b)
    &&& untouched(a.transcript, b.transcript)
    &&& out.len() == 0
}

/// What event `ev` does to state `a`: state `b`, with notices `out`.
pub open spec fn reduces(a: App, ev: Incoming, b: App, out: Seq<Notice>) -> bool {
    match ev {
        Incoming::AgentStart => agent_start_step(a, b, out),
        Incoming::AgentEnd { messages } => agent_end_step(a, b, messages@, out),
        Incoming::TurnStart => turn_start_step(a, b, out),
        Incoming::TurnEnd => quiet_step(a, b, out),
        Incoming::MessageUpdate { event } => match event {
            AssistantEvent::TextDelta { delta } => text_delta_step(a, b, delta@, out),
            AssistantEvent::ThinkingDelta { delta } => thinking_delta_step(a, b, delta@, out),
            AssistantEvent::Error { reason, error } => stream_error_step(a, b, reason@, error, out),
            AssistantEvent::Other => quiet_step(a, b, out),
        },
        Incoming::ToolExecutionStart { tool_call_id, tool_name, args } => tool_start_step(
            a,
            b,
            tool_call_id@,
            tool_name@,
            args,
            out,
        ),
        Incoming::ToolExecutionUpdate { tool_call_id, partial_result } => tool_update_step(
            a,
            b,
            tool_call_id@,
            partial_result@,
            out,
        ),
        Incoming::ToolExecutionEnd { tool_call_id, result, is_error } => tool_end_step(
            a,
            b,
            tool_call_id@,
            result@,
            is_error,
            out,
        ),
        Incoming::AutoRetryStart { attempt, max_attempts, delay_ms, error_message } =>
            retry_start_step(a, b, attempt, max_attempts, delay_ms, opt_view(error_message), out),
        Incoming::AutoRetryEnd { success, attempt, final_error } => retry_end_step(
            a,
            b,
            success,
            attempt,
            opt_view(final_error),
            out,
        ),
        Incoming::CompactionStart { reason } => compaction_start_step(a, b, reason@, out),
        Incoming::CompactionEnd { reason, summary, aborted, error_message } => compaction_end_step(
            a,
            b,
            reason@,
            opt_view(summary),
            aborted,
            opt_view(error_message),
            out,
        ),
        Incoming::ExtensionError { error } => extension_error_step(a, b, opt_view(error), out),
        Incoming::CommandError { command, message } => command_error_step(
            a,
            b,
            command@,
            message@,
            out,
        ),
        Incoming::QueueUpdate { steering, follow_up } => queue_update_step(
            a,
            b,
            steering,
            follow_up,
            out,
        ),
        Incoming::Other => quiet_step(a, b, out),
    }
}

} // verus!

verus! {

/// The error text of the first assistant message that stopped on an
/// error, if any.
pub fn first_agent_error(messages: &Vec<AgentMessage>) -> (r: Option<String>)
    ensures
        opt_view(r) == agent_error(messages@),
{
    let mut i: usize = 0;
    proof {
        assert(messages@.skip(0) =~= messages@);
    }
    while i < messages.len()
        invariant
            i <= messages@.len(),
            agent_error(messages@) == agent_error(messages@.skip(i as int)),
        decreases messages@.len() - i,
    {
        proof {
            assert(messages@.skip(i as int)[0] == messages@[i as int]);
            assert(messages@.skip(i as int).drop_first() =~= messages@.skip(i + 1));
        }
        match &messages[i] {
            AgentMessage::Assistant { stop_reason, error_message, .. } => {
                match stop_reason {
                    Some(StopReason::Error) => {
                        return match error_message {
                            Some(m) => Some(m.clone()),
                            None => Some(String::from_str("agent ended with error")),
                        };
                    },
                    _ => {},
                }
            },
            _ => {},
        }
        i += 1;
    }
    proof {
        assert(messages@.skip(i as int) =~= Seq::<AgentMessage>::empty());
    }
    None
}

/// Apply the markers of a run's end to transcript `t` (`raw`: raw
/// markers are shown), and give back the run's text, with whether it
/// holds interview and plan markers, when it holds any.
fn apply_end_markers(t: &mut Transcript, messages: &Vec<AgentMessage>, raw: bool) -> (said: Option<
    (String, bool, bool),
>)
    ensures
        markers_applied(*old(t), *final(t), messages@, raw),
        match said {
            Some(x) => {
                &&& says_markers(messages@, old(t)@) && end_text(messages@, old(t)@) == Some(x.0@)
                &&& x.1 == has_markers(x.0@, false, true) && x.2 == has_markers(x.0@, true, false)
            },
            None => !says_markers(messages@, old(t)@),
        },
{
    proof {
        lemma_last_assistant_at(t@);
    }
    let collected = collect_assistant_text(messages);
    let tail_idx = t.last_assistant_index();
    let text: String = if collected.unicode_len() > 0 {
        collected
    } else {
        match tail_idx {
            Some(i) => match &t.entries()[i] {
                Entry::Assistant(s) => s.clone(),
                _ => {
                    return None;
                },
            },
            None => {
                return None;
            },
        }
    };
    let (ask_stripped, asked) = strip_markers(text.as_str(), false, true);
    let planned = strip_markers(text.as_str(), true, false).1;
    match tail_idx {
        Some(i) => {
            let tail = match &t.entries()[i] {
                Entry::Assistant(s) => s.clone(),
                _ => {
                    return None;
                },
            };
            let base = if asked {
                ask_stripped
            } else {
                tail.clone()
            };
            let new = if raw {
                base
            } else {
                strip_markers(base.as_str(), true, false).0
            };
            if !str_eq(new.as_str(), tail.as_str()) {
                t.rewrite_assistant(i, new);
            }
        },
        None => {},
    }
    if asked || planned {
        Some((text, asked, planned))
    } else {
        None
    }
}

impl App {
    /// The state is well formed: the throughput window holds at most a
    /// minute.
    pub open spec fn wf(&self) -> bool {
        self.status.wf()
    }

    /// A fresh client: empty transcript, idle, prompting, nothing counted,
    /// notifications on.
    pub fn new() -> (a: App)
        ensures
            a.wf(),
            a.transcript@ == Seq::<Entry>::empty(),
            a.transcript.epoch_spec() == 0,
            !a.is_streaming,
            a.composer_mode == ComposerMode::Prompt,
            a.status.ticks == 0,
            a.status.live == LiveState::Idle,
            a.status.live_since_tick == 0,
            a.status.tokens_this_sec == 0,
            a.status.throughput@ == Seq::<u32>::empty(),
            a.status.last_sec_tick == 0,
            a.status.last_event_tick == 0,
            a.tool_running == 0,
            a.tool_done == 0,
            a.turn_count == 0,
            a.agent_start_tick is None,
            a.tool_calls_this_turn == 0,
            a.notify_enabled,
            a.queue_steering@ == Seq::<String>::empty(),
            a.queue_follow_up@ == Seq::<String>::empty(),
            a.focus_idx is None,
            a.scroll is None,
            a.flash is None,
            a.session.model_label@ == "unknown model"@,
            a.session.thinking is None,
            a.session.steering_mode is None,
            a.session.follow_up_mode is None,
            a.session.auto_compaction is None,
            a.session.auto_retry is None,
            a.session.session_name is None,
            !a.prefs.show_thinking,
            !a.prefs.vim_enabled,
            !a.prefs.show_raw_markers,
            !a.prefs.plan_auto_run,
    {
        App {
            transcript: Transcript::new(),
            is_streaming: false,
            composer_mode: ComposerMode::Prompt,
            status: LiveStatus::new(),
            tool_running: 0,
            tool_done: 0,
            turn_count: 0,
            agent_start_tick: None,
            tool_calls_this_turn: 0,
            notify_enabled: true,
            queue_steering: Vec::new(),
            queue_follow_up: Vec::new(),
            focus_idx: None,
            scroll: None,
            flash: None,
            session: Session {
                model_label: String::from_str("unknown model"),
                thinking: None,
                steering_mode: None,
                follow_up_mode: None,
                auto_compaction: None,
                auto_retry: None,
                session_name: None,
            },
            prefs: Preferences {
                show_thinking: false,
                vim_enabled: false,
                show_raw_markers: false,
                plan_auto_run: false,
            },
        }
    }

    fn on_quiet(&mut self) -> (out: Vec<Notice>)
        ensures
            quiet_step(*old(self), *final(self), out@),
    {
        self.status.step(None, 0);
        Vec::new()
    }

    fn on_agent_start(&mut self) -> (out: Vec<Notice>)
        ensures
            agent_start_step(*old(self), *final(self), out@),
    {
        self.status.step(Some(LiveState::Llm), 0);
        self.is_streaming = true;
        self.agent_start_tick = Some(self.status.ticks);
        self.tool_calls_this_turn = 0;
        Vec::new()
    }

    fn on_agent_end(&mut self, messages: &Vec<AgentMessage>) -> (out: Vec<Notice>)
        ensures
            agent_end_step(*old(self), *final(self), messages@, out@),
    {
        let mut out: Vec<Notice> = Vec::new();
        self.is_streaming = false;
        self.composer_mode = ComposerMode::Prompt;
        self.tool_running = 0;
        let err = first_agent_error(messages);
        let had_error = err.is_some();
        match err {
            Some(msg) => {
                self.transcript.push(Entry::Error(concat2("pi: ", msg.as_str())));
                assert(self.transcript@.drop_last() =~= old(self).transcript@);
                if self.notify_enabled {
                    out.push(
                        Notice::Desktop {
                            title: String::from_str("pi · agent error"),
                            body: truncate_preview(msg.as_str(), 100),
                        },
                    );
                }
            },
            None => {},
        }
        self.status.step(
            Some(
                if had_error {
                    LiveState::Error
                } else {
                    LiveState::Idle
                },
            ),
            0,
        );
        let ghost mid = self.transcript;
        let ghost d: int = out@.len() as int;
        let said = apply_end_markers(&mut self.transcript, messages, self.prefs.show_raw_markers);
        match said {
            Some((text, interview, plan)) => {
                out.push(Notice::Markers { text, interview, plan });
            },
            None => {},
        }
        let ghost k: int = out@.len() - d;
        if self.notify_enabled && !had_error {
            let duration_ticks = match self.agent_start_tick {
                Some(t0) => self.status.ticks.saturating_sub(t0),
                None => 0,
            };
            out.push(
                Notice::TurnSummary {
                    duration_ticks,
                    min_ticks: TURN_NOTICE_MIN_TICKS,
                    tool_calls: self.tool_calls_this_turn,
                },
            );
        }
        self.agent_start_tick = None;
        proof {
            if had_error {
                assert(out@.take(d) =~= out@.subrange(0, d));
                assert(out@.skip(d) =~= out@.subrange(d, out@.len() as int));
                assert(markers_applied(mid, self.transcript, messages@, old(self).prefs.show_raw_markers));
            } else {
                assert(d == 0);
                assert(mid == old(self).transcript);
                assert(out@.take(k) =~= out@.subrange(0, k));
                if self.notify_enabled {
                    assert(out@.skip(k) =~= seq![out@[k]]);
                } else {
                    assert(out@.skip(k) =~= Seq::<Notice>::empty());
                }
            }
        }
        out
    }

    fn on_turn_start(&mut self) -> (out: Vec<Notice>)
        ensures
            turn_start_step(*old(self), *final(self), out@),
    {
        self.status.step(None, 0);
        self.turn_count = self.turn_count.saturating_add(1);
        if self.turn_count > 1 {
            self.transcript.push(Entry::TurnMarker { number: self.turn_count });
        }
        Vec::new()
    }

    fn on_text_delta(&mut self, delta: &str) -> (out: Vec<Notice>)
        ensures
            text_delta_step(*old(self), *final(self), delta@, out@),
    {
        let tokens = approx_tokens(delta);
        self.status.step(Some(LiveState::Streaming), tokens);
        self.transcript.append_assistant(delta);
        Vec::new()
    }

    fn on_thinking_delta(&mut self, delta: &str) -> (out: Vec<Notice>)
        ensures
            thinking_delta_step(*old(self), *final(self), delta@, out@),
    {
        let tokens = approx_tokens(delta);
        self.status.step(Some(LiveState::Thinking), tokens);
        self.transcript.append_thinking(delta);
        Vec::new()
    }

    fn on_stream_error(&mut self, reason: &str, error: &Json) -> (out: Vec<Notice>)
        ensures
            stream_error_step(*old(self), *final(self), reason@, *error, out@),
    {
        let detail = extract_error_detail(error);
        let msg = match detail {
            Some(d) => concat2(concat3("stream error (", reason, "): ").as_str(), d.as_str()),
            None => concat2("stream error: ", reason),
        };
        self.status.step(Some(LiveState::Error), 0);
        self.transcript.push(Entry::Error(msg.clone()));
        assert(self.transcript@.drop_last() =~= old(self).transcript@);
        let mut out: Vec<Notice> = Vec::new();
        if self.notify_enabled {
            out.push(
                Notice::Desktop {
                    title: String::from_str("pi · stream error"),
                    body: truncate_preview(msg.as_str(), 100),
                },
            );
        }
        out
    }

    fn on_tool_start(&mut self, id: String, name: String, args: Json) -> (out: Vec<Notice>)
        ensures
            tool_start_step(*old(self), *final(self), id@, name@, args, out@),
    {
        self.tool_running = self.tool_running.saturating_add(1);
        self.tool_calls_this_turn = self.tool_calls_this_turn.saturating_add(1);
        self.status.step(Some(LiveState::Tool), 0);
        self.transcript.start_tool(id, name, args);
        Vec::new()
    }

    fn on_tool_update(&mut self, id: &str, partial: &Vec<ContentBlock>) -> (out: Vec<Notice>)
        ensures
            tool_update_step(*old(self), *final(self), id@, partial@, out@),
    {
        self.status.step(None, 0);
        let text = result_text(partial);
        self.transcript.update_tool_output(id, text.as_str());
        Vec::new()
    }

    fn on_tool_end(&mut self, id: &str, result: &Vec<ContentBlock>, is_error: bool) -> (out: Vec<
        Notice,
    >)
        ensures
            tool_end_step(*old(self), *final(self), id@, result@, is_error, out@),
    {
        self.tool_running = self.tool_running.saturating_sub(1);
        self.tool_done = self.tool_done.saturating_add(1);
        let live = if self.tool_running == 0 && self.is_streaming {
            Some(LiveState::Llm)
        } else {
            None
        };
        self.status.step(live, 0);
        let mut out: Vec<Notice> = Vec::new();
        if is_error && self.notify_enabled {
            let text = first_text_block(result);
            let first = trim(first_line_of(text));
            let body = if first.unicode_len() == 0 {
                String::from_str("tool call failed")
            } else {
                truncate_preview(first, 80)
            };
            out.push(Notice::Desktop { title: String::from_str("pi · tool error"), body });
        }
        let output = result_text(result);
        self.transcript.finish_tool(id, output.as_str(), is_error);
        out
    }

    fn on_retry_start(
        &mut self,
        attempt: u32,
        max_attempts: u32,
        delay_ms: u64,
        error_message: Option<String>,
    ) -> (out: Vec<Notice>)
        ensures
            retry_start_step(
                *old(self),
                *final(self),
                attempt,
                max_attempts,
                delay_ms,
                opt_view(error_message),
                out@,
            ),
    {
        self.status.step(Some(LiveState::Retrying { attempt, max_attempts, delay_ms }), 0);
        let error = match error_message {
            Some(e) => e,
            None => String::from_str("transient error"),
        };
        self.transcript.push_retry_waiting(attempt, max_attempts, delay_ms, error);
        Vec::new()
    }

    fn on_retry_end(&mut self, success: bool, attempt: u32, final_error: Option<String>) -> (out:
        Vec<Notice>)
        ensures
            retry_end_step(*old(self), *final(self), success, attempt, opt_view(final_error), out@),
    {
        let live = if success && self.is_streaming {
            LiveState::Llm
        } else {
            LiveState::Idle
        };
        self.status.step(Some(live), 0);
        let mut out: Vec<Notice> = Vec::new();
        if !success && self.notify_enabled {
            let body = match &final_error {
                Some(e) => truncate_preview(e.as_str(), 80),
                None => String::from_str("retries exhausted"),
            };
            out.push(Notice::Desktop { title: String::from_str("pi · retries exhausted"), body });
        }
        let state = if success {
            RetryState::Succeeded
        } else {
            RetryState::Exhausted(
                match final_error {
                    Some(e) => e,
                    None => String::from_str("unknown"),
                },
            )
        };
        self.transcript.resolve_retry(attempt, state);
        out
    }

    fn on_compaction_start(&mut self, reason: String) -> (out: Vec<Notice>)
        ensures
            compaction_start_step(*old(self), *final(self), reason@, out@),
    {
        self.status.step(Some(LiveState::Compacting), 0);
        self.transcript.push_compaction_start(reason);
        Vec::new()
    }

    fn on_compaction_end(
        &mut self,
        reason: String,
        summary: Option<String>,
        aborted: bool,
        error_message: Option<String>,
    ) -> (out: Vec<Notice>)
        ensures
            compaction_end_step(
                *old(self),
                *final(self),
                reason@,
                opt_view(summary),
                aborted,
                opt_view(error_message),
                out@,
            ),
    {
        let state = if aborted {
            CompactionState::Aborted
        } else {
            match error_message {
                Some(m) => CompactionState::Failed(m),
                None => CompactionState::Done { summary },
            }
        };
        let live = if self.is_streaming {
            LiveState::Llm
        } else {
            LiveState::Idle
        };
        self.status.step(Some(live), 0);
        self.transcript.finish_compaction(reason, state);
        Vec::new()
    }

    fn on_extension_error(&mut self, error: Option<String>) -> (out: Vec<Notice>)
        ensures
            extension_error_step(*old(self), *final(self), opt_view(error), out@),
    {
        self.status.step(None, 0);
        let detail: &str = match &error {
            Some(e) => e.as_str(),
            None => "(no detail)",
        };
        self.transcript.push(Entry::Error(concat2("extension error: ", detail)));
        assert(self.transcript@.drop_last() =~= old(self).transcript@);
        Vec::new()
    }

    fn on_command_error(&mut self, command: String, message: String) -> (out: Vec<Notice>)
        ensures
            command_error_step(*old(self), *final(self), command@, message@, out@),
    {
        self.is_streaming = false;
        self.composer_mode = ComposerMode::Prompt;
        self.status.step(Some(LiveState::Error), 0);
        self.tool_running = 0;
        self.transcript.push(Entry::Error(concat3(command.as_str(), ": ", message.as_str())));
        assert(self.transcript@.drop_last() =~= old(self).transcript@);
        let mut out: Vec<Notice> = Vec::new();
        if self.notify_enabled {
            out.push(
                Notice::Desktop {
                    title: concat3("pi · ", command.as_str(), " failed"),
                    body: truncate_preview(message.as_str(), 100),
                },
            );
        }
        out
    }

    fn on_queue_update(&mut self, steering: Vec<String>, follow_up: Vec<String>) -> (out: Vec<
        Notice,
    >)
        ensures
            queue_update_step(*old(self), *final(self), steering, follow_up, out@),
    {
        self.status.step(None, 0);
        self.queue_steering = steering;
        self.queue_follow_up = follow_up;
        Vec::new()
    }

    /// Apply one event from the agent. The returned notices are what the
    /// host should raise; the reducer itself does no I/O.
    pub fn on_event(&mut self, ev: Incoming) -> (out: Vec<Notice>)
        ensures
            reduces(*old(self), ev, *final(self), out@),
    {
        match ev {
            Incoming::AgentStart => self.on_agent_start(),
            Incoming::AgentEnd { messages } => self.on_agent_end(&messages),
            Incoming::TurnStart => self.on_turn_start(),
            Incoming::TurnEnd => self.on_quiet(),
            Incoming::MessageUpdate { event } => match event {
                AssistantEvent::TextDelta { delta } => self.on_text_delta(delta.as_str()),
                AssistantEvent::ThinkingDelta { delta } => self.on_thinking_delta(delta.as_str()),
                AssistantEvent::Error { reason, error } => self.on_stream_error(
                    reason.as_str(),
                    &error,
                ),
                AssistantEvent::Other => self.on_quiet(),
            },
            Incoming::ToolExecutionStart { tool_call_id, tool_name, args } => self.on_tool_start(
                tool_call_id,
                tool_name,
                args,
            ),
            Incoming::ToolExecutionUpdate { tool_call_id, partial_result } => self.on_tool_update(
                tool_call_id.as_str(),
                &partial_result,
            ),
            Incoming::ToolExecutionEnd { tool_call_id, result, is_error } => self.on_tool_end(
                tool_call_id.as_str(),
                &result,
                is_error,
            ),
            Incoming::AutoRetryStart { attempt, max_attempts, delay_ms, error_message } =>
                self.on_retry_start(attempt, max_attempts, delay_ms, error_message),
            Incoming::AutoRetryEnd { success, attempt, final_error } => self.on_retry_end(
                success,
                attempt,
                final_error,
            ),
            Incoming::CompactionStart { reason } => self.on_compaction_start(reason),
            Incoming::CompactionEnd { reason, summary, aborted, error_message } =>
                self.on_compaction_end(reason, summary, aborted, error_message),
            Incoming::ExtensionError { error } => self.on_extension_error(error),
            Incoming::CommandError { command, message } => self.on_command_error(command, message),
            Incoming::QueueUpdate { steering, follow_up } => self.on_queue_update(
                steering,
                follow_up,
            ),
            Incoming::Other => self.on_quiet(),
        }
    }
}

} // verus!

verus! {

/// Flashes disappear once they are older than this many ticks.
pub const FLASH_TICKS: u64 = 15;

/// Everything but the view state and the status stays.
pub open spec fn keeps_core(a: App, b: App) -> bool {
    &&& b.transcript == a.transcript
    &&& keeps_run(a, b) && keeps_tools(a, b) && keeps_turn(a, b) && keeps_queues(a, b)
    &&& b.notify_enabled == a.notify_enabled
    &&& b.session == a.session
    &&& b.prefs == a.prefs
}

/// A focus index kept on an existing entry of a transcript of `n`
/// entries: dropped when there are none, pulled back to the last one
/// when past the end.
pub open spec fn clamped_focus(f: Option<usize>, n: int) -> Option<usize> {
    match f {
        Some(i) => if n == 0 {
            None
        } else if i >= n {
            Some((n - 1) as usize)
        } else {
            Some(i)
        },
        None => None,
    }
}

/// Status `s` with its clock at `t`.
pub open spec fn at_tick(s: LiveStatus, t: u64) -> LiveStatus {
    LiveStatus {
        ticks: t,
        live: s.live,
        live_since_tick: s.live_since_tick,
        tokens_this_sec: s.tokens_this_sec,
        throughput: s.throughput,
        last_sec_tick: s.last_sec_tick,
        last_event_tick: s.last_event_tick,
    }
}

/// A flash raised at `at` is stale at tick `now`.
pub open spec fn flash_stale(at: u64, now: u64) -> bool {
    now.wrapping_sub(at) > FLASH_TICKS
}

/// What the host does after a key in focus mode.
pub enum FocusAction {
    Nothing,
    /// Copy entry `i` to the clipboard as plain text.
    Copy(usize),
}

/// Where focus moves on `code` from entry `cur` of `n > 0` entries, for
/// the navigation keys; other keys leave it.
pub open spec fn focus_moved(code: KeyCode, cur: int, n: int) -> Option<int> {
    match code {
        KeyCode::Char('j') | KeyCode::Down => Some(if cur + 1 < n - 1 { cur + 1 } else { n - 1 }),
        KeyCode::Char('k') | KeyCode::Up => Some(if cur >= 1 { cur - 1 } else { 0 }),
        KeyCode::Char('g') | KeyCode::Home => Some(0),
        KeyCode::Char('G') | KeyCode::End => Some(n - 1),
        KeyCode::PageDown => Some(if cur + 5 < n - 1 { cur + 5 } else { n - 1 }),
        KeyCode::PageUp => Some(if cur >= 5 { cur - 5 } else { 0 }),
        _ => None,
    }
}

/// What a key in focus mode does: state `a` becomes `b`, and the host is
/// asked for `act`.
pub open spec fn focus_key_effect(a: App, b: App, code: KeyCode, act: FocusAction) -> bool {
    let n = a.transcript@.len() as int;
    let cur = match a.focus_idx {
        Some(i) => i as int,
        None => 0int,
    };
    &&& keeps_run(a, b) && keeps_tools(a, b) && keeps_turn(a, b) && keeps_queues(a, b)
    &&& b.notify_enabled == a.notify_enabled && b.status == a.status
    &&& b.session == a.session && b.prefs == a.prefs
    &&& if n == 0 {
        &&& b.focus_idx is None && b.scroll == a.scroll && b.flash == a.flash
        &&& b.transcript == a.transcript && act is Nothing
    } else {
        match code {
            KeyCode::Esc => {
                &&& b.focus_idx is None && b.scroll is None
                &&& b.flash matches Some(f) && f.text@ == "focus mode off"@ && f.at
                    == a.status.ticks && f.kind == FlashKind::Info
                &&& b.transcript == a.transcript && act is Nothing
            },
            KeyCode::Enter | KeyCode::Char(' ') => {
                &&& b.focus_idx == a.focus_idx && b.scroll == a.scroll && b.flash
                    == a.flash && act is Nothing
                &&& if cur < n && a.transcript@[cur] is ToolCall {
                    tool_toggled(a.transcript, b.transcript, a.transcript@[cur]->ToolCall_0.id@)
                } else {
                    b.transcript == a.transcript
                }
            },
            KeyCode::Char('y') | KeyCode::Char('c') => {
                &&& b.focus_idx == a.focus_idx && b.scroll == a.scroll && b.flash
                    == a.flash && b.transcript == a.transcript
                &&& act == (if cur < n {
                    FocusAction::Copy(cur as usize)
                } else {
                    FocusAction::Nothing
                })
            },
            KeyCode::Char('q') => {
                &&& b.focus_idx is None && b.scroll == a.scroll && b.flash == a.flash
                &&& b.transcript == a.transcript && act is Nothing
            },
            _ => {
                &&& b.focus_idx == (match focus_moved(code, cur, n) {
                    Some(j) => Some(j as usize),
                    None => a.focus_idx,
                })
                &&& b.scroll == a.scroll && b.flash == a.flash
                &&& b.transcript == a.transcript && act is Nothing
            },
        }
    }
}

impl App {
    /// Keep the focus on an existing entry.
    pub fn clamp_focus(&mut self)
        ensures
            final(self).focus_idx == clamped_focus(old(self).focus_idx, old(self).transcript@.len() as int),
            keeps_core(*old(self), *final(self)),
            final(self).status == old(self).status,
            final(self).scroll == old(self).scroll,
            final(self).flash == old(self).flash,
    {
        if let Some(i) = self.focus_idx {
            let n = self.transcript.entries().len();
            if n == 0 {
    self.focus_idx = None;
            } else if i >= n {
    self.focus_idx = Some(n - 1);
            }
        }
    }

    /// One tick of the UI clock (100 ms): the clock advances (wrapping),
    /// the throughput window rolls forward, the focus stays on an existing
    /// entry, and a flash older than 15 ticks goes away.
    pub fn on_tick(&mut self)
        requires
            old(self).wf(),
        ensures
            final(self).wf(),
            crate::status::rolled(
    at_tick(old(self).status, old(self).status.ticks.wrapping_add(1)),
    final(self).status,
            ),
            final(self).focus_idx == clamped_focus(old(self).focus_idx, old(self).transcript@.len() as int),
            final(self).flash == (match old(self).flash {
    Some(f) => if flash_stale(f.at, old(self).status.ticks.wrapping_add(1)) {
        None
    } else {
        old(self).flash
    },
    None => None,
            }),
            keeps_core(*old(self), *final(self)),
            final(self).scroll == old(self).scroll,
    {
        self.status.ticks = self.status.ticks.wrapping_add(1);
        self.status.tick_status();
        self.clamp_focus();
        let stale = match &self.flash {
            Some(f) => self.status.ticks.wrapping_sub(f.at) > FLASH_TICKS,
            None => false,
        };
        if stale {
            self.flash = None;
        }
    }

    fn flash_with(&mut self, text: String, kind: FlashKind)
        ensures
            final(self).flash == Some(Flash { text, at: old(self).status.ticks, kind }),
            keeps_core(*old(self), *final(self)),
            final(self).status == old(self).status,
            final(self).focus_idx == old(self).focus_idx,
            final(self).scroll == old(self).scroll,
    {
        self.flash = Some(Flash { text, at: self.status.ticks, kind });
    }

    /// Show a neutral footer message, stamped with the current tick.
    pub fn flash(&mut self, text: String)
        ensures
            final(self).flash == Some(Flash { text, at: old(self).status.ticks, kind: FlashKind::Info }),
            keeps_core(*old(self), *final(self)),
            final(self).status == old(self).status,
            final(self).focus_idx == old(self).focus_idx,
            final(self).scroll == old(self).scroll,
    {
        self.flash_with(text, FlashKind::Info);
    }

    /// Show an info message; the same as `flash`.
    pub fn flash_info(&mut self, text: String)
        ensures
            final(self).flash == Some(Flash { text, at: old(self).status.ticks, kind: FlashKind::Info }),
            keeps_core(*old(self), *final(self)),
            final(self).status == old(self).status,
            final(self).focus_idx == old(self).focus_idx,
            final(self).scroll == old(self).scroll,
    {
        self.flash_with(text, FlashKind::Info);
    }

    /// Show a success message.
    pub fn flash_success(&mut self, text: String)
        ensures
            final(self).flash == Some(Flash { text, at: old(self).status.ticks, kind: FlashKind::Success }),
            keeps_core(*old(self), *final(self)),
            final(self).status == old(self).status,
            final(self).focus_idx == old(self).focus_idx,
            final(self).scroll == old(self).scroll,
    {
        self.flash_with(text, FlashKind::Success);
    }

    /// Show a warning.
    pub fn flash_warn(&mut self, text: String)
        ensures
            final(self).flash == Some(Flash { text, at: old(self).status.ticks, kind: FlashKind::Warn }),
            keeps_core(*old(self), *final(self)),
            final(self).status == old(self).status,
            final(self).focus_idx == old(self).focus_idx,
            final(self).scroll == old(self).scroll,
    {
        self.flash_with(text, FlashKind::Warn);
    }

    /// Show an error.
    pub fn flash_error(&mut self, text: String)
        ensures
            final(self).flash == Some(Flash { text, at: old(self).status.ticks, kind: FlashKind::Error }),
            keeps_core(*old(self), *final(self)),
            final(self).status == old(self).status,
            final(self).focus_idx == old(self).focus_idx,
            final(self).scroll == old(self).scroll,
    {
        self.flash_with(text, FlashKind::Error);
    }

    /// A key in focus mode. With an empty transcript focus mode ends. Else,
    /// from the focused entry (the first when none is): Esc leaves focus
    /// mode and re-pins the live tail; j/k, the arrows, g/G, Home/End and
    /// the page keys move the focus; Enter or space expands or collapses a
    /// focused tool call; y or c asks the host to copy the focused entry;
    /// q leaves focus mode.
    pub fn focus_key(&mut self, code: KeyCode) -> (act: FocusAction)
        ensures
            focus_key_effect(*old(self), *final(self), code, act),
    {
        let n = self.transcript.entries().len();
        if n == 0 {
            self.focus_idx = None;
            return FocusAction::Nothing;
        }
        let cur = match self.focus_idx {
            Some(i) => i,
            None => 0,
        };
        let last = n - 1;
        match code {
            KeyCode::Esc => {
    self.focus_idx = None;
    self.scroll = None;
    self.flash(String::from_str("focus mode off"));
    FocusAction::Nothing
            },
            KeyCode::Char('j') | KeyCode::Down => {
    self.focus_idx = Some(
        if cur < last {
            cur + 1
        } else {
            last
        },
    );
    FocusAction::Nothing
            },
            KeyCode::Char('k') | KeyCode::Up => {
    self.focus_idx = Some(cur.saturating_sub(1));
    FocusAction::Nothing
            },
            KeyCode::Char('g') | KeyCode::Home => {
    self.focus_idx = Some(0);
    FocusAction::Nothing
            },
            KeyCode::Char('G') | KeyCode::End => {
    self.focus_idx = Some(last);
    FocusAction::Nothing
            },
            KeyCode::PageDown => {
    self.focus_idx = Some(
        if last >= 5 && cur <= last - 5 {
            cur + 5
        } else {
            last
        },
    );
    FocusAction::Nothing
            },
            KeyCode::PageUp => {
    self.focus_idx = Some(cur.saturating_sub(5));
    FocusAction::Nothing
            },
            KeyCode::Enter | KeyCode::Char(' ') => {
    if cur < n {
        let id = match &self.transcript.entries()[cur] {
            Entry::ToolCall(tc) => Some(tc.id.clone()),
            _ => None,
        };
        if let Some(id) = id {
            self.transcript.toggle_tool_expanded(id.as_str());
        }
    }
    FocusAction::Nothing
            },
            KeyCode::Char('y') | KeyCode::Char('c') => {
    if cur < n {
        FocusAction::Copy(cur)
    } else {
        FocusAction::Nothing
    }
            },
            KeyCode::Char('q') => {
    self.focus_idx = None;
    FocusAction::Nothing
            },
            _ => FocusAction::Nothing,
        }
    }
}

} // verus!

verus! {

/// Every event is stamped with the current tick and leaves the clock and
/// the throughput window as they were, so a well-formed state stays well
/// formed.
pub proof fn lemma_event_stamps_tick(a: App, ev: Incoming, b: App, out: Seq<Notice>)
    requires
        reduces(a, ev, b, out),
    ensures
        b.status.last_event_tick == a.status.ticks,
        b.status.ticks == a.status.ticks,
        b.status.throughput == a.status.throughput,
        a.wf() ==> b.wf(),
{
    match ev {
        Incoming::MessageUpdate { event } => match event {
            _ => {},
        },
        _ => {},
    }
}

/// A tool call that starts and then ends leaves one new card, at the
/// end of the transcript, holding the call's name and arguments, the
/// final output and the status the end reported; the running count is
/// back where it was.
pub proof fn lemma_tool_call_round_trip(
    a: App,
    id: String,
    name: String,
    args: Json,
    b: App,
    started: Seq<Notice>,
    end_id: String,
    result: Vec<ContentBlock>,
    is_error: bool,
    c: App,
    ended: Seq<Notice>,
)
    requires
        reduces(a, Incoming::ToolExecutionStart { tool_call_id: id, tool_name: name, args }, b, started),
        reduces(b, Incoming::ToolExecutionEnd { tool_call_id: end_id, result, is_error }, c, ended),
        end_id@ == id@,
        a.tool_running < u32::MAX,
    ensures
        c.tool_running == a.tool_running,
        c.transcript@.len() == a.transcript@.len() + 1,
        c.transcript@.drop_last() == a.transcript@,
        c.transcript@.last() matches Entry::ToolCall(tc) && tc.id@ == id@ && tc.name@ == name@
            && tc.args == args && tc.output@ == join_lines(text_blocks(result@)) && tc.status == (
        if is_error {
            ToolStatus::Failed
        } else {
            ToolStatus::Succeeded
        }) && tc.is_error == is_error && !tc.expanded,
{
    let k = a.transcript@.len() as int;
    assert(b.transcript@.drop_last() == a.transcript@);
    assert(is_last_tool(b.transcript@, id@, k));
    crate::transcript::lemma_last_tool_unique(b.transcript@, id@, k);
    assert forall|j: int| 0 <= j < k implies #[trigger] c.transcript@.drop_last()[j]
        == a.transcript@[j] by {
        assert(c.transcript@[j] == b.transcript@[j]);
        assert(b.transcript@[j] == b.transcript@.drop_last()[j]);
    }
    assert(c.transcript@.drop_last() =~= a.transcript@);
}

/// Two pieces of assistant text streamed one after the other leave the
/// transcript as streaming them joined in one piece does: one assistant
/// entry holding both.
pub proof fn lemma_text_deltas_concatenate(
    a: App,
    d1: String,
    b: App,
    o1: Seq<Notice>,
    d2: String,
    c: App,
    o2: Seq<Notice>,
    d: String,
    e: App,
    o3: Seq<Notice>,
)
    requires
        reduces(a, Incoming::MessageUpdate { event: AssistantEvent::TextDelta { delta: d1 } }, b, o1),
        reduces(b, Incoming::MessageUpdate { event: AssistantEvent::TextDelta { delta: d2 } }, c, o2),
        reduces(a, Incoming::MessageUpdate { event: AssistantEvent::TextDelta { delta: d } }, e, o3),
        d@ == d1@ + d2@,
    ensures
        c.transcript@.len() == e.transcript@.len(),
        c.transcript@.drop_last() == e.transcript@.drop_last(),
        c.transcript@.last() is Assistant,
        e.transcript@.last() is Assistant,
        text_of(c.transcript@.last()) == text_of(e.transcript@.last()),
{
    let n = a.transcript@.len() as int;
    if n > 0 && a.transcript@.last() is Assistant {
        assert(c.transcript@.drop_last() =~= e.transcript@.drop_last());
    } else {
        assert(b.transcript@.len() > 0 && b.transcript@.last() is Assistant);
        assert forall|j: int| 0 <= j < n implies #[trigger] c.transcript@.drop_last()[j]
            == e.transcript@.drop_last()[j] by {
            assert(c.transcript@[j] == b.transcript@[j]);
            assert(b.transcript@[j] == a.transcript@[j]);
            assert(e.transcript@[j] == a.transcript@[j]);
        }
        assert(c.transcript@.drop_last() =~= e.transcript@.drop_last());
    }
}

/// An automatic retry that starts and then ends leaves one new entry, at
/// the end, for that attempt, holding its outcome; the live state then
/// says whether the LLM works again.
pub proof fn lemma_retry_round_trip(
    a: App,
    attempt: u32,
    max_attempts: u32,
    delay_ms: u64,
    error_message: Option<String>,
    b: App,
    o1: Seq<Notice>,
    success: bool,
    final_error: Option<String>,
    c: App,
    o2: Seq<Notice>,
)
    requires
        reduces(
            a,
            Incoming::AutoRetryStart { attempt, max_attempts, delay_ms, error_message },
            b,
            o1,
        ),
        reduces(b, Incoming::AutoRetryEnd { success, attempt, final_error }, c, o2),
    ensures
        c.transcript@.len() == a.transcript@.len() + 1,
        c.transcript@.drop_last() == a.transcript@,
        c.transcript@.last() matches Entry::Retry(r) && r.attempt == attempt && r.max_attempts
            == max_attempts && if success {
            r.state is Succeeded
        } else {
            r.state matches RetryState::Exhausted(x) && x@ == or_default(final_error, "unknown"@)
        },
        c.status.live == (if success && a.is_streaming {
            LiveState::Llm
        } else {
            LiveState::Idle
        }),
{
    let k = a.transcript@.len() as int;
    assert(b.transcript@.drop_last() == a.transcript@);
    assert(is_last_retry(b.transcript@, attempt, k));
    let i = choose|i: int| is_last_retry(b.transcript@, attempt, i);
    assert(is_last_retry(b.transcript@, attempt, i));
    if i < k {
        assert(!(b.transcript@[k] matches Entry::Retry(r) && r.attempt == attempt));
    }
    assert(i == k);
    assert forall|j: int| 0 <= j < k implies #[trigger] c.transcript@.drop_last()[j]
        == a.transcript@[j] by {
        assert(c.transcript@[j] == b.transcript@[j]);
        assert(b.transcript@[j] == b.transcript@.drop_last()[j]);
    }
    assert(c.transcript@.drop_last() =~= a.transcript@);
}

/// A compaction that starts and then ends leaves one entry, at the end,
/// holding the final reason and outcome; no second entry is added.
pub proof fn lemma_compaction_round_trip(
    a: App,
    reason: String,
    b: App,
    o1: Seq<Notice>,
    end_reason: String,
    summary: Option<String>,
    aborted: bool,
    error_message: Option<String>,
    c: App,
    o2: Seq<Notice>,
)
    requires
        reduces(a, Incoming::CompactionStart { reason }, b, o1),
        reduces(
            b,
            Incoming::CompactionEnd { reason: end_reason, summary, aborted, error_message },
            c,
            o2,
        ),
    ensures
        c.transcript@.len() == a.transcript@.len() + 1,
        c.transcript@.drop_last() == a.transcript@,
        c.transcript@.last() matches Entry::Compaction(x) && x.reason@ == end_reason@
            && compaction_outcome(x.state, aborted, opt_view(error_message), opt_view(summary)),
{
    let k = a.transcript@.len() as int;
    assert(b.transcript@.drop_last() == a.transcript@);
    assert(is_last_running_compaction(b.transcript@, k));
    let i = choose|i: int| is_last_running_compaction(b.transcript@, i);
    assert(is_last_running_compaction(b.transcript@, i));
    if i < k {
        assert(!(b.transcript@[k] matches Entry::Compaction(x) && x.state is Running));
    }
    assert(i == k);
    assert forall|j: int| 0 <= j < k implies #[trigger] c.transcript@.drop_last()[j]
        == a.transcript@[j] by {
        assert(c.transcript@[j] == b.transcript@[j]);
        assert(b.transcript@[j] == b.transcript@.drop_last()[j]);
    }
    assert(c.transcript@.drop_last() =~= a.transcript@);
}

} // verus!

verus! {

/// The session state the agent reports.
pub struct AgentState {
    /// The active model's provider and id.
    pub model: Option<(String, String)>,
    /// The thinking level by name.
    pub thinking_level: String,
    pub steering_mode: crate::settings::QueueMode,
    pub follow_up_mode: crate::settings::QueueMode,
    pub auto_compaction_enabled: bool,
    pub session_name: Option<String>,
}

impl App {
    /// Take over the session state the agent reported: the model label
    /// becomes `<provider>/<id>` when a model is given, and the thinking
    /// level, queue modes, compaction switch and session name are
    /// replaced.
    pub fn apply_state(&mut self, s: AgentState)
        ensures
            match s.model {
                Some((p, i)) => final(self).session.model_label@ == p@ + "/"@ + i@,
                None => final(self).session.model_label == old(self).session.model_label,
            },
            final(self).session.thinking == Some(s.thinking_level),
            final(self).session.steering_mode == Some(s.steering_mode),
            final(self).session.follow_up_mode == Some(s.follow_up_mode),
            final(self).session.auto_compaction == Some(s.auto_compaction_enabled),
            final(self).session.session_name == s.session_name,
            final(self).session.auto_retry == old(self).session.auto_retry,
            keeps_run(*old(self), *final(self)) && keeps_tools(*old(self), *final(self)),
            keeps_turn(*old(self), *final(self)) && keeps_queues(*old(self), *final(self)),
            final(self).transcript == old(self).transcript,
            final(self).status == old(self).status,
            final(self).prefs == old(self).prefs,
            final(self).notify_enabled == old(self).notify_enabled,
            final(self).focus_idx == old(self).focus_idx,
            final(self).scroll == old(self).scroll,
            final(self).flash == old(self).flash,
    {
        match s.model {
            Some((p, i)) => {
                self.session.model_label = concat3(p.as_str(), "/", i.as_str());
            },
            None => {},
        }
        self.session.thinking = Some(s.thinking_level);
        self.session.steering_mode = Some(s.steering_mode);
        self.session.follow_up_mode = Some(s.follow_up_mode);
        self.session.auto_compaction = Some(s.auto_compaction_enabled);
        self.session.session_name = s.session_name;
    }

    /// Rebuild the transcript from the agent's message history, oldest
    /// first; nothing else changes.
    pub fn import_messages(&mut self, messages: Vec<AgentMessage>)
        ensures
            crate::import::imported(old(self).transcript, messages@, final(self).transcript),
            keeps_run(*old(self), *final(self)) && keeps_tools(*old(self), *final(self)),
            keeps_turn(*old(self), *final(self)) && keeps_queues(*old(self), *final(self)),
            final(self).status == old(self).status,
            final(self).session == old(self).session,
            final(self).prefs == old(self).prefs,
            final(self).notify_enabled == old(self).notify_enabled,
            final(self).focus_idx == old(self).focus_idx,
            final(self).scroll == old(self).scroll,
            final(self).flash == old(self).flash,
    {
        crate::import::import_messages(&mut self.transcript, messages);
    }
}

} // verus!
