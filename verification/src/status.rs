//! Live status signals: what the agent is doing right now, how long it has
//! been doing it, the per-second token throughput window and the event
//! heartbeat.

use vstd::prelude::*;
use std::collections::VecDeque;

verus! {

/// Throughput buckets kept: one per second for the last minute.
pub const THROUGHPUT_WINDOW: usize = 60;

/// Ticks per second of the UI clock.
pub const TICKS_PER_SEC: u64 = 10;

/// What the agent is doing right now.
#[derive(Clone, Copy, Debug, PartialEq, Eq, Structural)]
pub enum LiveState {
    Idle,
    Sending,
    Llm,
    Thinking,
    Tool,
    Streaming,
    Compacting,
    Retrying { attempt: u32, max_attempts: u32, delay_ms: u64 },
    Error,
}

impl LiveState {
    /// The label of each state in the status widget.
    pub open spec fn label_spec(self) -> Seq<char> {
        match self {
            LiveState::Idle => "idle"@,
            LiveState::Sending => "sending"@,
            LiveState::Llm => "llm"@,
            LiveState::Thinking => "thinking"@,
            LiveState::Tool => "tool"@,
            LiveState::Streaming => "streaming"@,
            LiveState::Compacting => "compacting"@,
            LiveState::Retrying { .. } => "retrying"@,
            LiveState::Error => "error"@,
        }
    }

    pub fn label(self) -> (r: &'static str)
        ensures
            r@ == self.label_spec(),
    {
        match self {
            LiveState::Idle => "idle",
            LiveState::Sending => "sending",
            LiveState::Llm => "llm",
            LiveState::Thinking => "thinking",
            LiveState::Tool => "tool",
            LiveState::Streaming => "streaming",
            LiveState::Compacting => "compacting",
            LiveState::Retrying { .. } => "retrying",
            LiveState::Error => "error",
        }
    }

    /// Every state but idle and error animates the spinner.
    pub fn wants_spinner(self) -> (r: bool)
        ensures
            r == !(self is Idle || self is Error),
    {
        match self {
            LiveState::Idle | LiveState::Error => false,
            _ => true,
        }
    }
}

/// What the composer sends on submit.
#[derive(Clone, Copy, Debug, PartialEq, Eq, Structural)]
pub enum ComposerMode {
    Prompt,
    Steer,
    FollowUp,
}

impl ComposerMode {
    /// The mode after Ctrl+Space while streaming.
    pub open spec fn cycle_stream_spec(self) -> ComposerMode {
        match self {
            ComposerMode::Prompt | ComposerMode::FollowUp => ComposerMode::Steer,
            ComposerMode::Steer => ComposerMode::FollowUp,
        }
    }

    /// Ctrl+Space while streaming: steer, then follow-up, then steer again.
    pub fn cycle_stream(self) -> (r: ComposerMode)
        ensures
            r == self.cycle_stream_spec(),
    {
        match self {
            ComposerMode::Prompt | ComposerMode::FollowUp => ComposerMode::Steer,
            ComposerMode::Steer => ComposerMode::FollowUp,
        }
    }
}

/// How focused transcript cards stand out.
#[derive(Clone, Copy, Debug, PartialEq, Eq, Structural)]
pub enum FocusMarkerStyle {
    Both,
    BorderOnly,
    MarkerOnly,
}

impl FocusMarkerStyle {
    /// The next style in the settings cycle.
    pub fn cycle(self) -> (r: FocusMarkerStyle)
        ensures
            r == (match self {
                FocusMarkerStyle::Both => FocusMarkerStyle::BorderOnly,
                FocusMarkerStyle::BorderOnly => FocusMarkerStyle::MarkerOnly,
                FocusMarkerStyle::MarkerOnly => FocusMarkerStyle::Both,
            }),
    {
        match self {
            FocusMarkerStyle::Both => FocusMarkerStyle::BorderOnly,
            FocusMarkerStyle::BorderOnly => FocusMarkerStyle::MarkerOnly,
            FocusMarkerStyle::MarkerOnly => FocusMarkerStyle::Both,
        }
    }

    pub fn label(self) -> (r: &'static str)
        ensures
            r@ == (match self {
                FocusMarkerStyle::Both => "border + marker"@,
                FocusMarkerStyle::BorderOnly => "border only"@,
                FocusMarkerStyle::MarkerOnly => "marker only"@,
            }),
    {
        match self {
            FocusMarkerStyle::Both => "border + marker",
            FocusMarkerStyle::BorderOnly => "border only",
            FocusMarkerStyle::MarkerOnly => "marker only",
        }
    }

    /// The focused card gets a double border.
    pub fn show_double_border(self) -> (r: bool)
        ensures
            r == (self is Both || self is BorderOnly),
    {
        match self {
            FocusMarkerStyle::Both | FocusMarkerStyle::BorderOnly => true,
            FocusMarkerStyle::MarkerOnly => false,
        }
    }

    /// The focused card gets a ▶ marker.
    pub fn show_marker(self) -> (r: bool)
        ensures
            r == (self is Both || self is MarkerOnly),
    {
        match self {
            FocusMarkerStyle::Both | FocusMarkerStyle::MarkerOnly => true,
            FocusMarkerStyle::BorderOnly => false,
        }
    }
}

/// Three presses of cycle bring every focus-marker style back to itself.
pub proof fn lemma_focus_marker_cycle_period(s: FocusMarkerStyle)
    ensures
        ({
            let next = |x: FocusMarkerStyle|
                match x {
                    FocusMarkerStyle::Both => FocusMarkerStyle::BorderOnly,
                    FocusMarkerStyle::BorderOnly => FocusMarkerStyle::MarkerOnly,
                    FocusMarkerStyle::MarkerOnly => FocusMarkerStyle::Both,
                };
            &&& next(next(next(s))) == s
            &&& next(s) != s
        }),
{
}

/// The kind of a footer toast; it picks the toast colour.
#[derive(Clone, Copy, Debug, PartialEq, Eq, Structural)]
pub enum FlashKind {
    Info,
    Success,
    Warn,
    Error,
}

/// How fresh the event stream is, for the header heartbeat dot.
#[derive(Clone, Copy, Debug, PartialEq, Eq, Structural)]
pub enum Heartbeat {
    /// Nothing is running.
    Resting,
    /// An event arrived in the last 3 ticks.
    Fresh,
    /// Quiet for under 100 ticks while running.
    Waiting,
    /// Quiet for 100 ticks or more while running.
    Silent,
}

} // verus!

verus! {

/// The last `THROUGHPUT_WINDOW` buckets of `s`.
pub open spec fn window(s: Seq<u32>) -> Seq<u32> {
    if s.len() > THROUGHPUT_WINDOW {
        s.skip(s.len() - THROUGHPUT_WINDOW)
    } else {
        s
    }
}

/// The buckets a tick appends when `k >= 1` seconds have passed: the
/// tokens counted in the current second, then a zero for every further
/// second.
pub open spec fn new_buckets(tokens: u32, k: int) -> Seq<u32> {
    seq![tokens] + Seq::new((k - 1) as nat, |i: int| 0u32)
}

/// Sum of a run of buckets.
pub open spec fn sum_buckets(s: Seq<u32>) -> int
    decreases s.len(),
{
    if s.len() == 0 {
        0
    } else {
        sum_buckets(s.drop_last()) + s.last()
    }
}

/// `b` is `a` after the throughput window was rolled forward to the
/// current second: the tokens counted so far fill the bucket of the second
/// that ended, every further elapsed second gets an empty bucket, and only
/// the last minute of buckets is kept. Nothing else changes.
pub open spec fn rolled(a: LiveStatus, b: LiveStatus) -> bool {
    let sec = a.ticks / TICKS_PER_SEC;
    let k = sec - a.last_sec_tick;
    &&& if k > 0 {
        &&& b.throughput@ == window(a.throughput@ + new_buckets(a.tokens_this_sec, k))
        &&& b.tokens_this_sec == 0
        &&& b.last_sec_tick == sec
    } else {
        &&& b.throughput == a.throughput
        &&& b.tokens_this_sec == a.tokens_this_sec
        &&& b.last_sec_tick == a.last_sec_tick
    }
    &&& b.ticks == a.ticks
    &&& b.live == a.live
    &&& b.live_since_tick == a.live_since_tick
    &&& b.last_event_tick == a.last_event_tick
}

/// `b` is `a` after an incoming event: the event is stamped with the
/// current tick, `tokens` more tokens are counted (saturating), and the
/// live state becomes `live` when one is given, its timer restarting only
/// on a real change.
pub open spec fn stepped(a: LiveStatus, b: LiveStatus, live: Option<LiveState>, tokens: u32) -> bool {
    &&& b.ticks == a.ticks
    &&& b.last_event_tick == a.ticks
    &&& b.tokens_this_sec == a.tokens_this_sec.saturating_add(tokens)
    &&& b.throughput == a.throughput
    &&& b.last_sec_tick == a.last_sec_tick
    &&& match live {
        None => b.live == a.live && b.live_since_tick == a.live_since_tick,
        Some(s) => b.live == s && b.live_since_tick == (if a.live != s {
            a.ticks
        } else {
            a.live_since_tick
        }),
    }
}

/// The live-status signals behind the status widget and header.
pub struct LiveStatus {
    /// UI clock, one tick per 100 ms.
    pub ticks: u64,
    pub live: LiveState,
    /// Tick at which `live` last changed.
    pub live_since_tick: u64,
    /// Tokens seen in the current second.
    pub tokens_this_sec: u32,
    /// Tokens per second for the last minute, oldest first.
    pub throughput: VecDeque<u32>,
    /// The second (tick / 10) the window was last rolled to.
    pub last_sec_tick: u64,
    /// Tick of the most recent incoming event.
    pub last_event_tick: u64,
}

impl LiveStatus {
    /// The window never holds more than a minute of buckets.
    pub open spec fn wf(&self) -> bool {
        self.throughput@.len() <= THROUGHPUT_WINDOW
    }

    /// Idle at tick 0 with an empty window.
    pub fn new() -> (s: LiveStatus)
        ensures
            s.wf(),
            s.ticks == 0,
            s.live == LiveState::Idle,
            s.live_since_tick == 0,
            s.tokens_this_sec == 0,
            s.throughput@ == Seq::<u32>::empty(),
            s.last_sec_tick == 0,
            s.last_event_tick == 0,
    {
        LiveStatus {
            ticks: 0,
            live: LiveState::Idle,
            live_since_tick: 0,
            tokens_this_sec: 0,
            throughput: VecDeque::new(),
            last_sec_tick: 0,
            last_event_tick: 0,
        }
    }

    /// `t` is `self` switched to live state `s`: the timer restarts only
    /// on a real change.
    pub open spec fn live_set(self, t: LiveStatus, s: LiveState) -> bool {
        &&& t.live == s
        &&& t.live_since_tick == (if self.live != s {
            self.ticks
        } else {
            self.live_since_tick
        })
        &&& t.ticks == self.ticks && t.tokens_this_sec == self.tokens_this_sec
        &&& t.throughput == self.throughput && t.last_sec_tick == self.last_sec_tick
        &&& t.last_event_tick == self.last_event_tick
    }

    /// Switch the live state; the timer restarts only on a real change.
    pub fn set_live(&mut self, s: LiveState)
        ensures
            old(self).live != s ==> final(self).live == s && final(self).live_since_tick
                == old(self).ticks,
            old(self).live == s ==> final(self).live_since_tick == old(self).live_since_tick,
            final(self).live == s,
            final(self).ticks == old(self).ticks,
            final(self).tokens_this_sec == old(self).tokens_this_sec,
            final(self).throughput == old(self).throughput,
            final(self).last_sec_tick == old(self).last_sec_tick,
            final(self).last_event_tick == old(self).last_event_tick,
    {
        if self.live != s {
            self.live = s;
            self.live_since_tick = self.ticks;
        }
    }

    /// Count `n` more tokens in the current second, saturating.
    pub fn push_tokens(&mut self, n: u32)
        ensures
            final(self).tokens_this_sec == old(self).tokens_this_sec.saturating_add(n),
            final(self).ticks == old(self).ticks,
            final(self).live == old(self).live,
            final(self).live_since_tick == old(self).live_since_tick,
            final(self).throughput == old(self).throughput,
            final(self).last_sec_tick == old(self).last_sec_tick,
            final(self).last_event_tick == old(self).last_event_tick,
    {
        self.tokens_this_sec = self.tokens_this_sec.saturating_add(n);
    }

    /// Note that an event arrived now.
    pub fn event_received(&mut self)
        ensures
            final(self).last_event_tick == old(self).ticks,
            final(self).ticks == old(self).ticks,
            final(self).live == old(self).live,
            final(self).live_since_tick == old(self).live_since_tick,
            final(self).tokens_this_sec == old(self).tokens_this_sec,
            final(self).throughput == old(self).throughput,
            final(self).last_sec_tick == old(self).last_sec_tick,
    {
        self.last_event_tick = self.ticks;
    }

    /// Record an incoming event: stamp it, count `tokens` more tokens and,
    /// when `live` is given, switch the live state to it.
    pub fn step(&mut self, live: Option<LiveState>, tokens: u32)
        ensures
            stepped(*old(self), *final(self), live, tokens),
    {
        self.event_received();
        self.push_tokens(tokens);
        match live {
            Some(s) => self.set_live(s),
            None => {},
        }
    }

    /// Roll the per-second throughput window forward to the current
    /// second: the tokens counted so far fill the bucket of the second
    /// that ended, every further elapsed second gets an empty bucket, and
    /// only the last minute of buckets is kept.
    pub fn tick_status(&mut self)
        requires
            old(self).wf(),
        ensures
            final(self).wf(),
            rolled(*old(self), *final(self)),
    {
        let sec = self.ticks / TICKS_PER_SEC;
        if sec > self.last_sec_tick {
            let ghost start = self.throughput@;
            let ghost tokens = self.tokens_this_sec;
            let mut s = self.last_sec_tick;
            while s < sec
                invariant
                    start == old(self).throughput@,
                    tokens == old(self).tokens_this_sec,
                    start.len() <= THROUGHPUT_WINDOW,
                    self.ticks == old(self).ticks,
                    self.live == old(self).live,
                    self.live_since_tick == old(self).live_since_tick,
                    self.last_event_tick == old(self).last_event_tick,
                    self.last_sec_tick == old(self).last_sec_tick,
                    self.last_sec_tick <= s <= sec,
                    sec == self.ticks / TICKS_PER_SEC,
                    self.throughput@.len() <= THROUGHPUT_WINDOW,
                    s == self.last_sec_tick ==> self.throughput@ == start && self.tokens_this_sec
                        == tokens,
                    s > self.last_sec_tick ==> self.throughput@ == window(
                        start + new_buckets(tokens, s - self.last_sec_tick),
                    ) && self.tokens_this_sec == 0,
                decreases sec - s,
            {
                let ghost before = self.throughput@;
                let t = self.tokens_this_sec;
                self.tokens_this_sec = 0;
                self.throughput.push_back(t);
                if self.throughput.len() > THROUGHPUT_WINDOW {
                    self.throughput.pop_front();
                }
                proof {
                    lemma_window_push(start, tokens, (s - self.last_sec_tick) as int, before);
                }
                s += 1;
            }
            self.last_sec_tick = sec;
        }
    }

    /// Mean tokens per second over the window (0 when it is empty).
    pub fn recent_avg_throughput(&self) -> (r: u32)
        requires
            self.wf(),
            sum_buckets(self.throughput@) <= u32::MAX,
        ensures
            self.throughput@.len() == 0 ==> r == 0,
            self.throughput@.len() > 0 ==> r == sum_buckets(self.throughput@)
                / self.throughput@.len() as int,
    {
        let n = self.throughput.len();
        if n == 0 {
            return 0;
        }
        let mut sum: u32 = 0;
        let mut i: usize = 0;
        while i < n
            invariant
                n == self.throughput@.len(),
                i <= n,
                sum == sum_buckets(self.throughput@.take(i as int)),
                sum_buckets(self.throughput@) <= u32::MAX,
            decreases n - i,
        {
            proof {
                assert(self.throughput@.take(i + 1).drop_last() =~= self.throughput@.take(i as int));
                lemma_sum_prefix_le(self.throughput@, i + 1);
            }
            sum = sum + self.throughput[i];
            i += 1;
        }
        proof {
            assert(self.throughput@.take(n as int) =~= self.throughput@);
        }
        sum / (n as u32)
    }

    /// Ticks since the live state last changed.
    pub fn ticks_since_live(&self) -> (r: u64)
        ensures
            r == self.ticks.saturating_sub(self.live_since_tick),
    {
        self.ticks.saturating_sub(self.live_since_tick)
    }

    /// Milliseconds since the live state last changed (100 ms per tick).
    pub fn elapsed_since_live_ms(&self) -> (r: u64)
        requires
            self.ticks.saturating_sub(self.live_since_tick) * 100 <= u64::MAX,
        ensures
            r == self.ticks.saturating_sub(self.live_since_tick) * 100,
    {
        self.ticks.saturating_sub(self.live_since_tick) * 100
    }

    /// Freshness of the event stream: resting while idle, then fresh under
    /// 3 ticks of silence, waiting under 100, silent beyond.
    pub fn heartbeat(&self) -> (r: Heartbeat)
        ensures
            ({
                let delta = self.ticks.saturating_sub(self.last_event_tick);
                r == if self.live == LiveState::Idle {
                    Heartbeat::Resting
                } else if delta < 3 {
                    Heartbeat::Fresh
                } else if delta < 100 {
                    Heartbeat::Waiting
                } else {
                    Heartbeat::Silent
                }
            }),
    {
        let delta = self.ticks.saturating_sub(self.last_event_tick);
        if self.live == LiveState::Idle {
            Heartbeat::Resting
        } else if delta < 3 {
            Heartbeat::Fresh
        } else if delta < 100 {
            Heartbeat::Waiting
        } else {
            Heartbeat::Silent
        }
    }
}

/// A prefix of the buckets sums to no more than the whole window.
pub proof fn lemma_sum_prefix_le(s: Seq<u32>, i: int)
    requires
        0 <= i <= s.len(),
    ensures
        sum_buckets(s.take(i)) <= sum_buckets(s),
    decreases s.len() - i,
{
    if i < s.len() {
        lemma_sum_prefix_le(s, i + 1);
        assert(s.take(i + 1).drop_last() =~= s.take(i));
    } else {
        assert(s.take(i) =~= s);
    }
}

/// One more second rolled into the window.
proof fn lemma_window_push(start: Seq<u32>, tokens: u32, j: int, before: Seq<u32>)
    requires
        start.len() <= THROUGHPUT_WINDOW,
        j >= 0,
        j == 0 ==> before == start,
        j > 0 ==> before == window(start + new_buckets(tokens, j)),
    ensures
        window(before.push(if j == 0 { tokens } else { 0u32 })) == window(
            start + new_buckets(tokens, j + 1),
        ),
{
    let full = start + new_buckets(tokens, j + 1);
    if j == 0 {
        assert(new_buckets(tokens, 1) =~= seq![tokens]);
        assert(start.push(tokens) =~= full);
    } else {
        let prev = start + new_buckets(tokens, j);
        assert(full =~= prev.push(0u32));
        if prev.len() > THROUGHPUT_WINDOW {
            assert(window(prev).push(0u32) =~= prev.skip(prev.len() - THROUGHPUT_WINDOW).push(0u32));
            assert(window(window(prev).push(0u32)) =~= window(prev.push(0u32)));
        }
    }
}

} // verus!
