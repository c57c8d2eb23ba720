//! Mouse hit-testing: the regions the last frame drew, and what a click
//! or a wheel turn does with them.

use vstd::prelude::*;
use vstd::string::*;

use crate::app::{App, keeps_core};
use crate::settings::flashed;
use crate::status::FlashKind;
use crate::transcript::{Entry, tool_toggled};

verus! {

/// A screen rectangle in cells.
#[derive(Clone, Copy, Debug, PartialEq, Eq, Structural)]
pub struct Rect {
    pub x: u16,
    pub y: u16,
    pub width: u16,
    pub height: u16,
}

/// Cell `(x, y)` lies inside `r`.
pub open spec fn inside(r: Rect, x: u16, y: u16) -> bool {
    r.x <= x < r.x + r.width && r.y <= y < r.y + r.height
}

/// Whether cell `(x, y)` lies inside `r`.
pub fn rect_contains(r: Rect, x: u16, y: u16) -> (b: bool)
    ensures
        b == inside(r, x, y),
{
    let right = r.x as u32 + r.width as u32;
    let bottom = r.y as u32 + r.height as u32;
    x >= r.x && (x as u32) < right && y >= r.y && (y as u32) < bottom
}

/// What a clickable region of a dialog stands for.
#[derive(Clone, Copy, Debug, PartialEq, Eq, Structural)]
pub enum ChipTag {
    PlanReviewAccept,
    PlanReviewEdit,
    PlanReviewDeny,
    /// The `i`th step in the plan review's edit mode.
    PlanReviewEditStep(usize),
    /// Row `i` of the settings rows.
    SettingsRow(usize),
    /// Row `i` of a filtered list.
    ListRow(usize),
    /// Option `i` of the thinking-level picker.
    ThinkingOption(usize),
    /// Option `i` of an extension's select.
    ExtSelectOption(usize),
    ExtConfirmYes,
    ExtConfirmNo,
}

/// The clickable regions of the last frame.
pub struct MouseMap {
    /// The transcript body.
    pub body_rect: Rect,
    /// `(first row, row past the last, entry index)` of each visible card.
    pub visible: Vec<(u16, u16, usize)>,
    /// The "live tail" chip, when shown.
    pub live_tail_chip: Option<Rect>,
    /// The open dialog's clickable regions, in drawing order.
    pub modal_chips: Vec<(Rect, ChipTag)>,
    /// The open dialog's bounds.
    pub modal_area: Option<Rect>,
}

/// The entry whose rows hold row `y`, the first in drawing order.
pub open spec fn entry_row(visible: Seq<(u16, u16, usize)>, y: u16) -> Option<usize>
    decreases visible.len(),
{
    if visible.len() == 0 {
        None
    } else if visible[0].0 <= y < visible[0].1 {
        Some(visible[0].2)
    } else {
        entry_row(visible.drop_first(), y)
    }
}

/// The chip holding cell `(x, y)`, the first in drawing order.
pub open spec fn chip_under(chips: Seq<(Rect, ChipTag)>, x: u16, y: u16) -> Option<ChipTag>
    decreases chips.len(),
{
    if chips.len() == 0 {
        None
    } else if inside(chips[0].0, x, y) {
        Some(chips[0].1)
    } else {
        chip_under(chips.drop_first(), x, y)
    }
}

impl Default for MouseMap {
    /// Nothing drawn yet.
    fn default() -> (m: MouseMap)
        ensures
            m.body_rect == (Rect { x: 0, y: 0, width: 0, height: 0 }),
            m.visible@ == Seq::<(u16, u16, usize)>::empty(),
            m.live_tail_chip is None,
            m.modal_chips@ == Seq::<(Rect, ChipTag)>::empty(),
            m.modal_area is None,
    {
        MouseMap {
            body_rect: Rect { x: 0, y: 0, width: 0, height: 0 },
            visible: Vec::new(),
            live_tail_chip: None,
            modal_chips: Vec::new(),
            modal_area: None,
        }
    }
}

impl MouseMap {
    /// Forget the regions of the last frame (the body stays).
    pub fn clear(&mut self)
        ensures
            final(self).body_rect == old(self).body_rect,
            final(self).visible@ == Seq::<(u16, u16, usize)>::empty(),
            final(self).live_tail_chip is None,
            final(self).modal_chips@ == Seq::<(Rect, ChipTag)>::empty(),
            final(self).modal_area is None,
    {
        self.visible.clear();
        self.live_tail_chip = None;
        self.modal_chips.clear();
        self.modal_area = None;
    }

    /// The transcript entry under cell `(x, y)`, if any.
    pub fn entry_at(&self, x: u16, y: u16) -> (r: Option<usize>)
        ensures
            r == (if inside(self.body_rect, x, y) {
                entry_row(self.visible@, y)
            } else {
                None
            }),
    {
        if !rect_contains(self.body_rect, x, y) {
            return None;
        }
        let mut i: usize = 0;
        proof {
            assert(self.visible@.skip(0) =~= self.visible@);
        }
        while i < self.visible.len()
            invariant
                i <= self.visible@.len(),
                inside(self.body_rect, x, y),
                entry_row(self.visible@, y) == entry_row(self.visible@.skip(i as int), y),
            decreases self.visible@.len() - i,
        {
            proof {
                assert(self.visible@.skip(i as int).drop_first() =~= self.visible@.skip(i + 1));
                assert(self.visible@.skip(i as int)[0] == self.visible@[i as int]);
            }
            let (y0, y1, idx) = self.visible[i];
            if y >= y0 && y < y1 {
                return Some(idx);
            }
            i += 1;
        }
        proof {
            assert(self.visible@.skip(i as int) =~= Seq::<(u16, u16, usize)>::empty());
        }
        None
    }

    /// The dialog chip under cell `(x, y)`, the first drawn if several.
    pub fn chip_at(&self, x: u16, y: u16) -> (r: Option<ChipTag>)
        ensures
            r == chip_under(self.modal_chips@, x, y),
    {
        let mut i: usize = 0;
        proof {
            assert(self.modal_chips@.skip(0) =~= self.modal_chips@);
        }
        while i < self.modal_chips.len()
            invariant
                i <= self.modal_chips@.len(),
                chip_under(self.modal_chips@, x, y) == chip_under(self.modal_chips@.skip(i as int), x, y),
            decreases self.modal_chips@.len() - i,
        {
            proof {
                assert(self.modal_chips@.skip(i as int).drop_first() =~= self.modal_chips@.skip(i + 1));
            }
            let (r, tag) = self.modal_chips[i];
            if rect_contains(r, x, y) {
                return Some(tag);
            }
            i += 1;
        }
        proof {
            assert(self.modal_chips@.skip(i as int) =~= Seq::<(Rect, ChipTag)>::empty());
        }
        None
    }

    /// Register a dialog chip.
    pub fn push_chip(&mut self, rect: Rect, tag: ChipTag)
        ensures
            final(self).modal_chips@ == old(self).modal_chips@.push((rect, tag)),
            final(self).body_rect == old(self).body_rect,
            final(self).visible == old(self).visible,
            final(self).live_tail_chip == old(self).live_tail_chip,
            final(self).modal_area == old(self).modal_area,
    {
        self.modal_chips.push((rect, tag));
    }
}

/// What a click asks of the host.
#[derive(Clone, Copy, Debug, PartialEq, Eq, Structural)]
pub enum ClickOutcome {
    /// Nothing more to do.
    Nothing,
    /// Close the open dialog.
    CloseModal,
    /// Act on this chip of the open dialog.
    Chip(ChipTag),
}

/// What a click at `(x, y)` asks of the open dialog: a click outside
/// it closes it, one on a chip acts on the chip.
pub open spec fn modal_click_outcome(map: MouseMap, x: u16, y: u16) -> ClickOutcome {
    let on_chip = match chip_under(map.modal_chips@, x, y) {
        Some(t) => ClickOutcome::Chip(t),
        None => ClickOutcome::Nothing,
    };
    match map.modal_area {
        Some(area) => if !inside(area, x, y) {
            ClickOutcome::CloseModal
        } else {
            on_chip
        },
        None => on_chip,
    }
}

/// A click at `(x, y)` with no dialog open takes the app from `a` to `b`:
/// the live-tail chip re-pins the view and leaves focus mode; a click on
/// a card focuses it, and a second click on a focused tool card expands
/// or collapses it.
pub open spec fn clicked(a: App, b: App, map: MouseMap, x: u16, y: u16) -> bool {
    &&& b.status == a.status
    &&& if map.live_tail_chip matches Some(chip) && inside(chip, x, y) {
        &&& b.scroll is None && b.focus_idx is None
        &&& flashed(b.flash, "re-pinned live tail"@, a.status.ticks, FlashKind::Info)
        &&& keeps_core(a, b)
    } else {
        &&& b.scroll == a.scroll && b.flash == a.flash
        &&& match (if inside(map.body_rect, x, y) {
            entry_row(map.visible@, y)
        } else {
            None
        }) {
            Some(idx) => if a.focus_idx == Some(idx) && idx < a.transcript@.len()
                && a.transcript@[idx as int] is ToolCall {
                &&& b.focus_idx == a.focus_idx
                &&& tool_toggled(
                    a.transcript,
                    b.transcript,
                    a.transcript@[idx as int]->ToolCall_0.id@,
                )
                &&& b.status == a.status && b.notify_enabled == a.notify_enabled
                &&& crate::app::keeps_run(a, b) && crate::app::keeps_tools(a, b)
                &&& crate::app::keeps_turn(a, b) && crate::app::keeps_queues(a, b)
                &&& b.session == a.session && b.prefs == a.prefs
            } else {
                b.focus_idx == Some(idx) && keeps_core(a, b)
            },
            None => b == a,
        }
    }
}

/// A wheel turn over the transcript takes the app from `a` to `b`.
pub open spec fn wheeled(a: App, b: App, up: bool) -> bool {
    &&& b.scroll == Some(
        if up {
            (match a.scroll {
                Some(s) => s,
                None => u16::MAX,
            }).saturating_sub(4)
        } else {
            (match a.scroll {
                Some(s) => s,
                None => 0u16,
            }).saturating_add(4)
        },
    )
    &&& keeps_core(a, b)
    &&& b.status == a.status && b.focus_idx == a.focus_idx && b.flash == a.flash
}

impl App {
    /// A left click at `(x, y)`. With a dialog open, a click outside it
    /// closes it, one on a chip acts on the chip, and any other stays in
    /// the dialog. Without one: the live-tail chip re-pins the view and
    /// leaves focus mode; a click on a card focuses it, and a second
    /// click on a focused tool card expands or collapses it.
    pub fn on_mouse_click(&mut self, map: &MouseMap, x: u16, y: u16, modal_open: bool) -> (r:
        ClickOutcome)
        ensures
            if modal_open {
                *final(self) == *old(self) && r == modal_click_outcome(*map, x, y)
            } else {
                r is Nothing && clicked(*old(self), *final(self), *map, x, y)
            },
    {
        if modal_open {
            if let Some(area) = map.modal_area {
                if !rect_contains(area, x, y) {
                    return ClickOutcome::CloseModal;
                }
            }
            return match map.chip_at(x, y) {
                Some(t) => ClickOutcome::Chip(t),
                None => ClickOutcome::Nothing,
            };
        }
        if let Some(chip) = map.live_tail_chip {
            if rect_contains(chip, x, y) {
                self.scroll = None;
                self.focus_idx = None;
                self.flash(String::from_str("re-pinned live tail"));
                return ClickOutcome::Nothing;
            }
        }
        let idx = match map.entry_at(x, y) {
            Some(i) => i,
            None => {
                return ClickOutcome::Nothing;
            },
        };
        let n = self.transcript.entries().len();
        let tool_id = if idx < n {
            match &self.transcript.entries()[idx] {
                Entry::ToolCall(tc) => Some(tc.id.clone()),
                _ => None,
            }
        } else {
            None
        };
        match tool_id {
            Some(id) => {
                if self.focus_idx == Some(idx) {
                    self.transcript.toggle_tool_expanded(id.as_str());
                } else {
                    self.focus_idx = Some(idx);
                }
            },
            None => {
                self.focus_idx = Some(idx);
            },
        }
        ClickOutcome::Nothing
    }

    /// A wheel turn over the transcript (no dialog took it): up scrolls
    /// four rows back from the current offset (from the live tail when
    /// pinned), down four rows forward, both saturating.
    pub fn wheel(&mut self, up: bool)
        ensures
            wheeled(*old(self), *final(self), up),
    {
        if up {
            let cur = match self.scroll {
                Some(s) => s,
                None => u16::MAX,
            };
            self.scroll = Some(cur.saturating_sub(4));
        } else {
            let cur = match self.scroll {
                Some(s) => s,
                None => 0,
            };
            self.scroll = Some(cur.saturating_add(4));
        }
    }
}

/// A wheel turn of `delta` rows (negative up) applied to a dialog's
/// scroll offset, saturating; the row count is taken as a `u16`.
pub open spec fn bumped_scroll(scroll: u16, delta: i32) -> u16 {
    let m = ((if delta < 0 {
        -(delta as int)
    } else {
        delta as int
    }) % 0x10000) as u16;
    if delta < 0 {
        scroll.saturating_sub(m)
    } else {
        scroll.saturating_add(m)
    }
}

/// Scroll a dialog's offset by a wheel turn.
pub fn bump_scroll(scroll: u16, delta: i32) -> (r: u16)
    ensures
        r == bumped_scroll(scroll, delta),
{
    let a: u64 = if delta < 0 {
        (0i64 - delta as i64) as u64
    } else {
        delta as u64
    };
    let m = (a % 0x10000) as u16;
    if delta < 0 {
        scroll.saturating_sub(m)
    } else {
        scroll.saturating_add(m)
    }
}

} // verus!
