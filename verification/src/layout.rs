//! The layout of the transcript body: which scroll offset a frame shows,
//! which cards it draws where, and where the live-tail chip goes. Heights
//! are rows; every sum saturates at `u16::MAX`, as the drawing does.

use vstd::prelude::*;

use crate::mouse::Rect;

verus! {

/// `x` kept at most at `u16::MAX`.
pub open spec fn capped(x: int) -> int {
    if x > u16::MAX {
        u16::MAX as int
    } else {
        x
    }
}

/// The rows the first `n` cards take, stacked, saturating.
pub open spec fn stacked(hs: Seq<u16>, n: int) -> int
    decreases n,
{
    if n <= 0 {
        0
    } else {
        capped(stacked(hs, n - 1) + hs[n - 1])
    }
}

/// The largest offset: the rows that do not fit the viewport.
pub open spec fn max_offset(hs: Seq<u16>, vp: u16) -> int {
    let total = stacked(hs, hs.len() as int);
    if total > vp {
        total - vp
    } else {
        0
    }
}

/// The offset a frame shows: with a focused card, the one that puts its
/// middle in the middle of the viewport; else the bottom when following
/// the live tail, or the scroll the user chose; always at most the
/// largest offset.
pub open spec fn body_offset_spec(hs: Seq<u16>, vp: u16, focus: Option<usize>, scroll: Option<u16>) -> int {
    let n = hs.len() as int;
    let m = max_offset(hs, vp);
    match focus {
        Some(idx) => {
            let k = if idx < n {
                idx as int
            } else {
                n
            };
            let fh = if idx < n {
                hs[idx as int] as int
            } else {
                0
            };
            let mid = capped(stacked(hs, k) + fh / 2);
            let c = if mid > vp / 2 {
                mid - vp / 2
            } else {
                0
            };
            if c < m {
                c
            } else {
                m
            }
        },
        None => match scroll {
            None => m,
            Some(v) => if v < m {
                v as int
            } else {
                m
            },
        },
    }
}

proof fn lemma_stacked_bounds(hs: Seq<u16>, n: int)
    ensures
        0 <= stacked(hs, n) <= u16::MAX,
    decreases n,
{
    if n > 0 {
        lemma_stacked_bounds(hs, n - 1);
    }
}

/// The rows of the first `n` cards.
fn stacked_exec(heights: &Vec<u16>, n: usize) -> (r: u16)
    requires
        n <= heights@.len(),
    ensures
        r == stacked(heights@, n as int),
{
    let mut s: u16 = 0;
    let mut i: usize = 0;
    while i < n
        invariant
            i <= n <= heights@.len(),
            s == stacked(heights@, i as int),
        decreases n - i,
    {
        s = s.saturating_add(heights[i]);
        i += 1;
    }
    s
}

/// The scroll offset of the body for cards of `heights` rows in a
/// viewport of `viewport` rows (see `body_offset_spec`), and the largest
/// offset.
pub fn body_offset(heights: &Vec<u16>, viewport: u16, focus: Option<usize>, scroll: Option<u16>) -> (r: (
    u16,
    u16,
))
    ensures
        r.0 == body_offset_spec(heights@, viewport, focus, scroll),
        r.1 == max_offset(heights@, viewport),
{
    let n = heights.len();
    let total = stacked_exec(heights, n);
    let m = total.saturating_sub(viewport);
    let off = match focus {
        Some(idx) => {
            let k = if idx < n {
                idx
            } else {
                n
            };
            let fh = if idx < n {
                heights[idx]
            } else {
                0
            };
            let prefix = stacked_exec(heights, k);
            let mid = prefix.saturating_add(fh / 2);
            let c = mid.saturating_sub(viewport / 2);
            if c < m {
                c
            } else {
                m
            }
        },
        None => match scroll {
            None => m,
            Some(v) => if v < m {
                v
            } else {
                m
            },
        },
    };
    (off, m)
}

/// The cards drawn from card `i` on: `y` rows of cards lie above it and
/// `d` rows of the viewport are filled. Each drawn card gives its index,
/// the viewport row it starts on, the rows of its top scrolled off, and
/// the rows drawn. A card wholly above the offset is passed over; the
/// walk stops at the first card below the viewport, or once it is full.
pub open spec fn slots_from(hs: Seq<u16>, i: int, y: int, d: int, off: int, vp: int) -> Seq<
    (usize, u16, u16, u16),
>
    decreases hs.len() - i,
{
    if i < 0 || i >= hs.len() {
        Seq::empty()
    } else {
        let h = hs[i] as int;
        let bottom = capped(y + h);
        if bottom <= off {
            slots_from(hs, i + 1, bottom, d, off, vp)
        } else if y >= off + vp {
            Seq::empty()
        } else {
            let skip = if off > y {
                off - y
            } else {
                0
            };
            let rest = if h > skip {
                h - skip
            } else {
                0
            };
            let room = vp - d;
            let dh = if rest < room {
                rest
            } else {
                room
            };
            if dh <= 0 {
                Seq::empty()
            } else {
                seq![(i as usize, d as u16, skip as u16, dh as u16)] + if d + dh >= vp {
                    Seq::empty()
                } else {
                    slots_from(hs, i + 1, bottom, d + dh, off, vp)
                }
            }
        }
    }
}

/// Every card drawn ends within the viewport.
proof fn lemma_slots_fit(hs: Seq<u16>, i: int, y: int, d: int, off: int, vp: int)
    requires
        0 <= d <= vp <= u16::MAX,
        0 <= off <= u16::MAX,
    ensures
        forall|q: int|
            0 <= q < slots_from(hs, i, y, d, off, vp).len() ==> #[trigger] slots_from(hs, i, y, d, off, vp)[q].1
                + slots_from(hs, i, y, d, off, vp)[q].3 <= vp,
    decreases hs.len() - i,
{
    if !(i < 0 || i >= hs.len()) {
        let h = hs[i] as int;
        let bottom = capped(y + h);
        if bottom <= off {
            lemma_slots_fit(hs, i + 1, bottom, d, off, vp);
            assert(slots_from(hs, i, y, d, off, vp) == slots_from(hs, i + 1, bottom, d, off, vp));
        } else if !(y >= off + vp) {
            let skip = if off > y {
                off - y
            } else {
                0
            };
            let rest = if h > skip {
                h - skip
            } else {
                0
            };
            let room = vp - d;
            let dh = if rest < room {
                rest
            } else {
                room
            };
            if dh > 0 {
                let tail = if d + dh >= vp {
                    Seq::<(usize, u16, u16, u16)>::empty()
                } else {
                    slots_from(hs, i + 1, bottom, d + dh, off, vp)
                };
                if d + dh < vp {
                    lemma_slots_fit(hs, i + 1, bottom, d + dh, off, vp);
                }
                let all = slots_from(hs, i, y, d, off, vp);
                assert(all == seq![(i as usize, d as u16, skip as u16, dh as u16)] + tail);
                assert forall|q: int| 0 <= q < all.len() implies #[trigger] all[q].1 + all[q].3 <= vp by {
                    if q > 0 {
                        assert(all[q] == tail[q - 1]);
                    } else {
                        assert(dh <= room);
                        assert(all[0].1 as int == d);
                        assert(all[0].3 as int == dh);
                    }
                }
            }
        }
    }
}

/// The cards a frame draws for an offset `offset` into cards of
/// `heights` rows, in a viewport of `viewport` rows (see `slots_from`).
pub fn body_slots(heights: &Vec<u16>, viewport: u16, offset: u16) -> (r: Vec<(usize, u16, u16, u16)>)
    requires
        offset + viewport <= u16::MAX,
    ensures
        r@ == slots_from(heights@, 0, 0, 0, offset as int, viewport as int),
{
    let n = heights.len();
    let mut out: Vec<(usize, u16, u16, u16)> = Vec::new();
    let mut i: usize = 0;
    let mut y: u16 = 0;
    let mut d: u16 = 0;
    let mut done = false;
    while i < n && !done
        invariant
            n == heights@.len(),
            i <= n,
            d <= viewport,
            offset + viewport <= u16::MAX,
            out@ + (if done {
                Seq::empty()
            } else {
                slots_from(heights@, i as int, y as int, d as int, offset as int, viewport as int)
            }) == slots_from(heights@, 0, 0, 0, offset as int, viewport as int),
        decreases n - i + if done {
            0int
        } else {
            1int
        },
    {
        let h = heights[i];
        let top = y;
        let bottom = y.saturating_add(h);
        let ghost before = out@;
        if bottom <= offset {
            y = bottom;
            i += 1;
        } else if top >= offset + viewport {
            done = true;
            proof {
                assert(out@ =~= out@ + Seq::<(usize, u16, u16, u16)>::empty());
            }
        } else {
            let skip = offset.saturating_sub(top);
            let rest = h.saturating_sub(skip);
            let room = viewport - d;
            let dh = if rest < room {
                rest
            } else {
                room
            };
            if dh == 0 {
                done = true;
                proof {
                    assert(out@ =~= out@ + Seq::<(usize, u16, u16, u16)>::empty());
                }
            } else {
                out.push((i, d, skip, dh));
                let ghost nd: int = d + dh;
                proof {
                    let tail = if nd >= viewport {
                        Seq::<(usize, u16, u16, u16)>::empty()
                    } else {
                        slots_from(heights@, i + 1, bottom as int, nd, offset as int, viewport as int)
                    };
                    assert(before + (seq![(i, d, skip, dh)] + tail) =~= out@ + tail);
                }
                d = d + dh;
                y = bottom;
                i += 1;
                if d >= viewport {
                    done = true;
                    proof {
                        assert(out@ =~= out@ + Seq::<(usize, u16, u16, u16)>::empty());
                    }
                }
            }
        }
    }
    proof {
        if !done {
            assert(out@ =~= out@ + Seq::<(usize, u16, u16, u16)>::empty());
        }
    }
    out
}

/// The width of the live-tail chip.
pub const LIVE_TAIL_CHIP_WIDTH: u16 = 19;

/// The live-tail chip, shown when the view left the tail without focusing
/// a card and does not already show the bottom: centred on the bottom row
/// of the body, when the body is wide enough.
pub open spec fn live_tail_chip_spec(content: Rect, following: bool, m: int, offset: int) -> Option<Rect> {
    if !following && m > 0 && offset < m && content.width > LIVE_TAIL_CHIP_WIDTH + 2 {
        Some(
            Rect {
                x: (content.x + (content.width - LIVE_TAIL_CHIP_WIDTH) / 2) as u16,
                y: (content.y + (if content.height > 0 {
                    content.height - 1
                } else {
                    0
                })) as u16,
                width: LIVE_TAIL_CHIP_WIDTH,
                height: 1,
            },
        )
    } else {
        None
    }
}

/// The live-tail chip for a body `content` (see `live_tail_chip_spec`);
/// `following` is true when no card is focused and the view follows the
/// tail.
pub fn live_tail_chip(content: Rect, following: bool, max_off: u16, offset: u16) -> (r: Option<Rect>)
    requires
        content.x + content.width <= u16::MAX,
        content.y + content.height <= u16::MAX,
    ensures
        r == live_tail_chip_spec(content, following, max_off as int, offset as int),
{
    if !following && max_off > 0 && offset < max_off && content.width > LIVE_TAIL_CHIP_WIDTH + 2 {
        let w = LIVE_TAIL_CHIP_WIDTH;
        Some(
            Rect {
                x: content.x + (content.width - w) / 2,
                y: content.y + content.height.saturating_sub(1),
                width: w,
                height: 1,
            },
        )
    } else {
        None
    }
}

/// The layout of the transcript body `content` for cards of `heights`
/// rows, a focused card `focus` and a scroll `scroll` (none: follow the
/// live tail): the offset shown, each drawn card's index and screen
/// rectangle (its hit area), and the live-tail chip.
pub fn body_layout(heights: &Vec<u16>, content: Rect, focus: Option<usize>, scroll: Option<u16>) -> (r: (
    u16,
    Vec<(usize, Rect)>,
    Option<Rect>,
))
    requires
        content.x + content.width <= u16::MAX,
        content.y + content.height <= u16::MAX,
    ensures
        r.0 == body_offset_spec(heights@, content.height, focus, scroll),
        ({
            let s = slots_from(heights@, 0, 0, 0, r.0 as int, content.height as int);
            &&& r.1@.len() == s.len()
            &&& forall|k: int|
                0 <= k < s.len() ==> #[trigger] r.1@[k] == (
                    s[k].0,
                    Rect { x: content.x, y: (content.y + s[k].1) as u16, width: content.width, height: s[k].3 },
                )
        }),
        r.2 == live_tail_chip_spec(
            content,
            focus is None && scroll is None,
            max_offset(heights@, content.height),
            r.0 as int,
        ),
{
    let (offset, m) = body_offset(heights, content.height, focus, scroll);
    proof {
        lemma_stacked_bounds(heights@, heights@.len() as int);
    }
    let slots = body_slots(heights, content.height, offset);
    proof {
        lemma_slots_fit(heights@, 0, 0, 0, offset as int, content.height as int);
    }
    let mut rects: Vec<(usize, Rect)> = Vec::new();
    let mut k: usize = 0;
    while k < slots.len()
        invariant
            k <= slots@.len(),
            rects@.len() == k,
            forall|q: int| 0 <= q < slots@.len() ==> #[trigger] slots@[q].1 + slots@[q].3 <= content.height,
            content.y + content.height <= u16::MAX,
            forall|q: int|
                0 <= q < k ==> #[trigger] rects@[q] == (
                    slots@[q].0,
                    Rect {
                        x: content.x,
                        y: (content.y + slots@[q].1) as u16,
                        width: content.width,
                        height: slots@[q].3,
                    },
                ),
        decreases slots@.len() - k,
    {
        let (i, row, _skip, dh) = slots[k];
        rects.push((i, Rect { x: content.x, y: content.y + row, width: content.width, height: dh }));
        k += 1;
    }
    let chip = live_tail_chip(content, focus.is_none() && scroll.is_none(), m, offset);
    (offset, rects, chip)
}

} // verus!
