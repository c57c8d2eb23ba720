# rata_pi

The verified core of a terminal client for the `pi` coding agent: the
client state, the reducer of the agent's events, and what keys, clicks,
dialogs, slash commands and settings do, with contracts proved by Verus.
Drawing, terminal input, the agent connection and other I/O belong to the
host around it. The library holds an open interview form and what its keys
do, and opens the review of a plan the agent proposes; reading a form out
of the agent's markers and keeping a plan's steps are left to the host,
which the end of a run hands the marked text.

## Layout

- `src/` — the library, every function verified:
  - `text`, `editor`, `keys`: UTF-8 cursor arithmetic, word motion, the
    single-line editing keys.
  - `transcript`, `messages`, `json`, `import`, `tools`: the transcript and
    its entries, the agent's messages, tool-call previews, render keys.
  - `app`, `status`: the client state, the event reducer, the live status
    and throughput window, focus mode and flashes.
  - `keymap`, `mouse`, `modals`, `settings`, `slash`, `doctor`: what keys,
    clicks, dialogs, slash commands and settings rows do.
  - `markers`: the plan and interview markers an agent writes, and their
    removal from the transcript at the end of a run.
  - `interview`: the interview form, its focus over the fields and the
    Submit slot, its scrolling, its field edits and its submission.
  - `layout`: the scroll offset, the cards drawn and the live-tail chip
    of the transcript body.
  - `dialog`: the open dialog, and one dispatch of keys, wheel turns and
    chip clicks over every kind of dialog.
  - `visuals`, `cards`, `anim`, `helpers`: the render-cache bookkeeping,
    card text preparation, animation timing, small formatting helpers.
- `tests/` — the tests, run against the compiled library.
- `app/` — a plain-text host: reads the agent's events as JSON lines,
  feeds typed lines through the composer path, and carries out what the
  library hands back (notifications, files, easing curves in floating
  point).
