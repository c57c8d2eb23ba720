//! The `/doctor` readiness checks: one row per thing the client depends
//! on, read from the state and what the host knows.

use vstd::prelude::*;
use vstd::string::*;

use crate::app::App;
use crate::helpers::concat3;
use crate::settings::HostInfo;

verus! {

/// How a readiness check came out.
#[derive(Clone, Copy, Debug, PartialEq, Eq, Structural)]
pub enum DoctorStatus {
    Pass,
    Warn,
    Fail,
    Info,
}

/// One row of the `/doctor` dialog.
pub struct DoctorCheck {
    pub label: String,
    pub status: DoctorStatus,
    pub detail: String,
}

/// The working directory's git state, when known.
pub struct GitSummary {
    pub is_repo: bool,
    /// The checked-out branch; none when detached.
    pub branch: Option<String>,
}

/// A row by its text.
pub open spec fn check_view(c: DoctorCheck) -> (Seq<char>, DoctorStatus, Seq<char>) {
    (c.label@, c.status, c.detail@)
}

/// The rows by their text.
pub open spec fn checks_view(cs: Seq<DoctorCheck>) -> Seq<(Seq<char>, DoctorStatus, Seq<char>)> {
    cs.map_values(|c: DoctorCheck| check_view(c))
}

/// The text of an optional string, or `d`.
pub open spec fn text_or(o: Option<String>, d: Seq<char>) -> Seq<char> {
    match o {
        Some(s) => s@,
        None => d,
    }
}

/// The checks, in order: the agent's binary and connection, the
/// terminal and its keyboard protocol and graphics, the clipboard, git,
/// the theme, and notifications.
pub open spec fn doctor_rows(app: App, host: HostInfo, git: Option<GitSummary>) -> Seq<
    (Seq<char>, DoctorStatus, Seq<char>),
> {
    let in_repo = match git {
        Some(g) => g.is_repo,
        None => false,
    };
    seq![
        (
            "pi binary"@,
            if host.pi_binary is Some {
                DoctorStatus::Pass
            } else {
                DoctorStatus::Fail
            },
            text_or(host.pi_binary, "not found on PATH"@),
        ),
        (
            "pi connection"@,
            if host.spawn_error is Some {
                DoctorStatus::Fail
            } else {
                DoctorStatus::Pass
            },
            text_or(host.spawn_error, "connected"@),
        ),
        ("terminal"@, DoctorStatus::Info, host.terminal@),
        (
            "kitty keyboard"@,
            if host.kitty_keyboard {
                DoctorStatus::Pass
            } else {
                DoctorStatus::Warn
            },
            if host.kitty_keyboard {
                "enabled (Ctrl+Shift+T disambiguated)"@
            } else {
                "not advertised (Alt+T / F12 fallbacks)"@
            },
        ),
        (
            "graphics"@,
            if host.graphics {
                DoctorStatus::Pass
            } else {
                DoctorStatus::Info
            },
            if host.graphics {
                "supported"@
            } else {
                "no image protocol detected"@
            },
        ),
        (
            "clipboard"@,
            if host.clipboard_native {
                DoctorStatus::Pass
            } else {
                DoctorStatus::Warn
            },
            if host.clipboard_native {
                "arboard (native)"@
            } else {
                "OSC 52 fallback"@
            },
        ),
        (
            "git"@,
            if in_repo {
                DoctorStatus::Pass
            } else {
                DoctorStatus::Info
            },
            if in_repo {
                text_or(git->0.branch, "(detached)"@)
            } else {
                "not a git repository"@
            },
        ),
        ("theme"@, DoctorStatus::Info, host.theme_name@),
        (
            "notifications"@,
            if app.notify_enabled {
                DoctorStatus::Pass
            } else {
                DoctorStatus::Info
            },
            (if app.notify_enabled {
                "on"@
            } else {
                "off"@
            }) + " · osc777 always · native "@ + (if host.notify_feature {
                "feature enabled"@
            } else {
                "feature disabled"@
            }),
        ),
    ]
}

/// The text of `o`, or `d` when there is none.
fn or_text(o: &Option<String>, d: &str) -> (r: String)
    ensures
        r@ == text_or(*o, d@),
{
    match o {
        Some(s) => s.clone(),
        None => String::from_str(d),
    }
}

/// Append a row.
fn push_check(rows: &mut Vec<DoctorCheck>, label: &str, status: DoctorStatus, detail: String)
    ensures
        checks_view(final(rows)@) == checks_view(old(rows)@).push((label@, status, detail@)),
{
    rows.push(DoctorCheck { label: String::from_str(label), status, detail });
    assert(checks_view(rows@) =~= checks_view(old(rows)@).push((label@, status, detail@)));
}

/// The rows of the `/doctor` dialog for state `app`, what the host knows,
/// and the git state.
pub fn doctor_checks(app: &App, host: &HostInfo, git: &Option<GitSummary>) -> (rows: Vec<DoctorCheck>)
    ensures
        checks_view(rows@) == doctor_rows(*app, *host, *git),
{
    let mut rows: Vec<DoctorCheck> = Vec::new();
    proof {
        assert(checks_view(rows@) =~= Seq::<(Seq<char>, DoctorStatus, Seq<char>)>::empty());
    }
    let st = if host.pi_binary.is_some() {
        DoctorStatus::Pass
    } else {
        DoctorStatus::Fail
    };
    push_check(&mut rows, "pi binary", st, or_text(&host.pi_binary, "not found on PATH"));
    let st = if host.spawn_error.is_some() {
        DoctorStatus::Fail
    } else {
        DoctorStatus::Pass
    };
    push_check(&mut rows, "pi connection", st, or_text(&host.spawn_error, "connected"));
    push_check(&mut rows, "terminal", DoctorStatus::Info, host.terminal.clone());
    if host.kitty_keyboard {
        push_check(
            &mut rows,
            "kitty keyboard",
            DoctorStatus::Pass,
            String::from_str("enabled (Ctrl+Shift+T disambiguated)"),
        );
    } else {
        push_check(
            &mut rows,
            "kitty keyboard",
            DoctorStatus::Warn,
            String::from_str("not advertised (Alt+T / F12 fallbacks)"),
        );
    }
    if host.graphics {
        push_check(&mut rows, "graphics", DoctorStatus::Pass, String::from_str("supported"));
    } else {
        push_check(&mut rows, "graphics", DoctorStatus::Info, String::from_str("no image protocol detected"));
    }
    if host.clipboard_native {
        push_check(&mut rows, "clipboard", DoctorStatus::Pass, String::from_str("arboard (native)"));
    } else {
        push_check(&mut rows, "clipboard", DoctorStatus::Warn, String::from_str("OSC 52 fallback"));
    }
    let in_repo = match git {
        Some(g) => g.is_repo,
        None => false,
    };
    if in_repo {
        let branch = match git {
            Some(g) => or_text(&g.branch, "(detached)"),
            None => String::new(),
        };
        push_check(&mut rows, "git", DoctorStatus::Pass, branch);
    } else {
        push_check(&mut rows, "git", DoctorStatus::Info, String::from_str("not a git repository"));
    }
    push_check(&mut rows, "theme", DoctorStatus::Info, host.theme_name.clone());
    let state = if app.notify_enabled {
        "on"
    } else {
        "off"
    };
    let native = if host.notify_feature {
        "feature enabled"
    } else {
        "feature disabled"
    };
    let st = if app.notify_enabled {
        DoctorStatus::Pass
    } else {
        DoctorStatus::Info
    };
    push_check(&mut rows, "notifications", st, concat3(state, " · osc777 always · native ", native));
    proof {
        assert(checks_view(rows@) =~= doctor_rows(*app, *host, *git));
    }
    rows
}

} // verus!
