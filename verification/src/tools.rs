//! Tool-call presentation: the tool family a tool name belongs to, its
//! icon, the argument chip shown in the card title and the one-line
//! argument preview.

use vstd::prelude::*;
use vstd::string::*;

use crate::helpers::{concat2, concat3, truncate_preview, truncated};
use crate::json::{first_member_str, member_string, Json, JsonKind};
use crate::text::str_eq;
use crate::transcript::ToolCall;

verus! {

/// The family a tool belongs to; it picks the card body layout and icon.
#[derive(Clone, Copy, Debug, PartialEq, Eq)]
pub enum ToolFamily {
    Bash,
    Edit,
    ReadFile,
    Grep,
    Write,
    Todo,
    Generic,
}

/// ASCII lowercase: `A`..`Z` become `a`..`z`, every other character stays.
pub open spec fn ascii_lower(s: Seq<char>) -> Seq<char> {
    s.map_values(|c: char| if 'A' <= c && c <= 'Z' { ((c as u32) + 32) as char } else { c })
}

/// `s` with `A`..`Z` mapped to `a`..`z` and every other character kept.
pub(crate) fn to_ascii_lowercase(s: &str) -> (r: String)
    ensures
        r@ == ascii_lower(s@),
{
    let mut out = String::new();
    proof {
        broadcast use vstd::string::axiom_spec_iter;

    }
    for c in it: s.chars()
        invariant
            it.seq() == s@,
            out@ == ascii_lower(s@.take(it.index())),
    {
        let d = if 'A' <= c && c <= 'Z' {
            lower_ascii_letter(c)
        } else {
            c
        };
        let one = crate::text::char_to_string(d);
        let ghost before = out@;
        out.append(one.as_str());
        proof {
            assert(ascii_lower(s@.take(it.index() + 1)) =~= before.push(d));
        }
    }
    proof {
        assert(s@.take(s@.len() as int) =~= s@);
    }
    out
}

/// The lower-case form of an upper-case ASCII letter.
fn lower_ascii_letter(c: char) -> (r: char)
    requires
        'A' <= c <= 'Z',
    ensures
        r == ((c as u32) + 32) as char,
{
    let b = (c as u8) + 32;
    b as char
}

/// The family of a tool, by its name compared without ASCII case.
pub open spec fn family_of(name: Seq<char>) -> ToolFamily {
    let n = ascii_lower(name);
    if n == "bash"@ || n == "run"@ || n == "shell"@ || n == "exec"@ || n == "command"@ {
        ToolFamily::Bash
    } else if n == "edit"@ || n == "apply_patch"@ || n == "str_replace"@ || n
        == "str_replace_editor"@ || n == "multi_edit"@ || n == "patch"@ {
        ToolFamily::Edit
    } else if n == "read"@ || n == "read_file"@ || n == "readfile"@ || n == "view"@ || n
        == "cat"@ {
        ToolFamily::ReadFile
    } else if n == "grep"@ || n == "search"@ || n == "rg"@ || n == "ripgrep"@ {
        ToolFamily::Grep
    } else if n == "write"@ || n == "write_file"@ || n == "create"@ || n == "create_file"@ {
        ToolFamily::Write
    } else if n == "todo"@ || n == "todowrite"@ || n == "tasks"@ {
        ToolFamily::Todo
    } else {
        ToolFamily::Generic
    }
}

/// The family a tool name belongs to.
pub fn tool_family(name: &str) -> (f: ToolFamily)
    ensures
        f == family_of(name@),
{
    let lower = to_ascii_lowercase(name);
    let n = lower.as_str();
    if str_eq(n, "bash") || str_eq(n, "run") || str_eq(n, "shell") || str_eq(n, "exec") || str_eq(
        n,
        "command",
    ) {
        ToolFamily::Bash
    } else if str_eq(n, "edit") || str_eq(n, "apply_patch") || str_eq(n, "str_replace") || str_eq(
        n,
        "str_replace_editor",
    ) || str_eq(n, "multi_edit") || str_eq(n, "patch") {
        ToolFamily::Edit
    } else if str_eq(n, "read") || str_eq(n, "read_file") || str_eq(n, "readfile") || str_eq(
        n,
        "view",
    ) || str_eq(n, "cat") {
        ToolFamily::ReadFile
    } else if str_eq(n, "grep") || str_eq(n, "search") || str_eq(n, "rg") || str_eq(n, "ripgrep") {
        ToolFamily::Grep
    } else if str_eq(n, "write") || str_eq(n, "write_file") || str_eq(n, "create") || str_eq(
        n,
        "create_file",
    ) {
        ToolFamily::Write
    } else if str_eq(n, "todo") || str_eq(n, "todowrite") || str_eq(n, "tasks") {
        ToolFamily::Todo
    } else {
        ToolFamily::Generic
    }
}

/// The card icon of each tool family.
pub open spec fn family_icon(f: ToolFamily) -> Seq<char> {
    match f {
        ToolFamily::Bash => "$"@,
        ToolFamily::Edit => "±"@,
        ToolFamily::ReadFile => "▤"@,
        ToolFamily::Grep => "⌕"@,
        ToolFamily::Write => "✎"@,
        ToolFamily::Todo => "☐"@,
        ToolFamily::Generic => "⚙"@,
    }
}

/// The card icon for a tool name.
pub fn tool_family_icon(name: &str) -> (r: &'static str)
    ensures
        r@ == family_icon(family_of(name@)),
{
    match tool_family(name) {
        ToolFamily::Bash => "$",
        ToolFamily::Edit => "±",
        ToolFamily::ReadFile => "▤",
        ToolFamily::Grep => "⌕",
        ToolFamily::Write => "✎",
        ToolFamily::Todo => "☐",
        ToolFamily::Generic => "⚙",
    }
}

/// Argument names that hold a path, a search pattern and a command.
pub open spec fn path_keys() -> Seq<Seq<char>> {
    seq!["file_path"@, "path"@, "filename"@, "file"@, "target"@]
}

pub open spec fn pattern_keys() -> Seq<Seq<char>> {
    seq!["pattern"@, "query"@, "q"@]
}

pub open spec fn command_keys() -> Seq<Seq<char>> {
    seq!["command"@, "cmd"@]
}

/// The chip shown in a tool card's title: the first path argument as
/// is; else the first pattern argument, truncated to 40 characters and
/// quoted; else the first command argument, truncated to 40 characters.
pub open spec fn arg_chip(args: Json) -> Option<Seq<char>> {
    if first_member_str(args, path_keys()) is Some {
        first_member_str(args, path_keys())
    } else if first_member_str(args, pattern_keys()) is Some {
        Some("\""@ + truncated(first_member_str(args, pattern_keys())->0, 40) + "\""@)
    } else if first_member_str(args, command_keys()) is Some {
        Some(truncated(first_member_str(args, command_keys())->0, 40))
    } else {
        None
    }
}

/// Extract a human-readable chip for the card title from common
/// argument names.
pub fn primary_arg_chip(tc: &ToolCall) -> (r: Option<String>)
    ensures
        match r {
            Some(s) => arg_chip(tc.args) == Some(s@),
            None => arg_chip(tc.args) is None,
        },
{
    let args = &tc.args;
    proof {
        reveal_with_fuel(first_member_str, 6);
        assert(path_keys().drop_first().drop_first().drop_first().drop_first().drop_first()
            =~= Seq::<Seq<char>>::empty());
        assert(pattern_keys().drop_first().drop_first().drop_first() =~= Seq::<Seq<char>>::empty());
        assert(command_keys().drop_first().drop_first() =~= Seq::<Seq<char>>::empty());
    }
    if let Some(v) = member_string(args, "file_path") {
        return Some(v);
    }
    if let Some(v) = member_string(args, "path") {
        return Some(v);
    }
    if let Some(v) = member_string(args, "filename") {
        return Some(v);
    }
    if let Some(v) = member_string(args, "file") {
        return Some(v);
    }
    if let Some(v) = member_string(args, "target") {
        return Some(v);
    }
    let mut pat = member_string(args, "pattern");
    if pat.is_none() {
        pat = member_string(args, "query");
    }
    if pat.is_none() {
        pat = member_string(args, "q");
    }
    if let Some(v) = pat {
        let t = truncate_preview(v.as_str(), 40);
        return Some(concat3("\"", t.as_str(), "\""));
    }
    let mut cmd = member_string(args, "command");
    if cmd.is_none() {
        cmd = member_string(args, "cmd");
    }
    if let Some(v) = cmd {
        return Some(truncate_preview(v.as_str(), 40));
    }
    None
}


/// A string as `{:?}` prints it: quoted, with escapes.
pub uninterp spec fn debug_quoted(s: Seq<char>) -> Seq<char>;

/// Calls the `Debug` formatting of `str` (`format!("{:?}", s)`); the
/// result is the name `debug_quoted` of the argument. The escaping rules
/// are left unstated.
#[verifier::external_body]
pub(crate) fn debug_quote(s: &str) -> (r: String)
    ensures
        r@ == debug_quoted(s@),
{
    format!("{:?}", s)
}

/// One `name=value` part of the argument preview: string values are
/// truncated to 40 characters and quoted, other values shown as JSON.
pub open spec fn preview_part(name: Seq<char>, v: Json) -> Seq<char> {
    name + "="@ + match v.kind {
        JsonKind::Str(s) => debug_quoted(truncated(s@, 40)),
        _ => v.text@,
    }
}

/// The parts of the preview of the members `m`, joined by two spaces.
pub open spec fn join_parts(m: Seq<(String, Json)>) -> Seq<char>
    decreases m.len(),
{
    if m.len() == 0 {
        Seq::empty()
    } else if m.len() == 1 {
        preview_part(m[0].0@, m[0].1)
    } else {
        join_parts(m.drop_last()) + "  "@ + preview_part(m.last().0@, m.last().1)
    }
}

/// The one-line preview of a tool's arguments: the first four members of
/// an object, nothing for `null`, the JSON text of anything else.
pub open spec fn args_preview_spec(args: Json) -> Seq<char> {
    match args.kind {
        JsonKind::Object(m) => join_parts(m@.take(if m@.len() < 4 { m@.len() as int } else { 4 })),
        JsonKind::Null => Seq::empty(),
        _ => args.text@,
    }
}

fn part_of(name: &String, v: &Json) -> (r: String)
    ensures
        r@ == preview_part(name@, *v),
{
    let shown = match &v.kind {
        JsonKind::Str(s) => {
            let t = truncate_preview(s.as_str(), 40);
            debug_quote(t.as_str())
        },
        _ => v.text.clone(),
    };
    concat3(name.as_str(), "=", shown.as_str())
}

/// Compact single-line preview of a tool's arguments.
pub fn args_preview(args: &Json) -> (r: String)
    ensures
        r@ == args_preview_spec(*args),
{
    match &args.kind {
        JsonKind::Object(m) => {
            let k = if m.len() < 4 {
                m.len()
            } else {
                4
            };
            let mut out = String::new();
            let mut i: usize = 0;
            while i < k
                invariant
                    k <= m@.len(),
                    i <= k,
                    out@ == join_parts(m@.take(i as int)),
                decreases k - i,
            {
                let part = part_of(&m[i].0, &m[i].1);
                proof {
                    assert(m@.take(i + 1).drop_last() =~= m@.take(i as int));
                    assert(m@.take(i + 1).last() == m@[i as int]);
                }
                if i == 0 {
                    proof {
                        assert(m@.take(0) =~= Seq::<(String, Json)>::empty());
                    }
                    out = part;
                } else {
                    out = concat3(out.as_str(), "  ", part.as_str());
                }
                i += 1;
            }
            out
        },
        JsonKind::Null => String::new(),
        _ => args.text.clone(),
    }
}

} // verus!
