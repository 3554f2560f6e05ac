//! Choosing the terminal image protocol from the terminal's environment.

use vstd::prelude::*;
use crate::text::{contains_chars, lowercase, starts_with, str_contains, str_eq, str_starts_with, to_lowercase};

verus! {

#[derive(Debug, Clone, Copy, PartialEq, Eq, Structural)]
pub enum TerminalProtocol {
    Sixel,
    Kitty,
    TextFallback,
}

pub open spec fn spec_protocol_name(p: TerminalProtocol) -> Seq<char> {
    match p {
        TerminalProtocol::Sixel => "sixel"@,
        TerminalProtocol::Kitty => "kitty"@,
        TerminalProtocol::TextFallback => "text-fallback"@,
    }
}

pub fn protocol_name(p: TerminalProtocol) -> (r: &'static str)
    ensures
        r@ == spec_protocol_name(p),
{
    match p {
        TerminalProtocol::Sixel => "sixel",
        TerminalProtocol::Kitty => "kitty",
        TerminalProtocol::TextFallback => "text-fallback",
    }
}

/// What the detection reads of the environment: the values of `TERM` and
/// `TERM_PROGRAM` (empty when unset), the override variable
/// `MCRAW_FORCE_PROTOCOL`, and which of the other variables are set.
pub struct TerminalEnv {
    pub force_protocol: Option<String>,
    pub term: String,
    pub term_program: String,
    pub kitty_window_id: bool,
    pub kitty_pid: bool,
    pub wezterm_executable: bool,
    pub konsole_version: bool,
    pub warp_is_local_shell_session: bool,
    pub msystem: bool,
    pub mingw_prefix: bool,
    pub wt_session: bool,
    pub conemu_pid: bool,
    pub conemu_hwnd: bool,
}

/// The protocol an override names (already lower-cased): `kitty`, `sixel`
/// or `text`; anything else names none.
pub open spec fn spec_forced(lower: Seq<char>) -> Option<TerminalProtocol> {
    if lower == "kitty"@ {
        Some(TerminalProtocol::Kitty)
    } else if lower == "sixel"@ {
        Some(TerminalProtocol::Sixel)
    } else if lower == "text"@ {
        Some(TerminalProtocol::TextFallback)
    } else {
        None
    }
}

/// The protocol found from the terminal variables: Kitty graphics first,
/// then Sixel, then text.
pub open spec fn spec_detect_auto(env: TerminalEnv) -> TerminalProtocol {
    let term = env.term@;
    let tp = env.term_program@;
    if env.kitty_window_id || env.kitty_pid || term == "xterm-kitty"@ || tp == "Ghostty"@ || tp
        == "vscode"@ || env.wezterm_executable || tp == "iTerm.app"@ || env.konsole_version || tp
        == "WarpTerminal"@ || env.warp_is_local_shell_session || tp == "Rio"@ || tp
        == "Apple_Terminal"@ || tp == "Tabby"@ {
        TerminalProtocol::Kitty
    } else if contains_chars(term, "sixel"@) || term == "foot"@ || starts_with(term, "foot-"@)
        || term == "contour"@ || term == "mlterm"@ || ((env.msystem || env.mingw_prefix) && (
    starts_with(term, "xterm"@) || term == "cygwin"@)) || env.wt_session || env.conemu_pid
        || env.conemu_hwnd {
        TerminalProtocol::Sixel
    } else {
        TerminalProtocol::TextFallback
    }
}

/// The protocol for an environment: a recognised override wins.
pub open spec fn spec_detect(env: TerminalEnv) -> TerminalProtocol {
    match env.force_protocol {
        Some(f) => match spec_forced(lowercase(f@)) {
            Some(p) => p,
            None => spec_detect_auto(env),
        },
        None => spec_detect_auto(env),
    }
}

/// No override in force: none set, or one that names no protocol.
pub open spec fn no_override(env: TerminalEnv) -> bool {
    match env.force_protocol {
        Some(f) => spec_forced(lowercase(f@)) is None,
        None => true,
    }
}

/// An override naming a protocol, in any case, wins over everything else.
/// Without one, a terminal known to speak the Kitty graphics protocol gets
/// it whatever `TERM` says and whatever Sixel signs are also present: kitty
/// itself (`KITTY_WINDOW_ID`, `KITTY_PID` or `TERM=xterm-kitty`), WezTerm,
/// Konsole, Warp, and the `TERM_PROGRAM`s Ghostty, vscode, iTerm.app,
/// WarpTerminal, Rio, Apple_Terminal and Tabby. Otherwise a Sixel terminal
/// (a `TERM` naming sixel, foot, contour or mlterm, Windows Terminal,
/// ConEmu, or an xterm/cygwin `TERM` under MSYS/MinGW) gets Sixel, and any
/// other gets the text fallback.
pub proof fn lemma_detection_order(env: TerminalEnv)
    ensures
        env.force_protocol matches Some(f) && lowercase(f@) == "kitty"@ ==> spec_detect(env)
            == TerminalProtocol::Kitty,
        env.force_protocol matches Some(f) && lowercase(f@) == "sixel"@ ==> spec_detect(env)
            == TerminalProtocol::Sixel,
        env.force_protocol matches Some(f) && lowercase(f@) == "text"@ ==> spec_detect(env)
            == TerminalProtocol::TextFallback,
        no_override(env) && (env.kitty_window_id || env.kitty_pid || env.term@ == "xterm-kitty"@
            || env.wezterm_executable || env.konsole_version || env.warp_is_local_shell_session
            || env.term_program@ == "Ghostty"@ || env.term_program@ == "vscode"@
            || env.term_program@ == "iTerm.app"@ || env.term_program@ == "WarpTerminal"@
            || env.term_program@ == "Rio"@ || env.term_program@ == "Apple_Terminal"@
            || env.term_program@ == "Tabby"@) ==> spec_detect(env) == TerminalProtocol::Kitty,
        no_override(env) && spec_detect(env) == TerminalProtocol::Kitty ==> (env.kitty_window_id
            || env.kitty_pid || env.term@ == "xterm-kitty"@ || env.wezterm_executable
            || env.konsole_version || env.warp_is_local_shell_session || env.term_program@
            == "Ghostty"@ || env.term_program@ == "vscode"@ || env.term_program@ == "iTerm.app"@
            || env.term_program@ == "WarpTerminal"@ || env.term_program@ == "Rio"@
            || env.term_program@ == "Apple_Terminal"@ || env.term_program@ == "Tabby"@),
        no_override(env) && spec_detect(env) != TerminalProtocol::Kitty ==> ((spec_detect(env)
            == TerminalProtocol::Sixel) == (contains_chars(env.term@, "sixel"@) || env.term@
            == "foot"@ || starts_with(env.term@, "foot-"@) || env.term@ == "contour"@ || env.term@
            == "mlterm"@ || env.wt_session || env.conemu_pid || env.conemu_hwnd || ((env.msystem
            || env.mingw_prefix) && (starts_with(env.term@, "xterm"@) || env.term@ == "cygwin"@)))),
{
    reveal_strlit("kitty");
    reveal_strlit("sixel");
    reveal_strlit("text");
    assert("sixel"@[0] != "kitty"@[0]);
    assert("text"@[0] != "kitty"@[0] && "text"@[0] != "sixel"@[0]);
}

/// The protocol a lower-cased override value names, if any.
pub fn forced_protocol(lower: &str) -> (r: Option<TerminalProtocol>)
    ensures
        r == spec_forced(lower@),
{
    if str_eq(lower, "kitty") {
        Some(TerminalProtocol::Kitty)
    } else if str_eq(lower, "sixel") {
        Some(TerminalProtocol::Sixel)
    } else if str_eq(lower, "text") {
        Some(TerminalProtocol::TextFallback)
    } else {
        None
    }
}

/// The protocol found from the terminal variables alone.
pub fn detect_auto(env: &TerminalEnv) -> (r: TerminalProtocol)
    ensures
        r == spec_detect_auto(*env),
{
    let term = env.term.as_str();
    let tp = env.term_program.as_str();
    if env.kitty_window_id || env.kitty_pid || str_eq(term, "xterm-kitty") {
        return TerminalProtocol::Kitty;
    }
    if str_eq(tp, "Ghostty") || str_eq(tp, "vscode") || env.wezterm_executable || str_eq(
        tp,
        "iTerm.app",
    ) || env.konsole_version {
        return TerminalProtocol::Kitty;
    }
    if str_eq(tp, "WarpTerminal") || env.warp_is_local_shell_session || str_eq(tp, "Rio")
        || str_eq(tp, "Apple_Terminal") || str_eq(tp, "Tabby") {
        return TerminalProtocol::Kitty;
    }
    if str_contains(term, "sixel") || str_eq(term, "foot") || str_starts_with(term, "foot-")
        || str_eq(term, "contour") || str_eq(term, "mlterm") {
        return TerminalProtocol::Sixel;
    }
    if (env.msystem || env.mingw_prefix) && (str_starts_with(term, "xterm") || str_eq(
        term,
        "cygwin",
    )) {
        return TerminalProtocol::Sixel;
    }
    if env.wt_session || env.conemu_pid || env.conemu_hwnd {
        return TerminalProtocol::Sixel;
    }
    TerminalProtocol::TextFallback
}

/// Detect the terminal image protocol from a snapshot of the environment.
///
/// Kitty graphics (24-bit RGBA, no palette limits) is preferred; Sixel
/// (palette-based) is the fallback for terminals without it. The override
/// `MCRAW_FORCE_PROTOCOL=kitty|sixel|text` (any case) wins when set to one
/// of these.
pub fn detect_from(env: &TerminalEnv) -> (r: TerminalProtocol)
    ensures
        r == spec_detect(*env),
{
    match &env.force_protocol {
        Some(force) => {
            let lower = to_lowercase(force.as_str());
            match forced_protocol(lower.as_str()) {
                Some(p) => p,
                None => detect_auto(env),
            }
        },
        None => detect_auto(env),
    }
}

} // verus!
