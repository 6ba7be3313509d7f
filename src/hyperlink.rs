use vstd::prelude::*;
use vstd::string::StringExecFns;
use crate::text::{char_vec, contains_seq, has_pattern};

verus! {

/// The terminal families that hyperlinks are written for.
#[derive(Clone, Copy, PartialEq, Eq, Debug)]
pub enum TerminalType {
    ITerm2,
    TerminalApp,
    WindowsTerminal,
    VSCode,
    XTerm,
    Unknown,
}

/// The terminal named by the `TERM_PROGRAM`, `WT_SESSION` and `TERM` variables, in that
/// order of precedence; `None` stands for a variable that is not set.
pub open spec fn terminal_spec(
    term_program: Option<Seq<char>>,
    wt_session: Option<Seq<char>>,
    term: Option<Seq<char>>,
) -> TerminalType {
    if term_program == Some("iTerm.app"@) {
        TerminalType::ITerm2
    } else if term_program == Some("Apple_Terminal"@) {
        TerminalType::TerminalApp
    } else if term_program == Some("vscode"@) {
        TerminalType::VSCode
    } else if wt_session matches Some(w) && w.len() > 0 {
        TerminalType::WindowsTerminal
    } else if term matches Some(t) && (contains_seq(t, "xterm"@) || contains_seq(t, "screen"@)) {
        TerminalType::XTerm
    } else {
        TerminalType::Unknown
    }
}

pub open spec fn opt_view(s: Option<String>) -> Option<Seq<char>> {
    match s {
        Some(t) => Some(t@),
        None => None,
    }
}

fn is_text(s: &Option<String>, lit: &str) -> (r: bool)
    ensures
        r == (opt_view(*s) == Some(lit@)),
{
    match s {
        Some(t) => *t == String::from_str(lit),
        None => false,
    }
}

fn holds_text(s: &String, lit: &str) -> (r: bool)
    ensures
        r == contains_seq(s@, lit@),
{
    let cs = char_vec(s.as_str());
    let pc = char_vec(lit);
    assert(cs@.subrange(0, cs@.len() as int) =~= cs@);
    has_pattern(&cs, 0, cs.len(), &pc)
}

/// Decides the terminal family from the values of `TERM_PROGRAM`, `WT_SESSION` and `TERM`.
pub fn classify_terminal(
    term_program: &Option<String>,
    wt_session: &Option<String>,
    term: &Option<String>,
) -> (r: TerminalType)
    ensures
        r == terminal_spec(opt_view(*term_program), opt_view(*wt_session), opt_view(*term)),
{
    if is_text(term_program, "iTerm.app") {
        return TerminalType::ITerm2;
    }
    if is_text(term_program, "Apple_Terminal") {
        return TerminalType::TerminalApp;
    }
    if is_text(term_program, "vscode") {
        return TerminalType::VSCode;
    }
    if let Some(w) = wt_session {
        if !w.as_str().is_empty() {
            return TerminalType::WindowsTerminal;
        }
    }
    if let Some(t) = term {
        if holds_text(t, "xterm") || holds_text(t, "screen") {
            return TerminalType::XTerm;
        }
    }
    TerminalType::Unknown
}

/// What closes an escape sequence: ST on xterm-like terminals, BEL elsewhere.
pub open spec fn terminator(t: TerminalType) -> Seq<char> {
    if t == TerminalType::XTerm {
        "\u{1b}\\"@
    } else {
        "\u{7}"@
    }
}

/// An OSC 8 hyperlink to `url` whose visible text is `text`, green and underlined.
pub open spec fn hyperlink_spec(text: Seq<char>, url: Seq<char>, t: TerminalType) -> Seq<char> {
    "\u{1b}]8;;"@ + url + terminator(t) + "\u{1b}[32m"@ + "\u{1b}[4m"@ + text + "\u{1b}[0m"@
        + "\u{1b}]8;;"@ + terminator(t)
}

/// Writes `text` as a hyperlink to `url` for the given terminal family.
pub fn hyperlink(text: &str, url: &str, terminal: TerminalType) -> (r: String)
    ensures
        r@ == hyperlink_spec(text@, url@, terminal),
{
    let end: &str = match terminal {
        TerminalType::XTerm => "\u{1b}\\",
        _ => "\u{7}",
    };
    let mut s = String::from_str("\u{1b}]8;;");
    s.append(url);
    s.append(end);
    s.append("\u{1b}[32m");
    s.append("\u{1b}[4m");
    s.append(text);
    s.append("\u{1b}[0m");
    s.append("\u{1b}]8;;");
    s.append(end);
    s
}

pub open spec fn developer_name() -> Seq<char> {
    "Linus Shyu"@
}

pub open spec fn developer_name_dylan() -> Seq<char> {
    "Dylan Su"@
}

/// The first developer's name, as the credits line shows it.
pub fn styled_developer_name() -> (r: String)
    ensures
        r@ == developer_name(),
{
    String::from_str("Linus Shyu")
}

/// The second developer's name, as the credits line shows it.
pub fn styled_developer_name_dylan() -> (r: String)
    ensures
        r@ == developer_name_dylan(),
{
    String::from_str("Dylan Su")
}

} // verus!
