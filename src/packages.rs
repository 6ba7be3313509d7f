use vstd::prelude::*;
use vstd::string::StringExecFns;
use crate::text::{count_lines, lines_matching, LineRule};

verus! {

/// Why a probe gave no output.
#[derive(Clone, Copy, PartialEq, Eq, Debug)]
pub enum ProbeFailure {
    /// The command could not be started (binary missing).
    NotFound,
    /// The command ran and failed (non-zero exit or an I/O error).
    NonZeroExit,
    /// The command did not finish within the time allowed and was stopped.
    TimedOut,
}

/// The output of a command that was run: its text, or why there is none.
pub type ProbeOutput = Result<String, ProbeFailure>;

/// Number of header rows that the Windows package manager prints.
pub const WINGET_HEADER_ROWS: usize = 2;

/// One package manager and how many packages it reported.
#[derive(Clone, Debug)]
pub struct PackageCount {
    pub manager: String,
    pub count: usize,
}

pub open spec fn output_text(o: ProbeOutput) -> Option<Seq<char>> {
    match o {
        Ok(t) => Some(t@),
        Err(_) => None,
    }
}

pub open spec fn winget_spec(t: Seq<char>) -> nat {
    let n = lines_matching(t, LineRule::NonBlank);
    if n > WINGET_HEADER_ROWS {
        (n - WINGET_HEADER_ROWS) as nat
    } else {
        0
    }
}

/// The Debian-family count: from the primary lister when it ran, else from the front end.
pub open spec fn apt_spec(dpkg: Option<Seq<char>>, apt: Option<Seq<char>>) -> Option<nat> {
    match dpkg {
        Some(t) => Some(lines_matching(t, LineRule::InstalledMarker)),
        None => match apt {
            Some(t) => Some(lines_matching(t, LineRule::HasSlash)),
            None => None,
        },
    }
}

/// One entry for a manager that reported a positive count, none otherwise.
pub open spec fn entry(name: Seq<char>, c: Option<nat>) -> Seq<(Seq<char>, nat)> {
    match c {
        Some(n) => if n > 0 {
            seq![(name, n)]
        } else {
            seq![]
        },
        None => seq![],
    }
}

/// The package counts, in probe order, of every manager with a positive count.
pub open spec fn packages_spec(
    brew: Option<Seq<char>>,
    dpkg: Option<Seq<char>>,
    apt: Option<Seq<char>>,
    winget: Option<Seq<char>>,
    yum: Option<Seq<char>>,
) -> Seq<(Seq<char>, nat)> {
    entry("brew"@, count_of(brew, LineRule::Every)) + entry("apt"@, apt_spec(dpkg, apt))
        + entry("winget"@, winget_of(winget)) + entry(
        "yum"@,
        count_of(yum, LineRule::NonBlankNotHeader),
    )
}

pub open spec fn count_of(o: Option<Seq<char>>, rule: LineRule) -> Option<nat> {
    match o {
        Some(t) => Some(lines_matching(t, rule)),
        None => None,
    }
}

pub open spec fn winget_of(o: Option<Seq<char>>) -> Option<nat> {
    match o {
        Some(t) => Some(winget_spec(t)),
        None => None,
    }
}

pub open spec fn counts_view(v: Seq<PackageCount>) -> Seq<(Seq<char>, nat)> {
    v.map_values(|p: PackageCount| (p.manager@, p.count as nat))
}

/// Packages counted from the formula lister's output: one per line.
pub fn brew_count(out: &str) -> (n: usize)
    ensures
        n == lines_matching(out@, LineRule::Every),
{
    count_lines(out, LineRule::Every)
}

/// Packages counted from the Debian primary lister: lines that start with `ii`.
pub fn dpkg_count(out: &str) -> (n: usize)
    ensures
        n == lines_matching(out@, LineRule::InstalledMarker),
{
    count_lines(out, LineRule::InstalledMarker)
}

/// Packages counted from the Debian front end: lines that hold a `/`.
pub fn apt_count(out: &str) -> (n: usize)
    ensures
        n == lines_matching(out@, LineRule::HasSlash),
{
    count_lines(out, LineRule::HasSlash)
}

/// Packages counted from the Windows package manager: non-blank lines less the header rows,
/// and zero where there are no more lines than header rows.
pub fn winget_count(out: &str) -> (n: usize)
    ensures
        n == winget_spec(out@),
{
    let lines = count_lines(out, LineRule::NonBlank);
    if lines > WINGET_HEADER_ROWS {
        lines - WINGET_HEADER_ROWS
    } else {
        0
    }
}

/// Packages counted from the RPM-family lister: non-blank lines but the header.
pub fn yum_count(out: &str) -> (n: usize)
    ensures
        n == lines_matching(out@, LineRule::NonBlankNotHeader),
{
    count_lines(out, LineRule::NonBlankNotHeader)
}

/// Whether the Debian front end is to be asked: only when the primary lister failed.
pub fn needs_apt_fallback(dpkg: &ProbeOutput) -> (r: bool)
    ensures
        r == (output_text(*dpkg) is None),
{
    dpkg.is_err()
}

fn push_entry(v: &mut Vec<PackageCount>, name: &str, c: Option<usize>)
    ensures
        counts_view(final(v)@) == counts_view(old(v)@) + entry(
            name@,
            match c {
                Some(n) => Some(n as nat),
                None => None,
            },
        ),
{
    let ghost before = v@;
    if let Some(n) = c {
        if n > 0 {
            v.push(PackageCount { manager: String::from_str(name), count: n });
            assert(counts_view(v@) =~= counts_view(before) + seq![(name@, n as nat)]);
            return ;
        }
    }
    assert(counts_view(v@) =~= counts_view(before) + Seq::<(Seq<char>, nat)>::empty());
}

/// The package counts of every manager that reported a positive count, in the order
/// brew, apt, winget, yum. The Debian front end's output `apt` is read only where the
/// primary lister `dpkg` failed; a failed probe contributes nothing.
pub fn resolve_packages(
    brew: &ProbeOutput,
    dpkg: &ProbeOutput,
    apt: &ProbeOutput,
    winget: &ProbeOutput,
    yum: &ProbeOutput,
) -> (r: Vec<PackageCount>)
    ensures
        counts_view(r@) == packages_spec(
            output_text(*brew),
            output_text(*dpkg),
            output_text(*apt),
            output_text(*winget),
            output_text(*yum),
        ),
{
    let mut r: Vec<PackageCount> = Vec::new();
    let b = match brew {
        Ok(t) => Some(brew_count(t.as_str())),
        Err(_) => None,
    };
    proof {
        reveal_strlit("brew");
        reveal_strlit("apt");
        reveal_strlit("winget");
        reveal_strlit("yum");
    }
    assert(counts_view(r@) =~= Seq::<(Seq<char>, nat)>::empty());
    push_entry(&mut r, "brew", b);
    let a = match dpkg {
        Ok(t) => Some(dpkg_count(t.as_str())),
        Err(_) => match apt {
            Ok(t) => Some(apt_count(t.as_str())),
            Err(_) => None,
        },
    };
    push_entry(&mut r, "apt", a);
    let w = match winget {
        Ok(t) => Some(winget_count(t.as_str())),
        Err(_) => None,
    };
    push_entry(&mut r, "winget", w);
    let y = match yum {
        Ok(t) => Some(yum_count(t.as_str())),
        Err(_) => None,
    };
    push_entry(&mut r, "yum", y);
    r
}

/// Two rounds of probing whose outputs read the same give the same package counts: the
/// resolver depends on the probes' text alone, not on when or how often it is asked.
pub proof fn lemma_packages_repeatable(
    first: (ProbeOutput, ProbeOutput, ProbeOutput, ProbeOutput, ProbeOutput),
    second: (ProbeOutput, ProbeOutput, ProbeOutput, ProbeOutput, ProbeOutput),
)
    requires
        output_text(first.0) == output_text(second.0),
        output_text(first.1) == output_text(second.1),
        output_text(first.2) == output_text(second.2),
        output_text(first.3) == output_text(second.3),
        output_text(first.4) == output_text(second.4),
    ensures
        packages_spec(
            output_text(first.0),
            output_text(first.1),
            output_text(first.2),
            output_text(first.3),
            output_text(first.4),
        ) == packages_spec(
            output_text(second.0),
            output_text(second.1),
            output_text(second.2),
            output_text(second.3),
            output_text(second.4),
        ),
{
}

} // verus!
