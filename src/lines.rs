use vstd::prelude::*;
use vstd::string::StringExecFns;
use crate::packages::PackageCount;
use crate::render::{dec_text, decimal, gb_text, gb_text_spec, uptime_text};

verus! {

/// The two foreground colours of the report: labels and values.
#[derive(Clone, Copy, PartialEq, Eq, Debug)]
pub enum Tint {
    Green,
    Cyan,
}

/// The SGR code of a tint.
pub open spec fn tint_code(t: Tint) -> Seq<char> {
    match t {
        Tint::Green => "32"@,
        Tint::Cyan => "36"@,
    }
}

/// `s` between the escape that selects the tint and the one that resets.
pub open spec fn painted(t: Tint, s: Seq<char>) -> Seq<char> {
    "\u{1b}["@ + tint_code(t) + "m"@ + s + "\u{1b}[0m"@
}

/// Relies on `ansi_term::Colour::paint` and the `Display` of what it returns: for a plain
/// foreground colour it writes `ESC [ <code> m`, the text, then `ESC [ 0 m`.
#[verifier::external_body]
fn paint(t: Tint, s: &str) -> (r: String)
    ensures
        r@ == painted(t, s@),
{
    let colour = match t {
        Tint::Green => ansi_term::Colour::Green,
        Tint::Cyan => ansi_term::Colour::Cyan,
    };
    colour.paint(s).to_string()
}

/// A green label, a space, and a cyan value.
pub open spec fn label_value_spec(label: Seq<char>, value: Seq<char>) -> Seq<char> {
    painted(Tint::Green, label) + " "@ + painted(Tint::Cyan, value)
}

/// A report line: the label in green, then the value in cyan.
pub fn label_value_line(label: &str, value: &str) -> (r: String)
    ensures
        r@ == label_value_spec(label@, value@),
{
    proof {
        reveal_strlit(" ");
    }
    let mut s = paint(Tint::Green, label);
    s.append(" ");
    let v = paint(Tint::Cyan, value);
    s.append(v.as_str());
    s
}

/// The host line: the host name in cyan, `Unknown` where there is none.
pub open spec fn host_line_spec(hostname: Option<Seq<char>>) -> Seq<char> {
    match hostname {
        Some(h) => painted(Tint::Cyan, h),
        None => painted(Tint::Cyan, "Unknown"@),
    }
}

/// Shows the host name that heads the report.
pub fn host_line(hostname: &Option<String>) -> (r: String)
    ensures
        r@ == host_line_spec(match hostname {
            Some(h) => Some(h@),
            None => None,
        }),
{
    match hostname {
        Some(h) => paint(Tint::Cyan, h.as_str()),
        None => paint(Tint::Cyan, "Unknown"),
    }
}

/// A size line: the label, the size in gigabytes, and the unit.
pub open spec fn gb_line_spec(label: Seq<char>, bytes: nat) -> Seq<char> {
    label_value_spec(label, gb_text_spec(bytes)) + " GB"@
}

/// A memory, swap or disk line, the size shown in gigabytes with two decimals.
pub fn gb_value_line(label: &str, bytes: u64) -> (r: String)
    ensures
        r@ == gb_line_spec(label@, bytes as nat),
{
    proof {
        reveal_strlit(" GB");
    }
    let g = gb_text(bytes);
    let mut s = label_value_line(label, g.as_str());
    s.append(" GB");
    s
}

/// The uptime line: days, hours and minutes with their units, or `N/A` where no
/// source gave a plausible uptime.
pub open spec fn uptime_line_spec(secs: Option<u64>) -> Seq<char> {
    match secs {
        Some(s) => painted(Tint::Green, "Uptime:"@) + " "@ + painted(
            Tint::Cyan,
            dec_text(s as nat / 86400),
        ) + " "@ + painted(Tint::Green, "Days"@) + " "@ + painted(
            Tint::Cyan,
            dec_text((s as nat % 86400) / 3600),
        ) + " "@ + painted(Tint::Green, "Hours"@) + " "@ + painted(
            Tint::Cyan,
            dec_text((s as nat % 3600) / 60),
        ) + " "@ + painted(Tint::Green, "Minutes"@),
        None => label_value_spec("Uptime:"@, "N/A"@),
    }
}

fn push_painted(s: &mut String, t: Tint, text: &str)
    ensures
        final(s)@ == old(s)@ + " "@ + painted(t, text@),
{
    proof {
        reveal_strlit(" ");
    }
    s.append(" ");
    let p = paint(t, text);
    s.append(p.as_str());
}

/// Shows the uptime line.
pub fn uptime_line(secs: Option<u64>) -> (r: String)
    ensures
        r@ == uptime_line_spec(secs),
{
    match secs {
        Some(s) => {
            let mut r = paint(Tint::Green, "Uptime:");
            let d = decimal(s / 86400);
            push_painted(&mut r, Tint::Cyan, d.as_str());
            push_painted(&mut r, Tint::Green, "Days");
            let h = decimal((s % 86400) / 3600);
            push_painted(&mut r, Tint::Cyan, h.as_str());
            push_painted(&mut r, Tint::Green, "Hours");
            let m = decimal((s % 3600) / 60);
            push_painted(&mut r, Tint::Cyan, m.as_str());
            push_painted(&mut r, Tint::Green, "Minutes");
            r
        },
        None => label_value_line("Uptime:", "N/A"),
    }
}

/// `<count> (<manager>)` for each entry, joined by `, `.
pub open spec fn packages_list_spec(ps: Seq<PackageCount>) -> Seq<char>
    decreases ps.len(),
{
    if ps.len() == 0 {
        Seq::empty()
    } else {
        let item = dec_text(ps.last().count as nat) + " ("@ + ps.last().manager@ + ")"@;
        if ps.len() == 1 {
            item
        } else {
            packages_list_spec(ps.drop_last()) + ", "@ + item
        }
    }
}

/// The packages line: nothing where no manager reported packages.
pub open spec fn packages_line_spec(ps: Seq<PackageCount>) -> Option<Seq<char>> {
    if ps.len() == 0 {
        None
    } else {
        Some(painted(Tint::Green, "Packages: "@) + painted(Tint::Cyan, packages_list_spec(ps)))
    }
}

/// The package counts as the packages line lists them, as `42 (brew), 10 (apt)`.
pub fn packages_list(ps: &Vec<PackageCount>) -> (r: String)
    ensures
        r@ == packages_list_spec(ps@),
{
    proof {
        reveal_strlit(" (");
        reveal_strlit(")");
        reveal_strlit(", ");
    }
    let mut list = String::new();
    let mut i: usize = 0;
    assert(ps@.take(0) =~= Seq::<PackageCount>::empty());
    while i < ps.len()
        invariant
            i <= ps@.len(),
            list@ == packages_list_spec(ps@.take(i as int)),
        decreases ps@.len() - i,
    {
        assert(ps@.take(i + 1).drop_last() =~= ps@.take(i as int));
        if i > 0 {
            list.append(", ");
        }
        let d = decimal(ps[i].count as u64);
        list.append(d.as_str());
        list.append(" (");
        list.append(ps[i].manager.as_str());
        list.append(")");
        i += 1;
    }
    assert(ps@.take(ps@.len() as int) =~= ps@);
    list
}

/// Shows the package counts on one line, as `Packages: 42 (brew), 10 (apt)`.
pub fn packages_line(ps: &Vec<PackageCount>) -> (r: Option<String>)
    ensures
        match r {
            Some(s) => packages_line_spec(ps@) == Some(s@),
            None => packages_line_spec(ps@) is None,
        },
{
    if ps.len() == 0 {
        return None;
    }
    let list = packages_list(ps);
    let mut s = paint(Tint::Green, "Packages: ");
    let v = paint(Tint::Cyan, list.as_str());
    s.append(v.as_str());
    Some(s)
}

} // verus!
