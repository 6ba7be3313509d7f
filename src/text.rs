use vstd::prelude::*;
use vstd::std_specs::iter::IteratorSpec;

verus! {

/// The pieces of `s` when split at every `'\n'`; there is always at least one.
pub open spec fn pieces(s: Seq<char>) -> Seq<Seq<char>>
    decreases s.len(),
{
    if s.len() == 0 {
        seq![Seq::<char>::empty()]
    } else {
        let p = pieces(s.drop_last());
        if s.last() == '\n' {
            p.push(Seq::<char>::empty())
        } else {
            p.update(p.len() - 1, p.last().push(s.last()))
        }
    }
}

/// The lines of `s`: the pieces, without the empty piece after a final `'\n'`. A `'\r'`
/// before a line break stays in its line; no rule of `LineRule` reads it differently.
pub open spec fn lines_of(s: Seq<char>) -> Seq<Seq<char>> {
    let p = pieces(s);
    if p.last().len() == 0 {
        p.drop_last()
    } else {
        p
    }
}

/// The characters that Unicode lists as white space.
pub open spec fn is_space(c: char) -> bool {
    ('\u{9}' <= c && c <= '\u{d}') || c == ' ' || c == '\u{85}' || c == '\u{a0}'
        || c == '\u{1680}' || ('\u{2000}' <= c && c <= '\u{200a}') || c == '\u{2028}'
        || c == '\u{2029}' || c == '\u{202f}' || c == '\u{205f}' || c == '\u{3000}'
}

pub open spec fn is_blank(l: Seq<char>) -> bool {
    forall|k: int| 0 <= k < l.len() ==> is_space(#[trigger] l[k])
}

pub open spec fn occurs_at(l: Seq<char>, pat: Seq<char>, k: int) -> bool {
    0 <= k && k + pat.len() <= l.len() && l.subrange(k, k + pat.len()) == pat
}

pub open spec fn contains_seq(l: Seq<char>, pat: Seq<char>) -> bool {
    exists|k: int| occurs_at(l, pat, k)
}

pub open spec fn starts_with(l: Seq<char>, pat: Seq<char>) -> bool {
    occurs_at(l, pat, 0)
}

/// The header line that an RPM-family package lister prints.
pub open spec fn rpm_header() -> Seq<char> {
    "Installed packages"@
}

/// Which lines of a probe's output are counted.
#[derive(Clone, Copy, PartialEq, Eq, Debug)]
pub enum LineRule {
    /// Every line.
    Every,
    /// Lines that begin with the installed-status marker `ii`.
    InstalledMarker,
    /// Lines that hold a `/`.
    HasSlash,
    /// Lines that hold a character other than white space.
    NonBlank,
    /// Non-blank lines other than the RPM header line.
    NonBlankNotHeader,
}

pub open spec fn rule_holds(rule: LineRule, l: Seq<char>) -> bool {
    match rule {
        LineRule::Every => true,
        LineRule::InstalledMarker => l.len() >= 2 && l[0] == 'i' && l[1] == 'i',
        LineRule::HasSlash => l.contains('/'),
        LineRule::NonBlank => !is_blank(l),
        LineRule::NonBlankNotHeader => !is_blank(l) && !contains_seq(l, rpm_header()),
    }
}

/// How many of the lines `ls` satisfy `rule`.
pub open spec fn count_where(ls: Seq<Seq<char>>, rule: LineRule) -> nat
    decreases ls.len(),
{
    if ls.len() == 0 {
        0
    } else {
        count_where(ls.drop_last(), rule) + if rule_holds(rule, ls.last()) { 1nat } else { 0nat }
    }
}

/// How many lines of `s` satisfy `rule`.
pub open spec fn lines_matching(s: Seq<char>, rule: LineRule) -> nat {
    count_where(lines_of(s), rule)
}

/// The characters of `s`, in order.
pub fn char_vec(s: &str) -> (r: Vec<char>)
    ensures
        r@ == s@,
{
    broadcast use vstd::string::axiom_spec_iter, vstd::string::next_postcondition;

    let mut it = s.chars();
    let mut r: Vec<char> = Vec::new();
    loop
        invariant
            it.obeys_prophetic_iter_laws(),
            r@ + it.remaining() == s@,
            it.decrease() is Some,
        decreases it.decrease()->0,
    {
        match it.next() {
            Some(c) => {
                r.push(c);
            },
            None => {
                assert(r@ + it.remaining() =~= r@);
                return r;
            },
        }
    }
}

/// Whether `c` is Unicode white space.
pub fn is_space_char(c: char) -> (r: bool)
    ensures
        r == is_space(c),
{
    ('\u{9}' <= c && c <= '\u{d}') || c == ' ' || c == '\u{85}' || c == '\u{a0}'
        || c == '\u{1680}' || ('\u{2000}' <= c && c <= '\u{200a}') || c == '\u{2028}'
        || c == '\u{2029}' || c == '\u{202f}' || c == '\u{205f}' || c == '\u{3000}'
}

fn has_char(cs: &Vec<char>, start: usize, end: usize, c: char) -> (r: bool)
    requires
        start <= end <= cs@.len(),
    ensures
        r == cs@.subrange(start as int, end as int).contains(c),
{
    let mut k = start;
    while k < end
        invariant
            start <= k <= end,
            end <= cs@.len(),
            forall|j: int| start <= j < k ==> cs@[j] != c,
        decreases end - k,
    {
        if cs[k] == c {
            assert(cs@.subrange(start as int, end as int).contains(c)) by {
                assert(cs@.subrange(start as int, end as int)[k - start] == cs@[k as int]);
            }
            return true;
        }
        k += 1;
    }
    assert forall|j: int| 0 <= j < end - start implies cs@.subrange(
        start as int,
        end as int,
    )[j] != c by {
        assert(cs@.subrange(start as int, end as int)[j] == cs@[start + j]);
    }
    false
}

fn all_space(cs: &Vec<char>, start: usize, end: usize) -> (r: bool)
    requires
        start <= end <= cs@.len(),
    ensures
        r == is_blank(cs@.subrange(start as int, end as int)),
{
    let mut k = start;
    while k < end
        invariant
            start <= k <= end,
            end <= cs@.len(),
            forall|j: int| start <= j < k ==> is_space(cs@[j]),
        decreases end - k,
    {
        if !is_space_char(cs[k]) {
            assert(cs@.subrange(start as int, end as int)[k - start] == cs@[k as int]);
            return false;
        }
        k += 1;
    }
    assert forall|j: int| 0 <= j < end - start implies is_space(
        #[trigger] cs@.subrange(start as int, end as int)[j],
    ) by {
        assert(cs@.subrange(start as int, end as int)[j] == cs@[start + j]);
    }
    true
}

fn matches_at(cs: &Vec<char>, k: usize, pat: &Vec<char>) -> (r: bool)
    requires
        k + pat@.len() <= cs@.len(),
    ensures
        r == (cs@.subrange(k as int, k + pat@.len()) == pat@),
{
    let mut j: usize = 0;
    while j < pat.len()
        invariant
            k + pat@.len() <= cs@.len(),
            k + pat@.len() <= cs.len(),
            j <= pat@.len(),
            forall|m: int| 0 <= m < j ==> cs@[k + m] == pat@[m],
        decreases pat@.len() - j,
    {
        if cs[k + j] != pat[j] {
            assert(cs@.subrange(k as int, k + pat@.len())[j as int] != pat@[j as int]);
            return false;
        }
        j += 1;
    }
    assert(cs@.subrange(k as int, k + pat@.len()) =~= pat@);
    true
}

pub(crate) fn has_pattern(cs: &Vec<char>, start: usize, end: usize, pat: &Vec<char>) -> (r: bool)
    requires
        start <= end <= cs@.len(),
    ensures
        r == contains_seq(cs@.subrange(start as int, end as int), pat@),
{
    let ghost l = cs@.subrange(start as int, end as int);
    if end - start < pat.len() {
        assert forall|k: int| !occurs_at(l, pat@, k) by {}
        return false;
    }
    let last = end - pat.len();
    let mut k = start;
    loop
        invariant
            start <= k <= last,
            last + pat@.len() == end,
            end <= cs@.len(),
            l == cs@.subrange(start as int, end as int),
            forall|m: int| 0 <= m < k - start ==> !occurs_at(l, pat@, m),
        decreases last - k,
    {
        if matches_at(cs, k, pat) {
            assert(l.subrange(k - start, k - start + pat@.len()) =~= cs@.subrange(
                k as int,
                k + pat@.len(),
            ));
            assert(occurs_at(l, pat@, k - start));
            return true;
        }
        assert(l.subrange(k - start, k - start + pat@.len()) =~= cs@.subrange(
            k as int,
            k + pat@.len(),
        ));
        if k == last {
            assert forall|m: int| !occurs_at(l, pat@, m) by {
                if 0 <= m && m < k - start {
                }
            }
            return false;
        }
        k += 1;
    }
}

/// The first position at which `pat` occurs in `cs`, if it occurs.
pub(crate) fn find_pattern(cs: &Vec<char>, pat: &Vec<char>) -> (r: Option<usize>)
    ensures
        match r {
            Some(k) => occurs_at(cs@, pat@, k as int) && forall|j: int|
                0 <= j < k ==> !occurs_at(cs@, pat@, j),
            None => forall|j: int| !occurs_at(cs@, pat@, j),
        },
{
    if cs.len() < pat.len() {
        return None;
    }
    let last = cs.len() - pat.len();
    let mut k: usize = 0;
    loop
        invariant
            k <= last,
            last + pat@.len() == cs@.len(),
            forall|j: int| 0 <= j < k ==> !occurs_at(cs@, pat@, j),
        decreases last - k,
    {
        if matches_at(cs, k, pat) {
            return Some(k);
        }
        if k == last {
            assert forall|j: int| !occurs_at(cs@, pat@, j) by {
                if 0 <= j < k {
                }
            }
            return None;
        }
        k += 1;
    }
}

/// Whether the line `cs[start..end]` satisfies `rule`.
fn line_holds(cs: &Vec<char>, start: usize, end: usize, rule: LineRule, pat: &Vec<char>) -> (r:
    bool)
    requires
        start <= end <= cs@.len(),
        pat@ == rpm_header(),
    ensures
        r == rule_holds(rule, cs@.subrange(start as int, end as int)),
{
    match rule {
        LineRule::Every => true,
        LineRule::InstalledMarker => end - start >= 2 && cs[start] == 'i' && cs[start + 1] == 'i',
        LineRule::HasSlash => has_char(cs, start, end, '/'),
        LineRule::NonBlank => !all_space(cs, start, end),
        LineRule::NonBlankNotHeader => !all_space(cs, start, end) && !has_pattern(
            cs,
            start,
            end,
            pat,
        ),
    }
}

/// How many lines of `text` satisfy `rule`; the lines are those that `str::lines` yields.
pub fn count_lines(text: &str, rule: LineRule) -> (n: usize)
    ensures
        n == lines_matching(text@, rule),
{
    let cs = char_vec(text);
    let pat = char_vec("Installed packages");
    let mut start: usize = 0;
    let mut n: usize = 0;
    let mut i: usize = 0;
    assert(cs@.take(0) =~= Seq::<char>::empty());
    while i < cs.len()
        invariant
            start <= i <= cs@.len(),
            cs@ == text@,
            pat@ == rpm_header(),
            n <= start,
            pieces(cs@.take(i as int)).len() >= 1,
            pieces(cs@.take(i as int)).last() == cs@.subrange(start as int, i as int),
            n == count_where(pieces(cs@.take(i as int)).drop_last(), rule),
        decreases cs@.len() - i,
    {
        let ghost p = pieces(cs@.take(i as int));
        assert(cs@.take(i + 1).drop_last() =~= cs@.take(i as int));
        if cs[i] == '\n' {
            let ok = line_holds(&cs, start, i, rule, &pat);
            assert(pieces(cs@.take(i + 1)) == p.push(Seq::<char>::empty()));
            assert(p.push(Seq::<char>::empty()).drop_last() =~= p);
            assert(p.drop_last() =~= p.take(p.len() - 1));
            if ok {
                n += 1;
            }
            start = i + 1;
            assert(cs@.subrange(start as int, start as int) =~= Seq::<char>::empty());
        } else {
            let ghost q = p.update(p.len() - 1, p.last().push(cs@[i as int]));
            assert(pieces(cs@.take(i + 1)) == q);
            assert(q.drop_last() =~= p.drop_last());
            assert(q.last() =~= cs@.subrange(start as int, i + 1));
        }
        i += 1;
    }
    assert(cs@.take(cs@.len() as int) =~= cs@);
    let ghost p = pieces(cs@);
    if start < cs.len() {
        assert(p.drop_last() =~= p.take(p.len() - 1));
        if line_holds(&cs, start, cs.len(), rule, &pat) {
            n += 1;
        }
    }
    n
}

} // verus!
