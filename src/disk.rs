use vstd::prelude::*;
use vstd::string::StrSliceExecFns;
use crate::text::{char_vec, contains_seq, has_pattern, starts_with};

verus! {

/// One mounted filesystem, as the OS lists it.
#[derive(Clone, Debug)]
pub struct DiskEntry {
    /// The device name, which identifies a physical device.
    pub name: String,
    pub mount_point: String,
    pub file_system: String,
    pub total_space: u64,
    pub available_space: u64,
}

/// Summed disk space, in bytes.
#[derive(Clone, Copy, PartialEq, Eq, Debug)]
pub struct DiskTotals {
    pub total: u64,
    pub used: u64,
    pub available: u64,
}

/// Whether an entry is left out: an OS-private shadow volume, a pseudo filesystem, or a
/// mount at or under `/dev`, `/sys` or `/proc`.
pub open spec fn excluded(e: DiskEntry) -> bool {
    starts_with(e.mount_point@, "/System/Volumes/"@) || contains_seq(e.file_system@, "tmpfs"@)
        || contains_seq(e.file_system@, "devfs"@) || contains_seq(e.file_system@, "sysfs"@)
        || under(e.mount_point@, "/dev"@) || under(e.mount_point@, "/sys"@) || under(
        e.mount_point@,
        "/proc"@,
    )
}

/// Whether the path `p` is the directory `d` or lies beneath it.
pub open spec fn under(p: Seq<char>, d: Seq<char>) -> bool {
    starts_with(p, d) && (p.len() == d.len() || p[d.len() as int] == '/')
}

pub open spec fn views(s: Seq<String>) -> Seq<Seq<char>> {
    s.map_values(|x: String| x@)
}

pub open spec fn names(s: Seq<DiskEntry>) -> Seq<Seq<char>> {
    s.map_values(|e: DiskEntry| e.name@)
}

/// The entries that count: each not excluded, and the first of its device.
pub open spec fn counted(s: Seq<DiskEntry>) -> Seq<DiskEntry>
    decreases s.len(),
{
    if s.len() == 0 {
        seq![]
    } else {
        let k = counted(s.drop_last());
        if excluded(s.last()) || names(k).contains(s.last().name@) {
            k
        } else {
            k.push(s.last())
        }
    }
}

pub open spec fn cap(x: int) -> u64 {
    if x > u64::MAX {
        u64::MAX
    } else {
        x as u64
    }
}

/// The sum of the total sizes, held at the largest `u64` once it is reached.
pub open spec fn total_sum(s: Seq<DiskEntry>) -> u64
    decreases s.len(),
{
    if s.len() == 0 {
        0
    } else {
        cap(total_sum(s.drop_last()) + s.last().total_space)
    }
}

/// The sum of the available sizes, held at the largest `u64` once it is reached.
pub open spec fn available_sum(s: Seq<DiskEntry>) -> u64
    decreases s.len(),
{
    if s.len() == 0 {
        0
    } else {
        cap(available_sum(s.drop_last()) + s.last().available_space)
    }
}

/// The totals over the counted entries; used space is total less available, and zero
/// where the readings have more available than total.
pub open spec fn totals_spec(s: Seq<DiskEntry>) -> DiskTotals {
    let t = total_sum(counted(s));
    let a = available_sum(counted(s));
    DiskTotals {
        total: t,
        used: if t >= a {
            (t - a) as u64
        } else {
            0
        },
        available: a,
    }
}

fn has_prefix(s: &Vec<char>, p: &str) -> (r: bool)
    ensures
        r == starts_with(s@, p@),
{
    let pc = char_vec(p);
    if pc.len() > s.len() {
        return false;
    }
    let mut j: usize = 0;
    while j < pc.len()
        invariant
            j <= pc@.len(),
            pc@.len() <= s@.len(),
            pc@ == p@,
            forall|m: int| 0 <= m < j ==> s@[m] == pc@[m],
        decreases pc@.len() - j,
    {
        if s[j] != pc[j] {
            assert(s@.subrange(0, pc@.len() as int)[j as int] != p@[j as int]);
            return false;
        }
        j += 1;
    }
    assert(s@.subrange(0, pc@.len() as int) =~= p@);
    true
}

fn has_infix(s: &Vec<char>, p: &str) -> (r: bool)
    ensures
        r == contains_seq(s@, p@),
{
    let pc = char_vec(p);
    assert(s@.subrange(0, s@.len() as int) =~= s@);
    has_pattern(s, 0, s.len(), &pc)
}

fn is_under(p: &Vec<char>, d: &str) -> (r: bool)
    ensures
        r == under(p@, d@),
{
    if !has_prefix(p, d) {
        return false;
    }
    let dlen = d.unicode_len();
    dlen == p.len() || p[dlen] == '/'
}

/// Whether an entry is left out of the totals.
pub fn is_excluded(e: &DiskEntry) -> (r: bool)
    ensures
        r == excluded(*e),
{
    let mount = char_vec(e.mount_point.as_str());
    let fs = char_vec(e.file_system.as_str());
    has_prefix(&mount, "/System/Volumes/") || has_infix(&fs, "tmpfs") || has_infix(&fs, "devfs")
        || has_infix(&fs, "sysfs") || is_under(&mount, "/dev") || is_under(&mount, "/sys")
        || is_under(&mount, "/proc")
}

// The devices seen so far are kept in a `Vec`: vstd gives a std `HashSet` a key model
// only for integer and `bool` keys, so membership of a `String` in one could not be proved.
fn seen_before(seen: &Vec<String>, name: &String) -> (r: bool)
    ensures
        r == views(seen@).contains(name@),
{
    let mut i: usize = 0;
    while i < seen.len()
        invariant
            i <= seen@.len(),
            forall|j: int| 0 <= j < i ==> seen@[j]@ != name@,
        decreases seen@.len() - i,
    {
        if seen[i] == *name {
            assert(views(seen@)[i as int] == name@);
            return true;
        }
        i += 1;
    }
    assert forall|j: int| 0 <= j < seen@.len() implies #[trigger] views(seen@)[j] != name@ by {}
    false
}

/// Sums the space of the listed filesystems: excluded entries are skipped, and a device
/// counts once, at its first mount.
pub fn disk_totals(entries: &Vec<DiskEntry>) -> (r: DiskTotals)
    ensures
        r == totals_spec(entries@),
{
    let mut seen: Vec<String> = Vec::new();
    let mut total: u64 = 0;
    let mut available: u64 = 0;
    let mut i: usize = 0;
    assert(entries@.take(0) =~= Seq::<DiskEntry>::empty());
    assert(views(seen@) =~= names(counted(entries@.take(0))));
    while i < entries.len()
        invariant
            i <= entries@.len(),
            views(seen@) == names(counted(entries@.take(i as int))),
            total == total_sum(counted(entries@.take(i as int))),
            available == available_sum(counted(entries@.take(i as int))),
        decreases entries@.len() - i,
    {
        let e = &entries[i];
        let ghost k = counted(entries@.take(i as int));
        assert(entries@.take(i + 1).drop_last() =~= entries@.take(i as int));
        if !is_excluded(e) && !seen_before(&seen, &e.name) {
            let ghost before = seen@;
            seen.push(e.name.clone());
            assert(views(seen@) =~= views(before).push(
                e.name@,
            ));
            assert(names(k.push(*e)) =~= names(k).push(e.name@));
            assert(k.push(*e).drop_last() =~= k);
            total = if total > u64::MAX - e.total_space {
                u64::MAX
            } else {
                total + e.total_space
            };
            available = if available > u64::MAX - e.available_space {
                u64::MAX
            } else {
                available + e.available_space
            };
        }
        i += 1;
    }
    assert(entries@.take(entries@.len() as int) =~= entries@);
    let used = if total >= available {
        total - available
    } else {
        0
    };
    DiskTotals { total, used, available }
}

} // verus!
