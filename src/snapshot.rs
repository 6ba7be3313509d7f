use vstd::prelude::*;
use vstd::string::StrSliceExecFns;
use crate::disk::DiskTotals;
use crate::packages::PackageCount;
use crate::lines::{packages_list, packages_list_spec};
use crate::render::{dec_text, decimal, gb_hundredths, gb_text, gb_text_spec, uptime_text_spec};

verus! {

/// Processor readings: the logical core count, and the first core's brand and frequency
/// where there is a first core.
#[derive(Clone, Debug)]
pub struct CpuInfo {
    pub cores: usize,
    pub brand: Option<String>,
    pub frequency_mhz: Option<u64>,
}

/// Total and used bytes of physical memory or of swap.
#[derive(Clone, Copy, PartialEq, Eq, Debug)]
pub struct MemoryInfo {
    pub total_bytes: u64,
    pub used_bytes: u64,
}

/// Everything that one report shows, each metric resolved once.
#[derive(Clone, Debug)]
pub struct HostSnapshot {
    pub hostname: Option<String>,
    pub os_name: Option<String>,
    pub kernel_version: Option<String>,
    pub uptime_secs: Option<u64>,
    pub packages: Vec<PackageCount>,
    pub cpu: CpuInfo,
    pub memory: MemoryInfo,
    pub swap: MemoryInfo,
    pub disk: DiskTotals,
}

/// Widest uptime line: up to three digits of days and two of hours and minutes.
pub const UPTIME_LINE_WIDTH: u64 = 36;

/// Widest CPU usage line: `CPU Usage: 100.00%`.
pub const CPU_USAGE_LINE_WIDTH: u64 = 18;

/// Widest disk line: `Available Disk: 9999.99 GB`, the others being shorter.
pub const DISK_LINE_WIDTH: u64 = 26;

pub open spec fn max(a: int, b: int) -> int {
    if a >= b {
        a
    } else {
        b
    }
}

/// Length of a line `<label><text>` shown only when the text is there.
pub open spec fn opt_line(label_len: int, s: Option<String>) -> int {
    match s {
        Some(t) => label_len + t@.len(),
        None => 0,
    }
}

/// The length of the packages line `Packages: <count> (<manager>), ...`, which lists every
/// manager; zero where there is no such line.
pub open spec fn packages_width(ps: Seq<PackageCount>) -> int {
    if ps.len() == 0 {
        0
    } else {
        10 + packages_list_spec(ps).len() as int
    }
}

/// The length of `<label><GB figure> GB`.
pub open spec fn gb_line(label_len: int, bytes: u64) -> int {
    label_len + gb_text_spec(bytes as nat).len() + 3
}

/// The widest line of the report: the host name (`Unknown` where there is none), the OS
/// and kernel lines, the packages line, the CPU and memory lines as they will read, and
/// the widest that the uptime, CPU usage and disk lines can read.
pub open spec fn info_width(s: HostSnapshot) -> int {
    let host = match s.hostname {
        Some(h) => h@.len() as int,
        None => 7,
    };
    let freq = match s.cpu.frequency_mhz {
        Some(f) => 19 + dec_text(f as nat).len() as int,
        None => 0,
    };
    max(
        max(
            max(max(host, opt_line(4, s.os_name)), max(opt_line(8, s.kernel_version), UPTIME_LINE_WIDTH as int)),
            max(
                max(packages_width(s.packages@), 11 + dec_text(s.cpu.cores as nat).len() as int),
                max(max(opt_line(11, s.cpu.brand), freq), CPU_USAGE_LINE_WIDTH as int),
            ),
        ),
        max(
            max(gb_line(14, s.memory.total_bytes), gb_line(13, s.memory.used_bytes)),
            max(
                max(gb_line(19, s.swap.total_bytes), gb_line(18, s.swap.used_bytes)),
                DISK_LINE_WIDTH as int,
            ),
        ),
    )
}

fn max_u128(a: u128, b: u128) -> (r: u128)
    ensures
        r == max(a as int, b as int),
{
    if a >= b {
        a
    } else {
        b
    }
}

fn text_len(s: &String) -> (r: u128)
    ensures
        r == s@.len(),
        r <= usize::MAX,
{
    s.as_str().unicode_len() as u128
}

fn opt_line_len(label_len: u128, s: &Option<String>) -> (r: u128)
    requires
        label_len <= 100,
    ensures
        r == opt_line(label_len as int, *s),
{
    match s {
        Some(t) => label_len + text_len(t),
        None => 0,
    }
}

fn gb_line_len(label_len: u128, bytes: u64) -> (r: u128)
    requires
        label_len <= 100,
    ensures
        r == gb_line(label_len as int, bytes),
{
    let t = gb_text(bytes);
    label_len + text_len(&t) + 3
}

fn packages_line_len(ps: &Vec<PackageCount>) -> (r: u128)
    ensures
        r == packages_width(ps@),
        r <= usize::MAX as u128 + 10,
{
    if ps.len() == 0 {
        0
    } else {
        let list = packages_list(ps);
        10 + text_len(&list)
    }
}

proof fn lemma_dec_text_len(n: nat)
    requires
        n <= u64::MAX,
    ensures
        dec_text(n).len() <= 20,
{
    reveal_with_fuel(pow10, 21);
    assert(pow10(20) == 100000000000000000000nat);
    lemma_dec_text_len_bound(n, 20);
}

proof fn lemma_dec_text_len_bound(n: nat, k: nat)
    requires
        n < pow10(k),
        k >= 1,
    ensures
        dec_text(n).len() <= k,
    decreases k,
{
    if n >= 10 {
        reveal_with_fuel(pow10, 2);
        let p = pow10((k - 1) as nat);
        assert(n / 10 < p) by (nonlinear_arith)
            requires
                n < 10 * p,
        ;
        lemma_dec_text_len_bound(n / 10, (k - 1) as nat);
    }
}

spec fn pow10(k: nat) -> nat
    decreases k,
{
    if k == 0 {
        1
    } else {
        10 * pow10((k - 1) as nat)
    }
}

/// The separator is as wide as every line of the report: the host, OS and kernel lines,
/// the packages line, the CPU lines but the usage line, which is never wider than its own
/// bound, the memory and swap lines, the uptime line while the uptime is under a thousand
/// days, and the disk lines while each figure is at most 9999.99 GB.
pub proof fn lemma_width_covers_lines(s: HostSnapshot)
    ensures
        info_width(s) >= match s.hostname {
            Some(h) => h@.len() as int,
            None => 7,
        },
        info_width(s) >= opt_line(4, s.os_name),
        info_width(s) >= opt_line(8, s.kernel_version),
        info_width(s) >= packages_width(s.packages@),
        info_width(s) >= 11 + dec_text(s.cpu.cores as nat).len(),
        info_width(s) >= opt_line(11, s.cpu.brand),
        (match s.cpu.frequency_mhz {
            Some(f) => info_width(s) >= 19 + dec_text(f as nat).len(),
            None => true,
        }),
        info_width(s) >= CPU_USAGE_LINE_WIDTH,
        info_width(s) >= gb_line(14, s.memory.total_bytes),
        info_width(s) >= gb_line(13, s.memory.used_bytes),
        info_width(s) >= gb_line(19, s.swap.total_bytes),
        info_width(s) >= gb_line(18, s.swap.used_bytes),
        (match s.uptime_secs {
            Some(u) => u / 86400 < 1000 ==> info_width(s) >= 8 + uptime_text_spec(u as nat).len(),
            None => true,
        }),
        gb_hundredths(s.disk.total as nat) < 1000000 ==> info_width(s) >= gb_line(
            12,
            s.disk.total,
        ),
        gb_hundredths(s.disk.used as nat) < 1000000 ==> info_width(s) >= gb_line(
            11,
            s.disk.used,
        ),
        gb_hundredths(s.disk.available as nat) < 1000000 ==> info_width(s) >= gb_line(
            16,
            s.disk.available,
        ),
{
    reveal_with_fuel(pow10, 5);
    if let Some(u) = s.uptime_secs {
        if u / 86400 < 1000 {
            reveal_strlit(" Days ");
            reveal_strlit(" Hours ");
            reveal_strlit(" Minutes");
            assert((u as nat % 86400) / 3600 < 100);
            assert((u as nat % 3600) / 60 < 100);
            lemma_dec_text_len_bound(u as nat / 86400, 3);
            lemma_dec_text_len_bound((u as nat % 86400) / 3600, 2);
            lemma_dec_text_len_bound((u as nat % 3600) / 60, 2);
        }
    }
    if gb_hundredths(s.disk.total as nat) < 1000000 {
        lemma_dec_text_len_bound(gb_hundredths(s.disk.total as nat) / 100, 4);
    }
    if gb_hundredths(s.disk.used as nat) < 1000000 {
        lemma_dec_text_len_bound(gb_hundredths(s.disk.used as nat) / 100, 4);
    }
    if gb_hundredths(s.disk.available as nat) < 1000000 {
        lemma_dec_text_len_bound(gb_hundredths(s.disk.available as nat) / 100, 4);
    }
}

/// The width of the separator rule: the widest line of the report.
pub fn max_info_width(s: &HostSnapshot) -> (r: u128)
    ensures
        r == info_width(*s),
{
    let host: u128 = match &s.hostname {
        Some(h) => text_len(h),
        None => 7,
    };
    let freq: u128 = match s.cpu.frequency_mhz {
        Some(f) => {
            let d = decimal(f);
            assert(d@.len() <= 20) by {
                lemma_dec_text_len(f as nat);
            }
            19 + text_len(&d)
        },
        None => 0,
    };
    let cores = decimal(s.cpu.cores as u64);
    assert(cores@.len() <= 20) by {
        lemma_dec_text_len(s.cpu.cores as nat);
    }
    let a = max_u128(
        max_u128(max_u128(host, opt_line_len(4, &s.os_name)), max_u128(opt_line_len(8, &s.kernel_version), UPTIME_LINE_WIDTH as u128)),
        max_u128(
            max_u128(packages_line_len(&s.packages), 11 + text_len(&cores)),
            max_u128(max_u128(opt_line_len(11, &s.cpu.brand), freq), CPU_USAGE_LINE_WIDTH as u128),
        ),
    );
    let b = max_u128(
        max_u128(gb_line_len(14, s.memory.total_bytes), gb_line_len(13, s.memory.used_bytes)),
        max_u128(
            max_u128(gb_line_len(19, s.swap.total_bytes), gb_line_len(18, s.swap.used_bytes)),
            DISK_LINE_WIDTH as u128,
        ),
    );
    max_u128(a, b)
}

} // verus!
