use starfetch::{
    apt_count, brew_count, count_lines, decimal, disk_totals, dpkg_count, gb_text, is_excluded,
    needs_apt_fallback, parse_boottime, plausible_uptime, resolve_packages, resolve_uptime, uptime_from_boottime,
    uptime_text, winget_count, yum_count, DiskEntry, DiskTotals, LineRule, PackageCount,
    ProbeFailure, ProbeOutput, MAX_UPTIME_SECS,
};

fn lines_of(prefix: &str, n: usize) -> String {
    let mut s = String::new();
    for i in 0..n {
        s.push_str(&format!("{}{}\n", prefix, i));
    }
    s
}

fn pairs(v: &[PackageCount]) -> Vec<(String, usize)> {
    v.iter().map(|p| (p.manager.clone(), p.count)).collect()
}

fn missing() -> ProbeOutput {
    Err(ProbeFailure::NotFound)
}

#[test]
fn count_lines_follows_str_lines() {
    assert_eq!(count_lines("", LineRule::Every), 0);
    assert_eq!(count_lines("a", LineRule::Every), 1);
    assert_eq!(count_lines("a\nb\n", LineRule::Every), 2);
    assert_eq!(count_lines("a\r\nb", LineRule::Every), 2);
    assert_eq!(count_lines("\n\n", LineRule::Every), 2);
    assert_eq!(count_lines("  \n\t\nx\n", LineRule::NonBlank), 1);
}

#[test]
fn brew_only_gives_brew_entry() {
    let brew: ProbeOutput = Ok(lines_of("formula", 42));
    let r = resolve_packages(&brew, &missing(), &missing(), &missing(), &missing());
    assert_eq!(pairs(&r), vec![("brew".to_string(), 42)]);
}

#[test]
fn dpkg_counts_installed_marker_lines() {
    let mut out = String::from("Desired=Unknown/Install\n||/ Name Version\n+++-====\n");
    out.push_str(&lines_of("ii  pkg", 10));
    out.push_str("rc  removed 1.0\n");
    let dpkg: ProbeOutput = Ok(out);
    let r = resolve_packages(&missing(), &dpkg, &missing(), &missing(), &missing());
    assert_eq!(pairs(&r), vec![("apt".to_string(), 10)]);
}

#[test]
fn apt_front_end_used_only_when_dpkg_fails() {
    let apt: ProbeOutput = Ok("Listing... Done\nbash/stable 5.2 amd64\nzsh/stable 5.9 amd64\n".to_string());
    let failed: ProbeOutput = Err(ProbeFailure::NonZeroExit);
    assert!(needs_apt_fallback(&failed));
    let r = resolve_packages(&missing(), &failed, &apt, &missing(), &missing());
    assert_eq!(pairs(&r), vec![("apt".to_string(), 2)]);

    let empty_dpkg: ProbeOutput = Ok("Desired=Unknown\n".to_string());
    assert!(!needs_apt_fallback(&empty_dpkg));
    let r = resolve_packages(&missing(), &empty_dpkg, &apt, &missing(), &missing());
    assert!(r.is_empty());
}

#[test]
fn winget_two_lines_is_zero() {
    assert_eq!(winget_count("Name   Id   Version\n-------------\n"), 0);
    assert_eq!(winget_count("\n   \n"), 0);
    assert_eq!(winget_count("Name Id\n----\n\nGit Git.Git 2.4\nVim vim 9.0\n  \n"), 2);
    let w: ProbeOutput = Ok("Name   Id   Version\n-------------\n".to_string());
    let r = resolve_packages(&missing(), &missing(), &missing(), &w, &missing());
    assert!(r.is_empty());
}

#[test]
fn yum_skips_header_and_blank_lines() {
    let out = "Installed packages\nbash.x86_64 5.1\n\nzsh.x86_64 5.8\n";
    assert_eq!(yum_count(out), 2);
    let y: ProbeOutput = Ok(out.to_string());
    let b: ProbeOutput = Ok("a\nb\nc\n".to_string());
    let r = resolve_packages(&b, &missing(), &missing(), &missing(), &y);
    assert_eq!(pairs(&r), vec![("brew".to_string(), 3), ("yum".to_string(), 2)]);
}

#[test]
fn all_managers_in_probe_order() {
    let b: ProbeOutput = Ok("x\n".to_string());
    let d: ProbeOutput = Ok("ii a\nii b\n".to_string());
    let w: ProbeOutput = Ok("h1\nh2\ng\n".to_string());
    let y: ProbeOutput = Ok("Installed packages\nq\n".to_string());
    let r = resolve_packages(&b, &d, &missing(), &w, &y);
    assert_eq!(
        pairs(&r),
        vec![
            ("brew".to_string(), 1),
            ("apt".to_string(), 2),
            ("winget".to_string(), 1),
            ("yum".to_string(), 1)
        ]
    );
}

#[test]
fn single_counters() {
    assert_eq!(brew_count("a\nb\nc"), 3);
    assert_eq!(dpkg_count("ii x\ni y\n ii z\nii\n"), 2);
    assert_eq!(apt_count("Listing...\na/b\n/\nc\n"), 2);
}

#[test]
fn resolving_twice_gives_the_same_result() {
    let b: ProbeOutput = Ok(lines_of("f", 5));
    let d: ProbeOutput = Ok("ii a\n".to_string());
    let first = pairs(&resolve_packages(&b, &d, &missing(), &missing(), &missing()));
    let second = pairs(&resolve_packages(&b, &d, &missing(), &missing(), &missing()));
    assert_eq!(first, second);
    let t: ProbeOutput = Ok("{ sec = 1000000000, usec = 0 }".to_string());
    assert_eq!(
        resolve_uptime(None, &t, Some(1000003600), 0, 0),
        resolve_uptime(None, &t, Some(1000003600), 0, 0)
    );
    let e = vec![entry("d1", "/", "apfs", 100, 40)];
    assert_eq!(disk_totals(&e), disk_totals(&e));
}

#[test]
fn boottime_record_gives_uptime() {
    let rec = "{ sec = 1000000000, usec = 0 }";
    assert_eq!(parse_boottime(rec), Some(1000000000));
    let up = uptime_from_boottime(rec, 1000003600);
    assert_eq!(up, Some(3600));
    assert_eq!(uptime_text(up.unwrap()), "0 Days 1 Hours 0 Minutes");
}

#[test]
fn boottime_record_edge_cases() {
    assert_eq!(parse_boottime("no key here"), None);
    assert_eq!(parse_boottime("{ sec = , usec = 5 }"), None);
    assert_eq!(parse_boottime("sec = 18446744073709551615"), Some(u64::MAX));
    assert_eq!(parse_boottime("sec = 18446744073709551616"), None);
    assert_eq!(parse_boottime("{ sec = 42x }"), Some(42));
    assert_eq!(uptime_from_boottime("{ sec = 100 }", 100), None);
    assert_eq!(uptime_from_boottime("{ sec = 200 }", 100), None);
    assert_eq!(uptime_from_boottime("{ sec = 0 }", MAX_UPTIME_SECS + 1), None);
    assert_eq!(uptime_from_boottime("{ sec = 0 }", MAX_UPTIME_SECS), Some(MAX_UPTIME_SECS));
}

#[test]
fn uptime_chain_takes_first_plausible() {
    let none: ProbeOutput = Err(ProbeFailure::NotFound);
    let rec: ProbeOutput = Ok("{ sec = 1000, usec = 0 }".to_string());
    assert_eq!(resolve_uptime(Some(500), &rec, Some(5000), 0, 7), Some(500));
    assert_eq!(resolve_uptime(Some(0), &rec, Some(5000), 0, 7), Some(4000));
    assert_eq!(resolve_uptime(Some(MAX_UPTIME_SECS + 1), &rec, Some(5000), 0, 7), Some(4000));
    assert_eq!(resolve_uptime(None, &none, Some(5000), 4000, 7), Some(1000));
    assert_eq!(resolve_uptime(None, &none, Some(5000), 5000, 7), Some(7));
    assert_eq!(resolve_uptime(None, &none, Some(u64::MAX), 0, 9), Some(9));
    assert_eq!(resolve_uptime(None, &none, None, 0, 0), None);
    assert_eq!(resolve_uptime(None, &none, Some(5000), 5000, MAX_UPTIME_SECS + 1), None);
    assert_eq!(MAX_UPTIME_SECS, 315_360_000);
}

#[test]
fn uptime_text_splits_days_hours_minutes() {
    assert_eq!(uptime_text(0), "0 Days 0 Hours 0 Minutes");
    assert_eq!(uptime_text(90061), "1 Days 1 Hours 1 Minutes");
    assert_eq!(uptime_text(59), "0 Days 0 Hours 0 Minutes");
}

fn entry(name: &str, mount: &str, fs: &str, total: u64, avail: u64) -> DiskEntry {
    DiskEntry {
        name: name.to_string(),
        mount_point: mount.to_string(),
        file_system: fs.to_string(),
        total_space: total,
        available_space: avail,
    }
}

#[test]
fn disk_counts_each_device_once() {
    let e = vec![
        entry("d1", "/", "apfs", 100, 40),
        entry("d1", "/System/Volumes/Data", "apfs", 100, 40),
        entry("d2", "/sys", "sysfs", 50, 50),
    ];
    assert_eq!(disk_totals(&e), DiskTotals { total: 100, used: 60, available: 40 });
}

#[test]
fn disk_exclusions_and_edges() {
    assert!(is_excluded(&entry("t", "/run", "tmpfs", 1, 1)));
    assert!(is_excluded(&entry("p", "/proc", "proc", 1, 1)));
    assert!(is_excluded(&entry("v", "/dev/shm", "ext4", 1, 1)));
    assert!(!is_excluded(&entry("h", "/home", "ext4", 1, 1)));
    assert_eq!(disk_totals(&vec![]), DiskTotals { total: 0, used: 0, available: 0 });
    let e = vec![entry("a", "/", "ext4", 10, 20), entry("b", "/home", "ext4", 5, 1)];
    assert_eq!(disk_totals(&e), DiskTotals { total: 15, used: 0, available: 21 });
    let big = vec![entry("a", "/", "ext4", u64::MAX, 1), entry("b", "/x", "ext4", 5, 1)];
    assert_eq!(disk_totals(&big), DiskTotals { total: u64::MAX, used: u64::MAX - 2, available: 2 });
}

#[test]
fn gigabyte_figures() {
    assert_eq!(gb_text(2_147_483_648), "2.00");
    assert_eq!(gb_text(0), "0.00");
    assert_eq!(gb_text(1_610_612_736), "1.50");
    assert_eq!(gb_text(134_217_728), "0.12");
    assert_eq!(gb_text(402_653_184), "0.38");
    assert_eq!(gb_text(17_179_869_184), "16.00");
    assert_eq!(gb_text(u64::MAX), format!("{:.2}", u64::MAX as f64 / 1_073_741_824.0));
    for b in [1u64, 1000, 123_456_789, 5_000_000_000, 999_999_999_999] {
        assert_eq!(gb_text(b), format!("{:.2}", b as f64 / 1_073_741_824.0));
    }
}

#[test]
fn decimal_text() {
    assert_eq!(decimal(0), "0");
    assert_eq!(decimal(7), "7");
    assert_eq!(decimal(12345), "12345");
    assert_eq!(decimal(u64::MAX), "18446744073709551615");
}

#[test]
fn timed_out_probe_contributes_nothing() {
    let slow: ProbeOutput = Err(ProbeFailure::TimedOut);
    assert!(needs_apt_fallback(&slow));
    let apt: ProbeOutput = Ok("a/b 1\n".to_string());
    let r = resolve_packages(&slow, &slow, &apt, &slow, &slow);
    assert_eq!(pairs(&r), vec![("apt".to_string(), 1)]);
    assert_eq!(resolve_uptime(None, &slow, Some(10), 0, 0), Some(10));
}

#[test]
fn only_paths_under_pseudo_directories_are_excluded() {
    assert!(is_excluded(&entry("a", "/dev", "ext4", 1, 1)));
    assert!(is_excluded(&entry("a", "/sys/fs/cgroup", "cgroup2", 1, 1)));
    assert!(is_excluded(&entry("a", "/proc", "proc", 1, 1)));
    assert!(!is_excluded(&entry("a", "/sysroot", "xfs", 1, 1)));
    assert!(!is_excluded(&entry("a", "/devdata", "ext4", 1, 1)));
    assert!(!is_excluded(&entry("a", "/process", "ext4", 1, 1)));
    let e = vec![entry("d1", "/sysroot", "xfs", 30, 10), entry("d2", "/sys", "ext4", 5, 5)];
    assert_eq!(disk_totals(&e), DiskTotals { total: 30, used: 20, available: 10 });
}

#[test]
fn native_reading_checked_first() {
    assert_eq!(plausible_uptime(Some(100)), Some(100));
    assert_eq!(plausible_uptime(Some(0)), None);
    assert_eq!(plausible_uptime(Some(MAX_UPTIME_SECS + 1)), None);
    assert_eq!(plausible_uptime(None), None);
}
