use starfetch::{
    classify_terminal, gb_value_line, hyperlink, label_value_line, max_info_width, packages_line,
    host_line, packages_list, styled_developer_name, uptime_line,
    styled_developer_name_dylan, CpuInfo, DiskTotals, HostSnapshot, MemoryInfo, PackageCount,
    TerminalType,
};

fn some(s: &str) -> Option<String> {
    Some(s.to_string())
}

#[test]
fn developer_names() {
    assert_eq!(styled_developer_name(), "Linus Shyu");
    assert_eq!(styled_developer_name_dylan(), "Dylan Su");
}

#[test]
fn hyperlink_forms() {
    assert_eq!(
        hyperlink("Linus Shyu", "https://github.com/Linus-Shyu", TerminalType::ITerm2),
        "\x1b]8;;https://github.com/Linus-Shyu\x07\x1b[32m\x1b[4mLinus Shyu\x1b[0m\x1b]8;;\x07"
    );
    assert_eq!(
        hyperlink("x", "u", TerminalType::XTerm),
        "\x1b]8;;u\x1b\\\x1b[32m\x1b[4mx\x1b[0m\x1b]8;;\x1b\\"
    );
    assert_eq!(
        hyperlink("x", "u", TerminalType::Unknown),
        hyperlink("x", "u", TerminalType::VSCode)
    );
}

#[test]
fn terminal_classification() {
    assert_eq!(classify_terminal(&some("iTerm.app"), &None, &None), TerminalType::ITerm2);
    assert_eq!(classify_terminal(&some("Apple_Terminal"), &None, &None), TerminalType::TerminalApp);
    assert_eq!(classify_terminal(&some("vscode"), &some("1"), &None), TerminalType::VSCode);
    assert_eq!(classify_terminal(&some("other"), &some("abc"), &some("xterm")), TerminalType::WindowsTerminal);
    assert_eq!(classify_terminal(&None, &some(""), &some("xterm-256color")), TerminalType::XTerm);
    assert_eq!(classify_terminal(&None, &None, &some("screen")), TerminalType::XTerm);
    assert_eq!(classify_terminal(&None, &None, &some("linux")), TerminalType::Unknown);
    assert_eq!(classify_terminal(&None, &None, &None), TerminalType::Unknown);
}

fn snapshot(brand: Option<String>) -> HostSnapshot {
    HostSnapshot {
        hostname: some("host"),
        os_name: some("Linux"),
        kernel_version: some("6.1"),
        uptime_secs: Some(3600),
        packages: vec![PackageCount { manager: "apt".to_string(), count: 1234 }],
        cpu: CpuInfo { cores: 8, brand, frequency_mhz: Some(2600) },
        memory: MemoryInfo { total_bytes: 17_179_869_184, used_bytes: 1_073_741_824 },
        swap: MemoryInfo { total_bytes: 0, used_bytes: 0 },
        disk: DiskTotals { total: 100, used: 60, available: 40 },
    }
}

#[test]
fn width_is_widest_line() {
    assert_eq!(max_info_width(&snapshot(None)), 36);
    assert_eq!(
        max_info_width(&snapshot(some("Intel(R) Core(TM) i7-9750H CPU @ 2.60GHz"))),
        51
    );
    let mut s = snapshot(None);
    s.hostname = Some("a-very-long-host-name-that-is-wider-than-all".to_string());
    assert_eq!(max_info_width(&s), 44);
    s.hostname = None;
    s.packages = vec![PackageCount { manager: "a-very-long-manager-name-here".to_string(), count: 5 }];
    assert_eq!(max_info_width(&s), 43);
}

#[test]
fn coloured_label_value_line() {
    assert_eq!(label_value_line("OS:", "Linux"), "\x1b[32mOS:\x1b[0m \x1b[36mLinux\x1b[0m");
    assert_eq!(
        gb_value_line("Total Disk:", 2_147_483_648),
        "\x1b[32mTotal Disk:\x1b[0m \x1b[36m2.00\x1b[0m GB"
    );
}

#[test]
fn coloured_uptime_line() {
    assert_eq!(
        uptime_line(Some(3600)),
        "\x1b[32mUptime:\x1b[0m \x1b[36m0\x1b[0m \x1b[32mDays\x1b[0m \x1b[36m1\x1b[0m \x1b[32mHours\x1b[0m \x1b[36m0\x1b[0m \x1b[32mMinutes\x1b[0m"
    );
    assert_eq!(uptime_line(None), "\x1b[32mUptime:\x1b[0m \x1b[36mN/A\x1b[0m");
}

#[test]
fn coloured_packages_line() {
    assert_eq!(packages_line(&vec![]), None);
    let ps = vec![
        PackageCount { manager: "brew".to_string(), count: 42 },
        PackageCount { manager: "apt".to_string(), count: 10 },
    ];
    assert_eq!(
        packages_line(&ps),
        Some("\x1b[32mPackages: \x1b[0m\x1b[36m42 (brew), 10 (apt)\x1b[0m".to_string())
    );
}

#[test]
fn width_covers_joined_packages_line() {
    let s = HostSnapshot {
        hostname: None,
        os_name: None,
        kernel_version: None,
        uptime_secs: None,
        packages: vec![
            PackageCount { manager: "brew".to_string(), count: 1 },
            PackageCount { manager: "apt".to_string(), count: 2 },
            PackageCount { manager: "winget".to_string(), count: 3 },
        ],
        cpu: CpuInfo { cores: 1, brand: None, frequency_mhz: None },
        memory: MemoryInfo { total_bytes: 0, used_bytes: 0 },
        swap: MemoryInfo { total_bytes: 0, used_bytes: 0 },
        disk: DiskTotals { total: 0, used: 0, available: 0 },
    };
    assert_eq!(packages_list(&s.packages), "1 (brew), 2 (apt), 3 (winget)");
    assert_eq!(max_info_width(&s), 39);
}

#[test]
fn host_line_names_unknown_host() {
    assert_eq!(host_line(&None), "\x1b[36mUnknown\x1b[0m");
    assert_eq!(host_line(&Some("box".to_string())), "\x1b[36mbox\x1b[0m");
}
