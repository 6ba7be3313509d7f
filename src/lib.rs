//! Host diagnostics: the decision layer behind a system-information report.
//!
//! Probe output, OS readings and disk listings come in as plain values; this
//! crate turns them into package counts, disk totals, uptimes and display text.

pub mod disk;
pub mod hyperlink;
pub mod lines;
pub mod packages;
pub mod render;
pub mod snapshot;
pub mod text;
pub mod uptime;

pub use disk::{disk_totals, is_excluded, DiskEntry, DiskTotals};
pub use hyperlink::{
    classify_terminal, hyperlink, styled_developer_name, styled_developer_name_dylan,
    TerminalType,
};
pub use lines::{
    gb_value_line, host_line, label_value_line, packages_line, packages_list, uptime_line, Tint,
};
pub use packages::{
    apt_count, brew_count, dpkg_count, needs_apt_fallback, resolve_packages, winget_count,
    yum_count, PackageCount, ProbeFailure, ProbeOutput, WINGET_HEADER_ROWS,
};
pub use render::{decimal, gb_text, uptime_text, BYTES_PER_GB};
pub use snapshot::{max_info_width, CpuInfo, HostSnapshot, MemoryInfo};
pub use text::{char_vec, count_lines, LineRule};
pub use uptime::{
    parse_boottime, plausible_uptime, resolve_uptime, uptime_from_boottime, MAX_UPTIME_SECS,
};
