use sysutils::report::{is_diagnostic_invocation, push_decimal, render_report, DiskSnapshot, SystemSnapshot};

fn snapshot(used: u64, disks: Vec<DiskSnapshot>) -> SystemSnapshot {
    SystemSnapshot {
        system_name: Some("Linux".to_string()),
        kernel_version: None,
        os_version: Some("12".to_string()),
        host_name: Some("box".to_string()),
        cpu_count: 8,
        total_memory: 16 * 1024 * 1024 * 1024,
        used_memory: used,
        total_swap: 0,
        used_swap: 3 * 1024 * 1024 - 1,
        disks,
    }
}

fn disk() -> DiskSnapshot {
    DiskSnapshot {
        name: "\"sda1\"".to_string(),
        file_system: "\"ext4\"".to_string(),
        total_space: 500 * 1024 * 1024 * 1024 + 7,
        available_space: 1024 * 1024 * 1024 - 1,
    }
}

#[test]
fn report_has_sections_in_order() {
    let r = render_report(&snapshot(5 * 1024 * 1024, vec![disk()]));
    let cpu = r.find("CPU Information").unwrap();
    let mem = r.find("Memory Information").unwrap();
    let dsk = r.find("Disk Information").unwrap();
    assert!(cpu < mem && mem < dsk);
    assert!(r.starts_with("System Information Report\n=========================\n\n"));
}

#[test]
fn report_exact_text() {
    let r = render_report(&snapshot(5 * 1024 * 1024, vec![disk()]));
    let expected = "System Information Report\n\
=========================\n\n\
System Name:      Linux\n\
Kernel Version:   <unknown>\n\
OS Version:       12\n\
Host Name:        box\n\
\nCPU Information\n\
---------------\n\
Number of Cores:  8\n\
\nMemory Information\n\
------------------\n\
Total Memory:     16384 MB\n\
Used Memory:      5 MB\n\
Total Swap:       0 MB\n\
Used Swap:        2 MB\n\
\nDisk Information\n\
----------------\n\
Name:             \"sda1\"\n\
File System:      \"ext4\"\n\
Total Space:      500 GB\n\
Available Space:  0 GB\n\
---\n";
    assert_eq!(r, expected);
}

#[test]
fn two_reports_share_structure() {
    let a = render_report(&snapshot(1, vec![]));
    let b = render_report(&snapshot(900 * 1024 * 1024, vec![disk(), disk()]));
    let heads = |t: &str| -> Vec<usize> {
        ["CPU Information", "Memory Information", "Disk Information"].iter().map(|h| t.find(h).unwrap()).collect()
    };
    let ha = heads(&a);
    let hb = heads(&b);
    assert!(ha[0] < ha[1] && ha[1] < ha[2]);
    assert!(hb[0] < hb[1] && hb[1] < hb[2]);
    assert!(a.ends_with("----------------\n"));
    assert_eq!(b.matches("---\n").count() - a.matches("---\n").count(), 2);
}

#[test]
fn decimal_digits() {
    let mut s = String::from("n=");
    push_decimal(&mut s, 0);
    assert_eq!(s, "n=0");
    let mut s = String::new();
    push_decimal(&mut s, 1090);
    assert_eq!(s, "1090");
    let mut s = String::new();
    push_decimal(&mut s, u64::MAX);
    assert_eq!(s, "18446744073709551615");
}

#[test]
fn diagnostic_invocation() {
    assert!(is_diagnostic_invocation(&vec!["prog".to_string(), "info".to_string()]));
    assert!(!is_diagnostic_invocation(&vec!["prog".to_string()]));
    assert!(!is_diagnostic_invocation(&vec!["prog".to_string(), "Info".to_string()]));
}
