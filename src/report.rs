//! The system-information report: a snapshot of machine facts rendered as text.

use vstd::prelude::*;

verus! {

/// One mounted disk, as read from the operating system.
pub struct DiskSnapshot {
    /// The disk's name, already quoted for display.
    pub name: String,
    /// The file system, already quoted for display.
    pub file_system: String,
    /// Total space in bytes.
    pub total_space: u64,
    /// Available space in bytes.
    pub available_space: u64,
}

/// The machine facts that the report shows.
pub struct SystemSnapshot {
    pub system_name: Option<String>,
    pub kernel_version: Option<String>,
    pub os_version: Option<String>,
    pub host_name: Option<String>,
    pub cpu_count: u64,
    /// Memory and swap figures in bytes.
    pub total_memory: u64,
    pub used_memory: u64,
    pub total_swap: u64,
    pub used_swap: u64,
    pub disks: Vec<DiskSnapshot>,
}

pub open spec fn digit_char(d: nat) -> char {
    if d == 0 { '0' }
    else if d == 1 { '1' }
    else if d == 2 { '2' }
    else if d == 3 { '3' }
    else if d == 4 { '4' }
    else if d == 5 { '5' }
    else if d == 6 { '6' }
    else if d == 7 { '7' }
    else if d == 8 { '8' }
    else { '9' }
}

/// The decimal digits of `n`, most significant first, without leading zeros.
pub open spec fn decimal(n: nat) -> Seq<char>
    decreases n,
{
    if n < 10 {
        seq![digit_char(n)]
    } else {
        decimal(n / 10).push(digit_char(n % 10))
    }
}

pub open spec fn mebibytes(bytes: u64) -> nat {
    (bytes / 1024 / 1024) as nat
}

pub open spec fn gibibytes(bytes: u64) -> nat {
    (bytes / 1024 / 1024 / 1024) as nat
}

pub open spec fn or_unknown(v: Option<String>) -> Seq<char> {
    match v {
        Some(s) => s@,
        None => "<unknown>"@,
    }
}

pub open spec fn line(label: Seq<char>, value: Seq<char>) -> Seq<char> {
    label + value + "\n"@
}

pub open spec fn preamble() -> Seq<char> {
    "System Information Report\n"@ + "=========================\n\n"@
}

pub open spec fn cpu_header() -> Seq<char> {
    "\nCPU Information\n"@
}

pub open spec fn memory_header() -> Seq<char> {
    "\nMemory Information\n"@
}

pub open spec fn disk_header() -> Seq<char> {
    "\nDisk Information\n"@
}

pub open spec fn system_lines(s: SystemSnapshot) -> Seq<char> {
    line("System Name:      "@, or_unknown(s.system_name))
        + line("Kernel Version:   "@, or_unknown(s.kernel_version))
        + line("OS Version:       "@, or_unknown(s.os_version))
        + line("Host Name:        "@, or_unknown(s.host_name))
}

pub open spec fn cpu_section(s: SystemSnapshot) -> Seq<char> {
    cpu_header() + "---------------\n"@ + line("Number of Cores:  "@, decimal(s.cpu_count as nat))
}

pub open spec fn memory_section(s: SystemSnapshot) -> Seq<char> {
    memory_header() + "------------------\n"@
        + line("Total Memory:     "@, decimal(mebibytes(s.total_memory)) + " MB"@)
        + line("Used Memory:      "@, decimal(mebibytes(s.used_memory)) + " MB"@)
        + line("Total Swap:       "@, decimal(mebibytes(s.total_swap)) + " MB"@)
        + line("Used Swap:        "@, decimal(mebibytes(s.used_swap)) + " MB"@)
}

pub open spec fn disk_text(d: DiskSnapshot) -> Seq<char> {
    line("Name:             "@, d.name@)
        + line("File System:      "@, d.file_system@)
        + line("Total Space:      "@, decimal(gibibytes(d.total_space)) + " GB"@)
        + line("Available Space:  "@, decimal(gibibytes(d.available_space)) + " GB"@)
        + "---\n"@
}

pub open spec fn disks_text(ds: Seq<DiskSnapshot>) -> Seq<char>
    decreases ds.len(),
{
    if ds.len() == 0 {
        Seq::empty()
    } else {
        disks_text(ds.drop_last()) + disk_text(ds.last())
    }
}

pub open spec fn disk_section(s: SystemSnapshot) -> Seq<char> {
    disk_header() + "----------------\n"@ + disks_text(s.disks@)
}

/// The whole report of a snapshot.
pub open spec fn report_text(s: SystemSnapshot) -> Seq<char> {
    preamble() + system_lines(s) + cpu_section(s) + memory_section(s) + disk_section(s)
}

fn digit_str(d: u64) -> (r: &'static str)
    requires
        d < 10,
    ensures
        r@ == seq![digit_char(d as nat)],
{
    proof {
        reveal_strlit("0");
        reveal_strlit("1");
        reveal_strlit("2");
        reveal_strlit("3");
        reveal_strlit("4");
        reveal_strlit("5");
        reveal_strlit("6");
        reveal_strlit("7");
        reveal_strlit("8");
        reveal_strlit("9");
    }
    if d == 0 { "0" }
    else if d == 1 { "1" }
    else if d == 2 { "2" }
    else if d == 3 { "3" }
    else if d == 4 { "4" }
    else if d == 5 { "5" }
    else if d == 6 { "6" }
    else if d == 7 { "7" }
    else if d == 8 { "8" }
    else {
        assert(seq!['9'] =~= "9"@);
        "9"
    }
}

/// Appends the decimal digits of `n` to `out`.
pub fn push_decimal(out: &mut String, n: u64)
    ensures
        final(out)@ == old(out)@ + decimal(n as nat),
    decreases n,
{
    if n >= 10 {
        push_decimal(out, n / 10);
        out.append(digit_str(n % 10));
        assert(final(out)@ =~= old(out)@ + decimal(n as nat));
    } else {
        out.append(digit_str(n));
    }
}

fn push_line(out: &mut String, label: &str, value: &str)
    ensures
        final(out)@ == old(out)@ + line(label@, value@),
{
    out.append(label);
    out.append(value);
    out.append("\n");
    assert(final(out)@ =~= old(out)@ + line(label@, value@));
}

fn push_or_unknown(out: &mut String, label: &str, v: &Option<String>)
    ensures
        final(out)@ == old(out)@ + line(label@, or_unknown(*v)),
{
    match v {
        Some(s) => push_line(out, label, s.as_str()),
        None => push_line(out, label, "<unknown>"),
    }
}

fn push_quantity(out: &mut String, label: &str, n: u64, unit: &str)
    ensures
        final(out)@ == old(out)@ + line(label@, decimal(n as nat) + unit@),
{
    let mut value = String::new();
    push_decimal(&mut value, n);
    value.append(unit);
    push_line(out, label, value.as_str());
}

fn push_disk(out: &mut String, d: &DiskSnapshot)
    ensures
        final(out)@ == old(out)@ + disk_text(*d),
{
    push_line(out, "Name:             ", d.name.as_str());
    push_line(out, "File System:      ", d.file_system.as_str());
    push_quantity(out, "Total Space:      ", d.total_space / 1024 / 1024 / 1024, " GB");
    push_quantity(out, "Available Space:  ", d.available_space / 1024 / 1024 / 1024, " GB");
    out.append("---\n");
    assert(final(out)@ =~= old(out)@ + disk_text(*d));
}

/// Renders the report of a snapshot: a title, the system names, then the CPU,
/// memory and disk sections in that order.
pub fn render_report(s: &SystemSnapshot) -> (r: String)
    ensures
        r@ == report_text(*s),
{
    let mut out = String::new();
    out.append("System Information Report\n");
    out.append("=========================\n\n");
    let ghost p0 = out@;
    push_or_unknown(&mut out, "System Name:      ", &s.system_name);
    push_or_unknown(&mut out, "Kernel Version:   ", &s.kernel_version);
    push_or_unknown(&mut out, "OS Version:       ", &s.os_version);
    push_or_unknown(&mut out, "Host Name:        ", &s.host_name);
    assert(out@ =~= p0 + system_lines(*s));
    let ghost p1 = out@;
    out.append("\nCPU Information\n");
    out.append("---------------\n");
    let mut cores = String::new();
    push_decimal(&mut cores, s.cpu_count);
    push_line(&mut out, "Number of Cores:  ", cores.as_str());
    assert(out@ =~= p1 + cpu_section(*s));
    let ghost p2 = out@;
    out.append("\nMemory Information\n");
    out.append("------------------\n");
    push_quantity(&mut out, "Total Memory:     ", s.total_memory / 1024 / 1024, " MB");
    push_quantity(&mut out, "Used Memory:      ", s.used_memory / 1024 / 1024, " MB");
    push_quantity(&mut out, "Total Swap:       ", s.total_swap / 1024 / 1024, " MB");
    push_quantity(&mut out, "Used Swap:        ", s.used_swap / 1024 / 1024, " MB");
    assert(out@ =~= p2 + memory_section(*s));
    let ghost p3 = out@;
    out.append("\nDisk Information\n");
    out.append("----------------\n");
    let ghost p4 = out@;
    let mut i: usize = 0;
    while i < s.disks.len()
        invariant
            i <= s.disks@.len(),
            out@ == p4 + disks_text(s.disks@.subrange(0, i as int)),
        decreases s.disks@.len() - i,
    {
        push_disk(&mut out, &s.disks[i]);
        assert(s.disks@.subrange(0, i + 1).drop_last() =~= s.disks@.subrange(0, i as int));
        assert(out@ =~= p4 + disks_text(s.disks@.subrange(0, i + 1)));
        i = i + 1;
    }
    assert(s.disks@.subrange(0, i as int) =~= s.disks@);
    assert(out@ =~= p3 + disk_section(*s));
    assert(out@ =~= report_text(*s));
    out
}

pub open spec fn occurs_at(t: Seq<char>, h: Seq<char>, i: int) -> bool {
    0 <= i && i + h.len() <= t.len() && t.subrange(i, i + h.len()) == h
}

/// The CPU, memory and disk headers all occur in `t`, in that order.
pub open spec fn sections_in_order(t: Seq<char>) -> bool {
    exists|i: int, j: int, k: int|
        i < j < k && occurs_at(t, cpu_header(), i) && occurs_at(t, memory_header(), j)
            && occurs_at(t, disk_header(), k)
}

proof fn lemma_sections_of(s: SystemSnapshot)
    ensures
        sections_in_order(report_text(s)),
        occurs_at(report_text(s), preamble(), 0),
{
    reveal_strlit("\nCPU Information\n");
    reveal_strlit("\nMemory Information\n");
    let t = report_text(s);
    let a = preamble() + system_lines(s);
    let i = a.len() as int;
    let j = i + cpu_section(s).len();
    let k = j + memory_section(s).len();
    assert(t =~= a + cpu_section(s) + memory_section(s) + disk_section(s));
    assert(t.subrange(0, preamble().len() as int) =~= preamble());
    assert(t.subrange(i, i + cpu_header().len()) =~= cpu_header());
    assert(t.subrange(j, j + memory_header().len()) =~= memory_header());
    assert(t.subrange(k, k + disk_header().len()) =~= disk_header());
    assert(occurs_at(t, cpu_header(), i));
    assert(occurs_at(t, memory_header(), j));
    assert(occurs_at(t, disk_header(), k));
}

/// The CPU section's header with its underline.
pub open spec fn cpu_block() -> Seq<char> {
    cpu_header() + "---------------\n"@
}

/// The memory section's header with its underline.
pub open spec fn memory_block() -> Seq<char> {
    memory_header() + "------------------\n"@
}

/// The disk section's header with its underline.
pub open spec fn disk_block() -> Seq<char> {
    disk_header() + "----------------\n"@
}

/// `t` is the title, then the given value lines, each section opened by its
/// fixed header block.
pub open spec fn laid_out(t: Seq<char>, sys: Seq<char>, cpu: Seq<char>, mem: Seq<char>, disks: Seq<char>) -> bool {
    t == preamble() + sys + cpu_block() + cpu + memory_block() + mem + disk_block() + disks
}

/// The value lines of the CPU section.
pub open spec fn cpu_lines(s: SystemSnapshot) -> Seq<char> {
    line("Number of Cores:  "@, decimal(s.cpu_count as nat))
}

/// The value lines of the memory section.
pub open spec fn memory_lines(s: SystemSnapshot) -> Seq<char> {
    line("Total Memory:     "@, decimal(mebibytes(s.total_memory)) + " MB"@)
        + line("Used Memory:      "@, decimal(mebibytes(s.used_memory)) + " MB"@)
        + line("Total Swap:       "@, decimal(mebibytes(s.total_swap)) + " MB"@)
        + line("Used Swap:        "@, decimal(mebibytes(s.used_swap)) + " MB"@)
}

proof fn lemma_laid_out(s: SystemSnapshot)
    ensures
        laid_out(report_text(s), system_lines(s), cpu_lines(s), memory_lines(s), disks_text(s.disks@)),
{
    assert(report_text(s) =~= preamble() + system_lines(s) + cpu_block() + cpu_lines(s) + memory_block()
        + memory_lines(s) + disk_block() + disks_text(s.disks@));
}

/// Two reports, made from any two snapshots (two readings of one machine, say),
/// have the same structure: both open with the same title and both hold the
/// CPU, memory and disk sections in that order, each opened by the same fixed
/// header and underline. Only the value lines between them may differ.
pub proof fn lemma_report_structure_stable(a: SystemSnapshot, b: SystemSnapshot)
    ensures
        sections_in_order(report_text(a)),
        sections_in_order(report_text(b)),
        report_text(a).subrange(0, preamble().len() as int)
            == report_text(b).subrange(0, preamble().len() as int),
        laid_out(report_text(a), system_lines(a), cpu_lines(a), memory_lines(a), disks_text(a.disks@)),
        laid_out(report_text(b), system_lines(b), cpu_lines(b), memory_lines(b), disks_text(b.disks@)),
{
    lemma_sections_of(a);
    lemma_sections_of(b);
    lemma_laid_out(a);
    lemma_laid_out(b);
}

/// Whether the process arguments ask for the report alone: the first argument
/// after the program name is `info`.
pub fn is_diagnostic_invocation(args: &Vec<String>) -> (r: bool)
    ensures
        r == (args@.len() > 1 && args@[1]@ == "info"@),
{
    if args.len() > 1 {
        let info = String::from_str("info");
        args[1] == info
    } else {
        false
    }
}

} // verus!
