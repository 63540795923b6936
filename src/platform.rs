//! Which prebuilt native library and model belong to a host.

use vstd::prelude::*;
use vstd::string::*;

use crate::text::{chars_of, joined};

verus! {

/// The operating system of the host.
#[derive(Clone, Copy, Debug, PartialEq, Eq, Structural)]
pub enum Os {
    Mac,
    Windows,
    Linux,
    Other,
}

/// The processor architecture of the host.
#[derive(Clone, Copy, Debug, PartialEq, Eq, Structural)]
pub enum Arch {
    X86_64,
    Aarch64,
    Arm,
    Other,
}

/// The ARM board family, as told by the processor's part number.
#[derive(Clone, Copy, Debug, PartialEq, Eq, Structural)]
pub enum Machine {
    Arm11,
    CortexA7,
    CortexA53,
    CortexA57,
    CortexA72,
    Beaglebone,
    Unsupported,
}

/// What is known of the host. `machine` is what the processor information
/// names; `None` where it names no part (or was not read).
#[derive(Clone, Copy, Debug, PartialEq, Eq, Structural)]
pub struct Host {
    pub os: Os,
    pub arch: Arch,
    pub machine: Option<Machine>,
}

/// The library that a host should load, relative to the library directory.
/// `fallback` is set where the board is not recognised and the most basic
/// Raspberry Pi build is used in its place; the caller should warn.
pub struct LibraryChoice {
    pub path: String,
    pub fallback: bool,
}

// ---------------------------------------------------------------------------
// Processor information

/// `pat` occurs in `s` at index `i`.
pub open spec fn occurs_at(s: Seq<char>, pat: Seq<char>, i: int) -> bool {
    &&& 0 <= i
    &&& i + pat.len() <= s.len()
    &&& forall|k: int| 0 <= k < pat.len() ==> s[i + k] == #[trigger] pat[k]
}

/// `pat` occurs somewhere in `s`.
pub open spec fn contains_text(s: Seq<char>, pat: Seq<char>) -> bool {
    exists|i: int| occurs_at(s, pat, i)
}

/// The first line of `s` that contains `pat`, looking at the line that
/// starts at `start` (read up to `j`) and the lines after it. Lines are
/// separated by `'\n'`.
pub open spec fn first_line_with(s: Seq<char>, pat: Seq<char>, start: int, j: int) -> Option<Seq<char>>
    decreases s.len() - j,
{
    if 0 <= j < s.len() && s[j] != '\n' {
        first_line_with(s, pat, start, j + 1)
    } else {
        let line = s.subrange(start, j);
        if contains_text(line, pat) {
            Some(line)
        } else if 0 <= j < s.len() {
            first_line_with(s, pat, j + 1, j + 1)
        } else {
            None
        }
    }
}

/// The last space-separated field of `line`, looking at its first `k`
/// characters for the last space.
pub open spec fn last_field(line: Seq<char>, k: int) -> Seq<char>
    decreases k,
{
    if k <= 0 {
        line
    } else if line[k - 1] == ' ' {
        line.subrange(k, line.len() as int)
    } else {
        last_field(line, k - 1)
    }
}

/// `a` is `b` up to ASCII case, where `b` is the lower-case form.
pub open spec fn folds_to(a: char, b: char) -> bool {
    a == b || (97 <= (b as u32) <= 122 && (a as u32) == (b as u32) - 32)
}

/// `part` spells `code` in any ASCII case.
pub open spec fn same_code(part: Seq<char>, code: Seq<char>) -> bool {
    part.len() == code.len() && forall|i: int| 0 <= i < code.len() ==> folds_to(part[i], #[trigger] code[i])
}

/// The board family of a processor part number.
pub open spec fn machine_of_part(part: Seq<char>) -> Machine {
    if same_code(part, "0xb76"@) {
        Machine::Arm11
    } else if same_code(part, "0xc07"@) {
        Machine::CortexA7
    } else if same_code(part, "0xd03"@) {
        Machine::CortexA53
    } else if same_code(part, "0xd07"@) {
        Machine::CortexA57
    } else if same_code(part, "0xd08"@) {
        Machine::CortexA72
    } else if same_code(part, "0xc08"@) {
        Machine::Beaglebone
    } else {
        Machine::Unsupported
    }
}

/// The board family that processor information names: the last field of its
/// first line that mentions the CPU part. `None` where no line does.
pub open spec fn machine_in_cpuinfo(cpuinfo: Seq<char>) -> Option<Machine> {
    match first_line_with(cpuinfo, "CPU part"@, 0, 0) {
        Some(line) => Some(machine_of_part(last_field(line, line.len() as int))),
        None => None,
    }
}

fn code_matches(v: &Vec<char>, lo: usize, hi: usize, code: &Vec<char>) -> (r: bool)
    requires
        lo <= hi <= v@.len(),
    ensures
        r == same_code(v@.subrange(lo as int, hi as int), code@),
{
    let m = code.len();
    if hi - lo != m {
        return false;
    }
    let ghost part = v@.subrange(lo as int, hi as int);
    let mut i: usize = 0;
    while i < m
        invariant
            m == code@.len(),
            hi - lo == m,
            lo <= hi <= v@.len(),
            part == v@.subrange(lo as int, hi as int),
            i <= m,
            forall|k: int| 0 <= k < i ==> folds_to(part[k], #[trigger] code@[k]),
        decreases m - i,
    {
        let a = v[lo + i];
        let b = code[i];
        let lower = 97 <= (b as u32) && (b as u32) <= 122;
        if !(a == b || (lower && (a as u32) == (b as u32) - 32)) {
            assert(!folds_to(part[i as int], code@[i as int]));
            return false;
        }
        i = i + 1;
    }
    true
}

fn machine_of_chars(v: &Vec<char>, lo: usize, hi: usize) -> (r: Machine)
    requires
        lo <= hi <= v@.len(),
    ensures
        r == machine_of_part(v@.subrange(lo as int, hi as int)),
{
    if code_matches(v, lo, hi, &chars_of("0xb76")) {
        Machine::Arm11
    } else if code_matches(v, lo, hi, &chars_of("0xc07")) {
        Machine::CortexA7
    } else if code_matches(v, lo, hi, &chars_of("0xd03")) {
        Machine::CortexA53
    } else if code_matches(v, lo, hi, &chars_of("0xd07")) {
        Machine::CortexA57
    } else if code_matches(v, lo, hi, &chars_of("0xd08")) {
        Machine::CortexA72
    } else if code_matches(v, lo, hi, &chars_of("0xc08")) {
        Machine::Beaglebone
    } else {
        Machine::Unsupported
    }
}

/// The board family of a processor part number such as `0xd03`, in any case.
pub fn machine_of_cpu_part(part: &str) -> (r: Machine)
    ensures
        r == machine_of_part(part@),
{
    let v = chars_of(part);
    assert(v@.subrange(0, v@.len() as int) == v@);
    machine_of_chars(&v, 0, v.len())
}

fn occurs_in(v: &Vec<char>, i: usize, pat: &Vec<char>) -> (r: bool)
    requires
        i + pat@.len() <= v@.len(),
    ensures
        r == (forall|k: int| 0 <= k < pat@.len() ==> v@[i + k] == #[trigger] pat@[k]),
{
    let m = pat.len();
    let n = v.len();
    let mut k: usize = 0;
    while k < m
        invariant
            m == pat@.len(),
            n == v@.len(),
            i + m <= v@.len(),
            k <= m,
            forall|q: int| 0 <= q < k ==> v@[i + q] == #[trigger] pat@[q],
        decreases m - k,
    {
        if v[i + k] != pat[k] {
            return false;
        }
        k = k + 1;
    }
    true
}

fn has_text(v: &Vec<char>, lo: usize, hi: usize, pat: &Vec<char>) -> (r: bool)
    requires
        lo <= hi <= v@.len(),
    ensures
        r == contains_text(v@.subrange(lo as int, hi as int), pat@),
{
    let ghost line = v@.subrange(lo as int, hi as int);
    let m = pat.len();
    if m > hi - lo {
        assert forall|p: int| !occurs_at(line, pat@, p) by {}
        return false;
    }
    let mut i: usize = lo;
    while i <= hi - m
        invariant
            m == pat@.len(),
            lo <= hi <= v@.len(),
            m <= hi - lo,
            line == v@.subrange(lo as int, hi as int),
            lo <= i <= hi - m + 1,
            forall|p: int| 0 <= p < i - lo ==> !occurs_at(line, pat@, p),
        decreases hi - i,
    {
        if occurs_in(v, i, pat) {
            assert(occurs_at(line, pat@, i - lo));
            return true;
        }
        assert(!occurs_at(line, pat@, i - lo)) by {
            let k = choose|k: int| 0 <= k < m && v@[i + k] != #[trigger] pat@[k];
            assert(line[i - lo + k] == v@[i + k]);
        }
        i = i + 1;
    }
    assert forall|p: int| !occurs_at(line, pat@, p) by {
        if 0 <= p && p + m <= line.len() {
            assert(p < i - lo);
        }
    }
    false
}

fn last_field_start(v: &Vec<char>, lo: usize, hi: usize) -> (r: usize)
    requires
        lo <= hi <= v@.len(),
    ensures
        lo <= r <= hi,
        v@.subrange(r as int, hi as int) == last_field(v@.subrange(lo as int, hi as int), hi - lo),
{
    let ghost line = v@.subrange(lo as int, hi as int);
    let mut k: usize = hi;
    while k > lo
        invariant
            lo <= k <= hi <= v@.len(),
            line == v@.subrange(lo as int, hi as int),
            last_field(line, k - lo) == last_field(line, hi - lo),
            forall|q: int| k <= q < hi ==> v@[q] != ' ',
        decreases k,
    {
        if v[k - 1] == ' ' {
            assert(line.subrange(k - lo, line.len() as int) == v@.subrange(k as int, hi as int));
            return k;
        }
        k = k - 1;
    }
    assert(line == v@.subrange(lo as int, hi as int));
    lo
}

/// The board family that processor information (the text of
/// `/proc/cpuinfo`) names, or `None` where no line mentions the CPU part.
pub fn machine_from_cpuinfo(cpuinfo: &str) -> (r: Option<Machine>)
    ensures
        r == machine_in_cpuinfo(cpuinfo@),
{
    let pat = chars_of("CPU part");
    let v = chars_of(cpuinfo);
    let n = v.len();
    let mut start: usize = 0;
    let mut j: usize = 0;
    loop
        invariant
            n == v@.len(),
            v@ == cpuinfo@,
            pat@ == "CPU part"@,
            start <= j <= n,
            first_line_with(v@, pat@, start as int, j as int) == first_line_with(v@, pat@, 0, 0),
        decreases n - j,
    {
        if j < n && v[j] != '\n' {
            j = j + 1;
        } else {
            if has_text(&v, start, j, &pat) {
                let k = last_field_start(&v, start, j);
                return Some(machine_of_chars(&v, k, j));
            }
            if j == n {
                return None;
            }
            j = j + 1;
            start = j;
        }
    }
}

// ---------------------------------------------------------------------------
// Library, model and platform

/// The directory, relative to the resource root, that holds the libraries.
pub const DEFAULT_RELATIVE_LIBRARY_DIR: &'static str = "lib/";

/// The model file, relative to the resource root.
pub const DEFAULT_RELATIVE_MODEL_PATH: &'static str = "lib/common/rhino_params.pv";

/// The Raspberry Pi boards.
pub open spec fn is_raspberry_pi(m: Machine) -> bool {
    m == Machine::Arm11 || m == Machine::CortexA7 || m == Machine::CortexA53 || m == Machine::CortexA72
}

/// The name of a board family, as the library directories spell it.
pub open spec fn machine_name(m: Machine) -> Seq<char> {
    match m {
        Machine::Arm11 => "arm11"@,
        Machine::CortexA7 => "cortex-a7"@,
        Machine::CortexA53 => "cortex-a53"@,
        Machine::CortexA57 => "cortex-a57"@,
        Machine::CortexA72 => "cortex-a72"@,
        Machine::Beaglebone => "beaglebone"@,
        Machine::Unsupported => "unsupported"@,
    }
}

/// The library of a host, relative to the library directory; `None` for a
/// host that no library is built for (an unknown operating system or
/// processor, or an ARM Linux host whose processor information names no
/// part).
pub open spec fn library_fragment(h: Host) -> Option<Seq<char>> {
    match (h.os, h.arch) {
        (Os::Mac, Arch::X86_64) => Some("mac/x86_64/libpv_rhino.dylib"@),
        (Os::Mac, Arch::Aarch64) => Some("mac/arm64/libpv_rhino.dylib"@),
        (Os::Windows, _) => Some("windows/amd64/libpv_rhino.dll"@),
        (Os::Linux, Arch::X86_64) => Some("linux/x86_64/libpv_rhino.so"@),
        (Os::Linux, Arch::Aarch64) | (Os::Linux, Arch::Arm) => match h.machine {
            Some(m) => Some(arm_library_fragment(m, h.arch == Arch::Aarch64)),
            None => None,
        },
        _ => None,
    }
}

/// The library of an ARM Linux board.
pub open spec fn arm_library_fragment(m: Machine, aarch64: bool) -> Seq<char> {
    if is_raspberry_pi(m) {
        if aarch64 {
            "raspberry-pi/"@ + machine_name(m) + "-aarch64/libpv_rhino.so"@
        } else {
            "raspberry-pi/"@ + machine_name(m) + "/libpv_rhino.so"@
        }
    } else if m == Machine::CortexA57 {
        "jetson/cortex-a57-aarch64/libpv_rhino.so"@
    } else if m == Machine::Beaglebone {
        "beaglebone/libpv_rhino.so"@
    } else {
        "raspberry-pi/arm11/libpv_rhino.so"@
    }
}

/// Whether the library of a host is the fallback for an unrecognised board.
pub open spec fn library_is_fallback(h: Host) -> bool {
    &&& h.os == Os::Linux
    &&& (h.arch == Arch::Aarch64 || h.arch == Arch::Arm)
    &&& h.machine == Some(Machine::Unsupported)
}

/// The platform name of a host, which names its model and context files;
/// `None` for a host that is not supported.
pub open spec fn platform_name(h: Host) -> Option<Seq<char>> {
    match (h.os, h.arch) {
        (Os::Mac, _) => Some("mac"@),
        (Os::Windows, _) => Some("windows"@),
        (Os::Linux, Arch::X86_64) => Some("linux"@),
        (Os::Linux, Arch::Aarch64) | (Os::Linux, Arch::Arm) => match h.machine {
            Some(m) => if is_raspberry_pi(m) {
                Some("raspberry-pi"@)
            } else if m == Machine::CortexA57 {
                Some("jetson"@)
            } else if m == Machine::Beaglebone {
                Some("beaglebone"@)
            } else {
                None
            },
            None => None,
        },
        _ => None,
    }
}

/// `rel` appended to `root` as a path: with a `'/'` between them unless
/// `root` is empty or already ends with one.
pub open spec fn join_path(root: Seq<char>, rel: Seq<char>) -> Seq<char> {
    if root.len() == 0 || root.last() == '/' {
        root + rel
    } else {
        root + "/"@ + rel
    }
}

impl Machine {
    /// The name of this board family.
    pub fn name(&self) -> (r: &'static str)
        ensures
            r@ == machine_name(*self),
    {
        match self {
            Machine::Arm11 => "arm11",
            Machine::CortexA7 => "cortex-a7",
            Machine::CortexA53 => "cortex-a53",
            Machine::CortexA57 => "cortex-a57",
            Machine::CortexA72 => "cortex-a72",
            Machine::Beaglebone => "beaglebone",
            Machine::Unsupported => "unsupported",
        }
    }

    fn is_raspberry_pi(&self) -> (r: bool)
        ensures
            r == is_raspberry_pi(*self),
    {
        match self {
            Machine::Arm11 | Machine::CortexA7 | Machine::CortexA53 | Machine::CortexA72 => true,
            _ => false,
        }
    }
}

/// `rel` appended to `root` as a path.
pub fn join(root: &str, rel: &str) -> (r: String)
    ensures
        r@ == join_path(root@, rel@),
{
    let n = root.unicode_len();
    if n == 0 || root.get_char(n - 1) == '/' {
        joined(root, rel)
    } else {
        let mut r = joined(root, "/");
        r.append(rel);
        r
    }
}

/// The library that a host should load, relative to the library directory.
/// `None` where no library is built for the host.
pub fn base_library_path(host: &Host) -> (r: Option<LibraryChoice>)
    ensures
        r is None <==> library_fragment(*host) is None,
        r matches Some(c) ==> {
            &&& library_fragment(*host) == Some(c.path@)
            &&& c.fallback == library_is_fallback(*host)
        },
{
    let path = match (host.os, host.arch) {
        (Os::Mac, Arch::X86_64) => String::from_str("mac/x86_64/libpv_rhino.dylib"),
        (Os::Mac, Arch::Aarch64) => String::from_str("mac/arm64/libpv_rhino.dylib"),
        (Os::Windows, _) => String::from_str("windows/amd64/libpv_rhino.dll"),
        (Os::Linux, Arch::X86_64) => String::from_str("linux/x86_64/libpv_rhino.so"),
        (Os::Linux, Arch::Aarch64) | (Os::Linux, Arch::Arm) => match host.machine {
            Some(m) => {
                let fallback = m == Machine::Unsupported;
                let path = if m.is_raspberry_pi() {
                    let mut p = joined("raspberry-pi/", m.name());
                    if host.arch == Arch::Aarch64 {
                        p.append("-aarch64/libpv_rhino.so");
                    } else {
                        p.append("/libpv_rhino.so");
                    }
                    p
                } else if m == Machine::CortexA57 {
                    String::from_str("jetson/cortex-a57-aarch64/libpv_rhino.so")
                } else if m == Machine::Beaglebone {
                    String::from_str("beaglebone/libpv_rhino.so")
                } else {
                    String::from_str("raspberry-pi/arm11/libpv_rhino.so")
                };
                return Some(LibraryChoice { path, fallback });
            },
            None => return None,
        },
        _ => return None,
    };
    Some(LibraryChoice { path, fallback: false })
}

/// The platform name of a host; `None` for a host that is not supported.
pub fn pv_platform(host: &Host) -> (r: Option<String>)
    ensures
        r is None <==> platform_name(*host) is None,
        r matches Some(p) ==> platform_name(*host) == Some(p@),
{
    match (host.os, host.arch) {
        (Os::Mac, _) => Some(String::from_str("mac")),
        (Os::Windows, _) => Some(String::from_str("windows")),
        (Os::Linux, Arch::X86_64) => Some(String::from_str("linux")),
        (Os::Linux, Arch::Aarch64) | (Os::Linux, Arch::Arm) => match host.machine {
            Some(m) => if m.is_raspberry_pi() {
                Some(String::from_str("raspberry-pi"))
            } else if m == Machine::CortexA57 {
                Some(String::from_str("jetson"))
            } else if m == Machine::Beaglebone {
                Some(String::from_str("beaglebone"))
            } else {
                None
            },
            None => None,
        },
        _ => None,
    }
}

/// The path of the library that a host should load, under the resource root
/// `root`. `None` where no library is built for the host.
pub fn pv_library_path(root: &str, host: &Host) -> (r: Option<LibraryChoice>)
    ensures
        r is None <==> library_fragment(*host) is None,
        r matches Some(c) ==> {
            &&& library_fragment(*host) matches Some(f)
            &&& c.path@ == join_path(join_path(root@, DEFAULT_RELATIVE_LIBRARY_DIR@), f)
            &&& c.fallback == library_is_fallback(*host)
        },
{
    match base_library_path(host) {
        Some(base) => {
            let dir = join(root, DEFAULT_RELATIVE_LIBRARY_DIR);
            let path = join(dir.as_str(), base.path.as_str());
            Some(LibraryChoice { path, fallback: base.fallback })
        },
        None => None,
    }
}

/// The path of the default model under the resource root `root`.
pub fn pv_model_path(root: &str) -> (r: String)
    ensures
        r@ == join_path(root@, DEFAULT_RELATIVE_MODEL_PATH@),
{
    join(root, DEFAULT_RELATIVE_MODEL_PATH)
}

} // verus!
