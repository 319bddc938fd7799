//! What the tool decides about the game process: its address bounds, the
//! modules it maps, strings, ELF structures and byte patterns in its memory.
use vstd::prelude::*;

pub mod elf;
pub mod interfaces;
pub mod pids;
pub mod scan;
pub mod strings;

use crate::memory::Step;
use crate::text::{contains, spec_contains};
use crate::process::elf::{DynamicSearch, ExportSearch, ModuleSize, PhtSearch};
use crate::process::interfaces::{ConvarSearch, InterfaceFunction, InterfaceSearch, RelativeAddress};
use crate::process::scan::{
    chars_of, hex_digit, pattern_entries, scan_module, spec_hex_digit, spec_scan, split_whitespace, Pattern,
    MIN_MODULE_SIZE,
};
use crate::process::strings::{ByteList, CachedString, StringCache, StringRead};

verus! {

/// How far outside the game's modules an address may lie before a read of it
/// is suspicious.
pub const MODULE_MARGIN: u64 = 1_000_000;

/// The lowest expected address: `MODULE_MARGIN` below the lowest module base.
pub open spec fn spec_lower_bound(modules: Seq<(u64, u64)>) -> u64
    decreases modules.len(),
{
    if modules.len() == 0 {
        u64::MAX
    } else {
        let rest = spec_lower_bound(modules.drop_last());
        let low = modules.last().0.wrapping_sub(MODULE_MARGIN);
        if low < rest {
            low
        } else {
            rest
        }
    }
}

/// The highest expected address: `MODULE_MARGIN` above the highest module end.
pub open spec fn spec_upper_bound(modules: Seq<(u64, u64)>) -> u64
    decreases modules.len(),
{
    if modules.len() == 0 {
        u64::MIN
    } else {
        let rest = spec_upper_bound(modules.drop_last());
        let high = modules.last().0.wrapping_add(modules.last().1).wrapping_add(MODULE_MARGIN);
        if high > rest {
            high
        } else {
            rest
        }
    }
}

/// The game process: its id and the range of addresses its modules span.
#[derive(Debug, Clone, Copy)]
pub struct Process {
    pub pid: i32,
    pub min: u64,
    pub max: u64,
    pub is_setup: bool,
}

impl Process {
    /// The process `pid`, whose modules lie at the given (base, size) pairs.
    /// The pid -1 stands for no process: its range is empty and it is not set
    /// up. Otherwise the range reaches `MODULE_MARGIN` beyond the modules on
    /// both sides (wrapping), and the process is set up.
    pub fn new(pid: i32, modules: &Vec<(u64, u64)>) -> (process: Process)
        ensures
            process.pid == pid,
            pid == -1 ==> process.min == u64::MAX && process.max == u64::MIN && !process.is_setup,
            pid != -1 ==> process.min == spec_lower_bound(modules@) && process.max == spec_upper_bound(
                modules@,
            ) && process.is_setup,
    {
        if pid == -1 {
            return Process { pid, min: u64::MAX, max: u64::MIN, is_setup: false };
        }
        let mut min = u64::MAX;
        let mut max = u64::MIN;
        let mut i: usize = 0;
        while i < modules.len()
            invariant
                i <= modules@.len(),
                min == spec_lower_bound(modules@.take(i as int)),
                max == spec_upper_bound(modules@.take(i as int)),
            decreases modules@.len() - i,
        {
            let (base, size) = modules[i];
            proof {
                assert(modules@.take(i + 1).drop_last() =~= modules@.take(i as int));
            }
            let low = base.wrapping_sub(MODULE_MARGIN);
            let high = base.wrapping_add(size).wrapping_add(MODULE_MARGIN);
            if low < min {
                min = low;
            }
            if high > max {
                max = high;
            }
            i += 1;
        }
        assert(modules@.take(modules@.len() as int) =~= modules@);
        Process { pid, min, max, is_setup: true }
    }

    /// The process is valid while its /proc entry exists and its id is positive.
    pub fn is_valid(&self, path_exists: bool) -> (valid: bool)
        ensures
            valid == (path_exists && self.pid > 0),
    {
        path_exists && self.pid > 0
    }

    /// Whether an access at `address` falls outside the modules' range of a
    /// set-up process.
    pub fn is_outside(&self, address: u64) -> (outside: bool)
        ensures
            outside == ((address < self.min || address > self.max) && self.is_setup),
    {
        (address < self.min || address > self.max) && self.is_setup
    }

    /// Starts reading the null-terminated string at `address`.
    pub fn read_string_uncached(&self, address: u64) -> (step: Step<StringRead, ByteList>)
        ensures
            step == StringRead::spec_start(address),
    {
        StringRead::start(address)
    }

    /// The string at `address`: the cached one, or the read that finds it.
    pub fn read_string(&self, cache: &StringCache, address: u64) -> (r: CachedString)
        ensures
            match r {
                CachedString::Hit(s) => cache.view().contains_key(address) && s@ == cache.view()[address],
                CachedString::Miss(step) => !cache.view().contains_key(address) && step == StringRead::spec_start(
                    address,
                ),
            },
    {
        cache.read_string(address)
    }

    /// Starts reading the size of the module at `address`.
    pub fn module_size(&self, address: u64) -> (step: Step<ModuleSize, u64>)
        ensures
            step == ModuleSize::spec_start(address),
    {
        ModuleSize::start(address)
    }

    /// Finds the byte pattern that `pattern` writes in `module`, the bytes of
    /// the module at `base_address`.
    pub fn scan(&self, pattern: &str, module: &[u8], base_address: u64) -> (found: Option<u64>)
        requires
            module@.len() < MIN_MODULE_SIZE || pattern_entries(split_whitespace(pattern@)).len() <= module@.len(),
        ensures
            found == spec_scan(pattern_entries(split_whitespace(pattern@)), module@, base_address),
    {
        let parsed = Pattern::parse(pattern);
        scan_module(&parsed, module, base_address)
    }

    /// Starts resolving a rip-relative address.
    pub fn get_relative_address(&self, instruction: u64, offset: u64, instruction_size: u64) -> (step: Step<
        RelativeAddress,
        u64,
    >)
        ensures
            step == RelativeAddress::spec_start(instruction, offset, instruction_size),
    {
        RelativeAddress::start(instruction, offset, instruction_size)
    }

    /// Starts searching the module at `base_address` for the interface
    /// `interface_name`.
    pub fn get_interface_offset(&self, base_address: u64, interface_name: &str) -> (step: Step<
        InterfaceSearch,
        Option<u64>,
    >)
        ensures
            exists|name: String, export_name: String|
                name@ == interface_name@ && export_name@ == crate::process::interfaces::create_interface() && step
                    == InterfaceSearch::spec_start(base_address, name, export_name),
    {
        broadcast use vstd::string::to_string_from_display_ensures_for_str;

        InterfaceSearch::start(base_address, interface_name.to_string())
    }

    /// Starts searching the module at `base_address` for the export
    /// `export_name`.
    pub fn get_module_export(&self, base_address: u64, export_name: &str) -> (step: Step<ExportSearch, Option<u64>>)
        ensures
            exists|name: String| name@ == export_name@ && step == ExportSearch::spec_start(base_address, name),
    {
        broadcast use vstd::string::to_string_from_display_ensures_for_str;

        ExportSearch::start(base_address, export_name.to_string())
    }

    /// Starts searching the dynamic section of the module at `base_address`
    /// for `tag`.
    pub fn get_address_from_dynamic_section(&self, base_address: u64, tag: u64) -> (step: Step<
        DynamicSearch,
        Option<u64>,
    >)
        ensures
            step == DynamicSearch::spec_start(base_address, tag),
    {
        DynamicSearch::start(base_address, tag)
    }

    /// Starts searching the program header table of the module at
    /// `base_address` for a header of type `tag`.
    pub fn get_segment_from_pht(&self, base_address: u64, tag: u64) -> (step: Step<PhtSearch, Option<u64>>)
        ensures
            step == PhtSearch::spec_start(base_address, tag),
    {
        PhtSearch::start(base_address, tag)
    }

    /// Starts searching the cvar interface at `convar_interface` for the
    /// variable `convar_name`.
    pub fn get_convar(&self, convar_interface: u64, convar_name: &str) -> (step: Step<ConvarSearch, Option<u64>>)
        ensures
            exists|name: String| name@ == convar_name@ && step == ConvarSearch::spec_start(convar_interface, name),
    {
        broadcast use vstd::string::to_string_from_display_ensures_for_str;

        ConvarSearch::start(convar_interface, convar_name.to_string())
    }

    /// Starts reading the address of virtual function `index` of the
    /// interface at `interface_address`.
    pub fn get_interface_function(&self, interface_address: u64, index: u64) -> (step: Step<InterfaceFunction, u64>)
        ensures
            step == InterfaceFunction::spec_start(interface_address, index),
    {
        InterfaceFunction::start(interface_address, index)
    }
}

// ---------------------------------------------------------------------------
// The memory maps of the process.

/// The value of a sequence of hexadecimal digits.
pub open spec fn hex_value(digits: Seq<char>) -> nat
    decreases digits.len(),
{
    if digits.len() == 0 {
        0
    } else {
        hex_value(digits.drop_last()) * 16 + match spec_hex_digit(digits.last()) {
            Some(d) => d as nat,
            None => 0,
        }
    }
}

/// The digits of an unsigned number: what follows an optional leading `+`.
pub open spec fn unsigned_digits(s: Seq<char>) -> Seq<char> {
    if s.len() > 0 && s[0] == '+' {
        s.drop_first()
    } else {
        s
    }
}

/// Every character is a hexadecimal digit.
pub open spec fn all_hex_digits(digits: Seq<char>) -> bool {
    forall|i: int| 0 <= i < digits.len() ==> spec_hex_digit(#[trigger] digits[i]) is Some
}

/// What `u64::from_str_radix(s, 16)` gives: an optional leading `+`, then at
/// least one hexadecimal digit and nothing else, with a value that fits.
pub open spec fn spec_parse_hex_u64(s: Seq<char>) -> Option<u64> {
    let digits = unsigned_digits(s);
    if digits.len() == 0 {
        None
    } else if !all_hex_digits(digits) {
        None
    } else if hex_value(digits) > u64::MAX {
        None
    } else {
        Some(hex_value(digits) as u64)
    }
}

/// Parses a hexadecimal number as `u64::from_str_radix(s, 16)` does.
pub fn parse_hex_u64(s: &[char]) -> (value: Option<u64>)
    ensures
        value == spec_parse_hex_u64(s@),
{
    let start: usize = if s.len() > 0 && s[0] == '+' {
        1
    } else {
        0
    };
    let ghost digits = unsigned_digits(s@);
    assert(digits =~= s@.subrange(start as int, s@.len() as int));
    if start == s.len() {
        return None;
    }
    let mut value: u64 = 0;
    let mut fits = true;
    let mut i = start;
    while i < s.len()
        invariant
            start <= i <= s@.len(),
            start < s@.len(),
            digits == unsigned_digits(s@),
            digits =~= s@.subrange(start as int, s@.len() as int),
            forall|k: int| start <= k < i ==> spec_hex_digit(#[trigger] s@[k]) is Some,
            fits ==> value == hex_value(s@.subrange(start as int, i as int)),
            !fits ==> hex_value(s@.subrange(start as int, i as int)) > u64::MAX,
        decreases s@.len() - i,
    {
        let ghost prefix = s@.subrange(start as int, i as int);
        let ghost next = s@.subrange(start as int, i + 1);
        assert(next.drop_last() =~= prefix);
        match hex_digit(s[i]) {
            None => {
                assert(digits[i - start] == s@[i as int]);
                assert(spec_hex_digit(digits[i - start]) is None);
                return None;
            },
            Some(d) => {
                if fits {
                    if value > (u64::MAX - d as u64) / 16 {
                        fits = false;
                        assert(hex_value(next) > u64::MAX) by (nonlinear_arith)
                            requires
                                hex_value(next) == value * 16 + d,
                                value > (u64::MAX - d as u64) / 16,
                                d < 16,
                        ;
                    } else {
                        assert(value * 16 + d <= u64::MAX) by (nonlinear_arith)
                            requires
                                value <= (u64::MAX - d as u64) / 16,
                                d < 16,
                        ;
                        value = value * 16 + d as u64;
                    }
                } else {
                    assert(hex_value(next) > u64::MAX) by (nonlinear_arith)
                        requires
                            hex_value(next) == hex_value(prefix) * 16 + d,
                            hex_value(prefix) > u64::MAX,
                    ;
                }
            },
        }
        i += 1;
    }
    assert(s@.subrange(start as int, s@.len() as int) =~= digits);
    assert forall|k: int| 0 <= k < digits.len() implies spec_hex_digit(#[trigger] digits[k]) is Some by {
        assert(digits[k] == s@[start + k]);
    }
    if fits {
        Some(value)
    } else {
        None
    }
}

/// The characters before the first `-`, if there is one.
pub open spec fn spec_before_dash(line: Seq<char>) -> Option<Seq<char>> {
    if exists|i: int| is_first_dash(line, i) {
        Some(line.take(choose|i: int| is_first_dash(line, i)))
    } else {
        None
    }
}

/// Position `i` holds the first `-` of `line`.
pub open spec fn is_first_dash(line: Seq<char>, i: int) -> bool {
    0 <= i < line.len() && line[i] == '-' && forall|k: int| 0 <= k < i ==> line[k] != '-'
}

/// The base address that a line of the memory maps gives for a module: the
/// line names the module, and the hexadecimal start address before its first
/// `-` parses.
pub open spec fn spec_line_base(line: Seq<char>, module_name: Seq<char>) -> Option<u64> {
    if !spec_contains(line, module_name) {
        None
    } else {
        match spec_before_dash(line) {
            None => None,
            Some(address) => spec_parse_hex_u64(address),
        }
    }
}

/// The base address of a module: that of the first line of the memory maps
/// from `from` on that gives one.
pub open spec fn spec_module_base(lines: Seq<Seq<char>>, module_name: Seq<char>, from: int) -> Option<u64>
    decreases lines.len() - from,
{
    if from >= lines.len() {
        None
    } else {
        match spec_line_base(lines[from], module_name) {
            Some(base) => Some(base),
            None => spec_module_base(lines, module_name, from + 1),
        }
    }
}

/// The base address that one line of the memory maps gives for a module.
pub fn line_base(line: &str, module_name: &str) -> (base: Option<u64>)
    ensures
        base == spec_line_base(line@, module_name@),
{
    if !contains(line, module_name) {
        return None;
    }
    let chars = chars_of(line);
    let mut i: usize = 0;
    while i < chars.len()
        invariant
            chars@ == line@,
            spec_contains(line@, module_name@),
            i <= chars@.len(),
            forall|k: int| 0 <= k < i ==> chars@[k] != '-',
        decreases chars@.len() - i,
    {
        if chars[i] == '-' {
            proof {
                assert(is_first_dash(line@, i as int));
                let j = choose|j: int| is_first_dash(line@, j);
                assert(j == i) by {
                    if j < i {
                        assert(chars@[j] != '-');
                    } else if j > i {
                        assert(line@[i as int] == '-');
                    }
                }
            }
            let address = chars.as_slice().split_at(i).0;
            assert(address@ =~= line@.take(i as int));
            return parse_hex_u64(address);
        }
        i += 1;
    }
    None
}

impl Process {
    /// The base address of `module_name` according to the lines of the
    /// process's memory maps: the start address of the first line that names
    /// the module and whose start address parses.
    pub fn module_base_address(&self, maps: &Vec<String>, module_name: &str) -> (base: Option<u64>)
        ensures
            base == spec_module_base(maps@.map_values(|l: String| l@), module_name@, 0),
    {
        let ghost lines = maps@.map_values(|l: String| l@);
        let mut i: usize = 0;
        while i < maps.len()
            invariant
                lines == maps@.map_values(|l: String| l@),
                i <= maps@.len(),
                spec_module_base(lines, module_name@, 0) == spec_module_base(lines, module_name@, i as int),
            decreases maps@.len() - i,
        {
            if let Some(base) = line_base(maps[i].as_str(), module_name) {
                return Some(base);
            }
            i += 1;
        }
        None
    }
}

/// The expected range covers every module with its margin: the lower bound
/// lies at or below each module base less the margin, the upper bound at or
/// above each module end plus the margin (both wrapping).
pub proof fn lemma_bounds_cover_modules(modules: Seq<(u64, u64)>)
    ensures
        forall|k: int|
            0 <= k < modules.len() ==> spec_lower_bound(modules) <= (#[trigger] modules[k]).0.wrapping_sub(MODULE_MARGIN)
                && spec_upper_bound(modules) >= modules[k].0.wrapping_add(modules[k].1).wrapping_add(MODULE_MARGIN),
    decreases modules.len(),
{
    if modules.len() > 0 {
        let rest = modules.drop_last();
        lemma_bounds_cover_modules(rest);
        assert forall|k: int| 0 <= k < modules.len() implies spec_lower_bound(modules) <= (#[trigger] modules[k]).0.wrapping_sub(
            MODULE_MARGIN,
        ) && spec_upper_bound(modules) >= modules[k].0.wrapping_add(modules[k].1).wrapping_add(MODULE_MARGIN) by {
            if k < modules.len() - 1 {
                assert(modules[k] == rest[k]);
            }
        }
    }
}

} // verus!
