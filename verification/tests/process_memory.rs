use std::collections::HashMap;

use deadlocked::memory::{Read, ReadMachine, Step, Width};
use deadlocked::process::elf::{DynamicSearch, PhtSearch};
use deadlocked::process::scan::Pattern;
use deadlocked::process::strings::{CachedString, StringCache};
use deadlocked::process::pids::{exe_name_is, parse_pid};
use deadlocked::process::{line_base, parse_hex_u64, Process};

#[derive(Default)]
struct Memory {
    bytes: HashMap<u64, u8>,
}

impl Memory {
    fn put(&mut self, address: u64, value: u64, size: u64) {
        for i in 0..size {
            self.bytes.insert(address.wrapping_add(i), (value >> (8 * i)) as u8);
        }
    }

    fn put_str(&mut self, address: u64, s: &str) {
        for (i, b) in s.bytes().enumerate() {
            self.put(address + i as u64, b as u64, 1);
        }
        self.put(address + s.len() as u64, 0, 1);
    }

    fn read(&self, read: Read) -> u64 {
        let size = match read.width {
            Width::U8 => 1,
            Width::U16 => 2,
            Width::U32 => 4,
            Width::U64 => 8,
        };
        let mut value = 0u64;
        for i in 0..size {
            value |= (*self.bytes.get(&read.address.wrapping_add(i)).unwrap_or(&0) as u64) << (8 * i);
        }
        value
    }
}

fn drive<M: ReadMachine>(mut step: Step<M, M::Output>, memory: &Memory) -> M::Output {
    loop {
        match step {
            Step::Read(machine, read) => step = machine.resume(memory.read(read)),
            Step::Done(output) => return output,
        }
    }
}

fn process() -> Process {
    Process::new(42, &vec![])
}

const BASE: u64 = 0x10_0000;

/// A module at `BASE` with a program header table of three entries, the
/// second of them the dynamic segment, whose section holds a string table, a
/// symbol table and a terminating entry.
fn module(m: &mut Memory) {
    // ELF header
    m.put(BASE + 0x20, 0x40, 8); // program header offset
    m.put(BASE + 0x36, 0x38, 2); // program header size
    m.put(BASE + 0x38, 3, 2); // program header count
    m.put(BASE + 0x28, 0x5000, 8); // section header offset
    m.put(BASE + 0x3a, 0x40, 2); // section header size
    m.put(BASE + 0x3c, 0x20, 2); // section header count
    // program headers: load, dynamic, note
    m.put(BASE + 0x40, 1, 4);
    m.put(BASE + 0x40 + 0x38, 2, 4);
    m.put(BASE + 0x40 + 0x38 + 16, 0x1000, 8); // dynamic section offset
    m.put(BASE + 0x40 + 0x70, 4, 4);
    // dynamic section at BASE + 0x1000
    let dynamic = BASE + 0x1000;
    m.put(dynamic, 1, 8);
    m.put(dynamic + 8, 0xdead, 8);
    m.put(dynamic + 16, 5, 8); // strtab
    m.put(dynamic + 24, BASE + 0x2000, 8);
    m.put(dynamic + 32, 6, 8); // symtab
    m.put(dynamic + 40, BASE + 0x3000, 8);
    m.put(dynamic + 48, 0, 8);
    // string table
    m.put_str(BASE + 0x2000 + 1, "foo");
    m.put_str(BASE + 0x2000 + 5, "CreateInterface");
    m.put_str(BASE + 0x2000 + 21, "bar");
    // symbols after the first
    let symtab = BASE + 0x3000;
    m.put(symtab + 0x18, 1, 4);
    m.put(symtab + 0x18 + 8, 0x111, 8);
    m.put(symtab + 0x30, 5, 4);
    m.put(symtab + 0x30 + 8, 0x4000, 8);
    m.put(symtab + 0x48, 21, 4);
    m.put(symtab + 0x48 + 8, 0x333, 8);
}

#[test]
fn module_size_is_end_of_section_headers() {
    let mut m = Memory::default();
    module(&mut m);
    assert_eq!(drive(process().module_size(BASE), &m), 0x5000 + 0x40 * 0x20);
}

#[test]
fn program_header_search() {
    let mut m = Memory::default();
    module(&mut m);
    assert_eq!(drive(process().get_segment_from_pht(BASE, 2), &m), Some(BASE + 0x40 + 0x38));
    assert_eq!(drive(process().get_segment_from_pht(BASE, 1), &m), Some(BASE + 0x40));
    assert_eq!(drive(process().get_segment_from_pht(BASE, 7), &m), None);
    assert_eq!(drive(PhtSearch::start(0x9999_0000, 2), &m), None);
}

#[test]
fn dynamic_section_search() {
    let mut m = Memory::default();
    module(&mut m);
    assert_eq!(drive(process().get_address_from_dynamic_section(BASE, 5), &m), Some(BASE + 0x2000));
    assert_eq!(drive(process().get_address_from_dynamic_section(BASE, 6), &m), Some(BASE + 0x3000));
    assert_eq!(drive(DynamicSearch::start(BASE, 1), &m), Some(0xdead));
    assert_eq!(drive(DynamicSearch::start(BASE, 9), &m), None);
}

#[test]
fn module_exports() {
    let mut m = Memory::default();
    module(&mut m);
    assert_eq!(drive(process().get_module_export(BASE, "foo"), &m), Some(0x111 + BASE));
    assert_eq!(drive(process().get_module_export(BASE, "bar"), &m), Some(0x333 + BASE));
    assert_eq!(drive(process().get_module_export(BASE, "baz"), &m), None);
    assert_eq!(drive(process().get_module_export(BASE, "fo"), &m), None);
}

#[test]
fn interfaces() {
    let mut m = Memory::default();
    module(&mut m);
    // CreateInterface at BASE + 0x4000; its list reference at +0x10.
    let export = BASE + 0x4000 + 0x10;
    let list_pointer = export + 7 + 0x100;
    m.put(export + 3, 0x100, 4);
    let first = 0x70_0000;
    let second = 0x71_0000;
    m.put(list_pointer, first, 8);
    m.put(first + 8, 0x72_0000, 8);
    m.put_str(0x72_0000, "Source2Client002");
    m.put(first + 0x10, second, 8);
    m.put(second + 8, 0x73_0000, 8);
    m.put_str(0x73_0000, "GameResourceServiceClientV001");
    m.put(second, 0x74_0000, 8);
    m.put(0x74_0000 + 3, 0x20, 4);
    m.put(second + 0x10, 0, 8);
    assert_eq!(
        drive(process().get_interface_offset(BASE, "GameResourceServiceClientV"), &m),
        Some(0x20 + 0x74_0000 + 7)
    );
    assert_eq!(drive(process().get_interface_offset(BASE, "Missing"), &m), None);
}

#[test]
fn convars() {
    let mut m = Memory::default();
    let cvar = 0x50_0000;
    let objects = 0x51_0000;
    m.put(cvar + 0x48, objects, 8);
    m.put(cvar + 160, 3, 4);
    m.put(objects, 0x52_0000, 8);
    m.put(0x52_0000, 0x53_0000, 8);
    m.put_str(0x53_0000, "sensitivity");
    m.put(objects + 16, 0x54_0000, 8);
    m.put(0x54_0000, 0x55_0000, 8);
    m.put_str(0x55_0000, "mp_teammates_are_enemies");
    m.put(objects + 32, 0, 8);
    let p = process();
    assert_eq!(drive(p.get_convar(cvar, "sensitivity"), &m), Some(0x52_0000));
    assert_eq!(drive(p.get_convar(cvar, "mp_teammates_are_enemies"), &m), Some(0x54_0000));
    assert_eq!(drive(p.get_convar(cvar, "fps_max"), &m), None);
    assert_eq!(drive(p.get_convar(0, "sensitivity"), &m), None);
}

#[test]
fn interface_function_and_relative_address() {
    let mut m = Memory::default();
    m.put(0x1000, 0x2000, 8);
    m.put(0x2000 + 3 * 8, 0xabcd, 8);
    let p = process();
    assert_eq!(drive(p.get_interface_function(0x1000, 3), &m), 0xabcd);
    m.put(0x3000 + 3, 0x10, 4);
    assert_eq!(drive(p.get_relative_address(0x3000, 3, 7), &m), 0x3000 + 7 + 0x10);
    m.put(0x3000 + 3, (-0x20i32) as u32 as u64, 4);
    assert_eq!(drive(p.get_relative_address(0x3000, 3, 7), &m), 0x3000 + 7 - 0x20);
}

#[test]
fn strings_and_cache() {
    let mut m = Memory::default();
    m.put_str(0x100, "hello");
    m.put(0x200, 0xff, 1);
    m.put(0x201, 0xfe, 1);
    let p = process();
    let mut cache = StringCache::new();
    assert_eq!(drive(p.read_string_uncached(0x100), &m).into_string(), "hello");
    assert_eq!(drive(p.read_string_uncached(0x200), &m).into_string(), "");
    assert_eq!(drive(p.read_string_uncached(0x300), &m).into_string(), "");
    let s = match p.read_string(&cache, 0x100) {
        CachedString::Hit(_) => panic!("empty cache"),
        CachedString::Miss(step) => cache.store(0x100, drive(step, &m)),
    };
    assert_eq!(s, "hello");
    match p.read_string(&cache, 0x100) {
        CachedString::Hit(s) => assert_eq!(s, "hello"),
        CachedString::Miss(_) => panic!("cached"),
    }
}

fn entries(p: &Pattern) -> Vec<(u8, u8)> {
    p.bytes.iter().copied().zip(p.mask.iter().copied()).collect()
}

#[test]
fn pattern_parsing() {
    let p = Pattern::parse("48 8B ? ?? 05 +F zz 123 -1 G1 ff");
    assert_eq!(entries(&p), vec![(0x48, 0xff), (0x8b, 0xff), (0, 0), (0, 0), (0x05, 0xff), (0x0f, 0xff), (0xff, 0xff)]);
    let p = Pattern::parse("  \t48\u{3000}8b\n");
    assert_eq!(entries(&p), vec![(0x48, 0xff), (0x8b, 0xff)]);
    assert!(entries(&Pattern::parse("")).is_empty());
    assert!(entries(&Pattern::parse("???")).is_empty());
    assert!(entries(&Pattern::parse("é")).is_empty());
}

#[test]
fn scanning() {
    let p = process();
    let mut module = vec![0u8; 600];
    module[100] = 0x48;
    module[101] = 0x8b;
    module[103] = 0x05;
    module[300] = 0x48;
    module[301] = 0x8b;
    module[303] = 0x05;
    assert_eq!(p.scan("48 8B ? 05", &module, 0x1000), Some(0x1000 + 100));
    assert_eq!(p.scan("48 8B 00 05", &module, 0x1000), Some(0x1000 + 100));
    assert_eq!(p.scan("48 8B 01 05", &module, 0x1000), None);
    let small = vec![0x48u8; 499];
    assert_eq!(p.scan("48", &small, 0), None);
}

#[test]
fn scanning_skips_the_last_offset() {
    let p = process();
    let mut module = vec![0u8; 500];
    module[499] = 0xaa;
    assert_eq!(p.scan("aa", &module, 0), None);
    module[498] = 0xaa;
    assert_eq!(p.scan("aa", &module, 0), Some(498));
    assert_eq!(p.scan("?", &module, 7), Some(7));
}

fn chars(s: &str) -> Vec<char> {
    s.chars().collect()
}

#[test]
fn hex_parsing() {
    assert_eq!(parse_hex_u64(&chars("7f00")), Some(0x7f00));
    assert_eq!(parse_hex_u64(&chars("+Ff")), Some(0xff));
    assert_eq!(parse_hex_u64(&chars("ffffffffffffffff")), Some(u64::MAX));
    assert_eq!(parse_hex_u64(&chars("10000000000000000")), None);
    assert_eq!(parse_hex_u64(&chars("")), None);
    assert_eq!(parse_hex_u64(&chars("+")), None);
    assert_eq!(parse_hex_u64(&chars("-1")), None);
    assert_eq!(parse_hex_u64(&chars("12g")), None);
}

#[test]
fn memory_map_lines() {
    let line = "7f1234560000-7f1234570000 r-xp 00000000 08:01 1234 /game/bin/linuxsteamrt64/libclient.so";
    assert_eq!(line_base(line, "libclient.so"), Some(0x7f1234560000));
    assert_eq!(line_base(line, "libengine2.so"), None);
    assert_eq!(line_base("nodash libclient.so", "libclient.so"), None);
    assert_eq!(line_base("zz-1 libclient.so", "libclient.so"), None);
    let maps = vec![
        String::from("1000-2000 r--p 0 0:0 0 /usr/lib/libc.so"),
        String::from("xyz-3000 r--p 0 0:0 0 /game/libclient.so"),
        String::from("4000-5000 r--p 0 0:0 0 /game/libclient.so"),
        String::from("6000-7000 r--p 0 0:0 0 /game/libclient.so"),
    ];
    assert_eq!(process().module_base_address(&maps, "libclient.so"), Some(0x4000));
    assert_eq!(process().module_base_address(&maps, "libtier0.so"), None);
}

#[test]
fn process_bounds() {
    let p = Process::new(-1, &vec![(0x1000_0000, 0x100)]);
    assert_eq!((p.min, p.max, p.is_setup), (u64::MAX, 0, false));
    let p = Process::new(7, &vec![(0x1000_0000, 0x100), (0x2000_0000, 0x50)]);
    assert_eq!(p.min, 0x1000_0000 - 1_000_000);
    assert_eq!(p.max, 0x2000_0000 + 0x50 + 1_000_000);
    assert!(p.is_setup);
    assert!(p.is_outside(0x100));
    assert!(!p.is_outside(0x1800_0000));
    let q = Process::new(7, &vec![]);
    assert_eq!((q.min, q.max, q.is_setup), (u64::MAX, 0, true));
}

#[test]
fn process_validity() {
    assert!(Process::new(7, &vec![]).is_valid(true));
    assert!(!Process::new(7, &vec![]).is_valid(false));
    assert!(!Process::new(0, &vec![]).is_valid(true));
    assert!(!Process::new(-1, &vec![]).is_valid(true));
}

#[test]
fn cached_string_outlives_memory_changes() {
    let mut m = Memory::default();
    m.put_str(0x100, "first");
    let p = process();
    let mut cache = StringCache::new();
    let s1 = match p.read_string(&cache, 0x100) {
        CachedString::Hit(_) => panic!("empty cache"),
        CachedString::Miss(step) => cache.store(0x100, drive(step, &m)),
    };
    assert_eq!(s1, "first");
    m.put_str(0x100, "other");
    m.put_str(0x200, "else");
    let again = cache.store(0x100, drive(p.read_string_uncached(0x100), &m));
    assert_eq!(again, "first");
    let elsewhere = cache.store(0x200, drive(p.read_string_uncached(0x200), &m));
    assert_eq!(elsewhere, "else");
    match p.read_string(&cache, 0x100) {
        CachedString::Hit(s) => assert_eq!(s, "first"),
        CachedString::Miss(_) => panic!("cached"),
    }
}

#[test]
fn scan_ignores_token_forms() {
    let p = process();
    let mut module = vec![0u8; 600];
    module[200] = 0x8b;
    module[201] = 0x11;
    module[202] = 0x05;
    assert_eq!(p.scan("8B ? 05", &module, 0x1000), Some(0x1000 + 200));
    assert_eq!(p.scan("8b ?? 05", &module, 0x1000), p.scan("8B ? 05", &module, 0x1000));
    assert_eq!(p.scan("zz 8B xyz ? 123 05", &module, 0x1000), p.scan("8B ? 05", &module, 0x1000));
    assert_eq!(p.scan("zz qq", &module, 0x1000), Some(0x1000));
    assert_eq!(p.scan("", &module, 0x1000), Some(0x1000));
}

#[test]
fn process_ids() {
    assert_eq!(parse_pid("1234"), Some(1234));
    assert_eq!(parse_pid("0"), Some(0));
    assert_eq!(parse_pid("2147483647"), Some(i32::MAX));
    assert_eq!(parse_pid("2147483648"), None);
    assert_eq!(parse_pid("99999999999999999999"), None);
    assert_eq!(parse_pid(""), None);
    assert_eq!(parse_pid("12a"), None);
    assert_eq!(exe_name_is("/usr/bin/cs2", "cs2"), Some(true));
    assert_eq!(exe_name_is("/usr/bin/cs2x", "cs2"), Some(false));
    assert_eq!(exe_name_is("/home/cs2/game", "cs2"), Some(false));
    assert_eq!(exe_name_is("cs2", "cs2"), None);
    assert_eq!(exe_name_is("/a/b/", ""), Some(true));
}
