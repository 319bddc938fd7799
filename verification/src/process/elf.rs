//! ELF structures of the game's modules, as they lie in the target's memory.
use vstd::prelude::*;

use crate::process::strings::{c_string, c_string_len, lemma_c_string, utf8_or_empty, ByteList, StringRead};
use crate::text::str_eq;
use crate::memory::{lemma_run_monotonic, lemma_run_read, run, Oracle, Read, ReadMachine, Step, Width};

verus! {

/// Where the ELF header keeps the program header table's offset.
pub const PROGRAM_HEADER_OFFSET: u64 = 0x20;

/// Where the ELF header keeps the section header table's offset.
pub const SECTION_HEADER_OFFSET: u64 = 0x28;

/// Where the ELF header keeps the size of a program header.
pub const PROGRAM_HEADER_ENTRY_SIZE: u64 = 0x36;

/// Where the ELF header keeps the number of program headers.
pub const PROGRAM_HEADER_NUM_ENTRIES: u64 = 0x38;

/// Where the ELF header keeps the size of a section header.
pub const SECTION_HEADER_ENTRY_SIZE: u64 = 0x3a;

/// Where the ELF header keeps the number of section headers.
pub const SECTION_HEADER_NUM_ENTRIES: u64 = 0x3c;

/// The program header type of the dynamic section.
pub const DYNAMIC_SECTION_PHT_TYPE: u64 = 2;

/// The dynamic section tag of the string table.
pub const DT_STRTAB: u64 = 5;

/// The dynamic section tag of the symbol table.
pub const DT_SYMTAB: u64 = 6;

/// The size of one symbol table entry.
pub const SYMBOL_SIZE: u64 = 0x18;

/// A read of `width` bytes at `address`.
pub open spec fn value_read(address: u64, width: Width) -> Read {
    Read { address, width }
}

/// A 16-bit value read as the reply of a read.
pub open spec fn as_u16(reply: u64) -> u64 {
    reply as u16 as u64
}

/// A 32-bit value read as the reply of a read.
pub open spec fn as_u32(reply: u64) -> u64 {
    reply as u32 as u64
}

// ---------------------------------------------------------------------------
// Module size.

/// The size of a module: the end of its section header table.
pub open spec fn spec_module_size(oracle: Oracle, address: u64) -> u64 {
    let offset = oracle(value_read(address.wrapping_add(SECTION_HEADER_OFFSET), Width::U64));
    let entry_size = as_u16(oracle(value_read(address.wrapping_add(SECTION_HEADER_ENTRY_SIZE), Width::U16)));
    let count = as_u16(oracle(value_read(address.wrapping_add(SECTION_HEADER_NUM_ENTRIES), Width::U16)));
    offset.wrapping_add(entry_size.wrapping_mul(count))
}

/// Reads the size of the module at an address.
pub enum ModuleSize {
    /// Waiting for the section header table offset.
    Offset { address: u64 },
    /// Waiting for the section header size.
    EntrySize { address: u64, offset: u64 },
    /// Waiting for the number of section headers.
    Count { offset: u64, entry_size: u64 },
}

impl ModuleSize {
    pub open spec fn spec_start(address: u64) -> Step<ModuleSize, u64> {
        Step::Read(ModuleSize::Offset { address }, value_read(address.wrapping_add(SECTION_HEADER_OFFSET), Width::U64))
    }

    /// Starts reading the size of the module at `address` (see
    /// `lemma_module_size`).
    pub fn start(address: u64) -> (step: Step<ModuleSize, u64>)
        ensures
            step == Self::spec_start(address),
    {
        Step::Read(
            ModuleSize::Offset { address },
            Read { address: address.wrapping_add(SECTION_HEADER_OFFSET), width: Width::U64 },
        )
    }
}

impl ReadMachine for ModuleSize {
    type Output = u64;

    open spec fn next(self, reply: u64) -> Step<ModuleSize, u64> {
        match self {
            ModuleSize::Offset { address } => Step::Read(
                ModuleSize::EntrySize { address, offset: reply },
                value_read(address.wrapping_add(SECTION_HEADER_ENTRY_SIZE), Width::U16),
            ),
            ModuleSize::EntrySize { address, offset } => Step::Read(
                ModuleSize::Count { offset, entry_size: as_u16(reply) },
                value_read(address.wrapping_add(SECTION_HEADER_NUM_ENTRIES), Width::U16),
            ),
            ModuleSize::Count { offset, entry_size } => Step::Done(
                offset.wrapping_add(entry_size.wrapping_mul(as_u16(reply))),
            ),
        }
    }

    fn resume(self, reply: u64) -> (step: Step<ModuleSize, u64>) {
        match self {
            ModuleSize::Offset { address } => Step::Read(
                ModuleSize::EntrySize { address, offset: reply },
                Read { address: address.wrapping_add(SECTION_HEADER_ENTRY_SIZE), width: Width::U16 },
            ),
            ModuleSize::EntrySize { address, offset } => Step::Read(
                ModuleSize::Count { offset, entry_size: reply as u16 as u64 },
                Read { address: address.wrapping_add(SECTION_HEADER_NUM_ENTRIES), width: Width::U16 },
            ),
            ModuleSize::Count { offset, entry_size } => Step::Done(
                offset.wrapping_add(entry_size.wrapping_mul(reply as u16 as u64)),
            ),
        }
    }
}

/// Reading a module's size takes three reads and gives `spec_module_size`.
pub proof fn lemma_module_size(oracle: Oracle, address: u64)
    ensures
        run(ModuleSize::spec_start(address), oracle, 3) == Some(spec_module_size(oracle, address)),
{
    reveal_with_fuel(run, 4);
}

// ---------------------------------------------------------------------------
// Program header table search.

/// The address of program header `i`.
pub open spec fn pht_entry(first: u64, entry_size: u64, i: u64) -> u64 {
    first.wrapping_add(i.wrapping_mul(entry_size))
}

/// The first program header from `i` on, of `count`, whose type is `tag`.
pub open spec fn pht_scan(oracle: Oracle, tag: u64, first: u64, entry_size: u64, count: u64, i: u64) -> Option<u64>
    decreases count - i,
{
    if i >= count {
        None
    } else if as_u32(oracle(value_read(pht_entry(first, entry_size, i), Width::U32))) == tag {
        Some(pht_entry(first, entry_size, i))
    } else {
        pht_scan(oracle, tag, first, entry_size, count, (i + 1) as u64)
    }
}

/// The first program header of the module at `base` whose type is `tag`.
pub open spec fn spec_segment_from_pht(oracle: Oracle, base: u64, tag: u64) -> Option<u64> {
    let first = oracle(value_read(base.wrapping_add(PROGRAM_HEADER_OFFSET), Width::U64)).wrapping_add(base);
    let entry_size = as_u16(oracle(value_read(base.wrapping_add(PROGRAM_HEADER_ENTRY_SIZE), Width::U16)));
    let count = as_u16(oracle(value_read(base.wrapping_add(PROGRAM_HEADER_NUM_ENTRIES), Width::U16)));
    pht_scan(oracle, tag, first, entry_size, count, 0)
}

/// Searches the program header table for a header type.
pub enum PhtSearch {
    /// Waiting for the offset of the table.
    First { base: u64, tag: u64 },
    /// Waiting for the size of a header.
    EntrySize { base: u64, tag: u64, first: u64 },
    /// Waiting for the number of headers.
    Count { tag: u64, first: u64, entry_size: u64 },
    /// Waiting for the type of header `index`.
    Entry { tag: u64, first: u64, entry_size: u64, count: u64, index: u64 },
}

/// The search step that looks at header `index`, or the end of the table.
pub open spec fn pht_at(tag: u64, first: u64, entry_size: u64, count: u64, index: u64) -> Step<PhtSearch, Option<u64>> {
    if index >= count {
        Step::Done(None)
    } else {
        Step::Read(
            PhtSearch::Entry { tag, first, entry_size, count, index },
            value_read(pht_entry(first, entry_size, index), Width::U32),
        )
    }
}

fn pht_at_exec(tag: u64, first: u64, entry_size: u64, count: u64, index: u64) -> (step: Step<PhtSearch, Option<u64>>)
    ensures
        step == pht_at(tag, first, entry_size, count, index),
{
    if index >= count {
        Step::Done(None)
    } else {
        Step::Read(
            PhtSearch::Entry { tag, first, entry_size, count, index },
            Read { address: first.wrapping_add(index.wrapping_mul(entry_size)), width: Width::U32 },
        )
    }
}

impl PhtSearch {
    pub open spec fn spec_start(base: u64, tag: u64) -> Step<PhtSearch, Option<u64>> {
        Step::Read(PhtSearch::First { base, tag }, value_read(base.wrapping_add(PROGRAM_HEADER_OFFSET), Width::U64))
    }

    /// Starts searching the program header table of the module at `base` for
    /// a header of type `tag` (see `lemma_segment_from_pht`).
    pub fn start(base: u64, tag: u64) -> (step: Step<PhtSearch, Option<u64>>)
        ensures
            step == Self::spec_start(base, tag),
    {
        Step::Read(
            PhtSearch::First { base, tag },
            Read { address: base.wrapping_add(PROGRAM_HEADER_OFFSET), width: Width::U64 },
        )
    }
}

impl ReadMachine for PhtSearch {
    type Output = Option<u64>;

    open spec fn next(self, reply: u64) -> Step<PhtSearch, Option<u64>> {
        match self {
            PhtSearch::First { base, tag } => Step::Read(
                PhtSearch::EntrySize { base, tag, first: reply.wrapping_add(base) },
                value_read(base.wrapping_add(PROGRAM_HEADER_ENTRY_SIZE), Width::U16),
            ),
            PhtSearch::EntrySize { base, tag, first } => Step::Read(
                PhtSearch::Count { tag, first, entry_size: as_u16(reply) },
                value_read(base.wrapping_add(PROGRAM_HEADER_NUM_ENTRIES), Width::U16),
            ),
            PhtSearch::Count { tag, first, entry_size } => pht_at(tag, first, entry_size, as_u16(reply), 0),
            PhtSearch::Entry { tag, first, entry_size, count, index } => if as_u32(reply) == tag {
                Step::Done(Some(pht_entry(first, entry_size, index)))
            } else if index >= count {
                Step::Done(None)
            } else {
                pht_at(tag, first, entry_size, count, (index + 1) as u64)
            },
        }
    }

    fn resume(self, reply: u64) -> (step: Step<PhtSearch, Option<u64>>) {
        match self {
            PhtSearch::First { base, tag } => Step::Read(
                PhtSearch::EntrySize { base, tag, first: reply.wrapping_add(base) },
                Read { address: base.wrapping_add(PROGRAM_HEADER_ENTRY_SIZE), width: Width::U16 },
            ),
            PhtSearch::EntrySize { base, tag, first } => Step::Read(
                PhtSearch::Count { tag, first, entry_size: reply as u16 as u64 },
                Read { address: base.wrapping_add(PROGRAM_HEADER_NUM_ENTRIES), width: Width::U16 },
            ),
            PhtSearch::Count { tag, first, entry_size } => pht_at_exec(tag, first, entry_size, reply as u16 as u64, 0),
            PhtSearch::Entry { tag, first, entry_size, count, index } => if reply as u32 as u64 == tag {
                Step::Done(Some(first.wrapping_add(index.wrapping_mul(entry_size))))
            } else if index >= count {
                Step::Done(None)
            } else {
                pht_at_exec(tag, first, entry_size, count, index + 1)
            },
        }
    }
}

proof fn lemma_pht_scan(oracle: Oracle, tag: u64, first: u64, entry_size: u64, count: u64, index: u64, fuel: nat)
    requires
        index <= count,
        fuel >= count - index,
    ensures
        run(pht_at(tag, first, entry_size, count, index), oracle, fuel) == Some(
            pht_scan(oracle, tag, first, entry_size, count, index),
        ),
    decreases count - index,
{
    if index < count {
        lemma_run_read(
            PhtSearch::Entry { tag, first, entry_size, count, index },
            value_read(pht_entry(first, entry_size, index), Width::U32),
            oracle,
            fuel,
        );
        lemma_pht_scan(oracle, tag, first, entry_size, count, (index + 1) as u64, (fuel - 1) as nat);
    } else {
        reveal_with_fuel(run, 1);
    }
}

/// The most reads a program header search takes: three for the header and
/// one for each of at most 65535 program headers.
pub open spec fn pht_search_reads() -> nat {
    3 + 0xffff
}

/// Searching the program header table gives the first header of the type.
pub proof fn lemma_segment_from_pht(oracle: Oracle, base: u64, tag: u64)
    ensures
        run(PhtSearch::spec_start(base, tag), oracle, pht_search_reads()) == Some(
            spec_segment_from_pht(oracle, base, tag),
        ),
{
    let first = oracle(value_read(base.wrapping_add(PROGRAM_HEADER_OFFSET), Width::U64)).wrapping_add(base);
    let entry_size = as_u16(oracle(value_read(base.wrapping_add(PROGRAM_HEADER_ENTRY_SIZE), Width::U16)));
    let count = as_u16(oracle(value_read(base.wrapping_add(PROGRAM_HEADER_NUM_ENTRIES), Width::U16)));
    lemma_pht_scan(oracle, tag, first, entry_size, count, 0, 0xffff);
    lemma_run_read(
        PhtSearch::First { base, tag },
        value_read(base.wrapping_add(PROGRAM_HEADER_OFFSET), Width::U64),
        oracle,
        pht_search_reads(),
    );
    lemma_run_read(
        PhtSearch::EntrySize { base, tag, first },
        value_read(base.wrapping_add(PROGRAM_HEADER_ENTRY_SIZE), Width::U16),
        oracle,
        (pht_search_reads() - 1) as nat,
    );
    lemma_run_read(
        PhtSearch::Count { tag, first, entry_size },
        value_read(base.wrapping_add(PROGRAM_HEADER_NUM_ENTRIES), Width::U16),
        oracle,
        (pht_search_reads() - 2) as nat,
    );
}

// ---------------------------------------------------------------------------
// Dynamic section search.

/// One entry of the dynamic section: its tag at `address`, its value at
/// `address + 8`.
pub open spec fn dyn_tag_read(address: u64) -> Read {
    value_read(address, Width::U64)
}

/// Looking at the dynamic entries from `address` on, at most `entries` more
/// after the first: `Some(None)` at the terminating zero tag, `Some(Some(v))`
/// at the first entry whose tag is `tag`, `None` if neither comes in range.
pub open spec fn dyn_scan(oracle: Oracle, tag: u64, address: u64, entries: nat) -> Option<Option<u64>>
    decreases entries,
{
    let t = oracle(dyn_tag_read(address));
    if t == 0 {
        Some(None)
    } else if t == tag {
        Some(Some(oracle(value_read(address.wrapping_add(8), Width::U64))))
    } else if entries == 0 {
        None
    } else {
        dyn_scan(oracle, tag, address.wrapping_add(16), (entries - 1) as nat)
    }
}

/// The value of the first dynamic entry tagged `tag` of the module at `base`,
/// looking at most `entries + 1` entries: `Some(None)` where the module has
/// no dynamic segment or the section ends first.
pub open spec fn spec_dynamic_section(oracle: Oracle, base: u64, tag: u64, entries: nat) -> Option<Option<u64>> {
    match spec_segment_from_pht(oracle, base, DYNAMIC_SECTION_PHT_TYPE) {
        None => Some(None),
        Some(segment) => {
            let start = oracle(value_read(segment.wrapping_add(16), Width::U64)).wrapping_add(base);
            dyn_scan(oracle, tag, start, entries)
        },
    }
}

/// Searches the dynamic section of a module for a tag.
pub enum DynamicSearch {
    /// Finding the dynamic segment.
    Segment { base: u64, tag: u64, pht: PhtSearch },
    /// Waiting for the offset of the dynamic section.
    Start { base: u64, tag: u64 },
    /// Waiting for the tag of the entry at `address`.
    Tag { tag: u64, address: u64 },
    /// Waiting for the value of the entry found.
    Value,
}

/// The dynamic search step that a segment search step stands for.
pub open spec fn lift_segment(base: u64, tag: u64, step: Step<PhtSearch, Option<u64>>) -> Step<DynamicSearch, Option<u64>> {
    match step {
        Step::Read(pht, read) => Step::Read(DynamicSearch::Segment { base, tag, pht }, read),
        Step::Done(None) => Step::Done(None),
        Step::Done(Some(segment)) => Step::Read(
            DynamicSearch::Start { base, tag },
            value_read(segment.wrapping_add(16), Width::U64),
        ),
    }
}

fn lift_segment_exec(base: u64, tag: u64, step: Step<PhtSearch, Option<u64>>) -> (lifted: Step<DynamicSearch, Option<u64>>)
    ensures
        lifted == lift_segment(base, tag, step),
{
    match step {
        Step::Read(pht, read) => Step::Read(DynamicSearch::Segment { base, tag, pht }, read),
        Step::Done(None) => Step::Done(None),
        Step::Done(Some(segment)) => Step::Read(
            DynamicSearch::Start { base, tag },
            Read { address: segment.wrapping_add(16), width: Width::U64 },
        ),
    }
}

impl DynamicSearch {
    pub open spec fn spec_start(base: u64, tag: u64) -> Step<DynamicSearch, Option<u64>> {
        lift_segment(base, tag, PhtSearch::spec_start(base, DYNAMIC_SECTION_PHT_TYPE))
    }

    /// Starts searching the dynamic section of the module at `base` for `tag`
    /// (see `lemma_dynamic_section`).
    pub fn start(base: u64, tag: u64) -> (step: Step<DynamicSearch, Option<u64>>)
        ensures
            step == Self::spec_start(base, tag),
    {
        lift_segment_exec(base, tag, PhtSearch::start(base, DYNAMIC_SECTION_PHT_TYPE))
    }
}

impl ReadMachine for DynamicSearch {
    type Output = Option<u64>;

    open spec fn next(self, reply: u64) -> Step<DynamicSearch, Option<u64>> {
        match self {
            DynamicSearch::Segment { base, tag, pht } => lift_segment(base, tag, pht.next(reply)),
            DynamicSearch::Start { base, tag } => {
                let address = reply.wrapping_add(base);
                Step::Read(DynamicSearch::Tag { tag, address }, dyn_tag_read(address))
            },
            DynamicSearch::Tag { tag, address } => if reply == 0 {
                Step::Done(None)
            } else if reply == tag {
                Step::Read(DynamicSearch::Value, value_read(address.wrapping_add(8), Width::U64))
            } else {
                Step::Read(
                    DynamicSearch::Tag { tag, address: address.wrapping_add(16) },
                    dyn_tag_read(address.wrapping_add(16)),
                )
            },
            DynamicSearch::Value => Step::Done(Some(reply)),
        }
    }

    fn resume(self, reply: u64) -> (step: Step<DynamicSearch, Option<u64>>) {
        match self {
            DynamicSearch::Segment { base, tag, pht } => lift_segment_exec(base, tag, pht.resume(reply)),
            DynamicSearch::Start { base, tag } => {
                let address = reply.wrapping_add(base);
                Step::Read(DynamicSearch::Tag { tag, address }, Read { address, width: Width::U64 })
            },
            DynamicSearch::Tag { tag, address } => if reply == 0 {
                Step::Done(None)
            } else if reply == tag {
                Step::Read(DynamicSearch::Value, Read { address: address.wrapping_add(8), width: Width::U64 })
            } else {
                let address = address.wrapping_add(16);
                Step::Read(DynamicSearch::Tag { tag, address }, Read { address, width: Width::U64 })
            },
            DynamicSearch::Value => Step::Done(Some(reply)),
        }
    }
}

proof fn lemma_dyn_scan(oracle: Oracle, tag: u64, address: u64, entries: nat)
    requires
        dyn_scan(oracle, tag, address, entries) is Some,
    ensures
        run(
            Step::<DynamicSearch, Option<u64>>::Read(DynamicSearch::Tag { tag, address }, dyn_tag_read(address)),
            oracle,
            entries + 2,
        ) == dyn_scan(oracle, tag, address, entries),
    decreases entries,
{
    lemma_run_read(DynamicSearch::Tag { tag, address }, dyn_tag_read(address), oracle, entries + 2);
    let t = oracle(dyn_tag_read(address));
    if t == 0 {
        reveal_with_fuel(run, 1);
    } else if t == tag {
        reveal_with_fuel(run, 2);
    } else {
        lemma_dyn_scan(oracle, tag, address.wrapping_add(16), (entries - 1) as nat);
    }
}

proof fn lemma_lift_segment(oracle: Oracle, base: u64, tag: u64, pht: PhtSearch, read: Read, sub_fuel: nat, rest: nat, fuel: nat)
    requires
        run(Step::Read(pht, read), oracle, sub_fuel) is Some,
        run(lift_segment(base, tag, Step::Done(run(Step::Read(pht, read), oracle, sub_fuel)->0)), oracle, rest) is Some,
        fuel >= sub_fuel + rest,
    ensures
        run(Step::Read(DynamicSearch::Segment { base, tag, pht }, read), oracle, fuel) == run(
            lift_segment(base, tag, Step::Done(run(Step::Read(pht, read), oracle, sub_fuel)->0)),
            oracle,
            rest,
        ),
    decreases sub_fuel,
{
    let o = run(Step::Read(pht, read), oracle, sub_fuel)->0;
    lemma_run_read(pht, read, oracle, sub_fuel);
    lemma_run_read(DynamicSearch::Segment { base, tag, pht }, read, oracle, fuel);
    match pht.next(oracle(read)) {
        Step::Read(p2, r2) => {
            lemma_lift_segment(oracle, base, tag, p2, r2, (sub_fuel - 1) as nat, rest, (fuel - 1) as nat);
        },
        Step::Done(_) => {
            lemma_run_monotonic(lift_segment(base, tag, Step::Done(o)), oracle, rest, (fuel - 1) as nat);
        },
    }
}

/// Searching the dynamic section gives the value of the first entry tagged
/// `tag` (or none at the end of the section or without a dynamic segment),
/// whenever the section's end or the tag comes within `entries + 1` entries.
pub proof fn lemma_dynamic_section(oracle: Oracle, base: u64, tag: u64, entries: nat)
    requires
        spec_dynamic_section(oracle, base, tag, entries) is Some,
    ensures
        run(DynamicSearch::spec_start(base, tag), oracle, pht_search_reads() + entries + 3) == spec_dynamic_section(
            oracle,
            base,
            tag,
            entries,
        ),
{
    lemma_segment_from_pht(oracle, base, DYNAMIC_SECTION_PHT_TYPE);
    let rest = entries + 3;
    match spec_segment_from_pht(oracle, base, DYNAMIC_SECTION_PHT_TYPE) {
        None => {
            reveal_with_fuel(run, 1);
        },
        Some(segment) => {
            let start = oracle(value_read(segment.wrapping_add(16), Width::U64)).wrapping_add(base);
            lemma_dyn_scan(oracle, tag, start, entries);
            lemma_run_read(
                DynamicSearch::Start { base, tag },
                value_read(segment.wrapping_add(16), Width::U64),
                oracle,
                rest,
            );
        },
    }
    if let Step::Read(pht, read) = PhtSearch::spec_start(base, DYNAMIC_SECTION_PHT_TYPE) {
        lemma_lift_segment(oracle, base, tag, pht, read, pht_search_reads(), rest, pht_search_reads() + rest);
    }
}

// ---------------------------------------------------------------------------
// Exported symbols.

/// Searches the symbol table of a module for an exported name.
pub enum ExportSearch {
    /// Finding the string table.
    Strings { base: u64, name: String, dynamic: DynamicSearch },
    /// Finding the symbol table.
    Symbols { base: u64, name: String, strtab: u64, dynamic: DynamicSearch },
    /// Waiting for the name offset of the symbol at `symbol`, to tell the end
    /// of the table (a zero offset).
    Check { base: u64, name: String, strtab: u64, symbol: u64 },
    /// Waiting for the name offset of the symbol at `symbol` once more.
    NameOffset { base: u64, name: String, strtab: u64, symbol: u64 },
    /// Reading the name of the symbol at `symbol`.
    Name { base: u64, name: String, strtab: u64, symbol: u64, read: StringRead },
    /// Waiting for the value of the symbol found.
    Value { base: u64 },
}

/// The read of the name offset of the symbol at `symbol`.
pub open spec fn symbol_name_read(symbol: u64) -> Read {
    value_read(symbol, Width::U32)
}

/// The export search step that looks at the symbol at `symbol`.
pub open spec fn export_check(base: u64, name: String, strtab: u64, symbol: u64) -> Step<ExportSearch, Option<u64>> {
    Step::Read(ExportSearch::Check { base, name, strtab, symbol }, symbol_name_read(symbol))
}

/// The export search step that a string table search step stands for.
pub open spec fn lift_strings(base: u64, name: String, step: Step<DynamicSearch, Option<u64>>) -> Step<
    ExportSearch,
    Option<u64>,
> {
    match step {
        Step::Read(dynamic, read) => Step::Read(ExportSearch::Strings { base, name, dynamic }, read),
        Step::Done(None) => Step::Done(None),
        Step::Done(Some(strtab)) => lift_symbols(base, name, strtab, DynamicSearch::spec_start(base, DT_SYMTAB)),
    }
}

/// The export search step that a symbol table search step stands for.
pub open spec fn lift_symbols(base: u64, name: String, strtab: u64, step: Step<DynamicSearch, Option<u64>>) -> Step<
    ExportSearch,
    Option<u64>,
> {
    match step {
        Step::Read(dynamic, read) => Step::Read(ExportSearch::Symbols { base, name, strtab, dynamic }, read),
        Step::Done(None) => Step::Done(None),
        Step::Done(Some(symtab)) => export_check(base, name, strtab, symtab.wrapping_add(SYMBOL_SIZE)),
    }
}

/// The export search step that a symbol name read step stands for.
pub open spec fn lift_symbol_name(base: u64, name: String, strtab: u64, symbol: u64, step: Step<StringRead, ByteList>) -> Step<
    ExportSearch,
    Option<u64>,
> {
    match step {
        Step::Read(read, r) => Step::Read(ExportSearch::Name { base, name, strtab, symbol, read }, r),
        Step::Done(bytes) => if utf8_or_empty(bytes.to_seq()) == name@ {
            Step::Read(ExportSearch::Value { base }, value_read(symbol.wrapping_add(8), Width::U64))
        } else {
            export_check(base, name, strtab, symbol.wrapping_add(SYMBOL_SIZE))
        },
    }
}

fn export_check_exec(base: u64, name: String, strtab: u64, symbol: u64) -> (step: Step<ExportSearch, Option<u64>>)
    ensures
        step == export_check(base, name, strtab, symbol),
{
    Step::Read(ExportSearch::Check { base, name, strtab, symbol }, Read { address: symbol, width: Width::U32 })
}

fn lift_symbols_exec(base: u64, name: String, strtab: u64, step: Step<DynamicSearch, Option<u64>>) -> (lifted: Step<
    ExportSearch,
    Option<u64>,
>)
    ensures
        lifted == lift_symbols(base, name, strtab, step),
{
    match step {
        Step::Read(dynamic, read) => Step::Read(ExportSearch::Symbols { base, name, strtab, dynamic }, read),
        Step::Done(None) => Step::Done(None),
        Step::Done(Some(symtab)) => export_check_exec(base, name, strtab, symtab.wrapping_add(SYMBOL_SIZE)),
    }
}

fn lift_strings_exec(base: u64, name: String, step: Step<DynamicSearch, Option<u64>>) -> (lifted: Step<
    ExportSearch,
    Option<u64>,
>)
    ensures
        lifted == lift_strings(base, name, step),
{
    match step {
        Step::Read(dynamic, read) => Step::Read(ExportSearch::Strings { base, name, dynamic }, read),
        Step::Done(None) => Step::Done(None),
        Step::Done(Some(strtab)) => lift_symbols_exec(base, name, strtab, DynamicSearch::start(base, DT_SYMTAB)),
    }
}

fn lift_symbol_name_exec(base: u64, name: String, strtab: u64, symbol: u64, step: Step<StringRead, ByteList>) -> (lifted:
    Step<ExportSearch, Option<u64>>)
    ensures
        lifted == lift_symbol_name(base, name, strtab, symbol, step),
{
    match step {
        Step::Read(read, r) => Step::Read(ExportSearch::Name { base, name, strtab, symbol, read }, r),
        Step::Done(bytes) => {
            let found = bytes.into_string();
            if str_eq(found.as_str(), name.as_str()) {
                Step::Read(ExportSearch::Value { base }, Read { address: symbol.wrapping_add(8), width: Width::U64 })
            } else {
                export_check_exec(base, name, strtab, symbol.wrapping_add(SYMBOL_SIZE))
            }
        },
    }
}

impl ExportSearch {
    pub open spec fn spec_start(base: u64, name: String) -> Step<ExportSearch, Option<u64>> {
        lift_strings(base, name, DynamicSearch::spec_start(base, DT_STRTAB))
    }

    /// Starts searching the module at `base` for the export `name`: the
    /// string table, the symbol table, then the symbols after the first until
    /// one is named `name` (its value, relative to `base`) or one has a zero
    /// name offset (none).
    pub fn start(base: u64, name: String) -> (step: Step<ExportSearch, Option<u64>>)
        ensures
            step == Self::spec_start(base, name),
    {
        lift_strings_exec(base, name, DynamicSearch::start(base, DT_STRTAB))
    }
}

impl ReadMachine for ExportSearch {
    type Output = Option<u64>;

    open spec fn next(self, reply: u64) -> Step<ExportSearch, Option<u64>> {
        match self {
            ExportSearch::Strings { base, name, dynamic } => lift_strings(base, name, dynamic.next(reply)),
            ExportSearch::Symbols { base, name, strtab, dynamic } => lift_symbols(base, name, strtab, dynamic.next(reply)),
            ExportSearch::Check { base, name, strtab, symbol } => if as_u32(reply) == 0 {
                Step::Done(None)
            } else {
                Step::Read(ExportSearch::NameOffset { base, name, strtab, symbol }, symbol_name_read(symbol))
            },
            ExportSearch::NameOffset { base, name, strtab, symbol } => lift_symbol_name(
                base,
                name,
                strtab,
                symbol,
                StringRead::spec_start(strtab.wrapping_add(as_u32(reply))),
            ),
            ExportSearch::Name { base, name, strtab, symbol, read } => lift_symbol_name(
                base,
                name,
                strtab,
                symbol,
                read.next(reply),
            ),
            ExportSearch::Value { base } => Step::Done(Some(reply.wrapping_add(base))),
        }
    }

    fn resume(self, reply: u64) -> (step: Step<ExportSearch, Option<u64>>) {
        match self {
            ExportSearch::Strings { base, name, dynamic } => lift_strings_exec(base, name, dynamic.resume(reply)),
            ExportSearch::Symbols { base, name, strtab, dynamic } => lift_symbols_exec(
                base,
                name,
                strtab,
                dynamic.resume(reply),
            ),
            ExportSearch::Check { base, name, strtab, symbol } => if reply as u32 == 0 {
                Step::Done(None)
            } else {
                Step::Read(
                    ExportSearch::NameOffset { base, name, strtab, symbol },
                    Read { address: symbol, width: Width::U32 },
                )
            },
            ExportSearch::NameOffset { base, name, strtab, symbol } => lift_symbol_name_exec(
                base,
                name,
                strtab,
                symbol,
                StringRead::start(strtab.wrapping_add(reply as u32 as u64)),
            ),
            ExportSearch::Name { base, name, strtab, symbol, read } => lift_symbol_name_exec(
                base,
                name,
                strtab,
                symbol,
                read.resume(reply),
            ),
            ExportSearch::Value { base } => Step::Done(Some(reply.wrapping_add(base))),
        }
    }
}

/// Looking at the symbols from `symbol` on, at most `count` more after it:
/// `Some(None)` at a symbol with a zero name offset, `Some(Some(v))` at the
/// first symbol named `name` (its value plus `base`), `None` where a name does
/// not end or neither comes in range.
pub open spec fn export_scan(oracle: Oracle, base: u64, name: Seq<char>, strtab: u64, symbol: u64, count: nat) -> Option<
    Option<u64>,
>
    decreases count,
{
    let offset = as_u32(oracle(symbol_name_read(symbol)));
    if offset == 0 {
        Some(None)
    } else {
        match c_string(oracle, strtab.wrapping_add(offset)) {
            None => None,
            Some(bytes) => if utf8_or_empty(bytes) == name {
                Some(Some(oracle(value_read(symbol.wrapping_add(8), Width::U64)).wrapping_add(base)))
            } else if count == 0 {
                None
            } else {
                export_scan(oracle, base, name, strtab, symbol.wrapping_add(SYMBOL_SIZE), (count - 1) as nat)
            },
        }
    }
}

/// The reads that `export_scan` takes.
pub open spec fn export_scan_reads(oracle: Oracle, base: u64, name: Seq<char>, strtab: u64, symbol: u64, count: nat) -> nat
    decreases count,
{
    let offset = as_u32(oracle(symbol_name_read(symbol)));
    if offset == 0 {
        1
    } else {
        let string_reads = c_string_len(oracle, strtab.wrapping_add(offset)) + 1;
        match c_string(oracle, strtab.wrapping_add(offset)) {
            None => 0,
            Some(bytes) => if utf8_or_empty(bytes) == name {
                2 + string_reads + 1
            } else if count == 0 {
                0
            } else {
                2 + string_reads + export_scan_reads(
                    oracle,
                    base,
                    name,
                    strtab,
                    symbol.wrapping_add(SYMBOL_SIZE),
                    (count - 1) as nat,
                )
            },
        }
    }
}

proof fn lemma_lift_symbol_name(
    oracle: Oracle,
    base: u64,
    name: String,
    strtab: u64,
    symbol: u64,
    read: StringRead,
    r: Read,
    sub_fuel: nat,
    rest: nat,
    fuel: nat,
)
    requires
        run(Step::Read(read, r), oracle, sub_fuel) is Some,
        run(
            lift_symbol_name(base, name, strtab, symbol, Step::Done(run(Step::Read(read, r), oracle, sub_fuel)->0)),
            oracle,
            rest,
        )
            is Some,
        fuel >= sub_fuel + rest,
    ensures
        run(Step::Read(ExportSearch::Name { base, name, strtab, symbol, read }, r), oracle, fuel) == run(
            lift_symbol_name(base, name, strtab, symbol, Step::Done(run(Step::Read(read, r), oracle, sub_fuel)->0)),
            oracle,
            rest,
        ),
    decreases sub_fuel,
{
    let o = run(Step::Read(read, r), oracle, sub_fuel)->0;
    lemma_run_read(read, r, oracle, sub_fuel);
    lemma_run_read(ExportSearch::Name { base, name, strtab, symbol, read }, r, oracle, fuel);
    match read.next(oracle(r)) {
        Step::Read(r2, q2) => {
            lemma_lift_symbol_name(
                oracle,
                base,
                name,
                strtab,
                symbol,
                r2,
                q2,
                (sub_fuel - 1) as nat,
                rest,
                (fuel - 1) as nat,
            );
        },
        Step::Done(_) => {
            lemma_run_monotonic(
                lift_symbol_name(base, name, strtab, symbol, Step::Done(o)),
                oracle,
                rest,
                (fuel - 1) as nat,
            );
        },
    }
}

/// Going through the symbols gives what `export_scan` states, within the
/// reads that `export_scan_reads` counts.
pub proof fn lemma_export_scan(oracle: Oracle, base: u64, name: String, strtab: u64, symbol: u64, count: nat)
    requires
        export_scan(oracle, base, name@, strtab, symbol, count) is Some,
    ensures
        run(
            export_check(base, name, strtab, symbol),
            oracle,
            export_scan_reads(oracle, base, name@, strtab, symbol, count),
        )
            == export_scan(oracle, base, name@, strtab, symbol, count),
    decreases count,
{
    let offset = as_u32(oracle(symbol_name_read(symbol)));
    let total = export_scan_reads(oracle, base, name@, strtab, symbol, count);
    lemma_run_read(ExportSearch::Check { base, name, strtab, symbol }, symbol_name_read(symbol), oracle, total);
    if offset == 0 {
        reveal_with_fuel(run, 1);
    } else {
        let address = strtab.wrapping_add(offset);
        let len = c_string_len(oracle, address);
        lemma_c_string(oracle, address);
        lemma_run_read(
            ExportSearch::NameOffset { base, name, strtab, symbol },
            symbol_name_read(symbol),
            oracle,
            (total - 1) as nat,
        );
        let bytes = c_string(oracle, address)->0;
        let next = symbol.wrapping_add(SYMBOL_SIZE);
        let rest: nat = if utf8_or_empty(bytes) == name@ {
            1
        } else {
            export_scan_reads(oracle, base, name@, strtab, next, (count - 1) as nat)
        };
        if utf8_or_empty(bytes) == name@ {
            reveal_with_fuel(run, 2);
        } else {
            lemma_export_scan(oracle, base, name, strtab, next, (count - 1) as nat);
        }
        if let Step::Read(read, r) = StringRead::spec_start(address) {
            lemma_lift_symbol_name(oracle, base, name, strtab, symbol, read, r, len + 1, rest, (total - 2) as nat);
        }
    }
}

/// The export `name` of the module at `base`, looking at most `entries + 1`
/// dynamic entries per table and `count + 1` symbols: `Some(None)` where the
/// module lacks a string or symbol table or the symbols end first, `None`
/// where the search would need more.
pub open spec fn spec_module_export(oracle: Oracle, base: u64, name: Seq<char>, entries: nat, count: nat) -> Option<
    Option<u64>,
> {
    match spec_dynamic_section(oracle, base, DT_STRTAB, entries) {
        None => None,
        Some(None) => Some(None),
        Some(Some(strtab)) => match spec_dynamic_section(oracle, base, DT_SYMTAB, entries) {
            None => None,
            Some(None) => Some(None),
            Some(Some(symtab)) => export_scan(oracle, base, name, strtab, symtab.wrapping_add(SYMBOL_SIZE), count),
        },
    }
}

/// The reads that the export search takes at most.
pub open spec fn module_export_reads(oracle: Oracle, base: u64, name: Seq<char>, entries: nat, count: nat) -> nat {
    let strtab = spec_dynamic_section(oracle, base, DT_STRTAB, entries)->0->0;
    let symtab = spec_dynamic_section(oracle, base, DT_SYMTAB, entries)->0->0;
    2 * (pht_search_reads() + entries + 3) + export_scan_reads(
        oracle,
        base,
        name,
        strtab,
        symtab.wrapping_add(SYMBOL_SIZE),
        count,
    )
}

proof fn lemma_lift_strings(
    oracle: Oracle,
    base: u64,
    name: String,
    dynamic: DynamicSearch,
    r: Read,
    sub_fuel: nat,
    rest: nat,
    fuel: nat,
)
    requires
        run(Step::Read(dynamic, r), oracle, sub_fuel) is Some,
        run(lift_strings(base, name, Step::Done(run(Step::Read(dynamic, r), oracle, sub_fuel)->0)), oracle, rest) is Some,
        fuel >= sub_fuel + rest,
    ensures
        run(Step::Read(ExportSearch::Strings { base, name, dynamic }, r), oracle, fuel) == run(
            lift_strings(base, name, Step::Done(run(Step::Read(dynamic, r), oracle, sub_fuel)->0)),
            oracle,
            rest,
        ),
    decreases sub_fuel,
{
    let o = run(Step::Read(dynamic, r), oracle, sub_fuel)->0;
    lemma_run_read(dynamic, r, oracle, sub_fuel);
    lemma_run_read(ExportSearch::Strings { base, name, dynamic }, r, oracle, fuel);
    match dynamic.next(oracle(r)) {
        Step::Read(d2, q2) => {
            lemma_lift_strings(oracle, base, name, d2, q2, (sub_fuel - 1) as nat, rest, (fuel - 1) as nat);
        },
        Step::Done(_) => {
            lemma_run_monotonic(lift_strings(base, name, Step::Done(o)), oracle, rest, (fuel - 1) as nat);
        },
    }
}

proof fn lemma_lift_symbols(
    oracle: Oracle,
    base: u64,
    name: String,
    strtab: u64,
    dynamic: DynamicSearch,
    r: Read,
    sub_fuel: nat,
    rest: nat,
    fuel: nat,
)
    requires
        run(Step::Read(dynamic, r), oracle, sub_fuel) is Some,
        run(
            lift_symbols(base, name, strtab, Step::Done(run(Step::Read(dynamic, r), oracle, sub_fuel)->0)),
            oracle,
            rest,
        )
            is Some,
        fuel >= sub_fuel + rest,
    ensures
        run(Step::Read(ExportSearch::Symbols { base, name, strtab, dynamic }, r), oracle, fuel) == run(
            lift_symbols(base, name, strtab, Step::Done(run(Step::Read(dynamic, r), oracle, sub_fuel)->0)),
            oracle,
            rest,
        ),
    decreases sub_fuel,
{
    let o = run(Step::Read(dynamic, r), oracle, sub_fuel)->0;
    lemma_run_read(dynamic, r, oracle, sub_fuel);
    lemma_run_read(ExportSearch::Symbols { base, name, strtab, dynamic }, r, oracle, fuel);
    match dynamic.next(oracle(r)) {
        Step::Read(d2, q2) => {
            lemma_lift_symbols(oracle, base, name, strtab, d2, q2, (sub_fuel - 1) as nat, rest, (fuel - 1) as nat);
        },
        Step::Done(_) => {
            lemma_run_monotonic(lift_symbols(base, name, strtab, Step::Done(o)), oracle, rest, (fuel - 1) as nat);
        },
    }
}

/// The export search finds the string table, the symbol table, then the first
/// symbol after the first that is named `name` (its value plus `base`), and
/// gives none where a table is missing or a symbol with a zero name offset
/// comes first: whenever this is decided within `entries + 1` dynamic entries
/// and `count + 1` symbols, the search ends so within
/// `module_export_reads` reads.
pub proof fn lemma_module_export(oracle: Oracle, base: u64, name: String, entries: nat, count: nat)
    requires
        spec_module_export(oracle, base, name@, entries, count) is Some,
    ensures
        run(ExportSearch::spec_start(base, name), oracle, module_export_reads(oracle, base, name@, entries, count))
            == spec_module_export(oracle, base, name@, entries, count),
{
    let d = pht_search_reads() + entries + 3;
    let total = module_export_reads(oracle, base, name@, entries, count);
    lemma_dynamic_section(oracle, base, DT_STRTAB, entries);
    let strtab = spec_dynamic_section(oracle, base, DT_STRTAB, entries)->0->0;
    let symtab = spec_dynamic_section(oracle, base, DT_SYMTAB, entries)->0->0;
    let scan = export_scan_reads(oracle, base, name@, strtab, symtab.wrapping_add(SYMBOL_SIZE), count);
    let mut rest: nat = 0;
    if spec_dynamic_section(oracle, base, DT_STRTAB, entries) == Some(Some(strtab)) {
        lemma_dynamic_section(oracle, base, DT_SYMTAB, entries);
        rest = d + scan;
        let mut inner: nat = 0;
        if spec_dynamic_section(oracle, base, DT_SYMTAB, entries) == Some(Some(symtab)) {
            lemma_export_scan(oracle, base, name, strtab, symtab.wrapping_add(SYMBOL_SIZE), count);
            inner = scan;
        } else {
            reveal_with_fuel(run, 1);
        }
        if let Step::Read(dynamic, r) = DynamicSearch::spec_start(base, DT_SYMTAB) {
            lemma_lift_symbols(oracle, base, name, strtab, dynamic, r, d, inner, rest);
        }
    } else {
        reveal_with_fuel(run, 1);
    }
    if let Step::Read(dynamic, r) = DynamicSearch::spec_start(base, DT_STRTAB) {
        lemma_lift_strings(oracle, base, name, dynamic, r, d, rest, total);
    }
}

} // verus!
