//! Engine interfaces, console variables and virtual functions.
use vstd::prelude::*;

use crate::memory::{lemma_run_monotonic, lemma_run_read, run, Oracle, Read, ReadMachine, Step, Width};
use crate::process::elf::{
    as_u32, lemma_module_export, module_export_reads, spec_module_export, value_read, ExportSearch,
};
use crate::process::strings::{c_string, c_string_len, lemma_c_string, utf8_or_empty, ByteList, StringRead};
use crate::text::{spec_starts_with, starts_with, str_eq};

verus! {

/// The name of the export that lists a module's interfaces.
pub open spec fn create_interface() -> Seq<char> {
    "CreateInterface"@
}

// ---------------------------------------------------------------------------
// Interfaces.

/// Searches the interface list of a module for an interface name.
pub enum InterfaceSearch {
    /// Finding the `CreateInterface` export.
    Export { name: String, export: ExportSearch },
    /// Waiting for the relative offset of the interface list.
    Relative { name: String, export: u64 },
    /// Waiting for the first entry of the list.
    List { name: String },
    /// Waiting for the name pointer of the entry at `entry`.
    EntryName { name: String, entry: u64 },
    /// Reading the name of the entry at `entry`.
    Name { name: String, entry: u64, read: StringRead },
    /// Waiting for the next entry of the list.
    Next { name: String },
    /// Waiting for the address of the entry's function.
    Function,
    /// Waiting for the relative offset in the function at `function`.
    Offset { function: u64 },
}

/// The interface search step that looks at the entry at `entry`.
pub open spec fn interface_entry(name: String, entry: u64) -> Step<InterfaceSearch, Option<u64>> {
    Step::Read(InterfaceSearch::EntryName { name, entry }, value_read(entry.wrapping_add(8), Width::U64))
}

fn interface_entry_exec(name: String, entry: u64) -> (step: Step<InterfaceSearch, Option<u64>>)
    ensures
        step == interface_entry(name, entry),
{
    Step::Read(InterfaceSearch::EntryName { name, entry }, Read { address: entry.wrapping_add(8), width: Width::U64 })
}

/// The interface search step that an export search step stands for.
pub open spec fn lift_export(name: String, step: Step<ExportSearch, Option<u64>>) -> Step<InterfaceSearch, Option<u64>> {
    match step {
        Step::Read(export, read) => Step::Read(InterfaceSearch::Export { name, export }, read),
        Step::Done(None) => Step::Done(None),
        Step::Done(Some(function)) => {
            let export = function.wrapping_add(0x10);
            Step::Read(InterfaceSearch::Relative { name, export }, value_read(export.wrapping_add(3), Width::U32))
        },
    }
}

fn lift_export_exec(name: String, step: Step<ExportSearch, Option<u64>>) -> (lifted: Step<InterfaceSearch, Option<u64>>)
    ensures
        lifted == lift_export(name, step),
{
    match step {
        Step::Read(export, read) => Step::Read(InterfaceSearch::Export { name, export }, read),
        Step::Done(None) => Step::Done(None),
        Step::Done(Some(function)) => {
            let export = function.wrapping_add(0x10);
            Step::Read(
                InterfaceSearch::Relative { name, export },
                Read { address: export.wrapping_add(3), width: Width::U32 },
            )
        },
    }
}

/// The interface search step that an entry name read step stands for: an
/// entry whose name starts with the interface name is the one.
pub open spec fn lift_entry_name(name: String, entry: u64, step: Step<StringRead, ByteList>) -> Step<
    InterfaceSearch,
    Option<u64>,
> {
    match step {
        Step::Read(read, r) => Step::Read(InterfaceSearch::Name { name, entry, read }, r),
        Step::Done(bytes) => if spec_starts_with(utf8_or_empty(bytes.to_seq()), name@) {
            Step::Read(InterfaceSearch::Function, value_read(entry, Width::U64))
        } else {
            Step::Read(InterfaceSearch::Next { name }, value_read(entry.wrapping_add(0x10), Width::U64))
        },
    }
}

fn lift_entry_name_exec(name: String, entry: u64, step: Step<StringRead, ByteList>) -> (lifted: Step<
    InterfaceSearch,
    Option<u64>,
>)
    ensures
        lifted == lift_entry_name(name, entry, step),
{
    match step {
        Step::Read(read, r) => Step::Read(InterfaceSearch::Name { name, entry, read }, r),
        Step::Done(bytes) => {
            let found = bytes.into_string();
            if starts_with(found.as_str(), name.as_str()) {
                Step::Read(InterfaceSearch::Function, Read { address: entry, width: Width::U64 })
            } else {
                Step::Read(
                    InterfaceSearch::Next { name },
                    Read { address: entry.wrapping_add(0x10), width: Width::U64 },
                )
            }
        },
    }
}

/// The name of the export that lists a module's interfaces.
pub fn create_interface_name() -> (name: String)
    ensures
        name@ == create_interface(),
{
    broadcast use vstd::string::to_string_from_display_ensures_for_str;

    "CreateInterface".to_string()
}

impl InterfaceSearch {
    pub open spec fn spec_start(base: u64, name: String, export_name: String) -> Step<InterfaceSearch, Option<u64>> {
        lift_export(name, ExportSearch::spec_start(base, export_name))
    }

    /// Starts searching the module at `base` for the interface `name`: the
    /// `CreateInterface` export leads to the list of interfaces, whose entries
    /// are looked at in turn until one's name starts with `name` (the address
    /// its function refers to) or the list ends (none).
    pub fn start(base: u64, name: String) -> (step: Step<InterfaceSearch, Option<u64>>)
        ensures
            exists|export_name: String|
                export_name@ == create_interface() && step == Self::spec_start(base, name, export_name),
    {
        let export_name = create_interface_name();
        lift_export_exec(name, ExportSearch::start(base, export_name))
    }
}

impl ReadMachine for InterfaceSearch {
    type Output = Option<u64>;

    open spec fn next(self, reply: u64) -> Step<InterfaceSearch, Option<u64>> {
        match self {
            InterfaceSearch::Export { name, export } => lift_export(name, export.next(reply)),
            InterfaceSearch::Relative { name, export } => Step::Read(
                InterfaceSearch::List { name },
                value_read(export.wrapping_add(7).wrapping_add(as_u32(reply)), Width::U64),
            ),
            InterfaceSearch::List { name } => interface_entry(name, reply),
            InterfaceSearch::EntryName { name, entry } => lift_entry_name(name, entry, StringRead::spec_start(reply)),
            InterfaceSearch::Name { name, entry, read } => lift_entry_name(name, entry, read.next(reply)),
            InterfaceSearch::Next { name } => if reply == 0 {
                Step::Done(None)
            } else {
                interface_entry(name, reply)
            },
            InterfaceSearch::Function => Step::Read(
                InterfaceSearch::Offset { function: reply },
                value_read(reply.wrapping_add(3), Width::U32),
            ),
            InterfaceSearch::Offset { function } => Step::Done(Some(as_u32(reply).wrapping_add(function).wrapping_add(7))),
        }
    }

    fn resume(self, reply: u64) -> (step: Step<InterfaceSearch, Option<u64>>) {
        match self {
            InterfaceSearch::Export { name, export } => lift_export_exec(name, export.resume(reply)),
            InterfaceSearch::Relative { name, export } => Step::Read(
                InterfaceSearch::List { name },
                Read { address: export.wrapping_add(7).wrapping_add(reply as u32 as u64), width: Width::U64 },
            ),
            InterfaceSearch::List { name } => interface_entry_exec(name, reply),
            InterfaceSearch::EntryName { name, entry } => lift_entry_name_exec(name, entry, StringRead::start(reply)),
            InterfaceSearch::Name { name, entry, read } => lift_entry_name_exec(name, entry, read.resume(reply)),
            InterfaceSearch::Next { name } => if reply == 0 {
                Step::Done(None)
            } else {
                interface_entry_exec(name, reply)
            },
            InterfaceSearch::Function => Step::Read(
                InterfaceSearch::Offset { function: reply },
                Read { address: reply.wrapping_add(3), width: Width::U32 },
            ),
            InterfaceSearch::Offset { function } => Step::Done(
                Some((reply as u32 as u64).wrapping_add(function).wrapping_add(7)),
            ),
        }
    }
}

// ---------------------------------------------------------------------------
// Console variables.

/// Searches the console variable list of the cvar interface for a name.
pub enum ConvarSearch {
    /// Waiting for the address of the variable list.
    Objects { interface: u64, name: String },
    /// Waiting for the number of variables.
    Count { name: String, objects: u64 },
    /// Waiting for the address of variable `index`.
    Object { name: String, objects: u64, count: u64, index: u64 },
    /// Waiting for the name pointer of variable `index` at `object`.
    NamePointer { name: String, objects: u64, count: u64, index: u64, object: u64 },
    /// Reading the name of variable `index` at `object`.
    Name { name: String, objects: u64, count: u64, index: u64, object: u64, read: StringRead },
}

/// The list entry of variable `index`.
pub open spec fn convar_slot(objects: u64, index: u64) -> u64 {
    objects.wrapping_add(index.wrapping_mul(16))
}

/// The convar search step that looks at variable `index`, or the end.
pub open spec fn convar_at(name: String, objects: u64, count: u64, index: u64) -> Step<ConvarSearch, Option<u64>> {
    if index >= count {
        Step::Done(None)
    } else {
        Step::Read(
            ConvarSearch::Object { name, objects, count, index },
            value_read(convar_slot(objects, index), Width::U64),
        )
    }
}

fn convar_at_exec(name: String, objects: u64, count: u64, index: u64) -> (step: Step<ConvarSearch, Option<u64>>)
    ensures
        step == convar_at(name, objects, count, index),
{
    if index >= count {
        Step::Done(None)
    } else {
        Step::Read(
            ConvarSearch::Object { name, objects, count, index },
            Read { address: objects.wrapping_add(index.wrapping_mul(16)), width: Width::U64 },
        )
    }
}

/// The convar search step that a variable name read step stands for.
pub open spec fn lift_convar_name(
    name: String,
    objects: u64,
    count: u64,
    index: u64,
    object: u64,
    step: Step<StringRead, ByteList>,
) -> Step<ConvarSearch, Option<u64>> {
    match step {
        Step::Read(read, r) => Step::Read(ConvarSearch::Name { name, objects, count, index, object, read }, r),
        Step::Done(bytes) => if utf8_or_empty(bytes.to_seq()) == name@ {
            Step::Done(Some(object))
        } else if index >= count {
            Step::Done(None)
        } else {
            convar_at(name, objects, count, (index + 1) as u64)
        },
    }
}

fn lift_convar_name_exec(
    name: String,
    objects: u64,
    count: u64,
    index: u64,
    object: u64,
    step: Step<StringRead, ByteList>,
) -> (lifted: Step<ConvarSearch, Option<u64>>)
    ensures
        lifted == lift_convar_name(name, objects, count, index, object, step),
{
    match step {
        Step::Read(read, r) => Step::Read(ConvarSearch::Name { name, objects, count, index, object, read }, r),
        Step::Done(bytes) => {
            let found = bytes.into_string();
            if str_eq(found.as_str(), name.as_str()) {
                Step::Done(Some(object))
            } else if index >= count {
                Step::Done(None)
            } else {
                convar_at_exec(name, objects, count, index + 1)
            }
        },
    }
}

impl ConvarSearch {
    pub open spec fn spec_start(interface: u64, name: String) -> Step<ConvarSearch, Option<u64>> {
        if interface == 0 {
            Step::Done(None)
        } else {
            Step::Read(ConvarSearch::Objects { interface, name }, value_read(interface.wrapping_add(0x48), Width::U64))
        }
    }

    /// Starts searching the cvar interface at `interface` for the variable
    /// `name`: none for a null interface; otherwise the variables are looked
    /// at in turn, up to the count the interface gives, until one is named
    /// `name` (its address) or a null entry ends the list (none).
    pub fn start(interface: u64, name: String) -> (step: Step<ConvarSearch, Option<u64>>)
        ensures
            step == Self::spec_start(interface, name),
    {
        if interface == 0 {
            Step::Done(None)
        } else {
            Step::Read(
                ConvarSearch::Objects { interface, name },
                Read { address: interface.wrapping_add(0x48), width: Width::U64 },
            )
        }
    }
}

impl ReadMachine for ConvarSearch {
    type Output = Option<u64>;

    open spec fn next(self, reply: u64) -> Step<ConvarSearch, Option<u64>> {
        match self {
            ConvarSearch::Objects { interface, name } => Step::Read(
                ConvarSearch::Count { name, objects: reply },
                value_read(interface.wrapping_add(160), Width::U32),
            ),
            ConvarSearch::Count { name, objects } => convar_at(name, objects, as_u32(reply), 0),
            ConvarSearch::Object { name, objects, count, index } => if reply == 0 {
                Step::Done(None)
            } else {
                Step::Read(
                    ConvarSearch::NamePointer { name, objects, count, index, object: reply },
                    value_read(reply, Width::U64),
                )
            },
            ConvarSearch::NamePointer { name, objects, count, index, object } => lift_convar_name(
                name,
                objects,
                count,
                index,
                object,
                StringRead::spec_start(reply),
            ),
            ConvarSearch::Name { name, objects, count, index, object, read } => lift_convar_name(
                name,
                objects,
                count,
                index,
                object,
                read.next(reply),
            ),
        }
    }

    fn resume(self, reply: u64) -> (step: Step<ConvarSearch, Option<u64>>) {
        match self {
            ConvarSearch::Objects { interface, name } => Step::Read(
                ConvarSearch::Count { name, objects: reply },
                Read { address: interface.wrapping_add(160), width: Width::U32 },
            ),
            ConvarSearch::Count { name, objects } => convar_at_exec(name, objects, reply as u32 as u64, 0),
            ConvarSearch::Object { name, objects, count, index } => if reply == 0 {
                Step::Done(None)
            } else {
                Step::Read(
                    ConvarSearch::NamePointer { name, objects, count, index, object: reply },
                    Read { address: reply, width: Width::U64 },
                )
            },
            ConvarSearch::NamePointer { name, objects, count, index, object } => lift_convar_name_exec(
                name,
                objects,
                count,
                index,
                object,
                StringRead::start(reply),
            ),
            ConvarSearch::Name { name, objects, count, index, object, read } => lift_convar_name_exec(
                name,
                objects,
                count,
                index,
                object,
                read.resume(reply),
            ),
        }
    }
}

// ---------------------------------------------------------------------------
// Virtual functions and relative addresses.

/// Reads the address of virtual function `index` of an interface.
pub enum InterfaceFunction {
    /// Waiting for the interface's function table.
    Table { index: u64 },
    /// Waiting for the function's address.
    Entry,
}

/// The address of virtual function `index` of the interface at `interface`.
pub open spec fn spec_interface_function(oracle: Oracle, interface: u64, index: u64) -> u64 {
    let table = oracle(value_read(interface, Width::U64));
    oracle(value_read(table.wrapping_add(index.wrapping_mul(8)), Width::U64))
}

impl InterfaceFunction {
    pub open spec fn spec_start(interface: u64, index: u64) -> Step<InterfaceFunction, u64> {
        Step::Read(InterfaceFunction::Table { index }, value_read(interface, Width::U64))
    }

    /// Starts reading the address of virtual function `index` of the
    /// interface at `interface` (see `lemma_interface_function`).
    pub fn start(interface: u64, index: u64) -> (step: Step<InterfaceFunction, u64>)
        ensures
            step == Self::spec_start(interface, index),
    {
        Step::Read(InterfaceFunction::Table { index }, Read { address: interface, width: Width::U64 })
    }
}

impl ReadMachine for InterfaceFunction {
    type Output = u64;

    open spec fn next(self, reply: u64) -> Step<InterfaceFunction, u64> {
        match self {
            InterfaceFunction::Table { index } => Step::Read(
                InterfaceFunction::Entry,
                value_read(reply.wrapping_add(index.wrapping_mul(8)), Width::U64),
            ),
            InterfaceFunction::Entry => Step::Done(reply),
        }
    }

    fn resume(self, reply: u64) -> (step: Step<InterfaceFunction, u64>) {
        match self {
            InterfaceFunction::Table { index } => Step::Read(
                InterfaceFunction::Entry,
                Read { address: reply.wrapping_add(index.wrapping_mul(8)), width: Width::U64 },
            ),
            InterfaceFunction::Entry => Step::Done(reply),
        }
    }
}

/// Reading a virtual function's address takes two reads.
pub proof fn lemma_interface_function(oracle: Oracle, interface: u64, index: u64)
    ensures
        run(InterfaceFunction::spec_start(interface, index), oracle, 2) == Some(
            spec_interface_function(oracle, interface, index),
        ),
{
    reveal_with_fuel(run, 3);
}

/// The target of a rip-relative instruction: the instruction's end plus the
/// signed 32-bit displacement that it holds.
pub open spec fn relative_target(instruction: u64, instruction_size: u64, displacement: u64) -> u64 {
    instruction.wrapping_add(instruction_size).wrapping_add(displacement as u32 as i32 as u64)
}

/// Resolves a rip-relative address.
pub struct RelativeAddress {
    pub instruction: u64,
    pub instruction_size: u64,
}

impl RelativeAddress {
    pub open spec fn spec_start(instruction: u64, offset: u64, instruction_size: u64) -> Step<RelativeAddress, u64> {
        Step::Read(
            RelativeAddress { instruction, instruction_size },
            value_read(instruction.wrapping_add(offset), Width::U32),
        )
    }

    /// Starts resolving the rip-relative address of the instruction at
    /// `instruction` whose displacement lies at `offset` and which is
    /// `instruction_size` bytes long (see `lemma_relative_address`).
    pub fn start(instruction: u64, offset: u64, instruction_size: u64) -> (step: Step<RelativeAddress, u64>)
        ensures
            step == Self::spec_start(instruction, offset, instruction_size),
    {
        Step::Read(
            RelativeAddress { instruction, instruction_size },
            Read { address: instruction.wrapping_add(offset), width: Width::U32 },
        )
    }
}

impl ReadMachine for RelativeAddress {
    type Output = u64;

    open spec fn next(self, reply: u64) -> Step<RelativeAddress, u64> {
        Step::Done(relative_target(self.instruction, self.instruction_size, reply))
    }

    fn resume(self, reply: u64) -> (step: Step<RelativeAddress, u64>) {
        Step::Done(self.instruction.wrapping_add(self.instruction_size).wrapping_add(reply as u32 as i32 as u64))
    }
}

/// Resolving a rip-relative address takes one read and adds the signed
/// displacement to the end of the instruction.
pub proof fn lemma_relative_address(oracle: Oracle, instruction: u64, offset: u64, instruction_size: u64)
    ensures
        run(RelativeAddress::spec_start(instruction, offset, instruction_size), oracle, 1) == Some(
            relative_target(
                instruction,
                instruction_size,
                oracle(value_read(instruction.wrapping_add(offset), Width::U32)),
            ),
        ),
{
    reveal_with_fuel(run, 2);
}

/// Looking at the variables from `index` on, below `count`: `Some(None)` at
/// the end or at a null entry, `Some(Some(object))` at the first variable
/// named `name`, `None` where a name does not end.
pub open spec fn convar_scan(oracle: Oracle, name: Seq<char>, objects: u64, count: u64, index: u64) -> Option<Option<u64>>
    decreases count - index,
{
    if index >= count {
        Some(None)
    } else {
        let object = oracle(value_read(convar_slot(objects, index), Width::U64));
        if object == 0 {
            Some(None)
        } else {
            match c_string(oracle, oracle(value_read(object, Width::U64))) {
                None => None,
                Some(bytes) => if utf8_or_empty(bytes) == name {
                    Some(Some(object))
                } else {
                    convar_scan(oracle, name, objects, count, (index + 1) as u64)
                },
            }
        }
    }
}

/// The reads that `convar_scan` takes.
pub open spec fn convar_scan_reads(oracle: Oracle, name: Seq<char>, objects: u64, count: u64, index: u64) -> nat
    decreases count - index,
{
    if index >= count {
        0
    } else {
        let object = oracle(value_read(convar_slot(objects, index), Width::U64));
        if object == 0 {
            1
        } else {
            let address = oracle(value_read(object, Width::U64));
            match c_string(oracle, address) {
                None => 0,
                Some(bytes) => if utf8_or_empty(bytes) == name {
                    2 + c_string_len(oracle, address) + 1
                } else {
                    2 + c_string_len(oracle, address) + 1 + convar_scan_reads(
                        oracle,
                        name,
                        objects,
                        count,
                        (index + 1) as u64,
                    )
                },
            }
        }
    }
}

/// The variable `name` of the cvar interface at `interface`: none for a null
/// interface; otherwise the first of the listed variables, up to the count
/// the interface gives, that is named `name`, or none where a null entry or
/// the end comes first. `None` where a name does not end.
pub open spec fn spec_convar(oracle: Oracle, interface: u64, name: Seq<char>) -> Option<Option<u64>> {
    if interface == 0 {
        Some(None)
    } else {
        let objects = oracle(value_read(interface.wrapping_add(0x48), Width::U64));
        let count = as_u32(oracle(value_read(interface.wrapping_add(160), Width::U32)));
        convar_scan(oracle, name, objects, count, 0)
    }
}

/// The reads that the convar search takes.
pub open spec fn convar_reads(oracle: Oracle, interface: u64, name: Seq<char>) -> nat {
    let objects = oracle(value_read(interface.wrapping_add(0x48), Width::U64));
    let count = as_u32(oracle(value_read(interface.wrapping_add(160), Width::U32)));
    2 + convar_scan_reads(oracle, name, objects, count, 0)
}

proof fn lemma_lift_convar_name(
    oracle: Oracle,
    name: String,
    objects: u64,
    count: u64,
    index: u64,
    object: u64,
    read: StringRead,
    r: Read,
    sub_fuel: nat,
    rest: nat,
    fuel: nat,
)
    requires
        run(Step::Read(read, r), oracle, sub_fuel) is Some,
        run(
            lift_convar_name(
                name,
                objects,
                count,
                index,
                object,
                Step::Done(run(Step::Read(read, r), oracle, sub_fuel)->0),
            ),
            oracle,
            rest,
        ) is Some,
        fuel >= sub_fuel + rest,
    ensures
        run(Step::Read(ConvarSearch::Name { name, objects, count, index, object, read }, r), oracle, fuel) == run(
            lift_convar_name(
                name,
                objects,
                count,
                index,
                object,
                Step::Done(run(Step::Read(read, r), oracle, sub_fuel)->0),
            ),
            oracle,
            rest,
        ),
    decreases sub_fuel,
{
    let o = run(Step::Read(read, r), oracle, sub_fuel)->0;
    lemma_run_read(read, r, oracle, sub_fuel);
    lemma_run_read(ConvarSearch::Name { name, objects, count, index, object, read }, r, oracle, fuel);
    match read.next(oracle(r)) {
        Step::Read(r2, q2) => {
            lemma_lift_convar_name(
                oracle,
                name,
                objects,
                count,
                index,
                object,
                r2,
                q2,
                (sub_fuel - 1) as nat,
                rest,
                (fuel - 1) as nat,
            );
        },
        Step::Done(_) => {
            lemma_run_monotonic(
                lift_convar_name(name, objects, count, index, object, Step::Done(o)),
                oracle,
                rest,
                (fuel - 1) as nat,
            );
        },
    }
}

proof fn lemma_convar_scan(oracle: Oracle, name: String, objects: u64, count: u64, index: u64)
    requires
        convar_scan(oracle, name@, objects, count, index) is Some,
    ensures
        run(convar_at(name, objects, count, index), oracle, convar_scan_reads(oracle, name@, objects, count, index))
            == convar_scan(oracle, name@, objects, count, index),
    decreases count - index,
{
    let total = convar_scan_reads(oracle, name@, objects, count, index);
    if index >= count {
        reveal_with_fuel(run, 1);
    } else {
        let object = oracle(value_read(convar_slot(objects, index), Width::U64));
        lemma_run_read(
            ConvarSearch::Object { name, objects, count, index },
            value_read(convar_slot(objects, index), Width::U64),
            oracle,
            total,
        );
        if object == 0 {
            reveal_with_fuel(run, 1);
        } else {
            let address = oracle(value_read(object, Width::U64));
            let len = c_string_len(oracle, address);
            lemma_c_string(oracle, address);
            lemma_run_read(
                ConvarSearch::NamePointer { name, objects, count, index, object },
                value_read(object, Width::U64),
                oracle,
                (total - 1) as nat,
            );
            let bytes = c_string(oracle, address)->0;
            let rest: nat = if utf8_or_empty(bytes) == name@ {
                reveal_with_fuel(run, 1);
                0
            } else {
                lemma_convar_scan(oracle, name, objects, count, (index + 1) as u64);
                convar_scan_reads(oracle, name@, objects, count, (index + 1) as u64)
            };
            if let Step::Read(read, r) = StringRead::spec_start(address) {
                lemma_lift_convar_name(
                    oracle,
                    name,
                    objects,
                    count,
                    index,
                    object,
                    read,
                    r,
                    len + 1,
                    rest,
                    (total - 2) as nat,
                );
            }
        }
    }
}

/// The convar search ends with what `spec_convar` states, within
/// `convar_reads` reads, wherever every name it reads ends.
pub proof fn lemma_convar(oracle: Oracle, interface: u64, name: String)
    requires
        spec_convar(oracle, interface, name@) is Some,
    ensures
        run(ConvarSearch::spec_start(interface, name), oracle, convar_reads(oracle, interface, name@)) == spec_convar(
            oracle,
            interface,
            name@,
        ),
{
    if interface == 0 {
        reveal_with_fuel(run, 1);
    } else {
        let objects = oracle(value_read(interface.wrapping_add(0x48), Width::U64));
        let count = as_u32(oracle(value_read(interface.wrapping_add(160), Width::U32)));
        let total = convar_reads(oracle, interface, name@);
        lemma_convar_scan(oracle, name, objects, count, 0);
        lemma_run_read(
            ConvarSearch::Objects { interface, name },
            value_read(interface.wrapping_add(0x48), Width::U64),
            oracle,
            total,
        );
        lemma_run_read(
            ConvarSearch::Count { name, objects },
            value_read(interface.wrapping_add(160), Width::U32),
            oracle,
            (total - 1) as nat,
        );
    }
}

/// Looking at the interface entries from `entry` on, at most `count` more
/// after it: `Some(Some(a))` at the first entry whose name starts with `name`
/// (the address its function refers to), `Some(None)` where the list ends
/// first, `None` where a name does not end or neither comes in range.
pub open spec fn interface_scan(oracle: Oracle, name: Seq<char>, entry: u64, count: nat) -> Option<Option<u64>>
    decreases count,
{
    match c_string(oracle, oracle(value_read(entry.wrapping_add(8), Width::U64))) {
        None => None,
        Some(bytes) => if spec_starts_with(utf8_or_empty(bytes), name) {
            let function = oracle(value_read(entry, Width::U64));
            Some(Some(as_u32(oracle(value_read(function.wrapping_add(3), Width::U32))).wrapping_add(function).wrapping_add(7)))
        } else {
            let next = oracle(value_read(entry.wrapping_add(0x10), Width::U64));
            if next == 0 {
                Some(None)
            } else if count == 0 {
                None
            } else {
                interface_scan(oracle, name, next, (count - 1) as nat)
            }
        },
    }
}

/// The reads that `interface_scan` takes.
pub open spec fn interface_scan_reads(oracle: Oracle, name: Seq<char>, entry: u64, count: nat) -> nat
    decreases count,
{
    let address = oracle(value_read(entry.wrapping_add(8), Width::U64));
    let string_reads = c_string_len(oracle, address) + 1;
    match c_string(oracle, address) {
        None => 0,
        Some(bytes) => if spec_starts_with(utf8_or_empty(bytes), name) {
            1 + string_reads + 2
        } else {
            let next = oracle(value_read(entry.wrapping_add(0x10), Width::U64));
            if next == 0 || count == 0 {
                1 + string_reads + 1
            } else {
                1 + string_reads + 1 + interface_scan_reads(oracle, name, next, (count - 1) as nat)
            }
        },
    }
}

/// The interface `name` of the module at `base`: its `CreateInterface`
/// export (looking at most `entries + 1` dynamic entries and `symbols + 1`
/// symbols) leads to the list of interfaces, which is looked through at most
/// `count + 1` entries.
pub open spec fn spec_interface(
    oracle: Oracle,
    base: u64,
    name: Seq<char>,
    entries: nat,
    symbols: nat,
    count: nat,
) -> Option<Option<u64>> {
    match spec_module_export(oracle, base, create_interface(), entries, symbols) {
        None => None,
        Some(None) => Some(None),
        Some(Some(function)) => {
            let export = function.wrapping_add(0x10);
            let relative = as_u32(oracle(value_read(export.wrapping_add(3), Width::U32)));
            let first = oracle(value_read(export.wrapping_add(7).wrapping_add(relative), Width::U64));
            interface_scan(oracle, name, first, count)
        },
    }
}

/// The reads that the interface search takes at most.
pub open spec fn interface_reads(oracle: Oracle, base: u64, name: Seq<char>, entries: nat, symbols: nat, count: nat) -> nat {
    let function = spec_module_export(oracle, base, create_interface(), entries, symbols)->0->0;
    let export = function.wrapping_add(0x10);
    let relative = as_u32(oracle(value_read(export.wrapping_add(3), Width::U32)));
    let first = oracle(value_read(export.wrapping_add(7).wrapping_add(relative), Width::U64));
    module_export_reads(oracle, base, create_interface(), entries, symbols) + 2 + interface_scan_reads(
        oracle,
        name,
        first,
        count,
    )
}

proof fn lemma_lift_entry_name(
    oracle: Oracle,
    name: String,
    entry: u64,
    read: StringRead,
    r: Read,
    sub_fuel: nat,
    rest: nat,
    fuel: nat,
)
    requires
        run(Step::Read(read, r), oracle, sub_fuel) is Some,
        run(lift_entry_name(name, entry, Step::Done(run(Step::Read(read, r), oracle, sub_fuel)->0)), oracle, rest) is Some,
        fuel >= sub_fuel + rest,
    ensures
        run(Step::Read(InterfaceSearch::Name { name, entry, read }, r), oracle, fuel) == run(
            lift_entry_name(name, entry, Step::Done(run(Step::Read(read, r), oracle, sub_fuel)->0)),
            oracle,
            rest,
        ),
    decreases sub_fuel,
{
    let o = run(Step::Read(read, r), oracle, sub_fuel)->0;
    lemma_run_read(read, r, oracle, sub_fuel);
    lemma_run_read(InterfaceSearch::Name { name, entry, read }, r, oracle, fuel);
    match read.next(oracle(r)) {
        Step::Read(r2, q2) => {
            lemma_lift_entry_name(oracle, name, entry, r2, q2, (sub_fuel - 1) as nat, rest, (fuel - 1) as nat);
        },
        Step::Done(_) => {
            lemma_run_monotonic(lift_entry_name(name, entry, Step::Done(o)), oracle, rest, (fuel - 1) as nat);
        },
    }
}

proof fn lemma_lift_export(oracle: Oracle, name: String, export: ExportSearch, r: Read, sub_fuel: nat, rest: nat, fuel: nat)
    requires
        run(Step::Read(export, r), oracle, sub_fuel) is Some,
        run(lift_export(name, Step::Done(run(Step::Read(export, r), oracle, sub_fuel)->0)), oracle, rest) is Some,
        fuel >= sub_fuel + rest,
    ensures
        run(Step::Read(InterfaceSearch::Export { name, export }, r), oracle, fuel) == run(
            lift_export(name, Step::Done(run(Step::Read(export, r), oracle, sub_fuel)->0)),
            oracle,
            rest,
        ),
    decreases sub_fuel,
{
    let o = run(Step::Read(export, r), oracle, sub_fuel)->0;
    lemma_run_read(export, r, oracle, sub_fuel);
    lemma_run_read(InterfaceSearch::Export { name, export }, r, oracle, fuel);
    match export.next(oracle(r)) {
        Step::Read(e2, q2) => {
            lemma_lift_export(oracle, name, e2, q2, (sub_fuel - 1) as nat, rest, (fuel - 1) as nat);
        },
        Step::Done(_) => {
            lemma_run_monotonic(lift_export(name, Step::Done(o)), oracle, rest, (fuel - 1) as nat);
        },
    }
}

proof fn lemma_interface_scan(oracle: Oracle, name: String, entry: u64, count: nat)
    requires
        interface_scan(oracle, name@, entry, count) is Some,
    ensures
        run(interface_entry(name, entry), oracle, interface_scan_reads(oracle, name@, entry, count)) == interface_scan(
            oracle,
            name@,
            entry,
            count,
        ),
    decreases count,
{
    let total = interface_scan_reads(oracle, name@, entry, count);
    let address = oracle(value_read(entry.wrapping_add(8), Width::U64));
    let len = c_string_len(oracle, address);
    lemma_c_string(oracle, address);
    lemma_run_read(
        InterfaceSearch::EntryName { name, entry },
        value_read(entry.wrapping_add(8), Width::U64),
        oracle,
        total,
    );
    let bytes = c_string(oracle, address)->0;
    let next = oracle(value_read(entry.wrapping_add(0x10), Width::U64));
    let rest: nat = if spec_starts_with(utf8_or_empty(bytes), name@) {
        reveal_with_fuel(run, 3);
        2
    } else if next == 0 {
        reveal_with_fuel(run, 2);
        1
    } else {
        lemma_interface_scan(oracle, name, next, (count - 1) as nat);
        lemma_run_read(
            InterfaceSearch::Next { name },
            value_read(entry.wrapping_add(0x10), Width::U64),
            oracle,
            1 + interface_scan_reads(oracle, name@, next, (count - 1) as nat),
        );
        1 + interface_scan_reads(oracle, name@, next, (count - 1) as nat)
    };
    if let Step::Read(read, r) = StringRead::spec_start(address) {
        lemma_lift_entry_name(oracle, name, entry, read, r, len + 1, rest, (total - 1) as nat);
    }
}

/// The interface search ends with what `spec_interface` states, within
/// `interface_reads` reads, wherever that is decided within the bounds.
pub proof fn lemma_interface(
    oracle: Oracle,
    base: u64,
    name: String,
    export_name: String,
    entries: nat,
    symbols: nat,
    count: nat,
)
    requires
        export_name@ == create_interface(),
        spec_interface(oracle, base, name@, entries, symbols, count) is Some,
    ensures
        run(
            InterfaceSearch::spec_start(base, name, export_name),
            oracle,
            interface_reads(oracle, base, name@, entries, symbols, count),
        )
            == spec_interface(oracle, base, name@, entries, symbols, count),
{
    let e = module_export_reads(oracle, base, create_interface(), entries, symbols);
    let total = interface_reads(oracle, base, name@, entries, symbols, count);
    lemma_module_export(oracle, base, export_name, entries, symbols);
    let function = spec_module_export(oracle, base, create_interface(), entries, symbols)->0->0;
    let export = function.wrapping_add(0x10);
    let relative = as_u32(oracle(value_read(export.wrapping_add(3), Width::U32)));
    let first = oracle(value_read(export.wrapping_add(7).wrapping_add(relative), Width::U64));
    let scan = interface_scan_reads(oracle, name@, first, count);
    let mut rest: nat = 0;
    if spec_module_export(oracle, base, create_interface(), entries, symbols) == Some(Some(function)) {
        lemma_interface_scan(oracle, name, first, count);
        lemma_run_read(
            InterfaceSearch::Relative { name, export },
            value_read(export.wrapping_add(3), Width::U32),
            oracle,
            2 + scan,
        );
        lemma_run_read(
            InterfaceSearch::List { name },
            value_read(export.wrapping_add(7).wrapping_add(relative), Width::U64),
            oracle,
            1 + scan,
        );
        rest = 2 + scan;
    } else {
        reveal_with_fuel(run, 1);
    }
    if let Step::Read(ex, r) = ExportSearch::spec_start(base, export_name) {
        lemma_lift_export(oracle, name, ex, r, e, rest, total);
    }
}


/// The first entry of the interface list that the `CreateInterface`
/// function at `function` leads to: the pointer that the rip-relative operand
/// at `function + 0x13` refers to.
pub open spec fn interface_list_head(oracle: Oracle, function: u64) -> u64 {
    let instruction = function.wrapping_add(0x10);
    let operand = oracle(Read { address: instruction.wrapping_add(3), width: Width::U32 }) as u32 as u64;
    oracle(Read { address: instruction.wrapping_add(7).wrapping_add(operand), width: Width::U64 })
}

/// The address that an interface entry's function refers to: the
/// rip-relative operand at `+3` of the function, from the end of its
/// seven-byte instruction.
pub open spec fn entry_target(oracle: Oracle, entry: u64) -> u64 {
    let function = oracle(Read { address: entry, width: Width::U64 });
    (oracle(Read { address: function.wrapping_add(3), width: Width::U32 }) as u32 as u64).wrapping_add(
        function,
    ).wrapping_add(7)
}

/// The search looks at the head of the interface list first: where the name
/// of the head entry (the string its pointer at `+8` refers to) starts with
/// the interface name, the search gives that entry's target, after reading
/// the export, the two list pointers, the name and the two values of the
/// target.
pub proof fn lemma_interface_head(
    oracle: Oracle,
    base: u64,
    name: String,
    export_name: String,
    entries: nat,
    symbols: nat,
    function: u64,
    fuel: nat,
)
    requires
        export_name@ == create_interface(),
        spec_module_export(oracle, base, create_interface(), entries, symbols) == Some(Some(function)),
        c_string(oracle, entry_name_address(oracle, interface_list_head(oracle, function))) matches Some(bytes)
            && spec_starts_with(utf8_or_empty(bytes), name@),
        fuel >= module_export_reads(oracle, base, create_interface(), entries, symbols) + 2 + 1 + (c_string_len(
            oracle,
            entry_name_address(oracle, interface_list_head(oracle, function)),
        ) + 1) + 2,
    ensures
        run(InterfaceSearch::spec_start(base, name, export_name), oracle, fuel) == Some(
            Some(entry_target(oracle, interface_list_head(oracle, function))),
        ),
{
    let head = interface_list_head(oracle, function);
    let export = function.wrapping_add(0x10);
    assert(as_u32(oracle(value_read(export.wrapping_add(3), Width::U32))) == oracle(
        Read { address: export.wrapping_add(3), width: Width::U32 },
    ) as u32 as u64);
    assert(spec_interface(oracle, base, name@, entries, symbols, 0) == Some(Some(entry_target(oracle, head))));
    lemma_interface(oracle, base, name, export_name, entries, symbols, 0);
    lemma_run_monotonic(
        InterfaceSearch::spec_start(base, name, export_name),
        oracle,
        interface_reads(oracle, base, name@, entries, symbols, 0),
        fuel,
    );
}


/// The name of the interface entry at `entry`: the string its pointer at
/// `+8` refers to.
pub open spec fn entry_name_address(oracle: Oracle, entry: u64) -> u64 {
    oracle(Read { address: entry.wrapping_add(8), width: Width::U64 })
}

/// The entry after the interface entry at `entry`: its pointer at `+0x10`.
pub open spec fn next_entry(oracle: Oracle, entry: u64) -> u64 {
    oracle(Read { address: entry.wrapping_add(0x10), width: Width::U64 })
}

/// Where the head of the interface list does not have the name and has no
/// next entry, the search gives none.
pub proof fn lemma_interface_list_end(
    oracle: Oracle,
    base: u64,
    name: String,
    export_name: String,
    entries: nat,
    symbols: nat,
    function: u64,
    fuel: nat,
)
    requires
        export_name@ == create_interface(),
        spec_module_export(oracle, base, create_interface(), entries, symbols) == Some(Some(function)),
        c_string(oracle, entry_name_address(oracle, interface_list_head(oracle, function))) matches Some(bytes)
            && !spec_starts_with(utf8_or_empty(bytes), name@),
        next_entry(oracle, interface_list_head(oracle, function)) == 0,
        fuel >= module_export_reads(oracle, base, create_interface(), entries, symbols) + 2 + 1 + (c_string_len(
            oracle,
            entry_name_address(oracle, interface_list_head(oracle, function)),
        ) + 1) + 1,
    ensures
        run(InterfaceSearch::spec_start(base, name, export_name), oracle, fuel) == Some(None::<u64>),
{
    let export = function.wrapping_add(0x10);
    assert(as_u32(oracle(value_read(export.wrapping_add(3), Width::U32))) == oracle(
        Read { address: export.wrapping_add(3), width: Width::U32 },
    ) as u32 as u64);
    assert(spec_interface(oracle, base, name@, entries, symbols, 0) == Some(None::<u64>));
    lemma_interface(oracle, base, name, export_name, entries, symbols, 0);
    lemma_run_monotonic(
        InterfaceSearch::spec_start(base, name, export_name),
        oracle,
        interface_reads(oracle, base, name@, entries, symbols, 0),
        fuel,
    );
}

/// Where the head of the interface list does not have the name and the
/// entry after it does, the search gives that second entry's target.
pub proof fn lemma_interface_second_entry(
    oracle: Oracle,
    base: u64,
    name: String,
    export_name: String,
    entries: nat,
    symbols: nat,
    function: u64,
    fuel: nat,
)
    requires
        export_name@ == create_interface(),
        spec_module_export(oracle, base, create_interface(), entries, symbols) == Some(Some(function)),
        c_string(oracle, entry_name_address(oracle, interface_list_head(oracle, function))) matches Some(bytes)
            && !spec_starts_with(utf8_or_empty(bytes), name@),
        next_entry(oracle, interface_list_head(oracle, function)) != 0,
        c_string(
            oracle,
            entry_name_address(oracle, next_entry(oracle, interface_list_head(oracle, function))),
        ) matches Some(bytes) && spec_starts_with(utf8_or_empty(bytes), name@),
        fuel >= module_export_reads(oracle, base, create_interface(), entries, symbols) + 2 + 1 + (c_string_len(
            oracle,
            entry_name_address(oracle, interface_list_head(oracle, function)),
        ) + 1) + 1 + 1 + (c_string_len(
            oracle,
            entry_name_address(oracle, next_entry(oracle, interface_list_head(oracle, function))),
        ) + 1) + 2,
    ensures
        run(InterfaceSearch::spec_start(base, name, export_name), oracle, fuel) == Some(
            Some(entry_target(oracle, next_entry(oracle, interface_list_head(oracle, function)))),
        ),
{
    let export = function.wrapping_add(0x10);
    let head = interface_list_head(oracle, function);
    assert(as_u32(oracle(value_read(export.wrapping_add(3), Width::U32))) == oracle(
        Read { address: export.wrapping_add(3), width: Width::U32 },
    ) as u32 as u64);
    assert(interface_scan(oracle, name@, next_entry(oracle, head), 0) == Some(
        Some(entry_target(oracle, next_entry(oracle, head))),
    ));
    assert(spec_interface(oracle, base, name@, entries, symbols, 1) == Some(
        Some(entry_target(oracle, next_entry(oracle, head))),
    ));
    lemma_interface(oracle, base, name, export_name, entries, symbols, 1);
    let second = next_entry(oracle, head);
    assert(interface_scan_reads(oracle, name@, second, 0) == 1 + (c_string_len(
        oracle,
        entry_name_address(oracle, second),
    ) + 1) + 2);
    assert(interface_scan_reads(oracle, name@, head, 1) == 1 + (c_string_len(
        oracle,
        entry_name_address(oracle, head),
    ) + 1) + 1 + interface_scan_reads(oracle, name@, second, 0));
    lemma_run_monotonic(
        InterfaceSearch::spec_start(base, name, export_name),
        oracle,
        interface_reads(oracle, base, name@, entries, symbols, 1),
        fuel,
    );
}

} // verus!
