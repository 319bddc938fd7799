# deadlocked

A verified core for an external Counter-Strike 2 tool on Linux: everything it
decides about the game's memory is in `src/`, proved with Verus; reading and
writing the game's memory, the /proc file system and the floating point
values live in `app/`.

## Layout

- `src/memory.rs`: the read protocol. Every operation that reads the game's
  memory is a state machine (`ReadMachine`) that asks for one value at a time
  (`Step::Read`) and ends with its result (`Step::Done`). `run` drives a
  machine against a model of the memory, and the `lemma_*` proofs next to each
  machine state what it ends with, and within how many reads.
- `src/cs2/`: offsets, players (lookups by entity index, the local player,
  health, validity, field of view, glow, the player cache), the planted bomb,
  weapon names, the field of view changer.
- `src/process/`: the process's address range and memory maps, null-terminated
  strings and their cache, recognising the game among the entries of /proc,
  ELF structures (module size, program headers,
  dynamic section, exported symbols), engine interfaces and console
  variables, byte patterns with wildcards.
- `src/text.rs`: string comparisons by UTF-8 bytes.
- `app/`: the process handle (`process_vm_readv`, `/proc`), the driver that
  runs the library's machines against it, the floating point values, and the
  weapon type with its serialization derives.

## Not included

The settings window and the in-game overlay (egui on winit and glow) are not
part of this project: their sources rest on configuration, drawing, input and
map-parsing modules that are not available, and what they compute is screen
geometry in floating point.
