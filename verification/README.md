# NaTE: a partial Intel 8086 emulator, verified with Verus

- `src/mca8086.rs`: the decoder. `decode` reads segment-override prefixes,
  the opcode, the mod-reg-r/m byte, its displacement and the immediate.
- `src/cpu.rs`: the CPU state (registers, flags, IP, 1 MiB of memory) and its
  mathematical model `CpuState`; `init` loads a program at address 0.
- `src/cpu_exec.rs`: the semantics of every supported opcode as spec
  functions, and `exec`, proved to follow them.
- `src/machine.rs`: one fetch-decode-execute cycle (`step`).
- `app/main.rs`: reads `codegolf.com`, runs it and prints video memory.

Segments and interrupts are not emulated; arithmetic wraps at 8 and 16 bits.
