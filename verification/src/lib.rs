//! A partial emulator of the Intel 8086: an instruction decoder, a CPU state
//! (registers, flags, 1 MiB of memory) and an executor for a subset of the
//! instruction set.
pub mod cpu;
pub mod mca8086;
pub mod cpu_exec;
pub mod machine;
pub mod exec_laws;
