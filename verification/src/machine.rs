//! The fetch-decode-execute cycle.
use vstd::prelude::*;
use crate::cpu::{Cpu, CpuState, SP};
use crate::cpu_exec::{exec, execute, stack_ok, add16};
use crate::mca8086::{X86Instruction, decode, decoded, decodable, prefix_run, is_prefix};

verus! {

/// The number of prefix bytes at the instruction pointer.
pub open spec fn prefixes_at_ip(s: CpuState) -> nat {
    prefix_run(s.memory, s.ip as int, 0, 0)
}

/// The opcode byte of the instruction at the instruction pointer.
pub open spec fn opcode_at_ip(s: CpuState) -> u8 {
    s.memory[s.ip + prefixes_at_ip(s)]
}

/// One cycle can run without fault: the instruction at IP has at most 15
/// prefixes and its opcode finds the stack it needs.
pub open spec fn step_ok(s: CpuState) -> bool {
    &&& prefixes_at_ip(s) <= 15
    &&& stack_ok(s, opcode_at_ip(s))
}

/// `instr` is the instruction a blank decoder reads at the instruction pointer.
pub open spec fn fetched(s: CpuState, instr: X86Instruction) -> bool {
    exists|b: X86Instruction| b.is_blank() && #[trigger] decoded(b, instr, s.ip as int, s.memory)
}

/// The state after executing `instr`: unless the instruction jumped, IP
/// advances past it.
pub open spec fn advanced(s: CpuState, instr: X86Instruction) -> CpuState {
    let e = execute(s, instr);
    if e.jmp_taken {
        e
    } else {
        e.with_ip(add16(e.ip as int, instr.length as int))
    }
}

/// The cycle stops after a HLT or an unsupported opcode.
pub open spec fn stops(s: CpuState) -> bool {
    s.hlt_suspend || s.unsupported_op
}

/// A cycle whose instruction did not jump leaves IP at the executed state's
/// IP plus the decoded length, modulo 0x10000; after a jump IP is the jump's
/// target. Nothing else differs from the executed state.
pub proof fn law_advance(s: CpuState, instr: X86Instruction)
    requires
        s.wf(),
    ensures
        ({
            let e = execute(s, instr);
            let a = advanced(s, instr);
            &&& !e.jmp_taken ==> a.ip == (e.ip + instr.length) % 0x10000
            &&& e.jmp_taken ==> a.ip == e.ip
            &&& a.regs == e.regs && a.flags == e.flags && a.memory == e.memory
            &&& a.jmp_taken == e.jmp_taken && a.hlt_suspend == e.hlt_suspend
            &&& a.unsupported_op == e.unsupported_op
        }),
{
}

/// A cycle may run exactly when the instruction at IP has at most 15
/// prefixes and does not push with SP = 2 (PUSH, CALL) or pop with SP = 0
/// (POP, RET); then decoding it from a blank instruction and executing it
/// are both fault-free.
pub proof fn law_step_ok(s: CpuState)
    requires
        s.wf(),
    ensures
        ({
            let op = opcode_at_ip(s);
            let sp = s.regs[SP as int];
            step_ok(s) <==> (prefixes_at_ip(s) <= 15 && !((0x50 <= op <= 0x57 || op == 0xE8) && sp
                == 2) && !((0x58 <= op <= 0x5F || op == 0xC3) && sp == 0))
        }),
        step_ok(s) ==> forall|b: X86Instruction, n: X86Instruction|
            #[trigger] b.is_blank() && #[trigger] decoded(b, n, s.ip as int, s.memory) ==> decodable(
                b,
                s.ip as int,
                s.memory,
            ) && crate::cpu_exec::exec_ok(s, n),
{
    if step_ok(s) {
        lemma_fetch_in_bounds(s);
        assert forall|b: X86Instruction, n: X86Instruction|
            #[trigger] b.is_blank() && #[trigger] decoded(b, n, s.ip as int, s.memory) implies decodable(
            b,
            s.ip as int,
            s.memory,
        ) && crate::cpu_exec::exec_ok(s, n) by {
            crate::mca8086::lemma_decoded_prefixes(b, n, s.ip as int, s.memory);
        }
    }
}

proof fn lemma_fetch_in_bounds(s: CpuState)
    requires
        s.wf(),
        step_ok(s),
    ensures
        forall|b: X86Instruction| #[trigger] b.is_blank() ==> decodable(b, s.ip as int, s.memory),
{
    assert forall|b: X86Instruction| #[trigger] b.is_blank() implies decodable(b, s.ip as int, s.memory) by {
        assert(b.length == 0);
    }
}

/// Whether `step` may run on this CPU.
pub fn can_step(cpu: &mut Cpu) -> (r: bool)
    requires
        old(cpu)@.wf(),
    ensures
        r == step_ok(old(cpu)@),
        final(cpu)@ == old(cpu)@,
{
    let ip = cpu.get_ip() as usize;
    let sp = cpu.get_reg16(SP);
    let mem = cpu.get_mem_buff();
    let ghost run = prefix_run(mem@, ip as int, 0, 0);
    let mut n: usize = 0;
    while n < 16 && is_prefix(mem[ip + n])
        invariant
            n <= 16,
            ip < 0x10000,
            mem@.len() == crate::cpu::RAM_MEMORY,
            run == prefix_run(mem@, ip as int, 0, 0),
            run == n + prefix_run(mem@, ip as int, 0, n as nat),
        decreases 16 - n,
    {
        n = n + 1;
    }
    if n == 16 {
        return false;
    }
    let op = mem[ip + n];
    let push_op = (0x50 <= op && op <= 0x57) || op == 0xE8;
    let pop_op = (0x58 <= op && op <= 0x5F) || op == 0xC3;
    !(push_op && sp == 2) && !(pop_op && sp == 0)
}

/// One cycle of the emulator: decodes the instruction at IP, executes it,
/// advances IP past it unless it jumped, and returns whether the machine
/// stops (HLT or an unsupported opcode) together with the instruction.
/// When it does not stop, the jump mark is cleared for the next cycle.
pub fn step(cpu: &mut Cpu) -> (r: (bool, X86Instruction))
    requires
        old(cpu)@.wf(),
        step_ok(old(cpu)@),
    ensures
        fetched(old(cpu)@, r.1),
        r.0 == stops(advanced(old(cpu)@, r.1)),
        final(cpu)@ == if r.0 {
            advanced(old(cpu)@, r.1)
        } else {
            advanced(old(cpu)@, r.1).with_jmp_taken(false)
        },
        final(cpu)@.wf(),
{
    let mut instr = X86Instruction::new();
    proof {
        lemma_fetch_in_bounds(old(cpu)@);
    }
    let ghost blank = instr;
    let ip = cpu.get_ip();
    let len = decode(&mut instr, ip as usize, cpu.get_mem_buff());
    assert(decoded(blank, instr, ip as int, cpu@.memory));
    exec(cpu, &instr);

    if !cpu.get_jmp_taken() {
        cpu.inc_ip(len as u16);
    }
    if cpu.get_suspend() {
        return (true, instr);
    }
    if cpu.get_unop() {
        return (true, instr);
    }
    cpu.set_jmp_taken(false);
    (false, instr)
}

} // verus!
