//! Execution of decoded instructions.
//!
//! Arithmetic wraps around at 8 or 16 bits, as on the 8086. Effective
//! addresses ignore segments.
use vstd::prelude::*;
use crate::cpu::{Cpu, CpuState, RAM_MEMORY, AX, BX, SP, BP, SI, DI, AL, CF_POS, OF_POS, ZF_POS, SF_POS};
use crate::mca8086::{X86Instruction, modf, regf, rmf, DISP_FLAG};

verus! {

// ---------------------------------------------------------------------------
// Arithmetic on 8- and 16-bit words
// ---------------------------------------------------------------------------

/// `a + b` modulo 0x10000.
pub open spec fn add16(a: int, b: int) -> u16 {
    ((a + b) % 0x10000) as u16
}

/// `a - b` modulo 0x10000.
pub open spec fn sub16(a: int, b: int) -> u16 {
    ((a - b) % 0x10000) as u16
}

/// `a + b` modulo 0x100.
pub open spec fn add8(a: int, b: int) -> u8 {
    ((a + b) % 0x100) as u8
}

/// `a - b` modulo 0x100.
pub open spec fn sub8(a: int, b: int) -> u8 {
    ((a - b) % 0x100) as u8
}

/// The byte `b` read as a two's complement number.
pub open spec fn sext8(b: int) -> int {
    if b >= 128 {
        b - 256
    } else {
        b
    }
}

fn wrap_add16(a: u16, b: u16) -> (r: u16)
    ensures
        r == add16(a as int, b as int),
{
    ((a as u32 + b as u32) % 0x10000) as u16
}

fn wrap_sub16(a: u16, b: u16) -> (r: u16)
    ensures
        r == sub16(a as int, b as int),
{
    ((a as u32 + 0x10000 - b as u32) % 0x10000) as u16
}

fn wrap_add8(a: u8, b: u8) -> (r: u8)
    ensures
        r == add8(a as int, b as int),
{
    ((a as u16 + b as u16) % 0x100) as u8
}

fn wrap_sub8(a: u8, b: u8) -> (r: u8)
    ensures
        r == sub8(a as int, b as int),
{
    ((a as u16 + 0x100 - b as u16) % 0x100) as u8
}


// ---------------------------------------------------------------------------
// Operand access
// ---------------------------------------------------------------------------

/// The effective address of a memory operand (segments are not applied).
pub open spec fn effective_address(s: CpuState, i: X86Instruction, md: u8, rm: u8) -> int {
    let base: int = if rm == 0 {
        add16(s.regs[BX as int] as int, s.regs[SI as int] as int) as int
    } else if rm == 1 {
        add16(s.regs[BX as int] as int, s.regs[DI as int] as int) as int
    } else if rm == 2 {
        add16(s.regs[BP as int] as int, s.regs[SI as int] as int) as int
    } else if rm == 3 {
        add16(s.regs[BP as int] as int, s.regs[DI as int] as int) as int
    } else if rm == 4 {
        s.regs[SI as int] as int
    } else if rm == 5 {
        s.regs[DI as int] as int
    } else if rm == 6 {
        if md == 0 {
            i.disp as int
        } else if md == 1 || md == 2 {
            s.regs[BP as int] as int
        } else {
            0
        }
    } else if rm == 7 {
        s.regs[BX as int] as int
    } else {
        0
    };
    if md == 1 || md == 2 {
        base + i.disp
    } else {
        base
    }
}

/// The address of the memory operand named by the instruction's mod-reg-r/m byte.
pub open spec fn operand_address(s: CpuState, i: X86Instruction) -> int {
    effective_address(s, i, modf(i.mod_reg_rm), rmf(i.mod_reg_rm))
}

/// Whether the 16-bit r/m operand is read from memory (the instruction has a displacement field).
pub open spec fn reads_memory(i: X86Instruction) -> bool {
    i.instr_flags & DISP_FLAG == DISP_FLAG
}

/// The 16-bit r/m operand.
pub open spec fn rm_read16(s: CpuState, i: X86Instruction) -> u16 {
    if reads_memory(i) {
        s.mem16(operand_address(s, i))
    } else {
        s.regs[rmf(i.mod_reg_rm) as int]
    }
}

/// The 8-bit r/m operand.
pub open spec fn rm_read8(s: CpuState, i: X86Instruction) -> u8 {
    if reads_memory(i) {
        s.memory[operand_address(s, i)]
    } else {
        s.reg8(rmf(i.mod_reg_rm) as int)
    }
}

/// Writes the 16-bit r/m operand (little-endian in memory).
pub open spec fn rm_write16(s: CpuState, i: X86Instruction, v: u16) -> CpuState {
    if modf(i.mod_reg_rm) < 3 {
        let ea = operand_address(s, i);
        s.with_mem8(ea, (v % 256) as u8).with_mem8(ea + 1, (v / 256) as u8)
    } else {
        s.with_reg16(rmf(i.mod_reg_rm) as int, v)
    }
}

/// Writes the 8-bit r/m operand.
pub open spec fn rm_write8(s: CpuState, i: X86Instruction, v: u8) -> CpuState {
    if modf(i.mod_reg_rm) < 3 {
        s.with_mem8(operand_address(s, i), v)
    } else {
        s.with_reg8(rmf(i.mod_reg_rm) as int, v)
    }
}

fn get_ea(cpu: &mut Cpu, instr: &X86Instruction, modf: u8, rmf: u8) -> (ea: usize)
    ensures
        ea == effective_address(old(cpu)@, *instr, modf, rmf),
        ea < 0x20000,
        final(cpu)@ == old(cpu)@,
{
    proof {
        cpu.lemma_shape();
    }
    let bx = cpu.get_reg16(BX);
    let bp = cpu.get_reg16(BP);
    let si = cpu.get_reg16(SI);
    let di = cpu.get_reg16(DI);
    let mut ea: usize = match rmf {
        0x00 => wrap_add16(bx, si) as usize,
        0x01 => wrap_add16(bx, di) as usize,
        0x02 => wrap_add16(bp, si) as usize,
        0x03 => wrap_add16(bp, di) as usize,
        0x04 => si as usize,
        0x05 => di as usize,
        0x06 => {
            match modf {
                0x00 => instr.disp as usize,
                0x01 | 0x02 => bp as usize,
                _ => 0,
            }
        },
        0x07 => bx as usize,
        _ => 0,
    };

    ea = if modf == 1 || modf == 2 {
        ea + instr.disp as usize
    } else {
        ea
    };

    ea
}

fn cpu_readmem16(cpu: &mut Cpu, off: usize) -> (r: u16)
    requires
        old(cpu)@.wf(),
        off + 1 < RAM_MEMORY,
    ensures
        r == old(cpu)@.mem16(off as int),
        final(cpu)@ == old(cpu)@,
{
    let n: u16 = cpu.get_memory(off + 1) as u16;
    n * 256 + cpu.get_memory(off) as u16
}

fn cpu_readmem8(cpu: &mut Cpu, off: usize) -> (r: u8)
    requires
        old(cpu)@.wf(),
        off < RAM_MEMORY,
    ensures
        r == old(cpu)@.memory[off as int],
        final(cpu)@ == old(cpu)@,
{
    cpu.get_memory(off)
}

fn cpu_writemem8(cpu: &mut Cpu, off: usize, val: u8)
    requires
        old(cpu)@.wf(),
        off < RAM_MEMORY,
    ensures
        final(cpu)@ == old(cpu)@.with_mem8(off as int, val),
        final(cpu)@.wf(),
{
    cpu.set_memory(off, val);
}

fn readmem16(cpu: &mut Cpu, instr: &X86Instruction) -> (r: u16)
    requires
        old(cpu)@.wf(),
    ensures
        r == rm_read16(old(cpu)@, *instr),
        final(cpu)@ == old(cpu)@,
{
    proof {
        cpu.lemma_shape();
    }
    if instr.instr_flags & DISP_FLAG == DISP_FLAG {
        let off = get_ea(cpu, instr, modf(instr.mod_reg_rm), rmf(instr.mod_reg_rm));
        cpu_readmem16(cpu, off)
    } else {
        cpu.get_reg16(rmf(instr.mod_reg_rm) as usize)
    }
}

fn readmem8(cpu: &mut Cpu, instr: &X86Instruction) -> (r: u8)
    requires
        old(cpu)@.wf(),
    ensures
        r == rm_read8(old(cpu)@, *instr),
        final(cpu)@ == old(cpu)@,
{
    if instr.instr_flags & DISP_FLAG == DISP_FLAG {
        let off = get_ea(cpu, instr, modf(instr.mod_reg_rm), rmf(instr.mod_reg_rm));
        cpu_readmem8(cpu, off)
    } else {
        cpu.get_reg8(rmf(instr.mod_reg_rm) as usize)
    }
}

fn writemem16(cpu: &mut Cpu, instr: &X86Instruction, val: u16)
    requires
        old(cpu)@.wf(),
    ensures
        final(cpu)@ == rm_write16(old(cpu)@, *instr, val),
        final(cpu)@.wf(),
{
    proof {
        cpu.lemma_shape();
    }
    if modf(instr.mod_reg_rm) < 3 {
        let ea = get_ea(cpu, instr, modf(instr.mod_reg_rm), rmf(instr.mod_reg_rm));
        cpu_writemem8(cpu, ea, (val % 256) as u8);
        cpu_writemem8(cpu, ea + 1, (val / 256) as u8);
    } else {
        cpu.set_reg16(rmf(instr.mod_reg_rm) as usize, val);
    }
}

fn writemem8(cpu: &mut Cpu, instr: &X86Instruction, val: u8)
    requires
        old(cpu)@.wf(),
    ensures
        final(cpu)@ == rm_write8(old(cpu)@, *instr, val),
        final(cpu)@.wf(),
{
    proof {
        cpu.lemma_shape();
    }
    if modf(instr.mod_reg_rm) < 3 {
        let ea = get_ea(cpu, instr, modf(instr.mod_reg_rm), rmf(instr.mod_reg_rm));
        cpu_writemem8(cpu, ea, val);
    } else {
        cpu.set_reg8(rmf(instr.mod_reg_rm) as usize, val);
    }
}


// ---------------------------------------------------------------------------
// Flags
// ---------------------------------------------------------------------------

/// ZF and SF from a 16-bit result.
pub open spec fn set_sz16(s: CpuState, v: u16) -> CpuState {
    s.with_flag(ZF_POS as int, if v == 0 { 1 } else { 0 }).with_flag(SF_POS as int, (v / 0x8000) as u8)
}

/// ZF and SF from an 8-bit result.
pub open spec fn set_sz8(s: CpuState, v: u8) -> CpuState {
    s.with_flag(ZF_POS as int, if v == 0 { 1 } else { 0 }).with_flag(SF_POS as int, (v / 0x80) as u8)
}

/// Flags of a logical operation with 16-bit result `v`: CF and OF cleared, ZF and SF from `v`.
pub open spec fn flags_logic16(s: CpuState, v: u16) -> CpuState {
    set_sz16(s.with_flag(CF_POS as int, 0).with_flag(OF_POS as int, 0), v)
}

/// Flags of a logical operation with 8-bit result `v`.
pub open spec fn flags_logic8(s: CpuState, v: u8) -> CpuState {
    set_sz8(s.with_flag(CF_POS as int, 0).with_flag(OF_POS as int, 0), v)
}

/// Flags of the 16-bit comparison `a - b`: ZF and SF from the difference,
/// CF set when `a < b`.
pub open spec fn flags_diff16(s: CpuState, a: u16, b: u16) -> CpuState {
    set_sz16(s, sub16(a as int, b as int)).with_flag(CF_POS as int, if a < b { 1 } else { 0 })
}

/// Flags of the 8-bit comparison `a - b`: ZF and SF from the difference,
/// CF set on a borrow (`a < b`).
pub open spec fn flags_diff8(s: CpuState, a: u8, b: u8) -> CpuState {
    set_sz8(s, sub8(a as int, b as int)).with_flag(CF_POS as int, if a < b { 1 } else { 0 })
}

/// Flags of the 16-bit subtraction with borrow `a - b - c`: ZF and SF from
/// the difference, CF set when `a < b + c`.
pub open spec fn flags_sbb16(s: CpuState, a: u16, b: u16, c: u8) -> CpuState {
    set_sz16(s, sub16(a as int, b + c)).with_flag(CF_POS as int, if a < b + c { 1 } else { 0 })
}

/// Flags of the 16-bit addition `a + b`: ZF and SF from the sum, CF set on
/// carry out of bit 15.
pub open spec fn flags_add16(s: CpuState, a: u16, b: u16) -> CpuState {
    set_sz16(s, add16(a as int, b as int)).with_flag(
        CF_POS as int,
        if a + b >= 0x10000 { 1 } else { 0 },
    )
}

/// Flags of the 8-bit addition `a + b`: ZF and SF from the sum, CF set on
/// carry out of bit 7.
pub open spec fn flags_add8(s: CpuState, a: u8, b: u8) -> CpuState {
    set_sz8(s, add8(a as int, b as int)).with_flag(CF_POS as int, if a + b >= 0x100 { 1 } else { 0 })
}

/// Flags of the 16-bit addition with carry `a + b + c`: ZF and SF from the
/// sum, CF set on carry out of bit 15.
pub open spec fn flags_adc16(s: CpuState, a: u16, b: u16, c: u8) -> CpuState {
    set_sz16(s, add16(a + b, c as int)).with_flag(CF_POS as int, if a + b + c >= 0x10000 { 1 } else { 0 })
}

/// Flags of the 8-bit addition with carry `a + b + c`: ZF and SF from the
/// sum, CF set on carry out of bit 7.
pub open spec fn flags_adc8(s: CpuState, a: u8, b: u8, c: u8) -> CpuState {
    set_sz8(s, add8(a + b, c as int)).with_flag(CF_POS as int, if a + b + c >= 0x100 { 1 } else { 0 })
}

fn setflag_sz16(cpu: &mut Cpu, val: u16)
    ensures
        final(cpu)@ == set_sz16(old(cpu)@, val),
{
    let zf = if val == 0 { 1 } else { 0 };
    cpu.set_zf(zf);
    cpu.set_sf((val / 0x8000) as u8);
}

fn setflag_sz8(cpu: &mut Cpu, val: u8)
    ensures
        final(cpu)@ == set_sz8(old(cpu)@, val),
{
    let zf = if val == 0 { 1 } else { 0 };
    cpu.set_zf(zf);
    cpu.set_sf(val / 0x80);
}

fn set_flag_xor16(cpu: &mut Cpu, op1: u16, op2: u16)
    ensures
        final(cpu)@ == flags_logic16(old(cpu)@, op1 ^ op2),
{
    cpu.set_cf(0);
    cpu.set_of(0);
    setflag_sz16(cpu, op1 ^ op2);
}

fn set_flag_or16(cpu: &mut Cpu, op1: u16, op2: u16)
    ensures
        final(cpu)@ == flags_logic16(old(cpu)@, op1 | op2),
{
    cpu.set_cf(0);
    cpu.set_of(0);
    setflag_sz16(cpu, op1 | op2);
}

fn set_flag_or8(cpu: &mut Cpu, op1: u8, op2: u8)
    ensures
        final(cpu)@ == flags_logic8(old(cpu)@, op1 | op2),
{
    cpu.set_cf(0);
    cpu.set_of(0);
    setflag_sz8(cpu, op1 | op2);
}

fn set_flag_and16(cpu: &mut Cpu, op1: u16, op2: u16)
    ensures
        final(cpu)@ == flags_logic16(old(cpu)@, op1 & op2),
{
    let res = op1 & op2;
    cpu.set_cf(0);
    cpu.set_of(0);
    setflag_sz16(cpu, res);
}

fn set_flag_and8(cpu: &mut Cpu, op1: u8, op2: u8)
    ensures
        final(cpu)@ == flags_logic8(old(cpu)@, op1 & op2),
{
    let res = op1 & op2;
    cpu.set_cf(0);
    cpu.set_of(0);
    setflag_sz8(cpu, res);
}

fn set_flag_sub16(cpu: &mut Cpu, op1: u16, op2: u16)
    ensures
        final(cpu)@ == flags_diff16(old(cpu)@, op1, op2),
{
    let res = wrap_sub16(op1, op2);
    setflag_sz16(cpu, res);
    cpu.set_cf(if op1 < op2 { 1 } else { 0 });
}

fn set_flag_sbb16(cpu: &mut Cpu, op1: u16, op2: u16, cf: u8)
    ensures
        final(cpu)@ == flags_sbb16(old(cpu)@, op1, op2, cf),
{
    let sub: u32 = op2 as u32 + cf as u32;
    let res = ((op1 as u32 + 0x20000 - sub) % 0x10000) as u16;
    assert(res == sub16(op1 as int, op2 + cf)) by {
        vstd::arithmetic::div_mod::lemma_mod_add_multiples_vanish(op1 - op2 - cf, 0x10000);
        vstd::arithmetic::div_mod::lemma_mod_add_multiples_vanish(op1 - op2 - cf + 0x10000, 0x10000);
    }
    setflag_sz16(cpu, res);
    cpu.set_cf(if (op1 as u32) < sub { 1 } else { 0 });
}

fn set_flag_add16(cpu: &mut Cpu, op1: u16, op2: u16)
    ensures
        final(cpu)@ == flags_add16(old(cpu)@, op1, op2),
{
    let res: u32 = op1 as u32 + op2 as u32;
    setflag_sz16(cpu, (res % 0x10000) as u16);
    cpu.set_cf(if res >= 0x10000 { 1 } else { 0 });
}

fn set_flag_add8(cpu: &mut Cpu, op1: u8, op2: u8)
    ensures
        final(cpu)@ == flags_add8(old(cpu)@, op1, op2),
{
    let res: u16 = op1 as u16 + op2 as u16;
    setflag_sz8(cpu, (res % 0x100) as u8);
    cpu.set_cf(if res >= 0x100 { 1 } else { 0 });
}

fn set_flag_adc16(cpu: &mut Cpu, op1: u16, op2: u16, cf: u8)
    ensures
        final(cpu)@ == flags_adc16(old(cpu)@, op1, op2, cf),
{
    let res: u32 = op1 as u32 + op2 as u32 + cf as u32;
    setflag_sz16(cpu, (res % 0x10000) as u16);
    cpu.set_cf(if res >= 0x10000 { 1 } else { 0 });
}

fn set_flag_adc8(cpu: &mut Cpu, op1: u8, op2: u8, cf: u8)
    ensures
        final(cpu)@ == flags_adc8(old(cpu)@, op1, op2, cf),
{
    let res: u16 = op1 as u16 + op2 as u16 + cf as u16;
    setflag_sz8(cpu, (res % 0x100) as u8);
    cpu.set_cf(if res >= 0x100 { 1 } else { 0 });
}

fn set_flag16(cpu: &mut Cpu, op1: u16, op2: u16)
    ensures
        final(cpu)@ == flags_diff16(old(cpu)@, op1, op2),
{
    let res = wrap_sub16(op1, op2);
    setflag_sz16(cpu, res);
    cpu.set_cf(if op1 < op2 { 1 } else { 0 });
}

fn set_flag8(cpu: &mut Cpu, op1: u8, op2: u8)
    ensures
        final(cpu)@ == flags_diff8(old(cpu)@, op1, op2),
{
    let res = wrap_sub8(op1, op2);
    setflag_sz8(cpu, res);
    cpu.set_cf(if op1 < op2 { 1 } else { 0 });
}

// ---------------------------------------------------------------------------
// Stack
// ---------------------------------------------------------------------------

/// PUSH: SP drops by 2, then the low byte of `v` goes to [SP] and the high
/// byte to [SP - 1].
pub open spec fn push_state(s: CpuState, v: u16) -> CpuState {
    let sp = sub16(s.regs[SP as int] as int, 2);
    s.with_reg16(SP as int, sp).with_mem8(sp as int, (v % 256) as u8).with_mem8(
        sp - 1,
        (v / 256) as u8,
    )
}

/// The word POP takes: high byte at [SP - 1], low byte at [SP].
pub open spec fn pop_value(s: CpuState) -> u16 {
    let sp = s.regs[SP as int] as int;
    (s.memory[sp - 1] * 256 + s.memory[sp]) as u16
}

/// POP: SP grows by 2.
pub open spec fn pop_state(s: CpuState) -> CpuState {
    s.with_reg16(SP as int, add16(s.regs[SP as int] as int, 2))
}

fn push(cpu: &mut Cpu, val: u16)
    requires
        old(cpu)@.wf(),
        old(cpu)@.regs[SP as int] != 2,
    ensures
        final(cpu)@ == push_state(old(cpu)@, val),
        final(cpu)@.wf(),
{
    proof {
        cpu.lemma_shape();
    }
    let sp = cpu.get_reg16(SP);
    cpu.set_reg16(SP, wrap_sub16(sp, 2));

    let off: usize = cpu.get_reg16(SP) as usize;
    cpu.set_memory(off, (val % 256) as u8);
    cpu.set_memory(off - 1, (val / 256) as u8);
}

fn pop(cpu: &mut Cpu) -> (val: u16)
    requires
        old(cpu)@.wf(),
        old(cpu)@.regs[SP as int] != 0,
    ensures
        val == pop_value(old(cpu)@),
        final(cpu)@ == pop_state(old(cpu)@),
        final(cpu)@.wf(),
{
    proof {
        cpu.lemma_shape();
    }
    let off: usize = cpu.get_reg16(SP) as usize;
    let mut val: u16 = cpu_readmem8(cpu, off - 1) as u16;
    val = val * 256 + cpu_readmem8(cpu, off) as u16;
    let sp = cpu.get_reg16(SP);
    cpu.set_reg16(SP, wrap_add16(sp, 2));

    val
}


// ---------------------------------------------------------------------------
// Instruction semantics
// ---------------------------------------------------------------------------

/// The 16-bit register named by the `reg` field.
pub open spec fn reg_field(i: X86Instruction) -> int {
    regf(i.mod_reg_rm) as int
}

/// The register encoded in the low three bits of the opcode.
pub open spec fn op_reg(i: X86Instruction) -> int {
    (i.op % 8) as int
}

/// The low byte of the immediate.
pub open spec fn imm8(i: X86Instruction) -> u8 {
    (i.imm % 256) as u8
}

/// The 16-bit immediate of group 1; opcodes with bit 1 set extend bit 7 of it.
pub open spec fn group1_imm16(i: X86Instruction) -> u16 {
    if i.op & 0x02 == 0x02 && i.imm & 0x80 == 0x80 {
        i.imm | 0xFF00
    } else {
        i.imm
    }
}

/// The 8-bit immediate of group 1: the byte immediate as it stands (0x82 is
/// an alias of 0x80).
pub open spec fn group1_imm8(i: X86Instruction) -> u8 {
    imm8(i)
}

/// Target of a short (8-bit relative) jump: the next instruction's address
/// plus the signed byte immediate, modulo 0x10000.
pub open spec fn short_target(i: X86Instruction) -> u16 {
    ((i.addr + i.length + sext8(imm8(i) as int)) % 0x10000) as u16
}

/// Target of a near call: the next instruction's address plus the word immediate, modulo 0x10000.
pub open spec fn near_target(i: X86Instruction) -> u16 {
    ((i.addr + i.length + i.imm) % 0x10000) as u16
}

/// An opcode this emulator does not implement.
pub open spec fn unsupported(s: CpuState) -> CpuState {
    s.with_unop(true)
}

/// ADD Ev, Gv
pub open spec fn add_ev_gv(s: CpuState, i: X86Instruction) -> CpuState {
    let op1 = s.regs[reg_field(i)];
    let op2 = rm_read16(s, i);
    rm_write16(flags_add16(s, op1, op2), i, add16(op1 as int, op2 as int))
}

/// ADD AL, Ib
pub open spec fn add_al_ib(s: CpuState, i: X86Instruction) -> CpuState {
    let dst = s.reg8(AL as int);
    flags_add8(s.with_reg8(AL as int, add8(dst as int, imm8(i) as int)), dst, imm8(i))
}

/// ADD AX, Iv
pub open spec fn add_ax_iv(s: CpuState, i: X86Instruction) -> CpuState {
    let dst = s.regs[AX as int];
    flags_add16(s.with_reg16(AX as int, add16(dst as int, i.imm as int)), dst, i.imm)
}

/// OR Ev, Gv
pub open spec fn or_ev_gv(s: CpuState, i: X86Instruction) -> CpuState {
    let src = s.regs[reg_field(i)];
    let dst = rm_read16(s, i);
    rm_write16(flags_logic16(s, dst | src), i, dst | src)
}

/// SBB Ev, Gv: writes `dst - src - CF`.
pub open spec fn sbb_ev_gv(s: CpuState, i: X86Instruction) -> CpuState {
    let op1 = rm_read16(s, i);
    let op2 = s.regs[reg_field(i)];
    let cf = s.flags[CF_POS as int];
    flags_sbb16(rm_write16(s, i, sub16(op1 as int, op2 + cf)), op1, op2, cf)
}

/// AND Ev, Gv
pub open spec fn and_ev_gv(s: CpuState, i: X86Instruction) -> CpuState {
    let op1 = s.regs[reg_field(i)];
    let op2 = rm_read16(s, i);
    rm_write16(flags_logic16(s, op2 & op1), i, op1 & op2)
}

/// SUB Ev, Gv
pub open spec fn sub_ev_gv(s: CpuState, i: X86Instruction) -> CpuState {
    let src = s.regs[reg_field(i)];
    let dst = rm_read16(s, i);
    rm_write16(flags_diff16(s, dst, src), i, sub16(dst as int, src as int))
}

/// XOR Ev, Gv
pub open spec fn xor_ev_gv(s: CpuState, i: X86Instruction) -> CpuState {
    let src = s.regs[reg_field(i)];
    let dst = rm_read16(s, i);
    rm_write16(flags_logic16(s, dst ^ src), i, dst ^ src)
}

/// CMP Ev, Gv
pub open spec fn compare_ev_gv(s: CpuState, i: X86Instruction) -> CpuState {
    flags_diff16(s, rm_read16(s, i), s.regs[reg_field(i)])
}

/// CMP AL, Ib
pub open spec fn compare_al_ib(s: CpuState, i: X86Instruction) -> CpuState {
    flags_diff8(s, s.reg8(AL as int), imm8(i))
}

/// INC Zv: ZF and SF from the result, CF kept.
pub open spec fn inc_reg16(s: CpuState, i: X86Instruction) -> CpuState {
    let r = add16(s.regs[op_reg(i)] as int, 1);
    set_sz16(s, r).with_reg16(op_reg(i), r)
}

/// DEC Zv: ZF and SF from the result, CF kept.
pub open spec fn dec_reg16(s: CpuState, i: X86Instruction) -> CpuState {
    let r = sub16(s.regs[op_reg(i)] as int, 1);
    set_sz16(s, r).with_reg16(op_reg(i), r)
}

/// PUSH Zv (PUSH SP pushes the value SP had before).
pub open spec fn push_reg16(s: CpuState, i: X86Instruction) -> CpuState {
    push_state(s, s.regs[op_reg(i)])
}

/// POP Zv
pub open spec fn pop_reg16(s: CpuState, i: X86Instruction) -> CpuState {
    pop_state(s).with_reg16(op_reg(i), pop_value(s))
}

/// The condition of a conditional short jump, read from the flags.
pub open spec fn jump_condition(s: CpuState, op: u8) -> bool {
    let cf = s.flags[CF_POS as int];
    let zf = s.flags[ZF_POS as int];
    let sf = s.flags[SF_POS as int];
    if op == 0x72 {
        cf == 1
    } else if op == 0x74 {
        zf == 1
    } else if op == 0x75 {
        zf == 0
    } else if op == 0x76 {
        cf == 1 || zf == 1
    } else if op == 0x77 {
        cf == 0 && zf == 0
    } else {
        sf == 0
    }
}

/// JB, JZ, JNZ, JBE, JA, JNS
pub open spec fn jump_if(s: CpuState, i: X86Instruction) -> CpuState {
    if jump_condition(s, i.op) {
        s.with_ip(short_target(i)).with_jmp_taken(true)
    } else {
        s.with_jmp_taken(false)
    }
}

/// ADD Ev, Iv (group 1, reg = 0)
pub open spec fn group1_add(s: CpuState, i: X86Instruction) -> CpuState {
    if i.op & 1 == 1 {
        let imm = group1_imm16(i);
        let dst = rm_read16(s, i);
        rm_write16(flags_add16(s, dst, imm), i, add16(dst as int, imm as int))
    } else {
        let imm = group1_imm8(i);
        let dst = rm_read8(s, i);
        rm_write8(flags_add8(s, dst, imm), i, add8(dst as int, imm as int))
    }
}

/// OR Ev, Iv (group 1, reg = 1)
pub open spec fn group1_or(s: CpuState, i: X86Instruction) -> CpuState {
    if i.op & 1 == 1 {
        let imm = group1_imm16(i);
        let dst = rm_read16(s, i);
        rm_write16(flags_logic16(s, dst | imm), i, dst | imm)
    } else {
        let imm = group1_imm8(i);
        let dst = rm_read8(s, i);
        rm_write8(flags_logic8(s, dst | imm), i, dst | imm)
    }
}

/// ADC Ev, Iv (group 1, reg = 2): writes `dst + imm + CF`.
pub open spec fn group1_adc(s: CpuState, i: X86Instruction) -> CpuState {
    let cf = s.flags[CF_POS as int];
    if i.op & 1 == 1 {
        let imm = group1_imm16(i);
        let dst = rm_read16(s, i);
        flags_adc16(rm_write16(s, i, add16(dst + imm, cf as int)), dst, imm, cf)
    } else {
        let imm = group1_imm8(i);
        let dst = rm_read8(s, i);
        flags_adc8(rm_write8(s, i, add8(dst + imm, cf as int)), dst, imm, cf)
    }
}

/// AND Ev, Iv (group 1, reg = 4)
pub open spec fn group1_and(s: CpuState, i: X86Instruction) -> CpuState {
    if i.op & 1 == 1 {
        let imm = group1_imm16(i);
        let dst = rm_read16(s, i);
        rm_write16(flags_logic16(s, dst & imm), i, dst & imm)
    } else {
        let imm = group1_imm8(i);
        let dst = rm_read8(s, i);
        rm_write8(flags_logic8(s, dst & imm), i, dst & imm)
    }
}

/// SUB Ev, Iv (group 1, reg = 5)
pub open spec fn group1_sub(s: CpuState, i: X86Instruction) -> CpuState {
    if i.op & 1 == 1 {
        let imm = group1_imm16(i);
        let dst = rm_read16(s, i);
        rm_write16(flags_diff16(s, dst, imm), i, sub16(dst as int, imm as int))
    } else {
        let imm = group1_imm8(i);
        let dst = rm_read8(s, i);
        rm_write8(flags_diff8(s, dst, imm), i, sub8(dst as int, imm as int))
    }
}

/// CMP Ev, Iv (group 1, reg = 7); the byte form is not supported.
pub open spec fn group1_compare(s: CpuState, i: X86Instruction) -> CpuState {
    if i.op & 1 == 1 {
        flags_diff16(s, rm_read16(s, i), group1_imm16(i))
    } else {
        unsupported(s)
    }
}

/// Group 1 (opcodes 0x80..0x83), selected by the `reg` field.
pub open spec fn group1(s: CpuState, i: X86Instruction) -> CpuState {
    let r = regf(i.mod_reg_rm);
    if r == 0 {
        group1_add(s, i)
    } else if r == 1 {
        group1_or(s, i)
    } else if r == 2 {
        group1_adc(s, i)
    } else if r == 4 {
        group1_and(s, i)
    } else if r == 5 {
        group1_sub(s, i)
    } else if r == 7 {
        group1_compare(s, i)
    } else {
        unsupported(s)
    }
}

/// XCHG Eb, Gb: the register is written first, then the r/m operand.
pub open spec fn xchg_eb_gb(s: CpuState, i: X86Instruction) -> CpuState {
    let op1 = s.reg8(reg_field(i));
    let op2 = rm_read8(s, i);
    rm_write8(s.with_reg8(reg_field(i), op2), i, op1)
}

/// MOV Eb, Gb
pub open spec fn mov_eb_gb(s: CpuState, i: X86Instruction) -> CpuState {
    rm_write8(s, i, s.reg8(reg_field(i)))
}

/// MOV Ev, Gv
pub open spec fn mov_ev_gv(s: CpuState, i: X86Instruction) -> CpuState {
    rm_write16(s, i, s.regs[reg_field(i)])
}

/// MOV Gb, Eb
pub open spec fn mov_gb_eb(s: CpuState, i: X86Instruction) -> CpuState {
    s.with_reg8(reg_field(i), rm_read8(s, i))
}

/// MOV Gv, Ev
pub open spec fn mov_gv_ev(s: CpuState, i: X86Instruction) -> CpuState {
    s.with_reg16(reg_field(i), rm_read16(s, i))
}

/// XCHG AX, Zv
pub open spec fn xchg_ax(s: CpuState, i: X86Instruction) -> CpuState {
    let dst = s.regs[AX as int];
    let src = s.regs[op_reg(i)];
    s.with_reg16(AX as int, src).with_reg16(op_reg(i), dst)
}

/// MOV Zb, Ib
pub open spec fn mov_reg8_ib(s: CpuState, i: X86Instruction) -> CpuState {
    s.with_reg8(op_reg(i), imm8(i))
}

/// MOV Zv, Iv
pub open spec fn mov_reg16_iv(s: CpuState, i: X86Instruction) -> CpuState {
    s.with_reg16(op_reg(i), i.imm)
}

/// RETN
pub open spec fn ret_near(s: CpuState) -> CpuState {
    pop_state(s).with_ip(pop_value(s)).with_jmp_taken(true)
}

/// MOV Ev, Iv / MOV Eb, Ib (opcodes 0xC6, 0xC7 with reg = 0).
pub open spec fn group_c6(s: CpuState, i: X86Instruction) -> CpuState {
    if regf(i.mod_reg_rm) == 0 {
        if i.op & 0x01 == 0x01 {
            rm_write16(s, i, i.imm)
        } else {
            rm_write8(s, i, imm8(i))
        }
    } else {
        unsupported(s)
    }
}

/// CALL Jv: pushes IP + 3.
pub open spec fn call_near(s: CpuState, i: X86Instruction) -> CpuState {
    push_state(s, add16(s.ip as int, 3)).with_ip(near_target(i)).with_jmp_taken(true)
}

/// JMP Jbs
pub open spec fn jmp_short(s: CpuState, i: X86Instruction) -> CpuState {
    s.with_ip(short_target(i)).with_jmp_taken(true)
}

/// INC Eb / DEC Eb (opcode 0xFE with reg = 0 or 1): ZF and SF from the
/// result, CF kept.
pub open spec fn group_fe(s: CpuState, i: X86Instruction) -> CpuState {
    let r = regf(i.mod_reg_rm);
    let op1 = rm_read8(s, i);
    if (r == 0 || r == 1) && i.op & 0x01 != 0x01 {
        if r == 0 {
            rm_write8(set_sz8(s, add8(op1 as int, 1)), i, add8(op1 as int, 1))
        } else {
            rm_write8(set_sz8(s, sub8(op1 as int, 1)), i, sub8(op1 as int, 1))
        }
    } else {
        unsupported(s)
    }
}

/// The effect of an instruction on the CPU, after its opcode was latched.
pub open spec fn dispatch(s: CpuState, i: X86Instruction) -> CpuState {
    if i.op < 0x80 {
        dispatch_low(s, i)
    } else {
        dispatch_high(s, i)
    }
}

/// Opcodes 0x00..0x7F.
pub open spec fn dispatch_low(s: CpuState, i: X86Instruction) -> CpuState {
    let op = i.op;
    if op == 0x01 {
        add_ev_gv(s, i)
    } else if op == 0x04 {
        add_al_ib(s, i)
    } else if op == 0x05 {
        add_ax_iv(s, i)
    } else if op == 0x09 {
        or_ev_gv(s, i)
    } else if op == 0x19 {
        sbb_ev_gv(s, i)
    } else if op == 0x20 {
        and_ev_gv(s, i)
    } else if op == 0x29 {
        sub_ev_gv(s, i)
    } else if op == 0x31 {
        xor_ev_gv(s, i)
    } else if op == 0x39 {
        compare_ev_gv(s, i)
    } else if op == 0x3C {
        compare_al_ib(s, i)
    } else if 0x40 <= op <= 0x47 {
        inc_reg16(s, i)
    } else if 0x48 <= op <= 0x4F {
        dec_reg16(s, i)
    } else if 0x50 <= op <= 0x57 {
        push_reg16(s, i)
    } else if 0x58 <= op <= 0x5F {
        pop_reg16(s, i)
    } else if op == 0x72 || op == 0x74 || op == 0x75 || op == 0x76 || op == 0x77 || op == 0x79 {
        jump_if(s, i)
    } else {
        unsupported(s)
    }
}

/// Opcodes 0x80..0xFF.
pub open spec fn dispatch_high(s: CpuState, i: X86Instruction) -> CpuState {
    let op = i.op;
    if 0x80 <= op <= 0x83 {
        group1(s, i)
    } else if op == 0x86 {
        xchg_eb_gb(s, i)
    } else if op == 0x88 {
        mov_eb_gb(s, i)
    } else if op == 0x89 {
        mov_ev_gv(s, i)
    } else if op == 0x8A {
        mov_gb_eb(s, i)
    } else if op == 0x8B {
        mov_gv_ev(s, i)
    } else if op == 0x90 {
        s
    } else if op == 0x92 {
        xchg_ax(s, i)
    } else if 0xB0 <= op <= 0xB7 {
        mov_reg8_ib(s, i)
    } else if 0xB8 <= op <= 0xBF {
        mov_reg16_iv(s, i)
    } else if op == 0xC3 {
        ret_near(s)
    } else if op == 0xC6 || op == 0xC7 {
        group_c6(s, i)
    } else if op == 0xE8 {
        call_near(s, i)
    } else if op == 0xEB {
        jmp_short(s, i)
    } else if op == 0xF4 {
        s.with_suspend(true)
    } else if op == 0xF9 {
        s.with_flag(CF_POS as int, 1)
    } else if op == 0xFE {
        group_fe(s, i)
    } else {
        unsupported(s)
    }
}

/// The effect of executing `i` on `s`: the opcode is latched, then the instruction runs.
pub open spec fn execute(s: CpuState, i: X86Instruction) -> CpuState {
    dispatch(s.with_op(i.op), i)
}

/// The instruction touches the stack only where both bytes it uses lie in
/// memory: a push needs SP != 2, a pop needs SP != 0.
pub open spec fn exec_ok(s: CpuState, i: X86Instruction) -> bool {
    stack_ok(s, i.op)
}

/// Opcode `op` finds the stack where it needs it: a push needs SP != 2, a pop needs SP != 0.
pub open spec fn stack_ok(s: CpuState, op: u8) -> bool {
    let sp = s.regs[SP as int];
    &&& (0x50 <= op <= 0x57 || op == 0xE8) ==> sp != 2
    &&& (0x58 <= op <= 0x5F || op == 0xC3) ==> sp != 0
}


// ---------------------------------------------------------------------------
// Laws
// ---------------------------------------------------------------------------

/// A 16-bit value written to an r/m operand is read back from it, provided
/// the instruction reads memory exactly when it writes memory (as every
/// decoded instruction does).
pub proof fn lemma_rm_write_read16(s: CpuState, i: X86Instruction, v: u16)
    requires
        s.wf(),
        reads_memory(i) == (modf(i.mod_reg_rm) < 3),
    ensures
        rm_read16(rm_write16(s, i, v), i) == v,
        rm_write16(s, i, v).wf(),
{
}

/// An 8-bit value written to an r/m operand is read back from it.
pub proof fn lemma_rm_write_read8(s: CpuState, i: X86Instruction, v: u8)
    requires
        s.wf(),
        reads_memory(i) == (modf(i.mod_reg_rm) < 3),
    ensures
        rm_read8(rm_write8(s, i, v), i) == v,
        rm_write8(s, i, v).wf(),
{
}

/// Popping right after pushing `v` gives back `v` and leaves SP and every
/// register as before the push.
pub proof fn lemma_pop_value_of_push(s: CpuState, v: u16)
    requires
        s.wf(),
        s.regs[SP as int] != 2,
    ensures
        push_state(s, v).regs[SP as int] != 0,
        pop_value(push_state(s, v)) == v,
        pop_state(push_state(s, v)).regs == s.regs,
        push_state(s, v).wf(),
{
    let sp = sub16(s.regs[SP as int] as int, 2);
    let t = push_state(s, v);
    assert(t.memory[sp - 1] == (v / 256) as u8);
    assert(t.memory[sp as int] == (v % 256) as u8);
    assert(add16(sp as int, 2) == s.regs[SP as int]);
    assert(pop_state(t).regs =~= s.regs);
}

/// POP after PUSH: the popped register receives the pushed register's value,
/// SP is back where it was, and nothing else but memory changed.
pub proof fn lemma_pop_after_push(s: CpuState, push_i: X86Instruction, pop_i: X86Instruction)
    requires
        s.wf(),
        0x50 <= push_i.op <= 0x57,
        0x58 <= pop_i.op <= 0x5F,
        s.regs[SP as int] != 2,
    ensures
        exec_ok(execute(s, push_i), pop_i),
        execute(execute(s, push_i), pop_i).regs == s.regs.update(
            op_reg(pop_i),
            s.regs[op_reg(push_i)],
        ),
        execute(execute(s, push_i), pop_i).ip == s.ip,
        execute(execute(s, push_i), pop_i).flags == s.flags,
{
    let t = execute(s, push_i);
    let v = s.regs[op_reg(push_i)];
    let sp = sub16(s.regs[SP as int] as int, 2);
    assert(t.memory[sp - 1] == (v / 256) as u8);
    assert(t.memory[sp as int] == (v % 256) as u8);
    assert(pop_value(t) == v);
    assert(add16(sp as int, 2) == s.regs[SP as int]);
    assert(execute(t, pop_i).regs =~= s.regs.update(op_reg(pop_i), v));
}

/// RET after CALL returns to the address after the 3-byte CALL, with SP and
/// every register as before the call.
pub proof fn lemma_ret_after_call(s: CpuState, call_i: X86Instruction, ret_i: X86Instruction)
    requires
        s.wf(),
        call_i.op == 0xE8,
        ret_i.op == 0xC3,
        s.regs[SP as int] != 2,
    ensures
        exec_ok(execute(s, call_i), ret_i),
        execute(execute(s, call_i), ret_i).ip == add16(s.ip as int, 3),
        execute(execute(s, call_i), ret_i).regs == s.regs,
        execute(execute(s, call_i), ret_i).jmp_taken,
{
    let t = execute(s, call_i);
    let v = add16(s.ip as int, 3);
    let sp = sub16(s.regs[SP as int] as int, 2);
    assert(t.memory[sp - 1] == (v / 256) as u8);
    assert(t.memory[sp as int] == (v % 256) as u8);
    assert(pop_value(t) == v);
    assert(add16(sp as int, 2) == s.regs[SP as int]);
    assert(execute(t, ret_i).regs =~= s.regs);
}

/// XCHG AX, DX undoes itself.
pub proof fn lemma_xchg_ax_twice(s: CpuState, i: X86Instruction)
    requires
        s.wf(),
        i.op == 0x92,
    ensures
        execute(execute(s, i), i) == s.with_op(0x92),
{
    assert(execute(execute(s, i), i).regs =~= s.regs);
}

/// DEC of a 16-bit register undoes INC of it.
pub proof fn lemma_dec_after_inc(s: CpuState, inc: X86Instruction, dec: X86Instruction)
    requires
        s.wf(),
        0x40 <= inc.op <= 0x47,
        dec.op == inc.op + 8,
    ensures
        execute(execute(s, inc), dec).regs == s.regs,
{
    let r = op_reg(inc);
    assert(op_reg(dec) == r);
    assert(sub16(add16(s.regs[r] as int, 1) as int, 1) == s.regs[r]);
    assert(execute(execute(s, inc), dec).regs =~= s.regs);
}

/// CMP changes only the flags: registers, memory, IP and the jump mark stay
/// as they were.
pub proof fn lemma_compare_keeps_operands(s: CpuState, i: X86Instruction)
    requires
        s.wf(),
        i.op == 0x39 || i.op == 0x3C || (i.op == 0x81 && regf(i.mod_reg_rm) == 7) || (i.op == 0x83
            && regf(i.mod_reg_rm) == 7),
    ensures
        execute(s, i).regs == s.regs,
        execute(s, i).memory == s.memory,
        execute(s, i).ip == s.ip,
        execute(s, i).jmp_taken == s.jmp_taken,
{
}

/// A taken conditional jump lands on the short target; a jump not taken
/// leaves IP alone.
pub proof fn lemma_jump_if_target(s: CpuState, i: X86Instruction)
    requires
        s.wf(),
        i.op == 0x72 || i.op == 0x74 || i.op == 0x75 || i.op == 0x76 || i.op == 0x77 || i.op == 0x79,
    ensures
        execute(s, i).jmp_taken == jump_condition(s, i.op),
        execute(s, i).ip == if jump_condition(s, i.op) {
            short_target(i)
        } else {
            s.ip
        },
        execute(s, i).regs == s.regs,
        execute(s, i).flags == s.flags,
{
}

/// Two instructions with the same mod-reg-r/m byte, displacement and memory
/// bit name the same r/m operand.
proof fn same_access(t: CpuState, i: X86Instruction, j: X86Instruction)
    requires
        i.mod_reg_rm == j.mod_reg_rm,
        i.disp == j.disp,
        reads_memory(i) == reads_memory(j),
    ensures
        operand_address(t, i) == operand_address(t, j),
        rm_read16(t, i) == rm_read16(t, j),
        rm_read8(t, i) == rm_read8(t, j),
        forall|v: u16| #[trigger] rm_write16(t, i, v) == rm_write16(t, j, v),
        forall|v: u8| #[trigger] rm_write8(t, i, v) == rm_write8(t, j, v),
{
}

proof fn lemma_add_ev_gv_ignores_prefixes(t: CpuState, i: X86Instruction, j: X86Instruction)
    requires
        i.op == j.op,
        i.mod_reg_rm == j.mod_reg_rm,
        i.imm == j.imm,
        i.disp == j.disp,
        i.addr == j.addr,
        i.length == j.length,
        reads_memory(i) == reads_memory(j),
    ensures
        add_ev_gv(t, i) == add_ev_gv(t, j),
{
    same_access(t, i, j);
    same_access(flags_add16(t, t.regs[reg_field(i)], rm_read16(t, i)), i, j);
}

proof fn lemma_or_ev_gv_ignores_prefixes(t: CpuState, i: X86Instruction, j: X86Instruction)
    requires
        i.op == j.op,
        i.mod_reg_rm == j.mod_reg_rm,
        i.imm == j.imm,
        i.disp == j.disp,
        i.addr == j.addr,
        i.length == j.length,
        reads_memory(i) == reads_memory(j),
    ensures
        or_ev_gv(t, i) == or_ev_gv(t, j),
{
    same_access(t, i, j);
    same_access(flags_logic16(t, rm_read16(t, i) | t.regs[reg_field(i)]), i, j);
}

proof fn lemma_and_ev_gv_ignores_prefixes(t: CpuState, i: X86Instruction, j: X86Instruction)
    requires
        i.op == j.op,
        i.mod_reg_rm == j.mod_reg_rm,
        i.imm == j.imm,
        i.disp == j.disp,
        i.addr == j.addr,
        i.length == j.length,
        reads_memory(i) == reads_memory(j),
    ensures
        and_ev_gv(t, i) == and_ev_gv(t, j),
{
    same_access(t, i, j);
    same_access(flags_logic16(t, rm_read16(t, i) & t.regs[reg_field(i)]), i, j);
}

proof fn lemma_sub_ev_gv_ignores_prefixes(t: CpuState, i: X86Instruction, j: X86Instruction)
    requires
        i.op == j.op,
        i.mod_reg_rm == j.mod_reg_rm,
        i.imm == j.imm,
        i.disp == j.disp,
        i.addr == j.addr,
        i.length == j.length,
        reads_memory(i) == reads_memory(j),
    ensures
        sub_ev_gv(t, i) == sub_ev_gv(t, j),
{
    same_access(t, i, j);
    same_access(flags_diff16(t, rm_read16(t, i), t.regs[reg_field(i)]), i, j);
}

proof fn lemma_xor_ev_gv_ignores_prefixes(t: CpuState, i: X86Instruction, j: X86Instruction)
    requires
        i.op == j.op,
        i.mod_reg_rm == j.mod_reg_rm,
        i.imm == j.imm,
        i.disp == j.disp,
        i.addr == j.addr,
        i.length == j.length,
        reads_memory(i) == reads_memory(j),
    ensures
        xor_ev_gv(t, i) == xor_ev_gv(t, j),
{
    same_access(t, i, j);
    same_access(flags_logic16(t, rm_read16(t, i) ^ t.regs[reg_field(i)]), i, j);
}

proof fn lemma_group1_add_ignores_prefixes(t: CpuState, i: X86Instruction, j: X86Instruction)
    requires
        i.op == j.op,
        i.mod_reg_rm == j.mod_reg_rm,
        i.imm == j.imm,
        i.disp == j.disp,
        i.addr == j.addr,
        i.length == j.length,
        reads_memory(i) == reads_memory(j),
    ensures
        group1_add(t, i) == group1_add(t, j),
{
    same_access(t, i, j);
    same_access(flags_add16(t, rm_read16(t, i), group1_imm16(i)), i, j);
    same_access(flags_add8(t, rm_read8(t, i), group1_imm8(i)), i, j);
}

proof fn lemma_group1_or_ignores_prefixes(t: CpuState, i: X86Instruction, j: X86Instruction)
    requires
        i.op == j.op,
        i.mod_reg_rm == j.mod_reg_rm,
        i.imm == j.imm,
        i.disp == j.disp,
        i.addr == j.addr,
        i.length == j.length,
        reads_memory(i) == reads_memory(j),
    ensures
        group1_or(t, i) == group1_or(t, j),
{
    same_access(t, i, j);
    same_access(flags_logic16(t, rm_read16(t, i) | group1_imm16(i)), i, j);
    same_access(flags_logic8(t, rm_read8(t, i) | group1_imm8(i)), i, j);
}

proof fn lemma_group1_and_ignores_prefixes(t: CpuState, i: X86Instruction, j: X86Instruction)
    requires
        i.op == j.op,
        i.mod_reg_rm == j.mod_reg_rm,
        i.imm == j.imm,
        i.disp == j.disp,
        i.addr == j.addr,
        i.length == j.length,
        reads_memory(i) == reads_memory(j),
    ensures
        group1_and(t, i) == group1_and(t, j),
{
    same_access(t, i, j);
    same_access(flags_logic16(t, rm_read16(t, i) & group1_imm16(i)), i, j);
    same_access(flags_logic8(t, rm_read8(t, i) & group1_imm8(i)), i, j);
}

proof fn lemma_group1_sub_ignores_prefixes(t: CpuState, i: X86Instruction, j: X86Instruction)
    requires
        i.op == j.op,
        i.mod_reg_rm == j.mod_reg_rm,
        i.imm == j.imm,
        i.disp == j.disp,
        i.addr == j.addr,
        i.length == j.length,
        reads_memory(i) == reads_memory(j),
    ensures
        group1_sub(t, i) == group1_sub(t, j),
{
    same_access(t, i, j);
    same_access(flags_diff16(t, rm_read16(t, i), group1_imm16(i)), i, j);
    same_access(flags_diff8(t, rm_read8(t, i), group1_imm8(i)), i, j);
}

proof fn lemma_xchg_eb_gb_ignores_prefixes(t: CpuState, i: X86Instruction, j: X86Instruction)
    requires
        i.op == j.op,
        i.mod_reg_rm == j.mod_reg_rm,
        i.imm == j.imm,
        i.disp == j.disp,
        i.addr == j.addr,
        i.length == j.length,
        reads_memory(i) == reads_memory(j),
    ensures
        xchg_eb_gb(t, i) == xchg_eb_gb(t, j),
{
    same_access(t, i, j);
    same_access(t.with_reg8(reg_field(i), rm_read8(t, i)), i, j);
}

proof fn lemma_group_fe_ignores_prefixes(t: CpuState, i: X86Instruction, j: X86Instruction)
    requires
        i.op == j.op,
        i.mod_reg_rm == j.mod_reg_rm,
        i.imm == j.imm,
        i.disp == j.disp,
        i.addr == j.addr,
        i.length == j.length,
        reads_memory(i) == reads_memory(j),
    ensures
        group_fe(t, i) == group_fe(t, j),
{
    same_access(t, i, j);
    same_access(set_sz8(t, sub8(rm_read8(t, i) as int, 1)), i, j);
    same_access(set_sz8(t, add8(rm_read8(t, i) as int, 1)), i, j);
}

/// Segments are not emulated: segment-override prefixes change nothing in
/// what an instruction does. Two instructions that differ only in their
/// prefixes (and in the prefix bit of their flags) have the same effect.
pub proof fn lemma_prefixes_ignored(s: CpuState, i: X86Instruction, j: X86Instruction)
    requires
        i.op == j.op,
        i.mod_reg_rm == j.mod_reg_rm,
        i.imm == j.imm,
        i.disp == j.disp,
        i.addr == j.addr,
        i.length == j.length,
        reads_memory(i) == reads_memory(j),
    ensures
        execute(s, i) == execute(s, j),
{
    let t = s.with_op(i.op);
    same_access(t, i, j);
    lemma_add_ev_gv_ignores_prefixes(t, i, j);
    lemma_or_ev_gv_ignores_prefixes(t, i, j);
    lemma_and_ev_gv_ignores_prefixes(t, i, j);
    lemma_sub_ev_gv_ignores_prefixes(t, i, j);
    lemma_xor_ev_gv_ignores_prefixes(t, i, j);
    lemma_group1_add_ignores_prefixes(t, i, j);
    lemma_group1_or_ignores_prefixes(t, i, j);
    lemma_group1_and_ignores_prefixes(t, i, j);
    lemma_group1_sub_ignores_prefixes(t, i, j);
    lemma_xchg_eb_gb_ignores_prefixes(t, i, j);
    lemma_group_fe_ignores_prefixes(t, i, j);
    assert(dispatch_low(t, i) == dispatch_low(t, j));
    assert(dispatch_high(t, i) == dispatch_high(t, j));
}

// ---------------------------------------------------------------------------
// Instruction implementations
// ---------------------------------------------------------------------------

fn opxx(cpu: &mut Cpu, _instr: &X86Instruction)
    ensures
        final(cpu)@ == unsupported(old(cpu)@),
{
    cpu.set_unop(true);
}

fn op01(cpu: &mut Cpu, instr: &X86Instruction)
    requires
        old(cpu)@.wf(),
    ensures
        final(cpu)@ == add_ev_gv(old(cpu)@, *instr),
{
    let op1 = cpu.get_reg16(regf(instr.mod_reg_rm) as usize);
    let op2 = readmem16(cpu, instr);
    set_flag_add16(cpu, op1, op2);
    writemem16(cpu, instr, wrap_add16(op1, op2));
}

fn op04(cpu: &mut Cpu, instr: &X86Instruction)
    ensures
        final(cpu)@ == add_al_ib(old(cpu)@, *instr),
{
    let dst = cpu.get_reg8(AL);
    let src = (instr.imm % 256) as u8;
    cpu.set_reg8(AL, wrap_add8(dst, src));
    set_flag_add8(cpu, dst, src);
}

fn op05(cpu: &mut Cpu, instr: &X86Instruction)
    ensures
        final(cpu)@ == add_ax_iv(old(cpu)@, *instr),
{
    let dst = cpu.get_reg16(AX);
    let src = instr.imm;
    cpu.set_reg16(AX, wrap_add16(dst, src));
    set_flag_add16(cpu, dst, src);
}

fn op09(cpu: &mut Cpu, instr: &X86Instruction)
    requires
        old(cpu)@.wf(),
    ensures
        final(cpu)@ == or_ev_gv(old(cpu)@, *instr),
{
    let src = cpu.get_reg16(regf(instr.mod_reg_rm) as usize);
    let dst = readmem16(cpu, instr);
    set_flag_or16(cpu, dst, src);
    writemem16(cpu, instr, dst | src);
}

fn op19(cpu: &mut Cpu, instr: &X86Instruction)
    requires
        old(cpu)@.wf(),
    ensures
        final(cpu)@ == sbb_ev_gv(old(cpu)@, *instr),
{
    let op1 = readmem16(cpu, instr);
    let op2 = cpu.get_reg16(regf(instr.mod_reg_rm) as usize);

    let cf = cpu.get_cf();
    let res = wrap_sub16(wrap_sub16(op1, op2), cf as u16);
    assert(res == sub16(op1 as int, op2 + cf)) by {
        vstd::arithmetic::div_mod::lemma_sub_mod_noop(op1 - op2, cf as int, 0x10000);
        vstd::arithmetic::div_mod::lemma_mod_twice(op1 - op2, 0x10000);
    }
    writemem16(cpu, instr, res);
    set_flag_sbb16(cpu, op1, op2, cf);
}

fn op20(cpu: &mut Cpu, instr: &X86Instruction)
    requires
        old(cpu)@.wf(),
    ensures
        final(cpu)@ == and_ev_gv(old(cpu)@, *instr),
{
    let op1 = cpu.get_reg16(regf(instr.mod_reg_rm) as usize);
    let op2 = readmem16(cpu, instr);
    set_flag_and16(cpu, op2, op1);
    writemem16(cpu, instr, op1 & op2);
}

fn op29(cpu: &mut Cpu, instr: &X86Instruction)
    requires
        old(cpu)@.wf(),
    ensures
        final(cpu)@ == sub_ev_gv(old(cpu)@, *instr),
{
    let src = cpu.get_reg16(regf(instr.mod_reg_rm) as usize);
    let dst = readmem16(cpu, instr);
    set_flag16(cpu, dst, src);
    writemem16(cpu, instr, wrap_sub16(dst, src));
}

fn op31(cpu: &mut Cpu, instr: &X86Instruction)
    requires
        old(cpu)@.wf(),
    ensures
        final(cpu)@ == xor_ev_gv(old(cpu)@, *instr),
{
    let src = cpu.get_reg16(regf(instr.mod_reg_rm) as usize);
    let dst = readmem16(cpu, instr);
    set_flag_xor16(cpu, dst, src);
    writemem16(cpu, instr, dst ^ src);
}

fn op39(cpu: &mut Cpu, instr: &X86Instruction)
    requires
        old(cpu)@.wf(),
    ensures
        final(cpu)@ == compare_ev_gv(old(cpu)@, *instr),
{
    let op1 = readmem16(cpu, instr);
    let op2 = cpu.get_reg16(regf(instr.mod_reg_rm) as usize);
    set_flag16(cpu, op1, op2);
}

fn op3c(cpu: &mut Cpu, instr: &X86Instruction)
    ensures
        final(cpu)@ == compare_al_ib(old(cpu)@, *instr),
{
    let op2 = (instr.imm % 256) as u8;
    let op1 = cpu.get_reg8(AL);
    set_flag8(cpu, op1, op2);
}

fn op40(cpu: &mut Cpu, instr: &X86Instruction)
    ensures
        final(cpu)@ == inc_reg16(old(cpu)@, *instr),
{
    proof {
        cpu.lemma_shape();
    }
    let cf = cpu.get_cf();
    let r = (instr.op % 8) as usize;
    let op1 = cpu.get_reg16(r);
    let op2: u16 = 1;

    set_flag_add16(cpu, op1, op2);
    cpu.set_reg16(r, wrap_add16(op1, op2));
    cpu.set_cf(cf);
    assert(cpu@.flags =~= inc_reg16(old(cpu)@, *instr).flags);
}

fn op4b(cpu: &mut Cpu, instr: &X86Instruction)
    ensures
        final(cpu)@ == dec_reg16(old(cpu)@, *instr),
{
    proof {
        cpu.lemma_shape();
    }
    let cf = cpu.get_cf();
    let r = (instr.op % 8) as usize;
    let op1 = cpu.get_reg16(r);
    let op2: u16 = 1;

    set_flag_sub16(cpu, op1, op2);
    cpu.set_reg16(r, wrap_sub16(op1, op2));
    cpu.set_cf(cf);
    assert(cpu@.flags =~= dec_reg16(old(cpu)@, *instr).flags);
}

fn op51(cpu: &mut Cpu, instr: &X86Instruction)
    requires
        old(cpu)@.wf(),
        old(cpu)@.regs[SP as int] != 2,
    ensures
        final(cpu)@ == push_reg16(old(cpu)@, *instr),
{
    let val = cpu.get_reg16((instr.op % 8) as usize);
    push(cpu, val);
}

fn op58(cpu: &mut Cpu, instr: &X86Instruction)
    requires
        old(cpu)@.wf(),
        old(cpu)@.regs[SP as int] != 0,
    ensures
        final(cpu)@ == pop_reg16(old(cpu)@, *instr),
{
    let val = pop(cpu);
    cpu.set_reg16((instr.op % 8) as usize, val);
}

fn short_jump_target(instr: &X86Instruction) -> (r: u16)
    ensures
        r == short_target(*instr),
{
    let b = (instr.imm % 256) as usize;
    let a = instr.addr % 0x10000;
    let l = instr.length % 0x10000;
    let t = if b >= 128 {
        a + l + 0x10000 + b - 256
    } else {
        a + l + b
    };
    proof {
        vstd::arithmetic::div_mod::lemma_add_mod_noop(instr.addr as int, instr.length as int, 0x10000);
        vstd::arithmetic::div_mod::lemma_add_mod_noop(
            instr.addr + instr.length,
            sext8(b as int),
            0x10000,
        );
        vstd::arithmetic::div_mod::lemma_add_mod_noop(
            (instr.addr % 0x10000) + (instr.length % 0x10000),
            sext8(b as int),
            0x10000,
        );
        if b >= 128 {
            vstd::arithmetic::div_mod::lemma_mod_add_multiples_vanish(a + l + b - 256, 0x10000);
        }
    }
    (t % 0x10000) as u16
}

fn near_jump_target(instr: &X86Instruction) -> (r: u16)
    ensures
        r == near_target(*instr),
{
    let a = instr.addr % 0x10000;
    let l = instr.length % 0x10000;
    let t = a + l + instr.imm as usize;
    proof {
        vstd::arithmetic::div_mod::lemma_add_mod_noop(instr.addr as int, instr.length as int, 0x10000);
        vstd::arithmetic::div_mod::lemma_add_mod_noop(
            instr.addr + instr.length,
            instr.imm as int,
            0x10000,
        );
        vstd::arithmetic::div_mod::lemma_add_mod_noop(
            (instr.addr % 0x10000) + (instr.length % 0x10000),
            instr.imm as int,
            0x10000,
        );
    }
    (t % 0x10000) as u16
}

/// JB/JNAE/JC Jbs
fn op72(cpu: &mut Cpu, instr: &X86Instruction)
    requires
        instr.op == 0x72,
    ensures
        final(cpu)@ == jump_if(old(cpu)@, *instr),
{
    cpu.set_jmp_taken(false);

    if cpu.get_cf() == 1 {
        cpu.set_ip(short_jump_target(instr));
        cpu.set_jmp_taken(true);
    }
}

/// JZ/JE Jbs
fn op74(cpu: &mut Cpu, instr: &X86Instruction)
    requires
        instr.op == 0x74,
    ensures
        final(cpu)@ == jump_if(old(cpu)@, *instr),
{
    cpu.set_jmp_taken(false);

    if cpu.get_zf() == 1 {
        cpu.set_ip(short_jump_target(instr));
        cpu.set_jmp_taken(true);
    }
}

/// JNZ/JNE Jbs
fn op75(cpu: &mut Cpu, instr: &X86Instruction)
    requires
        instr.op == 0x75,
    ensures
        final(cpu)@ == jump_if(old(cpu)@, *instr),
{
    cpu.set_jmp_taken(false);

    if cpu.get_zf() == 0 {
        cpu.set_ip(short_jump_target(instr));
        cpu.set_jmp_taken(true);
    }
}

/// JBE/JNA Jbs
fn op76(cpu: &mut Cpu, instr: &X86Instruction)
    requires
        instr.op == 0x76,
    ensures
        final(cpu)@ == jump_if(old(cpu)@, *instr),
{
    cpu.set_jmp_taken(false);

    if cpu.get_cf() == 1 || cpu.get_zf() == 1 {
        cpu.set_ip(short_jump_target(instr));
        cpu.set_jmp_taken(true);
    }
}

/// JNBE/JA Jbs
fn op77(cpu: &mut Cpu, instr: &X86Instruction)
    requires
        instr.op == 0x77,
    ensures
        final(cpu)@ == jump_if(old(cpu)@, *instr),
{
    cpu.set_jmp_taken(false);

    if cpu.get_cf() == 0 && cpu.get_zf() == 0 {
        cpu.set_ip(short_jump_target(instr));
        cpu.set_jmp_taken(true);
    }
}

/// JNS Jbs
fn op79(cpu: &mut Cpu, instr: &X86Instruction)
    requires
        instr.op == 0x79,
    ensures
        final(cpu)@ == jump_if(old(cpu)@, *instr),
{
    cpu.set_jmp_taken(false);

    if cpu.get_sf() == 0 {
        cpu.set_ip(short_jump_target(instr));
        cpu.set_jmp_taken(true);
    }
}

fn group1_imm16_of(instr: &X86Instruction) -> (r: u16)
    ensures
        r == group1_imm16(*instr),
{
    let mut imm = instr.imm;
    if instr.op & 0x02 == 0x02 {
        imm = if imm & 0x80 == 0x80 {
            imm | 0xFF00
        } else {
            imm
        };
    }
    imm
}

fn group1_imm8_of(instr: &X86Instruction) -> (r: u8)
    ensures
        r == group1_imm8(*instr),
{
    (instr.imm % 256) as u8
}

/// SUB Ev, Ibs
fn op81_sub(cpu: &mut Cpu, instr: &X86Instruction)
    requires
        old(cpu)@.wf(),
    ensures
        final(cpu)@ == group1_sub(old(cpu)@, *instr),
{
    if instr.op & 1 == 1 {
        let imm = group1_imm16_of(instr);
        let dst = readmem16(cpu, instr);
        set_flag16(cpu, dst, imm);
        writemem16(cpu, instr, wrap_sub16(dst, imm));
    } else {
        let imm = group1_imm8_of(instr);
        let dst = readmem8(cpu, instr);
        set_flag8(cpu, dst, imm);
        writemem8(cpu, instr, wrap_sub8(dst, imm));
    }
}

/// OR Eb, Ib
fn op81_or(cpu: &mut Cpu, instr: &X86Instruction)
    requires
        old(cpu)@.wf(),
    ensures
        final(cpu)@ == group1_or(old(cpu)@, *instr),
{
    if instr.op & 1 == 1 {
        let imm = group1_imm16_of(instr);
        let dst = readmem16(cpu, instr);
        set_flag_or16(cpu, dst, imm);
        writemem16(cpu, instr, dst | imm);
    } else {
        let imm = group1_imm8_of(instr);
        let dst = readmem8(cpu, instr);
        set_flag_or8(cpu, dst, imm);
        writemem8(cpu, instr, dst | imm);
    }
}

/// AND Eb, Ibs
fn op81_and(cpu: &mut Cpu, instr: &X86Instruction)
    requires
        old(cpu)@.wf(),
    ensures
        final(cpu)@ == group1_and(old(cpu)@, *instr),
{
    if instr.op & 1 == 1 {
        let imm = group1_imm16_of(instr);
        let dst = readmem16(cpu, instr);
        set_flag_and16(cpu, dst, imm);
        writemem16(cpu, instr, dst & imm);
    } else {
        let imm = group1_imm8_of(instr);
        let dst = readmem8(cpu, instr);
        set_flag_and8(cpu, dst, imm);
        writemem8(cpu, instr, dst & imm);
    }
}

/// ADC Ev, Ibs
fn op81_adc(cpu: &mut Cpu, instr: &X86Instruction)
    requires
        old(cpu)@.wf(),
    ensures
        final(cpu)@ == group1_adc(old(cpu)@, *instr),
{
    if instr.op & 1 == 1 {
        let imm = group1_imm16_of(instr);
        let dst = readmem16(cpu, instr);
        let cf = cpu.get_cf();
        let res = wrap_add16(wrap_add16(dst, imm), cf as u16);
        assert(res == add16(dst + imm, cf as int));
        writemem16(cpu, instr, res);
        set_flag_adc16(cpu, dst, imm, cf);
    } else {
        let imm = group1_imm8_of(instr);
        let dst = readmem8(cpu, instr);
        let cf = cpu.get_cf();
        let res = wrap_add8(wrap_add8(dst, imm), cf);
        assert(res == add8(dst + imm, cf as int));
        writemem8(cpu, instr, res);
        set_flag_adc8(cpu, dst, imm, cf);
    }
}

/// ADD Eb, Ib
fn op81_add(cpu: &mut Cpu, instr: &X86Instruction)
    requires
        old(cpu)@.wf(),
    ensures
        final(cpu)@ == group1_add(old(cpu)@, *instr),
{
    if instr.op & 1 == 1 {
        let imm = group1_imm16_of(instr);
        let dst = readmem16(cpu, instr);
        set_flag_add16(cpu, dst, imm);
        writemem16(cpu, instr, wrap_add16(dst, imm));
    } else {
        let imm = group1_imm8_of(instr);
        let dst = readmem8(cpu, instr);
        set_flag_add8(cpu, dst, imm);
        writemem8(cpu, instr, wrap_add8(dst, imm));
    }
}

/// CMP Ev, Iv
fn op81_compare(cpu: &mut Cpu, instr: &X86Instruction)
    requires
        old(cpu)@.wf(),
    ensures
        final(cpu)@ == group1_compare(old(cpu)@, *instr),
{
    if instr.op & 0x01 == 0x01 {
        let imm = group1_imm16_of(instr);
        let op1 = readmem16(cpu, instr);
        set_flag16(cpu, op1, imm);
    } else {
        opxx(cpu, instr);
    }
}

/// Group 1: ADD, OR, ADC, -, AND, SUB, -, CMP by the `reg` field.
fn op81(cpu: &mut Cpu, instr: &X86Instruction)
    requires
        old(cpu)@.wf(),
    ensures
        final(cpu)@ == group1(old(cpu)@, *instr),
        final(cpu)@.wf(),
{
    match regf(instr.mod_reg_rm) {
        0 => op81_add(cpu, instr),
        1 => op81_or(cpu, instr),
        2 => op81_adc(cpu, instr),
        4 => op81_and(cpu, instr),
        5 => op81_sub(cpu, instr),
        7 => op81_compare(cpu, instr),
        _ => opxx(cpu, instr),
    }
}

/// XCHG Eb, Gb
fn op86(cpu: &mut Cpu, instr: &X86Instruction)
    requires
        old(cpu)@.wf(),
    ensures
        final(cpu)@ == xchg_eb_gb(old(cpu)@, *instr),
        final(cpu)@.wf(),
{
    let op1 = cpu.get_reg8(regf(instr.mod_reg_rm) as usize);
    let op2 = readmem8(cpu, instr);
    cpu.set_reg8(regf(instr.mod_reg_rm) as usize, op2);
    writemem8(cpu, instr, op1);
}

/// MOV Eb, Gb
fn op88(cpu: &mut Cpu, instr: &X86Instruction)
    requires
        old(cpu)@.wf(),
    ensures
        final(cpu)@ == mov_eb_gb(old(cpu)@, *instr),
{
    let val = cpu.get_reg8(regf(instr.mod_reg_rm) as usize);
    writemem8(cpu, instr, val);
}

/// MOV Ev, Gv
fn op89(cpu: &mut Cpu, instr: &X86Instruction)
    requires
        old(cpu)@.wf(),
    ensures
        final(cpu)@ == mov_ev_gv(old(cpu)@, *instr),
{
    let val = cpu.get_reg16(regf(instr.mod_reg_rm) as usize);
    writemem16(cpu, instr, val);
}

/// MOV Gb, Eb
fn op8a(cpu: &mut Cpu, instr: &X86Instruction)
    requires
        old(cpu)@.wf(),
    ensures
        final(cpu)@ == mov_gb_eb(old(cpu)@, *instr),
{
    let val = readmem8(cpu, instr);
    cpu.set_reg8(regf(instr.mod_reg_rm) as usize, val);
}

/// NOP
fn op90(_cpu: &mut Cpu, _instr: &X86Instruction)
    ensures
        final(_cpu)@ == old(_cpu)@,
{
}

/// XCHG AX, Zv
fn op92(cpu: &mut Cpu, instr: &X86Instruction)
    ensures
        final(cpu)@ == xchg_ax(old(cpu)@, *instr),
{
    let r = (instr.op % 8) as usize;
    let dst = cpu.get_reg16(AX);
    let src = cpu.get_reg16(r);
    cpu.set_reg16(AX, src);
    cpu.set_reg16(r, dst);
}

/// MOV Gv, Ev
fn op8b(cpu: &mut Cpu, instr: &X86Instruction)
    requires
        old(cpu)@.wf(),
    ensures
        final(cpu)@ == mov_gv_ev(old(cpu)@, *instr),
{
    let val = readmem16(cpu, instr);
    cpu.set_reg16(regf(instr.mod_reg_rm) as usize, val);
}

/// MOV Zv, Iv
fn opbc(cpu: &mut Cpu, instr: &X86Instruction)
    ensures
        final(cpu)@ == mov_reg16_iv(old(cpu)@, *instr),
{
    cpu.set_reg16((instr.op % 8) as usize, instr.imm);
}

/// MOV Zb, Ib
fn opb0(cpu: &mut Cpu, instr: &X86Instruction)
    ensures
        final(cpu)@ == mov_reg8_ib(old(cpu)@, *instr),
{
    cpu.set_reg8((instr.op % 8) as usize, (instr.imm % 256) as u8);
}

/// RETN
fn opc3(cpu: &mut Cpu, _instr: &X86Instruction)
    requires
        old(cpu)@.wf(),
        old(cpu)@.regs[SP as int] != 0,
    ensures
        final(cpu)@ == ret_near(old(cpu)@),
{
    let ip = pop(cpu);
    cpu.set_ip(ip);
    cpu.set_jmp_taken(true);
}

/// MOV Ev, Iv / MOV Eb, Ib
fn opc6_mov(cpu: &mut Cpu, instr: &X86Instruction)
    requires
        old(cpu)@.wf(),
        regf(instr.mod_reg_rm) == 0,
    ensures
        final(cpu)@ == group_c6(old(cpu)@, *instr),
        final(cpu)@.wf(),
{
    if instr.op & 0x01 == 0x01 {
        writemem16(cpu, instr, instr.imm);
    } else {
        writemem8(cpu, instr, (instr.imm % 256) as u8);
    }
}

fn opc6(cpu: &mut Cpu, instr: &X86Instruction)
    requires
        old(cpu)@.wf(),
    ensures
        final(cpu)@ == group_c6(old(cpu)@, *instr),
        final(cpu)@.wf(),
{
    if regf(instr.mod_reg_rm) == 0 {
        opc6_mov(cpu, instr);
    } else {
        opxx(cpu, instr);
    }
}

/// CALL Jv
fn ope8(cpu: &mut Cpu, instr: &X86Instruction)
    requires
        old(cpu)@.wf(),
        old(cpu)@.regs[SP as int] != 2,
    ensures
        final(cpu)@ == call_near(old(cpu)@, *instr),
{
    let ip = cpu.get_ip();
    push(cpu, wrap_add16(ip, 3));
    cpu.set_ip(near_jump_target(instr));
    cpu.set_jmp_taken(true);
}

/// JMP Jbs
fn opeb(cpu: &mut Cpu, instr: &X86Instruction)
    ensures
        final(cpu)@ == jmp_short(old(cpu)@, *instr),
{
    cpu.set_ip(short_jump_target(instr));
    cpu.set_jmp_taken(true);
}

/// HLT
fn opf4(cpu: &mut Cpu, _instr: &X86Instruction)
    ensures
        final(cpu)@ == old(cpu)@.with_suspend(true),
{
    cpu.set_suspend(true);
}

/// STC
fn opf9(cpu: &mut Cpu, _instr: &X86Instruction)
    ensures
        final(cpu)@ == old(cpu)@.with_flag(CF_POS as int, 1),
{
    cpu.set_cf(1);
}

/// INC Eb
fn opfe_add8(cpu: &mut Cpu, instr: &X86Instruction)
    requires
        old(cpu)@.wf(),
    ensures
        final(cpu)@ == ({
            let r = add8(rm_read8(old(cpu)@, *instr) as int, 1);
            rm_write8(set_sz8(old(cpu)@, r), *instr, r)
        }),
{
    proof {
        cpu.lemma_shape();
    }
    let cf = cpu.get_cf();
    let op1 = readmem8(cpu, instr);
    let op2: u8 = 1;

    set_flag_add8(cpu, op1, op2);
    writemem8(cpu, instr, wrap_add8(op1, op2));
    cpu.set_cf(cf);
    assert(cpu@.flags =~= set_sz8(old(cpu)@, add8(op1 as int, 1)).flags);
}

/// DEC Eb
fn opfe_sub8(cpu: &mut Cpu, instr: &X86Instruction)
    requires
        old(cpu)@.wf(),
    ensures
        final(cpu)@ == ({
            let d = sub8(rm_read8(old(cpu)@, *instr) as int, 1);
            rm_write8(set_sz8(old(cpu)@, d), *instr, d)
        }),
{
    proof {
        cpu.lemma_shape();
    }
    let cf = cpu.get_cf();
    let op1 = readmem8(cpu, instr);
    let op2: u8 = 1;

    set_flag8(cpu, op1, op2);
    writemem8(cpu, instr, wrap_sub8(op1, op2));
    cpu.set_cf(cf);
    assert(cpu@.flags =~= set_sz8(old(cpu)@, sub8(op1 as int, 1)).flags);
}

/// INC Eb / DEC Eb
fn opfe(cpu: &mut Cpu, instr: &X86Instruction)
    requires
        old(cpu)@.wf(),
    ensures
        final(cpu)@ == group_fe(old(cpu)@, *instr),
        final(cpu)@.wf(),
{
    match regf(instr.mod_reg_rm) {
        0 => {
            if instr.op & 0x01 == 0x01 {
                opxx(cpu, instr);
            } else {
                opfe_add8(cpu, instr);
            }
        },
        1 => {
            if instr.op & 0x01 == 0x01 {
                opxx(cpu, instr);
            } else {
                opfe_sub8(cpu, instr);
            }
        },
        _ => {
            opxx(cpu, instr);
        },
    }
}

/// Executes one decoded instruction.
pub fn exec(cpu: &mut Cpu, instr: &X86Instruction)
    requires
        old(cpu)@.wf(),
        exec_ok(old(cpu)@, *instr),
    ensures
        final(cpu)@ == execute(old(cpu)@, *instr),
        final(cpu)@.wf(),
{
    cpu.set_op(instr.op);
    if instr.op < 0x80 {
        exec_low(cpu, instr);
    } else {
        exec_high(cpu, instr);
    }
}

#[verifier::rlimit(40)]
fn exec_low(cpu: &mut Cpu, instr: &X86Instruction)
    requires
        old(cpu)@.wf(),
        exec_ok(old(cpu)@, *instr),
        instr.op < 0x80,
    ensures
        final(cpu)@ == dispatch_low(old(cpu)@, *instr),
        final(cpu)@.wf(),
{
    match instr.op {
        0x01 => op01(cpu, instr),
        0x04 => op04(cpu, instr),
        0x05 => op05(cpu, instr),
        0x09 => op09(cpu, instr),
        0x19 => op19(cpu, instr),
        0x20 => op20(cpu, instr),
        0x29 => op29(cpu, instr),
        0x31 => op31(cpu, instr),
        0x39 => op39(cpu, instr),
        0x3C => op3c(cpu, instr),
        0x40..=0x47 => op40(cpu, instr),
        0x48..=0x4F => op4b(cpu, instr),
        0x50..=0x57 => op51(cpu, instr),
        0x58..=0x5F => op58(cpu, instr),
        0x72 => op72(cpu, instr),
        0x74 => op74(cpu, instr),
        0x75 => op75(cpu, instr),
        0x76 => op76(cpu, instr),
        0x77 => op77(cpu, instr),
        0x79 => op79(cpu, instr),
        _ => opxx(cpu, instr),
    }
}

#[verifier::rlimit(40)]
fn exec_high(cpu: &mut Cpu, instr: &X86Instruction)
    requires
        old(cpu)@.wf(),
        exec_ok(old(cpu)@, *instr),
        instr.op >= 0x80,
    ensures
        final(cpu)@ == dispatch_high(old(cpu)@, *instr),
        final(cpu)@.wf(),
{
    match instr.op {
        0x80..=0x83 => op81(cpu, instr),
        0x86 => op86(cpu, instr),
        0x88 => op88(cpu, instr),
        0x89 => op89(cpu, instr),
        0x8A => op8a(cpu, instr),
        0x8B => op8b(cpu, instr),
        0x90 => op90(cpu, instr),
        0x92 => op92(cpu, instr),
        0xB0..=0xB7 => opb0(cpu, instr),
        0xB8..=0xBF => opbc(cpu, instr),
        0xC3 => opc3(cpu, instr),
        0xC6 | 0xC7 => opc6(cpu, instr),
        0xE8 => ope8(cpu, instr),
        0xEB => opeb(cpu, instr),
        0xF4 => opf4(cpu, instr),
        0xF9 => opf9(cpu, instr),
        0xFE => opfe(cpu, instr),
        _ => opxx(cpu, instr),
    }
}

} // verus!
