//! What each supported instruction does, stated over the operands it reads
//! and the state it leaves, in plain integer arithmetic.
use vstd::prelude::*;
use crate::cpu::{CpuState, AX, BX, SP, BP, SI, DI, CF_POS, OF_POS, ZF_POS, SF_POS};
use crate::cpu_exec::{
    execute, effective_address, rm_read16, rm_read8, rm_write16, rm_write8,
    lemma_rm_write_read16, lemma_rm_write_read8,
};
use crate::mca8086::{X86Instruction, modf, regf, rmf};

verus! {

/// ZF and SF as a 16-bit result `r` sets them.
pub open spec fn zs16(t: CpuState, r: int) -> bool {
    &&& t.flags[ZF_POS as int] == (if r == 0 { 1u8 } else { 0u8 })
    &&& t.flags[SF_POS as int] == (if r >= 0x8000 { 1u8 } else { 0u8 })
}

/// ZF and SF as an 8-bit result `r` sets them.
pub open spec fn zs8(t: CpuState, r: int) -> bool {
    &&& t.flags[ZF_POS as int] == (if r == 0 { 1u8 } else { 0u8 })
    &&& t.flags[SF_POS as int] == (if r >= 0x80 { 1u8 } else { 0u8 })
}

/// The instruction reads its r/m operand from memory exactly when it writes
/// it to memory, as every decoded instruction does.
pub open spec fn operand_consistent(i: X86Instruction) -> bool {
    (i.instr_flags & 4 == 4) == (modf(i.mod_reg_rm) < 3)
}

/// The flags other than positions `a`, `b`, `c`, `d` are as before.
pub open spec fn flags_kept_but(s: CpuState, t: CpuState, a: int, b: int, c: int, d: int) -> bool {
    &&& t.flags.len() == 16
    &&& forall|k: int|
        0 <= k < 16 && k != a && k != b && k != c && k != d ==> #[trigger] t.flags[k] == s.flags[k]
}

/// The opcode is latched; IP, the jump, halt and unsupported marks and the
/// segment registers are as before.
pub open spec fn control_kept(s: CpuState, t: CpuState, i: X86Instruction) -> bool {
    &&& t.op == i.op
    &&& t.ip == s.ip
    &&& t.jmp_taken == s.jmp_taken
    &&& t.hlt_suspend == s.hlt_suspend
    &&& t.unsupported_op == s.unsupported_op
    &&& t.segregs == s.segregs
}

/// `t` is `s` with the word `r` written to the r/m operand: little-endian at
/// the effective address for mod < 3, else into register r/m.
pub open spec fn word_written(s: CpuState, t: CpuState, i: X86Instruction, r: int) -> bool {
    let m = i.mod_reg_rm;
    let ea = effective_address(s, i, modf(m), rmf(m));
    if modf(m) < 3 {
        t.memory == s.memory.update(ea, (r % 256) as u8).update(ea + 1, (r / 256) as u8) && t.regs
            == s.regs
    } else {
        t.regs == s.regs.update(rmf(m) as int, r as u16) && t.memory == s.memory
    }
}

/// `t` is `s` with the byte `r` written to the r/m operand: at the effective
/// address for mod < 3, else into the byte register r/m.
pub open spec fn byte_written(s: CpuState, t: CpuState, i: X86Instruction, r: int) -> bool {
    let m = i.mod_reg_rm;
    let ea = effective_address(s, i, modf(m), rmf(m));
    let g = rmf(m) as int;
    if modf(m) < 3 {
        t.memory == s.memory.update(ea, r as u8) && t.regs == s.regs
    } else if g < 4 {
        t.regs == s.regs.update(g, ((s.regs[g] / 256) * 256 + r) as u16) && t.memory == s.memory
    } else {
        t.regs == s.regs.update(g - 4, (r * 256 + s.regs[g - 4] % 256) as u16) && t.memory
            == s.memory
    }
}

/// The 16-bit register named by the `reg` field.
pub open spec fn reg_value(s: CpuState, i: X86Instruction) -> int {
    s.regs[regf(i.mod_reg_rm) as int] as int
}

// ---------------------------------------------------------------------------
// Operands
// ---------------------------------------------------------------------------

/// The 8086 effective address (without segments): the base is BX+SI, BX+DI,
/// BP+SI, BP+DI (sums taken modulo 0x10000), SI, DI, BP or BX by r/m; mod = 0
/// uses the base alone, except r/m = 6, which is the direct address `disp`;
/// mod = 1 and mod = 2 add the displacement to the base.
pub proof fn law_effective_address(s: CpuState, i: X86Instruction, md: u8, rm: u8)
    requires
        s.wf(),
        md < 3,
        rm < 8,
    ensures
        ({
            let bx = s.regs[BX as int] as int;
            let bp = s.regs[BP as int] as int;
            let si = s.regs[SI as int] as int;
            let di = s.regs[DI as int] as int;
            let base = if rm == 0 {
                (bx + si) % 0x10000
            } else if rm == 1 {
                (bx + di) % 0x10000
            } else if rm == 2 {
                (bp + si) % 0x10000
            } else if rm == 3 {
                (bp + di) % 0x10000
            } else if rm == 4 {
                si
            } else if rm == 5 {
                di
            } else if rm == 6 {
                bp
            } else {
                bx
            };
            &&& md == 0 && rm != 6 ==> effective_address(s, i, md, rm) == base
            &&& md == 0 && rm == 6 ==> effective_address(s, i, md, rm) == i.disp
            &&& md != 0 ==> effective_address(s, i, md, rm) == base + i.disp
        }),
{
}

/// The r/m operand: the little-endian word (or the byte) at the effective
/// address when the displacement bit (4) of `instr_flags` is set, else
/// register r/m (for bytes:
/// AL, CL, DL, BL, AH, CH, DH, BH).
pub proof fn law_operand_read(s: CpuState, i: X86Instruction)
    requires
        s.wf(),
    ensures
        ({
            let m = i.mod_reg_rm;
            let ea = effective_address(s, i, modf(m), rmf(m));
            let rm = rmf(m) as int;
            let mem = i.instr_flags & 4 == 4;
            &&& mem ==> rm_read16(s, i) == s.memory[ea] + 256 * s.memory[ea + 1]
            &&& mem ==> rm_read8(s, i) == s.memory[ea]
            &&& !mem ==> rm_read16(s, i) == s.regs[rm]
            &&& !mem && rm < 4 ==> rm_read8(s, i) == s.regs[rm] % 256
            &&& !mem && rm >= 4 ==> rm_read8(s, i) == s.regs[rm - 4] / 256
        }),
{
}

/// Writing the r/m operand: with mod < 3 the word goes little-endian to the
/// effective address (a byte to the address itself) and nothing else
/// changes; with mod = 3 register r/m (its low or high byte for bytes) gets
/// the value.
pub proof fn law_operand_write(s: CpuState, i: X86Instruction, w: u16, b: u8)
    requires
        s.wf(),
    ensures
        ({
            let m = i.mod_reg_rm;
            let ea = effective_address(s, i, modf(m), rmf(m));
            let rm = rmf(m) as int;
            let t16 = rm_write16(s, i, w);
            let t8 = rm_write8(s, i, b);
            &&& modf(m) < 3 ==> t16.memory == s.memory.update(ea, (w % 256) as u8).update(
                ea + 1,
                (w / 256) as u8,
            ) && t16.regs == s.regs && t16.flags == s.flags
            &&& modf(m) < 3 ==> t8.memory == s.memory.update(ea, b) && t8.regs == s.regs
                && t8.flags == s.flags
            &&& modf(m) == 3 ==> t16.regs == s.regs.update(rm, w) && t16.memory == s.memory
                && t16.flags == s.flags
            &&& modf(m) == 3 && rm < 4 ==> t8.regs == s.regs.update(
                rm,
                ((s.regs[rm] / 256) * 256 + b) as u16,
            ) && t8.memory == s.memory
            &&& modf(m) == 3 && rm >= 4 ==> t8.regs == s.regs.update(
                rm - 4,
                (b * 256 + s.regs[rm - 4] % 256) as u16,
            ) && t8.memory == s.memory
        }),
{
}


// ---------------------------------------------------------------------------
// Arithmetic and logic on Ev, Gv
// ---------------------------------------------------------------------------

/// ADD Ev, Gv (0x01): the written word plus CF * 0x10000 is the sum of the
/// two operands; ZF and SF come from the written word.
pub proof fn law_add_ev_gv(s: CpuState, i: X86Instruction)
    requires
        s.wf(),
        i.op == 0x01,
        operand_consistent(i),
    ensures
        ({
            let t = execute(s, i);
            let r = rm_read16(t, i) as int;
            &&& r + t.flags[CF_POS as int] * 0x10000 == rm_read16(s, i) + reg_value(s, i)
            &&& zs16(t, r)
            &&& word_written(s, t, i, rm_read16(t, i) as int)
            &&& flags_kept_but(s, t, CF_POS as int, ZF_POS as int, SF_POS as int, CF_POS as int)
            &&& control_kept(s, t, i)
        }),
{
    let s1 = s.with_op(i.op);
    let a = rm_read16(s1, i);
    let b = s1.regs[regf(i.mod_reg_rm) as int];
    let f = crate::cpu_exec::flags_add16(s1, b, a);
    lemma_rm_write_read16(f, i, crate::cpu_exec::add16(b as int, a as int));
}

/// OR Ev, Gv (0x09): the written word is the bitwise OR; CF and OF are cleared.
pub proof fn law_or_ev_gv(s: CpuState, i: X86Instruction)
    requires
        s.wf(),
        i.op == 0x09,
        operand_consistent(i),
    ensures
        ({
            let t = execute(s, i);
            let r = rm_read16(t, i);
            &&& r == rm_read16(s, i) | (reg_value(s, i) as u16)
            &&& t.flags[CF_POS as int] == 0 && t.flags[OF_POS as int] == 0
            &&& zs16(t, r as int)
            &&& word_written(s, t, i, rm_read16(t, i) as int)
            &&& flags_kept_but(s, t, CF_POS as int, ZF_POS as int, SF_POS as int, OF_POS as int)
            &&& control_kept(s, t, i)
        }),
{
    let s1 = s.with_op(i.op);
    let v = rm_read16(s1, i) | s1.regs[regf(i.mod_reg_rm) as int];
    lemma_rm_write_read16(crate::cpu_exec::flags_logic16(s1, v), i, v);
}

/// AND Ev, Gv (0x20): the written word is the bitwise AND; CF and OF are cleared.
pub proof fn law_and_ev_gv(s: CpuState, i: X86Instruction)
    requires
        s.wf(),
        i.op == 0x20,
        operand_consistent(i),
    ensures
        ({
            let t = execute(s, i);
            let r = rm_read16(t, i);
            &&& r == rm_read16(s, i) & (reg_value(s, i) as u16)
            &&& t.flags[CF_POS as int] == 0 && t.flags[OF_POS as int] == 0
            &&& zs16(t, r as int)
            &&& word_written(s, t, i, rm_read16(t, i) as int)
            &&& flags_kept_but(s, t, CF_POS as int, ZF_POS as int, SF_POS as int, OF_POS as int)
            &&& control_kept(s, t, i)
        }),
{
    let s1 = s.with_op(i.op);
    let a = rm_read16(s1, i);
    let b = s1.regs[regf(i.mod_reg_rm) as int];
    assert((a & b) == (b & a)) by (bit_vector);
    lemma_rm_write_read16(crate::cpu_exec::flags_logic16(s1, a & b), i, b & a);
}

/// XOR Ev, Gv (0x31): the written word is the bitwise XOR; CF and OF are cleared.
pub proof fn law_xor_ev_gv(s: CpuState, i: X86Instruction)
    requires
        s.wf(),
        i.op == 0x31,
        operand_consistent(i),
    ensures
        ({
            let t = execute(s, i);
            let r = rm_read16(t, i);
            &&& r == rm_read16(s, i) ^ (reg_value(s, i) as u16)
            &&& t.flags[CF_POS as int] == 0 && t.flags[OF_POS as int] == 0
            &&& zs16(t, r as int)
            &&& word_written(s, t, i, rm_read16(t, i) as int)
            &&& flags_kept_but(s, t, CF_POS as int, ZF_POS as int, SF_POS as int, OF_POS as int)
            &&& control_kept(s, t, i)
        }),
{
    let s1 = s.with_op(i.op);
    let v = rm_read16(s1, i) ^ s1.regs[regf(i.mod_reg_rm) as int];
    lemma_rm_write_read16(crate::cpu_exec::flags_logic16(s1, v), i, v);
}

/// SUB Ev, Gv (0x29): the written word minus CF * 0x10000 is r/m minus reg;
/// CF is the borrow; ZF and SF come from the written word.
pub proof fn law_sub_ev_gv(s: CpuState, i: X86Instruction)
    requires
        s.wf(),
        i.op == 0x29,
        operand_consistent(i),
    ensures
        ({
            let t = execute(s, i);
            let r = rm_read16(t, i) as int;
            &&& r - t.flags[CF_POS as int] * 0x10000 == rm_read16(s, i) - reg_value(s, i)
            &&& t.flags[CF_POS as int] == (if rm_read16(s, i) < reg_value(s, i) { 1u8 } else { 0u8 })
            &&& zs16(t, r)
            &&& word_written(s, t, i, rm_read16(t, i) as int)
            &&& flags_kept_but(s, t, CF_POS as int, ZF_POS as int, SF_POS as int, CF_POS as int)
            &&& control_kept(s, t, i)
        }),
{
    let s1 = s.with_op(i.op);
    let a = rm_read16(s1, i);
    let b = s1.regs[regf(i.mod_reg_rm) as int];
    lemma_rm_write_read16(crate::cpu_exec::flags_diff16(s1, a, b), i, crate::cpu_exec::sub16(a as int, b as int));
}

/// SBB Ev, Gv (0x19): with CF = c (0 or 1) on entry, the written word minus
/// CF * 0x10000 is r/m minus reg minus c; ZF and SF come from the written word.
pub proof fn law_sbb_ev_gv(s: CpuState, i: X86Instruction)
    requires
        s.wf(),
        i.op == 0x19,
        operand_consistent(i),
        s.flags[CF_POS as int] <= 1,
    ensures
        ({
            let t = execute(s, i);
            let r = rm_read16(t, i) as int;
            &&& r - t.flags[CF_POS as int] * 0x10000 == rm_read16(s, i) - reg_value(s, i) - s.flags[CF_POS as int]
            &&& t.flags[CF_POS as int] <= 1
            &&& zs16(t, r)
            &&& word_written(s, t, i, rm_read16(t, i) as int)
            &&& flags_kept_but(s, t, CF_POS as int, ZF_POS as int, SF_POS as int, CF_POS as int)
            &&& control_kept(s, t, i)
        }),
{
    let s1 = s.with_op(i.op);
    let a = rm_read16(s1, i);
    let b = s1.regs[regf(i.mod_reg_rm) as int];
    let c = s1.flags[CF_POS as int];
    lemma_rm_write_read16(s1, i, crate::cpu_exec::sub16(a as int, b + c));
}

/// CMP Ev, Gv (0x39): flags of r/m minus reg: CF is the borrow, ZF equality,
/// SF bit 15 of the difference; registers and memory stay.
pub proof fn law_compare_ev_gv(s: CpuState, i: X86Instruction)
    requires
        s.wf(),
        i.op == 0x39,
    ensures
        ({
            let t = execute(s, i);
            let a = rm_read16(s, i) as int;
            let b = reg_value(s, i);
            &&& t.flags[CF_POS as int] == (if a < b { 1u8 } else { 0u8 })
            &&& zs16(t, (a - b + 0x10000) % 0x10000)
            &&& t.regs == s.regs
            &&& t.memory == s.memory
            &&& flags_kept_but(s, t, CF_POS as int, ZF_POS as int, SF_POS as int, CF_POS as int)
            &&& control_kept(s, t, i)
        }),
{
}


// ---------------------------------------------------------------------------
// AL and 16-bit register forms
// ---------------------------------------------------------------------------

/// ADD AL, Ib (0x04): AL plus CF * 0x100 is the old AL plus the immediate's
/// low byte; AH stays; ZF and SF come from the new AL.
pub proof fn law_add_al_ib(s: CpuState, i: X86Instruction)
    requires
        s.wf(),
        i.op == 0x04,
    ensures
        ({
            let t = execute(s, i);
            let al = t.regs[AX as int] % 256;
            &&& al + t.flags[CF_POS as int] * 0x100 == s.regs[AX as int] % 256 + i.imm % 256
            &&& t.regs[AX as int] / 256 == s.regs[AX as int] / 256
            &&& zs8(t, al as int)
            &&& t.regs == s.regs.update(AX as int, t.regs[AX as int])
            &&& t.memory == s.memory
            &&& flags_kept_but(s, t, CF_POS as int, ZF_POS as int, SF_POS as int, CF_POS as int)
            &&& control_kept(s, t, i)
        }),
{
}

/// ADD AX, Iv (0x05): AX plus CF * 0x10000 is the old AX plus the immediate.
pub proof fn law_add_ax_iv(s: CpuState, i: X86Instruction)
    requires
        s.wf(),
        i.op == 0x05,
    ensures
        ({
            let t = execute(s, i);
            &&& t.regs[AX as int] + t.flags[CF_POS as int] * 0x10000 == s.regs[AX as int] + i.imm
            &&& zs16(t, t.regs[AX as int] as int)
            &&& t.regs == s.regs.update(AX as int, t.regs[AX as int])
            &&& t.memory == s.memory
            &&& flags_kept_but(s, t, CF_POS as int, ZF_POS as int, SF_POS as int, CF_POS as int)
            &&& control_kept(s, t, i)
        }),
{
}

/// CMP AL, Ib (0x3C): flags of AL minus the immediate's low byte; CF is the borrow.
pub proof fn law_compare_al_ib(s: CpuState, i: X86Instruction)
    requires
        s.wf(),
        i.op == 0x3C,
    ensures
        ({
            let t = execute(s, i);
            let a = s.regs[AX as int] % 256;
            let b = i.imm % 256;
            &&& t.flags[CF_POS as int] == (if a < b { 1u8 } else { 0u8 })
            &&& zs8(t, (a - b + 0x100) % 0x100)
            &&& t.regs == s.regs
            &&& t.memory == s.memory
            &&& flags_kept_but(s, t, CF_POS as int, ZF_POS as int, SF_POS as int, CF_POS as int)
            &&& control_kept(s, t, i)
        }),
{
}

/// INC Zv (0x40..0x47) and DEC Zv (0x48..0x4F): register `op % 8` goes up
/// or down by one, modulo 0x10000; ZF and SF come from it; CF and the other
/// registers stay.
pub proof fn law_inc_dec_reg16(s: CpuState, i: X86Instruction)
    requires
        s.wf(),
        0x40 <= i.op <= 0x4F,
    ensures
        ({
            let t = execute(s, i);
            let r = (i.op % 8) as int;
            let v = s.regs[r] as int;
            let nv = if i.op < 0x48 { (v + 1) % 0x10000 } else { (v + 0xFFFF) % 0x10000 };
            &&& t.regs == s.regs.update(r, nv as u16)
            &&& t.flags[CF_POS as int] == s.flags[CF_POS as int]
            &&& zs16(t, nv)
            &&& t.memory == s.memory
            &&& flags_kept_but(s, t, ZF_POS as int, SF_POS as int, ZF_POS as int, ZF_POS as int)
            &&& control_kept(s, t, i)
        }),
{
    let r = (i.op % 8) as int;
    let v = s.regs[r] as int;
    assert(((v - 1) % 0x10000) == ((v + 0xFFFF) % 0x10000)) by {
        vstd::arithmetic::div_mod::lemma_mod_add_multiples_vanish(v - 1, 0x10000);
    }
}


// ---------------------------------------------------------------------------
// Group 1: ADD, OR, ADC, AND, SUB, CMP with an immediate (0x80..0x83)
// ---------------------------------------------------------------------------

/// A group-1 instruction as the decoder produces it: 0x81 has a word
/// immediate, the others a byte immediate.
pub open spec fn group1_shape(i: X86Instruction) -> bool {
    &&& 0x80 <= i.op <= 0x83
    &&& i.op != 0x81 ==> i.imm < 256
    &&& operand_consistent(i)
}

/// Group 1 works on words for 0x81 and 0x83, on bytes for 0x80 and 0x82.
pub open spec fn group1_wide(i: X86Instruction) -> bool {
    i.op == 0x81 || i.op == 0x83
}

/// The word operand of group 1: the immediate of 0x81, the sign-extended
/// byte immediate of 0x83.
pub open spec fn group1_word(i: X86Instruction) -> int {
    if i.op == 0x83 && i.imm >= 128 {
        i.imm + 0xFF00
    } else {
        i.imm as int
    }
}

proof fn lemma_group1_bits(i: X86Instruction)
    requires
        group1_shape(i),
    ensures
        (i.op & 1 == 1) == group1_wide(i),
        group1_wide(i) ==> crate::cpu_exec::group1_imm16(i) == group1_word(i),
        crate::cpu_exec::group1_imm8(i) == i.imm % 256,
        !group1_wide(i) ==> i.imm % 256 == i.imm,
{
    let op = i.op;
    let imm = i.imm;
    assert((op & 1 == 1) == (op == 0x81 || op == 0x83)) by (bit_vector)
        requires
            0x80 <= op <= 0x83,
    ;
    assert((op & 2 == 2) == (op >= 0x82)) by (bit_vector)
        requires
            0x80 <= op <= 0x83,
    ;
    if op == 0x83 {
        assert((imm & 0x80 == 0x80) == (imm >= 128)) by (bit_vector)
            requires
                imm < 256,
        ;
        assert(imm >= 128 ==> (imm | 0xFF00) == imm + 0xFF00) by (bit_vector)
            requires
                imm < 256,
        ;
    }
}

/// ADD (reg = 0): the written value plus CF times 0x10000 (0x100 for bytes)
/// is the operand plus the immediate; ZF and SF come from the written value.
pub proof fn law_group1_add(s: CpuState, i: X86Instruction)
    requires
        s.wf(),
        group1_shape(i),
        regf(i.mod_reg_rm) == 0,
    ensures
        ({
            let t = execute(s, i);
            let cf = t.flags[CF_POS as int] as int;
            &&& group1_wide(i) ==> rm_read16(t, i) + cf * 0x10000 == rm_read16(s, i) + group1_word(i)
                && zs16(t, rm_read16(t, i) as int)
            &&& !group1_wide(i) ==> rm_read8(t, i) + cf * 0x100 == rm_read8(s, i) + i.imm && zs8(
                t,
                rm_read8(t, i) as int,
            )
            &&& group1_wide(i) ==> word_written(s, t, i, rm_read16(t, i) as int)
            &&& !group1_wide(i) ==> byte_written(s, t, i, rm_read8(t, i) as int)
            &&& flags_kept_but(s, t, CF_POS as int, ZF_POS as int, SF_POS as int, CF_POS as int)
            &&& control_kept(s, t, i)
        }),
{
    lemma_group1_bits(i);
    let s1 = s.with_op(i.op);
    if group1_wide(i) {
        let a = rm_read16(s1, i);
        let b = crate::cpu_exec::group1_imm16(i);
        lemma_rm_write_read16(crate::cpu_exec::flags_add16(s1, a, b), i, crate::cpu_exec::add16(a as int, b as int));
    } else {
        let a = rm_read8(s1, i);
        let b = crate::cpu_exec::group1_imm8(i);
        lemma_rm_write_read8(crate::cpu_exec::flags_add8(s1, a, b), i, crate::cpu_exec::add8(a as int, b as int));
    }
}

/// OR (reg = 1): the written value is the bitwise OR with the immediate; CF
/// and OF are cleared.
pub proof fn law_group1_or(s: CpuState, i: X86Instruction)
    requires
        s.wf(),
        group1_shape(i),
        regf(i.mod_reg_rm) == 1,
    ensures
        ({
            let t = execute(s, i);
            &&& group1_wide(i) ==> rm_read16(t, i) == rm_read16(s, i) | (group1_word(i) as u16)
                && zs16(t, rm_read16(t, i) as int)
            &&& !group1_wide(i) ==> rm_read8(t, i) == rm_read8(s, i) | (i.imm as u8) && zs8(
                t,
                rm_read8(t, i) as int,
            )
            &&& t.flags[CF_POS as int] == 0 && t.flags[OF_POS as int] == 0
            &&& group1_wide(i) ==> word_written(s, t, i, rm_read16(t, i) as int)
            &&& !group1_wide(i) ==> byte_written(s, t, i, rm_read8(t, i) as int)
            &&& flags_kept_but(s, t, CF_POS as int, ZF_POS as int, SF_POS as int, OF_POS as int)
            &&& control_kept(s, t, i)
        }),
{
    lemma_group1_bits(i);
    let s1 = s.with_op(i.op);
    if group1_wide(i) {
        let v = rm_read16(s1, i) | crate::cpu_exec::group1_imm16(i);
        lemma_rm_write_read16(crate::cpu_exec::flags_logic16(s1, v), i, v);
    } else {
        let v = rm_read8(s1, i) | crate::cpu_exec::group1_imm8(i);
        lemma_rm_write_read8(crate::cpu_exec::flags_logic8(s1, v), i, v);
    }
}

proof fn lemma_group1_adc_word(s: CpuState, i: X86Instruction)
    requires
        s.wf(),
        group1_shape(i),
        group1_wide(i),
        regf(i.mod_reg_rm) == 2,
        s.flags[CF_POS as int] <= 1,
    ensures
        ({
            let t = execute(s, i);
            &&& rm_read16(t, i) + t.flags[CF_POS as int] * 0x10000 == rm_read16(s, i) + group1_word(i)
                + s.flags[CF_POS as int]
            &&& zs16(t, rm_read16(t, i) as int)
            &&& word_written(s, t, i, rm_read16(t, i) as int)
            &&& flags_kept_but(s, t, CF_POS as int, ZF_POS as int, SF_POS as int, CF_POS as int)
            &&& control_kept(s, t, i)
        }),
{
    lemma_group1_bits(i);
    let s1 = s.with_op(i.op);
    let c = s1.flags[CF_POS as int];
    let a = rm_read16(s1, i);
    let b = crate::cpu_exec::group1_imm16(i);
    let v = crate::cpu_exec::add16(a + b, c as int);
    let w = rm_write16(s1, i, v);
    lemma_rm_write_read16(s1, i, v);
    assert(execute(s, i) == crate::cpu_exec::flags_adc16(w, a, b, c));
}

proof fn lemma_group1_adc_byte(s: CpuState, i: X86Instruction)
    requires
        s.wf(),
        group1_shape(i),
        !group1_wide(i),
        regf(i.mod_reg_rm) == 2,
        s.flags[CF_POS as int] <= 1,
    ensures
        ({
            let t = execute(s, i);
            &&& rm_read8(t, i) + t.flags[CF_POS as int] * 0x100 == rm_read8(s, i) + i.imm
                + s.flags[CF_POS as int]
            &&& zs8(t, rm_read8(t, i) as int)
            &&& byte_written(s, t, i, rm_read8(t, i) as int)
            &&& flags_kept_but(s, t, CF_POS as int, ZF_POS as int, SF_POS as int, CF_POS as int)
            &&& control_kept(s, t, i)
        }),
{
    lemma_group1_bits(i);
    let s1 = s.with_op(i.op);
    let c = s1.flags[CF_POS as int];
    let a = rm_read8(s1, i);
    let b = crate::cpu_exec::group1_imm8(i);
    let v = crate::cpu_exec::add8(a + b, c as int);
    let w = rm_write8(s1, i, v);
    lemma_rm_write_read8(s1, i, v);
    assert(execute(s, i) == crate::cpu_exec::flags_adc8(w, a, b, c));
}

/// ADC (reg = 2): with CF = c (0 or 1) on entry, the written value plus CF
/// times 0x10000 (0x100 for bytes) is the operand plus the immediate plus c.
pub proof fn law_group1_adc(s: CpuState, i: X86Instruction)
    requires
        s.wf(),
        group1_shape(i),
        regf(i.mod_reg_rm) == 2,
        s.flags[CF_POS as int] <= 1,
    ensures
        ({
            let t = execute(s, i);
            let c = s.flags[CF_POS as int] as int;
            let cf = t.flags[CF_POS as int] as int;
            &&& group1_wide(i) ==> rm_read16(t, i) + cf * 0x10000 == rm_read16(s, i) + group1_word(i) + c
                && zs16(t, rm_read16(t, i) as int)
            &&& !group1_wide(i) ==> rm_read8(t, i) + cf * 0x100 == rm_read8(s, i) + i.imm + c && zs8(
                t,
                rm_read8(t, i) as int,
            )
            &&& group1_wide(i) ==> word_written(s, t, i, rm_read16(t, i) as int)
            &&& !group1_wide(i) ==> byte_written(s, t, i, rm_read8(t, i) as int)
            &&& flags_kept_but(s, t, CF_POS as int, ZF_POS as int, SF_POS as int, CF_POS as int)
            &&& control_kept(s, t, i)
        }),
{
    if group1_wide(i) {
        lemma_group1_adc_word(s, i);
    } else {
        lemma_group1_adc_byte(s, i);
    }
}

/// AND (reg = 4): the written value is the bitwise AND with the immediate;
/// CF and OF are cleared.
pub proof fn law_group1_and(s: CpuState, i: X86Instruction)
    requires
        s.wf(),
        group1_shape(i),
        regf(i.mod_reg_rm) == 4,
    ensures
        ({
            let t = execute(s, i);
            &&& group1_wide(i) ==> rm_read16(t, i) == rm_read16(s, i) & (group1_word(i) as u16)
                && zs16(t, rm_read16(t, i) as int)
            &&& !group1_wide(i) ==> rm_read8(t, i) == rm_read8(s, i) & (i.imm as u8) && zs8(
                t,
                rm_read8(t, i) as int,
            )
            &&& t.flags[CF_POS as int] == 0 && t.flags[OF_POS as int] == 0
            &&& group1_wide(i) ==> word_written(s, t, i, rm_read16(t, i) as int)
            &&& !group1_wide(i) ==> byte_written(s, t, i, rm_read8(t, i) as int)
            &&& flags_kept_but(s, t, CF_POS as int, ZF_POS as int, SF_POS as int, OF_POS as int)
            &&& control_kept(s, t, i)
        }),
{
    lemma_group1_bits(i);
    let s1 = s.with_op(i.op);
    if group1_wide(i) {
        let v = rm_read16(s1, i) & crate::cpu_exec::group1_imm16(i);
        lemma_rm_write_read16(crate::cpu_exec::flags_logic16(s1, v), i, v);
    } else {
        let v = rm_read8(s1, i) & crate::cpu_exec::group1_imm8(i);
        lemma_rm_write_read8(crate::cpu_exec::flags_logic8(s1, v), i, v);
    }
}

/// SUB (reg = 5): the written value minus CF times 0x10000 (0x100 for
/// bytes) is the operand minus the immediate; CF is the borrow.
pub proof fn law_group1_sub(s: CpuState, i: X86Instruction)
    requires
        s.wf(),
        group1_shape(i),
        regf(i.mod_reg_rm) == 5,
    ensures
        ({
            let t = execute(s, i);
            let cf = t.flags[CF_POS as int] as int;
            &&& group1_wide(i) ==> rm_read16(t, i) - cf * 0x10000 == rm_read16(s, i) - group1_word(i)
                && zs16(t, rm_read16(t, i) as int)
            &&& !group1_wide(i) ==> rm_read8(t, i) - cf * 0x100 == rm_read8(s, i) - i.imm && zs8(
                t,
                rm_read8(t, i) as int,
            )
            &&& cf <= 1
            &&& group1_wide(i) ==> word_written(s, t, i, rm_read16(t, i) as int)
            &&& !group1_wide(i) ==> byte_written(s, t, i, rm_read8(t, i) as int)
            &&& flags_kept_but(s, t, CF_POS as int, ZF_POS as int, SF_POS as int, CF_POS as int)
            &&& control_kept(s, t, i)
        }),
{
    lemma_group1_bits(i);
    let s1 = s.with_op(i.op);
    if group1_wide(i) {
        let a = rm_read16(s1, i);
        let b = crate::cpu_exec::group1_imm16(i);
        lemma_rm_write_read16(crate::cpu_exec::flags_diff16(s1, a, b), i, crate::cpu_exec::sub16(a as int, b as int));
    } else {
        let a = rm_read8(s1, i);
        let b = crate::cpu_exec::group1_imm8(i);
        lemma_rm_write_read8(crate::cpu_exec::flags_diff8(s1, a, b), i, crate::cpu_exec::sub8(a as int, b as int));
    }
}

/// CMP (reg = 7): on words, the flags of the operand minus the immediate
/// (CF the borrow) with registers and memory kept; on bytes unsupported.
pub proof fn law_group1_compare(s: CpuState, i: X86Instruction)
    requires
        s.wf(),
        group1_shape(i),
        regf(i.mod_reg_rm) == 7,
    ensures
        ({
            let t = execute(s, i);
            let a = rm_read16(s, i) as int;
            let b = group1_word(i);
            &&& group1_wide(i) ==> t.flags[CF_POS as int] == (if a < b { 1u8 } else { 0u8 }) && zs16(
                t,
                (a - b + 0x10000) % 0x10000,
            ) && t.unsupported_op == s.unsupported_op
            &&& !group1_wide(i) ==> t.unsupported_op && t.flags == s.flags
            &&& t.regs == s.regs
            &&& t.memory == s.memory
            &&& group1_wide(i) ==> flags_kept_but(s, t, CF_POS as int, ZF_POS as int, SF_POS as int, CF_POS as int) && control_kept(s, t, i)
        }),
{
    lemma_group1_bits(i);
}

/// reg = 3 (SBB) and reg = 6 (XOR) are not supported: only the
/// unsupported mark (and the latched opcode) change.
pub proof fn law_group1_unsupported(s: CpuState, i: X86Instruction)
    requires
        s.wf(),
        group1_shape(i),
        regf(i.mod_reg_rm) == 3 || regf(i.mod_reg_rm) == 6,
    ensures
        execute(s, i) == s.with_op(i.op).with_unop(true),
{
}


// ---------------------------------------------------------------------------
// INC and DEC of a byte (0xFE)
// ---------------------------------------------------------------------------

/// INC Eb (reg = 0) and DEC Eb (reg = 1): the operand goes up or down by one
/// modulo 0x100; ZF and SF come from it; CF stays. Other reg values are
/// unsupported.
pub proof fn law_inc_dec_byte(s: CpuState, i: X86Instruction)
    requires
        s.wf(),
        i.op == 0xFE,
        operand_consistent(i),
    ensures
        ({
            let t = execute(s, i);
            let a = rm_read8(s, i) as int;
            let g = regf(i.mod_reg_rm);
            &&& g == 0 ==> rm_read8(t, i) == (a + 1) % 0x100 && zs8(t, (a + 1) % 0x100)
            &&& g == 1 ==> rm_read8(t, i) == (a + 0xFF) % 0x100 && zs8(t, (a + 0xFF) % 0x100)
            &&& g <= 1 ==> t.flags[CF_POS as int] == s.flags[CF_POS as int] && t.unsupported_op
                == s.unsupported_op
            &&& g > 1 ==> t == s.with_op(0xFE).with_unop(true)
            &&& g <= 1 ==> byte_written(s, t, i, rm_read8(t, i) as int) && flags_kept_but(s, t, ZF_POS as int, SF_POS as int, ZF_POS as int, ZF_POS as int) && control_kept(s, t, i)
        }),
{
    let op = i.op;
    assert(op & 0x01 != 0x01) by (bit_vector)
        requires
            op == 0xFE,
    ;
    let s1 = s.with_op(i.op);
    let a = rm_read8(s1, i);
    if regf(i.mod_reg_rm) == 0 {
        let v = crate::cpu_exec::add8(a as int, 1);
        lemma_rm_write_read8(crate::cpu_exec::set_sz8(s1, v), i, v);
    } else if regf(i.mod_reg_rm) == 1 {
        let v = crate::cpu_exec::sub8(a as int, 1);
        assert((a - 1) % 0x100 == (a + 0xFF) % 0x100) by {
            vstd::arithmetic::div_mod::lemma_mod_add_multiples_vanish(a - 1, 0x100);
        }
        lemma_rm_write_read8(crate::cpu_exec::set_sz8(s1, v), i, v);
    }
}

// ---------------------------------------------------------------------------
// Moves and exchanges
// ---------------------------------------------------------------------------

/// The 8-bit register `g`: the low byte of AX, CX, DX, BX for g < 4, their
/// high byte for g >= 4.
pub open spec fn byte_reg(s: CpuState, g: int) -> int {
    if g < 4 {
        (s.regs[g] % 256) as int
    } else {
        (s.regs[g - 4] / 256) as int
    }
}

/// MOV Eb, Gb (0x88), MOV Ev, Gv (0x89): the r/m operand gets the register;
/// flags stay.
pub proof fn law_mov_to_rm(s: CpuState, i: X86Instruction)
    requires
        s.wf(),
        i.op == 0x88 || i.op == 0x89,
        operand_consistent(i),
    ensures
        ({
            let t = execute(s, i);
            let g = regf(i.mod_reg_rm) as int;
            &&& i.op == 0x88 ==> rm_read8(t, i) == byte_reg(s, g)
            &&& i.op == 0x89 ==> rm_read16(t, i) == s.regs[g]
            &&& t.flags == s.flags
            &&& t.ip == s.ip
            &&& i.op == 0x88 ==> byte_written(s, t, i, byte_reg(s, g))
            &&& i.op == 0x89 ==> word_written(s, t, i, s.regs[g] as int)
            &&& control_kept(s, t, i)
        }),
{
    let s1 = s.with_op(i.op);
    let g = regf(i.mod_reg_rm) as int;
    lemma_rm_write_read8(s1, i, s1.reg8(g));
    lemma_rm_write_read16(s1, i, s1.regs[g]);
}

/// MOV Gb, Eb (0x8A), MOV Gv, Ev (0x8B): the register gets the r/m operand;
/// memory, flags and the other registers stay.
pub proof fn law_mov_from_rm(s: CpuState, i: X86Instruction)
    requires
        s.wf(),
        i.op == 0x8A || i.op == 0x8B,
    ensures
        ({
            let t = execute(s, i);
            let g = regf(i.mod_reg_rm) as int;
            &&& i.op == 0x8B ==> t.regs == s.regs.update(g, rm_read16(s, i))
            &&& i.op == 0x8A && g < 4 ==> t.regs == s.regs.update(
                g,
                ((s.regs[g] / 256) * 256 + rm_read8(s, i)) as u16,
            )
            &&& i.op == 0x8A && g >= 4 ==> t.regs == s.regs.update(
                g - 4,
                (rm_read8(s, i) * 256 + s.regs[g - 4] % 256) as u16,
            )
            &&& t.memory == s.memory
            &&& t.flags == s.flags
            &&& control_kept(s, t, i)
        }),
{
}

/// MOV Zb, Ib (0xB0..0xB7), MOV Zv, Iv (0xB8..0xBF): register `op % 8` gets
/// the immediate (its low byte for the byte registers).
pub proof fn law_mov_immediate_to_register(s: CpuState, i: X86Instruction)
    requires
        s.wf(),
        0xB0 <= i.op <= 0xBF,
    ensures
        ({
            let t = execute(s, i);
            let g = (i.op % 8) as int;
            &&& i.op >= 0xB8 ==> t.regs == s.regs.update(g, i.imm)
            &&& i.op < 0xB8 ==> byte_reg(t, g) == i.imm % 256
            &&& i.op < 0xB8 && g < 4 ==> t.regs == s.regs.update(g, t.regs[g]) && t.regs[g] / 256
                == s.regs[g] / 256
            &&& i.op < 0xB8 && g >= 4 ==> t.regs == s.regs.update(g - 4, t.regs[g - 4])
                && t.regs[g - 4] % 256 == s.regs[g - 4] % 256
            &&& t.memory == s.memory
            &&& t.flags == s.flags
            &&& control_kept(s, t, i)
        }),
{
}

/// MOV Eb, Ib (0xC6) and MOV Ev, Iv (0xC7) with reg = 0: the r/m operand
/// gets the immediate; other reg values are unsupported.
pub proof fn law_mov_immediate_to_rm(s: CpuState, i: X86Instruction)
    requires
        s.wf(),
        i.op == 0xC6 || i.op == 0xC7,
        operand_consistent(i),
    ensures
        ({
            let t = execute(s, i);
            &&& regf(i.mod_reg_rm) == 0 && i.op == 0xC6 ==> rm_read8(t, i) == i.imm % 256
            &&& regf(i.mod_reg_rm) == 0 && i.op == 0xC7 ==> rm_read16(t, i) == i.imm
            &&& regf(i.mod_reg_rm) == 0 ==> t.flags == s.flags
            &&& regf(i.mod_reg_rm) != 0 ==> t == s.with_op(i.op).with_unop(true)
            &&& regf(i.mod_reg_rm) == 0 && i.op == 0xC6 ==> byte_written(s, t, i, (i.imm % 256) as int)
            &&& regf(i.mod_reg_rm) == 0 && i.op == 0xC7 ==> word_written(s, t, i, i.imm as int)
            &&& regf(i.mod_reg_rm) == 0 ==> control_kept(s, t, i)
        }),
{
    let op = i.op;
    assert((op & 0x01 == 0x01) == (op == 0xC7)) by (bit_vector)
        requires
            op == 0xC6 || op == 0xC7,
    ;
    let s1 = s.with_op(i.op);
    lemma_rm_write_read8(s1, i, (i.imm % 256) as u8);
    lemma_rm_write_read16(s1, i, i.imm);
}

/// XCHG Eb, Gb (0x86): the r/m operand gets the old register, and the
/// register gets the old r/m operand (unless the r/m operand is that very
/// register).
pub proof fn law_xchg_eb_gb(s: CpuState, i: X86Instruction)
    requires
        s.wf(),
        i.op == 0x86,
        operand_consistent(i),
    ensures
        ({
            let t = execute(s, i);
            let g = regf(i.mod_reg_rm) as int;
            &&& rm_read8(t, i) == byte_reg(s, g)
            &&& !(modf(i.mod_reg_rm) == 3 && rmf(i.mod_reg_rm) == g) ==> byte_reg(t, g) == rm_read8(
                s,
                i,
            )
            &&& t.flags == s.flags
            &&& control_kept(s, t, i)
        }),
{
    let s1 = s.with_op(i.op);
    let g = regf(i.mod_reg_rm) as int;
    let s2 = s1.with_reg8(g, rm_read8(s1, i));
    lemma_rm_write_read8(s2, i, s1.reg8(g));
    crate::cpu::lemma_reg8_write_read(s1, g, g, rm_read8(s1, i));
    if modf(i.mod_reg_rm) == 3 {
        crate::cpu::lemma_reg8_write_read(s2, rmf(i.mod_reg_rm) as int, g, s1.reg8(g));
    }
}

/// XCHG AX, DX (0x92): the two registers trade values.
pub proof fn law_xchg_ax(s: CpuState, i: X86Instruction)
    requires
        s.wf(),
        i.op == 0x92,
    ensures
        ({
            let t = execute(s, i);
            &&& t.regs[AX as int] == s.regs[2]
            &&& t.regs[2] == s.regs[AX as int]
            &&& t.regs == s.regs.update(AX as int, s.regs[2]).update(2, s.regs[AX as int])
            &&& t.memory == s.memory
            &&& t.flags == s.flags
            &&& control_kept(s, t, i)
        }),
{
}


// ---------------------------------------------------------------------------
// Stack and control flow
// ---------------------------------------------------------------------------

/// SP after a push: two less, modulo 0x10000.
pub open spec fn sp_after_push(s: CpuState) -> int {
    (s.regs[SP as int] + 0xFFFE) % 0x10000
}

/// PUSH Zv (0x50..0x57): SP drops by 2; the low byte of the register (its
/// value before the push) goes to [SP] and the high byte to [SP - 1].
pub proof fn law_push(s: CpuState, i: X86Instruction)
    requires
        s.wf(),
        0x50 <= i.op <= 0x57,
        s.regs[SP as int] != 2,
    ensures
        ({
            let t = execute(s, i);
            let v = s.regs[(i.op % 8) as int];
            let sp = sp_after_push(s);
            &&& t.regs == s.regs.update(SP as int, sp as u16)
            &&& t.memory == s.memory.update(sp, (v % 256) as u8).update(sp - 1, (v / 256) as u8)
            &&& t.flags == s.flags
            &&& t.ip == s.ip
            &&& t.op == i.op && t.hlt_suspend == s.hlt_suspend && t.unsupported_op == s.unsupported_op && t.segregs == s.segregs
            &&& t.jmp_taken == s.jmp_taken
        }),
{
    let sp = s.regs[SP as int] as int;
    assert((sp - 2) % 0x10000 == (sp + 0xFFFE) % 0x10000) by {
        vstd::arithmetic::div_mod::lemma_mod_add_multiples_vanish(sp - 2, 0x10000);
    }
}

/// POP Zv (0x58..0x5F): the register gets the word with high byte [SP - 1]
/// and low byte [SP]; SP grows by 2 (unless SP itself is the target).
pub proof fn law_pop(s: CpuState, i: X86Instruction)
    requires
        s.wf(),
        0x58 <= i.op <= 0x5F,
        s.regs[SP as int] != 0,
    ensures
        ({
            let t = execute(s, i);
            let sp = s.regs[SP as int] as int;
            let v = s.memory[sp - 1] * 256 + s.memory[sp];
            &&& t.regs == s.regs.update(SP as int, ((sp + 2) % 0x10000) as u16).update(
                (i.op % 8) as int,
                v as u16,
            )
            &&& t.memory == s.memory
            &&& t.flags == s.flags
            &&& t.op == i.op && t.hlt_suspend == s.hlt_suspend && t.unsupported_op == s.unsupported_op && t.segregs == s.segregs
            &&& t.jmp_taken == s.jmp_taken && t.ip == s.ip
        }),
{
}

/// CALL Jv (0xE8): pushes IP + 3 as PUSH does and jumps to the CALL's own
/// address plus its length plus the word immediate, modulo 0x10000.
pub proof fn law_call(s: CpuState, i: X86Instruction)
    requires
        s.wf(),
        i.op == 0xE8,
        s.regs[SP as int] != 2,
    ensures
        ({
            let t = execute(s, i);
            let ret = (s.ip + 3) % 0x10000;
            let sp = sp_after_push(s);
            &&& t.ip == (i.addr + i.length + i.imm) % 0x10000
            &&& t.jmp_taken
            &&& t.regs == s.regs.update(SP as int, sp as u16)
            &&& t.memory == s.memory.update(sp, (ret % 256) as u8).update(sp - 1, (ret / 256) as u8)
            &&& t.flags == s.flags
            &&& t.op == i.op && t.hlt_suspend == s.hlt_suspend && t.unsupported_op == s.unsupported_op && t.segregs == s.segregs
        }),
{
    let sp = s.regs[SP as int] as int;
    assert((sp - 2) % 0x10000 == (sp + 0xFFFE) % 0x10000) by {
        vstd::arithmetic::div_mod::lemma_mod_add_multiples_vanish(sp - 2, 0x10000);
    }
}

/// RETN (0xC3): IP gets the word with high byte [SP - 1] and low byte [SP];
/// SP grows by 2.
pub proof fn law_ret(s: CpuState, i: X86Instruction)
    requires
        s.wf(),
        i.op == 0xC3,
        s.regs[SP as int] != 0,
    ensures
        ({
            let t = execute(s, i);
            let sp = s.regs[SP as int] as int;
            &&& t.ip == s.memory[sp - 1] * 256 + s.memory[sp]
            &&& t.jmp_taken
            &&& t.regs == s.regs.update(SP as int, ((sp + 2) % 0x10000) as u16)
            &&& t.memory == s.memory
            &&& t.flags == s.flags
            &&& t.op == i.op && t.hlt_suspend == s.hlt_suspend && t.unsupported_op == s.unsupported_op && t.segregs == s.segregs
        }),
{
}

/// Target of a short jump: the address after the instruction plus the
/// immediate byte read as a signed number, modulo 0x10000.
pub open spec fn short_jump_destination(i: X86Instruction) -> int {
    let d = i.imm % 256;
    (i.addr + i.length + d - (if d >= 128 { 256int } else { 0int })) % 0x10000
}

/// The conditional jumps: JB (0x72) on CF = 1, JZ (0x74) on ZF = 1, JNZ
/// (0x75) on ZF = 0, JBE (0x76) on CF = 1 or ZF = 1, JA (0x77) on CF = 0
/// and ZF = 0, JNS (0x79) on SF = 0. Taken, IP becomes the short target;
/// otherwise IP stays. Registers, flags and memory stay.
pub proof fn law_conditional_jump(s: CpuState, i: X86Instruction)
    requires
        s.wf(),
        i.op == 0x72 || i.op == 0x74 || i.op == 0x75 || i.op == 0x76 || i.op == 0x77 || i.op == 0x79,
    ensures
        ({
            let t = execute(s, i);
            let cf = s.flags[CF_POS as int];
            let zf = s.flags[ZF_POS as int];
            let sf = s.flags[SF_POS as int];
            let taken = if i.op == 0x72 {
                cf == 1
            } else if i.op == 0x74 {
                zf == 1
            } else if i.op == 0x75 {
                zf == 0
            } else if i.op == 0x76 {
                cf == 1 || zf == 1
            } else if i.op == 0x77 {
                cf == 0 && zf == 0
            } else {
                sf == 0
            };
            &&& t.jmp_taken == taken
            &&& t.ip == (if taken { short_jump_destination(i) } else { s.ip as int })
            &&& t.regs == s.regs
            &&& t.flags == s.flags
            &&& t.memory == s.memory
            &&& t.op == i.op && t.hlt_suspend == s.hlt_suspend && t.unsupported_op == s.unsupported_op && t.segregs == s.segregs
        }),
{
}

/// JMP Jbs (0xEB): IP becomes the short target.
pub proof fn law_jmp_short(s: CpuState, i: X86Instruction)
    requires
        s.wf(),
        i.op == 0xEB,
    ensures
        ({
            let t = execute(s, i);
            &&& t.jmp_taken
            &&& t.ip == short_jump_destination(i)
            &&& t.regs == s.regs
            &&& t.flags == s.flags
            &&& t.memory == s.memory
            &&& t.op == i.op && t.hlt_suspend == s.hlt_suspend && t.unsupported_op == s.unsupported_op && t.segregs == s.segregs
        }),
{
}

/// NOP (0x90) changes nothing but the latched opcode; HLT (0xF4) sets the
/// suspend mark; STC (0xF9) sets CF.
pub proof fn law_nop_hlt_stc(s: CpuState, i: X86Instruction)
    requires
        s.wf(),
        i.op == 0x90 || i.op == 0xF4 || i.op == 0xF9,
    ensures
        ({
            let t = execute(s, i);
            &&& t.op == i.op
            &&& t.regs == s.regs
            &&& t.memory == s.memory
            &&& t.ip == s.ip
            &&& t.jmp_taken == s.jmp_taken
            &&& t.hlt_suspend == (i.op == 0xF4 || s.hlt_suspend)
            &&& t.flags == (if i.op == 0xF9 { s.flags.update(CF_POS as int, 1) } else { s.flags })
            &&& t.unsupported_op == s.unsupported_op && t.segregs == s.segregs
        }),
{
}


/// The opcodes this emulator implements.
pub open spec fn implemented_opcode(op: u8) -> bool {
    ||| op == 0x01 || op == 0x04 || op == 0x05 || op == 0x09 || op == 0x19 || op == 0x20
    ||| op == 0x29 || op == 0x31 || op == 0x39 || op == 0x3C
    ||| 0x40 <= op <= 0x5F
    ||| op == 0x72 || op == 0x74 || op == 0x75 || op == 0x76 || op == 0x77 || op == 0x79
    ||| 0x80 <= op <= 0x83
    ||| op == 0x86 || op == 0x88 || op == 0x89 || op == 0x8A || op == 0x8B || op == 0x90 || op
        == 0x92
    ||| 0xB0 <= op <= 0xBF
    ||| op == 0xC3 || op == 0xC6 || op == 0xC7 || op == 0xE8 || op == 0xEB || op == 0xF4 || op
        == 0xF9 || op == 0xFE
}

/// Any other opcode only latches itself and sets the unsupported mark.
pub proof fn law_unimplemented_opcode(s: CpuState, i: X86Instruction)
    requires
        s.wf(),
        !implemented_opcode(i.op),
    ensures
        execute(s, i) == s.with_op(i.op).with_unop(true),
{
}

} // verus!
