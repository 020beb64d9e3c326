//! The CPU state: general purpose registers, segment registers, flags,
//! instruction pointer and memory.
use vstd::prelude::*;

verus! {

/// Size of the emulated memory in bytes.
pub const RAM_MEMORY: usize = 0x100000;

// 16-bit general purpose registers, by their encoding in the instruction set.
pub const AX: usize = 0;
pub const CX: usize = 1;
pub const DX: usize = 2;
pub const BX: usize = 3;
pub const SP: usize = 4;
pub const BP: usize = 5;
pub const SI: usize = 6;
pub const DI: usize = 7;

// 8-bit registers: the low (index 0..4) and high (index 4..8) halves of AX, CX, DX, BX.
pub const AL: usize = 0;
pub const CL: usize = 1;
pub const DL: usize = 2;
pub const BL: usize = 3;
pub const AH: usize = 4;
pub const CH: usize = 5;
pub const DH: usize = 6;
pub const BH: usize = 7;

// Segment registers.
pub const ES: usize = 0;
pub const CS: usize = 1;
pub const SS: usize = 2;
pub const DS: usize = 3;

// Positions of the flags in the flag array (x x x x o d i t s z x a x p x c).
pub const OF_POS: usize = 4;
pub const DF_POS: usize = 5;
pub const IF_POS: usize = 6;
pub const TF_POS: usize = 7;
pub const SF_POS: usize = 8;
pub const ZF_POS: usize = 9;
pub const AF_POS: usize = 11;
pub const PF_POS: usize = 13;
pub const CF_POS: usize = 15;

/// The mathematical model of the CPU.
#[verifier::ext_equal]
pub struct CpuState {
    /// AX, CX, DX, BX, SP, BP, SI, DI
    pub regs: Seq<u16>,
    /// One byte per flag position, 16 positions.
    pub flags: Seq<u8>,
    /// ES, CS, SS, DS
    pub segregs: Seq<u16>,
    pub ip: u16,
    pub op: u8,
    pub unsupported_op: bool,
    pub jmp_taken: bool,
    pub hlt_suspend: bool,
    pub memory: Seq<u8>,
}

impl CpuState {
    /// The shape every CPU state has.
    pub open spec fn wf(self) -> bool {
        &&& self.regs.len() == 8
        &&& self.flags.len() == 16
        &&& self.segregs.len() == 4
        &&& self.memory.len() == RAM_MEMORY
    }

    /// The 8-bit register `i`: the low byte of register `i` for `i < 4`,
    /// the high byte of register `i - 4` otherwise.
    pub open spec fn reg8(self, i: int) -> u8 {
        if i < 4 {
            (self.regs[i] % 256) as u8
        } else {
            (self.regs[i - 4] / 256) as u8
        }
    }

    pub open spec fn with_reg16(self, i: int, v: u16) -> CpuState {
        CpuState { regs: self.regs.update(i, v), ..self }
    }

    /// Replaces one byte of a 16-bit register, keeping the other byte.
    pub open spec fn with_reg8(self, i: int, v: u8) -> CpuState {
        if i < 4 {
            self.with_reg16(i, ((self.regs[i] / 256) * 256 + v) as u16)
        } else {
            self.with_reg16(i - 4, (v * 256 + self.regs[i - 4] % 256) as u16)
        }
    }

    pub open spec fn with_segreg(self, i: int, v: u16) -> CpuState {
        CpuState { segregs: self.segregs.update(i, v), ..self }
    }

    pub open spec fn with_flag(self, pos: int, v: u8) -> CpuState {
        CpuState { flags: self.flags.update(pos, v), ..self }
    }

    pub open spec fn with_mem8(self, addr: int, v: u8) -> CpuState {
        CpuState { memory: self.memory.update(addr, v), ..self }
    }

    pub open spec fn with_ip(self, v: u16) -> CpuState {
        CpuState { ip: v, ..self }
    }

    pub open spec fn with_op(self, v: u8) -> CpuState {
        CpuState { op: v, ..self }
    }

    pub open spec fn with_unop(self, v: bool) -> CpuState {
        CpuState { unsupported_op: v, ..self }
    }

    pub open spec fn with_jmp_taken(self, v: bool) -> CpuState {
        CpuState { jmp_taken: v, ..self }
    }

    pub open spec fn with_suspend(self, v: bool) -> CpuState {
        CpuState { hlt_suspend: v, ..self }
    }

    /// The little-endian 16-bit word at `addr`.
    pub open spec fn mem16(self, addr: int) -> u16 {
        (self.memory[addr + 1] * 256 + self.memory[addr]) as u16
    }
}

/// The 8-bit registers are the halves of AX, CX, DX and BX: register `i`
/// (for `i < 4`) is its high byte times 256 plus its low byte.
pub proof fn lemma_reg8_halves(s: CpuState, i: int)
    requires
        s.wf(),
        0 <= i < 4,
    ensures
        s.regs[i] == s.reg8(i + 4) * 256 + s.reg8(i),
{
}

/// Writing an 8-bit register gives back the value written and keeps the
/// other half of the same 16-bit register and every other register.
pub proof fn lemma_reg8_write_read(s: CpuState, i: int, j: int, v: u8)
    requires
        s.wf(),
        0 <= i < 8,
        0 <= j < 8,
    ensures
        s.with_reg8(i, v).reg8(i) == v,
        j != i ==> s.with_reg8(i, v).reg8(j) == s.reg8(j),
        s.with_reg8(i, v).regs.len() == 8,
{
}

/// The emulated CPU.
pub struct Cpu {
    reg: [u16; 8],
    flags: [u8; 16],
    segreg: [u16; 4],
    ip: u16,
    op: u8,
    unsupported_op: bool,
    jmp_taken: bool,
    hlt_suspend: bool,
    memory: Vec<u8>,
}

impl View for Cpu {
    type V = CpuState;

    closed spec fn view(&self) -> CpuState {
        CpuState {
            regs: self.reg@,
            flags: self.flags@,
            segregs: self.segreg@,
            ip: self.ip,
            op: self.op,
            unsupported_op: self.unsupported_op,
            jmp_taken: self.jmp_taken,
            hlt_suspend: self.hlt_suspend,
            memory: self.memory@,
        }
    }
}

impl Cpu {
    /// Every CPU has eight general registers, sixteen flag positions and
    /// four segment registers.
    pub proof fn lemma_shape(&self)
        ensures
            self@.regs.len() == 8,
            self@.flags.len() == 16,
            self@.segregs.len() == 4,
    {
    }

    /// The 16-bit register `index` (AX, CX, DX, BX, SP, BP, SI, DI).
    pub fn get_reg16(&self, index: usize) -> (r: u16)
        requires
            index < 8,
        ensures
            r == self@.regs[index as int],
    {
        self.reg[index]
    }

    /// The 8-bit register `index` (AL, CL, DL, BL, AH, CH, DH, BH).
    pub fn get_reg8(&self, index: usize) -> (r: u8)
        requires
            index < 8,
        ensures
            r == self@.reg8(index as int),
    {
        if index < 4 {
            (self.reg[index] % 256) as u8
        } else {
            (self.reg[index - 4] / 256) as u8
        }
    }

    pub fn get_segreg(&self, index: usize) -> (r: u16)
        requires
            index < 4,
        ensures
            r == self@.segregs[index as int],
    {
        self.segreg[index]
    }

    pub fn set_segreg(&mut self, index: usize, value: u16)
        requires
            index < 4,
        ensures
            final(self)@ == old(self)@.with_segreg(index as int, value),
    {
        self.segreg[index] = value;
    }

    pub fn set_reg16(&mut self, index: usize, value: u16)
        requires
            index < 8,
        ensures
            final(self)@ == old(self)@.with_reg16(index as int, value),
    {
        self.reg[index] = value;
    }

    /// Writes one byte of a 16-bit register; the other byte is kept.
    pub fn set_reg8(&mut self, index: usize, value: u8)
        requires
            index < 8,
        ensures
            final(self)@ == old(self)@.with_reg8(index as int, value),
    {
        if index < 4 {
            let r = self.reg[index];
            self.reg[index] = (r / 256) * 256 + value as u16;
        } else {
            let r = self.reg[index - 4];
            self.reg[index - 4] = value as u16 * 256 + r % 256;
        }
    }

    pub fn set_of(&mut self, val: u8)
        ensures
            final(self)@ == old(self)@.with_flag(OF_POS as int, val),
    {
        self.flags[OF_POS] = val;
    }

    pub fn get_of(&mut self) -> (r: u8)
        ensures
            r == old(self)@.flags[OF_POS as int],
            final(self)@ == old(self)@,
    {
        self.flags[OF_POS]
    }

    pub fn set_df(&mut self, val: u8)
        ensures
            final(self)@ == old(self)@.with_flag(DF_POS as int, val),
    {
        self.flags[DF_POS] = val;
    }

    pub fn get_df(&mut self) -> (r: u8)
        ensures
            r == old(self)@.flags[DF_POS as int],
            final(self)@ == old(self)@,
    {
        self.flags[DF_POS]
    }

    pub fn set_if(&mut self, val: u8)
        ensures
            final(self)@ == old(self)@.with_flag(IF_POS as int, val),
    {
        self.flags[IF_POS] = val;
    }

    pub fn get_if(&mut self) -> (r: u8)
        ensures
            r == old(self)@.flags[IF_POS as int],
            final(self)@ == old(self)@,
    {
        self.flags[IF_POS]
    }

    pub fn set_tf(&mut self, val: u8)
        ensures
            final(self)@ == old(self)@.with_flag(TF_POS as int, val),
    {
        self.flags[TF_POS] = val;
    }

    pub fn get_tf(&mut self) -> (r: u8)
        ensures
            r == old(self)@.flags[TF_POS as int],
            final(self)@ == old(self)@,
    {
        self.flags[TF_POS]
    }

    pub fn set_sf(&mut self, val: u8)
        ensures
            final(self)@ == old(self)@.with_flag(SF_POS as int, val),
    {
        self.flags[SF_POS] = val;
    }

    pub fn get_sf(&mut self) -> (r: u8)
        ensures
            r == old(self)@.flags[SF_POS as int],
            final(self)@ == old(self)@,
    {
        self.flags[SF_POS]
    }

    pub fn set_zf(&mut self, val: u8)
        ensures
            final(self)@ == old(self)@.with_flag(ZF_POS as int, val),
    {
        self.flags[ZF_POS] = val;
    }

    pub fn get_zf(&mut self) -> (r: u8)
        ensures
            r == old(self)@.flags[ZF_POS as int],
            final(self)@ == old(self)@,
    {
        self.flags[ZF_POS]
    }

    pub fn set_af(&mut self, val: u8)
        ensures
            final(self)@ == old(self)@.with_flag(AF_POS as int, val),
    {
        self.flags[AF_POS] = val;
    }

    pub fn get_af(&mut self) -> (r: u8)
        ensures
            r == old(self)@.flags[AF_POS as int],
            final(self)@ == old(self)@,
    {
        self.flags[AF_POS]
    }

    pub fn set_pf(&mut self, val: u8)
        ensures
            final(self)@ == old(self)@.with_flag(PF_POS as int, val),
    {
        self.flags[PF_POS] = val;
    }

    pub fn get_pf(&mut self) -> (r: u8)
        ensures
            r == old(self)@.flags[PF_POS as int],
            final(self)@ == old(self)@,
    {
        self.flags[PF_POS]
    }

    pub fn set_cf(&mut self, val: u8)
        ensures
            final(self)@ == old(self)@.with_flag(CF_POS as int, val),
    {
        self.flags[CF_POS] = val;
    }

    pub fn get_cf(&mut self) -> (r: u8)
        ensures
            r == old(self)@.flags[CF_POS as int],
            final(self)@ == old(self)@,
    {
        self.flags[CF_POS]
    }

    pub fn set_ip(&mut self, val: u16)
        ensures
            final(self)@ == old(self)@.with_ip(val),
    {
        self.ip = val;
    }

    pub fn get_ip(&mut self) -> (r: u16)
        ensures
            r == old(self)@.ip,
            final(self)@ == old(self)@,
    {
        self.ip
    }

    /// Advances the instruction pointer; it wraps around at 0x10000.
    pub fn inc_ip(&mut self, bytes: u16)
        ensures
            final(self)@ == old(self)@.with_ip(((old(self)@.ip + bytes) % 0x10000) as u16),
    {
        self.ip = ((self.ip as u32 + bytes as u32) % 0x10000) as u16;
    }

    pub fn set_op(&mut self, val: u8)
        ensures
            final(self)@ == old(self)@.with_op(val),
    {
        self.op = val;
    }

    pub fn get_op(&mut self) -> (r: u8)
        ensures
            r == old(self)@.op,
            final(self)@ == old(self)@,
    {
        self.op
    }

    pub fn set_unop(&mut self, val: bool)
        ensures
            final(self)@ == old(self)@.with_unop(val),
    {
        self.unsupported_op = val;
    }

    pub fn get_unop(&mut self) -> (r: bool)
        ensures
            r == old(self)@.unsupported_op,
            final(self)@ == old(self)@,
    {
        self.unsupported_op
    }

    pub fn set_memory(&mut self, index: usize, val: u8)
        requires
            index < old(self)@.memory.len(),
        ensures
            final(self)@ == old(self)@.with_mem8(index as int, val),
    {
        self.memory[index] = val;
    }

    pub fn get_memory(&mut self, index: usize) -> (r: u8)
        requires
            index < old(self)@.memory.len(),
        ensures
            r == old(self)@.memory[index as int],
            final(self)@ == old(self)@,
    {
        self.memory[index]
    }

    /// The whole memory.
    pub fn get_mem_buff(&mut self) -> (r: &Vec<u8>)
        ensures
            r@ == old(self)@.memory,
            final(self)@ == old(self)@,
    {
        &self.memory
    }

    pub fn set_jmp_taken(&mut self, val: bool)
        ensures
            final(self)@ == old(self)@.with_jmp_taken(val),
    {
        self.jmp_taken = val;
    }

    pub fn get_jmp_taken(&mut self) -> (r: bool)
        ensures
            r == old(self)@.jmp_taken,
            final(self)@ == old(self)@,
    {
        self.jmp_taken
    }

    pub fn set_suspend(&mut self, val: bool)
        ensures
            final(self)@ == old(self)@.with_suspend(val),
    {
        self.hlt_suspend = val;
    }

    pub fn get_suspend(&mut self) -> (r: bool)
        ensures
            r == old(self)@.hlt_suspend,
            final(self)@ == old(self)@,
    {
        self.hlt_suspend
    }

}

/// The memory image of a program: its bytes from address 0, zero above them.
pub open spec fn loaded_memory(data: Seq<u8>) -> Seq<u8> {
    Seq::new(RAM_MEMORY as nat, |i: int| if i < data.len() { data[i] } else { 0u8 })
}

/// Zeroes the segment registers and the instruction pointer, sets SP to
/// 0x100 and loads the program into zeroed memory.
fn reset(cpu: &mut Cpu, data: Vec<u8>)
    requires
        old(cpu)@.wf(),
    ensures
        final(cpu)@ == (CpuState {
            segregs: seq![0u16, 0u16, 0u16, 0u16],
            ip: 0,
            regs: old(cpu)@.regs.update(SP as int, 0x100),
            memory: loaded_memory(data@),
            ..old(cpu)@
        }),
{
    cpu.set_segreg(ES, 0x00);
    cpu.set_segreg(CS, 0x00);
    cpu.set_segreg(SS, 0x00);
    cpu.set_segreg(DS, 0x00);

    cpu.ip = 0x00;
    cpu.set_reg16(SP, 0x100);
    assert(cpu@.segregs =~= seq![0u16, 0u16, 0u16, 0u16]);
    let ghost before = cpu@;

    let mut i: usize = 0;
    while i < RAM_MEMORY
        invariant
            i <= RAM_MEMORY,
            cpu.memory@.len() == RAM_MEMORY,
            cpu@ == (CpuState { memory: cpu@.memory, ..before }),
            forall|k: int| 0 <= k < i ==> cpu.memory@[k] == loaded_memory(data@)[k],
        decreases RAM_MEMORY - i,
    {
        cpu.memory[i] = if i < data.len() { data[i] } else { 0 };
        i = i + 1;
    }
    assert(cpu.memory@ =~= loaded_memory(data@));
}

/// A CPU with all registers and flags zero except SP = 0x100, and the
/// program `data` loaded at address 0 of zeroed memory.
pub open spec fn init_state(data: Seq<u8>) -> CpuState {
    CpuState {
        regs: seq![0u16, 0u16, 0u16, 0u16, 0x100u16, 0u16, 0u16, 0u16],
        flags: Seq::new(16, |i: int| 0u8),
        segregs: seq![0u16, 0u16, 0u16, 0u16],
        ip: 0,
        op: 0,
        unsupported_op: false,
        jmp_taken: false,
        hlt_suspend: false,
        memory: loaded_memory(data),
    }
}

/// A fresh CPU holds the program's bytes from address 0 and zero above them;
/// SP is 0x100 and every other register, flag and segment register is zero;
/// IP is 0 and no mark is set.
pub proof fn law_init_state(data: Seq<u8>)
    ensures
        init_state(data).wf(),
        forall|k: int|
            0 <= k < RAM_MEMORY ==> #[trigger] init_state(data).memory[k] == (if k < data.len() {
                data[k]
            } else {
                0u8
            }),
        forall|r: int| 0 <= r < 8 ==> #[trigger] init_state(data).regs[r] == (if r == SP {
            0x100u16
        } else {
            0u16
        }),
        forall|k: int| 0 <= k < 16 ==> #[trigger] init_state(data).flags[k] == 0,
        forall|k: int| 0 <= k < 4 ==> #[trigger] init_state(data).segregs[k] == 0,
        init_state(data).ip == 0,
        !init_state(data).hlt_suspend && !init_state(data).unsupported_op && !init_state(
            data,
        ).jmp_taken,
{
}

/// Builds a CPU and loads the program `data` into it.
pub fn init(data: Vec<u8>) -> (cpu: Cpu)
    ensures
        cpu@ == init_state(data@),
        cpu@.wf(),
{
    let mut cpu = Cpu {
        reg: [0, 0, 0, 0, 0, 0, 0, 0],
        flags: [0, 0, 0, 0, 0, 0, 0, 0, 0, 0, 0, 0, 0, 0, 0, 0],
        segreg: [0, 0, 0, 0],
        ip: 0,
        op: 0,
        hlt_suspend: false,
        unsupported_op: false,
        jmp_taken: false,
        memory: vec![0; RAM_MEMORY],
    };
    reset(&mut cpu, data);
    assert(cpu@.regs =~= init_state(data@).regs);
    assert(cpu@.flags =~= init_state(data@).flags);
    cpu
}

} // verus!
