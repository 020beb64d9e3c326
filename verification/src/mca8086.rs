//! Machine code analyzer: the fetch-and-decode step of the 8086.
//!
//! `decode` reads the segment-override prefixes, the opcode, the mod-reg-r/m
//! byte with its displacement, and the immediate operand of one instruction.
use vstd::prelude::*;

verus! {

/// Bits of `X86Instruction::instr_flags`.
pub enum X86Flags {
    X86PrefixFlag,
    X86ModregFlag,
    X86DispFlag,
    X86ImmFlag,
}

pub const PREFIX_FLAG: u16 = 1;
pub const MODREG_FLAG: u16 = 2;
pub const DISP_FLAG: u16 = 4;
pub const IMM_FLAG: u16 = 8;

// Bits of `X86Instruction::setprefix`, one per segment-override prefix.
pub const PREFIX_CS: u16 = 1;
pub const PREFIX_DS: u16 = 2;
pub const PREFIX_ES: u16 = 4;
pub const PREFIX_SS: u16 = 8;

impl X86Flags {
    pub open spec fn mask(self) -> u16 {
        match self {
            X86Flags::X86PrefixFlag => PREFIX_FLAG,
            X86Flags::X86ModregFlag => MODREG_FLAG,
            X86Flags::X86DispFlag => DISP_FLAG,
            X86Flags::X86ImmFlag => IMM_FLAG,
        }
    }

    /// The bit of `instr_flags` that this flag stands for.
    pub fn bits(&self) -> (r: u16)
        ensures
            r == self.mask(),
    {
        match self {
            X86Flags::X86PrefixFlag => PREFIX_FLAG,
            X86Flags::X86ModregFlag => MODREG_FLAG,
            X86Flags::X86DispFlag => DISP_FLAG,
            X86Flags::X86ImmFlag => IMM_FLAG,
        }
    }
}

/// One decoded instruction.
pub struct X86Instruction {
    /// Segment-override prefixes seen (`PREFIX_CS` ... `PREFIX_SS`).
    pub setprefix: u16,
    /// The prefix bytes; the k-th prefix (counting from 1) is at index k.
    pub prefixes: [u8; 16],
    pub prefix_cnt: u8,
    pub op: u8,
    /// `PREFIX_FLAG`, `MODREG_FLAG`, `DISP_FLAG`, `IMM_FLAG`.
    pub instr_flags: u16,
    pub mod_reg_rm: u8,
    pub imm: u16,
    pub disp: u16,
    pub disp_len: usize,
    /// Address of the first byte of the instruction.
    pub addr: usize,
    /// Number of bytes of the instruction.
    pub length: usize,
}

impl X86Instruction {
    /// The instruction with every field zero.
    pub open spec fn is_blank(self) -> bool {
        &&& self.setprefix == 0
        &&& self.prefixes@ == Seq::new(16, |k: int| 0u8)
        &&& self.prefix_cnt == 0
        &&& self.op == 0
        &&& self.instr_flags == 0
        &&& self.mod_reg_rm == 0
        &&& self.imm == 0
        &&& self.disp == 0
        &&& self.disp_len == 0
        &&& self.addr == 0
        &&& self.length == 0
    }

    pub fn new() -> (r: X86Instruction)
        ensures
            r.is_blank(),
    {
        let r = X86Instruction {
            setprefix: 0,
            prefixes: [0, 0, 0, 0, 0, 0, 0, 0, 0, 0, 0, 0, 0, 0, 0, 0],
            prefix_cnt: 0,
            op: 0,
            instr_flags: 0,
            mod_reg_rm: 0,
            imm: 0,
            disp: 0,
            disp_len: 0,
            addr: 0,
            length: 0,
        };
        assert(r.prefixes@ =~= Seq::new(16, |k: int| 0u8));
        r
    }
}

impl Default for X86Instruction {
    fn default() -> (r: X86Instruction)
        ensures
            r.is_blank(),
    {
        X86Instruction::new()
    }
}

/// The `mod` field (bits 7..6) of a mod-reg-r/m byte.
#[verifier::allow_in_spec]
pub fn modf(val: u8) -> u8
    returns
        val / 64,
{
    val / 64
}

/// The `reg` field (bits 5..3) of a mod-reg-r/m byte.
#[verifier::allow_in_spec]
pub fn regf(val: u8) -> u8
    returns
        (val / 8) % 8,
{
    (val / 8) % 8
}

/// The `r/m` field (bits 2..0) of a mod-reg-r/m byte.
#[verifier::allow_in_spec]
pub fn rmf(val: u8) -> u8
    returns
        val % 8,
{
    val % 8
}

/// A mod-reg-r/m byte is its three fields put together: mod in bits 7..6,
/// reg in bits 5..3, r/m in bits 2..0.
pub proof fn lemma_modrm_fields(val: u8)
    ensures
        modf(val) < 4,
        regf(val) < 8,
        rmf(val) < 8,
        modf(val) * 64 + regf(val) * 8 + rmf(val) == val,
{
}

/// The segment-override prefix bytes (ES:, CS:, SS:, DS:).
#[verifier::allow_in_spec]
pub fn is_prefix(b: u8) -> bool
    returns
        b == 0x26 || b == 0x2E || b == 0x36 || b == 0x3E,
{
    b == 0x26 || b == 0x2E || b == 0x36 || b == 0x3E
}

/// Opcodes followed by a mod-reg-r/m byte.
#[verifier::allow_in_spec]
pub fn has_modrm(op: u8) -> bool
    returns
        (op < 0x40 && op % 8 < 4) || op == 0x62 || op == 0x63 || op == 0x69 || op == 0x6B || (0x80
            <= op && op <= 0x8F) || op == 0xC0 || op == 0xC1 || (0xC4 <= op && op <= 0xC7) || (0xD0
            <= op && op <= 0xD3) || (0xD8 <= op && op <= 0xDF) || op == 0xF6 || op == 0xF7 || op
            == 0xFE || op == 0xFF,
{
    (op < 0x40 && op % 8 < 4) || op == 0x62 || op == 0x63 || op == 0x69 || op == 0x6B || (0x80 <= op
        && op <= 0x8F) || op == 0xC0 || op == 0xC1 || (0xC4 <= op && op <= 0xC7) || (0xD0 <= op && op
        <= 0xD3) || (0xD8 <= op && op <= 0xDF) || op == 0xF6 || op == 0xF7 || op == 0xFE || op == 0xFF
}

/// Number of bytes of the immediate operand of an opcode (0, 1 or 2).
#[verifier::allow_in_spec]
pub fn imm_size(op: u8) -> u8
    returns
        if op < 0x40 && op % 8 == 4 {
            1u8
        } else if op < 0x40 && op % 8 == 5 {
            2u8
        } else if op == 0x68 || op == 0x69 {
            2u8
        } else if op == 0x6A || op == 0x6B {
            1u8
        } else if 0x70 <= op && op <= 0x7F {
            1u8
        } else if op == 0x80 || op == 0x82 || op == 0x83 {
            1u8
        } else if op == 0x81 || op == 0x9A {
            2u8
        } else if 0xA0 <= op && op <= 0xA3 {
            2u8
        } else if op == 0xA8 {
            1u8
        } else if op == 0xA9 {
            2u8
        } else if 0xB0 <= op && op <= 0xB7 {
            1u8
        } else if 0xB8 <= op && op <= 0xBF {
            2u8
        } else if op == 0xC0 || op == 0xC1 || op == 0xC6 || op == 0xCD || op == 0xD4 || op == 0xD5 {
            1u8
        } else if op == 0xC2 || op == 0xC7 || op == 0xC8 || op == 0xCA {
            2u8
        } else if 0xE0 <= op && op <= 0xE7 {
            1u8
        } else if 0xE8 <= op && op <= 0xEA {
            2u8
        } else if op == 0xEB {
            1u8
        } else {
            0u8
        },
{
    if op < 0x40 && op % 8 == 4 {
        1
    } else if op < 0x40 && op % 8 == 5 {
        2
    } else if op == 0x68 || op == 0x69 {
        2
    } else if op == 0x6A || op == 0x6B {
        1
    } else if 0x70 <= op && op <= 0x7F {
        1
    } else if op == 0x80 || op == 0x82 || op == 0x83 {
        1
    } else if op == 0x81 || op == 0x9A {
        2
    } else if 0xA0 <= op && op <= 0xA3 {
        2
    } else if op == 0xA8 {
        1
    } else if op == 0xA9 {
        2
    } else if 0xB0 <= op && op <= 0xB7 {
        1
    } else if 0xB8 <= op && op <= 0xBF {
        2
    } else if op == 0xC0 || op == 0xC1 || op == 0xC6 || op == 0xCD || op == 0xD4 || op == 0xD5 {
        1
    } else if op == 0xC2 || op == 0xC7 || op == 0xC8 || op == 0xCA {
        2
    } else if 0xE0 <= op && op <= 0xE7 {
        1
    } else if 0xE8 <= op && op <= 0xEA {
        2
    } else if op == 0xEB {
        1
    } else {
        0
    }
}

/// The little-endian value of `size` bytes at `index` (0 unless size is 1 or 2).
pub open spec fn value_at(data: Seq<u8>, index: int, size: int) -> u16 {
    if size == 1 {
        data[index] as u16
    } else if size == 2 {
        (data[index + 1] * 256 + data[index]) as u16
    } else {
        0
    }
}

fn read_val(data: &Vec<u8>, index: usize, val_size: usize) -> (r: u16)
    requires
        val_size == 1 ==> index < data.len(),
        val_size == 2 ==> index + 1 < data.len(),
    ensures
        r == value_at(data@, index as int, val_size as int),
{
    if val_size == 1 {
        data[index] as u16
    } else if val_size == 2 {
        (data[index + 1] as u16) * 256 + data[index] as u16
    } else {
        0
    }
}

/// Length of the displacement that follows a mod-reg-r/m byte with mod < 3.
#[verifier::allow_in_spec]
fn disp_decode(mod_val: u32, rm_val: u32) -> usize
    returns
        if rm_val == 6 && mod_val == 0 {
            2usize
        } else {
            mod_val as usize
        },
{
    if rm_val == 6 && mod_val == 0 {
        return 2;
    }
    mod_val as usize
}


/// Length of the displacement of an instruction with opcode `op` and
/// mod-reg-r/m byte `m` (0 when it has none).
pub open spec fn disp_size(op: u8, m: u8) -> int {
    if has_modrm(op) && modf(m) < 3 {
        if rmf(m) == 6 && modf(m) == 0 {
            2
        } else {
            modf(m) as int
        }
    } else {
        0
    }
}

/// Number of bytes that follow the opcode: mod-reg-r/m, displacement, immediate.
pub open spec fn operand_size(op: u8, m: u8) -> int {
    (if has_modrm(op) { 1int } else { 0int }) + disp_size(op, m) + imm_size(op) as int
}

/// The operand bytes of opcode `op`, starting at `moff`, lie inside `data`,
/// and an instruction length of `len0` grows by them without overflow.
pub open spec fn operands_fit(data: Seq<u8>, op: u8, moff: int, len0: int) -> bool {
    let m = data[moff];
    let dlen = disp_size(op, m);
    let isz = imm_size(op) as int;
    &&& 0 <= moff
    &&& has_modrm(op) ==> moff < data.len()
    &&& dlen > 0 ==> moff + 1 + dlen <= data.len()
    &&& isz > 0 ==> moff + operand_size(op, m) <= data.len()
    &&& len0 + operand_size(op, m) <= usize::MAX
}

/// `new` is `old` with the operands of `old.op`, found at `moff` in `data`, decoded.
pub open spec fn operands_decoded(old: X86Instruction, new: X86Instruction, data: Seq<u8>, moff: int) -> bool {
    let op = old.op;
    let modrm = has_modrm(op);
    let m = if modrm { data[moff] } else { old.mod_reg_rm };
    let has_disp = modrm && modf(m) < 3;
    let dlen = disp_size(op, m);
    let isz = imm_size(op) as int;
    let f1 = if modrm { old.instr_flags | MODREG_FLAG } else { old.instr_flags };
    let f2 = if has_disp { f1 | DISP_FLAG } else { f1 };
    &&& new.setprefix == old.setprefix
    &&& new.prefixes == old.prefixes
    &&& new.prefix_cnt == old.prefix_cnt
    &&& new.op == op
    &&& new.addr == old.addr
    &&& new.mod_reg_rm == m
    &&& new.instr_flags == (if isz > 0 { f2 | IMM_FLAG } else { f2 })
    &&& new.disp_len == (if has_disp { dlen as usize } else { old.disp_len })
    &&& new.disp == (if has_disp { value_at(data, moff + 1, dlen) } else { old.disp })
    &&& new.imm == (if isz > 0 {
        value_at(data, moff + (if modrm { 1 + dlen } else { 0 }), isz)
    } else {
        old.imm
    })
    &&& new.length == old.length + (if modrm { 1int } else { 0int }) + dlen + isz
}

fn mod_decode(instr: &mut X86Instruction, off: usize, data: &Vec<u8>)
    requires
        operands_fit(data@, old(instr).op, off as int, old(instr).length as int),
    ensures
        operands_decoded(*old(instr), *final(instr), data@, off as int),
{
    proof {
        assert(data@.len() == data.len());
    }
    let mut index = off;

    if has_modrm(instr.op) {
        instr.instr_flags = instr.instr_flags | MODREG_FLAG;
        instr.mod_reg_rm = data[off];
        instr.length += 1;
        index += 1;

        // mod = 11b: no displacement
        if modf(instr.mod_reg_rm) < 3 {
            instr.instr_flags = instr.instr_flags | DISP_FLAG;
            instr.disp_len = disp_decode(modf(instr.mod_reg_rm) as u32, rmf(instr.mod_reg_rm) as u32);
            instr.disp = read_val(data, index, instr.disp_len);
            instr.length += instr.disp_len;
            index += instr.disp_len;
        }
    }

    let imm_len = imm_size(instr.op) as usize;
    if imm_len > 0 {
        instr.instr_flags = instr.instr_flags | IMM_FLAG;
        instr.imm = read_val(data, index, imm_len);
        instr.length += imm_len;
    }
}


/// Position of the `j`-th byte the prefix scan looks at: the first byte is
/// read at `off`, the following ones at `off + length + j`, where `length`
/// is the instruction length the scan starts from.
pub open spec fn byte_pos(off: int, l0: int, j: int) -> int {
    if j == 0 {
        off
    } else {
        off + l0 + j
    }
}

/// Number of consecutive prefix bytes seen by the prefix scan from its `j`-th byte on.
pub open spec fn prefix_run(data: Seq<u8>, off: int, l0: int, j: nat) -> nat
    decreases (if 0 <= byte_pos(off, l0, j as int) < data.len() {
        data.len() - byte_pos(off, l0, j as int)
    } else {
        0int
    }),
{
    let p = byte_pos(off, l0, j as int);
    if 0 <= off && 0 <= l0 && 0 <= p < data.len() && is_prefix(data[p]) {
        1 + prefix_run(data, off, l0, j + 1)
    } else {
        0
    }
}

/// The segment bit that a prefix byte sets in `setprefix`.
pub open spec fn segment_bit(b: u8) -> u16 {
    if b == 0x26 {
        PREFIX_ES
    } else if b == 0x2E {
        PREFIX_CS
    } else if b == 0x36 {
        PREFIX_SS
    } else if b == 0x3E {
        PREFIX_DS
    } else {
        0
    }
}

/// `acc` with the segment bits of the first `k` prefix bytes set.
pub open spec fn prefix_segments(acc: u16, data: Seq<u8>, off: int, l0: int, k: nat) -> u16
    decreases k,
{
    if k == 0 {
        acc
    } else {
        prefix_segments(acc, data, off, l0, (k - 1) as nat) | segment_bit(
            data[byte_pos(off, l0, k - 1)],
        )
    }
}

/// The prefix array after the first `k` prefix bytes were stored from
/// index `p0 + 1` on.
pub open spec fn prefix_list(old: Seq<u8>, p0: int, data: Seq<u8>, off: int, l0: int, k: int) -> Seq<
    u8,
> {
    Seq::new(
        16,
        |t: int|
            if p0 + 1 <= t <= p0 + k {
                data[byte_pos(off, l0, t - p0 - 1)]
            } else {
                old[t]
            },
    )
}

/// Decoding `data` at `off` into `instr` reads only bytes of `data` and
/// overflows no counter: the prefix bytes end inside `data`, at most 15
/// prefixes are stored, and the operands fit.
pub open spec fn decodable(instr: X86Instruction, off: int, data: Seq<u8>) -> bool {
    let l0 = instr.length as int;
    let n = prefix_run(data, off, l0, 0) as int;
    let op_pos = byte_pos(off, l0, n);
    let moff = off + l0 + n + 1;
    &&& 0 <= off
    &&& op_pos < data.len()
    &&& n > 0 ==> instr.prefix_cnt + n <= 15
    &&& moff <= usize::MAX
    &&& operands_fit(data, data[op_pos], moff, l0 + n + 1)
}

/// `new` is `old` after decoding the instruction at `off` in `data`.
pub open spec fn decoded(old: X86Instruction, new: X86Instruction, off: int, data: Seq<u8>) -> bool {
    let l0 = old.length as int;
    let n = prefix_run(data, off, l0, 0);
    let op_pos = byte_pos(off, l0, n as int);
    let moff = off + l0 + n + 1;
    let mid = X86Instruction {
        setprefix: prefix_segments(old.setprefix, data, off, l0, n),
        prefixes: new.prefixes,
        prefix_cnt: (old.prefix_cnt + n) as u8,
        op: data[op_pos],
        instr_flags: if n > 0 {
            old.instr_flags | PREFIX_FLAG
        } else {
            old.instr_flags
        },
        mod_reg_rm: old.mod_reg_rm,
        imm: old.imm,
        disp: old.disp,
        disp_len: old.disp_len,
        addr: off as usize,
        length: (l0 + n + 1) as usize,
    };
    &&& new.prefixes@ == prefix_list(old.prefixes@, old.prefix_cnt as int, data, off, l0, n as int)
    &&& operands_decoded(mid, new, data, moff)
}

proof fn lemma_prefix_run_split(data: Seq<u8>, off: int, l0: int, j: nat)
    requires
        j <= prefix_run(data, off, l0, 0),
    ensures
        prefix_run(data, off, l0, 0) == j + prefix_run(data, off, l0, j),
    decreases j,
{
    if j > 0 {
        lemma_prefix_run_split(data, off, l0, (j - 1) as nat);
    }
}

/// The decoded opcode is the first byte after the prefixes, it is no prefix
/// itself, and the length that `decode` returns counts the prefixes, the
/// opcode and the operand bytes (mod-reg-r/m, displacement, immediate).
pub proof fn lemma_decoded_length(old: X86Instruction, new: X86Instruction, off: int, data: Seq<u8>)
    requires
        decodable(old, off, data),
        decoded(old, new, off, data),
    ensures
        ({
            let n = prefix_run(data, off, old.length as int, 0);
            &&& new.op == data[byte_pos(off, old.length as int, n as int)]
            &&& !is_prefix(new.op)
            &&& new.prefix_cnt == old.prefix_cnt + n
            &&& new.length == old.length + n + 1 + operand_size(
                new.op,
                data[off + old.length + n + 1],
            )
        }),
{
    let n = prefix_run(data, off, old.length as int, 0);
    lemma_prefix_run_split(data, off, old.length as int, n);
}

/// What `decode` reads after the opcode. With a mod-reg-r/m byte `m` at
/// position `p` (right after the opcode): mod = 0 has no displacement except
/// r/m = 6, which has a 16-bit one; mod = 1 an 8-bit one; mod = 2 a 16-bit
/// one; mod = 3 none. Displacements and immediates are little-endian and
/// the immediate follows the displacement. The length counts all of it.
pub proof fn lemma_decoded_operands(old: X86Instruction, new: X86Instruction, off: int, data: Seq<u8>)
    requires
        decodable(old, off, data),
        decoded(old, new, off, data),
    ensures
        ({
            let n = prefix_run(data, off, old.length as int, 0);
            let p = off + old.length + n + 1;
            let m = data[p];
            let dlen: int = if !has_modrm(new.op) || m / 64 == 3 {
                0
            } else if m / 64 == 0 {
                if m % 8 == 6 { 2 } else { 0 }
            } else {
                (m / 64) as int
            };
            let q = p + (if has_modrm(new.op) { 1 + dlen } else { 0 });
            let isz = imm_size(new.op) as int;
            &&& has_modrm(new.op) ==> new.mod_reg_rm == m
            &&& !has_modrm(new.op) ==> new.mod_reg_rm == old.mod_reg_rm
            &&& has_modrm(new.op) && m / 64 < 3 ==> new.disp_len == dlen
            &&& has_modrm(new.op) && m / 64 < 3 && dlen == 0 ==> new.disp == 0
            &&& has_modrm(new.op) && m / 64 < 3 && dlen == 1 ==> new.disp == data[p + 1]
            &&& has_modrm(new.op) && m / 64 < 3 && dlen == 2 ==> new.disp == data[p + 1] + 256
                * data[p + 2]
            &&& (!has_modrm(new.op) || m / 64 == 3) ==> new.disp == old.disp && new.disp_len
                == old.disp_len
            &&& isz == 0 ==> new.imm == old.imm
            &&& isz == 1 ==> new.imm == data[q]
            &&& isz == 2 ==> new.imm == data[q] + 256 * data[q + 1]
            &&& new.length == q - off + isz
            &&& new.addr == off
        }),
{
}

/// Decoding into a blank instruction stores the k-th prefix byte (counting
/// from 0) at index k + 1 of `prefixes`, and the opcode follows the prefixes.
pub proof fn lemma_decoded_prefixes(old: X86Instruction, new: X86Instruction, off: int, data: Seq<u8>)
    requires
        old.is_blank(),
        decodable(old, off, data),
        decoded(old, new, off, data),
    ensures
        new.prefix_cnt == prefix_run(data, off, 0, 0),
        forall|k: int| 0 <= k < new.prefix_cnt ==> #[trigger] new.prefixes[k + 1] == data[off + k]
            && is_prefix(data[off + k]),
        forall|k: int| new.prefix_cnt < k < 16 ==> #[trigger] new.prefixes[k] == 0,
        new.prefixes[0] == 0,
        new.op == data[off + new.prefix_cnt],
        !is_prefix(new.op),
{
    let n = prefix_run(data, off, 0, 0);
    lemma_prefix_run_split(data, off, 0, n);
    assert forall|k: int| 0 <= k < n implies #[trigger] new.prefixes[k + 1] == data[off + k]
        && is_prefix(data[off + k]) by {
        lemma_prefix_run_split(data, off, 0, k as nat);
        lemma_prefix_run_split(data, off, 0, (k + 1) as nat);
        assert(new.prefixes@[k + 1] == data[byte_pos(off, 0, k)]);
    }
    assert forall|k: int| n < k < 16 implies #[trigger] new.prefixes[k] == 0 by {
        assert(new.prefixes@[k] == old.prefixes@[k]);
    }
    assert(new.prefixes@[0] == old.prefixes@[0]);
}

/// The operand format of the opcodes the executor implements: a mod-reg-r/m
/// byte for the ALU, move and group instructions; a byte immediate for the
/// AL forms, short jumps, group 1 with 0x80/0x82/0x83, MOV Zb and MOV Eb, Ib;
/// a word immediate for the AX form, 0x81, MOV Zv, MOV Ev, Iv and CALL; no
/// operand for INC/DEC/PUSH/POP of a register, NOP, XCHG AX, RET, HLT, STC.
pub proof fn law_operand_formats(op: u8)
    ensures
        (op == 0x01 || op == 0x09 || op == 0x19 || op == 0x20 || op == 0x29 || op == 0x31 || op
            == 0x39 || (0x80 <= op <= 0x8B && op != 0x84 && op != 0x85 && op != 0x87) || op == 0xC6
            || op == 0xC7 || op == 0xFE) ==> has_modrm(op),
        (op == 0x04 || op == 0x05 || op == 0x3C || (0x40 <= op <= 0x5F) || (0x70 <= op <= 0x7F)
            || op == 0x90 || op == 0x92 || (0xB0 <= op <= 0xBF) || op == 0xC3 || op == 0xE8 || op
            == 0xEB || op == 0xF4 || op == 0xF9) ==> !has_modrm(op),
        (op == 0x04 || op == 0x3C || (0x70 <= op <= 0x7F) || op == 0x80 || op == 0x82 || op
            == 0x83 || (0xB0 <= op <= 0xB7) || op == 0xC6 || op == 0xEB) ==> imm_size(op) == 1,
        (op == 0x05 || op == 0x81 || (0xB8 <= op <= 0xBF) || op == 0xC7 || op == 0xE8)
            ==> imm_size(op) == 2,
        (op == 0x01 || op == 0x09 || op == 0x19 || op == 0x20 || op == 0x29 || op == 0x31 || op
            == 0x39 || (0x40 <= op <= 0x5F) || op == 0x86 || (0x88 <= op <= 0x8B) || op == 0x90
            || op == 0x92 || op == 0xC3 || op == 0xF4 || op == 0xF9 || op == 0xFE) ==> imm_size(op)
            == 0,
        is_prefix(op) <==> (op == 0x26 || op == 0x2E || op == 0x36 || op == 0x3E),
{
}

proof fn lemma_segment_bits_step(v: u16, b: u8)
    requires
        v < 16,
    ensures
        (v | segment_bit(b)) < 16,
        ((v | segment_bit(b)) & PREFIX_ES == PREFIX_ES) == ((v & PREFIX_ES == PREFIX_ES) || b == 0x26),
        ((v | segment_bit(b)) & PREFIX_CS == PREFIX_CS) == ((v & PREFIX_CS == PREFIX_CS) || b == 0x2E),
        ((v | segment_bit(b)) & PREFIX_SS == PREFIX_SS) == ((v & PREFIX_SS == PREFIX_SS) || b == 0x36),
        ((v | segment_bit(b)) & PREFIX_DS == PREFIX_DS) == ((v & PREFIX_DS == PREFIX_DS) || b == 0x3E),
{
    let x = segment_bit(b);
    assert(x == 0 || x == 1 || x == 2 || x == 4 || x == 8);
    assert((v | x) < 16 && ((v | x) & 4 == 4) == ((v & 4 == 4) || x == 4) && ((v | x) & 1 == 1) == ((
    v & 1 == 1) || x == 1) && ((v | x) & 8 == 8) == ((v & 8 == 8) || x == 8) && ((v | x) & 2 == 2)
        == ((v & 2 == 2) || x == 2)) by (bit_vector)
        requires
            v < 16,
            x == 0 || x == 1 || x == 2 || x == 4 || x == 8,
    ;
}

proof fn lemma_segment_bits(data: Seq<u8>, off: int, k: nat)
    ensures
        ({
            let v = prefix_segments(0, data, off, 0, k);
            &&& v < 16
            &&& (v & PREFIX_ES == PREFIX_ES) <==> exists|j: int| 0 <= j < k && #[trigger] data[byte_pos(off, 0, j)] == 0x26
            &&& (v & PREFIX_CS == PREFIX_CS) <==> exists|j: int| 0 <= j < k && #[trigger] data[byte_pos(off, 0, j)] == 0x2E
            &&& (v & PREFIX_SS == PREFIX_SS) <==> exists|j: int| 0 <= j < k && #[trigger] data[byte_pos(off, 0, j)] == 0x36
            &&& (v & PREFIX_DS == PREFIX_DS) <==> exists|j: int| 0 <= j < k && #[trigger] data[byte_pos(off, 0, j)] == 0x3E
        }),
    decreases k,
{
    if k == 0 {
        let v: u16 = 0;
        assert(v & 4 != 4 && v & 1 != 1 && v & 8 != 8 && v & 2 != 2) by (bit_vector)
            requires
                v == 0,
        ;
    } else {
        lemma_segment_bits(data, off, (k - 1) as nat);
        let b = data[byte_pos(off, 0, k - 1)];
        lemma_segment_bits_step(prefix_segments(0, data, off, 0, (k - 1) as nat), b);
    }
}

proof fn lemma_scan_positions(data: Seq<u8>, off: int, n: int, p: u8)
    ensures
        (exists|j: int| 0 <= j < n && #[trigger] data[byte_pos(off, 0, j)] == p) <==> (exists|j: int|
            0 <= j < n && #[trigger] data[off + j] == p),
{
    if exists|j: int| 0 <= j < n && #[trigger] data[byte_pos(off, 0, j)] == p {
        let j = choose|j: int| 0 <= j < n && #[trigger] data[byte_pos(off, 0, j)] == p;
        assert(byte_pos(off, 0, j) == off + j);
        assert(data[off + j] == p);
    }
    if exists|j: int| 0 <= j < n && #[trigger] data[off + j] == p {
        let j = choose|j: int| 0 <= j < n && #[trigger] data[off + j] == p;
        assert(byte_pos(off, 0, j) == off + j);
        assert(data[byte_pos(off, 0, j)] == p);
    }
}

/// Decoding into a blank instruction: `setprefix` has the ES, CS, SS and DS
/// bits of exactly the segment-override prefixes that precede the opcode,
/// and `instr_flags` has the prefix, mod-reg-r/m, displacement and
/// immediate bits of exactly the parts the instruction has.
pub proof fn law_decoded_marks(old: X86Instruction, new: X86Instruction, off: int, data: Seq<u8>)
    requires
        old.is_blank(),
        decodable(old, off, data),
        decoded(old, new, off, data),
    ensures
        ({
            let n = new.prefix_cnt as int;
            let m = new.mod_reg_rm;
            &&& (new.setprefix & PREFIX_ES == PREFIX_ES) <==> exists|j: int| 0 <= j < n && #[trigger] data[off + j] == 0x26
            &&& (new.setprefix & PREFIX_CS == PREFIX_CS) <==> exists|j: int| 0 <= j < n && #[trigger] data[off + j] == 0x2E
            &&& (new.setprefix & PREFIX_SS == PREFIX_SS) <==> exists|j: int| 0 <= j < n && #[trigger] data[off + j] == 0x36
            &&& (new.setprefix & PREFIX_DS == PREFIX_DS) <==> exists|j: int| 0 <= j < n && #[trigger] data[off + j] == 0x3E
            &&& new.setprefix < 16
            &&& new.instr_flags == (if n > 0 { 1u16 } else { 0u16 }) + (if has_modrm(new.op) {
                2u16
            } else {
                0u16
            }) + (if has_modrm(new.op) && m / 64 < 3 { 4u16 } else { 0u16 }) + (if imm_size(new.op) > 0 {
                8u16
            } else {
                0u16
            })
        }),
{
    let n = prefix_run(data, off, 0, 0);
    lemma_prefix_run_split(data, off, 0, n);
    lemma_segment_bits(data, off, n);
    assert(new.prefix_cnt == n);
    assert(new.setprefix == prefix_segments(0, data, off, 0, n));
    lemma_scan_positions(data, off, n as int, 0x26);
    lemma_scan_positions(data, off, n as int, 0x2E);
    lemma_scan_positions(data, off, n as int, 0x36);
    lemma_scan_positions(data, off, n as int, 0x3E);
    let a = n > 0;
    let b = has_modrm(new.op);
    let c = b && new.mod_reg_rm / 64 < 3;
    let d = imm_size(new.op) > 0;
    let f0: u16 = 0;
    let f1: u16 = if a { f0 | 1 } else { f0 };
    let f2: u16 = if b { f1 | 2 } else { f1 };
    let f3: u16 = if c { f2 | 4 } else { f2 };
    let f4: u16 = if d { f3 | 8 } else { f3 };
    assert(f4 == (if a { 1u16 } else { 0u16 }) + (if b { 2u16 } else { 0u16 }) + (if c { 4u16 } else {
        0u16
    }) + (if d { 8u16 } else { 0u16 })) by (bit_vector)
        requires
            f0 == 0,
            f1 == (if a { f0 | 1 } else { f0 }),
            f2 == (if b { f1 | 2 } else { f1 }),
            f3 == (if c { f2 | 4 } else { f2 }),
            f4 == (if d { f3 | 8 } else { f3 }),
    ;
    assert(new.instr_flags == f4);
}

proof fn lemma_or_idempotent(x: u16, b: u16)
    ensures
        (x | b) | b == x | b,
{
    assert((x | b) | b == x | b) by (bit_vector);
}

/// Decodes the instruction at `off` in `data` into `instr` and returns its length.
pub fn decode(instr: &mut X86Instruction, off: usize, data: &Vec<u8>) -> (len: usize)
    requires
        decodable(*old(instr), off as int, data@),
    ensures
        decoded(*old(instr), *final(instr), off as int, data@),
        len == final(instr).length,
{
    let ghost old_i = *instr;
    let ghost l0 = instr.length as int;
    let ghost p0 = instr.prefix_cnt as int;
    let ghost n = prefix_run(data@, off as int, l0, 0);
    proof {
        assert(data@.len() == data.len());
    }
    let mut cur_byte = data[off];
    instr.addr = off;
    let ghost mut j: nat = 0;
    assert(instr.prefixes@ =~= prefix_list(old_i.prefixes@, p0, data@, off as int, l0, 0));

    while is_prefix(cur_byte)
        invariant
            decodable(old_i, off as int, data@),
            data@.len() == data.len(),
            l0 == old_i.length,
            p0 == old_i.prefix_cnt,
            n == prefix_run(data@, off as int, l0, 0),
            j <= n,
            n == j + prefix_run(data@, off as int, l0, j),
            0 <= byte_pos(off as int, l0, j as int) < data@.len(),
            cur_byte == data@[byte_pos(off as int, l0, j as int)],
            instr.length == l0 + j,
            instr.prefix_cnt == p0 + j,
            instr.addr == off,
            instr.instr_flags == (if j > 0 {
                old_i.instr_flags | PREFIX_FLAG
            } else {
                old_i.instr_flags
            }),
            instr.setprefix == prefix_segments(old_i.setprefix, data@, off as int, l0, j),
            instr.prefixes@ == prefix_list(old_i.prefixes@, p0, data@, off as int, l0, j as int),
            instr.op == old_i.op,
            instr.mod_reg_rm == old_i.mod_reg_rm,
            instr.imm == old_i.imm,
            instr.disp == old_i.disp,
            instr.disp_len == old_i.disp_len,
        decreases n - j,
    {
        proof {
            lemma_or_idempotent(old_i.instr_flags, PREFIX_FLAG);
        }
        instr.instr_flags = instr.instr_flags | PREFIX_FLAG;

        match cur_byte {
            0x26 => { instr.setprefix = instr.setprefix | PREFIX_ES },
            0x2E => { instr.setprefix = instr.setprefix | PREFIX_CS },
            0x36 => { instr.setprefix = instr.setprefix | PREFIX_SS },
            0x3E => { instr.setprefix = instr.setprefix | PREFIX_DS },
            _ => {},
        };

        instr.prefix_cnt += 1;
        instr.prefixes[instr.prefix_cnt as usize] = cur_byte;
        instr.length += 1;
        proof {
            j = j + 1;
            assert(instr.prefixes@ =~= prefix_list(
                old_i.prefixes@,
                p0,
                data@,
                off as int,
                l0,
                j as int,
            ));
        }

        cur_byte = data[off + instr.length];
    }

    instr.length += 1;
    instr.op = cur_byte;

    mod_decode(instr, off + instr.length, data);

    instr.length
}

} // verus!
