use lib::mca8086::{
    decode, modf, regf, rmf, X86Flags, X86Instruction, DISP_FLAG, IMM_FLAG, MODREG_FLAG,
    PREFIX_CS, PREFIX_DS, PREFIX_ES, PREFIX_FLAG,
};

fn decode_at(bytes: &[u8], off: usize) -> (usize, X86Instruction) {
    let data: Vec<u8> = bytes.to_vec();
    let mut instr = X86Instruction::default();
    let len = decode(&mut instr, off, &data);
    (len, instr)
}

#[test]
fn modrm_fields_split() {
    assert_eq!(modf(0xC7), 3);
    assert_eq!(regf(0xC7), 0);
    assert_eq!(rmf(0xC7), 7);
    assert_eq!(modf(0x5A), 1);
    assert_eq!(regf(0x5A), 3);
    assert_eq!(rmf(0x5A), 2);
    for v in 0..=255u8 {
        assert_eq!(modf(v) * 64 + regf(v) * 8 + rmf(v), v);
    }
}

#[test]
fn flag_bits() {
    assert_eq!(X86Flags::X86PrefixFlag.bits(), 1);
    assert_eq!(X86Flags::X86ModregFlag.bits(), 2);
    assert_eq!(X86Flags::X86DispFlag.bits(), 4);
    assert_eq!(X86Flags::X86ImmFlag.bits(), 8);
}

#[test]
fn default_instruction_is_blank() {
    let i = X86Instruction::default();
    assert_eq!(i.length, 0);
    assert_eq!(i.op, 0);
    assert_eq!(i.prefixes, [0u8; 16]);
    assert_eq!(i.instr_flags, 0);
}

#[test]
fn decode_single_byte() {
    let (len, i) = decode_at(&[0x90, 0x00], 0);
    assert_eq!(len, 1);
    assert_eq!(i.op, 0x90);
    assert_eq!(i.instr_flags, 0);
    assert_eq!(i.length, 1);
    assert_eq!(i.addr, 0);
}

#[test]
fn decode_prefix_modrm_imm8() {
    let (len, i) = decode_at(&[0x26, 0x83, 0xC0, 0xFF], 0);
    assert_eq!(len, 4);
    assert_eq!(i.op, 0x83);
    assert_eq!(i.setprefix, PREFIX_ES);
    assert_eq!(i.prefix_cnt, 1);
    assert_eq!(i.prefixes[1], 0x26);
    assert_eq!(i.prefixes[0], 0);
    assert_eq!(i.mod_reg_rm, 0xC0);
    assert_eq!(i.instr_flags, PREFIX_FLAG | MODREG_FLAG | IMM_FLAG);
    assert_eq!(i.imm, 0xFF);
    assert_eq!(i.disp_len, 0);
}

#[test]
fn decode_direct_address() {
    // mov [0x1234], bx
    let (len, i) = decode_at(&[0x89, 0x1E, 0x34, 0x12], 0);
    assert_eq!(len, 4);
    assert_eq!(i.instr_flags, MODREG_FLAG | DISP_FLAG);
    assert_eq!(i.disp_len, 2);
    assert_eq!(i.disp, 0x1234);
}

#[test]
fn decode_disp8_and_imm16() {
    // add word [bx+5], 0x1234
    let (len, i) = decode_at(&[0x81, 0x47, 0x05, 0x34, 0x12], 0);
    assert_eq!(len, 5);
    assert_eq!(i.disp_len, 1);
    assert_eq!(i.disp, 5);
    assert_eq!(i.imm, 0x1234);
    assert_eq!(i.instr_flags, MODREG_FLAG | DISP_FLAG | IMM_FLAG);
}

#[test]
fn decode_register_operand_has_no_displacement() {
    // mov ax, cx
    let (len, i) = decode_at(&[0x8B, 0xC1], 0);
    assert_eq!(len, 2);
    assert_eq!(i.instr_flags, MODREG_FLAG);
    assert_eq!(i.disp_len, 0);
}

#[test]
fn decode_mod0_without_displacement() {
    // mov ax, [si]
    let (len, i) = decode_at(&[0x8B, 0x04, 0x99], 0);
    assert_eq!(len, 2);
    assert_eq!(i.instr_flags, MODREG_FLAG | DISP_FLAG);
    assert_eq!(i.disp_len, 0);
    assert_eq!(i.disp, 0);
}

#[test]
fn decode_two_prefixes_at_offset() {
    let (len, i) = decode_at(&[0xF4, 0xF4, 0x2E, 0x3E, 0xB8, 0x01, 0x02], 2);
    assert_eq!(len, 5);
    assert_eq!(i.addr, 2);
    assert_eq!(i.setprefix, PREFIX_CS | PREFIX_DS);
    assert_eq!(i.prefix_cnt, 2);
    assert_eq!(i.prefixes[1], 0x2E);
    assert_eq!(i.prefixes[2], 0x3E);
    assert_eq!(i.op, 0xB8);
    assert_eq!(i.imm, 0x0201);
}

#[test]
fn decode_short_jump() {
    let (len, i) = decode_at(&[0x75, 0xFD], 0);
    assert_eq!(len, 2);
    assert_eq!(i.imm, 0xFD);
    assert_eq!(i.instr_flags, IMM_FLAG);
}
