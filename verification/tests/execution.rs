use lib::cpu::{init, Cpu, AH, AL, AX, BX, CX, DX, SP};
use lib::cpu_exec::exec;
use lib::mca8086::{decode, X86Instruction};

/// Decodes and executes the instruction at IP, as one cycle does, without
/// advancing IP.
fn run_one(cpu: &mut Cpu) -> X86Instruction {
    let mut instr = X86Instruction::default();
    let ip = cpu.get_ip() as usize;
    decode(&mut instr, ip, cpu.get_mem_buff());
    exec(cpu, &instr);
    instr
}

fn cpu_with(program: &[u8]) -> Cpu {
    init(program.to_vec())
}

#[test]
fn init_loads_program() {
    let mut cpu = cpu_with(&[0xB8, 0x34, 0x12]);
    assert_eq!(cpu.get_memory(0), 0xB8);
    assert_eq!(cpu.get_memory(2), 0x12);
    assert_eq!(cpu.get_memory(3), 0);
    assert_eq!(cpu.get_memory(0xFFFFF), 0);
    assert_eq!(cpu.get_mem_buff().len(), 0x100000);
    assert_eq!(cpu.get_reg16(SP), 0x100);
    assert_eq!(cpu.get_reg16(AX), 0);
    assert_eq!(cpu.get_ip(), 0);
    assert_eq!(cpu.get_segreg(0), 0);
    assert!(!cpu.get_suspend());
    assert!(!cpu.get_unop());
    assert!(!cpu.get_jmp_taken());
}

#[test]
fn byte_registers_alias_word_registers() {
    let mut cpu = cpu_with(&[]);
    cpu.set_reg16(AX, 0x1234);
    assert_eq!(cpu.get_reg8(AL), 0x34);
    assert_eq!(cpu.get_reg8(AH), 0x12);
    cpu.set_reg8(AH, 0xAB);
    assert_eq!(cpu.get_reg16(AX), 0xAB34);
    cpu.set_reg8(AL, 0xCD);
    assert_eq!(cpu.get_reg16(AX), 0xABCD);
    cpu.set_reg8(7, 0x77); // BH
    assert_eq!(cpu.get_reg16(BX), 0x7700);
    assert_eq!(cpu.get_reg16(AX), 0xABCD);
}

#[test]
fn flag_setters_and_getters() {
    let mut cpu = cpu_with(&[]);
    cpu.set_cf(1);
    cpu.set_zf(1);
    cpu.set_sf(1);
    cpu.set_of(1);
    cpu.set_df(1);
    cpu.set_if(1);
    cpu.set_tf(1);
    cpu.set_af(1);
    cpu.set_pf(1);
    assert_eq!(
        (cpu.get_cf(), cpu.get_zf(), cpu.get_sf(), cpu.get_of(), cpu.get_df()),
        (1, 1, 1, 1, 1)
    );
    assert_eq!((cpu.get_if(), cpu.get_tf(), cpu.get_af(), cpu.get_pf()), (1, 1, 1, 1));
    cpu.set_cf(0);
    assert_eq!(cpu.get_cf(), 0);
    assert_eq!(cpu.get_zf(), 1);
}

#[test]
fn other_setters_and_getters() {
    let mut cpu = cpu_with(&[]);
    cpu.set_op(0x90);
    assert_eq!(cpu.get_op(), 0x90);
    cpu.set_unop(true);
    assert!(cpu.get_unop());
    cpu.set_jmp_taken(true);
    assert!(cpu.get_jmp_taken());
    cpu.set_suspend(true);
    assert!(cpu.get_suspend());
    cpu.set_segreg(3, 0x1000);
    assert_eq!(cpu.get_segreg(3), 0x1000);
    cpu.set_memory(0x8000, 0x41);
    assert_eq!(cpu.get_memory(0x8000), 0x41);
    cpu.set_ip(0x10);
    assert_eq!(cpu.get_ip(), 0x10);
}

#[test]
fn inc_ip_wraps() {
    let mut cpu = cpu_with(&[]);
    cpu.set_ip(0xFFFF);
    cpu.inc_ip(2);
    assert_eq!(cpu.get_ip(), 1);
}

#[test]
fn exec_latches_opcode() {
    let mut cpu = cpu_with(&[0x90]);
    run_one(&mut cpu);
    assert_eq!(cpu.get_op(), 0x90);
    assert!(!cpu.get_unop());
}

#[test]
fn add_al_wraps_and_sets_carry() {
    let mut cpu = cpu_with(&[0x04, 0x01, 0x04, 0x01]);
    cpu.set_reg8(AL, 0xFF);
    run_one(&mut cpu);
    assert_eq!(cpu.get_reg8(AL), 0);
    assert_eq!(cpu.get_cf(), 1);
    assert_eq!(cpu.get_zf(), 1);
    assert_eq!(cpu.get_sf(), 0);
    cpu.set_ip(2);
    run_one(&mut cpu);
    assert_eq!(cpu.get_reg8(AL), 1);
    assert_eq!(cpu.get_cf(), 0);
    assert_eq!(cpu.get_zf(), 0);
}

#[test]
fn add_byte_via_group1_sets_carry_and_zero() {
    // add al, 1 (0x80 /0)
    let mut cpu = cpu_with(&[0x80, 0xC0, 0x01]);
    cpu.set_reg8(AL, 0xFF);
    run_one(&mut cpu);
    assert_eq!(cpu.get_reg8(AL), 0);
    assert_eq!(cpu.get_cf(), 1);
    assert_eq!(cpu.get_zf(), 1);
    assert_eq!(cpu.get_sf(), 0);
}

#[test]
fn add_ax_sets_carry() {
    let mut cpu = cpu_with(&[0x05, 0x02, 0x00]);
    cpu.set_reg16(AX, 0xFFFF);
    run_one(&mut cpu);
    assert_eq!(cpu.get_reg16(AX), 1);
    assert_eq!(cpu.get_cf(), 1);
    assert_eq!(cpu.get_zf(), 0);
    assert_eq!(cpu.get_sf(), 0);
}

#[test]
fn add_register_to_register() {
    // add cx, dx  (01 D1: reg = DX, r/m = CX)
    let mut cpu = cpu_with(&[0x01, 0xD1]);
    cpu.set_reg16(CX, 0x8000);
    cpu.set_reg16(DX, 0x8001);
    run_one(&mut cpu);
    assert_eq!(cpu.get_reg16(CX), 1);
    assert_eq!(cpu.get_cf(), 1);
}

#[test]
fn compare_al_with_immediate() {
    let mut cpu = cpu_with(&[0x3C, 0x07]);
    cpu.set_reg8(AL, 5);
    run_one(&mut cpu);
    assert_eq!(cpu.get_zf(), 0);
    assert_eq!(cpu.get_sf(), 1);
    assert_eq!(cpu.get_cf(), 1);
    assert_eq!(cpu.get_reg8(AL), 5);
}

#[test]
fn compare_al_borrow() {
    // cmp al, 0xFF with AL = 0
    let mut cpu = cpu_with(&[0x3C, 0xFF]);
    run_one(&mut cpu);
    assert_eq!(cpu.get_cf(), 1);
    assert_eq!(cpu.get_zf(), 0);
    assert_eq!(cpu.get_sf(), 0);
    assert_eq!(cpu.get_reg8(AL), 0);
}

#[test]
fn compare_equal_words() {
    // cmp cx, dx
    let mut cpu = cpu_with(&[0x39, 0xD1]);
    cpu.set_reg16(CX, 0x4242);
    cpu.set_reg16(DX, 0x4242);
    run_one(&mut cpu);
    assert_eq!(cpu.get_zf(), 1);
    assert_eq!(cpu.get_sf(), 0);
    assert_eq!(cpu.get_cf(), 0);
}

#[test]
fn xor_clears_register() {
    // xor ax, ax
    let mut cpu = cpu_with(&[0x31, 0xC0]);
    cpu.set_reg16(AX, 0x1234);
    cpu.set_cf(1);
    run_one(&mut cpu);
    assert_eq!(cpu.get_reg16(AX), 0);
    assert_eq!(cpu.get_zf(), 1);
    assert_eq!(cpu.get_cf(), 0);
    assert_eq!(cpu.get_of(), 0);
}

#[test]
fn or_and_and_words() {
    // or cx, dx ; and cx, dx
    let mut cpu = cpu_with(&[0x09, 0xD1, 0x20, 0xD1]);
    cpu.set_reg16(CX, 0x00F0);
    cpu.set_reg16(DX, 0x8001);
    run_one(&mut cpu);
    assert_eq!(cpu.get_reg16(CX), 0x80F1);
    assert_eq!(cpu.get_sf(), 1);
    cpu.set_ip(2);
    run_one(&mut cpu);
    assert_eq!(cpu.get_reg16(CX), 0x8001);
    assert_eq!(cpu.get_sf(), 1);
}

#[test]
fn sub_and_sbb_words() {
    // sub cx, dx ; sbb cx, dx
    let mut cpu = cpu_with(&[0x29, 0xD1, 0x19, 0xD1]);
    cpu.set_reg16(CX, 3);
    cpu.set_reg16(DX, 5);
    run_one(&mut cpu);
    assert_eq!(cpu.get_reg16(CX), 0xFFFE);
    assert_eq!(cpu.get_cf(), 1);
    cpu.set_ip(2);
    run_one(&mut cpu);
    // 0xFFFE - 5 - CF(1)
    assert_eq!(cpu.get_reg16(CX), 0xFFF8);
    assert_eq!(cpu.get_cf(), 0);
    assert_eq!(cpu.get_sf(), 1);
}

#[test]
fn sbb_subtracts_the_borrow() {
    // sbb ax, cx with AX = 5, CX = 2, CF = 1
    let mut cpu = cpu_with(&[0x19, 0xC8]);
    cpu.set_reg16(AX, 5);
    cpu.set_reg16(CX, 2);
    cpu.set_cf(1);
    run_one(&mut cpu);
    assert_eq!(cpu.get_reg16(AX), 2);
    assert_eq!(cpu.get_reg16(CX), 2);
    assert_eq!(cpu.get_cf(), 0);
    assert_eq!(cpu.get_zf(), 0);
    assert_eq!(cpu.get_sf(), 0);
    // 0 - 0xFFFF - 1 borrows
    let mut cpu = cpu_with(&[0x19, 0xC8]);
    cpu.set_reg16(CX, 0xFFFF);
    cpu.set_cf(1);
    run_one(&mut cpu);
    assert_eq!(cpu.get_reg16(AX), 0);
    assert_eq!(cpu.get_cf(), 1);
    assert_eq!(cpu.get_zf(), 1);
}

#[test]
fn inc_and_dec_set_zero_and_sign_keep_carry() {
    // inc cx ; dec cx ; dec cx
    let mut cpu = cpu_with(&[0x41, 0x49, 0x49]);
    cpu.set_reg16(CX, 0xFFFF);
    cpu.set_cf(1);
    run_one(&mut cpu);
    assert_eq!(cpu.get_reg16(CX), 0);
    assert_eq!(cpu.get_zf(), 1);
    assert_eq!(cpu.get_sf(), 0);
    assert_eq!(cpu.get_cf(), 1);
    cpu.set_ip(1);
    run_one(&mut cpu);
    assert_eq!(cpu.get_reg16(CX), 0xFFFF);
    assert_eq!(cpu.get_sf(), 1);
    assert_eq!(cpu.get_cf(), 1);
    cpu.set_reg16(CX, 1);
    cpu.set_ip(2);
    run_one(&mut cpu);
    assert_eq!(cpu.get_reg16(CX), 0);
    assert_eq!(cpu.get_zf(), 1);
}

#[test]
fn push_then_pop() {
    // push ax ; pop bx
    let mut cpu = cpu_with(&[0x50, 0x5B]);
    cpu.set_reg16(AX, 0x1234);
    run_one(&mut cpu);
    assert_eq!(cpu.get_reg16(SP), 0xFE);
    assert_eq!(cpu.get_memory(0xFE), 0x34);
    assert_eq!(cpu.get_memory(0xFD), 0x12);
    cpu.set_ip(1);
    run_one(&mut cpu);
    assert_eq!(cpu.get_reg16(BX), 0x1234);
    assert_eq!(cpu.get_reg16(SP), 0x100);
}

#[test]
fn conditional_jumps() {
    // jz +4 at address 0
    let mut cpu = cpu_with(&[0x74, 0x04]);
    cpu.set_zf(0);
    run_one(&mut cpu);
    assert!(!cpu.get_jmp_taken());
    assert_eq!(cpu.get_ip(), 0);
    cpu.set_zf(1);
    run_one(&mut cpu);
    assert!(cpu.get_jmp_taken());
    assert_eq!(cpu.get_ip(), 6);
    // jnz backwards from address 0 wraps around
    let mut cpu = cpu_with(&[0x75, 0xF0]);
    run_one(&mut cpu);
    assert!(cpu.get_jmp_taken());
    assert_eq!(cpu.get_ip(), 0xFFF2);
}

#[test]
fn jumps_on_carry_sign_and_above() {
    let mut cpu = cpu_with(&[0x72, 0x02]);
    cpu.set_cf(1);
    run_one(&mut cpu);
    assert_eq!(cpu.get_ip(), 4);
    let mut cpu = cpu_with(&[0x76, 0x02]);
    cpu.set_zf(1);
    run_one(&mut cpu);
    assert_eq!(cpu.get_ip(), 4);
    let mut cpu = cpu_with(&[0x77, 0x02]);
    cpu.set_cf(1);
    run_one(&mut cpu);
    assert!(!cpu.get_jmp_taken());
    let mut cpu = cpu_with(&[0x79, 0x02]);
    cpu.set_sf(1);
    run_one(&mut cpu);
    assert!(!cpu.get_jmp_taken());
}

#[test]
fn group1_byte_immediate_as_is() {
    // add al, 0x80 with opcode 0x82
    let mut cpu = cpu_with(&[0x82, 0xC0, 0x80]);
    run_one(&mut cpu);
    assert_eq!(cpu.get_reg8(AL), 0x80);
    assert_eq!(cpu.get_sf(), 1);
    // sub al, 0x81 with opcode 0x82
    let mut cpu = cpu_with(&[0x82, 0xE8, 0x81]);
    run_one(&mut cpu);
    assert_eq!(cpu.get_reg8(AL), 0x7F);
    assert_eq!(cpu.get_cf(), 1);
    assert_eq!(cpu.get_zf(), 0);
    assert_eq!(cpu.get_sf(), 0);
}

#[test]
fn group1_or_sign_extends_with_0x83() {
    // or ax, -128
    let mut cpu = cpu_with(&[0x83, 0xC8, 0x80]);
    run_one(&mut cpu);
    assert_eq!(cpu.get_reg16(AX), 0xFF80);
    assert_eq!(cpu.get_sf(), 1);
    assert_eq!(cpu.get_zf(), 0);
    assert_eq!(cpu.get_cf(), 0);
    assert_eq!(cpu.get_of(), 0);
}

#[test]
fn group1_adc_words() {
    // adc ax, 2 with AX = 1, CF = 0
    let mut cpu = cpu_with(&[0x81, 0xD0, 0x02, 0x00]);
    cpu.set_reg16(AX, 1);
    run_one(&mut cpu);
    assert_eq!(cpu.get_reg16(AX), 3);
    assert_eq!(cpu.get_cf(), 0);
    assert_eq!(cpu.get_zf(), 0);
    assert_eq!(cpu.get_sf(), 0);
    // adc ax, 0xFFFF with AX = 0, CF = 1: carry out, result 0
    let mut cpu = cpu_with(&[0x81, 0xD0, 0xFF, 0xFF]);
    cpu.set_cf(1);
    run_one(&mut cpu);
    assert_eq!(cpu.get_reg16(AX), 0);
    assert_eq!(cpu.get_cf(), 1);
    assert_eq!(cpu.get_zf(), 1);
}

#[test]
fn group1_sign_extended_word_immediate() {
    // add ax, -1 (0x83 /0)
    let mut cpu = cpu_with(&[0x83, 0xC0, 0xFF]);
    cpu.set_reg16(AX, 1);
    run_one(&mut cpu);
    assert_eq!(cpu.get_reg16(AX), 0);
    assert_eq!(cpu.get_cf(), 1);
}

#[test]
fn group1_sub_and_cmp() {
    // sub cx, 2 (0x83 /5) ; cmp cx, 0x10 (0x81 /7)
    let mut cpu = cpu_with(&[0x83, 0xE9, 0x02, 0x81, 0xF9, 0x10, 0x00]);
    cpu.set_reg16(CX, 0x12);
    run_one(&mut cpu);
    assert_eq!(cpu.get_reg16(CX), 0x10);
    cpu.set_ip(3);
    run_one(&mut cpu);
    assert_eq!(cpu.get_zf(), 1);
    assert_eq!(cpu.get_reg16(CX), 0x10);
}

#[test]
fn group1_or_and_adc_bytes() {
    // or cl, 0x0F ; and cl, 0x3C ; adc cl, 1
    let mut cpu = cpu_with(&[0x80, 0xC9, 0x0F, 0x80, 0xE1, 0x3C, 0x80, 0xD1, 0x01]);
    cpu.set_reg8(1, 0x30);
    run_one(&mut cpu);
    assert_eq!(cpu.get_reg8(1), 0x3F);
    cpu.set_ip(3);
    run_one(&mut cpu);
    assert_eq!(cpu.get_reg8(1), 0x3C);
    cpu.set_cf(1);
    cpu.set_ip(6);
    run_one(&mut cpu);
    assert_eq!(cpu.get_reg8(1), 0x3E);
    assert_eq!(cpu.get_cf(), 0);
    assert_eq!(cpu.get_zf(), 0);
    assert_eq!(cpu.get_sf(), 0);
}

#[test]
fn group1_byte_compare_is_unsupported() {
    let mut cpu = cpu_with(&[0x80, 0xF8, 0x01]);
    run_one(&mut cpu);
    assert!(cpu.get_unop());
}

#[test]
fn memory_word_round_trip() {
    // mov [0x0200], bx ; mov cx, [0x0200]
    let mut cpu = cpu_with(&[0x89, 0x1E, 0x00, 0x02, 0x8B, 0x0E, 0x00, 0x02]);
    cpu.set_reg16(BX, 0xBEEF);
    run_one(&mut cpu);
    assert_eq!(cpu.get_memory(0x200), 0xEF);
    assert_eq!(cpu.get_memory(0x201), 0xBE);
    cpu.set_ip(4);
    run_one(&mut cpu);
    assert_eq!(cpu.get_reg16(CX), 0xBEEF);
}

#[test]
fn memory_byte_moves_with_base_register() {
    // mov [bx+si], al ; mov dl, [bx+si]
    let mut cpu = cpu_with(&[0x88, 0x00, 0x8A, 0x10]);
    cpu.set_reg16(BX, 0x300);
    cpu.set_reg16(6, 0x20); // SI
    cpu.set_reg8(AL, 0x5A);
    run_one(&mut cpu);
    assert_eq!(cpu.get_memory(0x320), 0x5A);
    cpu.set_ip(2);
    run_one(&mut cpu);
    assert_eq!(cpu.get_reg8(2), 0x5A);
}

#[test]
fn mov_immediates() {
    // mov bl, 0x12 ; mov dx, 0x3456 ; mov byte [0x0400], 0x77 ; mov word [0x0402], 0xABCD
    let mut cpu = cpu_with(&[
        0xB3, 0x12, 0xBA, 0x56, 0x34, 0xC6, 0x06, 0x00, 0x04, 0x77, 0xC7, 0x06, 0x02, 0x04, 0xCD,
        0xAB,
    ]);
    run_one(&mut cpu);
    assert_eq!(cpu.get_reg8(3), 0x12);
    cpu.set_ip(2);
    run_one(&mut cpu);
    assert_eq!(cpu.get_reg16(DX), 0x3456);
    cpu.set_ip(5);
    run_one(&mut cpu);
    assert_eq!(cpu.get_memory(0x400), 0x77);
    cpu.set_ip(10);
    run_one(&mut cpu);
    assert_eq!(cpu.get_memory(0x402), 0xCD);
    assert_eq!(cpu.get_memory(0x403), 0xAB);
}

#[test]
fn exchanges() {
    // xchg ax, dx ; xchg ax, dx ; xchg cl, al (86 C8)
    let mut cpu = cpu_with(&[0x92, 0x92, 0x86, 0xC8]);
    cpu.set_reg16(AX, 1);
    cpu.set_reg16(DX, 2);
    run_one(&mut cpu);
    assert_eq!((cpu.get_reg16(AX), cpu.get_reg16(DX)), (2, 1));
    cpu.set_ip(1);
    run_one(&mut cpu);
    assert_eq!((cpu.get_reg16(AX), cpu.get_reg16(DX)), (1, 2));
    cpu.set_reg8(1, 0x33);
    cpu.set_ip(2);
    run_one(&mut cpu);
    assert_eq!(cpu.get_reg8(AL), 0x33);
    assert_eq!(cpu.get_reg8(1), 1);
}

#[test]
fn inc_and_dec_memory_byte() {
    // inc byte [0x0100] ; dec byte [0x0100]
    let mut cpu = cpu_with(&[0xFE, 0x06, 0x00, 0x01, 0xFE, 0x0E, 0x00, 0x01]);
    cpu.set_memory(0x100, 0xFF);
    run_one(&mut cpu);
    assert_eq!(cpu.get_memory(0x100), 0);
    assert_eq!(cpu.get_zf(), 1);
    assert_eq!(cpu.get_cf(), 0);
    cpu.set_ip(4);
    run_one(&mut cpu);
    assert_eq!(cpu.get_memory(0x100), 0xFF);
    assert_eq!(cpu.get_sf(), 1);
}

#[test]
fn call_and_ret() {
    // call +2 ; hlt ; nop ; ret
    let mut cpu = cpu_with(&[0xE8, 0x02, 0x00, 0xF4, 0x90, 0xC3]);
    run_one(&mut cpu);
    assert_eq!(cpu.get_ip(), 5);
    assert!(cpu.get_jmp_taken());
    assert_eq!(cpu.get_reg16(SP), 0xFE);
    run_one(&mut cpu);
    assert_eq!(cpu.get_ip(), 3);
    assert_eq!(cpu.get_reg16(SP), 0x100);
}

#[test]
fn halt_stc_and_unsupported() {
    let mut cpu = cpu_with(&[0xF9, 0xF4, 0x0F]);
    run_one(&mut cpu);
    assert_eq!(cpu.get_cf(), 1);
    cpu.set_ip(1);
    run_one(&mut cpu);
    assert!(cpu.get_suspend());
    cpu.set_ip(2);
    run_one(&mut cpu);
    assert!(cpu.get_unop());
    assert_eq!(cpu.get_op(), 0x0F);
}

#[test]
fn segment_prefix_changes_nothing() {
    // mov [0x0200], bx with and without an ES: prefix
    let mut plain = cpu_with(&[0x89, 0x1E, 0x00, 0x02]);
    let mut prefixed = cpu_with(&[0x26, 0x89, 0x1E, 0x00, 0x02]);
    plain.set_reg16(BX, 0x1357);
    prefixed.set_reg16(BX, 0x1357);
    let a = run_one(&mut plain);
    let b = run_one(&mut prefixed);
    assert_eq!(a.length + 1, b.length);
    assert_eq!(plain.get_memory(0x200), prefixed.get_memory(0x200));
    assert_eq!(prefixed.get_memory(0x200), 0x57);
    assert_eq!(prefixed.get_memory(0x201), 0x13);
}

#[test]
fn dec_undoes_inc_on_every_register() {
    for r in 0..8u8 {
        let mut cpu = cpu_with(&[0x40 + r, 0x48 + r]);
        cpu.set_reg16(r as usize, 0xFFFF);
        run_one(&mut cpu);
        cpu.set_ip(1);
        run_one(&mut cpu);
        assert_eq!(cpu.get_reg16(r as usize), 0xFFFF);
    }
}

#[test]
fn inc_byte_register_sets_zero_keeps_carry() {
    // inc al
    let mut cpu = cpu_with(&[0xFE, 0xC0]);
    cpu.set_reg8(AL, 0xFF);
    run_one(&mut cpu);
    assert_eq!(cpu.get_reg8(AL), 0);
    assert_eq!(cpu.get_zf(), 1);
    assert_eq!(cpu.get_sf(), 0);
    assert_eq!(cpu.get_cf(), 0);
    assert!(!cpu.get_unop());
}
