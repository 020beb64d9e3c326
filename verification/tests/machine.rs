use lib::cpu::{init, Cpu, BX, CX, SP};
use lib::machine::{can_step, step};

fn run(cpu: &mut Cpu, max_cycles: usize) -> usize {
    for n in 0..max_cycles {
        assert!(can_step(cpu));
        let (stop, _) = step(cpu);
        if stop {
            return n + 1;
        }
    }
    panic!("no halt");
}

#[test]
fn program_push_pop_halt() {
    // mov ax, 0x1234 ; push ax ; pop bx ; hlt
    let mut cpu = init(vec![0xB8, 0x34, 0x12, 0x50, 0x5B, 0xF4]);
    let cycles = run(&mut cpu, 10);
    assert_eq!(cycles, 4);
    assert_eq!(cpu.get_reg16(BX), 0x1234);
    assert_eq!(cpu.get_reg16(SP), 0x100);
    assert_eq!(cpu.get_ip(), 6);
    assert!(cpu.get_suspend());
}

#[test]
fn program_call_ret() {
    // call +2 ; hlt ; nop ; ret
    let mut cpu = init(vec![0xE8, 0x02, 0x00, 0xF4, 0x90, 0xC3]);
    let cycles = run(&mut cpu, 10);
    assert_eq!(cycles, 3);
    assert_eq!(cpu.get_ip(), 4);
    assert_eq!(cpu.get_reg16(SP), 0x100);
}

#[test]
fn program_counting_loop() {
    // mov cx, 3 ; l: dec cx ; jnz l ; hlt
    let mut cpu = init(vec![0xB9, 0x03, 0x00, 0x49, 0x75, 0xFD, 0xF4]);
    let cycles = run(&mut cpu, 20);
    assert_eq!(cycles, 8);
    assert_eq!(cpu.get_reg16(CX), 0);
    assert_eq!(cpu.get_zf(), 1);
    assert_eq!(cpu.get_ip(), 7);
    assert!(!cpu.get_jmp_taken());
}

#[test]
fn step_stops_on_unsupported_opcode() {
    let mut cpu = init(vec![0x90, 0x0F, 0x01]);
    let (stop, i) = step(&mut cpu);
    assert!(!stop);
    assert_eq!(i.op, 0x90);
    assert_eq!(cpu.get_ip(), 1);
    let (stop, i) = step(&mut cpu);
    assert!(stop);
    assert_eq!(i.op, 0x0F);
    assert!(cpu.get_unop());
}

#[test]
fn step_clears_jump_mark() {
    let mut cpu = init(vec![0xEB, 0x00, 0xF4]);
    let (stop, _) = step(&mut cpu);
    assert!(!stop);
    assert_eq!(cpu.get_ip(), 2);
    assert!(!cpu.get_jmp_taken());
}

#[test]
fn can_step_refuses_faulting_cycles() {
    // pop with SP = 0
    let mut cpu = init(vec![0x58]);
    cpu.set_reg16(SP, 0);
    assert!(!can_step(&mut cpu));
    // push with SP = 2
    let mut cpu = init(vec![0x50]);
    cpu.set_reg16(SP, 2);
    assert!(!can_step(&mut cpu));
    cpu.set_reg16(SP, 4);
    assert!(can_step(&mut cpu));
    // sixteen prefixes
    let mut cpu = init(vec![0x26; 16]);
    assert!(!can_step(&mut cpu));
    // fifteen prefixes and an opcode
    let mut prog = vec![0x3E; 15];
    prog.push(0x90);
    let mut cpu = init(prog);
    assert!(can_step(&mut cpu));
    let (_, i) = step(&mut cpu);
    assert_eq!(i.prefix_cnt, 15);
    assert_eq!(i.length, 16);
    assert_eq!(cpu.get_ip(), 16);
}
