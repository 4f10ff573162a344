use rust_gb::cpu::Cpu;
use rust_gb::error::CoreError;

fn flow_machine(program: &[u8]) -> Cpu {
    let mut rom = vec![0u8; 0x8000];
    rom[0x100..0x100 + program.len()].copy_from_slice(program);
    Cpu::new(rom).unwrap()
}

fn flow_machine_at(chunks: &[(usize, &[u8])]) -> Cpu {
    let mut rom = vec![0u8; 0x8000];
    for (at, bytes) in chunks {
        rom[*at..*at + bytes.len()].copy_from_slice(bytes);
    }
    Cpu::new(rom).unwrap()
}

#[test]
fn new_machine_starts_at_the_entry_point() {
    let cpu = flow_machine(&[]);
    assert_eq!(cpu.pc, 0x0100);
    assert_eq!(cpu.sp, 0xFFFE);
    assert_eq!(cpu.rg.a, 0);
    assert_eq!(cpu.rg.f, 0);
    assert!(!cpu.ime);
    assert!(!cpu.halted);
    assert!(cpu.is_valid());
    assert_eq!(cpu.mmu.read_byte(0xFF40), Ok(0x00));
    assert_eq!(cpu.mmu.read_byte(0xFF0F), Ok(0xE0));
}

#[test]
fn boot_gives_the_register_snapshot() {
    let cpu = Cpu::boot(vec![0u8; 0x8000]).unwrap();
    assert_eq!(cpu.rg.a, 0x01);
    assert_eq!(cpu.rg.f, 0xB0);
    assert_eq!(cpu.rg.b, 0x00);
    assert_eq!(cpu.rg.c, 0x13);
    assert_eq!(cpu.rg.d, 0x00);
    assert_eq!(cpu.rg.e, 0xD8);
    assert_eq!(cpu.rg.h, 0x01);
    assert_eq!(cpu.rg.l, 0x4D);
    assert_eq!(cpu.sp, 0xFFFE);
    assert_eq!(cpu.pc, 0x0100);
    assert_eq!((cpu.z, cpu.n, cpu.h, cpu.c), (true, false, true, true));
    assert_eq!(cpu.mmu.timer.div, 0xABCC);
    assert_eq!(cpu.mmu.read_byte(0xFF04), Ok(0xAB));
    assert_eq!(cpu.mmu.read_byte(0xFF40), Ok(0x91));
    assert_eq!(cpu.mmu.read_byte(0xFF41), Ok(0x85));
    assert_eq!(cpu.mmu.read_byte(0xFF47), Ok(0xFC));
    assert_eq!(cpu.mmu.read_byte(0xFF0F), Ok(0xE1));
    assert_eq!(cpu.mmu.read_byte(0xFF02), Ok(0x7E));
    assert!(cpu.is_valid());
}

#[test]
fn new_rejects_an_unsupported_mapper() {
    let mut rom = vec![0u8; 0x8000];
    rom[0x147] = 0x05;
    assert!(matches!(Cpu::new(rom.clone()), Err(CoreError::UnsupportedMapper(0x05))));
    assert!(matches!(Cpu::boot(rom), Err(CoreError::UnsupportedMapper(0x05))));
}

#[test]
fn nop_loop() {
    let mut cpu = flow_machine(&[0x00, 0x00, 0x00, 0xC3, 0x00, 0x01]);
    let mut total: u32 = 0;
    for i in 0..1000u32 {
        let out = cpu.tick().unwrap();
        let expected = if i % 4 == 3 { 4 } else { 1 };
        assert_eq!(out.m_cycles, expected);
        assert_eq!(out.sb, None);
        assert!(!out.draw);
        total += out.m_cycles;
    }
    assert_eq!(cpu.pc, 0x0100);
    assert_eq!(total, 250 * 7);
    assert_eq!(cpu.mmu.iflags.line, 0);
    assert_eq!(cpu.mmu.read_byte(0xFF0F), Ok(0xE0));
    assert_eq!(cpu.sp, 0xFFFE);
}

#[test]
fn nop_loop_one_tick_short_of_the_jump() {
    let mut cpu = flow_machine(&[0x00, 0x00, 0x00, 0xC3, 0x00, 0x01]);
    for _ in 0..1001u32 {
        cpu.tick().unwrap();
    }
    assert_eq!(cpu.pc, 0x0101);
}

#[test]
fn conditional_jp_timing() {
    let mut cpu = flow_machine(&[0xCA, 0x34, 0x12]);
    let out = cpu.tick().unwrap();
    assert_eq!(out.m_cycles, 3);
    assert_eq!(cpu.pc, 0x0103);
    let mut cpu = flow_machine(&[0xCA, 0x34, 0x12]);
    cpu.z = true;
    cpu.set_flags();
    let out = cpu.tick().unwrap();
    assert_eq!(out.m_cycles, 4);
    assert_eq!(cpu.pc, 0x1234);
}

#[test]
fn jp_on_the_other_conditions() {
    let mut cpu = flow_machine(&[0xC2, 0x00, 0x20]);
    assert_eq!(cpu.tick().unwrap().m_cycles, 4);
    assert_eq!(cpu.pc, 0x2000);
    let mut cpu = flow_machine(&[0xD2, 0x00, 0x20]);
    assert_eq!(cpu.tick().unwrap().m_cycles, 4);
    assert_eq!(cpu.pc, 0x2000);
    let mut cpu = flow_machine(&[0xDA, 0x00, 0x20]);
    assert_eq!(cpu.tick().unwrap().m_cycles, 3);
    assert_eq!(cpu.pc, 0x0103);
    let mut cpu = flow_machine(&[0x37, 0xDA, 0x00, 0x20]);
    cpu.tick().unwrap();
    assert_eq!(cpu.tick().unwrap().m_cycles, 4);
    assert_eq!(cpu.pc, 0x2000);
}

#[test]
fn jp_hl_costs_one_cycle() {
    let mut cpu = flow_machine(&[0x21, 0x00, 0x30, 0xE9]);
    cpu.tick().unwrap();
    assert_eq!(cpu.tick().unwrap().m_cycles, 1);
    assert_eq!(cpu.pc, 0x3000);
}

#[test]
fn jr_forward_backward_and_not_taken() {
    let mut cpu = flow_machine(&[0x18, 0x02]);
    assert_eq!(cpu.tick().unwrap().m_cycles, 3);
    assert_eq!(cpu.pc, 0x0104);
    let mut cpu = flow_machine(&[0x18, 0xFE]);
    assert_eq!(cpu.tick().unwrap().m_cycles, 3);
    assert_eq!(cpu.pc, 0x0100);
    let mut cpu = flow_machine(&[0x28, 0x05]);
    assert_eq!(cpu.tick().unwrap().m_cycles, 2);
    assert_eq!(cpu.pc, 0x0102);
    let mut cpu = flow_machine(&[0x20, 0x05]);
    assert_eq!(cpu.tick().unwrap().m_cycles, 3);
    assert_eq!(cpu.pc, 0x0107);
    let mut cpu = flow_machine(&[0x30, 0x80]);
    assert_eq!(cpu.tick().unwrap().m_cycles, 3);
    assert_eq!(cpu.pc, 0x0082);
    let mut cpu = flow_machine(&[0x38, 0x05]);
    assert_eq!(cpu.tick().unwrap().m_cycles, 2);
}

#[test]
fn call_and_ret() {
    let mut cpu = flow_machine_at(&[(0x100, &[0xCD, 0x00, 0x02]), (0x200, &[0xC9])]);
    let out = cpu.tick().unwrap();
    assert_eq!(out.m_cycles, 6);
    assert_eq!(cpu.pc, 0x0200);
    assert_eq!(cpu.sp, 0xFFFC);
    assert_eq!(cpu.mmu.read_byte(0xFFFC), Ok(0x03));
    assert_eq!(cpu.mmu.read_byte(0xFFFD), Ok(0x01));
    let out = cpu.tick().unwrap();
    assert_eq!(out.m_cycles, 4);
    assert_eq!(cpu.pc, 0x0103);
    assert_eq!(cpu.sp, 0xFFFE);
}

#[test]
fn conditional_call_and_ret_timing() {
    let mut cpu = flow_machine(&[0xCC, 0x00, 0x02]);
    assert_eq!(cpu.tick().unwrap().m_cycles, 3);
    assert_eq!(cpu.pc, 0x0103);
    assert_eq!(cpu.sp, 0xFFFE);
    let mut cpu = flow_machine_at(&[(0x100, &[0xC4, 0x00, 0x02]), (0x200, &[0xC8, 0xC0])]);
    assert_eq!(cpu.tick().unwrap().m_cycles, 6);
    assert_eq!(cpu.tick().unwrap().m_cycles, 2);
    assert_eq!(cpu.pc, 0x0201);
    assert_eq!(cpu.tick().unwrap().m_cycles, 5);
    assert_eq!(cpu.pc, 0x0103);
    let mut cpu = flow_machine_at(&[(0x100, &[0xD4, 0x00, 0x02]), (0x200, &[0xD8, 0xD0])]);
    assert_eq!(cpu.tick().unwrap().m_cycles, 6);
    assert_eq!(cpu.tick().unwrap().m_cycles, 2);
    assert_eq!(cpu.tick().unwrap().m_cycles, 5);
    let mut cpu = flow_machine(&[0xDC, 0x00, 0x02]);
    assert_eq!(cpu.tick().unwrap().m_cycles, 3);
}

#[test]
fn rst_calls_its_vector() {
    let vectors: [(u8, u16); 8] = [
        (0xC7, 0x00),
        (0xCF, 0x08),
        (0xD7, 0x10),
        (0xDF, 0x18),
        (0xE7, 0x20),
        (0xEF, 0x28),
        (0xF7, 0x30),
        (0xFF, 0x38),
    ];
    for (opcode, vector) in vectors {
        let mut cpu = flow_machine(&[opcode]);
        let out = cpu.tick().unwrap();
        assert_eq!(out.m_cycles, 4);
        assert_eq!(cpu.pc, vector);
        assert_eq!(cpu.sp, 0xFFFC);
        assert_eq!(cpu.mmu.read_word(0xFFFC), Ok(0x0101));
    }
}

#[test]
fn reti_sets_the_master_enable() {
    let mut cpu = flow_machine_at(&[(0x100, &[0xCD, 0x00, 0x02]), (0x200, &[0xD9])]);
    cpu.tick().unwrap();
    assert!(!cpu.ime);
    let out = cpu.tick().unwrap();
    assert_eq!(out.m_cycles, 4);
    assert!(cpu.ime);
    assert_eq!(cpu.pc, 0x0103);
}

#[test]
fn push_then_pop_restores_the_pair() {
    let mut cpu = flow_machine(&[0x01, 0x34, 0x12, 0xC5, 0x01, 0x00, 0x00, 0xC1]);
    cpu.tick().unwrap();
    let out = cpu.tick().unwrap();
    assert_eq!(out.m_cycles, 4);
    assert_eq!(cpu.sp, 0xFFFC);
    cpu.tick().unwrap();
    assert_eq!((cpu.rg.b, cpu.rg.c), (0, 0));
    let out = cpu.tick().unwrap();
    assert_eq!(out.m_cycles, 3);
    assert_eq!((cpu.rg.b, cpu.rg.c), (0x12, 0x34));
    assert_eq!(cpu.sp, 0xFFFE);
}

#[test]
fn push_and_pop_between_pairs() {
    let mut cpu = flow_machine(&[0x11, 0xCD, 0xAB, 0xD5, 0xE1, 0x21, 0x78, 0x56, 0xE5, 0xD1]);
    for _ in 0..3 {
        cpu.tick().unwrap();
    }
    assert_eq!((cpu.rg.h, cpu.rg.l), (0xAB, 0xCD));
    for _ in 0..3 {
        cpu.tick().unwrap();
    }
    assert_eq!((cpu.rg.d, cpu.rg.e), (0x56, 0x78));
}

#[test]
fn pop_af_masks_the_low_nibble() {
    let mut cpu = flow_machine(&[0x01, 0xFF, 0x12, 0xC5, 0xF1, 0xF5, 0xD1]);
    for _ in 0..3 {
        cpu.tick().unwrap();
    }
    assert_eq!(cpu.rg.a, 0x12);
    assert_eq!(cpu.rg.f, 0xF0);
    assert_eq!((cpu.z, cpu.n, cpu.h, cpu.c), (true, true, true, true));
    cpu.tick().unwrap();
    cpu.tick().unwrap();
    assert_eq!((cpu.rg.d, cpu.rg.e), (0x12, 0xF0));
}

#[test]
fn push_af_then_pop_af_restores_the_flags() {
    let mut cpu = flow_machine(&[0x3E, 0x0F, 0xC6, 0x01, 0xF5, 0xAF, 0xF1]);
    cpu.tick().unwrap();
    cpu.tick().unwrap();
    assert_eq!((cpu.rg.a, cpu.rg.f), (0x10, 0x20));
    cpu.tick().unwrap();
    cpu.tick().unwrap();
    assert_eq!((cpu.rg.a, cpu.rg.f), (0x00, 0x80));
    cpu.tick().unwrap();
    assert_eq!((cpu.rg.a, cpu.rg.f), (0x10, 0x20));
    assert_eq!((cpu.z, cpu.n, cpu.h, cpu.c), (false, false, true, false));
}

#[test]
fn loads_between_registers_and_memory() {
    let mut cpu = flow_machine(&[0x21, 0x00, 0xC0, 0x3E, 0x5A, 0x77, 0x46, 0x48, 0x70]);
    cpu.tick().unwrap();
    assert_eq!(cpu.tick().unwrap().m_cycles, 2);
    assert_eq!(cpu.tick().unwrap().m_cycles, 2);
    assert_eq!(cpu.mmu.read_byte(0xC000), Ok(0x5A));
    assert_eq!(cpu.tick().unwrap().m_cycles, 2);
    assert_eq!(cpu.rg.b, 0x5A);
    assert_eq!(cpu.tick().unwrap().m_cycles, 1);
    assert_eq!(cpu.rg.c, 0x5A);
    assert_eq!(cpu.tick().unwrap().m_cycles, 2);
}

#[test]
fn load_immediates() {
    let mut cpu = flow_machine(&[0x01, 0x34, 0x12, 0x11, 0x78, 0x56, 0x21, 0xBC, 0x9A, 0x31, 0xF0, 0xDE]);
    for _ in 0..4 {
        assert_eq!(cpu.tick().unwrap().m_cycles, 3);
    }
    assert_eq!((cpu.rg.b, cpu.rg.c), (0x12, 0x34));
    assert_eq!((cpu.rg.d, cpu.rg.e), (0x56, 0x78));
    assert_eq!((cpu.rg.h, cpu.rg.l), (0x9A, 0xBC));
    assert_eq!(cpu.sp, 0xDEF0);
    let mut cpu = flow_machine(&[0x06, 1, 0x0E, 2, 0x16, 3, 0x1E, 4, 0x26, 5, 0x2E, 6, 0x3E, 7]);
    for _ in 0..7 {
        assert_eq!(cpu.tick().unwrap().m_cycles, 2);
    }
    assert_eq!(
        (cpu.rg.b, cpu.rg.c, cpu.rg.d, cpu.rg.e, cpu.rg.h, cpu.rg.l, cpu.rg.a),
        (1, 2, 3, 4, 5, 6, 7)
    );
}

#[test]
fn indirect_loads_step_hl() {
    let mut cpu = flow_machine(&[0x21, 0x00, 0xC0, 0x3E, 0x11, 0x22, 0x3E, 0x22, 0x32, 0x2A, 0x3A]);
    cpu.tick().unwrap();
    cpu.tick().unwrap();
    assert_eq!(cpu.tick().unwrap().m_cycles, 2);
    assert_eq!((cpu.rg.h, cpu.rg.l), (0xC0, 0x01));
    cpu.tick().unwrap();
    assert_eq!(cpu.tick().unwrap().m_cycles, 2);
    assert_eq!((cpu.rg.h, cpu.rg.l), (0xC0, 0x00));
    assert_eq!(cpu.mmu.read_word(0xC000), Ok(0x2211));
    assert_eq!(cpu.tick().unwrap().m_cycles, 2);
    assert_eq!(cpu.rg.a, 0x11);
    assert_eq!((cpu.rg.h, cpu.rg.l), (0xC0, 0x01));
    assert_eq!(cpu.tick().unwrap().m_cycles, 2);
    assert_eq!(cpu.rg.a, 0x22);
    assert_eq!((cpu.rg.h, cpu.rg.l), (0xC0, 0x00));
}

#[test]
fn loads_through_bc_and_de() {
    let mut cpu = flow_machine(&[0x01, 0x10, 0xC0, 0x11, 0x20, 0xC0, 0x3E, 0x77, 0x02, 0x12, 0xAF, 0x0A, 0xAF, 0x1A]);
    for _ in 0..5 {
        cpu.tick().unwrap();
    }
    assert_eq!(cpu.mmu.read_byte(0xC010), Ok(0x77));
    assert_eq!(cpu.mmu.read_byte(0xC020), Ok(0x77));
    cpu.tick().unwrap();
    assert_eq!(cpu.tick().unwrap().m_cycles, 2);
    assert_eq!(cpu.rg.a, 0x77);
    cpu.tick().unwrap();
    cpu.tick().unwrap();
    assert_eq!(cpu.rg.a, 0x77);
}

#[test]
fn absolute_loads_and_store_of_sp() {
    let mut cpu = flow_machine(&[0x3E, 0x99, 0xEA, 0x00, 0xC1, 0xAF, 0xFA, 0x00, 0xC1, 0x31, 0x34, 0x12, 0x08, 0x00, 0xC0, 0xF9]);
    cpu.tick().unwrap();
    assert_eq!(cpu.tick().unwrap().m_cycles, 4);
    assert_eq!(cpu.mmu.read_byte(0xC100), Ok(0x99));
    cpu.tick().unwrap();
    assert_eq!(cpu.tick().unwrap().m_cycles, 4);
    assert_eq!(cpu.rg.a, 0x99);
    cpu.tick().unwrap();
    assert_eq!(cpu.tick().unwrap().m_cycles, 5);
    assert_eq!(cpu.mmu.read_byte(0xC000), Ok(0x34));
    assert_eq!(cpu.mmu.read_byte(0xC001), Ok(0x12));
    assert_eq!(cpu.tick().unwrap().m_cycles, 2);
    assert_eq!(cpu.sp, 0x0000);
}

#[test]
fn high_page_loads() {
    let mut cpu = flow_machine(&[0x3E, 0x42, 0xE0, 0x80, 0x0E, 0x81, 0xE2, 0xAF, 0xF0, 0x80, 0xAF, 0xF2]);
    cpu.tick().unwrap();
    assert_eq!(cpu.tick().unwrap().m_cycles, 3);
    assert_eq!(cpu.mmu.read_byte(0xFF80), Ok(0x42));
    cpu.tick().unwrap();
    assert_eq!(cpu.tick().unwrap().m_cycles, 2);
    assert_eq!(cpu.mmu.read_byte(0xFF81), Ok(0x42));
    cpu.tick().unwrap();
    assert_eq!(cpu.tick().unwrap().m_cycles, 3);
    assert_eq!(cpu.rg.a, 0x42);
    cpu.tick().unwrap();
    assert_eq!(cpu.tick().unwrap().m_cycles, 2);
    assert_eq!(cpu.rg.a, 0x42);
}

#[test]
fn stop_skips_one_byte() {
    let mut cpu = flow_machine(&[0x10, 0x3C, 0x3C]);
    assert_eq!(cpu.tick().unwrap().m_cycles, 1);
    assert_eq!(cpu.pc, 0x0102);
    cpu.tick().unwrap();
    assert_eq!(cpu.rg.a, 1);
    assert_eq!(cpu.pc, 0x0103);
}

#[test]
fn illegal_opcodes_are_fatal() {
    for opcode in [0xD3u8, 0xDB, 0xDD, 0xE3, 0xE4, 0xEB, 0xEC, 0xED, 0xF4, 0xFC, 0xFD] {
        let mut cpu = flow_machine(&[opcode]);
        assert_eq!(cpu.exec(opcode), Err(CoreError::IllegalOpcode(opcode)));
        let mut cpu = flow_machine(&[opcode]);
        assert!(matches!(cpu.tick(), Err(CoreError::IllegalOpcode(op)) if op == opcode));
        let mut cpu = flow_machine(&[opcode]);
        assert_eq!(cpu.cycle(), Err(CoreError::IllegalOpcode(opcode)));
    }
}

#[test]
fn every_other_opcode_executes() {
    let illegal = [0xD3u8, 0xDB, 0xDD, 0xE3, 0xE4, 0xEB, 0xEC, 0xED, 0xF4, 0xFC, 0xFD];
    for opcode in 0..=255u8 {
        if illegal.contains(&opcode) {
            continue;
        }
        let mut cpu = flow_machine(&[0x00]);
        cpu.pc = 0xC000;
        cpu.sp = 0xD000;
        cpu.rg.h = 0xC1;
        cpu.rg.b = 0xC2;
        cpu.rg.d = 0xC3;
        cpu.mmu.write_byte(0xC000, 0x10).unwrap();
        cpu.mmu.write_byte(0xC001, 0xC4).unwrap();
        let cycles = cpu.exec(opcode).unwrap();
        assert!((1..=6).contains(&cycles), "opcode {:#04x}", opcode);
    }
}

#[test]
fn access_to_an_unmapped_address_is_fatal() {
    let mut cpu = flow_machine(&[0xFA, 0x00, 0xE0]);
    assert!(matches!(cpu.tick(), Err(CoreError::Unmapped(0xE000))));
    let mut cpu = flow_machine(&[0xEA, 0xFF, 0xFD]);
    assert!(matches!(cpu.tick(), Err(CoreError::Unmapped(0xFDFF))));
    let mut cpu = flow_machine(&[0x31, 0x01, 0xE0, 0xC5]);
    cpu.tick().unwrap();
    assert!(matches!(cpu.tick(), Err(CoreError::Unmapped(0xE000))));
    let mut cpu = flow_machine(&[0x00]);
    cpu.pc = 0xF000;
    assert!(matches!(cpu.tick(), Err(CoreError::Unmapped(0xF000))));
    assert_eq!(cpu.read_byte(0xE123), Err(CoreError::Unmapped(0xE123)));
    assert_eq!(cpu.write_byte(0xE123, 1), Err(CoreError::Unmapped(0xE123)));
}

#[test]
fn halt_stops_until_an_interrupt_is_pending() {
    let mut cpu = flow_machine(&[0x76, 0x3C]);
    assert_eq!(cpu.tick().unwrap().m_cycles, 1);
    assert!(cpu.halted);
    for _ in 0..5 {
        assert_eq!(cpu.tick().unwrap().m_cycles, 1);
        assert_eq!(cpu.pc, 0x0101);
    }
    cpu.mmu.write_byte(0xFFFF, 0x04).unwrap();
    cpu.mmu.write_byte(0xFF0F, 0x04).unwrap();
    let out = cpu.tick().unwrap();
    assert!(!cpu.halted);
    assert_eq!(out.m_cycles, 1);
    assert_eq!(cpu.rg.a, 1);
    assert_eq!(cpu.pc, 0x0102);
    assert_eq!(cpu.mmu.read_byte(0xFF0F), Ok(0xE4));
}

#[test]
fn halt_ends_with_a_dispatch_when_the_master_enable_is_set() {
    let mut cpu = flow_machine_at(&[(0x100, &[0x76]), (0x50, &[0x3C])]);
    cpu.ime = true;
    cpu.tick().unwrap();
    assert!(cpu.halted);
    cpu.mmu.write_byte(0xFFFF, 0x04).unwrap();
    cpu.mmu.write_byte(0xFF0F, 0x04).unwrap();
    let out = cpu.tick().unwrap();
    assert_eq!(out.m_cycles, 6);
    assert!(!cpu.halted);
    assert!(!cpu.ime);
    assert_eq!(cpu.pc, 0x0051);
    assert_eq!(cpu.rg.a, 1);
    assert_eq!(cpu.mmu.read_word(0xFFFC), Ok(0x0101));
    assert_eq!(cpu.mmu.read_byte(0xFF0F), Ok(0xE0));
}

#[test]
fn ei_takes_effect_after_the_next_instruction() {
    let mut cpu = flow_machine(&[0xFB, 0x00, 0x00, 0x00]);
    cpu.mmu.write_byte(0xFFFF, 0x01).unwrap();
    cpu.mmu.write_byte(0xFF0F, 0x01).unwrap();
    assert_eq!(cpu.tick().unwrap().m_cycles, 1);
    assert!(!cpu.ime);
    assert!(cpu.ei);
    assert_eq!(cpu.tick().unwrap().m_cycles, 1);
    assert!(cpu.ime);
    assert!(!cpu.ei);
    assert_eq!(cpu.pc, 0x0102);
    let out = cpu.tick().unwrap();
    assert_eq!(out.m_cycles, 6);
    assert_eq!(cpu.pc, 0x0041);
    assert!(!cpu.ime);
    assert_eq!(cpu.sp, 0xFFFC);
    assert_eq!(cpu.mmu.read_word(0xFFFC), Ok(0x0102));
    assert_eq!(cpu.mmu.read_byte(0xFF0F), Ok(0xE0));
}

#[test]
fn ei_twice_delays_once_more() {
    let mut cpu = flow_machine(&[0xFB, 0xFB, 0x00]);
    cpu.tick().unwrap();
    cpu.tick().unwrap();
    assert!(!cpu.ime);
    assert!(cpu.ei);
    cpu.tick().unwrap();
    assert!(cpu.ime);
}

#[test]
fn di_is_immediate_and_cancels_a_pending_ei() {
    let mut cpu = flow_machine(&[0xFB, 0xF3, 0x00, 0x00]);
    cpu.mmu.write_byte(0xFFFF, 0x01).unwrap();
    cpu.mmu.write_byte(0xFF0F, 0x01).unwrap();
    cpu.tick().unwrap();
    assert_eq!(cpu.tick().unwrap().m_cycles, 1);
    assert!(!cpu.ime);
    assert!(!cpu.ei);
    cpu.tick().unwrap();
    cpu.tick().unwrap();
    assert_eq!(cpu.pc, 0x0104);
    let mut cpu = flow_machine(&[0xF3, 0x00]);
    cpu.ime = true;
    cpu.mmu.write_byte(0xFFFF, 0x01).unwrap();
    cpu.tick().unwrap();
    assert!(!cpu.ime);
    cpu.mmu.write_byte(0xFF0F, 0x01).unwrap();
    cpu.tick().unwrap();
    assert_eq!(cpu.pc, 0x0102);
}

#[test]
fn interrupts_are_served_in_order_of_priority() {
    let vectors: [(u8, u16); 5] = [(0x01, 0x40), (0x02, 0x48), (0x04, 0x50), (0x08, 0x58), (0x10, 0x60)];
    let mut cpu = flow_machine(&[0x00]);
    cpu.mmu.write_byte(0xFFFF, 0x1F).unwrap();
    cpu.mmu.write_byte(0xFF0F, 0x1F).unwrap();
    let mut left: u8 = 0x1F;
    for (mask, vector) in vectors {
        cpu.ime = true;
        let out = cpu.tick().unwrap();
        assert_eq!(out.m_cycles, 6);
        assert_eq!(cpu.pc, vector + 1);
        left &= !mask;
        assert_eq!(cpu.mmu.iflags.line, left);
        assert!(!cpu.ime);
    }
    cpu.ime = true;
    let out = cpu.tick().unwrap();
    assert_eq!(out.m_cycles, 1);
}

#[test]
fn a_request_that_is_not_enabled_is_not_served() {
    let mut cpu = flow_machine(&[0x00, 0x00]);
    cpu.ime = true;
    cpu.mmu.write_byte(0xFFFF, 0x02).unwrap();
    cpu.mmu.write_byte(0xFF0F, 0x01).unwrap();
    assert_eq!(cpu.tick().unwrap().m_cycles, 1);
    assert_eq!(cpu.pc, 0x0101);
    assert!(cpu.ime);
}

#[test]
fn serial_echo() {
    let mut cpu = flow_machine(&[0x3E, 0x42, 0xE0, 0x01, 0x3E, 0x81, 0xE0, 0x02, 0x00]);
    for _ in 0..3 {
        let out = cpu.tick().unwrap();
        assert_eq!(out.sb, None);
    }
    let out = cpu.tick().unwrap();
    assert_eq!(out.sb, Some(0x42));
    assert_eq!(cpu.mmu.iflags.line & 0x08, 0x08);
    assert_eq!(cpu.mmu.read_byte(0xFF0F), Ok(0xE8));
    assert!(!cpu.mmu.sc_enable);
    assert_eq!(cpu.mmu.read_byte(0xFF02), Ok(0x7D));
    assert_eq!(cpu.mmu.read_byte(0xFF01), Ok(0x42));
    let out = cpu.tick().unwrap();
    assert_eq!(out.sb, None);
}

#[test]
fn frame_ready_is_raised_when_the_vertical_blank_begins() {
    let mut cpu = flow_machine(&[0x3E, 0x80, 0xE0, 0x40, 0x18, 0xFE]);
    cpu.tick().unwrap();
    let mut total: u32 = cpu.tick().unwrap().m_cycles;
    loop {
        let out = cpu.tick().unwrap();
        total += out.m_cycles;
        if out.draw {
            break;
        }
        assert!(cpu.mmu.ppu.ly < 144);
    }
    assert_eq!(cpu.mmu.ppu.ly, 144);
    assert_eq!(total, 144 * 114);
    assert_eq!(cpu.mmu.iflags.line & 0x01, 0x01);
    let mut more: u32 = 0;
    loop {
        let out = cpu.tick().unwrap();
        more += out.m_cycles;
        if out.draw {
            break;
        }
    }
    assert_eq!(more, 17556);
    assert_eq!(cpu.mmu.ppu.ly, 144);
}

#[test]
fn timer_interrupt_reaches_the_processor() {
    let mut cpu = flow_machine_at(&[
        (0x100, &[0x3E, 0x04, 0xE0, 0xFF, 0x3E, 0xFF, 0xE0, 0x05, 0x3E, 0x05, 0xE0, 0x07, 0xFB, 0x00, 0x18, 0xFE]),
        (0x50, &[0x3E, 0x99, 0x18, 0xFE]),
    ]);
    for _ in 0..40 {
        cpu.tick().unwrap();
    }
    assert_eq!(cpu.rg.a, 0x99);
    assert_eq!(cpu.mmu.iflags.line & 0x04, 0);
    assert!(!cpu.ime);
}
