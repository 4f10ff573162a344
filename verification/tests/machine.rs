use rust_gb::cpu::{Cpu, R16, R8};
use rust_gb::mmu::Mmu;
use rust_gb::ppu::Ppu;
use rust_gb::{GbInput, GbOutput, CLOCK_SPEED, SCREEN_HEIGHT, SCREEN_WIDTH};

fn idle_machine() -> Cpu {
    Cpu::new(vec![0u8; 0x8000]).unwrap()
}

#[test]
fn constants_of_the_machine() {
    assert_eq!(CLOCK_SPEED, 1_048_576);
    assert_eq!(SCREEN_WIDTH, 160);
    assert_eq!(SCREEN_HEIGHT, 144);
    assert_eq!(rust_gb::ppu::FRAME_BYTES, 160 * 144);
    assert_eq!(rust_gb::ppu::DOTS_PER_LINE, 456);
    assert_eq!(rust_gb::ppu::LINES_PER_FRAME, 154);
    assert_eq!(rust_gb::utils::SB, 0xFF01);
    assert_eq!(rust_gb::utils::SC, 0xFF02);
    assert_eq!(rust_gb::utils::DIV, 0xFF04);
    assert_eq!(rust_gb::utils::TIMA, 0xFF05);
    assert_eq!(rust_gb::utils::TMA, 0xFF06);
    assert_eq!(rust_gb::utils::TAC, 0xFF07);
    assert_eq!(rust_gb::utils::IF, 0xFF0F);
    assert_eq!(rust_gb::utils::LCDC, 0xFF40);
    assert_eq!(rust_gb::utils::STAT, 0xFF41);
    assert_eq!(rust_gb::utils::SCY, 0xFF42);
    assert_eq!(rust_gb::utils::SCX, 0xFF43);
    assert_eq!(rust_gb::utils::LY, 0xFF44);
    assert_eq!(rust_gb::utils::LYC, 0xFF45);
    assert_eq!(rust_gb::utils::DMA, 0xFF46);
    assert_eq!(rust_gb::utils::BGP, 0xFF47);
    assert_eq!(rust_gb::utils::OBP0, 0xFF48);
    assert_eq!(rust_gb::utils::OBP1, 0xFF49);
    assert_eq!(rust_gb::utils::WY, 0xFF4A);
    assert_eq!(rust_gb::utils::WX, 0xFF4B);
    assert_eq!(rust_gb::utils::IE, 0xFFFF);
}

#[test]
fn host_messages() {
    let _input = GbInput {};
    let ppu = Ppu::new();
    let output = GbOutput { frame: ppu.display_buffer.clone() };
    assert_eq!(output.frame.len(), SCREEN_WIDTH * SCREEN_HEIGHT);
}

#[test]
fn register_pairs() {
    let mut cpu = idle_machine();
    cpu.rg.b = 0x12;
    cpu.rg.c = 0x34;
    cpu.rg.d = 0x56;
    cpu.rg.e = 0x78;
    cpu.rg.h = 0x9A;
    cpu.rg.l = 0xBC;
    cpu.rg.a = 0xDE;
    assert_eq!(cpu.bc(), 0x1234);
    assert_eq!(cpu.de(), 0x5678);
    assert_eq!(cpu.hl(), 0x9ABC);
    assert_eq!(cpu.af(), 0xDE00);
    cpu.z = true;
    cpu.c = true;
    assert_eq!(cpu.af(), 0xDE90);
    cpu.n = true;
    cpu.h = true;
    assert_eq!(cpu.af(), 0xDEF0);
    assert_eq!(rust_gb::cpu::r16_to_hi_lo(R16::HL), (R8::H, R8::L));
}

#[test]
fn flags_and_f_are_kept_coherent() {
    let mut cpu = idle_machine();
    assert!(cpu.is_valid());
    cpu.z = true;
    cpu.h = true;
    assert!(!cpu.is_valid());
    cpu.set_flags();
    assert_eq!(cpu.rg.f, 0xA0);
    assert!(cpu.is_valid());
    cpu.rg.f = 0x5F;
    assert!(!cpu.is_valid());
    cpu.read_flags();
    assert_eq!((cpu.z, cpu.n, cpu.h, cpu.c), (false, true, false, true));
    cpu.set_flags();
    assert_eq!(cpu.rg.f, 0x50);
    assert!(cpu.is_valid());
    for f in 0..=255u8 {
        cpu.rg.f = f;
        cpu.read_flags();
        cpu.set_flags();
        assert_eq!(cpu.rg.f, f & 0xF0);
        assert_eq!(cpu.z, f & 0x80 != 0);
        assert_eq!(cpu.n, f & 0x40 != 0);
        assert_eq!(cpu.h, f & 0x20 != 0);
        assert_eq!(cpu.c, f & 0x10 != 0);
    }
}

#[test]
fn validity_checks_see_broken_buffers() {
    let mut cpu = idle_machine();
    cpu.mmu.wram.pop();
    assert!(!cpu.mmu.is_valid());
    assert!(!cpu.is_valid());
    let mut mmu = Mmu::new(vec![0u8; 0x8000]).unwrap();
    mmu.hram.push(0);
    assert!(!mmu.is_valid());
    let mut ppu = Ppu::new();
    ppu.dots = 456;
    assert!(!ppu.is_valid());
    ppu.dots = 455;
    assert!(ppu.is_valid());
    ppu.ly = 154;
    assert!(!ppu.is_valid());
    ppu.ly = 153;
    ppu.dma_count = 160;
    assert!(!ppu.is_valid());
    ppu.dma_count = 159;
    ppu.vram.clear();
    assert!(!ppu.is_valid());
    let mut ppu = Ppu::new();
    ppu.oam.push(0);
    assert!(!ppu.is_valid());
    let mut ppu = Ppu::new();
    ppu.display_buffer.truncate(100);
    assert!(!ppu.is_valid());
    let mut cart = rust_gb::mbc::mbc1::Mbc1::new({
        let mut rom = vec![0u8; 0x8000];
        rom[0x147] = 1;
        rom
    })
    .unwrap();
    assert!(cart.is_valid());
    cart.rom_banks = 0;
    assert!(!cart.is_valid());
}

#[test]
fn timer_overflow_from_the_booted_state() {
    let mut mmu = Mmu::boot(vec![0u8; 0x8000]).unwrap();
    mmu.write_byte(0xFF0F, 0x00).unwrap();
    mmu.write_byte(0xFF07, 0x05).unwrap();
    mmu.write_byte(0xFF05, 0xFF).unwrap();
    mmu.write_byte(0xFF06, 0x42).unwrap();
    mmu.cycle(4);
    assert_eq!(mmu.read_byte(0xFF05), Ok(0x42));
    assert_eq!(mmu.iflags.line & 0x04, 0x04);
}

#[test]
fn processor_bus_access() {
    let mut cpu = idle_machine();
    assert_eq!(cpu.write_byte(0xC123, 0x77), Ok(()));
    assert_eq!(cpu.read_byte(0xC123), Ok(0x77));
    assert_eq!(cpu.mmu.wram[0x123], 0x77);
    assert_eq!(cpu.read_byte(0x0000), Ok(0x00));
    assert_eq!(cpu.read_byte(0xFF00), Ok(0xFF));
}

#[test]
fn prefixed_instruction_by_its_opcode() {
    let mut cpu = idle_machine();
    cpu.rg.a = 0x80;
    assert_eq!(cpu.cb_exec(0x07), Ok(2));
    assert_eq!(cpu.rg.a, 0x01);
    assert_eq!(cpu.rg.f, 0x10);
    cpu.pc = 0xC000;
    cpu.mmu.write_byte(0xC000, 0x37).unwrap();
    assert_eq!(cpu.cb(), Ok(2));
    assert_eq!(cpu.rg.a, 0x10);
    assert_eq!(cpu.pc, 0xC001);
    assert_eq!(cpu.rg.f, 0x00);
    cpu.rg.h = 0xE0;
    cpu.rg.l = 0x00;
    assert_eq!(cpu.cb_exec(0x46), Err(rust_gb::error::CoreError::Unmapped(0xE000)));
    assert_eq!(cpu.rg.f, 0x00);
}

#[test]
fn a_failed_instruction_leaves_what_it_did_before_the_failure() {
    let mut cpu = Cpu::new({
        let mut rom = vec![0u8; 0x8000];
        rom[0x100..0x103].copy_from_slice(&[0x08, 0xFF, 0xDF]);
        rom
    })
    .unwrap();
    cpu.sp = 0x1234;
    assert!(matches!(cpu.tick(), Err(rust_gb::error::CoreError::Unmapped(0xE000))));
    assert_eq!(cpu.pc, 0x0103);
    assert_eq!(cpu.mmu.read_byte(0xDFFF), Ok(0x34));
    assert!(cpu.is_valid());
    let mut cpu = idle_machine();
    cpu.sp = 0xE001;
    cpu.rg.b = 0xAB;
    assert!(matches!(cpu.exec(0xC5), Err(rust_gb::error::CoreError::Unmapped(0xE000))));
    assert_eq!(cpu.sp, 0xE001);
    let mut cpu = idle_machine();
    cpu.sp = 0xE000;
    cpu.rg.b = 0xAB;
    cpu.rg.c = 0xCD;
    assert_eq!(cpu.exec(0xC5), Ok(4));
    assert_eq!(cpu.sp, 0xDFFE);
    assert_eq!(cpu.mmu.read_byte(0xDFFF), Ok(0xAB));
    assert_eq!(cpu.mmu.read_byte(0xDFFE), Ok(0xCD));
}
