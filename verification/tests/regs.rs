use rust_gb::cpu::{add_u16_e8, combine_u8, r16_to_hi_lo, split_u16, CpuTickOutput, Interrupt, InterruptFlags, Regs, R16, R8};

#[test]
fn combine_and_split() {
    assert_eq!(combine_u8(0x12, 0x34), 0x1234);
    assert_eq!(combine_u8(0xFF, 0xFF), 0xFFFF);
    assert_eq!(combine_u8(0x00, 0x00), 0x0000);
    assert_eq!(combine_u8(0x00, 0x80), 0x0080);
    assert_eq!(split_u16(0x1234), (0x12, 0x34));
    assert_eq!(split_u16(0xFF00), (0xFF, 0x00));
    assert_eq!(split_u16(0x00FF), (0x00, 0xFF));
    for n in [0u16, 1, 0x00FF, 0x0100, 0x7FFF, 0x8000, 0xABCD, 0xFFFF] {
        let (hi, lo) = split_u16(n);
        assert_eq!(combine_u8(hi, lo), n);
    }
}

#[test]
fn add_signed_offset() {
    assert_eq!(add_u16_e8(0x0100, 0x02), (0x0102, false, false, false));
    assert_eq!(add_u16_e8(0x0100, 0xFE), (0x00FE, false, false, false));
    assert_eq!(add_u16_e8(0x0000, 0xFF), (0xFFFF, false, false, false));
    assert_eq!(add_u16_e8(0x0001, 0xFF), (0x0000, true, true, true));
    assert_eq!(add_u16_e8(0xFFFF, 0x01), (0x0000, true, true, true));
    assert_eq!(add_u16_e8(0xFFF8, 0x08), (0x0000, true, true, true));
    assert_eq!(add_u16_e8(0x000F, 0x01), (0x0010, false, true, false));
    assert_eq!(add_u16_e8(0x00F0, 0x10), (0x0100, false, false, true));
    assert_eq!(add_u16_e8(0x0080, 0x80), (0x0000, true, false, true));
    assert_eq!(add_u16_e8(0x1234, 0x00), (0x1234, false, false, false));
    assert_eq!(add_u16_e8(0x0000, 0x00), (0x0000, true, false, false));
    assert_eq!(add_u16_e8(0x0000, 0x80), (0xFF80, false, false, false));
    assert_eq!(add_u16_e8(0xFFFF, 0x7F), (0x007E, false, true, true));
}

#[test]
fn add_signed_offset_flags_are_those_of_the_low_byte_sum() {
    for a in [0x0000u16, 0x000F, 0x00FF, 0x0F0F, 0x1234, 0x8000, 0xFF00, 0xFFFF] {
        for e in 0..=255u8 {
            let (res, z, h, c) = add_u16_e8(a, e);
            assert_eq!(res, a.wrapping_add(e as i8 as i16 as u16));
            assert_eq!(z, res == 0);
            assert_eq!(h, (a & 0x0F) + (e as u16 & 0x0F) > 0x0F);
            assert_eq!(c, (a & 0xFF) + e as u16 > 0xFF);
        }
    }
}

#[test]
fn pairs_of_registers() {
    assert_eq!(r16_to_hi_lo(R16::BC), (R8::B, R8::C));
    assert_eq!(r16_to_hi_lo(R16::DE), (R8::D, R8::E));
    assert_eq!(r16_to_hi_lo(R16::HL), (R8::H, R8::L));
    assert_eq!(r16_to_hi_lo(R16::AF), (R8::A, R8::F));
}

#[test]
fn operand_numbers() {
    let names = [R8::B, R8::C, R8::D, R8::E, R8::H, R8::L, R8::HLA, R8::A];
    for (i, name) in names.iter().enumerate() {
        assert_eq!(R8::from_index(i as u8), Some(*name));
        assert_eq!(R8::operand(i as u8), *name);
        assert_eq!(R8::operand(i as u8 + 8), *name);
        assert_eq!(R8::operand(0xF8 + i as u8), *name);
    }
    assert_eq!(R8::from_index(8), None);
    assert_eq!(R8::from_index(0xFF), None);
}

#[test]
fn register_file() {
    let mut rg = Regs::new();
    let names = [R8::B, R8::C, R8::D, R8::E, R8::H, R8::L, R8::A, R8::F];
    for (i, name) in names.iter().enumerate() {
        assert_eq!(rg.get(*name), 0);
        rg.set(*name, 0x10 + i as u8);
    }
    assert_eq!((rg.b, rg.c, rg.d, rg.e), (0x10, 0x11, 0x12, 0x13));
    assert_eq!((rg.h, rg.l, rg.a, rg.f), (0x14, 0x15, 0x16, 0x17));
    for (i, name) in names.iter().enumerate() {
        assert_eq!(rg.get(*name), 0x10 + i as u8);
    }
    let before = rg;
    rg.set(R8::HLA, 0x99);
    assert_eq!(rg, before);
    assert_eq!(rg.get(R8::HLA), 0);
}

#[test]
fn interrupt_masks_and_vectors() {
    assert_eq!(Interrupt::VBlank.mask(), 0x01);
    assert_eq!(Interrupt::Stat.mask(), 0x02);
    assert_eq!(Interrupt::TimerInt.mask(), 0x04);
    assert_eq!(Interrupt::Serial.mask(), 0x08);
    assert_eq!(Interrupt::Joypad.mask(), 0x10);
    assert_eq!(Interrupt::VBlank.vector(), 0x40);
    assert_eq!(Interrupt::Stat.vector(), 0x48);
    assert_eq!(Interrupt::TimerInt.vector(), 0x50);
    assert_eq!(Interrupt::Serial.vector(), 0x58);
    assert_eq!(Interrupt::Joypad.vector(), 0x60);
}

#[test]
fn interrupt_flags_set_clear_read() {
    let mut flags = InterruptFlags::new();
    assert_eq!(flags.line, 0);
    assert!(!flags.read(Interrupt::Serial));
    flags.set(Interrupt::Serial);
    assert_eq!(flags.line, 0x08);
    assert!(flags.read(Interrupt::Serial));
    assert!(!flags.read(Interrupt::VBlank));
    flags.set(Interrupt::VBlank);
    flags.set(Interrupt::VBlank);
    assert_eq!(flags.line, 0x09);
    flags.clear(Interrupt::Serial);
    assert_eq!(flags.line, 0x01);
    flags.clear(Interrupt::Serial);
    assert_eq!(flags.line, 0x01);
    flags.line = 0xFF;
    flags.clear(Interrupt::Joypad);
    assert_eq!(flags.line, 0xEF);
}

#[test]
fn first_pending_interrupt() {
    let enabled = InterruptFlags { line: 0x1F };
    let none = InterruptFlags { line: 0x00 };
    assert_eq!(enabled.read_first(&none), None);
    assert_eq!(none.read_first(&enabled), None);
    assert_eq!(enabled.read_first(&enabled), Some(Interrupt::VBlank));
    assert_eq!(enabled.read_first(&InterruptFlags { line: 0x1E }), Some(Interrupt::Stat));
    assert_eq!(enabled.read_first(&InterruptFlags { line: 0x1C }), Some(Interrupt::TimerInt));
    assert_eq!(enabled.read_first(&InterruptFlags { line: 0x18 }), Some(Interrupt::Serial));
    assert_eq!(enabled.read_first(&InterruptFlags { line: 0x10 }), Some(Interrupt::Joypad));
    assert_eq!(enabled.read_first(&InterruptFlags { line: 0xE0 }), None);
    let some = InterruptFlags { line: 0x0A };
    assert_eq!(some.read_first(&InterruptFlags { line: 0x15 }), None);
    assert_eq!(some.read_first(&InterruptFlags { line: 0x1D }), Some(Interrupt::Serial));
    assert_eq!(InterruptFlags { line: 0xFF }.read_first(&InterruptFlags { line: 0xE0 }), None);
}

#[test]
fn interrupt_names() {
    assert_eq!(Interrupt::VBlank.name(), "VBLANK");
    assert_eq!(Interrupt::Stat.name(), "STAT");
    assert_eq!(Interrupt::TimerInt.name(), "TIMER");
    assert_eq!(Interrupt::Serial.name(), "SERIAL");
    assert_eq!(Interrupt::Joypad.name(), "JOYPAD");
}

#[test]
fn defaults_are_empty() {
    let flags = InterruptFlags::default();
    assert_eq!(flags.line, 0);
    assert_eq!(flags, InterruptFlags::new());
    let out = CpuTickOutput::default();
    assert_eq!(out.m_cycles, 0);
    assert_eq!(out.sb, None);
    assert!(!out.draw);
}
