use nes_core::{Bus, Console, CpuFlags, EmuError, Memory, Mirroring, Rom, StackPtr, CPU};

fn empty_bus() -> Bus {
    Bus::new(Rom {
        prg_rom: Vec::new(),
        chr_rom: Vec::new(),
        screen_mirroring: Mirroring::Horizontal,
    })
}

#[test]
fn ram_mirrors_read_back() {
    let mut bus = empty_bus();
    bus.mem_write(0x0123, 0x5A).unwrap();
    for addr in [0x0123u16, 0x0923, 0x1123, 0x1923] {
        assert_eq!(bus.mem_read(addr), 0x5A);
    }
    assert_eq!(bus.mem_read(0x0123 ^ 0x1800), 0x5A);
    bus.mem_write(0x1FFF, 0x11).unwrap();
    assert_eq!(bus.mem_read(0x07FF), 0x11);
}

#[test]
fn zero_page_x_wraps_in_page() {
    let mut cpu = CPU::new();
    cpu.load(vec![0xB5, 0xEF, 0x00]);
    cpu.reset();
    cpu.mem_write(0x000F, 0x42).unwrap();
    cpu.mem_write(0x010F, 0x99).unwrap();
    cpu.register_x = 0x20;
    cpu.run().unwrap();
    assert_eq!(cpu.register_a, 0x42);
}

#[test]
fn stack_is_lifo_over_full_page() {
    let mut cpu = CPU::new();
    let start = cpu.stackptr.rel_addr();
    for v in 0..=255u8 {
        cpu.stack_push(v);
    }
    assert_eq!(cpu.stackptr.rel_addr(), start);
    for v in (0..=255u8).rev() {
        assert_eq!(cpu.stack_pop(), v);
    }
    assert_eq!(cpu.stackptr.rel_addr(), start);
}

#[test]
fn stack_offset_wraps() {
    let mut sp = StackPtr::from_addr(0x00);
    assert_eq!(sp.addr(), 0x0100);
    sp.inc();
    assert_eq!(sp.rel_addr(), 0xFF);
    assert_eq!(sp.addr(), 0x01FF);
    sp.dec();
    assert_eq!(sp.rel_addr(), 0x00);
    sp.reset();
    assert_eq!(sp.rel_addr(), 0xFD);
}

#[test]
fn pulled_flags_clear_break_set_break2() {
    let mut cpu = CPU::new();
    cpu.load(vec![0x28, 0x00]);
    cpu.reset();
    cpu.stack_push(0b1100_1111);
    cpu.run().unwrap();
    assert_eq!(cpu.status.bits, 0b1110_1111);
    assert!(!cpu.status.contains(CpuFlags::BREAK));
    assert!(cpu.status.contains(CpuFlags::BREAK2));
}

#[test]
fn flags_survive_push_and_pull() {
    let mut cpu = CPU::new();
    cpu.load(vec![0x08, 0x28, 0x00]);
    cpu.reset();
    cpu.status.bits = 0b1000_0011;
    cpu.run().unwrap();
    assert_eq!(cpu.status.bits, 0b1010_0011);
}

#[test]
fn indirect_jump_high_byte_from_same_page() {
    let mut cpu = CPU::new();
    cpu.load(vec![0x6C, 0xFF, 0x02]);
    cpu.reset();
    cpu.mem_write(0x02FF, 0x34).unwrap();
    cpu.mem_write(0x0200, 0x12).unwrap();
    cpu.mem_write(0x0300, 0x56).unwrap();
    assert_eq!(cpu.step(), Ok(false));
    assert_eq!(cpu.program_counter, 0x1234);
}

#[test]
fn indirect_jump_inside_page() {
    let mut cpu = CPU::new();
    cpu.load(vec![0x6C, 0x10, 0x02]);
    cpu.reset();
    cpu.mem_write(0x0210, 0x78).unwrap();
    cpu.mem_write(0x0211, 0x05).unwrap();
    assert_eq!(cpu.step(), Ok(false));
    assert_eq!(cpu.program_counter, 0x0578);
}

#[test]
fn load_immediate_then_halt() {
    let mut cpu = CPU::new();
    cpu.load_and_run(vec![0xA9, 0x05, 0x00]).unwrap();
    assert_eq!(cpu.register_a, 5);
    assert!(!cpu.status.contains(CpuFlags::ZERO));
    assert!(!cpu.status.contains(CpuFlags::NEGATIVE));
    assert_eq!(cpu.program_counter, 0x8003);
}

#[test]
fn add_with_carry_wraps_to_zero() {
    let mut cpu = CPU::new();
    cpu.load_and_run(vec![0xA9, 0xFF, 0x69, 0x01, 0x00]).unwrap();
    assert_eq!(cpu.register_a, 0);
    assert!(cpu.status.contains(CpuFlags::CARRY));
    assert!(cpu.status.contains(CpuFlags::ZERO));
}

#[test]
fn add_sets_overflow_on_sign_change() {
    let mut cpu = CPU::new();
    cpu.load_and_run(vec![0xA9, 0x50, 0x69, 0x50, 0x00]).unwrap();
    assert_eq!(cpu.register_a, 0xA0);
    assert!(cpu.status.contains(CpuFlags::OVERFLOW));
    assert!(!cpu.status.contains(CpuFlags::CARRY));
    assert!(cpu.status.contains(CpuFlags::NEGATIVE));
}

#[test]
fn subtract_with_borrow() {
    let mut cpu = CPU::new();
    cpu.load_and_run(vec![0x38, 0xA9, 0x05, 0xE9, 0x03, 0x00]).unwrap();
    assert_eq!(cpu.register_a, 2);
    assert!(cpu.status.contains(CpuFlags::CARRY));
    let mut cpu = CPU::new();
    cpu.load_and_run(vec![0x38, 0xA9, 0x03, 0xE9, 0x05, 0x00]).unwrap();
    assert_eq!(cpu.register_a, 0xFE);
    assert!(!cpu.status.contains(CpuFlags::CARRY));
}

#[test]
fn address_latch_takes_high_then_low() {
    let mut bus = empty_bus();
    bus.mem_write(0x2006, 0x80).unwrap();
    assert_eq!(bus.ppu().address(), 0x8000);
    bus.mem_write(0x2006, 0x80).unwrap();
    assert_eq!(bus.ppu().address(), 0x8080);
    bus.mem_write(0x2006, 0x12).unwrap();
    bus.mem_read(0x2002);
    bus.mem_write(0x2006, 0x80).unwrap();
    bus.mem_write(0x2006, 0x00).unwrap();
    assert_eq!(bus.ppu().address(), 0x8000);
}

#[test]
fn status_read_resets_latch() {
    let mut bus = empty_bus();
    bus.mem_write(0x2006, 0x21).unwrap();
    bus.mem_read(0x2002);
    bus.mem_write(0x2006, 0x23).unwrap();
    bus.mem_write(0x2006, 0x45).unwrap();
    assert_eq!(bus.ppu().address(), 0x2345);
    bus.mem_write(0x200E, 0x30).unwrap();
    bus.mem_write(0x3FFE, 0x00).unwrap();
    assert_eq!(bus.ppu().address(), 0x3000);
}

#[test]
fn data_port_reads_are_buffered() {
    let mut bus = empty_bus();
    bus.mem_write(0x2006, 0x21).unwrap();
    bus.mem_write(0x2006, 0x05).unwrap();
    bus.mem_write(0x2007, 0x66).unwrap();
    assert_eq!(bus.ppu().address(), 0x2106);
    bus.mem_write(0x2006, 0x21).unwrap();
    bus.mem_write(0x2006, 0x05).unwrap();
    assert_eq!(bus.mem_read(0x2007), 0x00);
    assert_eq!(bus.mem_read(0x2007), 0x66);
}

#[test]
fn data_port_steps_by_row() {
    let mut bus = empty_bus();
    bus.mem_write(0x2000, 0b0000_0100).unwrap();
    bus.mem_write(0x2006, 0x20).unwrap();
    bus.mem_write(0x2006, 0x00).unwrap();
    bus.mem_write(0x2007, 0x01).unwrap();
    assert_eq!(bus.ppu().address(), 0x2020);
}

#[test]
fn palette_reads_are_immediate() {
    let mut bus = empty_bus();
    bus.mem_write(0x2006, 0x3F).unwrap();
    bus.mem_write(0x2006, 0x01).unwrap();
    bus.mem_write(0x2007, 0x0F).unwrap();
    bus.mem_write(0x2006, 0x3F).unwrap();
    bus.mem_write(0x2006, 0x21).unwrap();
    assert_eq!(bus.mem_read(0x2007), 0x0F);
}

#[test]
fn horizontal_mirroring_folds_tables() {
    let mut bus = empty_bus();
    bus.mem_write(0x2006, 0x24).unwrap();
    bus.mem_write(0x2006, 0x10).unwrap();
    bus.mem_write(0x2007, 0x77).unwrap();
    bus.mem_write(0x2006, 0x20).unwrap();
    bus.mem_write(0x2006, 0x10).unwrap();
    bus.mem_read(0x2007);
    assert_eq!(bus.mem_read(0x2007), 0x77);
}

#[test]
fn write_only_slots_read_last_written_byte() {
    let mut bus = empty_bus();
    bus.mem_write(0x2000, 0x55).unwrap();
    assert_eq!(bus.mem_read(0x2000), 0x55);
    assert_eq!(bus.mem_read(0x2005), 0x55);
    assert_eq!(bus.mem_read(0x5000), 0x55);
}

#[test]
fn status_read_keeps_low_port_bits() {
    let mut bus = empty_bus();
    bus.mem_write(0x2001, 0x1F).unwrap();
    assert_eq!(bus.mem_read(0x2002), 0b1010_0000);
    assert_eq!(bus.mem_read(0x2001), 0b1011_1111);
}

#[test]
fn oam_dma_copies_ram_page() {
    let mut bus = empty_bus();
    for i in 0..=255u16 {
        bus.mem_write(0x0200 + i, i as u8).unwrap();
    }
    bus.mem_write(0x2003, 0x00).unwrap();
    bus.mem_write(0x4014, 0x02).unwrap();
    assert_eq!(bus.mem_read(0x2004), 0x00);
    bus.mem_write(0x2003, 0x05).unwrap();
    assert_eq!(bus.mem_read(0x2004), 0x05);
    bus.mem_write(0x2004, 0xEE).unwrap();
    assert_eq!(bus.mem_read(0x2004), 0x06);
}

#[test]
fn rom_write_is_refused() {
    let mut bus = empty_bus();
    assert_eq!(bus.mem_write(0x8000, 1), Err(EmuError::RomWrite(0x8000)));
    assert_eq!(bus.mem_write(0x5000, 1), Ok(()));
    let mut cpu = CPU::new();
    assert_eq!(
        cpu.load_and_run(vec![0x8D, 0x00, 0x80, 0x00]),
        Err(EmuError::RomWrite(0x8000))
    );
}

#[test]
fn unknown_opcode_is_fatal() {
    let mut cpu = CPU::new();
    assert_eq!(cpu.load_and_run(vec![0x02]), Err(EmuError::UnknownOpcode(0x02)));
}

#[test]
fn rom_wraps_when_half_size() {
    let mut prg = vec![0u8; 0x4000];
    prg[0] = 0xAB;
    prg[0x3FFF] = 0xCD;
    let mut bus = Bus::new(Rom {
        prg_rom: prg,
        chr_rom: Vec::new(),
        screen_mirroring: Mirroring::Vertical,
    });
    assert_eq!(bus.mem_read(0x8000), 0xAB);
    assert_eq!(bus.mem_read(0xC000), 0xAB);
    assert_eq!(bus.mem_read(0xFFFF), 0xCD);
    assert_eq!(bus.mem_read_u16(0xBFFF), 0xABCD);
}

#[test]
fn subroutine_call_and_return() {
    let mut cpu = CPU::new();
    cpu.load_and_run(vec![0x20, 0x05, 0x80, 0x00, 0x00, 0xA9, 0x07, 0x60]).unwrap();
    assert_eq!(cpu.register_a, 7);
    assert_eq!(cpu.program_counter, 0x8004);
    assert_eq!(cpu.stackptr.rel_addr(), 0xFD);
}

#[test]
fn branch_loop_counts_down() {
    let mut cpu = CPU::new();
    cpu.load_and_run(vec![0xA2, 0x03, 0xCA, 0xD0, 0xFD, 0x00]).unwrap();
    assert_eq!(cpu.register_x, 0);
    assert!(cpu.status.contains(CpuFlags::ZERO));
}

#[test]
fn bit_test_copies_high_bits() {
    let mut cpu = CPU::new();
    cpu.load(vec![0x24, 0x10, 0x00]);
    cpu.reset();
    cpu.mem_write(0x10, 0b1100_0000).unwrap();
    cpu.register_a = 0b0011_1111;
    cpu.run().unwrap();
    assert!(cpu.status.contains(CpuFlags::ZERO));
    assert!(cpu.status.contains(CpuFlags::NEGATIVE));
    assert!(cpu.status.contains(CpuFlags::OVERFLOW));
}

#[test]
fn indexed_indirect_and_indirect_indexed() {
    let mut cpu = CPU::new();
    cpu.load(vec![0xA1, 0x20, 0xB1, 0x40, 0x00]);
    cpu.reset();
    cpu.mem_write(0x0024, 0x00).unwrap();
    cpu.mem_write(0x0025, 0x03).unwrap();
    cpu.mem_write(0x0300, 0x11).unwrap();
    cpu.mem_write(0x0040, 0x00).unwrap();
    cpu.mem_write(0x0041, 0x04).unwrap();
    cpu.mem_write(0x0402, 0x22).unwrap();
    cpu.register_x = 4;
    cpu.register_y = 2;
    assert_eq!(cpu.step(), Ok(false));
    assert_eq!(cpu.register_a, 0x11);
    assert_eq!(cpu.step(), Ok(false));
    assert_eq!(cpu.register_a, 0x22);
}

#[test]
fn reset_restores_power_up_values() {
    let mut cpu = CPU::new();
    cpu.load(vec![0x00]);
    cpu.register_a = 1;
    cpu.register_y = 2;
    cpu.status.bits = 0xFF;
    cpu.stackptr.set(0x10);
    cpu.reset();
    assert_eq!(cpu.register_a, 0);
    assert_eq!(cpu.register_y, 0);
    assert_eq!(cpu.status.bits, 0b0010_0100);
    assert_eq!(cpu.stackptr.rel_addr(), 0xFD);
    assert_eq!(cpu.program_counter, 0x8000);
}

#[test]
fn callback_sees_each_instruction() {
    let mut cpu = CPU::new();
    cpu.load(vec![0xE8, 0xE8, 0xE8, 0x00]);
    cpu.reset();
    let seen = std::cell::Cell::new(0u32);
    cpu.run_with_callback(|c: &CPU| {
        seen.set(seen.get() + 1);
        assert_eq!(c.register_x as u32, seen.get());
    })
    .unwrap();
    assert_eq!(seen.get(), 3);
}

#[test]
fn console_starts_at_power_up() {
    let console = Console::new(Rom {
        prg_rom: vec![0xEA; 0x8000],
        chr_rom: vec![0; 0x2000],
        screen_mirroring: Mirroring::Vertical,
    });
    assert_eq!(console.cpu.register_a, 0);
    assert_eq!(console.cpu.stackptr.rel_addr(), 0xFD);
    assert_eq!(console.cycle, 0);
    assert!(!console.frame_complete);
}

#[test]
fn unmapped_accesses_are_counted() {
    let mut bus = empty_bus();
    bus.mem_write(0x0010, 0x33).unwrap();
    assert_eq!(bus.unmapped_accesses(), 0);
    assert_eq!(bus.mem_read(0x4020), 0x33);
    assert_eq!(bus.mem_write(0x6000, 0x01), Ok(()));
    assert_eq!(bus.unmapped_accesses(), 2);
    assert_eq!(bus.mem_read(0x6000), 0x33);
    assert_eq!(bus.unmapped_accesses(), 3);
}

#[test]
fn memory_trait_matches_bus() {
    let mut bus = empty_bus();
    Memory::mem_write_u16(&mut bus, 0x0040, 0xBEEF).unwrap();
    assert_eq!(Memory::mem_read(&mut bus, 0x0040), 0xEF);
    assert_eq!(Memory::mem_read_u16(&mut bus, 0x0840), 0xBEEF);
    let mut cpu = CPU::new();
    assert_eq!(Memory::mem_write(&mut cpu, 0x9000, 1), Err(EmuError::RomWrite(0x9000)));
}

#[test]
fn taken_branch_onto_own_displacement() {
    let mut cpu = CPU::new();
    assert_eq!(
        cpu.load_and_run(vec![0xA9, 0x00, 0xF0, 0xFF]),
        Err(EmuError::UnknownOpcode(0xFF))
    );
    assert_eq!(cpu.program_counter, 0x8003);
}

#[test]
fn jump_onto_own_operand() {
    let mut cpu = CPU::new();
    cpu.load(vec![0x4C, 0x01, 0x80]);
    cpu.reset();
    assert_eq!(cpu.step(), Ok(false));
    assert_eq!(cpu.program_counter, 0x8001);
}

#[test]
fn fault_leaves_counter_on_bad_byte() {
    let mut cpu = CPU::new();
    cpu.load(vec![0xE8, 0x02]);
    cpu.reset();
    assert_eq!(cpu.run(), Err(EmuError::UnknownOpcode(0x02)));
    assert_eq!(cpu.program_counter, 0x8001);
    assert_eq!(cpu.register_x, 1);
}

#[test]
fn refused_store_keeps_carry_change() {
    let mut cpu = CPU::new();
    cpu.load(vec![0x38, 0x2E, 0x00, 0x90, 0x00]);
    cpu.reset();
    assert_eq!(cpu.run(), Err(EmuError::RomWrite(0x9000)));
    assert!(!cpu.status.contains(CpuFlags::CARRY));
}
