use gb_core::cpu::CPU;
use gb_core::error::EmulatorError;
use gb_core::instruction::{ArithmeticTarget, Instruction};
use gb_core::registers::{FlagsRegister, Registers};

fn machine_with(program_at: usize, program: &[u8]) -> CPU {
    let mut boot = vec![0u8; 0x100];
    let mut game = vec![0u8; 0x8000];
    for (i, b) in program.iter().enumerate() {
        if program_at + i < 0x100 {
            boot[program_at + i] = *b;
        } else {
            game[program_at + i] = *b;
        }
    }
    let mut cpu = CPU::new(boot, game);
    cpu.pc = program_at as u16;
    cpu
}

fn clear_flags() -> FlagsRegister {
    FlagsRegister { zero: false, subtract: false, half_carry: false, carry: false }
}

#[test]
fn inc_a_wraps_to_zero() {
    let mut cpu = machine_with(0, &[0x3C]);
    cpu.registers.a = 0xFF;
    cpu.step().unwrap();
    assert_eq!(cpu.registers.a, 0x00);
    assert!(cpu.registers.f.zero);
    assert!(cpu.registers.f.half_carry);
    assert!(!cpu.registers.f.subtract);
    assert_eq!(cpu.pc, 1);
}

#[test]
fn jp_always_ignores_flags() {
    for zero in [false, true] {
        for carry in [false, true] {
            let mut cpu = machine_with(0x100, &[0xC3, 0x00, 0x80]);
            cpu.registers.f.zero = zero;
            cpu.registers.f.carry = carry;
            cpu.step().unwrap();
            assert_eq!(cpu.pc, 0x8000);
        }
    }
}

#[test]
fn push_then_pop_bc() {
    let mut cpu = machine_with(0x150, &[0xC5, 0xC1]);
    cpu.registers.set_bc(0x1234);
    cpu.sp = 0xFFFE;
    cpu.step().unwrap();
    assert_eq!(cpu.bus.read_byte(0xFFFD), 0x12);
    assert_eq!(cpu.bus.read_byte(0xFFFC), 0x34);
    assert_eq!(cpu.sp, 0xFFFC);
    cpu.registers.set_bc(0);
    cpu.step().unwrap();
    assert_eq!(cpu.registers.get_bc(), 0x1234);
    assert_eq!(cpu.sp, 0xFFFE);
}

#[test]
fn add_sets_every_flag_from_the_sum() {
    let mut cpu = machine_with(0, &[0x80]);
    cpu.registers.a = 0x3A;
    cpu.registers.b = 0xC6;
    cpu.step().unwrap();
    assert_eq!(cpu.registers.a, 0x00);
    assert_eq!(
        cpu.registers.f,
        FlagsRegister { zero: true, subtract: false, half_carry: true, carry: true }
    );
}

#[test]
fn add_immediate_takes_two_bytes() {
    let mut cpu = machine_with(0, &[0xC6, 0x05]);
    cpu.registers.a = 0x0A;
    cpu.step().unwrap();
    assert_eq!(cpu.registers.a, 0x0F);
    assert_eq!(cpu.registers.f, clear_flags());
    assert_eq!(cpu.pc, 2);
}

#[test]
fn sub_borrows() {
    let mut cpu = machine_with(0, &[0x90]);
    cpu.registers.a = 0x10;
    cpu.registers.b = 0x20;
    cpu.step().unwrap();
    assert_eq!(cpu.registers.a, 0xF0);
    assert_eq!(
        cpu.registers.f,
        FlagsRegister { zero: false, subtract: true, half_carry: false, carry: true }
    );
}

#[test]
fn adc_and_sbc_use_the_carry() {
    let mut cpu = machine_with(0, &[0x88, 0x98]);
    cpu.registers.a = 0x10;
    cpu.registers.b = 0x01;
    cpu.registers.f.carry = true;
    cpu.step().unwrap();
    assert_eq!(cpu.registers.a, 0x12);
    cpu.registers.f.carry = true;
    cpu.step().unwrap();
    assert_eq!(cpu.registers.a, 0x10);
    assert!(cpu.registers.f.subtract);
    assert!(!cpu.registers.f.carry);
}

#[test]
fn cp_keeps_a() {
    let mut cpu = machine_with(0, &[0xFE, 0x42]);
    cpu.registers.a = 0x42;
    cpu.step().unwrap();
    assert_eq!(cpu.registers.a, 0x42);
    assert!(cpu.registers.f.zero);
    assert!(cpu.registers.f.subtract);
}

#[test]
fn logic_ops_force_half_carry() {
    let mut cpu = machine_with(0, &[0xA0, 0xB1, 0xAF]);
    cpu.registers.a = 0xF0;
    cpu.registers.b = 0x3C;
    cpu.registers.c = 0x01;
    cpu.step().unwrap();
    assert_eq!(cpu.registers.a, 0x30);
    assert_eq!(
        cpu.registers.f,
        FlagsRegister { zero: false, subtract: false, half_carry: true, carry: false }
    );
    cpu.step().unwrap();
    assert_eq!(cpu.registers.a, 0x31);
    cpu.step().unwrap();
    assert_eq!(cpu.registers.a, 0x00);
    assert!(cpu.registers.f.zero && cpu.registers.f.half_carry);
}

#[test]
fn daa_after_bcd_addition() {
    let mut cpu = machine_with(0, &[0x80, 0x27]);
    cpu.registers.a = 0x15;
    cpu.registers.b = 0x27;
    cpu.step().unwrap();
    assert_eq!(cpu.registers.a, 0x3C);
    cpu.step().unwrap();
    assert_eq!(cpu.registers.a, 0x42);
    assert!(!cpu.registers.f.carry);
}

#[test]
fn daa_keeps_packed_decimal() {
    for a in 0u8..=0x99 {
        if a % 16 > 9 {
            continue;
        }
        let mut cpu = machine_with(0, &[0x27]);
        cpu.registers.a = a;
        cpu.registers.f = clear_flags();
        cpu.step().unwrap();
        assert_eq!(cpu.registers.a, a);
    }
}

#[test]
fn addhl_carries_out_of_bit_eleven() {
    let mut cpu = machine_with(0, &[0x09]);
    cpu.registers.set_hl(0x0FFF);
    cpu.registers.set_bc(0x0001);
    cpu.step().unwrap();
    assert_eq!(cpu.registers.get_hl(), 0x1000);
    assert!(cpu.registers.f.half_carry);
    assert!(!cpu.registers.f.carry);
}

#[test]
fn inc16_and_dec16_wrap() {
    let mut cpu = machine_with(0, &[0x03, 0x0B, 0x0B]);
    cpu.registers.set_bc(0xFFFF);
    cpu.step().unwrap();
    assert_eq!(cpu.registers.get_bc(), 0x0000);
    cpu.step().unwrap();
    assert_eq!(cpu.registers.get_bc(), 0xFFFF);
    cpu.step().unwrap();
    assert_eq!(cpu.registers.get_bc(), 0xFFFE);
}

#[test]
fn rotates_and_swap() {
    let mut cpu = machine_with(0, &[0x17, 0xCB, 0x37, 0xCB, 0x3F]);
    cpu.registers.a = 0x80;
    cpu.registers.f.carry = false;
    cpu.step().unwrap();
    assert_eq!(cpu.registers.a, 0x00);
    assert!(cpu.registers.f.carry);
    assert!(!cpu.registers.f.zero);
    cpu.registers.a = 0xAB;
    cpu.step().unwrap();
    assert_eq!(cpu.registers.a, 0xBA);
    assert!(!cpu.registers.f.carry);
    assert_eq!(cpu.pc, 3);
    cpu.registers.a = 0x01;
    cpu.step().unwrap();
    assert_eq!(cpu.registers.a, 0x00);
    assert!(cpu.registers.f.zero && cpu.registers.f.carry);
}

#[test]
fn bit_res_set() {
    let mut cpu = machine_with(0, &[0xCB, 0x7C, 0xCB, 0xBC, 0xCB, 0xC5]);
    cpu.registers.h = 0x80;
    cpu.registers.l = 0x00;
    cpu.step().unwrap();
    assert!(!cpu.registers.f.zero);
    assert!(cpu.registers.f.half_carry);
    cpu.step().unwrap();
    assert_eq!(cpu.registers.h, 0x00);
    cpu.step().unwrap();
    assert_eq!(cpu.registers.l, 0x01);
    assert_eq!(cpu.pc, 6);
}

#[test]
fn loads_through_hl_with_post_increment() {
    let mut cpu = machine_with(0, &[0x22, 0x3A]);
    cpu.registers.a = 0x5A;
    cpu.registers.set_hl(0xC000);
    cpu.step().unwrap();
    assert_eq!(cpu.bus.read_byte(0xC000), 0x5A);
    assert_eq!(cpu.registers.get_hl(), 0xC001);
    cpu.registers.a = 0;
    cpu.registers.set_hl(0xC000);
    cpu.step().unwrap();
    assert_eq!(cpu.registers.a, 0x5A);
    assert_eq!(cpu.registers.get_hl(), 0xBFFF);
}

#[test]
fn word_immediate_loads_are_little_endian() {
    let mut cpu = machine_with(0, &[0x31, 0xFE, 0xFF, 0x21, 0x34, 0x12]);
    cpu.step().unwrap();
    assert_eq!(cpu.sp, 0xFFFE);
    cpu.step().unwrap();
    assert_eq!(cpu.registers.get_hl(), 0x1234);
    assert_eq!(cpu.pc, 6);
}

#[test]
fn high_memory_loads() {
    let mut cpu = machine_with(0, &[0xE0, 0x80, 0xF0, 0x80]);
    cpu.registers.a = 0x77;
    cpu.step().unwrap();
    assert_eq!(cpu.bus.read_byte(0xFF80), 0x77);
    cpu.registers.a = 0;
    cpu.step().unwrap();
    assert_eq!(cpu.registers.a, 0x77);
}

#[test]
fn call_and_ret() {
    let mut cpu = machine_with(0x200, &[0xCD, 0x00, 0x30]);
    cpu.sp = 0xFFFE;
    cpu.step().unwrap();
    assert_eq!(cpu.pc, 0x3000);
    assert_eq!(cpu.sp, 0xFFFC);
    assert_eq!(cpu.bus.read_byte(0xFFFC), 0x03);
    assert_eq!(cpu.bus.read_byte(0xFFFD), 0x02);
    let next = cpu.execute(Instruction::RET(gb_core::instruction::JumpTest::Always)).unwrap();
    assert_eq!(next, 0x0203);
    assert_eq!(cpu.sp, 0xFFFE);
}

#[test]
fn conditional_jump_not_taken_skips_operands() {
    let mut cpu = machine_with(0x100, &[0xCA, 0x00, 0x80]);
    cpu.registers.f.zero = false;
    cpu.step().unwrap();
    assert_eq!(cpu.pc, 0x103);
}

#[test]
fn jr_counts_from_the_next_instruction() {
    let mut cpu = machine_with(0x100, &[0x18, 0xFE]);
    cpu.step().unwrap();
    assert_eq!(cpu.pc, 0x100);
    let mut cpu = machine_with(0x100, &[0x18, 0x05]);
    cpu.step().unwrap();
    assert_eq!(cpu.pc, 0x107);
}

#[test]
fn rst_pushes_and_jumps_to_its_vector() {
    let mut cpu = machine_with(0x150, &[0xFF]);
    cpu.sp = 0xD000;
    cpu.step().unwrap();
    assert_eq!(cpu.pc, 0x38);
    assert_eq!(cpu.sp, 0xCFFE);
    assert_eq!(cpu.bus.read_byte(0xCFFE), 0x51);
    assert_eq!(cpu.bus.read_byte(0xCFFF), 0x01);
}

#[test]
fn ei_takes_effect_after_the_next_instruction() {
    let mut cpu = machine_with(0, &[0xFB, 0x00, 0x00]);
    cpu.step().unwrap();
    assert!(!cpu.ime);
    assert!(cpu.ime_scheduled);
    cpu.step().unwrap();
    assert!(cpu.ime);
    assert!(!cpu.ime_scheduled);
}

#[test]
fn di_right_after_ei_keeps_interrupts_off() {
    let mut cpu = machine_with(0, &[0xFB, 0xF3, 0x00]);
    cpu.step().unwrap();
    cpu.step().unwrap();
    cpu.step().unwrap();
    assert!(!cpu.ime);
}

#[test]
fn pending_interrupt_is_serviced() {
    let mut cpu = machine_with(0x150, &[0x00]);
    cpu.sp = 0xFFFE;
    cpu.ime = true;
    cpu.bus.write_byte(0xFFFF, 0x05).unwrap();
    cpu.bus.write_byte(0xFF0F, 0x04).unwrap();
    cpu.step().unwrap();
    assert_eq!(cpu.pc, 0x50);
    assert!(!cpu.ime);
    assert_eq!(cpu.bus.read_byte(0xFF0F), 0x00);
    assert_eq!(cpu.sp, 0xFFFC);
    assert_eq!(cpu.bus.read_word(0xFFFC), 0x150);
}

#[test]
fn reti_returns_and_enables() {
    let mut cpu = machine_with(0x150, &[0xD9]);
    cpu.sp = 0xFFFC;
    cpu.bus.write_word(0xFFFC, 0x1234).unwrap();
    cpu.step().unwrap();
    assert_eq!(cpu.pc, 0x1234);
    assert!(cpu.ime);
    assert_eq!(cpu.sp, 0xFFFE);
}

#[test]
fn halt_wakes_on_pending_interrupt() {
    let mut cpu = machine_with(0, &[0x76, 0x00]);
    cpu.step().unwrap();
    cpu.step().unwrap();
    assert_eq!(cpu.pc, 1);
    cpu.bus.write_byte(0xFFFF, 0x01).unwrap();
    cpu.bus.write_byte(0xFF0F, 0x01).unwrap();
    cpu.step().unwrap();
    assert!(!cpu.is_halted);
    assert_eq!(cpu.pc, 2);
}

#[test]
fn halt_stops_pc() {
    let mut cpu = machine_with(0, &[0x76, 0x00]);
    cpu.step().unwrap();
    assert!(cpu.is_halted);
    assert_eq!(cpu.pc, 1);
    cpu.step().unwrap();
    assert_eq!(cpu.pc, 1);
}

#[test]
fn stop_is_two_bytes() {
    let mut cpu = machine_with(0, &[0x10, 0x00]);
    cpu.step().unwrap();
    assert!(cpu.stopped);
    assert_eq!(cpu.pc, 2);
}

#[test]
fn unknown_opcode_is_fatal() {
    let mut cpu = machine_with(0, &[0xD3]);
    assert_eq!(
        cpu.step(),
        Err(EmulatorError::UnknownOpcode { opcode: 0xD3, prefixed: false })
    );
    assert_eq!(cpu.pc, 0);
}

#[test]
fn write_to_unused_memory_is_fatal() {
    let mut cpu = machine_with(0, &[0x77]);
    cpu.registers.set_hl(0xFEA0);
    cpu.registers.a = 1;
    assert_eq!(cpu.step(), Err(EmulatorError::WriteToUnused { address: 0xFEA0 }));
    assert_eq!(cpu.bus.read_byte(0xFEA0), 0);
}

#[test]
fn add_sp_signed_immediate() {
    let mut cpu = machine_with(0, &[0xE8, 0xFF]);
    cpu.sp = 0x0001;
    cpu.step().unwrap();
    assert_eq!(cpu.sp, 0x0000);
    assert!(cpu.registers.f.carry);
    assert!(cpu.registers.f.half_carry);
    assert!(!cpu.registers.f.zero);
}

#[test]
fn ld_hl_sp_plus_offset_is_two_bytes() {
    let mut cpu = machine_with(0, &[0xF8, 0x02]);
    cpu.sp = 0xFFF8;
    cpu.step().unwrap();
    assert_eq!(cpu.registers.get_hl(), 0xFFFA);
    assert_eq!(cpu.pc, 2);
}

#[test]
fn execute_adds_to_a() {
    let mut cpu = machine_with(0, &[]);
    cpu.registers.a = 1;
    cpu.registers.c = 2;
    assert_eq!(cpu.execute(Instruction::ADD(ArithmeticTarget::C)), Ok(1));
    assert_eq!(cpu.registers.a, 3);
}

#[test]
fn default_registers_are_zero() {
    let r = Registers::default();
    assert_eq!(r.get_af(), 0);
    assert_eq!(r.get_bc(), 0);
}

#[test]
fn steps_report_their_cycles() {
    let mut cpu = machine_with(0, &[0x00, 0x3E, 0x12, 0x36, 0x00, 0xCB, 0x46, 0x20, 0x02]);
    cpu.registers.set_hl(0xC000);
    assert_eq!(cpu.step(), Ok(4));
    assert_eq!(cpu.step(), Ok(8));
    assert_eq!(cpu.step(), Ok(12));
    assert_eq!(cpu.step(), Ok(12));
    cpu.registers.f.zero = true;
    assert_eq!(cpu.step(), Ok(8));
    assert_eq!(cpu.pc, 9);
}

#[test]
fn taken_branches_cost_more() {
    let mut cpu = machine_with(0x100, &[0x20, 0x02]);
    cpu.registers.f.zero = false;
    assert_eq!(cpu.step(), Ok(12));
    let mut cpu = machine_with(0x100, &[0xCD, 0x00, 0x20]);
    cpu.sp = 0xFFFE;
    assert_eq!(cpu.step(), Ok(24));
    let mut cpu = machine_with(0x100, &[0xC8]);
    cpu.registers.f.zero = false;
    assert_eq!(cpu.step(), Ok(8));
}

#[test]
fn tick_drives_the_pixel_unit() {
    let mut cpu = machine_with(0, &[0x00; 32]);
    for _ in 0..20 {
        assert_eq!(cpu.tick(), Ok(4));
    }
    assert_eq!(cpu.bus.ppu().cycles(), 0);
    assert_eq!(cpu.bus.ppu().mode(), gb_core::ppu::PPUModes::PixelTransfer);
}

#[test]
fn servicing_takes_twenty_cycles() {
    let mut cpu = machine_with(0x150, &[0x00]);
    cpu.sp = 0xFFFE;
    cpu.ime = true;
    cpu.bus.write_byte(0xFFFF, 0x01).unwrap();
    cpu.bus.write_byte(0xFF0F, 0x01).unwrap();
    assert_eq!(cpu.step(), Ok(20));
    assert_eq!(cpu.pc, 0x40);
}
