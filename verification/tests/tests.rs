use cpu_6502::bus::simple_bus::{SimpleBus, MEMORY_SIZE};
use cpu_6502::bus::{Bus, Byte, Word};
use cpu_6502::cpu::instructions::opcode::Opcode;
use cpu_6502::cpu::{CPU, Flag};

/// A processor that was reset with its reset vector pointing at `0xFFFC`, over
/// memory that is all zero again: programs are written where execution starts.
fn setup_cpu_bus() -> (CPU, SimpleBus) {
    let mut cpu = CPU::new();
    let mut bus = SimpleBus::default();
    bus.write(0xFFFC, 0xFC);
    bus.write(0xFFFD, 0xFF);
    cpu.reset(&mut bus);
    bus.write(0xFFFC, 0x00);
    bus.write(0xFFFD, 0x00);
    (cpu, bus)
}

#[test]
fn tests_cpu_initialized_properly() {
    let (cpu, bus) = setup_cpu_bus();
    assert_eq!(cpu.pc, 0xFFFC);
    assert_eq!(cpu.sp, 0xFD);
    assert!(cpu.flag.is_empty());
    assert_eq!(bus.ram, [0x0; MEMORY_SIZE]);
}

#[test]
fn tests_lda_immediate_load_zero_value_to_register_a() {
    let (mut cpu, mut bus) = setup_cpu_bus();
    bus.write(0xFFFC, Opcode::LdaIMM.into());
    bus.write(0xFFFD, 0x0);
    let cycle_used = cpu.execute(2, &mut bus).unwrap();
    assert_eq!(cycle_used, 2);
    assert_eq!(cpu.a, 0x0);
    assert_eq!(cpu.flag.bits(), Flag::zero().bits());
}

#[test]
fn tests_lda_immediate_load_negative_value_to_register_a() {
    let (mut cpu, mut bus) = setup_cpu_bus();
    bus.write(0xFFFC, Opcode::LdaIMM.into());
    bus.write(0xFFFD, 0x84);
    let cycle_used = cpu.execute(2, &mut bus).unwrap();
    assert_eq!(cycle_used, 2);
    assert_eq!(cpu.a, 0x84);
    assert_eq!(cpu.flag.bits(), Flag::negative().bits());
}

#[test]
fn tests_lda_immediate_load_value_to_register_a() {
    let (mut cpu, mut bus) = setup_cpu_bus();
    bus.write(0xFFFC, Opcode::LdaIMM.into());
    bus.write(0xFFFD, 0x2A);
    let cycle_used = cpu.execute(2, &mut bus).unwrap();
    assert_eq!(cycle_used, 2);
    assert_eq!(cpu.a, 0x2A);
    assert!(cpu.flag.is_empty());
}

#[test]
fn tests_lda_zero_page_load_value_to_register_a() {
    let (mut cpu, mut bus) = setup_cpu_bus();
    bus.write(0xFFFC, Opcode::LdaZPG.into());
    bus.write(0xFFFD, 0x42);
    bus.write(0x0042, 0x2A);
    let cycle_used = cpu.execute(3, &mut bus).unwrap();
    assert_eq!(cycle_used, 3);
    assert_eq!(cpu.a, 0x2A);
    assert!(cpu.flag.is_empty());
}

#[test]
fn tests_lda_zero_page_x_load_value_to_register_a() {
    let (mut cpu, mut bus) = setup_cpu_bus();
    bus.write(0xFFFC, Opcode::LdaZPX.into());
    bus.write(0xFFFD, 0x40);
    bus.write(0x0042, 0x2A);
    cpu.x = 0x2;
    let cycle_used = cpu.execute(4, &mut bus).unwrap();
    assert_eq!(cycle_used, 4);
    assert_eq!(cpu.a, 0x2A);
    assert!(cpu.flag.is_empty());
}

#[test]
fn tests_lda_zero_page_x_must_wrap_load_value_to_register_a() {
    let (mut cpu, mut bus) = setup_cpu_bus();
    bus.write(0xFFFC, Opcode::LdaZPX.into());
    bus.write(0xFFFD, 0x43);
    bus.write(0x0042, 0x2A);
    cpu.x = 0xFF;
    let cycle_used = cpu.execute(4, &mut bus).unwrap();
    assert_eq!(cycle_used, 4);
    assert_eq!(cpu.a, 0x2A);
    assert!(cpu.flag.is_empty());
}

#[test]
fn tests_lda_abs_load_value_to_register_a() {
    let (mut cpu, mut bus) = setup_cpu_bus();
    bus.write(0xFFFC, Opcode::LdaABS.into());
    bus.write(0xFFFD, 0x42);
    bus.write(0xFFFE, 0x41); // Ox4142
    bus.write(0x4142, 0x2A);
    let cycle_used = cpu.execute(4, &mut bus).unwrap();
    assert_eq!(cycle_used, 4);
    assert_eq!(cpu.a, 0x2A);
    assert!(cpu.flag.is_empty());
}

#[test]
fn tests_lda_abx_load_value_to_register_a() {
    let (mut cpu, mut bus) = setup_cpu_bus();
    bus.write(0xFFFC, Opcode::LdaABX.into());
    bus.write(0xFFFD, 0x41);
    bus.write(0xFFFE, 0x42); // 0x4241
    bus.write(0x4242, 0x2A);
    cpu.x = 0x01;
    let cycle_used = cpu.execute(4, &mut bus).unwrap();
    assert_eq!(cycle_used, 4);
    assert_eq!(cpu.a, 0x2A);
    assert!(cpu.flag.is_empty());
}

#[test]
fn tests_lda_abx_cross_page_load_value_to_register_a() {
    let (mut cpu, mut bus) = setup_cpu_bus();
    bus.write(0xFFFC, Opcode::LdaABX.into());
    bus.write(0xFFFD, 0xF0);
    bus.write(0xFFFE, 0x02); // 0x0300
    bus.write(0x0300, 0x2A);
    cpu.x = 0x10;
    let cycle_used = cpu.execute(5, &mut bus).unwrap();
    assert_eq!(cycle_used, 5);
    assert_eq!(cpu.a, 0x2A);
    assert!(cpu.flag.is_empty());
}

#[test]
fn tests_lda_aby_load_value_to_register_a() {
    let (mut cpu, mut bus) = setup_cpu_bus();
    bus.write(0xFFFC, Opcode::LdaABY.into());
    bus.write(0xFFFD, 0x41);
    bus.write(0xFFFE, 0x42); // 0x4241
    bus.write(0x4242, 0x2A);
    cpu.y = 0x01;
    let cycle_used = cpu.execute(4, &mut bus).unwrap();
    assert_eq!(cycle_used, 4);
    assert_eq!(cpu.a, 0x2A);
    assert!(cpu.flag.is_empty());
}

#[test]
fn tests_lda_aby_cross_page_load_value_to_register_a() {
    let (mut cpu, mut bus) = setup_cpu_bus();
    bus.write(0xFFFC, Opcode::LdaABY.into());
    bus.write(0xFFFD, 0xF0);
    bus.write(0xFFFE, 0x02); // 0x0300
    bus.write(0x0300, 0x2A);
    cpu.y = 0x10;
    let cycle_used = cpu.execute(5, &mut bus).unwrap();
    assert_eq!(cycle_used, 5);
    assert_eq!(cpu.a, 0x2A);
    assert!(cpu.flag.is_empty());
}

#[test]
fn tests_lda_idx_load_value_to_register_a() {
    let (mut cpu, mut bus) = setup_cpu_bus();
    bus.write(0xFFFC, Opcode::LdaIDX.into());
    bus.write(0xFFFD, 0x20);
    bus.write(0x0024, 0x00);
    bus.write(0x0025, 0x80);
    bus.write(0x8000, 0x2A);
    cpu.x = 0x4;
    let cycle_used = cpu.execute(6, &mut bus).unwrap();
    assert_eq!(cycle_used, 6);
    assert_eq!(cpu.a, 0x2A);
    assert!(cpu.flag.is_empty());
}

#[test]
fn tests_lda_idy_load_value_to_register_a() {
    let (mut cpu, mut bus) = setup_cpu_bus();
    bus.write(0xFFFC, Opcode::LdaIDY.into());
    bus.write(0xFFFD, 0x20);
    bus.write(0x0020, 0x00);
    bus.write(0x0021, 0x80);
    bus.write(0x8004, 0x2A);
    cpu.y = 0x4;
    let cycle_used = cpu.execute(5, &mut bus).unwrap();
    assert_eq!(cycle_used, 5);
    assert_eq!(cpu.a, 0x2A);
    assert!(cpu.flag.is_empty());
}

#[test]
fn tests_lda_idy_cross_page_load_value_to_register_a() {
    let (mut cpu, mut bus) = setup_cpu_bus();
    bus.write(0xFFFC, Opcode::LdaIDY.into());
    bus.write(0xFFFD, 0x20);
    bus.write(0x0020, 0x10);
    bus.write(0x0021, 0x80);
    bus.write(0x8100, 0x2A);
    cpu.y = 0xF0;
    let cycle_used = cpu.execute(6, &mut bus).unwrap();
    assert_eq!(cycle_used, 6);
    assert_eq!(cpu.a, 0x2A);
    assert!(cpu.flag.is_empty());
}

#[test]
fn tests_ldx_immediate_load_zero_value_to_register_x() {
    let (mut cpu, mut bus) = setup_cpu_bus();
    bus.write(0xFFFC, Opcode::LdxIMM.into());
    bus.write(0xFFFD, 0x0);
    let cycle_used = cpu.execute(2, &mut bus).unwrap();
    assert_eq!(cycle_used, 2);
    assert_eq!(cpu.x, 0x0);
    assert_eq!(cpu.flag.bits(), Flag::zero().bits());
}

#[test]
fn tests_ldx_immediate_load_negative_value_to_register_x() {
    let (mut cpu, mut bus) = setup_cpu_bus();
    bus.write(0xFFFC, Opcode::LdxIMM.into());
    bus.write(0xFFFD, 0x84);
    let cycle_used = cpu.execute(2, &mut bus).unwrap();
    assert_eq!(cycle_used, 2);
    assert_eq!(cpu.x, 0x84);
    assert_eq!(cpu.flag.bits(), Flag::negative().bits());
}

#[test]
fn tests_ldx_immediate_load_value_to_register_x() {
    let (mut cpu, mut bus) = setup_cpu_bus();
    bus.write(0xFFFC, Opcode::LdxIMM.into());
    bus.write(0xFFFD, 0x2A);
    let cycle_used = cpu.execute(2, &mut bus).unwrap();
    assert_eq!(cycle_used, 2);
    assert_eq!(cpu.x, 0x2A);
    assert!(cpu.flag.is_empty());
}

#[test]
fn tests_ldx_zero_page_load_value_to_register_x() {
    let (mut cpu, mut bus) = setup_cpu_bus();
    bus.write(0xFFFC, Opcode::LdxZPG.into());
    bus.write(0xFFFD, 0x42);
    bus.write(0x0042, 0x2A);
    let cycle_used = cpu.execute(3, &mut bus).unwrap();
    assert_eq!(cycle_used, 3);
    assert_eq!(cpu.x, 0x2A);
    assert!(cpu.flag.is_empty());
}

#[test]
fn tests_ldx_zero_page_y_load_value_to_register_x() {
    let (mut cpu, mut bus) = setup_cpu_bus();
    bus.write(0xFFFC, Opcode::LdxZPY.into());
    bus.write(0xFFFD, 0x40);
    bus.write(0x0042, 0x2A);
    cpu.y = 0x2;
    let cycle_used = cpu.execute(4, &mut bus).unwrap();
    assert_eq!(cycle_used, 4);
    assert_eq!(cpu.x, 0x2A);
    assert!(cpu.flag.is_empty());
}

#[test]
fn tests_ldx_abs_load_value_to_register_x() {
    let (mut cpu, mut bus) = setup_cpu_bus();
    bus.write(0xFFFC, Opcode::LdxABS.into());
    bus.write(0xFFFD, 0x42); // lo
    bus.write(0xFFFE, 0x41); // Ox4142
    bus.write(0x4142, 0x2A);
    let cycle_used = cpu.execute(4, &mut bus).unwrap();
    assert_eq!(cycle_used, 4);
    assert_eq!(cpu.x, 0x2A);
    assert!(cpu.flag.is_empty());
}

#[test]
fn tests_ldx_aby_load_value_to_register_x() {
    let (mut cpu, mut bus) = setup_cpu_bus();
    bus.write(0xFFFC, Opcode::LdxABY.into());
    bus.write(0xFFFD, 0x41);
    bus.write(0xFFFE, 0x42); // 0x4241
    bus.write(0x4242, 0x2A);
    cpu.y = 0x01;
    let cycle_used = cpu.execute(4, &mut bus).unwrap();
    assert_eq!(cycle_used, 4);
    assert_eq!(cpu.x, 0x2A);
    assert!(cpu.flag.is_empty());
}

#[test]
fn tests_ldx_aby_cross_page_load_value_to_register_x() {
    let (mut cpu, mut bus) = setup_cpu_bus();
    bus.write(0xFFFC, Opcode::LdxABY.into());
    bus.write(0xFFFD, 0xF0);
    bus.write(0xFFFE, 0x02); // 0x0300
    bus.write(0x0300, 0x2A);
    cpu.y = 0x10;
    let cycle_used = cpu.execute(5, &mut bus).unwrap();
    assert_eq!(cycle_used, 5);
    assert_eq!(cpu.x, 0x2A);
    assert!(cpu.flag.is_empty());
}

#[test]
fn tests_ldy_immediate_load_zero_value_to_register_y() {
    let (mut cpu, mut bus) = setup_cpu_bus();
    bus.write(0xFFFC, Opcode::LdyIMM.into());
    bus.write(0xFFFD, 0x0);
    let cycle_used = cpu.execute(2, &mut bus).unwrap();
    assert_eq!(cycle_used, 2);
    assert_eq!(cpu.y, 0x0);
    assert_eq!(cpu.flag.bits(), Flag::zero().bits());
}

#[test]
fn tests_ldy_immediate_load_negative_value_to_register_y() {
    let (mut cpu, mut bus) = setup_cpu_bus();
    bus.write(0xFFFC, Opcode::LdyIMM.into());
    bus.write(0xFFFD, 0x84);
    let cycle_used = cpu.execute(2, &mut bus).unwrap();
    assert_eq!(cycle_used, 2);
    assert_eq!(cpu.y, 0x84);
    assert_eq!(cpu.flag.bits(), Flag::negative().bits());
}

#[test]
fn tests_ldy_immediate_load_value_to_register_y() {
    let (mut cpu, mut bus) = setup_cpu_bus();
    bus.write(0xFFFC, Opcode::LdyIMM.into());
    bus.write(0xFFFD, 0x2A);
    let cycle_used = cpu.execute(2, &mut bus).unwrap();
    assert_eq!(cycle_used, 2);
    assert_eq!(cpu.y, 0x2A);
    assert!(cpu.flag.is_empty());
}

#[test]
fn tests_ldy_zero_page_load_value_to_register_y() {
    let (mut cpu, mut bus) = setup_cpu_bus();
    bus.write(0xFFFC, Opcode::LdyZPG.into());
    bus.write(0xFFFD, 0x42);
    bus.write(0x0042, 0x2A);
    let cycle_used = cpu.execute(3, &mut bus).unwrap();
    assert_eq!(cycle_used, 3);
    assert_eq!(cpu.y, 0x2A);
    assert!(cpu.flag.is_empty());
}

#[test]
fn tests_ldy_zero_page_x_load_value_to_register_y() {
    let (mut cpu, mut bus) = setup_cpu_bus();
    bus.write(0xFFFC, Opcode::LdyZPX.into());
    bus.write(0xFFFD, 0x40);
    bus.write(0x0042, 0x2A);
    cpu.x = 0x2;
    let cycle_used = cpu.execute(4, &mut bus).unwrap();
    assert_eq!(cycle_used, 4);
    assert_eq!(cpu.y, 0x2A);
    assert!(cpu.flag.is_empty());
}

#[test]
fn tests_ldy_abs_load_value_to_register_y() {
    let (mut cpu, mut bus) = setup_cpu_bus();
    bus.write(0xFFFC, Opcode::LdyABS.into());
    bus.write(0xFFFD, 0x42); // lo
    bus.write(0xFFFE, 0x41); // Ox4142
    bus.write(0x4142, 0x2A);
    let cycle_used = cpu.execute(4, &mut bus).unwrap();
    assert_eq!(cycle_used, 4);
    assert_eq!(cpu.y, 0x2A);
    assert!(cpu.flag.is_empty());
}

#[test]
fn tests_ldy_abx_load_value_to_register_y() {
    let (mut cpu, mut bus) = setup_cpu_bus();
    bus.write(0xFFFC, Opcode::LdyABX.into());
    bus.write(0xFFFD, 0x41);
    bus.write(0xFFFE, 0x42); // 0x4241
    bus.write(0x4242, 0x2A);
    cpu.x = 0x01;
    let cycle_used = cpu.execute(4, &mut bus).unwrap();
    assert_eq!(cycle_used, 4);
    assert_eq!(cpu.y, 0x2A);
    assert!(cpu.flag.is_empty());
}

#[test]
fn tests_ldy_abx_cross_page_load_value_to_register_y() {
    let (mut cpu, mut bus) = setup_cpu_bus();
    bus.write(0xFFFC, Opcode::LdyABX.into());
    bus.write(0xFFFD, 0xF0);
    bus.write(0xFFFE, 0xFF); // 0xFFF0
    bus.write(0x0000, 0x2A);
    cpu.x = 0x10;
    let cycle_used = cpu.execute(5, &mut bus).unwrap();
    assert_eq!(cycle_used, 5);
    assert_eq!(cpu.y, 0x2A);
    assert!(cpu.flag.is_empty());
}

// * STA TESTS
#[test]
fn tests_sta_zero_page_can_store_the_a_register_into_bus() {
    let (mut cpu, mut bus) = setup_cpu_bus();
    bus.write(0x0FFFC, Opcode::StaZPG.into());
    bus.write(0x0FFFD, 0x42);
    cpu.a = 0x2A;
    let cycle_used = cpu.execute(3, &mut bus).unwrap();
    assert_eq!(cycle_used, 3);
    assert_eq!(bus.ram[0x42], 42);
    assert!(cpu.flag.is_empty());
}

#[test]
fn tests_sta_zero_page_x_can_store_the_a_register_into_bus() {
    let (mut cpu, mut bus) = setup_cpu_bus();
    bus.write(0x0FFFC, Opcode::StaZPX.into());
    bus.write(0x0FFFD, 0x40);
    cpu.x = 0x02;
    cpu.a = 0x2A;
    let cycle_used = cpu.execute(4, &mut bus).unwrap();
    assert_eq!(cycle_used, 4);
    assert_eq!(bus.ram[0x42], 42);
    assert!(cpu.flag.is_empty());
}

#[test]
fn tests_sta_absolute_can_store_the_a_register_into_bus() {
    let (mut cpu, mut bus) = setup_cpu_bus();
    bus.write(0x0FFFC, Opcode::StaABS.into());
    bus.write(0x0FFFD, 0x42);
    bus.write(0x0FFFE, 0x37); // 0x3742
    cpu.a = 0x2A;
    let cycle_used = cpu.execute(4, &mut bus).unwrap();
    assert_eq!(cycle_used, 4);
    assert_eq!(bus.ram[0x3742], 42);
    assert!(cpu.flag.is_empty());
}

#[test]
fn tests_sta_absolute_x_can_store_the_a_register_into_bus() {
    let (mut cpu, mut bus) = setup_cpu_bus();
    bus.write(0x0FFFC, Opcode::StaABX.into());
    bus.write(0x0FFFD, 0x37);
    bus.write(0x0FFFE, 0x42); // 0x4237
    cpu.x = 0xB;
    cpu.a = 0x2A;
    let cycle_used = cpu.execute(5, &mut bus).unwrap();
    assert_eq!(cycle_used, 5);
    assert_eq!(bus.ram[0x4242], 42);
    assert!(cpu.flag.is_empty());
}

#[test]
fn tests_sta_absolute_y_can_store_the_a_register_into_bus() {
    let (mut cpu, mut bus) = setup_cpu_bus();
    bus.write(0x0FFFC, Opcode::StaABY.into());
    bus.write(0x0FFFD, 0x37);
    bus.write(0x0FFFE, 0x42); // 0x4237
    cpu.y = 0xB;
    cpu.a = 0x2A;
    let cycle_used = cpu.execute(5, &mut bus).unwrap();
    assert_eq!(cycle_used, 5);
    assert_eq!(bus.ram[0x4242], 42);
    assert!(cpu.flag.is_empty());
}

#[test]
fn tests_sta_indexed_indirect_x_can_store_the_a_register_into_bus() {
    let (mut cpu, mut bus) = setup_cpu_bus();
    bus.write(0x0FFFC, Opcode::StaIDX.into());
    bus.write(0x0FFFD, 0x37);
    bus.write(0x0042, 0x42);
    bus.write(0x0043, 0x42);
    cpu.x = 0xB;
    cpu.a = 0x2A;
    let cycle_used = cpu.execute(6, &mut bus).unwrap();
    assert_eq!(cycle_used, 6);
    assert_eq!(bus.ram[0x4242], 42);
    assert!(cpu.flag.is_empty());
}

#[test]
fn tests_sta_indirect_indexed_y_can_store_the_a_register_into_bus() {
    let (mut cpu, mut bus) = setup_cpu_bus();
    bus.write(0x0FFFC, Opcode::StaIDY.into());
    bus.write(0x0FFFD, 0x37);
    bus.write(0x0037, 0x37);
    bus.write(0x0038, 0x42);
    cpu.y = 0xB;
    cpu.a = 0x2A;
    let cycle_used = cpu.execute(6, &mut bus).unwrap();
    assert_eq!(cycle_used, 6);
    assert_eq!(bus.ram[0x4242], 42);
    assert!(cpu.flag.is_empty());
}
// * STX TESTS
#[test]
fn tests_stx_zero_page_can_store_the_a_register_into_bus() {
    let (mut cpu, mut bus) = setup_cpu_bus();
    bus.write(0x0FFFC, Opcode::StxZPG.into());
    bus.write(0x0FFFD, 0x42);
    cpu.x = 0x2A;
    let cycle_used = cpu.execute(3, &mut bus).unwrap();
    assert_eq!(cycle_used, 3);
    assert_eq!(bus.ram[0x42], 42);
    assert!(cpu.flag.is_empty());
}

#[test]
fn tests_stx_zero_page_y_can_store_the_a_register_into_bus() {
    let (mut cpu, mut bus) = setup_cpu_bus();
    bus.write(0x0FFFC, Opcode::StxZPY.into());
    bus.write(0x0FFFD, 0x40);
    cpu.y = 0x02;
    cpu.x = 0x2A;
    let cycle_used = cpu.execute(4, &mut bus).unwrap();
    assert_eq!(cycle_used, 4);
    assert_eq!(bus.ram[0x42], 42);
    assert!(cpu.flag.is_empty());
}

#[test]
fn tests_stx_absolute_can_store_the_a_register_into_bus() {
    let (mut cpu, mut bus) = setup_cpu_bus();
    bus.write(0x0FFFC, Opcode::StxABS.into());
    bus.write(0x0FFFD, 0x42);
    bus.write(0x0FFFE, 0x37); // 0x3742
    cpu.x = 0x2A;
    let cycle_used = cpu.execute(4, &mut bus).unwrap();
    assert_eq!(cycle_used, 4);
    assert_eq!(bus.ram[0x3742], 42);
    assert!(cpu.flag.is_empty());
}
// * STY TESTS
#[test]
fn tests_sty_zero_page_can_store_the_a_register_into_bus() {
    let (mut cpu, mut bus) = setup_cpu_bus();
    bus.write(0x0FFFC, Opcode::StyZPG.into());
    bus.write(0x0FFFD, 0x42);
    cpu.y = 0x2A;
    let cycle_used = cpu.execute(3, &mut bus).unwrap();
    assert_eq!(cycle_used, 3);
    assert_eq!(bus.ram[0x42], 42);
    assert!(cpu.flag.is_empty());
}

#[test]
fn tests_sty_zero_page_x_can_store_the_a_register_into_bus() {
    let (mut cpu, mut bus) = setup_cpu_bus();
    bus.write(0x0FFFC, Opcode::StyZPX.into());
    bus.write(0x0FFFD, 0x40);
    cpu.x = 0x02;
    cpu.y = 0x2A;
    let cycle_used = cpu.execute(4, &mut bus).unwrap();
    assert_eq!(cycle_used, 4);
    assert_eq!(bus.ram[0x42], 42);
    assert!(cpu.flag.is_empty());
}

#[test]
fn tests_sty_absolute_can_store_the_a_register_into_bus() {
    let (mut cpu, mut bus) = setup_cpu_bus();
    bus.write(0x0FFFC, Opcode::StyABS.into());
    bus.write(0x0FFFD, 0x42);
    bus.write(0x0FFFE, 0x37); // 0x3742
    cpu.y = 0x2A;
    let cycle_used = cpu.execute(4, &mut bus).unwrap();
    assert_eq!(cycle_used, 4);
    assert_eq!(bus.ram[0x3742], 42);
    assert!(cpu.flag.is_empty());
}

// * JSR TESTS
#[test]
fn tests_jsr_absolute_load_value_to_register_a() {
    let (mut cpu, mut bus) = setup_cpu_bus();
    bus.write(0xFFFC, Opcode::JsrABS.into());
    bus.write(0xFFFD, 0x80);
    bus.write(0xFFFE, 0x80);
    bus.write(0x8080, Opcode::LdaIMM.into());
    bus.write(0x8081, 0x2A);
    // 6 cycle to execute JSR instruction
    let cycle_used = cpu.execute(6, &mut bus).unwrap();
    assert_eq!(cycle_used, 6);
    // 2 cycle to execute LdaIMM instruction
    let cycle_used = cpu.execute(2, &mut bus).unwrap();
    assert_eq!(cycle_used, 2);
    assert_eq!(cpu.a, 0x2A);
    assert!(cpu.flag.is_empty());
}

// * RTS TESTS
#[test]
fn tests_jsr_rts_load_value_to_register_a() {
    let (mut cpu, mut bus) = setup_cpu_bus();
    bus.write(0xFFFC, Opcode::JsrABS.into());
    bus.write(0xFFFD, 0x80);
    bus.write(0xFFFE, 0x80);
    bus.write(0xFFFF, Opcode::LdaIMM.into());
    bus.write(0x0000, 0x2A);
    bus.write(0x8080, Opcode::RtsIMP.into()); // return
    // 6 cycle to execute JSR instruction
    let cycle_used = cpu.execute(6, &mut bus).unwrap();
    assert_eq!(cycle_used, 6);
    // another 6 cycle to execute RTS instruction
    let cycle_used = cpu.execute(6, &mut bus).unwrap();
    assert_eq!(cycle_used, 6);
    // check if the RTS returned successfully
    assert_eq!(cpu.pc, 0xFFFF);
    // 2 cycle to execute LdaIMM instruction
    let cycle_used = cpu.execute(2, &mut bus).unwrap();
    assert_eq!(cycle_used, 2);
    assert_eq!(cpu.a, 0x2A);
    assert!(cpu.flag.is_empty());
}

// * JMP TESTS
#[test]
fn tests_jmp_abs() {
    let (mut cpu, mut bus) = setup_cpu_bus();
    bus.write(0xFFFC, Opcode::JmpABS.into());
    bus.write(0xFFFD, 0x42);
    bus.write(0xFFFE, 0x42);
    let cycle_used = cpu.execute(3, &mut bus).unwrap();
    assert_eq!(cycle_used, 3);
    assert_eq!(cpu.pc, 0x4242);
    assert!(cpu.flag.is_empty());
}

#[test]
fn tests_jmp_ind() {
    let (mut cpu, mut bus) = setup_cpu_bus();
    bus.write(0xFFFC, Opcode::JmpIND.into());
    bus.write(0xFFFD, 0x42);
    bus.write(0xFFFE, 0x42);
    bus.write(0x4242, 0x37);
    bus.write(0x4243, 0x2A);
    let cycle_used = cpu.execute(5, &mut bus).unwrap();
    assert_eq!(cycle_used, 5);
    assert_eq!(cpu.pc, 0x2A37);
    assert!(cpu.flag.is_empty());
}

#[test]
fn tests_jmp_ind_to_lda() {
    let (mut cpu, mut bus) = setup_cpu_bus();
    bus.write(0xFFFC, Opcode::JmpIND.into());
    bus.write(0xFFFD, 0x42);
    bus.write(0xFFFE, 0x42);
    bus.write(0x4242, 0x37);
    bus.write(0x4243, 0x2A);
    bus.write(0x2A37, Opcode::LdaIMM.into());
    bus.write(0x2A38, 0x0);
    // Jump to ins
    let cycle_used = cpu.execute(5, &mut bus).unwrap();
    assert_eq!(cycle_used, 5);
    assert_eq!(cpu.pc, 0x2A37);
    assert!(cpu.flag.is_empty());
    // Execute ins after jump
    let cycle_used = cpu.execute(2, &mut bus).unwrap();
    assert_eq!(cycle_used, 2);
    assert_eq!(cpu.a, 0x0);
    assert_eq!(cpu.flag.bits(), Flag::zero().bits());
}

// * TSX TESTS
#[test]
fn tests_tsx_can_transfer_sp_to_x_register() {
    let (mut cpu, mut bus) = setup_cpu_bus();
    bus.write(0xFFFC, Opcode::TsxIMP.into());
    cpu.sp = 0x2A;
    let cycle_used = cpu.execute(2, &mut bus).unwrap();
    assert_eq!(cycle_used, 2);
    assert_eq!(cpu.x, 0x2A);
    assert!(cpu.flag.is_empty());
}

#[test]
fn tests_tsx_can_transfer_zero_sp_to_x_register() {
    let (mut cpu, mut bus) = setup_cpu_bus();
    bus.write(0xFFFC, Opcode::TsxIMP.into());
    cpu.sp = 0x0;
    let cycle_used = cpu.execute(2, &mut bus).unwrap();
    assert_eq!(cycle_used, 2);
    assert_eq!(cpu.x, 0x0);
    assert_eq!(cpu.flag.bits(), Flag::zero().bits());
}

#[test]
fn tests_tsx_can_transfer_negative_sp_to_x_register() {
    let (mut cpu, mut bus) = setup_cpu_bus();
    bus.write(0xFFFC, Opcode::TsxIMP.into());
    cpu.sp = 0b10000000;
    let cycle_used = cpu.execute(2, &mut bus).unwrap();
    assert_eq!(cycle_used, 2);
    assert_eq!(cpu.x, 0b10000000);
    assert_eq!(cpu.flag.bits(), Flag::negative().bits());
}

// * TXS TESTS
#[test]
fn tests_txs_can_transfer_x_register_to_sp() {
    let (mut cpu, mut bus) = setup_cpu_bus();
    bus.write(0xFFFC, Opcode::TxsIMP.into());
    cpu.x = 0x2A;
    let cycle_used = cpu.execute(2, &mut bus).unwrap();
    assert_eq!(cycle_used, 2);
    assert_eq!(cpu.sp, 0x2A);
    assert!(cpu.flag.is_empty());
}

// * PHA TESTS
#[test]
fn tests_pha_can_push_a_register_to_the_stack() {
    let (mut cpu, mut bus) = setup_cpu_bus();
    bus.write(0xFFFC, Opcode::PhaIMP.into());
    cpu.a = 0x2A;
    assert_eq!(cpu.sp, 0xFD);
    let cycle_used = cpu.execute(3, &mut bus).unwrap();
    assert_eq!(cycle_used, 3);
    assert_eq!(bus.ram[(cpu.stack_addr() + 1) as usize], 0x2A);
    assert_eq!(cpu.sp, 0xFC);
    assert!(cpu.flag.is_empty());
}

// * PHP TESTS
#[test]
fn tests_php_can_push_cpu_status_to_the_stack() {
    let (mut cpu, mut bus) = setup_cpu_bus();
    let flags = Flag::carry() | Flag::decimal_mode();
    let flags_as_byte = flags.bits();
    bus.write(0xFFFC, Opcode::PhpIMP.into());
    cpu.flag.insert(flags);
    assert_eq!(cpu.sp, 0xFD);
    let cycle_used = cpu.execute(3, &mut bus).unwrap();
    assert_eq!(cycle_used, 3);
    assert_eq!(
        bus.ram[(cpu.stack_addr() + 1) as usize],
        flags_as_byte | (Flag::break_command() | Flag::unused()).bits()
    );
    assert_eq!(cpu.sp, 0xFC);
    assert_eq!(cpu.flag.bits(), flags_as_byte);
}

// * PLA TESTS
#[test]
fn tests_pla_can_pull_value_from_stack_to_a_register() {
    let (mut cpu, mut bus) = setup_cpu_bus();
    bus.write(0xFFFC, Opcode::PhaIMP.into());
    cpu.a = 0x2A;
    let cycle_used = cpu.execute(3, &mut bus).unwrap();
    assert_eq!(cycle_used, 3);
    bus.write(0xFFFD, Opcode::PlaIMP.into());
    // reset a register
    cpu.a = 0x0;
    let cycle_used = cpu.execute(4, &mut bus).unwrap();
    assert_eq!(cycle_used, 4);
    assert_eq!(cpu.a, 0x2A);
    assert!(cpu.flag.is_empty());
}

#[test]
fn tests_pla_can_pull_zero_value_from_stack_to_a_register() {
    let (mut cpu, mut bus) = setup_cpu_bus();
    bus.write(0xFFFC, Opcode::PhaIMP.into());
    cpu.a = 0x0;
    let cycle_used = cpu.execute(3, &mut bus).unwrap();
    assert_eq!(cycle_used, 3);
    bus.write(0xFFFD, Opcode::PlaIMP.into());
    // change a register
    cpu.a = 0xFF;
    let cycle_used = cpu.execute(4, &mut bus).unwrap();
    assert_eq!(cycle_used, 4);
    assert_eq!(cpu.a, 0x0);
    assert_eq!(cpu.flag.bits(), Flag::zero().bits());
}

#[test]
fn tests_pla_can_pull_negative_value_from_stack_to_a_register() {
    let (mut cpu, mut bus) = setup_cpu_bus();
    bus.write(0xFFFC, Opcode::PhaIMP.into());
    cpu.a = 0x80;
    let cycle_used = cpu.execute(3, &mut bus).unwrap();
    assert_eq!(cycle_used, 3);
    bus.write(0xFFFD, Opcode::PlaIMP.into());
    // reset a register
    cpu.a = 0x0;
    let cycle_used = cpu.execute(4, &mut bus).unwrap();
    assert_eq!(cycle_used, 4);
    assert_eq!(cpu.a, 0x80);
    assert_eq!(cpu.flag.bits(), Flag::negative().bits());
}

// * PLP TESTS
#[test]
fn tests_plp_can_pull_cpu_status_from_the_stack() {
    let (mut cpu, mut bus) = setup_cpu_bus();
    let flags = Flag::carry() | Flag::decimal_mode();
    let flags_as_byte = flags.bits();
    bus.write(0xFFFC, Opcode::PhpIMP.into());
    cpu.flag.insert(flags);
    assert_eq!(cpu.sp, 0xFD);
    let cycle_used = cpu.execute(3, &mut bus).unwrap();
    assert_eq!(cycle_used, 3);
    assert_eq!(
        bus.ram[(cpu.stack_addr() + 1) as usize],
        flags_as_byte | (Flag::break_command() | Flag::unused()).bits()
    );
    assert_eq!(cpu.sp, 0xFC);
    assert_eq!(cpu.flag.bits(), flags_as_byte);
    cpu.flag.clear();
    bus.write(0xFFFD, Opcode::PlpIMP.into());
    let cycle_used = cpu.execute(4, &mut bus).unwrap();
    assert_eq!(cycle_used, 4);
    assert_eq!(cpu.flag.bits(), flags_as_byte);
}

// * Stack Operations TESTS
#[test]
fn tests_stack_can_push_and_pull_byte() {
    let (mut cpu, mut bus) = setup_cpu_bus();
    cpu.push_byte(0x2A, &mut bus);
    assert_eq!(bus.ram[0x01FD], 0x2A); // check the data if stored in the correct place
    assert_eq!(cpu.sp, 0xFC); // check if the SP decremented by 1 after storing the data
    let data = cpu.pull_byte(&mut bus);
    assert_eq!(data, 0x2A);
    assert_eq!(cpu.sp, 0xFD); // the SP must return to its initial position
}

#[test]
fn tests_stack_can_push_and_pull_array_of_bytes() {
    let (mut cpu, mut bus) = setup_cpu_bus();
    for i in 1..=10 {
        cpu.push_byte(i, &mut bus);
        let addr = 0x0100 | (cpu.sp + 1) as Word;
        assert_eq!(bus.ram[addr as usize], i); // check the data if stored in the correct place
    }
    assert_eq!(cpu.sp, 0xFD - 10); // check if the SP decremented by 10 after storing the data
    for i in (1..=10).rev() {
        let data = cpu.pull_byte(&mut bus);
        assert_eq!(data, i);
    }
    assert_eq!(cpu.sp, 0xFD); // the SP must return to its initial position
}

#[test]
fn tests_stack_can_push_and_pull_word() {
    let (mut cpu, mut bus) = setup_cpu_bus();
    cpu.push_word(0x2A37, &mut bus);
    assert_eq!(bus.ram[0x01FD], 0x2A); // hi first
    assert_eq!(bus.ram[0x01FC], 0x37); // lo
    assert_eq!(cpu.sp, 0xFB); // check if the SP decremented by 2 after storing the data
    let data = cpu.pull_word(&mut bus);
    assert_eq!(data, 0x2A37);
    assert_eq!(cpu.sp, 0xFD); // the SP must return to its initial position
}

#[test]
fn tests_stack_can_push_and_pull_array_of_words() {
    let (mut cpu, mut bus) = setup_cpu_bus();
    for i in 0x2A2A..0x2A34 {
        cpu.push_word(i, &mut bus);
        let mut addr = 0x0100 | (cpu.sp + 1) as Word;
        assert_eq!(bus.ram[addr as usize], i as Byte); // check lo first
        addr += 1;
        assert_eq!(bus.ram[addr as usize], (i >> 8) as Byte); // check hi
    }
    assert_eq!(cpu.sp, 0xFD - 20); // check if the SP decremented by 20 after storing the data
    for i in (0x2A2A..0x2A34).rev() {
        let data = cpu.pull_word(&mut bus);
        assert_eq!(data, i);
    }
    assert_eq!(cpu.sp, 0xFD); // the SP must return to its initial position
}
