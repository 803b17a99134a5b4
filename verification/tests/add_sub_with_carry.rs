use cpu_6502::bus::simple_bus::SimpleBus;
use cpu_6502::bus::{Bus, Byte};
use cpu_6502::cpu::instructions::opcode::Opcode;
use cpu_6502::cpu::{CPU, Flag};

/// A processor that was reset with its reset vector pointing at `0xFFFC`, over
/// memory that is all zero again: programs are written where execution starts.
fn setup_cpu_bus() -> (CPU, SimpleBus) {
    let mut cpu = CPU::new();
    let mut bus = SimpleBus::default();
    bus.write(0xFFFC, 0xFC);
    bus.write(0xFFFD, 0xFF);
    cpu.reset(&mut bus);
    bus.write(0xFFFC, 0x00);
    bus.write(0xFFFD, 0x00);
    (cpu, bus)
}

#[derive(PartialEq)]
enum Operation {
    Add,
    Sub,
}

struct ArithmeticTestData {
    carry: bool,
    a: Byte,
    operand: Byte,
    answer: Byte,
    expected_flags: Flag,
}

impl ArithmeticTestData {
    fn new(carry: bool, a: Byte, operand: Byte, answer: Byte, expected_flags: Flag) -> Self {
        Self {
            carry,
            a,
            operand,
            answer,
            expected_flags,
        }
    }
}

fn test_adc_sbc_imm(data: &ArithmeticTestData, op: Operation) {
    let (mut cpu, mut bus) = setup_cpu_bus();
    cpu.flag.set(Flag::carry(), data.carry);
    cpu.flag.set(
        Flag::negative(),
        !data.expected_flags.contains(Flag::negative()),
    );
    cpu.flag
        .set(Flag::zero(), !data.expected_flags.contains(Flag::zero()));
    cpu.flag.set(
        Flag::overflow(),
        !data.expected_flags.contains(Flag::overflow()),
    );
    bus.write(
        0xFFFC,
        if op == Operation::Add {
            Opcode::AdcIMM.into()
        } else {
            Opcode::SbcIMM.into()
        },
    );
    bus.write(0xFFFD, data.operand);
    cpu.a = data.a;
    let cycle_expected = cpu.step(&mut bus).unwrap();
    assert_eq!(cycle_expected, 2);
    assert_eq!(cpu.a, data.answer);
    assert_eq!(cpu.flag.bits(), data.expected_flags.bits());
}

fn test_adc_sbc_zpg(data: &ArithmeticTestData, op: Operation) {
    let (mut cpu, mut bus) = setup_cpu_bus();
    cpu.flag.set(Flag::carry(), data.carry);
    cpu.flag.set(
        Flag::negative(),
        !data.expected_flags.contains(Flag::negative()),
    );
    cpu.flag
        .set(Flag::zero(), !data.expected_flags.contains(Flag::zero()));
    cpu.flag.set(
        Flag::overflow(),
        !data.expected_flags.contains(Flag::overflow()),
    );
    bus.write(
        0xFFFC,
        if op == Operation::Add {
            Opcode::AdcZPG.into()
        } else {
            Opcode::SbcZPG.into()
        },
    );
    bus.write(0xFFFD, 0x0042);
    bus.write(0x0042, data.operand);
    cpu.a = data.a;
    let cycle_expected = cpu.step(&mut bus).unwrap();
    assert_eq!(cycle_expected, 3);
    assert_eq!(cpu.a, data.answer);
    assert_eq!(cpu.flag.bits(), data.expected_flags.bits());
}

fn test_adc_sbc_zpx(data: &ArithmeticTestData, op: Operation) {
    let (mut cpu, mut bus) = setup_cpu_bus();
    cpu.flag.set(Flag::carry(), data.carry);
    cpu.flag.set(
        Flag::negative(),
        !data.expected_flags.contains(Flag::negative()),
    );
    cpu.flag
        .set(Flag::zero(), !data.expected_flags.contains(Flag::zero()));
    cpu.flag.set(
        Flag::overflow(),
        !data.expected_flags.contains(Flag::overflow()),
    );
    bus.write(
        0xFFFC,
        if op == Operation::Add {
            Opcode::AdcZPX.into()
        } else {
            Opcode::SbcZPX.into()
        },
    );
    bus.write(0xFFFD, 0x0040);
    bus.write(0x0042, data.operand);
    cpu.x = 0x02;
    cpu.a = data.a;
    let cycle_expected = cpu.step(&mut bus).unwrap();
    assert_eq!(cycle_expected, 4);
    assert_eq!(cpu.a, data.answer);
    assert_eq!(cpu.flag.bits(), data.expected_flags.bits());
}

fn test_adc_sbc_abs(data: &ArithmeticTestData, op: Operation) {
    let (mut cpu, mut bus) = setup_cpu_bus();
    cpu.flag.set(Flag::carry(), data.carry);
    cpu.flag.set(
        Flag::negative(),
        !data.expected_flags.contains(Flag::negative()),
    );
    cpu.flag
        .set(Flag::zero(), !data.expected_flags.contains(Flag::zero()));
    cpu.flag.set(
        Flag::overflow(),
        !data.expected_flags.contains(Flag::overflow()),
    );
    bus.write(
        0xFFFC,
        if op == Operation::Add {
            Opcode::AdcABS.into()
        } else {
            Opcode::SbcABS.into()
        },
    );
    bus.write(0xFFFD, 0x37);
    bus.write(0xFFFE, 0x13);
    bus.write(0x1337, data.operand);
    cpu.a = data.a;
    let cycle_expected = cpu.step(&mut bus).unwrap();
    assert_eq!(cycle_expected, 4);
    assert_eq!(cpu.a, data.answer);
    assert_eq!(cpu.flag.bits(), data.expected_flags.bits());
}

fn test_adc_sbc_abx(data: &ArithmeticTestData, op: Operation) {
    let (mut cpu, mut bus) = setup_cpu_bus();
    cpu.flag.set(Flag::carry(), data.carry);
    cpu.flag.set(
        Flag::negative(),
        !data.expected_flags.contains(Flag::negative()),
    );
    cpu.flag
        .set(Flag::zero(), !data.expected_flags.contains(Flag::zero()));
    cpu.flag.set(
        Flag::overflow(),
        !data.expected_flags.contains(Flag::overflow()),
    );
    bus.write(
        0xFFFC,
        if op == Operation::Add {
            Opcode::AdcABX.into()
        } else {
            Opcode::SbcABX.into()
        },
    );
    bus.write(0xFFFD, 0x35);
    bus.write(0xFFFE, 0x13);
    bus.write(0x1337, data.operand);
    cpu.x = 0x02;
    cpu.a = data.a;
    let cycle_expected = cpu.step(&mut bus).unwrap();
    assert_eq!(cycle_expected, 4);
    assert_eq!(cpu.a, data.answer);
    assert_eq!(cpu.flag.bits(), data.expected_flags.bits());
}

fn test_adc_sbc_aby(data: &ArithmeticTestData, op: Operation) {
    let (mut cpu, mut bus) = setup_cpu_bus();
    cpu.flag.set(Flag::carry(), data.carry);
    cpu.flag.set(
        Flag::negative(),
        !data.expected_flags.contains(Flag::negative()),
    );
    cpu.flag
        .set(Flag::zero(), !data.expected_flags.contains(Flag::zero()));
    cpu.flag.set(
        Flag::overflow(),
        !data.expected_flags.contains(Flag::overflow()),
    );
    bus.write(
        0xFFFC,
        if op == Operation::Add {
            Opcode::AdcABY.into()
        } else {
            Opcode::SbcABY.into()
        },
    );
    bus.write(0xFFFD, 0x35);
    bus.write(0xFFFE, 0x13);
    bus.write(0x1337, data.operand);
    cpu.y = 0x02;
    cpu.a = data.a;
    let cycle_expected = cpu.step(&mut bus).unwrap();
    assert_eq!(cycle_expected, 4);
    assert_eq!(cpu.a, data.answer);
    assert_eq!(cpu.flag.bits(), data.expected_flags.bits());
}

fn test_adc_sbc_idx(data: &ArithmeticTestData, op: Operation) {
    let (mut cpu, mut bus) = setup_cpu_bus();
    cpu.flag.set(Flag::carry(), data.carry);
    cpu.flag.set(
        Flag::negative(),
        !data.expected_flags.contains(Flag::negative()),
    );
    cpu.flag
        .set(Flag::zero(), !data.expected_flags.contains(Flag::zero()));
    cpu.flag.set(
        Flag::overflow(),
        !data.expected_flags.contains(Flag::overflow()),
    );
    bus.write(
        0xFFFC,
        if op == Operation::Add {
            Opcode::AdcIDX.into()
        } else {
            Opcode::SbcIDX.into()
        },
    );
    bus.write(0xFFFD, 0x003F);
    bus.write(0x0041, 0x37);
    bus.write(0x0042, 0x13);
    bus.write(0x1337, data.operand);
    cpu.x = 0x02;
    cpu.a = data.a;
    let cycle_expected = cpu.step(&mut bus).unwrap();
    assert_eq!(cycle_expected, 6);
    assert_eq!(cpu.a, data.answer);
    assert_eq!(cpu.flag.bits(), data.expected_flags.bits());
}

fn test_adc_sbc_idy(data: &ArithmeticTestData, op: Operation) {
    let (mut cpu, mut bus) = setup_cpu_bus();
    cpu.flag.set(Flag::carry(), data.carry);
    cpu.flag.set(
        Flag::negative(),
        !data.expected_flags.contains(Flag::negative()),
    );
    cpu.flag
        .set(Flag::zero(), !data.expected_flags.contains(Flag::zero()));
    cpu.flag.set(
        Flag::overflow(),
        !data.expected_flags.contains(Flag::overflow()),
    );
    bus.write(
        0xFFFC,
        if op == Operation::Add {
            Opcode::AdcIDY.into()
        } else {
            Opcode::SbcIDY.into()
        },
    );
    bus.write(0xFFFD, 0x0041);
    bus.write(0x0041, 0x35);
    bus.write(0x0042, 0x13);
    bus.write(0x1337, data.operand);
    cpu.y = 0x02;
    cpu.a = data.a;
    let cycle_expected = cpu.step(&mut bus).unwrap();
    assert_eq!(cycle_expected, 5);
    assert_eq!(cpu.a, data.answer);
    assert_eq!(cpu.flag.bits(), data.expected_flags.bits());
}

#[test]
fn adc_imm_can_add_zero_to_zero_and_get_zero() {
    let data = ArithmeticTestData::new(false, 0, 0, 0, Flag::zero());
    test_adc_sbc_imm(&data, Operation::Add);
}

#[test]
fn adc_imm_can_add_carry_and_zero_to_zero_and_get_one() {
    let data = ArithmeticTestData::new(true, 0, 0, 1, Flag::empty());
    test_adc_sbc_imm(&data, Operation::Add);
}

#[test]
fn adc_imm_can_add_carry_and_two_unsigned_numbers() {
    let data = ArithmeticTestData::new(true, 0x14, 0x15, 0x2A, Flag::empty());
    test_adc_sbc_imm(&data, Operation::Add);
}

#[test]
fn adc_imm_can_add_carry_and_positive_and_negative_number() {
    // 00010100
    // 11111111
    // 00010011
    let data = ArithmeticTestData::new(false, 0x14, 0xFF, 0x13, Flag::carry());
    test_adc_sbc_imm(&data, Operation::Add);
}

#[test]
fn adc_imm_can_add_one_to_ff_and_get_zero_with_carry() {
    let data = ArithmeticTestData::new(false, 0xFF, 1, 0, Flag::carry() | Flag::zero());
    test_adc_sbc_imm(&data, Operation::Add);
}

#[test]
fn adc_imm_will_set_the_negative_flag_when_the_result_is_negative() {
    let data = ArithmeticTestData::new(false, 0, 0xFF, 0xFF, Flag::negative());
    test_adc_sbc_imm(&data, Operation::Add);
}

#[test]
fn adc_imm_can_add_two_negative_numbers_and_get_negative() {
    let data = ArithmeticTestData::new(
        false,
        0xFD, // -3
        0xFE, // -2
        0xFB, // -5
        Flag::negative() | Flag::carry(),
    );
    test_adc_sbc_imm(&data, Operation::Add);
}

#[test]
fn adc_imm_will_set_the_overflow_flag_when_signed_negative_addition_fails() {
    // 11111111
    // 10000000
    // 01111111
    let data = ArithmeticTestData::new(
        false,
        0xFF, // -1
        0x80, // -128
        0x7F, // 127 // * Overflow
        Flag::carry() | Flag::overflow(),
    );
    test_adc_sbc_imm(&data, Operation::Add);
}

#[test]
fn adc_zpg_can_add_two_unsigned_numbers() {
    let data = ArithmeticTestData::new(true, 0x1F, 0x0A, 0x2A, Flag::empty());
    test_adc_sbc_zpg(&data, Operation::Add);
}

#[test]
fn adc_zpg_can_add_positive_and_negative_number() {
    let data = ArithmeticTestData::new(
        true,
        0x30, // 48
        0xF9, // -6
        0x2A,
        Flag::carry(),
    );
    test_adc_sbc_zpg(&data, Operation::Add);
}

#[test]
fn adc_zpx_can_add_two_unsigned_numbers() {
    let data = ArithmeticTestData::new(true, 0x1F, 0x0A, 0x2A, Flag::empty());
    test_adc_sbc_zpx(&data, Operation::Add);
}

#[test]
fn adc_zpx_can_add_positive_and_negative_number() {
    let data = ArithmeticTestData::new(
        true,
        0x30, // 48
        0xF9, // -6
        0x2A,
        Flag::carry(),
    );
    test_adc_sbc_zpx(&data, Operation::Add);
}

#[test]
fn adc_abs_can_add_two_unsigned_numbers() {
    let data = ArithmeticTestData::new(true, 0x1F, 0x0A, 0x2A, Flag::empty());
    test_adc_sbc_abs(&data, Operation::Add);
}

#[test]
fn adc_abs_can_add_positive_and_negative_number() {
    let data = ArithmeticTestData::new(
        true,
        0x30, // 48
        0xF9, // -6
        0x2A,
        Flag::carry(),
    );
    test_adc_sbc_abs(&data, Operation::Add);
}

#[test]
fn adc_abx_can_add_two_unsigned_numbers() {
    let data = ArithmeticTestData::new(true, 0x1F, 0x0A, 0x2A, Flag::empty());
    test_adc_sbc_abx(&data, Operation::Add);
}

#[test]
fn adc_abx_can_add_positive_and_negative_number() {
    let data = ArithmeticTestData::new(
        true,
        0x30, // 48
        0xF9, // -6
        0x2A,
        Flag::carry(),
    );
    test_adc_sbc_abx(&data, Operation::Add);
}

#[test]
fn adc_aby_can_add_two_unsigned_numbers() {
    let data = ArithmeticTestData::new(true, 0x1F, 0x0A, 0x2A, Flag::empty());
    test_adc_sbc_aby(&data, Operation::Add);
}

#[test]
fn adc_aby_can_add_positive_and_negative_number() {
    let data = ArithmeticTestData::new(
        true,
        0x30, // 48
        0xF9, // -6
        0x2A,
        Flag::carry(),
    );
    test_adc_sbc_aby(&data, Operation::Add);
}

#[test]
fn adc_idx_can_add_two_unsigned_numbers() {
    let data = ArithmeticTestData::new(true, 0x1F, 0x0A, 0x2A, Flag::empty());
    test_adc_sbc_idx(&data, Operation::Add);
}

#[test]
fn adc_idx_can_add_positive_and_negative_number() {
    let data = ArithmeticTestData::new(
        true,
        0x30, // 48
        0xF9, // -6
        0x2A,
        Flag::carry(),
    );
    test_adc_sbc_idx(&data, Operation::Add);
}

#[test]
fn adc_idy_can_add_two_unsigned_numbers() {
    let data = ArithmeticTestData::new(true, 0x1F, 0x0A, 0x2A, Flag::empty());
    test_adc_sbc_idy(&data, Operation::Add);
}

#[test]
fn adc_idy_can_add_positive_and_negative_number() {
    let data = ArithmeticTestData::new(
        true,
        0x30, // 48
        0xF9, // -6
        0x2A,
        Flag::carry(),
    );
    test_adc_sbc_idy(&data, Operation::Add);
}

// * SBC TESTS

#[test]
fn sbc_imm_can_sub_zero_from_zero_and_get_zero() {
    let data = ArithmeticTestData::new(true, 0, 0, 0, Flag::carry() | Flag::zero());
    test_adc_sbc_imm(&data, Operation::Sub);
}

#[test]
fn sbc_imm_can_sub_zero_from_zero_with_carry_and_get_minus_one() {
    let data = ArithmeticTestData::new(
        false,
        0,
        0,
        0xFF, // -1
        Flag::negative(),
    );
    test_adc_sbc_imm(&data, Operation::Sub);
}

#[test]
fn sbc_imm_can_sub_one_from_zero_and_get_minus_one() {
    let data = ArithmeticTestData::new(
        true,
        0,
        1,
        0xFF, // -1
        Flag::negative(),
    );
    test_adc_sbc_imm(&data, Operation::Sub);
}

#[test]
fn sbc_imm_can_sub_one_from_zero_with_carry_and_get_minus_two() {
    let data = ArithmeticTestData::new(
        false,
        0,
        1,
        0xFE, // -2
        Flag::negative(),
    );
    test_adc_sbc_imm(&data, Operation::Sub);
}

#[test]
fn sbc_imm_can_sub_two_signed_numbers_and_get_signed_overflow() {
    let data = ArithmeticTestData::new(
        true,
        0x80, // -128
        1,
        0x7F, // 127
        Flag::overflow() | Flag::carry(),
    );
    test_adc_sbc_imm(&data, Operation::Sub);
}

#[test]
fn sbc_imm_can_sub_positive_and_negative_numbers_and_get_signed_overflow() {
    let data = ArithmeticTestData::new(
        true,
        0x7F, // 127
        0xFF, // -1
        0x80, // 128
        Flag::overflow() | Flag::negative(),
    );
    test_adc_sbc_imm(&data, Operation::Sub);
}

#[test]
fn sbc_imm_can_sub_two_unsigned_numbers() {
    let data = ArithmeticTestData::new(true, 0x2F, 0x05, 0x2A, Flag::carry());
    test_adc_sbc_imm(&data, Operation::Sub);
}

#[test]
fn sbc_imm_can_sub_two_negative_numbers() {
    let data = ArithmeticTestData::new(
        true,
        0xD1, // -47
        0xFB, // -5
        0xD6,
        Flag::negative(),
    );
    test_adc_sbc_imm(&data, Operation::Sub);
}

#[test]
fn sbc_zpg_can_sub_two_unsigned_numbers() {
    let data = ArithmeticTestData::new(true, 0x2F, 0x05, 0x2A, Flag::carry());
    test_adc_sbc_zpg(&data, Operation::Sub);
}

#[test]
fn sbc_zpg_can_sub_two_negative_numbers() {
    let data = ArithmeticTestData::new(
        true,
        0xD1, // -47
        0xFB, // -5
        0xD6,
        Flag::negative(),
    );
    test_adc_sbc_zpg(&data, Operation::Sub);
}

#[test]
fn sbc_zpx_can_sub_two_unsigned_numbers() {
    let data = ArithmeticTestData::new(true, 0x2F, 0x05, 0x2A, Flag::carry());
    test_adc_sbc_zpx(&data, Operation::Sub);
}

#[test]
fn sbc_zpx_can_sub_two_negative_numbers() {
    let data = ArithmeticTestData::new(
        true,
        0xD1, // -47
        0xFB, // -5
        0xD6,
        Flag::negative(),
    );
    test_adc_sbc_zpx(&data, Operation::Sub);
}

#[test]
fn sbc_abs_can_sub_two_unsigned_numbers() {
    let data = ArithmeticTestData::new(true, 0x2F, 0x05, 0x2A, Flag::carry());
    test_adc_sbc_abs(&data, Operation::Sub);
}

#[test]
fn sbc_abs_can_sub_two_negative_numbers() {
    let data = ArithmeticTestData::new(
        true,
        0xD1, // -47
        0xFB, // -5
        0xD6,
        Flag::negative(),
    );
    test_adc_sbc_abs(&data, Operation::Sub);
}

#[test]
fn sbc_abx_can_sub_two_unsigned_numbers() {
    let data = ArithmeticTestData::new(true, 0x2F, 0x05, 0x2A, Flag::carry());
    test_adc_sbc_abx(&data, Operation::Sub);
}

#[test]
fn sbc_abx_can_sub_two_negative_numbers() {
    let data = ArithmeticTestData::new(
        true,
        0xD1, // -47
        0xFB, // -5
        0xD6,
        Flag::negative(),
    );
    test_adc_sbc_abx(&data, Operation::Sub);
}

#[test]
fn sbc_aby_can_sub_two_unsigned_numbers() {
    let data = ArithmeticTestData::new(true, 0x2F, 0x05, 0x2A, Flag::carry());
    test_adc_sbc_aby(&data, Operation::Sub);
}

#[test]
fn sbc_aby_can_sub_two_negative_numbers() {
    let data = ArithmeticTestData::new(
        true,
        0xD1, // -47
        0xFB, // -5
        0xD6,
        Flag::negative(),
    );
    test_adc_sbc_aby(&data, Operation::Sub);
}

#[test]
fn sbc_idx_can_sub_two_unsigned_numbers() {
    let data = ArithmeticTestData::new(true, 0x2F, 0x05, 0x2A, Flag::carry());
    test_adc_sbc_idx(&data, Operation::Sub);
}

#[test]
fn sbc_idx_can_sub_two_negative_numbers() {
    let data = ArithmeticTestData::new(
        true,
        0xD1, // -47
        0xFB, // -5
        0xD6,
        Flag::negative(),
    );
    test_adc_sbc_idx(&data, Operation::Sub);
}

#[test]
fn sbc_idy_can_sub_two_unsigned_numbers() {
    let data = ArithmeticTestData::new(true, 0x2F, 0x05, 0x2A, Flag::carry());
    test_adc_sbc_idy(&data, Operation::Sub);
}

#[test]
fn sbc_idy_can_sub_two_negative_numbers() {
    let data = ArithmeticTestData::new(
        true,
        0xD1, // -47
        0xFB, // -5
        0xD6,
        Flag::negative(),
    );
    test_adc_sbc_idy(&data, Operation::Sub);
}
