use simulation_engine::cpu::CPU;
use simulation_engine::decode::decode;
use simulation_engine::diagnostic::Diagnostic;

const OP_REG: u32 = 0x33;
const OP_IMM: u32 = 0x13;

fn r_type(funct7: u32, rs2: u32, rs1: u32, funct3: u32, rd: u32) -> u32 {
    (funct7 << 25) | (rs2 << 20) | (rs1 << 15) | (funct3 << 12) | (rd << 7) | OP_REG
}

fn i_type(imm: i32, rs1: u32, funct3: u32, rd: u32) -> u32 {
    (((imm as u32) & 0xFFF) << 20) | (rs1 << 15) | (funct3 << 12) | (rd << 7) | OP_IMM
}

fn initial_registers() -> Vec<u64> {
    let mut registers: Vec<u64> = vec![0; 32];
    registers[2] = 0x7FFF_FFF0;
    registers
}

#[test]
fn fresh_cpu_has_initial_state() {
    let cpu = CPU::new();
    assert_eq!(cpu.get_register(2), 0x7FFF_FFF0);
    assert_eq!(cpu.pc(), 0x1000);
    assert_eq!(cpu.cycle_count(), 0);
    assert_eq!(cpu.get_all_registers(), initial_registers());
}

#[test]
fn default_cpu_is_a_fresh_cpu() {
    let cpu = CPU::default();
    assert_eq!(cpu.get_all_registers(), initial_registers());
    assert_eq!(cpu.pc(), 0x1000);
    assert_eq!(cpu.cycle_count(), 0);
}

#[test]
fn addi_adds_the_immediate() {
    let mut cpu = CPU::new();
    cpu.set_register(1, 5);
    let word: u32 = i_type(3, 1, 0x0, 2);
    assert_eq!(word, 0x0030_8113);
    let cycles: u32 = cpu.execute(word);
    assert_eq!(cycles, 1);
    assert_eq!(cpu.get_register(2), 8);
    assert_eq!(cpu.pc(), 0x1004);
    assert_eq!(cpu.cycle_count(), 1);
}

#[test]
fn sub_subtracts_registers() {
    let mut cpu = CPU::new();
    cpu.set_register(1, 10);
    cpu.set_register(2, 4);
    let word: u32 = r_type(0x20, 2, 1, 0x0, 3);
    assert_eq!(word, 0x4020_81B3);
    cpu.execute(word);
    assert_eq!(cpu.get_register(3), 6);
}

#[test]
fn unmapped_opcode_changes_no_register() {
    let mut cpu = CPU::new();
    cpu.set_register(5, 77);
    let before: Vec<u64> = cpu.get_all_registers();
    let cycles: u32 = cpu.execute(0x7F);
    assert_eq!(cycles, 1);
    assert_eq!(cpu.get_all_registers(), before);
    assert_eq!(cpu.pc(), 0x1004);
    assert_eq!(cpu.cycle_count(), 1);
    assert_eq!(decode(0x7F).diagnostic(), Some(Diagnostic::UnknownOpcode { opcode: 0x7F }));
}

#[test]
fn reset_restores_the_initial_state() {
    let mut cpu = CPU::new();
    cpu.set_register(1, 5);
    cpu.execute(i_type(3, 1, 0x0, 2));
    cpu.reset();
    assert_eq!(cpu.get_register(2), 0x7FFF_FFF0);
    assert_eq!(cpu.pc(), 0x1000);
    assert_eq!(cpu.cycle_count(), 0);
    assert_eq!(cpu.get_all_registers(), initial_registers());
}

#[test]
fn reset_clears_every_register_and_counter() {
    let mut cpu = CPU::new();
    let mut index: usize = 0;
    while index < 32 {
        cpu.set_register(index, 0xDEAD_0000 + index as u64);
        index += 1;
    }
    cpu.set_pc(0xFFFF_0000);
    cpu.execute(0x7F);
    cpu.execute(0x7F);
    cpu.reset();
    assert_eq!(cpu.get_all_registers(), initial_registers());
    assert_eq!(cpu.pc(), 0x1000);
    assert_eq!(cpu.cycle_count(), 0);
}

#[test]
fn register_zero_ignores_direct_writes() {
    let mut cpu = CPU::new();
    cpu.set_register(0, 123);
    assert_eq!(cpu.get_register(0), 0);
    assert_eq!(cpu.get_all_registers()[0], 0);
}

#[test]
fn register_zero_ignores_instruction_results() {
    let mut cpu = CPU::new();
    cpu.set_register(1, 9);
    cpu.set_register(2, 8);
    cpu.execute(r_type(0x00, 2, 1, 0x0, 0));
    assert_eq!(cpu.get_register(0), 0);
    cpu.execute(r_type(0x20, 2, 1, 0x0, 0));
    assert_eq!(cpu.get_register(0), 0);
    cpu.execute(r_type(0x00, 2, 1, 0x4, 0));
    assert_eq!(cpu.get_register(0), 0);
    cpu.execute(r_type(0x00, 2, 1, 0x6, 0));
    assert_eq!(cpu.get_register(0), 0);
    cpu.execute(r_type(0x00, 2, 1, 0x7, 0));
    assert_eq!(cpu.get_register(0), 0);
    cpu.execute(i_type(7, 1, 0x0, 0));
    assert_eq!(cpu.get_register(0), 0);
    cpu.execute(i_type(7, 1, 0x4, 0));
    assert_eq!(cpu.get_register(0), 0);
    cpu.execute(i_type(7, 1, 0x6, 0));
    assert_eq!(cpu.get_register(0), 0);
    cpu.execute(i_type(7, 1, 0x7, 0));
    assert_eq!(cpu.get_register(0), 0);
    assert_eq!(cpu.pc(), 0x1000 + 9 * 4);
    assert_eq!(cpu.cycle_count(), 9);
}

#[test]
fn out_of_range_register_reads_zero() {
    let cpu = CPU::new();
    assert_eq!(cpu.get_register(32), 0);
    assert_eq!(cpu.get_register(usize::MAX), 0);
}

#[test]
fn out_of_range_register_write_is_ignored() {
    let mut cpu = CPU::new();
    cpu.set_register(32, 1);
    cpu.set_register(usize::MAX, 1);
    assert_eq!(cpu.get_all_registers(), initial_registers());
    assert_eq!(cpu.pc(), 0x1000);
    assert_eq!(cpu.cycle_count(), 0);
}

#[test]
fn highest_register_is_writable() {
    let mut cpu = CPU::new();
    cpu.set_register(31, u64::MAX);
    assert_eq!(cpu.get_register(31), u64::MAX);
    cpu.set_register(1, 1);
    assert_eq!(cpu.get_register(1), 1);
}

#[test]
fn set_pc_changes_only_the_program_counter() {
    let mut cpu = CPU::new();
    cpu.set_register(7, 70);
    let before: Vec<u64> = cpu.get_all_registers();
    cpu.set_pc(0xABCD_EF00);
    assert_eq!(cpu.pc(), 0xABCD_EF00);
    assert_eq!(cpu.get_all_registers(), before);
    assert_eq!(cpu.cycle_count(), 0);
}

#[test]
fn add_wraps_modulo_two_to_the_64() {
    let mut cpu = CPU::new();
    cpu.set_register(1, u64::MAX);
    cpu.set_register(2, 1);
    cpu.execute(r_type(0x00, 2, 1, 0x0, 3));
    assert_eq!(cpu.get_register(3), 0);
    cpu.set_register(1, u64::MAX);
    cpu.set_register(2, u64::MAX);
    cpu.execute(r_type(0x00, 2, 1, 0x0, 3));
    assert_eq!(cpu.get_register(3), u64::MAX - 1);
    cpu.set_register(1, 40);
    cpu.set_register(2, 2);
    cpu.execute(r_type(0x00, 2, 1, 0x0, 3));
    assert_eq!(cpu.get_register(3), 42);
}

#[test]
fn sub_wraps_modulo_two_to_the_64() {
    let mut cpu = CPU::new();
    cpu.set_register(1, 0);
    cpu.set_register(2, 1);
    cpu.execute(r_type(0x20, 2, 1, 0x0, 3));
    assert_eq!(cpu.get_register(3), u64::MAX);
    cpu.set_register(1, 4);
    cpu.set_register(2, 10);
    cpu.execute(r_type(0x20, 2, 1, 0x0, 3));
    assert_eq!(cpu.get_register(3), 0xFFFF_FFFF_FFFF_FFFA);
}

#[test]
fn xor_or_and_combine_registers_bitwise() {
    let mut cpu = CPU::new();
    cpu.set_register(1, 0b1100);
    cpu.set_register(2, 0b1010);
    cpu.execute(r_type(0x00, 2, 1, 0x4, 3));
    assert_eq!(cpu.get_register(3), 0b0110);
    cpu.execute(r_type(0x00, 2, 1, 0x6, 4));
    assert_eq!(cpu.get_register(4), 0b1110);
    cpu.execute(r_type(0x00, 2, 1, 0x7, 5));
    assert_eq!(cpu.get_register(5), 0b1000);
}

#[test]
fn destination_may_be_a_source() {
    let mut cpu = CPU::new();
    cpu.set_register(1, 21);
    cpu.execute(r_type(0x00, 1, 1, 0x0, 1));
    assert_eq!(cpu.get_register(1), 42);
}

#[test]
fn addi_with_negative_immediate_subtracts() {
    let mut cpu = CPU::new();
    cpu.set_register(1, 10);
    cpu.execute(i_type(-3, 1, 0x0, 2));
    assert_eq!(cpu.get_register(2), 7);
    cpu.execute(i_type(-1, 0, 0x0, 3));
    assert_eq!(cpu.get_register(3), u64::MAX);
    cpu.execute(i_type(-2048, 0, 0x0, 4));
    assert_eq!(cpu.get_register(4), 0xFFFF_FFFF_FFFF_F800);
    cpu.execute(i_type(2047, 0, 0x0, 5));
    assert_eq!(cpu.get_register(5), 2047);
}

#[test]
fn immediate_logic_uses_the_sign_extended_immediate() {
    let mut cpu = CPU::new();
    cpu.set_register(1, 0x00FF_00FF_00FF_00FF);
    cpu.execute(i_type(-1, 1, 0x4, 2));
    assert_eq!(cpu.get_register(2), 0xFF00_FF00_FF00_FF00);
    cpu.execute(i_type(-256, 1, 0x6, 3));
    assert_eq!(cpu.get_register(3), 0xFFFF_FFFF_FFFF_FFFF);
    cpu.execute(i_type(-256, 1, 0x7, 4));
    assert_eq!(cpu.get_register(4), 0x00FF_00FF_00FF_0000);
    cpu.execute(i_type(0x0F0, 1, 0x4, 5));
    assert_eq!(cpu.get_register(5), 0x00FF_00FF_00FF_000F);
    cpu.execute(i_type(0x700, 1, 0x6, 6));
    assert_eq!(cpu.get_register(6), 0x00FF_00FF_00FF_07FF);
    cpu.execute(i_type(0x0F0, 1, 0x7, 7));
    assert_eq!(cpu.get_register(7), 0x0000_0000_0000_00F0);
}

#[test]
fn unmapped_register_selectors_change_no_register() {
    let mut cpu = CPU::new();
    cpu.set_register(1, 3);
    cpu.set_register(2, 4);
    let before: Vec<u64> = cpu.get_all_registers();
    // funct3 with no operation, funct7 zero
    assert_eq!(cpu.execute(r_type(0x00, 2, 1, 0x1, 3)), 1);
    // funct7 that only goes with funct3 zero
    assert_eq!(cpu.execute(r_type(0x20, 2, 1, 0x4, 3)), 1);
    // funct7 of the multiply family
    assert_eq!(cpu.execute(r_type(0x01, 2, 1, 0x0, 3)), 1);
    assert_eq!(cpu.get_all_registers(), before);
    assert_eq!(cpu.pc(), 0x100C);
    assert_eq!(cpu.cycle_count(), 3);
}

#[test]
fn unmapped_immediate_selectors_change_no_register() {
    let mut cpu = CPU::new();
    cpu.set_register(1, 3);
    let before: Vec<u64> = cpu.get_all_registers();
    for funct3 in [0x1u32, 0x2, 0x3, 0x5] {
        assert_eq!(cpu.execute(i_type(1, 1, funct3, 3)), 1);
    }
    assert_eq!(cpu.get_all_registers(), before);
    assert_eq!(cpu.pc(), 0x1010);
    assert_eq!(cpu.cycle_count(), 4);
}

#[test]
fn unimplemented_families_change_no_register() {
    let mut cpu = CPU::new();
    cpu.set_register(1, 3);
    let before: Vec<u64> = cpu.get_all_registers();
    // branch, load, store, jump and system opcodes
    for opcode in [0x63u32, 0x03, 0x23, 0x6F, 0x67, 0x73, 0x00] {
        assert_eq!(cpu.execute((1 << 7) | opcode), 1);
    }
    assert_eq!(cpu.get_all_registers(), before);
    assert_eq!(cpu.pc(), 0x1000 + 7 * 4);
    assert_eq!(cpu.cycle_count(), 7);
}

#[test]
fn cycle_count_is_the_sum_of_the_costs() {
    let mut cpu = CPU::new();
    let words: [u32; 5] =
        [i_type(1, 0, 0x0, 1), r_type(0x00, 1, 1, 0x0, 2), 0x7F, i_type(1, 1, 0x1, 3), 0];
    let mut total: u64 = 0;
    for word in words {
        total += cpu.execute(word) as u64;
        assert_eq!(cpu.cycle_count(), total);
    }
    assert_eq!(total, 5);
    assert_eq!(cpu.pc(), 0x1000 + 5 * 4);
}

#[test]
fn program_counter_wraps_at_the_top_of_the_address_space() {
    let mut cpu = CPU::new();
    cpu.set_pc(u64::MAX - 3);
    assert_eq!(cpu.execute(0x7F), 1);
    assert_eq!(cpu.pc(), 0);
    cpu.set_pc(u64::MAX);
    cpu.execute(i_type(1, 0, 0x0, 1));
    assert_eq!(cpu.pc(), 3);
    assert_eq!(cpu.get_register(1), 1);
    cpu.set_pc(u64::MAX - 4);
    cpu.execute(0x7F);
    assert_eq!(cpu.pc(), u64::MAX);
}

#[test]
fn clone_is_an_independent_copy() {
    let mut cpu = CPU::new();
    cpu.set_register(4, 44);
    cpu.set_pc(0x2000);
    cpu.execute(0x7F);
    let copy: CPU = cpu.clone();
    cpu.set_register(4, 45);
    cpu.execute(0x7F);
    assert_eq!(copy.get_register(4), 44);
    assert_eq!(copy.pc(), 0x2004);
    assert_eq!(copy.cycle_count(), 1);
    assert_eq!(cpu.get_register(4), 45);
    assert_eq!(cpu.pc(), 0x2008);
    assert_eq!(cpu.cycle_count(), 2);
}

#[test]
fn all_registers_come_in_index_order() {
    let mut cpu = CPU::new();
    let mut index: usize = 1;
    while index < 32 {
        cpu.set_register(index, 100 + index as u64);
        index += 1;
    }
    let registers: Vec<u64> = cpu.get_all_registers();
    assert_eq!(registers.len(), 32);
    assert_eq!(registers[0], 0);
    let mut index: usize = 1;
    while index < 32 {
        assert_eq!(registers[index], 100 + index as u64);
        index += 1;
    }
}
