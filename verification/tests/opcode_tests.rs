//! Further opcode-level tests: immediate loads, the accumulator rotates,
//! carry-chain arithmetic, and the flag-only instructions.

use gb_core::gameboy::{create_gameboy, read_mem, step, write_mem};

#[test]
fn test_nop_costs_four() {
    let mut gb = create_gameboy();
    assert_eq!(step(&mut gb).unwrap(), 4);
    assert_eq!(gb.cpu.get_pc(), 0x0001);
}

#[test]
fn test_ld_bc_n16() {
    // LD BC,n16 reads its operand little-endian.
    let mut gb = create_gameboy();
    write_mem(&mut gb, 0x0000, 0x01);
    write_mem(&mut gb, 0x0001, 0x34);
    write_mem(&mut gb, 0x0002, 0x12);
    assert_eq!(step(&mut gb).unwrap(), 12);
    assert_eq!(gb.cpu.get_bc(), 0x1234);
    assert_eq!(gb.cpu.get_pc(), 0x0003);
}

#[test]
fn test_ld_bc_a_and_back() {
    // LD (BC),A stores through the pair; LD A,(BC) loads back.
    let mut gb = create_gameboy();
    gb.cpu.set_bc(0xC123);
    gb.cpu.set_a(0x7E);
    write_mem(&mut gb, 0x0000, 0x02);
    write_mem(&mut gb, 0x0001, 0x3E);
    write_mem(&mut gb, 0x0002, 0x00);
    write_mem(&mut gb, 0x0003, 0x0A);
    assert_eq!(step(&mut gb).unwrap(), 8);
    assert_eq!(read_mem(&gb, 0xC123), 0x7E);
    assert_eq!(step(&mut gb).unwrap(), 8);  // LD A,n8 0x00
    assert_eq!(gb.cpu.get_a(), 0x00);
    assert_eq!(step(&mut gb).unwrap(), 8);  // LD A,(BC)
    assert_eq!(gb.cpu.get_a(), 0x7E);
}

#[test]
fn test_inc_dec_16bit_opcodes() {
    // INC DE and DEC DE change no flags.
    let mut gb = create_gameboy();
    gb.cpu.set_de(0x00FF);
    gb.cpu.set_f(0xF0);
    write_mem(&mut gb, 0x0000, 0x13);
    write_mem(&mut gb, 0x0001, 0x1B);
    assert_eq!(step(&mut gb).unwrap(), 8);
    assert_eq!(gb.cpu.get_de(), 0x0100);
    assert_eq!(gb.cpu.get_f(), 0xF0);
    assert_eq!(step(&mut gb).unwrap(), 8);
    assert_eq!(gb.cpu.get_de(), 0x00FF);
    assert_eq!(gb.cpu.get_f(), 0xF0);
}

#[test]
fn test_rlca_and_rra() {
    // RLCA rotates A left and clears Z even when the result is zero-adjacent;
    // RRA rotates right through the carry flag.
    let mut gb = create_gameboy();
    gb.cpu.set_a(0x80);
    write_mem(&mut gb, 0x0000, 0x07);
    assert_eq!(step(&mut gb).unwrap(), 4);
    assert_eq!(gb.cpu.get_a(), 0x01);
    assert_eq!(gb.cpu.get_c_flag(), true);
    assert_eq!(gb.cpu.get_z_flag(), false);

    // RRA: A=0x01 with carry set gives 0x80, carry set again.
    write_mem(&mut gb, 0x0001, 0x1F);
    assert_eq!(step(&mut gb).unwrap(), 4);
    assert_eq!(gb.cpu.get_a(), 0x80);
    assert_eq!(gb.cpu.get_c_flag(), true);
}

#[test]
fn test_rla_uses_carry_in() {
    // RLA shifts the old carry into bit 0.
    let mut gb = create_gameboy();
    gb.cpu.set_a(0x40);
    gb.cpu.set_c_flag(true);
    write_mem(&mut gb, 0x0000, 0x17);
    assert_eq!(step(&mut gb).unwrap(), 4);
    assert_eq!(gb.cpu.get_a(), 0x81);
    assert_eq!(gb.cpu.get_c_flag(), false);
}

#[test]
fn test_sbc_with_borrow_in() {
    // SBC A,B with carry set: 0x10 - 0x01 - 1 = 0x0E.
    let mut gb = create_gameboy();
    gb.cpu.set_a(0x10);
    gb.cpu.set_b(0x01);
    gb.cpu.set_c_flag(true);
    write_mem(&mut gb, 0x0000, 0x98);
    assert_eq!(step(&mut gb).unwrap(), 4);
    assert_eq!(gb.cpu.get_a(), 0x0E);
    assert_eq!(gb.cpu.get_n_flag(), true);
    assert_eq!(gb.cpu.get_c_flag(), false);
}

#[test]
fn test_xor_n8_targets_accumulator() {
    // XOR n8 combines the immediate into A.
    let mut gb = create_gameboy();
    gb.cpu.set_a(0xF0);
    write_mem(&mut gb, 0x0000, 0xEE);
    write_mem(&mut gb, 0x0001, 0xFF);
    assert_eq!(step(&mut gb).unwrap(), 8);
    assert_eq!(gb.cpu.get_a(), 0x0F);
    assert_eq!(gb.cpu.get_z_flag(), false);
    assert_eq!(gb.cpu.get_c_flag(), false);
}

#[test]
fn test_xor_hl_memory_operand() {
    // XOR (HL) combines the byte at HL into A.
    let mut gb = create_gameboy();
    gb.cpu.set_a(0x3C);
    gb.cpu.set_hl(0xC000);
    write_mem(&mut gb, 0xC000, 0x3C);
    write_mem(&mut gb, 0x0000, 0xAE);
    assert_eq!(step(&mut gb).unwrap(), 8);
    assert_eq!(gb.cpu.get_a(), 0x00);
    assert_eq!(gb.cpu.get_z_flag(), true);
}

#[test]
fn test_cpl_scf_ccf() {
    // CPL complements A and sets N and H; SCF sets the carry; CCF flips it.
    let mut gb = create_gameboy();
    gb.cpu.set_a(0x35);
    write_mem(&mut gb, 0x0000, 0x2F);
    write_mem(&mut gb, 0x0001, 0x37);
    write_mem(&mut gb, 0x0002, 0x3F);
    assert_eq!(step(&mut gb).unwrap(), 4);
    assert_eq!(gb.cpu.get_a(), 0xCA);
    assert_eq!(gb.cpu.get_n_flag(), true);
    assert_eq!(gb.cpu.get_h_flag(), true);
    assert_eq!(step(&mut gb).unwrap(), 4);
    assert_eq!(gb.cpu.get_c_flag(), true);
    assert_eq!(gb.cpu.get_n_flag(), false);
    assert_eq!(step(&mut gb).unwrap(), 4);
    assert_eq!(gb.cpu.get_c_flag(), false);
}

#[test]
fn test_call_not_taken() {
    // CALL NZ with Z set skips the call: PC passes the operand, 12 cycles,
    // and the stack pointer is untouched.
    let mut gb = create_gameboy();
    gb.cpu.set_z_flag(true);
    gb.cpu.set_sp(0xFFFE);
    write_mem(&mut gb, 0x0000, 0xC4);
    write_mem(&mut gb, 0x0001, 0x10);
    write_mem(&mut gb, 0x0002, 0x00);
    assert_eq!(step(&mut gb).unwrap(), 12);
    assert_eq!(gb.cpu.get_pc(), 0x0003);
    assert_eq!(gb.cpu.get_sp(), 0xFFFE);
}

#[test]
fn test_jp_not_taken() {
    // JP C with carry clear falls through in 12 cycles.
    let mut gb = create_gameboy();
    gb.cpu.set_c_flag(false);
    write_mem(&mut gb, 0x0000, 0xDA);
    write_mem(&mut gb, 0x0001, 0x34);
    write_mem(&mut gb, 0x0002, 0x12);
    assert_eq!(step(&mut gb).unwrap(), 12);
    assert_eq!(gb.cpu.get_pc(), 0x0003);
}

#[test]
fn test_dec_hl_memory() {
    // DEC (HL): 0x10 - 1 = 0x0F borrows out of bit 4, setting H and N.
    let mut gb = create_gameboy();
    gb.cpu.set_hl(0xC000);
    write_mem(&mut gb, 0xC000, 0x10);
    write_mem(&mut gb, 0x0000, 0x35);
    assert_eq!(step(&mut gb).unwrap(), 12);
    assert_eq!(read_mem(&gb, 0xC000), 0x0F);
    assert_eq!(gb.cpu.get_n_flag(), true);
    assert_eq!(gb.cpu.get_h_flag(), true);
    assert_eq!(gb.cpu.get_z_flag(), false);
}

#[test]
fn test_ld_hl_n8() {
    // LD (HL),n8 stores the immediate through HL.
    let mut gb = create_gameboy();
    gb.cpu.set_hl(0xC000);
    write_mem(&mut gb, 0x0000, 0x36);
    write_mem(&mut gb, 0x0001, 0x66);
    assert_eq!(step(&mut gb).unwrap(), 12);
    assert_eq!(read_mem(&gb, 0xC000), 0x66);
}

#[test]
fn test_add_sp_e8_sets_low_byte_carries() {
    // ADD SP,e8 takes H and C from the low-byte addition: 0x00FF + 1 sets
    // both.
    let mut gb = create_gameboy();
    gb.cpu.set_sp(0x00FF);
    write_mem(&mut gb, 0x0000, 0xE8);
    write_mem(&mut gb, 0x0001, 0x01);
    assert_eq!(step(&mut gb).unwrap(), 16);
    assert_eq!(gb.cpu.get_sp(), 0x0100);
    assert_eq!(gb.cpu.get_h_flag(), true);
    assert_eq!(gb.cpu.get_c_flag(), true);
    assert_eq!(gb.cpu.get_z_flag(), false);
    assert_eq!(gb.cpu.get_n_flag(), false);
}

#[test]
fn test_srl_and_sra_extended() {
    // SRL A shifts zero into bit 7; SRA A keeps the sign bit.
    let mut gb = create_gameboy();
    gb.cpu.set_a(0x81);
    write_mem(&mut gb, 0x0000, 0xCB);
    write_mem(&mut gb, 0x0001, 0x3F);
    assert_eq!(step(&mut gb).unwrap(), 12);
    assert_eq!(gb.cpu.get_a(), 0x40);
    assert_eq!(gb.cpu.get_c_flag(), true);

    gb.cpu.set_a(0x81);
    write_mem(&mut gb, 0x0002, 0xCB);
    write_mem(&mut gb, 0x0003, 0x2F);
    assert_eq!(step(&mut gb).unwrap(), 12);
    assert_eq!(gb.cpu.get_a(), 0xC0);
    assert_eq!(gb.cpu.get_c_flag(), true);
}

#[test]
fn test_extended_bit_on_memory_operand() {
    // BIT 0,(HL) costs 4 + 12 cycles and tests the byte in memory.
    let mut gb = create_gameboy();
    gb.cpu.set_hl(0xC000);
    write_mem(&mut gb, 0xC000, 0x01);
    write_mem(&mut gb, 0x0000, 0xCB);
    write_mem(&mut gb, 0x0001, 0x46);
    assert_eq!(step(&mut gb).unwrap(), 16);
    assert_eq!(gb.cpu.get_z_flag(), false);
}

#[test]
fn test_extended_res_on_memory_operand() {
    // RES 0,(HL) rewrites the byte in memory, 4 + 16 cycles.
    let mut gb = create_gameboy();
    gb.cpu.set_hl(0xC000);
    write_mem(&mut gb, 0xC000, 0xFF);
    write_mem(&mut gb, 0x0000, 0xCB);
    write_mem(&mut gb, 0x0001, 0x86);
    assert_eq!(step(&mut gb).unwrap(), 20);
    assert_eq!(read_mem(&gb, 0xC000), 0xFE);
}

#[test]
fn test_halt_stop_di_ei_cost_only() {
    // HALT, STOP, DI and EI consume their cycles and change no state.
    let mut gb = create_gameboy();
    let f = gb.cpu.get_f();
    write_mem(&mut gb, 0x0000, 0x76);
    write_mem(&mut gb, 0x0001, 0x10);
    write_mem(&mut gb, 0x0002, 0xF3);
    write_mem(&mut gb, 0x0003, 0xFB);
    assert_eq!(step(&mut gb).unwrap(), 4);
    assert_eq!(step(&mut gb).unwrap(), 4);
    assert_eq!(step(&mut gb).unwrap(), 4);
    assert_eq!(step(&mut gb).unwrap(), 4);
    assert_eq!(gb.cpu.get_pc(), 0x0004);
    assert_eq!(gb.cpu.get_f(), f);
}

#[test]
fn test_every_illegal_opcode_halts() {
    for op in [0xD3u8, 0xDB, 0xDD, 0xE3, 0xE4, 0xEB, 0xEC, 0xED, 0xF4, 0xFC, 0xFD] {
        let mut gb = create_gameboy();
        write_mem(&mut gb, 0x0000, op);
        assert_eq!(step(&mut gb), Err(gb_core::gameboy::CpuError::IllegalOpcode(op)));
        assert_eq!(gb.state, gb_core::gameboy::MachineState::HaltedError);
    }
}

#[test]
fn test_ld_a16_a_round_trip() {
    // LD (a16),A then LD A,(a16).
    let mut gb = create_gameboy();
    gb.cpu.set_a(0x42);
    write_mem(&mut gb, 0x0000, 0xEA);
    write_mem(&mut gb, 0x0001, 0x00);
    write_mem(&mut gb, 0x0002, 0xC0);
    write_mem(&mut gb, 0x0003, 0x3E);
    write_mem(&mut gb, 0x0004, 0x00);
    write_mem(&mut gb, 0x0005, 0xFA);
    write_mem(&mut gb, 0x0006, 0x00);
    write_mem(&mut gb, 0x0007, 0xC0);
    assert_eq!(step(&mut gb).unwrap(), 16);
    assert_eq!(read_mem(&gb, 0xC000), 0x42);
    step(&mut gb).unwrap();
    assert_eq!(gb.cpu.get_a(), 0x00);
    assert_eq!(step(&mut gb).unwrap(), 16);
    assert_eq!(gb.cpu.get_a(), 0x42);
}
