//! End-to-end machine tests: fetch-decode-execute steps, cycle costs, the
//! illegal-opcode halt policy, the stack unit and the frame scheduler.

use gb_core::gameboy::{
    create_gameboy, read_mem, run_frame, step, write_mem, CpuError, MachineState,
    CYCLES_PER_FRAME,
};

#[test]
fn test_step_ld_a_n8() {
    // LD A,n8 at PC=0: A gets the operand, PC advances past it, 8 cycles.
    let mut gb = create_gameboy();
    write_mem(&mut gb, 0x0000, 0x3E);
    write_mem(&mut gb, 0x0001, 0x05);
    let cycles = step(&mut gb).unwrap();
    assert_eq!(gb.cpu.get_a(), 0x05);
    assert_eq!(gb.cpu.get_pc(), 0x0002);
    assert_eq!(cycles, 8);
}

#[test]
fn test_step_xor_a() {
    // XOR A: the accumulator becomes zero and Z is set, 4 cycles.
    let mut gb = create_gameboy();
    write_mem(&mut gb, 0x0000, 0xAF);
    let cycles = step(&mut gb).unwrap();
    assert_eq!(gb.cpu.get_a(), 0x00);
    assert_eq!(gb.cpu.get_z_flag(), true);
    assert_eq!(cycles, 4);
}

#[test]
fn test_step_extended_bit_7_h() {
    // BIT 7,H with H=0x80: bit 7 is set, so Z is cleared; 4 cycles for the
    // prefix plus 8 for the bit test, 12 in all.
    let mut gb = create_gameboy();
    gb.cpu.set_h(0x80);
    gb.cpu.set_z_flag(true);
    write_mem(&mut gb, 0x0000, 0xCB);
    write_mem(&mut gb, 0x0001, 0x7C);
    let cycles = step(&mut gb).unwrap();
    assert_eq!(gb.cpu.get_z_flag(), false);
    assert_eq!(cycles, 12);
    assert_eq!(gb.cpu.get_pc(), 0x0002);
}

#[test]
fn test_frame_budget() {
    // One frame at 4,194,304 Hz and 60 Hz cadence is 69,905 cycles.
    assert_eq!(CYCLES_PER_FRAME, 4_194_304 / 60);
    assert_eq!(CYCLES_PER_FRAME, 69_905);
}

#[test]
fn test_run_frame_of_nops() {
    // Zeroed memory is an endless run of NOPs (4 cycles each).  17,476 of
    // them leave the frame 1 cycle short of the budget, so the frame runs one
    // more and stops at 69,908 cycles.
    let mut gb = create_gameboy();
    let cycles = run_frame(&mut gb);
    assert_eq!(cycles, 69_908);
    assert!(cycles >= CYCLES_PER_FRAME);
    assert_eq!(gb.state, MachineState::Running);
}

#[test]
fn test_illegal_opcode_halts() {
    let mut gb = create_gameboy();
    write_mem(&mut gb, 0x0000, 0xD3);
    let result = step(&mut gb);
    assert_eq!(result, Err(CpuError::IllegalOpcode(0xD3)));
    assert_eq!(gb.state, MachineState::HaltedError);
}

#[test]
fn test_halted_machine_stays_halted() {
    let mut gb = create_gameboy();
    write_mem(&mut gb, 0x0000, 0xED);
    assert_eq!(step(&mut gb), Err(CpuError::IllegalOpcode(0xED)));
    let pc = gb.cpu.get_pc();
    assert_eq!(step(&mut gb), Err(CpuError::Halted));
    assert_eq!(gb.cpu.get_pc(), pc);
    assert_eq!(gb.state, MachineState::HaltedError);
}

#[test]
fn test_run_frame_stops_on_halt() {
    let mut gb = create_gameboy();
    write_mem(&mut gb, 0x0000, 0x00);
    write_mem(&mut gb, 0x0001, 0xD3);
    let cycles = run_frame(&mut gb);
    assert_eq!(cycles, 4);
    assert_eq!(gb.state, MachineState::HaltedError);
}

#[test]
fn test_memory_bus_covers_top_address() {
    // The bus spans the full 16-bit address space: 0xFFFF is addressable.
    let mut gb = create_gameboy();
    write_mem(&mut gb, 0xFFFF, 0xAB);
    assert_eq!(read_mem(&gb, 0xFFFF), 0xAB);
    assert_eq!(read_mem(&gb, 0x0000), 0x00);
}

#[test]
fn test_ld_r_r_and_ld_r_hl() {
    // LD B,C (4 cycles), then LD D,(HL) (8 cycles).
    let mut gb = create_gameboy();
    gb.cpu.set_c(0x42);
    gb.cpu.set_hl(0x1234);
    write_mem(&mut gb, 0x1234, 0x99);
    write_mem(&mut gb, 0x0000, 0x41);
    write_mem(&mut gb, 0x0001, 0x56);
    assert_eq!(step(&mut gb).unwrap(), 4);
    assert_eq!(gb.cpu.get_b(), 0x42);
    assert_eq!(step(&mut gb).unwrap(), 8);
    assert_eq!(gb.cpu.get_d(), 0x99);
}

#[test]
fn test_add_half_carry_and_carry() {
    // ADD A,B: 0x0F + 0x01 = 0x10 sets H only; 0xFF + 0x02 = 0x01 sets H and C.
    let mut gb = create_gameboy();
    gb.cpu.set_a(0x0F);
    gb.cpu.set_b(0x01);
    write_mem(&mut gb, 0x0000, 0x80);
    write_mem(&mut gb, 0x0001, 0x80);
    step(&mut gb).unwrap();
    assert_eq!(gb.cpu.get_a(), 0x10);
    assert_eq!(gb.cpu.get_h_flag(), true);
    assert_eq!(gb.cpu.get_c_flag(), false);
    assert_eq!(gb.cpu.get_n_flag(), false);

    gb.cpu.set_a(0xFF);
    gb.cpu.set_b(0x02);
    step(&mut gb).unwrap();
    assert_eq!(gb.cpu.get_a(), 0x01);
    assert_eq!(gb.cpu.get_h_flag(), true);
    assert_eq!(gb.cpu.get_c_flag(), true);
    assert_eq!(gb.cpu.get_z_flag(), false);
}

#[test]
fn test_adc_uses_carry_in() {
    // ADC A,B with carry set: 0x10 + 0x20 + 1 = 0x31.
    let mut gb = create_gameboy();
    gb.cpu.set_a(0x10);
    gb.cpu.set_b(0x20);
    gb.cpu.set_c_flag(true);
    write_mem(&mut gb, 0x0000, 0x88);
    step(&mut gb).unwrap();
    assert_eq!(gb.cpu.get_a(), 0x31);
    assert_eq!(gb.cpu.get_c_flag(), false);
}

#[test]
fn test_sub_and_cp_flags() {
    // SUB B: 0x10 - 0x20 borrows, giving 0xF0 with N and C set.
    let mut gb = create_gameboy();
    gb.cpu.set_a(0x10);
    gb.cpu.set_b(0x20);
    write_mem(&mut gb, 0x0000, 0x90);
    write_mem(&mut gb, 0x0001, 0xFE);
    write_mem(&mut gb, 0x0002, 0xF0);
    step(&mut gb).unwrap();
    assert_eq!(gb.cpu.get_a(), 0xF0);
    assert_eq!(gb.cpu.get_n_flag(), true);
    assert_eq!(gb.cpu.get_c_flag(), true);

    // CP n8 against an equal value sets Z and leaves A unchanged.
    step(&mut gb).unwrap();
    assert_eq!(gb.cpu.get_a(), 0xF0);
    assert_eq!(gb.cpu.get_z_flag(), true);
}

#[test]
fn test_and_or_flags() {
    // AND B: 0xF0 & 0x0F == 0 sets Z and H; OR C: 0x00 | 0x0F clears Z.
    let mut gb = create_gameboy();
    gb.cpu.set_a(0xF0);
    gb.cpu.set_b(0x0F);
    gb.cpu.set_c(0x0F);
    write_mem(&mut gb, 0x0000, 0xA0);
    write_mem(&mut gb, 0x0001, 0xB1);
    step(&mut gb).unwrap();
    assert_eq!(gb.cpu.get_a(), 0x00);
    assert_eq!(gb.cpu.get_z_flag(), true);
    assert_eq!(gb.cpu.get_h_flag(), true);
    step(&mut gb).unwrap();
    assert_eq!(gb.cpu.get_a(), 0x0F);
    assert_eq!(gb.cpu.get_z_flag(), false);
}

#[test]
fn test_daa_after_add() {
    // 0x15 + 0x27 = 0x3C; DAA corrects the packed-BCD sum to 0x42.
    let mut gb = create_gameboy();
    gb.cpu.set_a(0x15);
    gb.cpu.set_b(0x27);
    write_mem(&mut gb, 0x0000, 0x80);
    write_mem(&mut gb, 0x0001, 0x27);
    step(&mut gb).unwrap();
    assert_eq!(gb.cpu.get_a(), 0x3C);
    step(&mut gb).unwrap();
    assert_eq!(gb.cpu.get_a(), 0x42);
    assert_eq!(gb.cpu.get_c_flag(), false);
}

#[test]
fn test_jr_conditional_costs() {
    // JR Z with Z clear: not taken, PC still advances past the displacement,
    // 8 cycles.  JR NZ with Z clear: taken, 12 cycles.
    let mut gb = create_gameboy();
    gb.cpu.set_z_flag(false);
    write_mem(&mut gb, 0x0000, 0x28);
    write_mem(&mut gb, 0x0001, 0x10);
    write_mem(&mut gb, 0x0002, 0x20);
    write_mem(&mut gb, 0x0003, 0x10);
    assert_eq!(step(&mut gb).unwrap(), 8);
    assert_eq!(gb.cpu.get_pc(), 0x0002);
    assert_eq!(step(&mut gb).unwrap(), 12);
    assert_eq!(gb.cpu.get_pc(), 0x0014);
}

#[test]
fn test_jr_backward_wraps() {
    // JR -3 from PC=0: the displacement is added after the operand fetch, so
    // the target is 2 - 3 = 0xFFFF.
    let mut gb = create_gameboy();
    write_mem(&mut gb, 0x0000, 0x18);
    write_mem(&mut gb, 0x0001, 0xFD);
    assert_eq!(step(&mut gb).unwrap(), 12);
    assert_eq!(gb.cpu.get_pc(), 0xFFFF);
}

#[test]
fn test_push_pop_round_trip() {
    // PUSH BC then POP DE moves the pair through the stack, little-endian.
    let mut gb = create_gameboy();
    gb.cpu.set_sp(0xFFFE);
    gb.cpu.set_bc(0x1234);
    write_mem(&mut gb, 0x0000, 0xC5);
    write_mem(&mut gb, 0x0001, 0xD1);
    assert_eq!(step(&mut gb).unwrap(), 16);
    assert_eq!(gb.cpu.get_sp(), 0xFFFC);
    assert_eq!(read_mem(&gb, 0xFFFC), 0x34);
    assert_eq!(read_mem(&gb, 0xFFFD), 0x12);
    assert_eq!(step(&mut gb).unwrap(), 12);
    assert_eq!(gb.cpu.get_de(), 0x1234);
    assert_eq!(gb.cpu.get_sp(), 0xFFFE);
}

#[test]
fn test_pop_af_masks_low_nibble() {
    let mut gb = create_gameboy();
    gb.cpu.set_sp(0xC000);
    write_mem(&mut gb, 0xC000, 0xCF);
    write_mem(&mut gb, 0xC001, 0x12);
    write_mem(&mut gb, 0x0000, 0xF1);
    step(&mut gb).unwrap();
    assert_eq!(gb.cpu.get_a(), 0x12);
    assert_eq!(gb.cpu.get_f(), 0xC0);
}

#[test]
fn test_call_and_ret() {
    // CALL 0x0010 pushes the return address 0x0003 and jumps; RET comes back.
    let mut gb = create_gameboy();
    gb.cpu.set_sp(0xFFFE);
    write_mem(&mut gb, 0x0000, 0xCD);
    write_mem(&mut gb, 0x0001, 0x10);
    write_mem(&mut gb, 0x0002, 0x00);
    write_mem(&mut gb, 0x0010, 0xC9);
    assert_eq!(step(&mut gb).unwrap(), 24);
    assert_eq!(gb.cpu.get_pc(), 0x0010);
    assert_eq!(gb.cpu.get_sp(), 0xFFFC);
    assert_eq!(read_mem(&gb, 0xFFFC), 0x03);
    assert_eq!(read_mem(&gb, 0xFFFD), 0x00);
    assert_eq!(step(&mut gb).unwrap(), 16);
    assert_eq!(gb.cpu.get_pc(), 0x0003);
    assert_eq!(gb.cpu.get_sp(), 0xFFFE);
}

#[test]
fn test_ret_conditional_costs() {
    // RET NZ with Z set: not taken, 8 cycles.
    let mut gb = create_gameboy();
    gb.cpu.set_z_flag(true);
    write_mem(&mut gb, 0x0000, 0xC0);
    assert_eq!(step(&mut gb).unwrap(), 8);
    assert_eq!(gb.cpu.get_pc(), 0x0001);
}

#[test]
fn test_ld_a16_sp_little_endian() {
    // LD (a16),SP stores the low byte of SP at the lower address.
    let mut gb = create_gameboy();
    gb.cpu.set_sp(0xBEEF);
    write_mem(&mut gb, 0x0000, 0x08);
    write_mem(&mut gb, 0x0001, 0x00);
    write_mem(&mut gb, 0x0002, 0xC0);
    assert_eq!(step(&mut gb).unwrap(), 20);
    assert_eq!(read_mem(&gb, 0xC000), 0xEF);
    assert_eq!(read_mem(&gb, 0xC001), 0xBE);
}

#[test]
fn test_ldh_uses_high_page() {
    // LDH (a8),A writes to 0xFF00 + a8; LD A,(C) reads from 0xFF00 + C.
    let mut gb = create_gameboy();
    gb.cpu.set_a(0x77);
    write_mem(&mut gb, 0x0000, 0xE0);
    write_mem(&mut gb, 0x0001, 0x80);
    assert_eq!(step(&mut gb).unwrap(), 12);
    assert_eq!(read_mem(&gb, 0xFF80), 0x77);

    gb.cpu.set_c(0x80);
    gb.cpu.set_a(0x00);
    write_mem(&mut gb, 0x0002, 0xF2);
    assert_eq!(step(&mut gb).unwrap(), 8);
    assert_eq!(gb.cpu.get_a(), 0x77);
}

#[test]
fn test_ld_hli_and_hld() {
    // LD (HL+),A stores and increments HL; LD A,(HL-) loads and decrements.
    let mut gb = create_gameboy();
    gb.cpu.set_a(0x5A);
    gb.cpu.set_hl(0xC000);
    write_mem(&mut gb, 0x0000, 0x22);
    write_mem(&mut gb, 0x0001, 0x3A);
    assert_eq!(step(&mut gb).unwrap(), 8);
    assert_eq!(read_mem(&gb, 0xC000), 0x5A);
    assert_eq!(gb.cpu.get_hl(), 0xC001);

    write_mem(&mut gb, 0xC001, 0x99);
    assert_eq!(step(&mut gb).unwrap(), 8);
    assert_eq!(gb.cpu.get_a(), 0x99);
    assert_eq!(gb.cpu.get_hl(), 0xC000);
}

#[test]
fn test_add_hl_flags() {
    // ADD HL,BC: 0x0FFF + 0x0001 carries out of bit 11, setting H only.
    let mut gb = create_gameboy();
    gb.cpu.set_hl(0x0FFF);
    gb.cpu.set_bc(0x0001);
    gb.cpu.set_z_flag(true);
    write_mem(&mut gb, 0x0000, 0x09);
    assert_eq!(step(&mut gb).unwrap(), 8);
    assert_eq!(gb.cpu.get_hl(), 0x1000);
    assert_eq!(gb.cpu.get_h_flag(), true);
    assert_eq!(gb.cpu.get_c_flag(), false);
    assert_eq!(gb.cpu.get_n_flag(), false);
    assert_eq!(gb.cpu.get_z_flag(), true);
}

#[test]
fn test_rotate_extended_rlc() {
    // RLC B: 0x85 rotates to 0x0B with the carry set.
    let mut gb = create_gameboy();
    gb.cpu.set_b(0x85);
    write_mem(&mut gb, 0x0000, 0xCB);
    write_mem(&mut gb, 0x0001, 0x00);
    assert_eq!(step(&mut gb).unwrap(), 12);
    assert_eq!(gb.cpu.get_b(), 0x0B);
    assert_eq!(gb.cpu.get_c_flag(), true);
    assert_eq!(gb.cpu.get_z_flag(), false);
}

#[test]
fn test_swap_extended() {
    // SWAP A exchanges the nibbles: 0x12 becomes 0x21, carry cleared.
    let mut gb = create_gameboy();
    gb.cpu.set_a(0x12);
    gb.cpu.set_c_flag(true);
    write_mem(&mut gb, 0x0000, 0xCB);
    write_mem(&mut gb, 0x0001, 0x37);
    assert_eq!(step(&mut gb).unwrap(), 12);
    assert_eq!(gb.cpu.get_a(), 0x21);
    assert_eq!(gb.cpu.get_c_flag(), false);
}

#[test]
fn test_res_and_set_extended() {
    // RES 7,H clears bit 7; SET 0,H sets bit 0; neither touches flags.
    let mut gb = create_gameboy();
    gb.cpu.set_h(0x80);
    write_mem(&mut gb, 0x0000, 0xCB);
    write_mem(&mut gb, 0x0001, 0xBC);
    write_mem(&mut gb, 0x0002, 0xCB);
    write_mem(&mut gb, 0x0003, 0xC4);
    assert_eq!(step(&mut gb).unwrap(), 12);
    assert_eq!(gb.cpu.get_h(), 0x00);
    assert_eq!(step(&mut gb).unwrap(), 12);
    assert_eq!(gb.cpu.get_h(), 0x01);
}

#[test]
fn test_inc_hl_memory() {
    // INC (HL) increments the byte in memory and sets flags from it.
    let mut gb = create_gameboy();
    gb.cpu.set_hl(0xC000);
    write_mem(&mut gb, 0xC000, 0xFF);
    write_mem(&mut gb, 0x0000, 0x34);
    assert_eq!(step(&mut gb).unwrap(), 12);
    assert_eq!(read_mem(&gb, 0xC000), 0x00);
    assert_eq!(gb.cpu.get_z_flag(), true);
    assert_eq!(gb.cpu.get_h_flag(), true);
}

#[test]
fn test_jp_and_jp_hl() {
    // JP a16 (16 cycles), then JP HL (4 cycles).
    let mut gb = create_gameboy();
    write_mem(&mut gb, 0x0000, 0xC3);
    write_mem(&mut gb, 0x0001, 0x34);
    write_mem(&mut gb, 0x0002, 0x12);
    assert_eq!(step(&mut gb).unwrap(), 16);
    assert_eq!(gb.cpu.get_pc(), 0x1234);

    gb.cpu.set_hl(0x2000);
    write_mem(&mut gb, 0x1234, 0xE9);
    assert_eq!(step(&mut gb).unwrap(), 4);
    assert_eq!(gb.cpu.get_pc(), 0x2000);
}

#[test]
fn test_rst_pushes_and_jumps() {
    // RST 28H pushes the current PC and jumps to 0x0028.
    let mut gb = create_gameboy();
    gb.cpu.set_sp(0xFFFE);
    write_mem(&mut gb, 0x0000, 0xEF);
    assert_eq!(step(&mut gb).unwrap(), 16);
    assert_eq!(gb.cpu.get_pc(), 0x0028);
    assert_eq!(read_mem(&gb, 0xFFFC), 0x01);
    assert_eq!(read_mem(&gb, 0xFFFD), 0x00);
}

#[test]
fn test_add_sp_e8() {
    // ADD SP,e8 with a negative displacement.
    let mut gb = create_gameboy();
    gb.cpu.set_sp(0x0001);
    write_mem(&mut gb, 0x0000, 0xE8);
    write_mem(&mut gb, 0x0001, 0xFE);
    assert_eq!(step(&mut gb).unwrap(), 16);
    assert_eq!(gb.cpu.get_sp(), 0xFFFF);
    assert_eq!(gb.cpu.get_z_flag(), false);
}

#[test]
fn test_ld_hl_sp_e8_and_ld_sp_hl() {
    // LD HL,SP+e8 then LD SP,HL.
    let mut gb = create_gameboy();
    gb.cpu.set_sp(0xC000);
    write_mem(&mut gb, 0x0000, 0xF8);
    write_mem(&mut gb, 0x0001, 0x10);
    write_mem(&mut gb, 0x0002, 0xF9);
    assert_eq!(step(&mut gb).unwrap(), 12);
    assert_eq!(gb.cpu.get_hl(), 0xC010);
    assert_eq!(step(&mut gb).unwrap(), 8);
    assert_eq!(gb.cpu.get_sp(), 0xC010);
}
