//! The machine: the register file together with a flat byte-addressable
//! memory bus spanning the full 16-bit address space, plus the run state used
//! by the illegal-opcode halt policy and the frame scheduler.

use vstd::prelude::*;
use crate::cpu::{word_add, boot_cpu, pair, CPU, CPU_FREQUENCY};
use crate::instruction::{execute_instruction, is_illegal, is_illegal_opcode, spec_execute};

verus! {

/// Number of bytes on the memory bus: one per address 0x0000..=0xFFFF.
pub const MEMORY_SIZE: usize = 0x10000;

/// Run state of the machine.  `HaltedError` is the terminal state entered
/// when an architecturally-illegal opcode is fetched.
#[derive(Clone, Copy, Debug, PartialEq, Eq)]
pub enum MachineState {
    Running,
    HaltedError,
}

pub struct Gameboy {
    pub cpu: CPU,
    pub ram: Vec<u8>,
    pub state: MachineState,
}

/// Mathematical view of the machine: the register file, the memory contents
/// as a sequence, and the run state.
#[verifier::ext_equal]
pub ghost struct GameboyView {
    pub cpu: CPU,
    pub ram: Seq<u8>,
    pub state: MachineState,
}

impl View for Gameboy {
    type V = GameboyView;

    open spec fn view(&self) -> GameboyView {
        GameboyView { cpu: self.cpu, ram: self.ram@, state: self.state }
    }
}

impl GameboyView {
    /// The backing store spans the whole address space, so every 16-bit
    /// address is in bounds.
    pub open spec fn wf(self) -> bool {
        self.ram.len() == MEMORY_SIZE
    }
}

impl Gameboy {
    pub open spec fn wf(self) -> bool {
        self@.wf()
    }
}

/// The byte on the bus at the given address.
pub open spec fn mem(g: GameboyView, addr: u16) -> u8 {
    g.ram[addr as int]
}

/// The machine with one byte on the bus replaced.
pub open spec fn with_mem(g: GameboyView, addr: u16, v: u8) -> GameboyView {
    GameboyView { ram: g.ram.update(addr as int, v), ..g }
}

/// The machine with the register file replaced.
pub open spec fn with_cpu(g: GameboyView, c: CPU) -> GameboyView {
    GameboyView { cpu: c, ..g }
}

/// The machine after fetching one byte at PC: PC advances by one with
/// wraparound.  Paired with the byte that was fetched.
pub open spec fn fetched8(g: GameboyView) -> (GameboyView, u8) {
    (with_cpu(g, CPU { pc: word_add(g.cpu.pc, 1), ..g.cpu }), mem(g, g.cpu.pc))
}

/// The machine after fetching a little-endian 16-bit operand at PC (low byte
/// at the lower address), paired with the operand value.
pub open spec fn fetched16(g: GameboyView) -> (GameboyView, u16) {
    let (g1, lo) = fetched8(g);
    let (g2, hi) = fetched8(g1);
    (g2, pair(hi, lo))
}

/// A machine at power-on: boot register values, zeroed memory, running.
pub fn create_gameboy() -> (result: Gameboy)
    ensures
        result.wf(),
        result@.cpu == boot_cpu(),
        result@.state == MachineState::Running,
        forall|a: int| 0 <= a < MEMORY_SIZE ==> result@.ram[a] == 0,
{
    let mut ram: Vec<u8> = Vec::new();
    let mut k: usize = 0;
    while k < MEMORY_SIZE
        invariant
            ram@.len() == k,
            k <= MEMORY_SIZE,
            forall|a: int| 0 <= a < k ==> ram@[a] == 0,
        decreases MEMORY_SIZE - k,
    {
        ram.push(0);
        k += 1;
    }
    Gameboy { cpu: CPU::default(), ram, state: MachineState::Running }
}

/// Read the byte on the bus at the given address.  Total over the full
/// address range.
pub fn read_mem(gb: &Gameboy, addr: u16) -> (result: u8)
    requires
        gb.wf(),
    ensures
        result == mem(gb@, addr),
{
    gb.ram[addr as usize]
}

/// Write one byte on the bus at the given address.  Total over the full
/// address range.
pub fn write_mem(gb: &mut Gameboy, addr: u16, value: u8)
    requires
        old(gb).wf(),
    ensures
        final(gb).wf(),
        final(gb)@ == with_mem(old(gb)@, addr, value),
{
    gb.ram[addr as usize] = value;
}

/// Read the byte at the current program counter and advance PC by one.
pub fn read_byte(gb: &mut Gameboy) -> (result: u16)
    requires
        old(gb).wf(),
    ensures
        final(gb).wf(),
        final(gb)@ == fetched8(old(gb)@).0,
        result == fetched8(old(gb)@).1 as u16,
{
    let byte: u8 = gb.ram[gb.cpu.get_pc() as usize];
    gb.cpu.increment_pc();
    byte as u16
}

/// Read a little-endian 16-bit operand at the current program counter (low
/// byte first) and advance PC by two.
pub fn read_short(gb: &mut Gameboy) -> (result: u16)
    requires
        old(gb).wf(),
    ensures
        final(gb).wf(),
        final(gb)@ == fetched16(old(gb)@).0,
        result == fetched16(old(gb)@).1,
{
    let lo: u8 = read_byte(gb) as u8;
    let hi: u8 = read_byte(gb) as u8;
    (hi as u16) * 0x100 + (lo as u16)
}

/// Ticks available to one frame when the machine is paced to a 60 Hz
/// cadence: the clock frequency divided by 60, rounded down.
pub const CYCLES_PER_FRAME: i64 = 69905;

/// The frame budget is the clock frequency divided by the 60 Hz frame rate.
pub proof fn lemma_frame_budget()
    ensures
        CYCLES_PER_FRAME == CPU_FREQUENCY / 60,
{
}

/// The error a step reports to its caller: either the machine fetched an
/// architecturally-illegal opcode and has just halted, or it was already in
/// the terminal Halted-Error state.
#[derive(Clone, Copy, Debug, PartialEq, Eq)]
pub enum CpuError {
    IllegalOpcode(u8),
    Halted,
}

/// Effect and cycle cost of one fetch-decode-execute step.  A machine in the
/// terminal Halted-Error state does not change and consumes no cycles.
pub open spec fn spec_step(g: GameboyView) -> (GameboyView, int) {
    if !(g.state is Running) {
        (g, 0)
    } else {
        let (g1, op) = fetched8(g);
        spec_execute(g1, op)
    }
}

/// One fetch-decode-execute step: fetch the byte at PC, advance PC, dispatch
/// in the primary table, and return the instruction's cycle cost.  Fetching
/// an architecturally-illegal opcode moves the machine into the terminal
/// Halted-Error state and reports the opcode; stepping a machine already in
/// that state reports `Halted` and changes nothing.
pub fn step(gb: &mut Gameboy) -> (result: Result<i64, CpuError>)
    requires
        old(gb).wf(),
    ensures
        final(gb).wf(),
        final(gb)@ == spec_step(old(gb)@).0,
        old(gb)@.state is HaltedError ==> result == Result::<i64, CpuError>::Err(CpuError::Halted),
        old(gb)@.state is Running ==> ({
            let op = fetched8(old(gb)@).1;
            if is_illegal(op) {
                result == Result::<i64, CpuError>::Err(CpuError::IllegalOpcode(op))
            } else {
                result == Result::<i64, CpuError>::Ok((spec_step(old(gb)@).1) as i64)
            }
        }),
        result matches Ok(cycles) ==> 4 <= cycles <= 24,
        result is Err ==> final(gb)@.state is HaltedError,
        result is Err ==> spec_step(old(gb)@).1 == 0,
        result is Ok ==> spec_step(old(gb)@).1 == result->Ok_0,
{
    match gb.state {
        MachineState::HaltedError => Err(CpuError::Halted),
        MachineState::Running => {
            let op: u8 = read_byte(gb) as u8;
            let cycles: i64 = execute_instruction(gb, op);
            if is_illegal_opcode(op) {
                Err(CpuError::IllegalOpcode(op))
            } else {
                Ok(cycles)
            }
        },
    }
}

/// Effect and accumulated cycle cost of `n` consecutive steps.
pub open spec fn spec_run_steps(g: GameboyView, n: nat) -> (GameboyView, int)
    decreases n,
{
    if n == 0 {
        (g, 0)
    } else {
        let (g1, c1) = spec_step(g);
        let (g2, c2) = spec_run_steps(g1, (n - 1) as nat);
        (g2, c1 + c2)
    }
}

/// Running `n + 1` steps is running `n` steps and then one more.
pub proof fn lemma_run_steps_snoc(g: GameboyView, n: nat)
    ensures
        spec_run_steps(g, n + 1).0 == spec_step(spec_run_steps(g, n).0).0,
        spec_run_steps(g, n + 1).1 == spec_run_steps(g, n).1 + spec_step(spec_run_steps(g, n).0).1,
    decreases n,
{
    let g1 = spec_step(g).0;
    let c1 = spec_step(g).1;
    if n == 0 {
        assert(spec_run_steps(g, 1) == (spec_run_steps(g1, 0).0, c1 + spec_run_steps(g1, 0).1));
    } else {
        lemma_run_steps_snoc(g1, (n - 1) as nat);
        assert(spec_run_steps(g, n + 1) == (spec_run_steps(g1, n).0, c1 + spec_run_steps(g1, n).1));
        assert(spec_run_steps(g, n) == (spec_run_steps(g1, (n - 1) as nat).0, c1 + spec_run_steps(
            g1,
            (n - 1) as nat,
        ).1));
    }
}

/// Drive fetch-decode-execute steps until the accumulated cycle count
/// reaches the per-frame budget, or the machine halts with an error.  The
/// result is the cycle count of the shortest run of steps that meets the
/// budget: every proper prefix of the run stayed under it.
pub fn run_frame(gb: &mut Gameboy) -> (result: i64)
    requires
        old(gb).wf(),
    ensures
        final(gb).wf(),
        exists|n: nat|
            #![trigger spec_run_steps(old(gb)@, n)]
            {
                &&& final(gb)@ == spec_run_steps(old(gb)@, n).0
                &&& result == spec_run_steps(old(gb)@, n).1
                &&& forall|m: nat|
                    m < n ==> #[trigger] spec_run_steps(old(gb)@, m).1 < CYCLES_PER_FRAME
            },
        result >= CYCLES_PER_FRAME || final(gb)@.state is HaltedError,
{
    let ghost orig: GameboyView = gb@;
    let ghost mut steps: nat = 0;
    let mut total: i64 = 0;
    while total < CYCLES_PER_FRAME
        invariant
            gb.wf(),
            gb@ == spec_run_steps(orig, steps).0,
            total == spec_run_steps(orig, steps).1,
            0 <= total <= CYCLES_PER_FRAME + 23,
            forall|m: nat| m < steps ==> #[trigger] spec_run_steps(orig, m).1 < CYCLES_PER_FRAME,
            orig == old(gb)@,
        decreases CYCLES_PER_FRAME + 24 - total,
    {
        let ghost before: GameboyView = gb@;
        match step(gb) {
            Ok(cycles) => {
                proof {
                    lemma_run_steps_snoc(orig, steps);
                    steps = steps + 1;
                }
                total = total + cycles;
            },
            Err(_) => {
                proof {
                    lemma_run_steps_snoc(orig, steps);
                    steps = steps + 1;
                }
                return total;
            },
        }
    }
    total
}

} // verus!
