//! The LC-3 virtual machine: architectural state, the fetch-decode-execute
//! step, the trap dispatcher, and the run loop.
//!
//! The behaviour of one step is pinned down by the spec-level transition
//! function [`step_spec`] over an abstract [`State`]; [`Machine::step`]
//! proves that the executable machine takes exactly that transition. Host
//! I/O is modelled as byte streams owned by the machine: a trap reads from
//! the remaining input and appends to the output.
//!
//! Fatal events (the reserved opcode, return-from-interrupt, an
//! unimplemented trap vector, exhausted input, a PUTS string without a
//! terminator) surface as an [`ExecError`] from `step` and
//! `run_until_halt`; the machine then stops in the state it had reached.

use vstd::prelude::*;
use vstd::string::StringSliceAdditionalSpecFns;

use crate::bit_util::convert_str_to_i16_vec;
use crate::instructions::{
    reg_num, spec_decode, DesiredConditionFlags, Instruction, Register, Registers,
};

verus! {

/// The machine's current condition code: exactly one of negative, zero,
/// positive, set from the last register a flag-setting instruction wrote.
/// Its initial value is `Zero`.
#[derive(Copy, Clone, Debug, PartialEq, Eq, Structural)]
pub enum ConditionCode {
    Negative,
    Zero,
    Positive,
}

/// The one-hot `n z p` mask of a condition code.
pub open spec fn cc_bits(cc: ConditionCode) -> u8 {
    match cc {
        ConditionCode::Negative => 4,
        ConditionCode::Zero => 2,
        ConditionCode::Positive => 1,
    }
}

/// The condition code the signed value `v` gives rise to.
pub open spec fn cc_of(v: i16) -> ConditionCode {
    if v < 0 {
        ConditionCode::Negative
    } else if v == 0 {
        ConditionCode::Zero
    } else {
        ConditionCode::Positive
    }
}

/// Whether a branch with operand `f` is taken under the condition code `cc`.
pub open spec fn cc_matches(cc: ConditionCode, f: DesiredConditionFlags) -> bool {
    match cc {
        ConditionCode::Negative => f.negative,
        ConditionCode::Zero => f.zero,
        ConditionCode::Positive => f.positive,
    }
}

impl ConditionCode {
    /// The one-hot `n z p` mask of the condition code.
    pub fn into_flags(self) -> (r: u8)
        ensures
            r == cc_bits(self),
    {
        match self {
            ConditionCode::Negative => 0b100,
            ConditionCode::Zero => 0b010,
            ConditionCode::Positive => 0b001,
        }
    }
}

/// A fatal execution event. The machine recovers from none of these; the
/// embedder sees the error from `step` or `run_until_halt`.
#[derive(Copy, Clone, Debug, PartialEq, Eq, Structural)]
pub enum ExecError {
    /// The reserved opcode `0b1101` was executed.
    ReservedInstruction,
    /// A return-from-interrupt was executed; this core has no interrupts.
    ReturnFromInterrupt,
    /// A trap vector this core does not implement, carrying the vector.
    UnimplementedTrap(u8),
    /// GETC found the host input exhausted.
    EndOfInput,
    /// PUTS found no zero word between the start address and the end of
    /// memory.
    UnterminatedString,
    /// The run loop took 2^64 - 1 steps without halting or faulting.
    /// Verified loops must terminate, so the loop carries this bound; no
    /// real program reaches it.
    StepLimitReached,
}

/// The abstract machine state that the contracts speak of: eight registers,
/// the full 2^16-word memory, the instruction pointer, the condition code,
/// the halt latch, the remaining host input, and the host output written so
/// far.
pub ghost struct State {
    pub regs: Seq<i16>,
    pub mem: Seq<i16>,
    pub ip: u16,
    pub cc: ConditionCode,
    pub halted: bool,
    pub input: Seq<u8>,
    pub output: Seq<u8>,
}

impl State {
    /// The state has exactly eight registers and a full 16-bit address
    /// space.
    pub open spec fn wf(self) -> bool {
        self.regs.len() == 8 && self.mem.len() == 0x10000
    }
}

/// A 16-bit address moved by a signed offset, wrapping modulo 2^16.
pub open spec fn wadd(base: u16, off: i16) -> u16 {
    vstd::wrapping::u16_specs::wrapping_add_signed(base, off)
}

/// The bitwise complement of a 16-bit word; in two's complement it is
/// `-1 - v`.
pub open spec fn complement(v: i16) -> i16 {
    (-1 - v) as i16
}

/// The value of register `r` in `s`.
pub open spec fn read_reg(s: State, r: Register) -> i16 {
    s.regs[reg_num(r) as int]
}

/// `s` with `v` stored in register `r` and the condition code set from `v`.
pub open spec fn write_reg_cc(s: State, r: Register, v: i16) -> State {
    State { regs: s.regs.update(reg_num(r) as int, v), cc: cc_of(v), ..s }
}

/// The memory word at address `a` in `s`.
pub open spec fn read_mem(s: State, a: u16) -> i16 {
    s.mem[a as int]
}

/// `s` with `v` stored at address `a`.
pub open spec fn write_mem(s: State, a: u16, v: i16) -> State {
    State { mem: s.mem.update(a as int, v), ..s }
}

/// The first address at or after `a` holding a zero word, or `0x10000` if
/// there is none before the end of memory.
pub open spec fn first_zero(mem: Seq<i16>, a: int) -> int
    decreases 0x10000 - a,
{
    if a >= 0x10000 {
        0x10000
    } else if mem[a] == 0i16 {
        a
    } else {
        first_zero(mem, a + 1)
    }
}

/// The low bytes of the words from `a` up to the first zero word (or the
/// end of memory).
pub open spec fn bytes_until_zero(mem: Seq<i16>, a: int) -> Seq<u8>
    decreases 0x10000 - a,
{
    if a >= 0x10000 || mem[a] == 0i16 {
        Seq::empty()
    } else {
        seq![mem[a] as u8] + bytes_until_zero(mem, a + 1)
    }
}

/// `bytes_until_zero` holds one byte per word scanned, the low byte of each.
proof fn lemma_bytes_until_zero(mem: Seq<i16>, a: int)
    requires
        a <= 0x10000,
    ensures
        a <= first_zero(mem, a) <= 0x10000,
        bytes_until_zero(mem, a).len() == first_zero(mem, a) - a,
        forall|k: int|
            0 <= k < first_zero(mem, a) - a ==> bytes_until_zero(mem, a)[k] == mem[a + k] as u8,
    decreases 0x10000 - a,
{
    if a >= 0x10000 || mem[a] == 0i16 {
    } else {
        lemma_bytes_until_zero(mem, a + 1);
    }
}

/// The effect of trap vector `vector` on state `s`:
/// - `0x20` GETC: take one byte from the input into `R0`, or fail if the
///   input is exhausted;
/// - `0x21` OUT: append the low byte of `R0` to the output;
/// - `0x22` PUTS: append the low bytes of the words from address `R0` up to
///   the first zero word, or fail if no zero word follows;
/// - `0x25` HALT: set the halt latch;
/// - anything else (including `0x23` IN, unimplemented here): fail.
pub open spec fn trap_spec(s: State, vector: u8) -> Result<State, ExecError> {
    if vector == 0x20 {
        if s.input.len() == 0 {
            Err(ExecError::EndOfInput)
        } else {
            Ok(State { regs: s.regs.update(0, s.input[0] as i16), input: s.input.skip(1), ..s })
        }
    } else if vector == 0x21 {
        Ok(State { output: s.output.push(read_reg(s, Register::R0) as u8), ..s })
    } else if vector == 0x22 {
        let start = read_reg(s, Register::R0) as u16;
        if first_zero(s.mem, start as int) == 0x10000 {
            Err(ExecError::UnterminatedString)
        } else {
            Ok(State { output: s.output + bytes_until_zero(s.mem, start as int), ..s })
        }
    } else if vector == 0x25 {
        Ok(State { halted: true, ..s })
    } else {
        Err(ExecError::UnimplementedTrap(vector))
    }
}

/// The effect of executing `instr` on `s`, where `s.ip` already holds the
/// post-fetch value (the address after the instruction). Every
/// effective-address computation and two's-complement addition wraps modulo
/// 2^16. Loads, ADD, AND, NOT and LEA set the condition code from the value
/// written; stores, branches, jumps and traps leave it unchanged. JSR and
/// JSRR link the post-fetch address into `R7`, JSRR reading its base
/// register before the link is written. Traps do not link `R7` in this
/// core.
pub open spec fn exec_instr_spec(s: State, instr: Instruction) -> Result<State, ExecError> {
    match instr {
        Instruction::Add(dr, s1, s2) => Ok(
            write_reg_cc(
                s,
                dr,
                vstd::wrapping::i16_specs::wrapping_add(read_reg(s, s1), read_reg(s, s2)),
            ),
        ),
        Instruction::AddImmediate(dr, s1, imm) => Ok(
            write_reg_cc(
                s,
                dr,
                vstd::wrapping::i16_specs::wrapping_add(read_reg(s, s1), imm.0 as i16),
            ),
        ),
        Instruction::And(dr, s1, s2) => Ok(write_reg_cc(s, dr, read_reg(s, s1) & read_reg(s, s2))),
        Instruction::AndImmediate(dr, s1, imm) => Ok(
            write_reg_cc(s, dr, read_reg(s, s1) & (imm.0 as i16)),
        ),
        Instruction::Branch(f, off) => Ok(
            if cc_matches(s.cc, f) {
                State { ip: wadd(s.ip, off.0), ..s }
            } else {
                s
            },
        ),
        Instruction::Jump(b) => Ok(State { ip: read_reg(s, b) as u16, ..s }),
        Instruction::JumpSubroutine(off) => Ok(
            State { regs: s.regs.update(7, s.ip as i16), ip: wadd(s.ip, off.0), ..s },
        ),
        Instruction::JumpSubroutineRegister(b) => Ok(
            State { regs: s.regs.update(7, s.ip as i16), ip: read_reg(s, b) as u16, ..s },
        ),
        Instruction::Load(dr, off) => Ok(write_reg_cc(s, dr, read_mem(s, wadd(s.ip, off.0)))),
        Instruction::LoadIndirect(dr, off) => Ok(
            write_reg_cc(s, dr, read_mem(s, read_mem(s, wadd(s.ip, off.0)) as u16)),
        ),
        Instruction::LoadRegister(dr, b, off) => Ok(
            write_reg_cc(s, dr, read_mem(s, wadd(read_reg(s, b) as u16, off.0 as i16))),
        ),
        Instruction::LoadEffectiveAddress(dr, off) => Ok(
            write_reg_cc(s, dr, wadd(s.ip, off.0) as i16),
        ),
        Instruction::Not(dr, sr) => Ok(write_reg_cc(s, dr, complement(read_reg(s, sr)))),
        Instruction::ReturnFromInterrupt => Err(ExecError::ReturnFromInterrupt),
        Instruction::Store(sr, off) => Ok(write_mem(s, wadd(s.ip, off.0), read_reg(s, sr))),
        Instruction::StoreIndirect(sr, off) => Ok(
            write_mem(s, read_mem(s, wadd(s.ip, off.0)) as u16, read_reg(s, sr)),
        ),
        Instruction::StoreRegister(sr, b, off) => Ok(
            write_mem(s, wadd(read_reg(s, b) as u16, off.0 as i16), read_reg(s, sr)),
        ),
        Instruction::Trap(v) => trap_spec(s, v),
        Instruction::Reserved => Err(ExecError::ReservedInstruction),
    }
}

/// `s` after the fetch alone: the instruction pointer has advanced past the
/// word at `s.ip`, wrapping modulo 2^16.
pub open spec fn fetched(s: State) -> State {
    State { ip: vstd::wrapping::u16_specs::wrapping_add(s.ip, 1), ..s }
}

/// One whole step: fetch the word at `ip`, advance `ip`, decode, execute.
pub open spec fn step_spec(s: State) -> Result<State, ExecError> {
    exec_instr_spec(fetched(s), spec_decode(s.mem[s.ip as int] as u16))
}

/// `n` consecutive steps from `s`, or the first fatal error among them.
pub open spec fn run_spec(s: State, n: nat) -> Result<State, ExecError>
    decreases n,
{
    if n == 0 {
        Ok(s)
    } else {
        match step_spec(s) {
            Ok(s2) => run_spec(s2, (n - 1) as nat),
            Err(e) => Err(e),
        }
    }
}

/// Whether the run is still going after `m` steps: the `m`-th iterate
/// exists and its halt latch is clear.
pub open spec fn running_at(s0: State, m: nat) -> bool {
    match run_spec(s0, m) {
        Ok(s) => !s.halted,
        Err(_) => false,
    }
}

/// Extending a successful run by one step runs the step from its final
/// state.
proof fn lemma_run_spec_snoc(s0: State, n: nat)
    requires
        run_spec(s0, n) is Ok,
    ensures
        (match step_spec(run_spec(s0, n)->Ok_0) {
            Ok(s2) => run_spec(s0, n + 1) == Ok::<State, ExecError>(s2),
            Err(e) => run_spec(s0, n + 1) == Err::<State, ExecError>(e),
        }),
    decreases n,
{
    if n == 0 {
        match step_spec(s0) {
            Ok(s1) => {
                assert(run_spec(s1, 0) == Ok::<State, ExecError>(s1));
            },
            Err(_) => {},
        }
    } else {
        match step_spec(s0) {
            Ok(s1) => {
                lemma_run_spec_snoc(s1, (n - 1) as nat);
            },
            Err(_) => {},
        }
    }
}

/// The 2^16-word memory. Backed by a growing array with zero-on-read
/// semantics: the view is always the full address space, and an address
/// never written reads as zero.
pub struct Memory(Vec<i16>);

impl View for Memory {
    type V = Seq<i16>;

    /// The full 2^16-word contents, zero beyond the allocated prefix.
    closed spec fn view(&self) -> Seq<i16> {
        Seq::new(
            0x10000,
            |i: int|
                if 0 <= i < self.0.len() {
                    self.0[i]
                } else {
                    0i16
                },
        )
    }
}

impl Memory {
    /// How many words are allocated; addresses at or beyond this read zero.
    pub closed spec fn spec_len(&self) -> nat {
        self.0@.len()
    }

    /// The view always spans the whole 16-bit address space, whatever is
    /// allocated.
    pub proof fn lemma_view_len(&self)
        ensures
            self@.len() == 0x10000,
    {
    }

    /// An empty memory: every address reads zero.
    pub fn new() -> (r: Memory)
        ensures
            r@.len() == 0x10000,
            r.spec_len() == 0,
            forall|a: int| 0 <= a < 0x10000 ==> r@[a] == 0i16,
    {
        Memory(Vec::new())
    }

    /// The allocated length.
    pub fn len(&self) -> (r: usize)
        ensures
            r == self.spec_len(),
    {
        self.0.len()
    }

    /// Grow or shrink the allocated prefix to `size` words, filling new
    /// words with `val`. Shrinking makes the cut words read zero again.
    pub fn resize(&mut self, size: usize, val: i16)
        ensures
            final(self)@.len() == 0x10000,
            final(self).spec_len() == size,
            forall|a: int|
                0 <= a < 0x10000 ==> final(self)@[a] == (if a < size {
                    if a < old(self).spec_len() {
                        old(self)@[a]
                    } else {
                        val
                    }
                } else {
                    0i16
                }),
    {
        if size <= self.0.len() {
            self.0.truncate(size);
        } else {
            while self.0.len() < size
                invariant
                    old(self).0@.len() <= self.0@.len() <= size,
                    forall|a: int| 0 <= a < old(self).0@.len() ==> self.0@[a] == old(self).0@[a],
                    forall|a: int| old(self).0@.len() <= a < self.0@.len() ==> self.0@[a] == val,
                decreases size - self.0@.len(),
            {
                self.0.push(val);
            }
        }
        assert forall|a: int| 0 <= a < 0x10000 implies self@[a] == (if a < size {
            if a < old(self).spec_len() {
                old(self)@[a]
            } else {
                val
            }
        } else {
            0i16
        }) by {}
    }

    /// Make sure the prefix covers `index`, so that a following write is in
    /// bounds. Reads are unaffected: new words read zero, as they did
    /// before.
    pub fn ensure_space(&mut self, index: u16)
        ensures
            final(self)@.len() == 0x10000,
            final(self)@ == old(self)@,
            final(self).spec_len() > index as nat,
    {
        if (index as usize) >= self.len() {
            let ghost pre = self@;
            self.resize(index as usize + 1, 0);
            proof {
                assert(self@ =~= pre);
            }
        }
    }

    /// The word at `index`; zero if the address was never written.
    pub fn read(&self, index: u16) -> (r: i16)
        ensures
            r == self@[index as int],
    {
        if (index as usize) < self.0.len() {
            self.0[index as usize]
        } else {
            0
        }
    }

    /// Store `value` at `index`, durably.
    pub fn write(&mut self, index: u16, value: i16)
        ensures
            final(self)@.len() == 0x10000,
            final(self)@ == old(self)@.update(index as int, value),
    {
        self.ensure_space(index);
        let ghost pre = self@;
        self.0[index as usize] = value;
        proof {
            assert(self@ =~= pre.update(index as int, value));
        }
    }
}


/// Which register an instruction writes together with a condition-code
/// update. JSR and JSRR write `R7` and GETC writes `R0` without touching
/// the condition code, so they are not listed here.
pub open spec fn flag_dest(instr: Instruction) -> Option<Register> {
    match instr {
        Instruction::Add(d, _, _) => Some(d),
        Instruction::AddImmediate(d, _, _) => Some(d),
        Instruction::And(d, _, _) => Some(d),
        Instruction::AndImmediate(d, _, _) => Some(d),
        Instruction::Not(d, _) => Some(d),
        Instruction::Load(d, _) => Some(d),
        Instruction::LoadIndirect(d, _) => Some(d),
        Instruction::LoadRegister(d, _, _) => Some(d),
        Instruction::LoadEffectiveAddress(d, _) => Some(d),
        _ => None,
    }
}

/// Flag law: after any instruction that writes a register and updates the
/// condition code, the code is negative, zero or positive exactly as the
/// written register's signed value is.
pub proof fn lemma_flag_law(s: State, instr: Instruction)
    requires
        s.wf(),
        flag_dest(instr) is Some,
        exec_instr_spec(s, instr) is Ok,
    ensures
        exec_instr_spec(s, instr) is Ok,
        exec_instr_spec(s, instr)->Ok_0.cc == cc_of(
            exec_instr_spec(s, instr)->Ok_0.regs[reg_num(flag_dest(instr).unwrap()) as int],
        ),
{
    let d = flag_dest(instr).unwrap();
    assert(reg_num(d) < 8);
    match instr {
        Instruction::Add(dr, _, _) => {
            assert(exec_instr_spec(s, instr)->Ok_0.cc == cc_of(
                exec_instr_spec(s, instr)->Ok_0.regs[reg_num(d) as int],
            ));
        },
        Instruction::AddImmediate(dr, _, _) => {
            assert(exec_instr_spec(s, instr)->Ok_0.cc == cc_of(
                exec_instr_spec(s, instr)->Ok_0.regs[reg_num(d) as int],
            ));
        },
        Instruction::And(dr, _, _) => {
            assert(exec_instr_spec(s, instr)->Ok_0.cc == cc_of(
                exec_instr_spec(s, instr)->Ok_0.regs[reg_num(d) as int],
            ));
        },
        Instruction::AndImmediate(dr, _, _) => {
            assert(exec_instr_spec(s, instr)->Ok_0.cc == cc_of(
                exec_instr_spec(s, instr)->Ok_0.regs[reg_num(d) as int],
            ));
        },
        Instruction::Not(dr, _) => {
            assert(exec_instr_spec(s, instr)->Ok_0.cc == cc_of(
                exec_instr_spec(s, instr)->Ok_0.regs[reg_num(d) as int],
            ));
        },
        Instruction::Load(dr, _) => {
            assert(exec_instr_spec(s, instr)->Ok_0.cc == cc_of(
                exec_instr_spec(s, instr)->Ok_0.regs[reg_num(d) as int],
            ));
        },
        Instruction::LoadIndirect(dr, _) => {
            assert(exec_instr_spec(s, instr)->Ok_0.cc == cc_of(
                exec_instr_spec(s, instr)->Ok_0.regs[reg_num(d) as int],
            ));
        },
        Instruction::LoadRegister(dr, _, _) => {
            assert(exec_instr_spec(s, instr)->Ok_0.cc == cc_of(
                exec_instr_spec(s, instr)->Ok_0.regs[reg_num(d) as int],
            ));
        },
        Instruction::LoadEffectiveAddress(dr, _) => {
            assert(exec_instr_spec(s, instr)->Ok_0.cc == cc_of(
                exec_instr_spec(s, instr)->Ok_0.regs[reg_num(d) as int],
            ));
        },
        _ => {
            assert(false);
        },
    }
}

/// Whether `instr` is a branch that is taken under the condition code `cc`.
pub open spec fn branch_taken(instr: Instruction, cc: ConditionCode) -> bool {
    match instr {
        Instruction::Branch(f, _) => cc_matches(cc, f),
        _ => false,
    }
}

/// Instruction-pointer law: one step leaves the instruction pointer at the
/// post-fetch value unless the instruction is a jump, a subroutine jump, or
/// a branch that was taken.
pub proof fn lemma_ip_law(s: State)
    requires
        step_spec(s) is Ok,
    ensures
        ({
            let instr = spec_decode(s.mem[s.ip as int] as u16);
            let s2 = step_spec(s)->Ok_0;
            (!(instr matches Instruction::Jump(_)) && !(instr matches Instruction::JumpSubroutine(
                _,
            )) && !(instr matches Instruction::JumpSubroutineRegister(_)) && !branch_taken(
                instr,
                s.cc,
            )) ==> s2.ip == fetched(s).ip
        }),
{
}

/// Halt law: one step sets the halt latch exactly when the executed
/// instruction was Trap `0x25` (or the latch was already set).
pub proof fn lemma_halt_law(s: State)
    requires
        step_spec(s) is Ok,
    ensures
        ({
            let s2 = step_spec(s)->Ok_0;
            s2.halted == (s.halted || spec_decode(s.mem[s.ip as int] as u16)
                == Instruction::Trap(0x25))
        }),
{
}

/// The virtual machine: the architectural state together with the host byte
/// streams it owns during execution.
pub struct Machine {
    pub registers: Registers,
    pub memory: Memory,
    /// Address of the next instruction to fetch.
    pub ip: u16,
    pub condition_code: ConditionCode,
    /// Set by Trap `0x25`; `run_until_halt` stops on it.
    pub halted: bool,
    input: Vec<u8>,
    input_pos: usize,
    output: Vec<u8>,
}

impl View for Machine {
    type V = State;

    closed spec fn view(&self) -> State {
        State {
            regs: self.registers@,
            mem: self.memory@,
            ip: self.ip,
            cc: self.condition_code,
            halted: self.halted,
            input: self.input@.skip(self.input_pos as int),
            output: self.output@,
        }
    }
}

impl Machine {
    /// The machine's internal invariant: a full register file and a valid
    /// input cursor. Established by `new` and preserved by every method.
    pub closed spec fn wf(&self) -> bool {
        self.registers.wf() && self.input_pos <= self.input@.len()
    }

    /// A well-formed machine's abstract state is well-formed.
    pub proof fn lemma_view_wf(&self)
        requires
            self.wf(),
        ensures
            self@.wf(),
    {
    }

    /// Build a machine over the host input bytes: `program[i]` is placed at
    /// `memory[orig + i]`, every other address reads zero, the instruction
    /// pointer starts at the origin, the condition code at `Zero`, and the
    /// output empty.
    pub fn new(input: Vec<u8>, orig: u16, program: &[i16]) -> (m: Machine)
        requires
            orig as int + program@.len() <= 0x10000,
        ensures
            m.wf(),
            m@.wf(),
            forall|j: int| 0 <= j < 8 ==> m@.regs[j] == 0i16,
            forall|a: int|
                0 <= a < 0x10000 ==> m@.mem[a] == (if orig <= a < orig as int + program@.len() {
                    program@[a - orig]
                } else {
                    0i16
                }),
            m@.ip == orig,
            m@.cc == ConditionCode::Zero,
            m@.halted == false,
            m@.input == input@,
            m@.output == Seq::<u8>::empty(),
    {
        let mut memory = Memory::new();
        let mut k: usize = 0;
        while k < program.len()
            invariant
                orig as int + program@.len() <= 0x10000,
                k <= program@.len(),
                forall|a: int|
                    0 <= a < 0x10000 ==> memory@[a] == (if orig <= a < orig as int + k {
                        program@[a - orig]
                    } else {
                        0i16
                    }),
            decreases program@.len() - k,
        {
            let addr = orig + (k as u16);
            memory.write(addr, program[k]);
            k += 1;
        }
        let m = Machine {
            registers: Registers::new(),
            memory,
            ip: orig,
            condition_code: ConditionCode::Zero,
            halted: false,
            input,
            input_pos: 0,
            output: Vec::new(),
        };
        proof {
            assert(m@.input =~= m.input@);
        }
        m
    }

    /// The host output written so far.
    pub fn output_bytes(&self) -> (r: &Vec<u8>)
        ensures
            r@ == self@.output,
    {
        &self.output
    }

    /// Store `value` at `index`, durably.
    pub fn set_memory_at(&mut self, index: u16, value: i16)
        requires
            old(self).wf(),
        ensures
            final(self).wf(),
            final(self)@ == (State { mem: old(self)@.mem.update(index as int, value), ..old(self)@ }),
    {
        self.memory.write(index, value);
    }

    /// Make the memory's allocated prefix cover `index`. Observably a
    /// no-op: unwritten addresses read zero either way.
    pub fn ensure_memory_space_at(&mut self, index: usize)
        requires
            old(self).wf(),
            index < 0x10000,
        ensures
            final(self).wf(),
            final(self)@ == old(self)@,
    {
        if index >= self.memory.len() {
            let ghost pre = self@;
            self.memory.ensure_space(index as u16);
            proof {
                assert(self@.mem =~= pre.mem);
                assert(self@ == pre);
            }
        }
    }

    /// Copy `value` into memory starting at `index`.
    pub fn set_span_at(&mut self, index: u16, value: &[i16])
        requires
            old(self).wf(),
            index as int + value@.len() <= 0x10000,
        ensures
            final(self).wf(),
            forall|a: int|
                0 <= a < 0x10000 ==> final(self)@.mem[a] == (if index <= a < index as int + value@.len() {
                    value@[a - index]
                } else {
                    old(self)@.mem[a]
                }),
            final(self)@ == (State { mem: final(self)@.mem, ..old(self)@ }),
    {
        let mut vi: usize = 0;
        while vi < value.len()
            invariant
                self.wf(),
                index as int + value@.len() <= 0x10000,
                vi <= value@.len(),
                forall|a: int|
                    0 <= a < 0x10000 ==> self@.mem[a] == (if index <= a < index as int + vi {
                        value@[a - index]
                    } else {
                        old(self)@.mem[a]
                    }),
                self@ == (State { mem: self@.mem, ..old(self)@ }),
            decreases value@.len() - vi,
        {
            self.memory.write(index + (vi as u16), value[vi]);
            vi += 1;
        }
    }

    /// Write the bytes of `value` into memory starting at `index`, one word
    /// per byte, followed by a zero terminator.
    pub fn string_set(&mut self, index: u16, value: &str)
        requires
            old(self).wf(),
            index as int + value.spec_bytes().len() + 1 <= 0x10000,
        ensures
            final(self).wf(),
            forall|a: int|
                0 <= a < 0x10000 ==> final(self)@.mem[a] == (if index <= a < index as int
                    + value.spec_bytes().len() {
                    value.spec_bytes()[a - index] as i16
                } else if a == index as int + value.spec_bytes().len() {
                    0i16
                } else {
                    old(self)@.mem[a]
                }),
            final(self)@ == (State { mem: final(self)@.mem, ..old(self)@ }),
    {
        let mut words = convert_str_to_i16_vec(value);
        words.push(0);
        self.set_span_at(index, words.as_slice());
    }

    /// Set the condition code from the signed value of register `reg`.
    fn set_condition_code_based_on(&mut self, reg: Register)
        requires
            old(self).wf(),
        ensures
            final(self).wf(),
            final(self)@ == (State { cc: cc_of(read_reg(old(self)@, reg)), ..old(self)@ }),
    {
        let v = self.registers.get(reg);
        self.condition_code = if v == 0 {
            ConditionCode::Zero
        } else if v > 0 {
            ConditionCode::Positive
        } else {
            ConditionCode::Negative
        };
    }

    /// ADD, in either form: a wrapping two's-complement sum.
    fn handle_add(&mut self, instr: Instruction)
        requires
            old(self).wf(),
            instr matches Instruction::Add(_, _, _) || instr matches Instruction::AddImmediate(
                _,
                _,
                _,
            ),
        ensures
            final(self).wf(),
            exec_instr_spec(old(self)@, instr) == Ok::<State, ExecError>(final(self)@),
    {
        match instr {
            Instruction::Add(dr, sr1, sr2) => {
                let a = self.registers.get(sr1);
                let b = self.registers.get(sr2);
                *self.registers.get_mut(dr) = a.wrapping_add(b);
                self.set_condition_code_based_on(dr);
            },
            Instruction::AddImmediate(dr, sr1, imm) => {
                let a = self.registers.get(sr1);
                *self.registers.get_mut(dr) = a.wrapping_add(imm.into_inner() as i16);
                self.set_condition_code_based_on(dr);
            },
            _ => {
                proof {
                    assert(false);
                }
            },
        }
    }

    /// AND, in either form.
    fn handle_and(&mut self, instr: Instruction)
        requires
            old(self).wf(),
            instr matches Instruction::And(_, _, _) || instr matches Instruction::AndImmediate(
                _,
                _,
                _,
            ),
        ensures
            final(self).wf(),
            exec_instr_spec(old(self)@, instr) == Ok::<State, ExecError>(final(self)@),
    {
        match instr {
            Instruction::And(dr, sr1, sr2) => {
                let a = self.registers.get(sr1);
                let b = self.registers.get(sr2);
                *self.registers.get_mut(dr) = a & b;
                self.set_condition_code_based_on(dr);
            },
            Instruction::AndImmediate(dr, sr1, imm) => {
                let a = self.registers.get(sr1);
                *self.registers.get_mut(dr) = a & (imm.into_inner() as i16);
                self.set_condition_code_based_on(dr);
            },
            _ => {
                proof {
                    assert(false);
                }
            },
        }
    }

    /// NOT: a bitwise complement.
    fn handle_not(&mut self, instr: Instruction)
        requires
            old(self).wf(),
            instr matches Instruction::Not(_, _),
        ensures
            final(self).wf(),
            exec_instr_spec(old(self)@, instr) == Ok::<State, ExecError>(final(self)@),
    {
        match instr {
            Instruction::Not(dr, sr) => {
                let v = self.registers.get(sr);
                let flipped = !v;
                assert(flipped == complement(v)) by (bit_vector)
                    requires
                        flipped == !v,
                ;
                *self.registers.get_mut(dr) = flipped;
                self.set_condition_code_based_on(dr);
            },
            _ => {
                proof {
                    assert(false);
                }
            },
        }
    }

    /// Dispatch a trap vector against the host streams; see `trap_spec` for
    /// the vector table.
    fn handle_trap(&mut self, vector: u8) -> (r: Result<(), ExecError>)
        requires
            old(self).wf(),
        ensures
            final(self).wf(),
            (match trap_spec(old(self)@, vector) {
                Ok(s) => r is Ok && final(self)@ == s,
                Err(e) => r == Err::<(), ExecError>(e) && final(self)@ == old(self)@,
            }),
    {
        if vector == 0x20 {
            if self.input_pos < self.input.len() {
                let b = self.input[self.input_pos];
                proof {
                    assert(old(self)@.input[0] == self.input@[self.input_pos as int]);
                }
                *self.registers.get_mut(Register::R0) = b as i16;
                self.input_pos = self.input_pos + 1;
                proof {
                    assert(self.input@.skip(self.input_pos as int) =~= old(self)@.input.skip(1));
                }
                Ok(())
            } else {
                proof {
                    assert(old(self)@.input.len() == 0);
                }
                Err(ExecError::EndOfInput)
            }
        } else if vector == 0x21 {
            let r0 = self.registers.get(Register::R0);
            self.output.push(#[verifier::truncate] (r0 as u8));
            Ok(())
        } else if vector == 0x22 {
            let r0 = self.registers.get(Register::R0);
            let start = #[verifier::truncate] (r0 as u16);
            let ghost s0 = self@;
            proof {
                lemma_bytes_until_zero(s0.mem, start as int);
            }
            let mut a: usize = start as usize;
            while a < 0x10000
                invariant
                    start as int <= a <= 0x10000,
                    first_zero(s0.mem, start as int) == first_zero(s0.mem, a as int),
                    s0 == self@,
                ensures
                    start as int <= a <= 0x10000,
                    first_zero(s0.mem, start as int) == (if a < 0x10000 {
                        a as int
                    } else {
                        0x10000
                    }),
                    a < 0x10000 ==> s0.mem[a as int] == 0i16,
                    s0 == self@,
                decreases 0x10000 - a,
            {
                if self.memory.read(a as u16) == 0 {
                    break;
                }
                a += 1;
            }
            if a == 0x10000 {
                Err(ExecError::UnterminatedString)
            } else {
                let stop = a;
                let mut j: usize = start as usize;
                while j < stop
                    invariant
                        start as int <= j <= stop,
                        stop < 0x10000,
                        first_zero(s0.mem, start as int) == stop as int,
                        bytes_until_zero(s0.mem, start as int).len() == stop - start,
                        forall|k: int|
                            0 <= k < stop - start ==> bytes_until_zero(s0.mem, start as int)[k]
                                == s0.mem[start as int + k] as u8,
                        self@ == (State { output: self@.output, ..s0 }),
                        self@.output =~= s0.output + bytes_until_zero(
                            s0.mem,
                            start as int,
                        ).take(j - start as int),
                        self.wf(),
                    decreases stop - j,
                {
                    let w = self.memory.read(j as u16);
                    self.output.push(#[verifier::truncate] (w as u8));
                    j += 1;
                    proof {
                        assert(self@.output =~= s0.output + bytes_until_zero(
                            s0.mem,
                            start as int,
                        ).take(j - start as int));
                    }
                }
                proof {
                    assert(bytes_until_zero(s0.mem, start as int).take(stop - start as int)
                        =~= bytes_until_zero(s0.mem, start as int));
                    assert(self@ == (State {
                        output: s0.output + bytes_until_zero(s0.mem, start as int),
                        ..s0
                    }));
                }
                Ok(())
            }
        } else if vector == 0x25 {
            self.halted = true;
            Ok(())
        } else {
            Err(ExecError::UnimplementedTrap(vector))
        }
    }

    /// Execute one already-decoded instruction against the current state,
    /// with the instruction pointer already past the fetch. On a fatal
    /// error the machine is unchanged.
    pub fn evaluate(&mut self, instr: Instruction) -> (r: Result<(), ExecError>)
        requires
            old(self).wf(),
        ensures
            final(self).wf(),
            (match exec_instr_spec(old(self)@, instr) {
                Ok(s) => r is Ok && final(self)@ == s,
                Err(e) => r == Err::<(), ExecError>(e) && final(self)@ == old(self)@,
            }),
    {
        match instr {
            Instruction::Add(_, _, _) | Instruction::AddImmediate(_, _, _) => {
                self.handle_add(instr);
                Ok(())
            },
            Instruction::And(_, _, _) | Instruction::AndImmediate(_, _, _) => {
                self.handle_and(instr);
                Ok(())
            },
            Instruction::Branch(f, off) => {
                let taken = match self.condition_code {
                    ConditionCode::Negative => f.negative,
                    ConditionCode::Zero => f.zero,
                    ConditionCode::Positive => f.positive,
                };
                if taken {
                    self.ip = self.ip.wrapping_add_signed(off.into_inner());
                }
                Ok(())
            },
            Instruction::Jump(b) => {
                let target = self.registers.get(b);
                self.ip = #[verifier::truncate] (target as u16);
                Ok(())
            },
            Instruction::JumpSubroutine(off) => {
                let link = #[verifier::truncate] (self.ip as i16);
                *self.registers.get_mut(Register::R7) = link;
                self.ip = self.ip.wrapping_add_signed(off.into_inner());
                Ok(())
            },
            Instruction::JumpSubroutineRegister(b) => {
                let target = self.registers.get(b);
                let link = #[verifier::truncate] (self.ip as i16);
                *self.registers.get_mut(Register::R7) = link;
                self.ip = #[verifier::truncate] (target as u16);
                Ok(())
            },
            Instruction::Load(dr, off) => {
                let addr = self.ip.wrapping_add_signed(off.into_inner());
                let v = self.memory.read(addr);
                *self.registers.get_mut(dr) = v;
                self.set_condition_code_based_on(dr);
                Ok(())
            },
            Instruction::LoadIndirect(dr, off) => {
                let addr = self.ip.wrapping_add_signed(off.into_inner());
                let p = self.memory.read(addr);
                let v = self.memory.read(#[verifier::truncate] (p as u16));
                *self.registers.get_mut(dr) = v;
                self.set_condition_code_based_on(dr);
                Ok(())
            },
            Instruction::LoadRegister(dr, b, off) => {
                let base = self.registers.get(b);
                let addr = (#[verifier::truncate] (base as u16)).wrapping_add_signed(
                    off.into_inner() as i16,
                );
                let v = self.memory.read(addr);
                *self.registers.get_mut(dr) = v;
                self.set_condition_code_based_on(dr);
                Ok(())
            },
            Instruction::LoadEffectiveAddress(dr, off) => {
                let addr = self.ip.wrapping_add_signed(off.into_inner());
                *self.registers.get_mut(dr) = #[verifier::truncate] (addr as i16);
                self.set_condition_code_based_on(dr);
                Ok(())
            },
            Instruction::Not(_, _) => {
                self.handle_not(instr);
                Ok(())
            },
            Instruction::ReturnFromInterrupt => Err(ExecError::ReturnFromInterrupt),
            Instruction::Store(sr, off) => {
                let addr = self.ip.wrapping_add_signed(off.into_inner());
                let v = self.registers.get(sr);
                self.memory.write(addr, v);
                Ok(())
            },
            Instruction::StoreIndirect(sr, off) => {
                let addr = self.ip.wrapping_add_signed(off.into_inner());
                let p = self.memory.read(addr);
                let v = self.registers.get(sr);
                self.memory.write(#[verifier::truncate] (p as u16), v);
                Ok(())
            },
            Instruction::StoreRegister(sr, b, off) => {
                let base = self.registers.get(b);
                let addr = (#[verifier::truncate] (base as u16)).wrapping_add_signed(
                    off.into_inner() as i16,
                );
                let v = self.registers.get(sr);
                self.memory.write(addr, v);
                Ok(())
            },
            Instruction::Trap(v) => self.handle_trap(v),
            Instruction::Reserved => Err(ExecError::ReservedInstruction),
        }
    }

    /// One whole step: fetch the word at `ip`, advance `ip` past it
    /// (wrapping), decode, execute. On a fatal error the fetch stands and
    /// the rest of the machine is unchanged.
    pub fn step(&mut self) -> (r: Result<(), ExecError>)
        requires
            old(self).wf(),
        ensures
            final(self).wf(),
            (match step_spec(old(self)@) {
                Ok(s) => r is Ok && final(self)@ == s,
                Err(e) => r == Err::<(), ExecError>(e) && final(self)@ == fetched(old(self)@),
            }),
    {
        let w = self.memory.read(self.ip);
        self.ip = self.ip.wrapping_add(1);
        let instr = Instruction::decode(#[verifier::truncate] (w as u16));
        self.evaluate(instr)
    }

    /// Step until the halt latch is set. Returns without an error exactly
    /// when the program reaches Trap `0x25`; a fatal event stops the
    /// machine where it stands. Either way the final state is what some
    /// number of `step_spec` transitions yields. A program that neither
    /// halts nor faults keeps the machine running for 2^64 - 1 steps, a
    /// bound no real program reaches.
    pub fn run_until_halt(&mut self) -> (r: Result<(), ExecError>)
        requires
            old(self).wf(),
        ensures
            final(self).wf(),
            (match r {
                Ok(_) => final(self)@.halted && exists|n: nat|
                    #![trigger run_spec(old(self)@, n)]
                    run_spec(old(self)@, n) == Ok::<State, ExecError>(final(self)@) && (forall|
                        m: nat,
                    |
                        m < n ==> #[trigger] running_at(old(self)@, m)),
                Err(e) => if e == ExecError::StepLimitReached {
                    &&& !final(self)@.halted
                    &&& run_spec(old(self)@, u64::MAX as nat) == Ok::<State, ExecError>(
                        final(self)@,
                    )
                    &&& forall|m: nat| m < u64::MAX ==> #[trigger] running_at(old(self)@, m)
                } else {
                    exists|n: nat|
                        #![trigger run_spec(old(self)@, n)]
                        run_spec(old(self)@, n) matches Ok(s) && !s.halted && step_spec(s) == Err::<
                            State,
                            ExecError,
                        >(e) && final(self)@ == fetched(s) && (forall|m: nat|
                            m < n ==> #[trigger] running_at(old(self)@, m))
                },
            }),
    {
        let ghost s0 = self@;
        let ghost mut n: nat = 0nat;
        let mut budget: u64 = u64::MAX;
        while !self.halted && budget > 0
            invariant
                self.wf(),
                s0 == old(self)@,
                run_spec(s0, n) == Ok::<State, ExecError>(self@),
                forall|m: nat| m < n ==> #[trigger] running_at(s0, m),
                n + budget == u64::MAX,
            decreases budget,
        {
            budget = budget - 1;
            let ghost pre = self@;
            let res = self.step();
            match res {
                Ok(_) => {
                    proof {
                        lemma_run_spec_snoc(s0, n);
                        assert(running_at(s0, n));
                        n = n + 1;
                    }
                },
                Err(e) => {
                    proof {
                        lemma_run_spec_snoc(s0, n);
                        assert(run_spec(s0, n) matches Ok(s) && !s.halted && step_spec(s) == Err::<
                            State,
                            ExecError,
                        >(e) && self@ == fetched(s) && (forall|m: nat|
                            m < n ==> #[trigger] running_at(s0, m)));
                    }
                    return Err(e);
                },
            }
        }
        if self.halted {
            Ok(())
        } else {
            Err(ExecError::StepLimitReached)
        }
    }
}

} // verus!

