//! Instruction words: decoding into operations, and executing them.
use vstd::prelude::*;

use crate::machine::{
    advanced, Address, Byte, MachineState, RegisterIndex, System, Word, FLAG_REGISTER, NUM_KEYS,
    NUM_REGISTERS, STACK_SIZE,
};

verus! {

/// One decoded instruction.
#[derive(Clone, Copy, Debug, PartialEq, Eq, Structural)]
pub enum OpCode {
    JumpAddress(Address),
    JumpAddressOffset(Address),
    SubJump(Address),
    SubReturn,
    SkipValue(RegisterIndex, Byte),
    SkipRegister(RegisterIndex, RegisterIndex),
    SkipNotValue(RegisterIndex, Byte),
    SkipNotRegister(RegisterIndex, RegisterIndex),
    SetDelayTimer(RegisterIndex),
    SetRegisterFromTimer(RegisterIndex),
    SetSoundTimer(RegisterIndex),
    SetValue(RegisterIndex, Byte),
    AddValue(RegisterIndex, Byte),
    SetRegister(RegisterIndex, RegisterIndex),
    OrRegister(RegisterIndex, RegisterIndex),
    AndRegister(RegisterIndex, RegisterIndex),
    XorRegister(RegisterIndex, RegisterIndex),
    AddRegister(RegisterIndex, RegisterIndex),
    SubRegisterRight(RegisterIndex, RegisterIndex),
    RShiftRegister(RegisterIndex, RegisterIndex),
    SubRegisterLeft(RegisterIndex, RegisterIndex),
    LShiftRegister(RegisterIndex, RegisterIndex),
    RandomValue(RegisterIndex, Byte),
    WaitKeyPress(RegisterIndex),
    SkipKeyPressed(RegisterIndex),
    SkipKeyNotPressed(RegisterIndex),
    Unknown,
}

/// Largest 12-bit address.
pub const MAX_ADDRESS: u16 = 0x0FFF;

pub open spec fn is_register(r: RegisterIndex) -> bool {
    r < NUM_REGISTERS
}

impl OpCode {
    /// Register operands name one of the registers, addresses fit in 12 bits.
    pub open spec fn wf(self) -> bool {
        match self {
            OpCode::JumpAddress(a) => a <= MAX_ADDRESS,
            OpCode::JumpAddressOffset(a) => a <= MAX_ADDRESS,
            OpCode::SubJump(a) => a <= MAX_ADDRESS,
            OpCode::SubReturn => true,
            OpCode::SkipValue(r, _) => is_register(r),
            OpCode::SkipRegister(x, y) => is_register(x) && is_register(y),
            OpCode::SkipNotValue(r, _) => is_register(r),
            OpCode::SkipNotRegister(x, y) => is_register(x) && is_register(y),
            OpCode::SetDelayTimer(r) => is_register(r),
            OpCode::SetRegisterFromTimer(r) => is_register(r),
            OpCode::SetSoundTimer(r) => is_register(r),
            OpCode::SetValue(r, _) => is_register(r),
            OpCode::AddValue(r, _) => is_register(r),
            OpCode::SetRegister(x, y) => is_register(x) && is_register(y),
            OpCode::OrRegister(x, y) => is_register(x) && is_register(y),
            OpCode::AndRegister(x, y) => is_register(x) && is_register(y),
            OpCode::XorRegister(x, y) => is_register(x) && is_register(y),
            OpCode::AddRegister(x, y) => is_register(x) && is_register(y),
            OpCode::SubRegisterRight(x, y) => is_register(x) && is_register(y),
            OpCode::RShiftRegister(x, y) => is_register(x) && is_register(y),
            OpCode::SubRegisterLeft(x, y) => is_register(x) && is_register(y),
            OpCode::LShiftRegister(x, y) => is_register(x) && is_register(y),
            OpCode::RandomValue(r, _) => is_register(r),
            OpCode::WaitKeyPress(r) => is_register(r),
            OpCode::SkipKeyPressed(r) => is_register(r),
            OpCode::SkipKeyNotPressed(r) => is_register(r),
            OpCode::Unknown => true,
        }
    }
}

/// The instruction family: bits 12 to 15.
pub open spec fn family(w: Word) -> Word {
    (w & 0xF000) >> 12
}

/// The register-X field: bits 8 to 11.
pub open spec fn field_x(w: Word) -> RegisterIndex {
    ((w & 0x0F00) >> 8) as RegisterIndex
}

/// The register-Y field: bits 4 to 7.
pub open spec fn field_y(w: Word) -> RegisterIndex {
    ((w & 0x00F0) >> 4) as RegisterIndex
}

/// The immediate byte: bits 0 to 7.
pub open spec fn field_byte(w: Word) -> Byte {
    (w & 0x00FF) as Byte
}

/// The low nibble: bits 0 to 3.
pub open spec fn field_nibble(w: Word) -> Word {
    w & 0x000F
}

/// The 12-bit address: bits 0 to 11.
pub open spec fn field_address(w: Word) -> Address {
    w & 0x0FFF
}

/// The operation that an instruction word stands for.
pub open spec fn decoded(w: Word) -> OpCode {
    let x = field_x(w);
    let y = field_y(w);
    let nn = field_byte(w);
    let nnn = field_address(w);
    match family(w) {
        0x0 => if nn == 0xEE { OpCode::SubReturn } else { OpCode::Unknown },
        0x1 => OpCode::JumpAddress(nnn),
        0x2 => OpCode::SubJump(nnn),
        0x3 => OpCode::SkipValue(x, nn),
        0x4 => OpCode::SkipNotValue(x, nn),
        0x5 => if field_nibble(w) == 0 { OpCode::SkipRegister(x, y) } else { OpCode::Unknown },
        0x6 => OpCode::SetValue(x, nn),
        0x7 => OpCode::AddValue(x, nn),
        0x8 => match field_nibble(w) {
            0x0 => OpCode::SetRegister(x, y),
            0x1 => OpCode::OrRegister(x, y),
            0x2 => OpCode::AndRegister(x, y),
            0x3 => OpCode::XorRegister(x, y),
            0x4 => OpCode::AddRegister(x, y),
            0x5 => OpCode::SubRegisterRight(x, y),
            0x6 => OpCode::RShiftRegister(x, y),
            0x7 => OpCode::SubRegisterLeft(x, y),
            0xE => OpCode::LShiftRegister(x, y),
            _ => OpCode::Unknown,
        },
        0x9 => if field_nibble(w) == 0 { OpCode::SkipNotRegister(x, y) } else { OpCode::Unknown },
        0xB => OpCode::JumpAddressOffset(nnn),
        0xC => OpCode::RandomValue(x, nn),
        0xE => match nn {
            0x9E => OpCode::SkipKeyPressed(x),
            0xA1 => OpCode::SkipKeyNotPressed(x),
            _ => OpCode::Unknown,
        },
        0xF => match nn {
            0x07 => OpCode::SetRegisterFromTimer(x),
            0x0A => OpCode::WaitKeyPress(x),
            0x15 => OpCode::SetDelayTimer(x),
            0x18 => OpCode::SetSoundTimer(x),
            _ => OpCode::Unknown,
        },
        _ => OpCode::Unknown,
    }
}

/// Every decoded operation is well formed.
pub proof fn lemma_decoded_wf(w: Word)
    ensures
        decoded(w).wf(),
{
    assert((w & 0x0F00) >> 8 < 16) by (bit_vector);
    assert((w & 0x00F0) >> 4 < 16) by (bit_vector);
    assert(w & 0x0FFF <= 0x0FFF) by (bit_vector);
}

impl OpCode {
    /// Decodes an instruction word; every word gives exactly one operation.
    pub fn decode(w: Word) -> (op: OpCode)
        ensures
            op == decoded(w),
            op.wf(),
    {
        proof {
            lemma_decoded_wf(w);
        }
        let x = ((w & 0x0F00) >> 8) as RegisterIndex;
        let y = ((w & 0x00F0) >> 4) as RegisterIndex;
        let nn = (w & 0x00FF) as Byte;
        let nnn = w & 0x0FFF;
        match (w & 0xF000) >> 12 {
            0x0 => if nn == 0xEE { OpCode::SubReturn } else { OpCode::Unknown },
            0x1 => OpCode::JumpAddress(nnn),
            0x2 => OpCode::SubJump(nnn),
            0x3 => OpCode::SkipValue(x, nn),
            0x4 => OpCode::SkipNotValue(x, nn),
            0x5 => if w & 0x000F == 0 { OpCode::SkipRegister(x, y) } else { OpCode::Unknown },
            0x6 => OpCode::SetValue(x, nn),
            0x7 => OpCode::AddValue(x, nn),
            0x8 => match w & 0x000F {
                0x0 => OpCode::SetRegister(x, y),
                0x1 => OpCode::OrRegister(x, y),
                0x2 => OpCode::AndRegister(x, y),
                0x3 => OpCode::XorRegister(x, y),
                0x4 => OpCode::AddRegister(x, y),
                0x5 => OpCode::SubRegisterRight(x, y),
                0x6 => OpCode::RShiftRegister(x, y),
                0x7 => OpCode::SubRegisterLeft(x, y),
                0xE => OpCode::LShiftRegister(x, y),
                _ => OpCode::Unknown,
            },
            0x9 => if w & 0x000F == 0 { OpCode::SkipNotRegister(x, y) } else { OpCode::Unknown },
            0xB => OpCode::JumpAddressOffset(nnn),
            0xC => OpCode::RandomValue(x, nn),
            0xE => match nn {
                0x9E => OpCode::SkipKeyPressed(x),
                0xA1 => OpCode::SkipKeyNotPressed(x),
                _ => OpCode::Unknown,
            },
            0xF => match nn {
                0x07 => OpCode::SetRegisterFromTimer(x),
                0x0A => OpCode::WaitKeyPress(x),
                0x15 => OpCode::SetDelayTimer(x),
                0x18 => OpCode::SetSoundTimer(x),
                _ => OpCode::Unknown,
            },
            _ => OpCode::Unknown,
        }
    }
}

/// How an executed operation left the machine.
#[derive(Clone, Copy, Debug, PartialEq, Eq, Structural)]
pub enum Step {
    /// The operation took effect.
    Done,
    /// No key is down: the operation waits for one, and the machine is
    /// unchanged. Execute it again once a key is pressed.
    AwaitKey,
}

/// Why an operation could not be executed; the machine is left unchanged.
#[derive(Clone, Copy, Debug, PartialEq, Eq, Structural)]
pub enum ExecError {
    /// The instruction word stands for no operation.
    UnrecognizedInstruction,
    /// A call with every stack slot in use.
    StackOverflow,
    /// A return with an empty stack.
    StackUnderflow,
}

/// Whether keypad key `k` exists and is held down.
pub open spec fn key_down(keys: Seq<bool>, k: u8) -> bool {
    k < keys.len() && keys[k as int]
}

/// The lowest index from `i` on whose key is down.
pub open spec fn first_pressed_from(keys: Seq<bool>, i: int) -> Option<nat>
    decreases keys.len() - i,
{
    if i < 0 || i >= keys.len() {
        None
    } else if keys[i] {
        Some(i as nat)
    } else {
        first_pressed_from(keys, i + 1)
    }
}

/// The lowest index whose key is down, if any is.
pub open spec fn first_pressed(keys: Seq<bool>) -> Option<nat> {
    first_pressed_from(keys, 0)
}

/// `s` with register `r` set to `v`.
pub open spec fn with_register(s: MachineState, r: RegisterIndex, v: u8) -> MachineState {
    MachineState { registers: s.registers.update(r as int, v), ..s }
}

/// `s` with register `r` set to `v`, then the flag register set to `flag`.
pub open spec fn with_flagged(s: MachineState, r: RegisterIndex, v: u8, flag: u8) -> MachineState {
    MachineState { registers: s.registers.update(r as int, v).update(FLAG_REGISTER as int, flag), ..s }
}

/// `s` with the next instruction skipped when `cond` holds.
pub open spec fn skip_if(s: MachineState, cond: bool) -> MachineState {
    if cond {
        MachineState { pc: advanced(s.pc), ..s }
    } else {
        s
    }
}

/// 1 when `cond` holds, else 0.
pub open spec fn flag(cond: bool) -> u8 {
    if cond { 1 } else { 0 }
}

/// What executing `op` on `s` reports.
pub open spec fn outcome(s: MachineState, op: OpCode) -> Result<Step, ExecError> {
    match op {
        OpCode::Unknown => Err(ExecError::UnrecognizedInstruction),
        OpCode::SubJump(_) => if s.sp < STACK_SIZE { Ok(Step::Done) } else { Err(ExecError::StackOverflow) },
        OpCode::SubReturn => if s.sp > 0 { Ok(Step::Done) } else { Err(ExecError::StackUnderflow) },
        OpCode::WaitKeyPress(_) => if first_pressed(s.keys) is Some { Ok(Step::Done) } else { Ok(Step::AwaitKey) },
        _ => Ok(Step::Done),
    }
}

/// The machine after executing `op` on `s`, where `noise` is the random
/// byte that a masked-random operation draws.
pub open spec fn next(s: MachineState, op: OpCode, noise: u8) -> MachineState {
    let reg = s.registers;
    match op {
        OpCode::JumpAddress(a) => MachineState { pc: a, ..s },
        OpCode::JumpAddressOffset(a) => MachineState { pc: (a + reg[0]) as u16, ..s },
        OpCode::SubJump(a) => if s.sp < STACK_SIZE {
            MachineState {
                stack: s.stack.update(s.sp as int, s.pc),
                sp: (s.sp + 1) as u8,
                pc: a,
                ..s
            }
        } else {
            s
        },
        OpCode::SubReturn => if s.sp > 0 {
            MachineState { sp: (s.sp - 1) as u8, pc: s.stack[s.sp - 1], ..s }
        } else {
            s
        },
        OpCode::SkipValue(r, v) => skip_if(s, reg[r as int] == v),
        OpCode::SkipRegister(x, y) => skip_if(s, reg[x as int] == reg[y as int]),
        OpCode::SkipNotValue(r, v) => skip_if(s, reg[r as int] != v),
        OpCode::SkipNotRegister(x, y) => skip_if(s, reg[x as int] != reg[y as int]),
        OpCode::SetDelayTimer(r) => MachineState { delay_timer: reg[r as int], ..s },
        OpCode::SetRegisterFromTimer(r) => with_register(s, r, s.delay_timer),
        OpCode::SetSoundTimer(r) => MachineState { sound_timer: reg[r as int], ..s },
        OpCode::SetValue(r, v) => with_register(s, r, v),
        OpCode::AddValue(r, v) => with_register(s, r, ((reg[r as int] + v) % 256) as u8),
        OpCode::SetRegister(x, y) => with_register(s, x, reg[y as int]),
        OpCode::OrRegister(x, y) => with_register(s, x, reg[x as int] | reg[y as int]),
        OpCode::AndRegister(x, y) => with_register(s, x, reg[x as int] & reg[y as int]),
        OpCode::XorRegister(x, y) => with_register(s, x, reg[x as int] ^ reg[y as int]),
        OpCode::AddRegister(x, y) => {
            let sum = reg[x as int] + reg[y as int];
            with_flagged(s, x, (sum % 256) as u8, flag(sum >= 256))
        },
        OpCode::SubRegisterRight(x, y) => {
            let (a, b) = (reg[x as int], reg[y as int]);
            with_flagged(s, x, ((a - b) % 256) as u8, flag(a < b))
        },
        OpCode::RShiftRegister(x, y) => with_flagged(s, x, reg[y as int] / 2, reg[y as int] % 2),
        OpCode::SubRegisterLeft(x, y) => {
            let (a, b) = (reg[y as int], reg[x as int]);
            with_flagged(s, y, ((a - b) % 256) as u8, flag(a < b))
        },
        OpCode::LShiftRegister(x, y) => with_flagged(
            s,
            x,
            ((reg[y as int] * 2) % 256) as u8,
            reg[y as int] / 128,
        ),
        OpCode::RandomValue(r, mask) => with_register(s, r, noise & mask),
        OpCode::WaitKeyPress(r) => match first_pressed(s.keys) {
            Some(k) => with_register(s, r, k as u8),
            None => s,
        },
        OpCode::SkipKeyPressed(r) => skip_if(s, key_down(s.keys, reg[r as int])),
        OpCode::SkipKeyNotPressed(r) => skip_if(s, !key_down(s.keys, reg[r as int])),
        OpCode::Unknown => s,
    }
}

/// The lowest keypad index whose key is down, if any is. This is the one
/// place that decides which key a waiting operation takes.
pub fn first_pressed_key(system: &System) -> (r: Option<u8>)
    requires
        system.wf(),
    ensures
        match r {
            Some(k) => first_pressed(system@.keys) == Some(k as nat),
            None => first_pressed(system@.keys) is None,
        },
{
    let mut i: usize = 0;
    while i < NUM_KEYS
        invariant
            system.wf(),
            i <= NUM_KEYS,
            first_pressed(system@.keys) == first_pressed_from(system@.keys, i as int),
        decreases NUM_KEYS - i,
    {
        if system.key(i) {
            return Some(i as u8);
        }
        i = i + 1;
    }
    None
}

/// The value of `a - b` and whether it borrowed.
fn sub_with_borrow(a: u8, b: u8) -> (r: (u8, u8))
    ensures
        r.0 == ((a - b) % 256) as u8,
        r.1 == flag(a < b),
{
    if a >= b {
        (a - b, 0)
    } else {
        ((256 + a as u16 - b as u16) as u8, 1)
    }
}

impl OpCode {
    /// Executes this operation on `system`, with `random` as the byte that a
    /// masked-random operation draws.
    pub fn execute_with_random(&self, system: &mut System, random: u8) -> (r: Result<Step, ExecError>)
        requires
            self.wf(),
            old(system).wf(),
        ensures
            r == outcome(old(system)@, *self),
            final(system)@ == next(old(system)@, *self, random),
            final(system).wf(),
    {
        match *self {
            OpCode::JumpAddress(address) => {
                system.set_pc(address);
            },
            OpCode::JumpAddressOffset(address) => {
                let offset = system.register(0);
                system.set_pc(address + offset as Word);
            },
            OpCode::SubJump(address) => {
                if system.sp() as usize >= STACK_SIZE {
                    return Err(ExecError::StackOverflow);
                }
                let pc = system.pc();
                system.push_return(pc);
                system.set_pc(address);
            },
            OpCode::SubReturn => {
                if system.sp() == 0 {
                    return Err(ExecError::StackUnderflow);
                }
                let address = system.pop_return();
                system.set_pc(address);
            },
            OpCode::SkipValue(register, value) => {
                if system.register(register) == value {
                    system.increment_pc();
                }
            },
            OpCode::SkipRegister(left, right) => {
                if system.register(left) == system.register(right) {
                    system.increment_pc();
                }
            },
            OpCode::SkipNotValue(register, value) => {
                if system.register(register) != value {
                    system.increment_pc();
                }
            },
            OpCode::SkipNotRegister(left, right) => {
                if system.register(left) != system.register(right) {
                    system.increment_pc();
                }
            },
            OpCode::SetDelayTimer(register) => {
                let v = system.register(register);
                system.set_delay_timer(v);
            },
            OpCode::SetRegisterFromTimer(register) => {
                let v = system.delay_timer();
                system.set_register(register, v);
            },
            OpCode::SetSoundTimer(register) => {
                let v = system.register(register);
                system.set_sound_timer(v);
            },
            OpCode::SetValue(register, value) => {
                system.set_register(register, value);
            },
            OpCode::AddValue(register, value) => {
                let v = system.register(register);
                system.set_register(register, v.wrapping_add(value));
            },
            OpCode::SetRegister(left, right) => {
                let v = system.register(right);
                system.set_register(left, v);
            },
            OpCode::OrRegister(left, right) => {
                let v = system.register(left) | system.register(right);
                system.set_register(left, v);
            },
            OpCode::AndRegister(left, right) => {
                let v = system.register(left) & system.register(right);
                system.set_register(left, v);
            },
            OpCode::XorRegister(left, right) => {
                let v = system.register(left) ^ system.register(right);
                system.set_register(left, v);
            },
            OpCode::AddRegister(left, right) => {
                let sum: u16 = system.register(left) as u16 + system.register(right) as u16;
                system.set_register(left, (sum % 256) as u8);
                system.set_register(FLAG_REGISTER, if sum >= 256 { 1 } else { 0 });
            },
            OpCode::SubRegisterRight(left, right) => {
                let (value, borrow) = sub_with_borrow(system.register(left), system.register(right));
                system.set_register(left, value);
                system.set_register(FLAG_REGISTER, borrow);
            },
            OpCode::RShiftRegister(left, right) => {
                let v = system.register(right);
                let least_bit = v & 0x1;
                let shifted = v >> 1;
                assert(v & 0x1 == v % 2 && v >> 1 == v / 2) by (bit_vector);
                system.set_register(left, shifted);
                system.set_register(FLAG_REGISTER, least_bit);
            },
            OpCode::SubRegisterLeft(left, right) => {
                let (value, borrow) = sub_with_borrow(system.register(right), system.register(left));
                system.set_register(right, value);
                system.set_register(FLAG_REGISTER, borrow);
            },
            OpCode::LShiftRegister(left, right) => {
                let v = system.register(right);
                let most_bit = v >> 7;
                let shifted = v << 1;
                assert(v >> 7 == v / 128 && v << 1 == ((v * 2) % 256) as u8) by (bit_vector);
                system.set_register(left, shifted);
                system.set_register(FLAG_REGISTER, most_bit);
            },
            OpCode::RandomValue(register, mask) => {
                system.set_register(register, random & mask);
            },
            OpCode::WaitKeyPress(register) => {
                match first_pressed_key(system) {
                    Some(k) => system.set_register(register, k),
                    None => return Ok(Step::AwaitKey),
                }
            },
            OpCode::SkipKeyPressed(register) => {
                let k = system.register(register);
                if (k as usize) < NUM_KEYS && system.key(k as usize) {
                    system.increment_pc();
                }
            },
            OpCode::SkipKeyNotPressed(register) => {
                let k = system.register(register);
                if !((k as usize) < NUM_KEYS && system.key(k as usize)) {
                    system.increment_pc();
                }
            },
            OpCode::Unknown => {
                return Err(ExecError::UnrecognizedInstruction);
            },
        }
        Ok(Step::Done)
    }

    /// Executes this operation on `system`. A masked-random operation draws
    /// its byte from the process-wide generator; the effect is otherwise the
    /// same as that of `execute_with_random`.
    pub fn execute(&self, system: &mut System) -> (r: Result<Step, ExecError>)
        requires
            self.wf(),
            old(system).wf(),
        ensures
            r == outcome(old(system)@, *self),
            exists|noise: u8| final(system)@ == next(old(system)@, *self, noise),
            !(*self is RandomValue) ==> final(system)@ == next(old(system)@, *self, 0),
            final(system).wf(),
    {
        let random = match *self {
            OpCode::RandomValue(_, _) => random_byte(),
            _ => 0,
        };
        self.execute_with_random(system, random)
    }
}

/// Relies on rand::random::<u8>: draws one byte from the thread-local
/// generator. Nothing is known of its value.
#[verifier::external_body]
fn random_byte() -> (r: u8) {
    rand::random::<u8>()
}

impl From<Word> for OpCode {
    fn from(w: Word) -> (op: OpCode) {
        OpCode::decode(w)
    }
}

impl vstd::std_specs::convert::FromSpecImpl<Word> for OpCode {
    open spec fn obeys_from_spec() -> bool {
        true
    }

    open spec fn from_spec(w: Word) -> OpCode {
        decoded(w)
    }
}

} // verus!
