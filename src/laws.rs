//! Properties that relate the decoder, the executor and the machine model.
use vstd::prelude::*;

use crate::machine::{advanced, MachineState, RegisterIndex, FLAG_REGISTER, NUM_REGISTERS, STACK_SIZE};
use crate::opcode::{next, outcome, ExecError, OpCode, Step, MAX_ADDRESS};

verus! {

/// Setting register `r` to `v` leaves `v` in `r` and every other register as
/// it was.
pub proof fn law_set_value(s: MachineState, r: RegisterIndex, v: u8, noise: u8)
    requires
        s.wf(),
        r < NUM_REGISTERS,
    ensures
        outcome(s, OpCode::SetValue(r, v)) == Ok::<Step, ExecError>(Step::Done),
        next(s, OpCode::SetValue(r, v), noise).registers[r as int] == v,
        forall|i: int|
            0 <= i < NUM_REGISTERS && i != r ==> #[trigger] next(
                s,
                OpCode::SetValue(r, v),
                noise,
            ).registers[i] == s.registers[i],
{
}

/// Adding register `y` into register `x` leaves `(a + b) mod 256` in `x`,
/// unless `x` is the flag register, and sets the flag register to 1 exactly
/// when `a + b` reaches 256, else to 0.
pub proof fn law_add_register(s: MachineState, x: RegisterIndex, y: RegisterIndex, noise: u8)
    requires
        s.wf(),
        x < NUM_REGISTERS,
        y < NUM_REGISTERS,
    ensures
        ({
            let (a, b) = (s.registers[x as int], s.registers[y as int]);
            let t = next(s, OpCode::AddRegister(x, y), noise);
            &&& x != FLAG_REGISTER ==> t.registers[x as int] == (a + b) % 256
            &&& t.registers[FLAG_REGISTER as int] == if a + b >= 256 { 1u8 } else { 0u8 }
        }),
{
}

/// Both subtractions leave `(a - b) mod 256` in their target register, unless
/// it is the flag register, and set the flag register to 1 exactly when
/// `a < b` (a borrow), else to 0. For `SubRegisterRight(x, y)` the target is
/// `x`, `a` is register `x` and `b` register `y`; for `SubRegisterLeft(x, y)`
/// the target is `y`, `a` is register `y` and `b` register `x`.
pub proof fn law_subtract(s: MachineState, x: RegisterIndex, y: RegisterIndex, noise: u8)
    requires
        s.wf(),
        x < NUM_REGISTERS,
        y < NUM_REGISTERS,
    ensures
        ({
            let (a, b) = (s.registers[x as int], s.registers[y as int]);
            let t = next(s, OpCode::SubRegisterRight(x, y), noise);
            &&& x != FLAG_REGISTER ==> t.registers[x as int] == (a - b) % 256
            &&& t.registers[FLAG_REGISTER as int] == if a < b { 1u8 } else { 0u8 }
        }),
        ({
            let (a, b) = (s.registers[y as int], s.registers[x as int]);
            let t = next(s, OpCode::SubRegisterLeft(x, y), noise);
            &&& y != FLAG_REGISTER ==> t.registers[y as int] == (a - b) % 256
            &&& t.registers[FLAG_REGISTER as int] == if a < b { 1u8 } else { 0u8 }
        }),
{
}

/// The shifts leave register `y` shifted by one bit in register `x`, unless
/// `x` is the flag register, and put the bit shifted out in the flag
/// register: the least bit for a right shift, the most bit for a left shift.
pub proof fn law_shift(s: MachineState, x: RegisterIndex, y: RegisterIndex, noise: u8)
    requires
        s.wf(),
        x < NUM_REGISTERS,
        y < NUM_REGISTERS,
    ensures
        ({
            let v = s.registers[y as int];
            let t = next(s, OpCode::RShiftRegister(x, y), noise);
            &&& x != FLAG_REGISTER ==> t.registers[x as int] == v >> 1u8
            &&& t.registers[FLAG_REGISTER as int] == v & 1u8
        }),
        ({
            let v = s.registers[y as int];
            let t = next(s, OpCode::LShiftRegister(x, y), noise);
            &&& x != FLAG_REGISTER ==> t.registers[x as int] == v << 1u8
            &&& t.registers[FLAG_REGISTER as int] == v >> 7u8
        }),
{
    let v = s.registers[y as int];
    assert(v >> 1u8 == v / 2 && v & 1u8 == v % 2) by (bit_vector);
    assert(v << 1u8 == ((v * 2) % 256) as u8 && v >> 7u8 == v / 128) by (bit_vector);
}

/// A call followed by a return succeeds whenever a stack slot is free, and
/// gives back the machine as it was before the call, but for the stack slot
/// that the call filled: the same `pc` and the same `sp`.
pub proof fn law_call_return(s: MachineState, address: u16, noise1: u8, noise2: u8)
    requires
        s.wf(),
        s.sp < STACK_SIZE,
        address <= MAX_ADDRESS,
    ensures
        ({
            let t = next(s, OpCode::SubJump(address), noise1);
            let u = next(t, OpCode::SubReturn, noise2);
            &&& outcome(s, OpCode::SubJump(address)) == Ok::<Step, ExecError>(Step::Done)
            &&& outcome(t, OpCode::SubReturn) == Ok::<Step, ExecError>(Step::Done)
            &&& t.pc == address
            &&& u.pc == s.pc
            &&& u.sp == s.sp
            &&& u == (MachineState { stack: s.stack.update(s.sp as int, s.pc), ..s })
        }),
{
}

/// `SkipValue(r, v)` moves `pc` on by one instruction width exactly when
/// register `r` holds `v`, and `SkipNotValue(r, v)` exactly when it does not;
/// neither changes anything else.
pub proof fn law_skip(s: MachineState, r: RegisterIndex, v: u8, noise: u8)
    requires
        s.wf(),
        r < NUM_REGISTERS,
    ensures
        next(s, OpCode::SkipValue(r, v), noise) == (MachineState {
            pc: if s.registers[r as int] == v { advanced(s.pc) } else { s.pc },
            ..s
        }),
        next(s, OpCode::SkipNotValue(r, v), noise) == (MachineState {
            pc: if s.registers[r as int] != v { advanced(s.pc) } else { s.pc },
            ..s
        }),
{
}

} // verus!
