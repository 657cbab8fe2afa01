//! Machine state: memory, registers, control registers, timers and keypad.
use vstd::prelude::*;

verus! {

/// An instruction word.
pub type Word = u16;

pub type Byte = u8;

pub type Address = u16;

pub type RegisterIndex = usize;

/// A platform key code.
pub type Key = u32;

/// Whether the machine was halted when a key was seen.
pub type Waiting = bool;

/// Bytes of addressable memory.
pub const NUM_BYTES: usize = 4096;

/// General-purpose registers; the last one doubles as the flag register.
pub const NUM_REGISTERS: usize = 16;

/// Slots of the return-address stack.
pub const STACK_SIZE: usize = 48;

/// Keys of the keypad.
pub const NUM_KEYS: usize = 16;

/// Address at which a program image is loaded and execution starts.
pub const PROGRAM_START: u16 = 0x200;

/// Index of the register that receives carry, borrow and shifted-out bits.
pub const FLAG_REGISTER: usize = 0xF;

/// Value recorded as the last key when a key code maps to no keypad key.
pub const NO_KEY: u8 = 0xFF;

/// The mathematical model of a machine.
pub ghost struct MachineState {
    pub memory: Seq<u8>,
    pub registers: Seq<u8>,
    pub pc: u16,
    pub index: u16,
    pub stack: Seq<u16>,
    pub sp: u8,
    pub delay_timer: u8,
    pub sound_timer: u8,
    pub keys: Seq<bool>,
    pub last_key_pressed: (u8, bool),
    pub stopped: bool,
}

impl MachineState {
    /// The sizes of the fixed-size parts, and the stack pointer in bounds.
    pub open spec fn wf(self) -> bool {
        &&& self.memory.len() == NUM_BYTES
        &&& self.registers.len() == NUM_REGISTERS
        &&& self.stack.len() == STACK_SIZE
        &&& self.keys.len() == NUM_KEYS
        &&& self.sp <= STACK_SIZE
    }

    /// A machine as it is created: all zero, with `pc` at the program start.
    pub open spec fn initial() -> MachineState {
        MachineState {
            memory: Seq::new(NUM_BYTES as nat, |i: int| 0u8),
            registers: Seq::new(NUM_REGISTERS as nat, |i: int| 0u8),
            pc: PROGRAM_START,
            index: 0,
            stack: Seq::new(STACK_SIZE as nat, |i: int| 0u16),
            sp: 0,
            delay_timer: 0,
            sound_timer: 0,
            keys: Seq::new(NUM_KEYS as nat, |i: int| false),
            last_key_pressed: (NO_KEY, false),
            stopped: false,
        }
    }
}

/// Largest program image that fits in memory above the program start.
pub const MAX_ROM_SIZE: usize = 3584;

/// Why a program image could not be loaded.
#[derive(Clone, Copy, Debug, PartialEq, Eq, Structural)]
pub enum LoadError {
    /// The image does not fit in memory above the program start.
    TooLarge,
}

/// Whether a key went down or up.
#[derive(Clone, Copy, Debug, PartialEq, Eq, Structural)]
pub enum KeyEventType {
    KeyPress,
    KeyRelease,
}

/// A machine: all interpreter state, changed only through its methods.
#[derive(Clone, Debug)]
pub struct System {
    memory: Vec<Byte>,
    registers: Vec<Byte>,
    pc: Word,
    index: Word,
    stack: Vec<Word>,
    sp: Byte,
    delay_timer: Byte,
    sound_timer: Byte,
    keys: Vec<bool>,
    last_key: Byte,
    last_key_waiting: Waiting,
    stopped: bool,
}

impl View for System {
    type V = MachineState;

    closed spec fn view(&self) -> MachineState {
        MachineState {
            memory: self.memory@,
            registers: self.registers@,
            pc: self.pc,
            index: self.index,
            stack: self.stack@,
            sp: self.sp,
            delay_timer: self.delay_timer,
            sound_timer: self.sound_timer,
            keys: self.keys@,
            last_key_pressed: (self.last_key, self.last_key_waiting),
            stopped: self.stopped,
        }
    }
}

impl System {
    /// The fixed-size parts have their sizes and the stack pointer is in bounds.
    pub open spec fn wf(&self) -> bool {
        self@.wf()
    }

    /// Creates a new System.
    pub fn new() -> (s: Self)
        ensures
            s.wf(),
            s@ == MachineState::initial(),
    {
        let s = System {
            memory: vec![0; NUM_BYTES],
            registers: vec![0; NUM_REGISTERS],
            pc: PROGRAM_START,
            index: 0,
            stack: vec![0; STACK_SIZE],
            sp: 0,
            delay_timer: 0,
            sound_timer: 0,
            keys: vec![false; NUM_KEYS],
            last_key: NO_KEY,
            last_key_waiting: false,
            stopped: false,
        };
        assert(s.memory@ =~= MachineState::initial().memory);
        assert(s.registers@ =~= MachineState::initial().registers);
        assert(s.stack@ =~= MachineState::initial().stack);
        assert(s.keys@ =~= MachineState::initial().keys);
        s
    }

    /// Creates a new System with `rom` copied into memory from the program
    /// start on. Fails when the image does not fit.
    pub fn from_rom(rom: &[Byte]) -> (r: Result<Self, LoadError>)
        ensures
            rom@.len() <= MAX_ROM_SIZE <==> r is Ok,
            r matches Ok(s) ==> s.wf() && s@ == (MachineState {
                memory: loaded_memory(rom@),
                ..MachineState::initial()
            }),
            r matches Err(e) ==> e == LoadError::TooLarge,
    {
        if rom.len() > MAX_ROM_SIZE {
            return Err(LoadError::TooLarge);
        }
        let mut system = System::new();
        let mut i: usize = 0;
        while i < rom.len()
            invariant
                rom@.len() <= MAX_ROM_SIZE,
                i <= rom@.len(),
                system.wf(),
                system@ == (MachineState { memory: system@.memory, ..MachineState::initial() }),
                forall|a: int|
                    0 <= a < NUM_BYTES ==> #[trigger] system@.memory[a] == if PROGRAM_START <= a
                        < PROGRAM_START + i {
                        rom@[a - PROGRAM_START]
                    } else {
                        0u8
                    },
            decreases rom@.len() - i,
        {
            system.memory.set(PROGRAM_START as usize + i, rom[i]);
            i = i + 1;
        }
        assert(system@.memory =~= loaded_memory(rom@));
        Ok(system)
    }

    /// Index into system memory at address and return word located there:
    /// the byte at `address` is the high half.
    pub fn read_word(&self, address: usize) -> (w: Word)
        requires
            self.wf(),
            address + 1 < NUM_BYTES,
        ensures
            w == self@.memory[address as int] * 256 + self@.memory[address + 1],
    {
        let left = self.memory[address] as Word;
        let right = self.memory[address + 1] as Word;
        assert((left << 8) | right == left * 256 + right) by (bit_vector)
            requires
                left < 256,
                right < 256,
        ;
        (left << 8) | right
    }

    /// The byte at `address`.
    pub fn read_byte(&self, address: usize) -> (b: Byte)
        requires
            self.wf(),
            address < NUM_BYTES,
        ensures
            b == self@.memory[address as int],
    {
        self.memory[address]
    }

    /// Stores `value` at `address`.
    pub fn write_byte(&mut self, address: usize, value: Byte)
        requires
            old(self).wf(),
            address < NUM_BYTES,
        ensures
            final(self)@ == (MachineState {
                memory: old(self)@.memory.update(address as int, value),
                ..old(self)@
            }),
    {
        self.memory.set(address, value);
    }

    /// Handles key input: the key code's keypad key, if it has one, goes down
    /// or up, and the keypad key is recorded as the last one seen, with
    /// whether the system was halted.
    pub fn handle_input(&mut self, key: Key, event_type: KeyEventType)
        requires
            old(self).wf(),
        ensures
            final(self)@ == (MachineState {
                keys: if keypad_of(key) < NUM_KEYS {
                    old(self)@.keys.update(keypad_of(key) as int, event_type is KeyPress)
                } else {
                    old(self)@.keys
                },
                last_key_pressed: (keypad_of(key), old(self)@.stopped),
                ..old(self)@
            }),
    {
        let state = match event_type {
            KeyEventType::KeyPress => true,
            KeyEventType::KeyRelease => false,
        };
        let value = keypad_index(key);
        if (value as usize) < NUM_KEYS {
            self.set_key(value as usize, state);
        }
        self.last_key = value;
        self.last_key_waiting = self.stopped;
    }

    /// Halt execution of the system.
    pub fn stop(&mut self)
        ensures
            final(self)@ == (MachineState { stopped: true, ..old(self)@ }),
    {
        self.stopped = true;
    }

    /// Start execution of the system.
    pub fn start(&mut self)
        ensures
            final(self)@ == (MachineState { stopped: false, ..old(self)@ }),
    {
        self.stopped = false;
    }

    /// Whether the system is halted.
    pub fn is_stopped(&self) -> (r: bool)
        ensures
            r == self@.stopped,
    {
        self.stopped
    }

    /// The value of register `r`.
    pub fn register(&self, r: RegisterIndex) -> (v: Byte)
        requires
            self.wf(),
            r < NUM_REGISTERS,
        ensures
            v == self@.registers[r as int],
    {
        self.registers[r]
    }

    /// Sets register `r` to `v`.
    pub fn set_register(&mut self, r: RegisterIndex, v: Byte)
        requires
            old(self).wf(),
            r < NUM_REGISTERS,
        ensures
            final(self)@ == (MachineState {
                registers: old(self)@.registers.update(r as int, v),
                ..old(self)@
            }),
    {
        self.registers.set(r, v);
    }

    /// The program counter.
    pub fn pc(&self) -> (r: Word)
        ensures
            r == self@.pc,
    {
        self.pc
    }

    /// Sets the program counter.
    pub fn set_pc(&mut self, pc: Word)
        ensures
            final(self)@ == (MachineState { pc: pc, ..old(self)@ }),
    {
        self.pc = pc;
    }

    /// Increment the program counter for this system by one instruction
    /// width, wrapping at the top of the 16-bit range.
    pub fn increment_pc(&mut self)
        ensures
            final(self)@ == (MachineState { pc: advanced(old(self)@.pc), ..old(self)@ }),
    {
        self.pc = self.pc.wrapping_add(2);
    }

    /// The index register.
    pub fn index(&self) -> (r: Word)
        ensures
            r == self@.index,
    {
        self.index
    }

    /// The stack pointer: the next free slot of the stack.
    pub fn sp(&self) -> (r: Byte)
        ensures
            r == self@.sp,
    {
        self.sp
    }

    /// The return address held in stack slot `i`.
    pub fn stack_entry(&self, i: usize) -> (r: Word)
        requires
            self.wf(),
            i < STACK_SIZE,
        ensures
            r == self@.stack[i as int],
    {
        self.stack[i]
    }

    /// Pushes `address` on the return-address stack.
    pub fn push_return(&mut self, address: Word)
        requires
            old(self).wf(),
            old(self)@.sp < STACK_SIZE,
        ensures
            final(self)@ == (MachineState {
                stack: old(self)@.stack.update(old(self)@.sp as int, address),
                sp: (old(self)@.sp + 1) as u8,
                ..old(self)@
            }),
    {
        self.stack.set(self.sp as usize, address);
        self.sp = self.sp + 1;
    }

    /// Pops the most recent return address off the stack.
    pub fn pop_return(&mut self) -> (address: Word)
        requires
            old(self).wf(),
            old(self)@.sp > 0,
        ensures
            address == old(self)@.stack[old(self)@.sp - 1],
            final(self)@ == (MachineState { sp: (old(self)@.sp - 1) as u8, ..old(self)@ }),
    {
        self.sp = self.sp - 1;
        self.stack[self.sp as usize]
    }

    /// The delay timer.
    pub fn delay_timer(&self) -> (r: Byte)
        ensures
            r == self@.delay_timer,
    {
        self.delay_timer
    }

    /// Sets the delay timer.
    pub fn set_delay_timer(&mut self, v: Byte)
        ensures
            final(self)@ == (MachineState { delay_timer: v, ..old(self)@ }),
    {
        self.delay_timer = v;
    }

    /// The sound timer.
    pub fn sound_timer(&self) -> (r: Byte)
        ensures
            r == self@.sound_timer,
    {
        self.sound_timer
    }

    /// Sets the sound timer.
    pub fn set_sound_timer(&mut self, v: Byte)
        ensures
            final(self)@ == (MachineState { sound_timer: v, ..old(self)@ }),
    {
        self.sound_timer = v;
    }

    /// Whether keypad key `index` is held down.
    pub fn key(&self, index: usize) -> (r: bool)
        requires
            self.wf(),
            index < NUM_KEYS,
        ensures
            r == self@.keys[index as int],
    {
        self.keys[index]
    }

    /// Set key at specified index.
    pub fn set_key(&mut self, index: usize, state: bool)
        requires
            old(self).wf(),
            index < NUM_KEYS,
        ensures
            final(self)@ == (MachineState {
                keys: old(self)@.keys.update(index as int, state),
                ..old(self)@
            }),
    {
        self.keys.set(index, state);
    }

    /// The last keypad key seen, and whether the system was halted then.
    pub fn last_key_pressed(&self) -> (r: (Byte, Waiting))
        ensures
            r == self@.last_key_pressed,
    {
        (self.last_key, self.last_key_waiting)
    }
}

/// The keypad key that a key code stands for, or `NO_KEY`. The codes are
/// those of the characters on a 4x4 block of a keyboard.
pub open spec fn keypad_of(key: Key) -> Byte {
    match key {
        49 => 0x1,  // 1
        50 => 0x2,  // 2
        51 => 0x3,  // 3
        52 => 0xC,  // 4
        113 => 0x4,  // Q
        119 => 0x5,  // W
        101 => 0x6,  // E
        114 => 0xD,  // R
        97 => 0x7,  // A
        115 => 0x8,  // S
        100 => 0x9,  // D
        102 => 0xE,  // F
        122 => 0xA,  // Z
        120 => 0x0,  // X
        99 => 0xB,  // C
        118 => 0xF,  // V
        _ => NO_KEY,
    }
}

/// Maps a key code to its keypad key, or to `NO_KEY`.
pub fn keypad_index(key: Key) -> (r: Byte)
    ensures
        r == keypad_of(key),
        r == NO_KEY || r < NUM_KEYS,
{
    match key {
        49 => 0x1,
        50 => 0x2,
        51 => 0x3,
        52 => 0xC,
        113 => 0x4,
        119 => 0x5,
        101 => 0x6,
        114 => 0xD,
        97 => 0x7,
        115 => 0x8,
        100 => 0x9,
        102 => 0xE,
        122 => 0xA,
        120 => 0x0,
        99 => 0xB,
        118 => 0xF,
        _ => NO_KEY,
    }
}

/// The memory of a machine loaded with `rom`: the image at the program
/// start, zero elsewhere.
pub open spec fn loaded_memory(rom: Seq<u8>) -> Seq<u8> {
    Seq::new(
        NUM_BYTES as nat,
        |i: int|
            if PROGRAM_START <= i < PROGRAM_START + rom.len() {
                rom[i - PROGRAM_START]
            } else {
                0u8
            },
    )
}

/// The program counter one instruction width further on.
pub open spec fn advanced(pc: u16) -> u16 {
    ((pc + 2) % 0x10000) as u16
}

} // verus!
