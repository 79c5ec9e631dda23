use crate::display::{blank_grid, grid_wf, Display};
use crate::opcodes::{decode_spec, instr_post, instr_req, op_supported, OpCodeData, OpCodeReader};
use crate::opcodes::{
    AddIndexRegister, AddRegisterConst, AddRegisters, BinaryAnd, BinaryOr, BinaryXor, ClearScreen,
    DecimalDecoding, DisplayDraw, GetKey, Jump, JumpOffset, LoadMemory, Random, ReadDelayTimer,
    ReadFontCharacter, SetDelayTimer, SetIndexRegister, SetRegisterConst, SetRegisterRegister,
    SetSoundTimer, ShiftRegisterLeft, ShiftRegisterRight, SkipConstEqual, SkipConstNotEqual,
    SkipIfKey, SkipIfNotKey, SkipRegistersEqual, SkipRegistersNotEqual, StoreMemory,
    SubroutineCall, SubroutineReturn, SubtractRegisters, SubtractRegistersReverse,
};
use crate::program::{Program, PROGRAM_START};
use byteorder::ByteOrder;
use std::collections::VecDeque;
use vstd::arithmetic::div_mod::lemma_fundamental_div_mod_converse;
use vstd::prelude::*;

verus! {

/// Number of addressable memory bytes.
pub const MEMORY_SIZE: usize = 4096;

/// Number of general-purpose registers.
pub const NUM_REGISTERS: usize = 16;

/// Number of keypad keys.
pub const NUM_KEYS: usize = 16;

/// Milliseconds between two timer decrements: the ~60 Hz decay period,
/// rounded up to a whole number of milliseconds.
pub const DECREMENT_PERIOD_MS: u64 = 17;

/// A 16-bit address value, as held in the program counter and the index
/// register. Arithmetic on it wraps at 16 bits, not at the 12 bits of the
/// architectural address space.
#[derive(Debug, Clone, Copy, PartialEq, Eq, Hash, PartialOrd, Ord, Structural)]
pub struct Address(pub u16);

/// An 8-bit register value.
#[derive(Debug, Clone, Copy, PartialEq, Eq, Hash, PartialOrd, Ord, Structural)]
pub struct Register(pub u8);

/// A snapshot of the sixteen keypad key states, pressed or not, supplied by
/// the host once per step.
#[derive(Debug, Clone, PartialEq, Eq)]
pub struct KeyInput {
    pub key_state: Vec<bool>,
}

impl View for KeyInput {
    type V = Seq<bool>;

    open spec fn view(&self) -> Seq<bool> {
        self.key_state@
    }
}

impl KeyInput {
    /// A well-formed snapshot covers every key exactly once.
    pub open spec fn wf(&self) -> bool {
        self@.len() == NUM_KEYS
    }

    /// A snapshot with no key pressed.
    pub fn new() -> (k: KeyInput)
        ensures
            k.wf(),
            k@ == Seq::new(NUM_KEYS as nat, |i: int| false),
    {
        let keys = filled(NUM_KEYS, false);
        KeyInput { key_state: keys }
    }

    /// The same snapshot with key `key` marked pressed.
    pub fn with_key_pressed(self, key: u8) -> (k: KeyInput)
        requires
            key < NUM_KEYS,
            self.wf(),
        ensures
            k.wf(),
            k@ == self@.update(key as int, true),
    {
        let mut k = self;
        k.key_state[key as usize] = true;
        k
    }
}

impl Default for KeyInput {
    /// A snapshot with no key pressed.
    fn default() -> (k: KeyInput)
        ensures
            k.wf(),
            k@ == Seq::new(NUM_KEYS as nat, |i: int| false),
    {
        KeyInput::new()
    }
}

/// Failure of one emulation step.
#[derive(Debug, Clone, PartialEq, Eq, Structural)]
pub enum Error {
    /// The fetched opcode matches no supported instruction; carries the raw
    /// opcode.
    UnsupportedOpcode(u16),
}

/// The mathematical model of the machine state: every component as a plain
/// value or a sequence.
#[verifier::ext_equal]
pub ghost struct StateModel {
    pub memory: Seq<u8>,
    pub grid: Seq<Seq<bool>>,
    pub pc: u16,
    pub stack: Seq<u16>,
    pub index: u16,
    pub delay: u8,
    pub delay_acc: u64,
    pub sound: u8,
    pub sound_acc: u64,
    pub regs: Seq<u8>,
    pub keys: Seq<bool>,
}

/// The full state of the emulated machine: memory, display, program counter,
/// return stack, index register, the two decaying timers with their decay
/// accumulators (milliseconds since the last decrement), the sixteen
/// general-purpose registers, and the last key snapshot.
#[derive(Debug, Clone, PartialEq, Eq)]
pub struct Chip8State {
    pub memory: Vec<u8>,
    pub display: Display,
    pub pc: Address,
    pub stack: VecDeque<Address>,
    pub index_register: Address,
    pub delay_timer: Register,
    pub since_last_delay_update: u64,
    pub sound_timer: Register,
    pub since_last_sound_update: u64,
    pub gp_registers: Vec<Register>,
    pub key_state: KeyInput,
}

impl View for Chip8State {
    type V = StateModel;

    open spec fn view(&self) -> StateModel {
        StateModel {
            memory: self.memory@,
            grid: self.display@,
            pc: self.pc.0,
            stack: Seq::new(self.stack@.len(), |i: int| self.stack@[i].0),
            index: self.index_register.0,
            delay: self.delay_timer.0,
            delay_acc: self.since_last_delay_update,
            sound: self.sound_timer.0,
            sound_acc: self.since_last_sound_update,
            regs: Seq::new(self.gp_registers@.len(), |i: int| self.gp_registers@[i].0),
            keys: self.key_state@,
        }
    }
}

/// The state of a machine as created: zeroed memory and registers, blank
/// display, empty stack, no key pressed.
pub open spec fn initial_state() -> StateModel {
    StateModel {
        memory: Seq::new(MEMORY_SIZE as nat, |i: int| 0u8),
        grid: blank_grid(),
        pc: 0,
        stack: Seq::empty(),
        index: 0,
        delay: 0,
        delay_acc: 0,
        sound: 0,
        sound_acc: 0,
        regs: Seq::new(NUM_REGISTERS as nat, |i: int| 0u8),
        keys: Seq::new(NUM_KEYS as nat, |i: int| false),
    }
}

/// A well-formed machine state model: full-size memory, register file, key
/// snapshot and pixel grid, and timer accumulators strictly inside one decay
/// period.
pub open spec fn model_wf(s: StateModel) -> bool {
    &&& s.memory.len() == MEMORY_SIZE
    &&& grid_wf(s.grid)
    &&& s.regs.len() == NUM_REGISTERS
    &&& s.keys.len() == NUM_KEYS
    &&& s.delay_acc < DECREMENT_PERIOD_MS
    &&& s.sound_acc < DECREMENT_PERIOD_MS
}

/// The memory image `m` with the bytes of `b` written starting at `at`.
pub open spec fn spliced(m: Seq<u8>, at: int, b: Seq<u8>) -> Seq<u8> {
    Seq::new(
        m.len(),
        |i: int|
            if at <= i < at + b.len() {
                b[i - at]
            } else {
                m[i]
            },
    )
}

/// Builds a vector of `n` copies of `val`.
fn filled<T: Copy>(n: usize, val: T) -> (v: Vec<T>)
    ensures
        v@ == Seq::new(n as nat, |i: int| val),
{
    let mut v: Vec<T> = Vec::new();
    let mut i: usize = 0;
    while i < n
        invariant
            i <= n,
            v@.len() == i,
            forall|j: int| 0 <= j < i ==> v@[j] == val,
        decreases n - i,
    {
        v.push(val);
        i = i + 1;
    }
    assert(v@ =~= Seq::new(n as nat, |i: int| val));
    v
}

impl Chip8State {
    /// A well-formed state: full-size memory, register file, key snapshot and
    /// pixel grid, and timer accumulators strictly inside one decay period.
    pub open spec fn wf(&self) -> bool {
        model_wf(self@)
    }

    /// A machine state as first powered on.
    pub fn new() -> (s: Chip8State)
        ensures
            s.wf(),
            s@ == initial_state(),
    {
        let s = Chip8State {
            memory: filled(MEMORY_SIZE, 0u8),
            display: Display::default(),
            pc: Address(0),
            stack: VecDeque::new(),
            index_register: Address(0),
            delay_timer: Register(0),
            since_last_delay_update: 0,
            sound_timer: Register(0),
            since_last_sound_update: 0,
            gp_registers: filled(NUM_REGISTERS, Register(0)),
            key_state: KeyInput::new(),
        };
        assert(s@ =~~= initial_state());
        s
    }

    /// The same state with the display replaced.
    pub fn with_display(self, display: Display) -> (r: Chip8State)
        ensures
            r@ == (StateModel { grid: display@, ..self@ }),
    {
        let r = Chip8State { display, ..self };
        assert(r@ =~~= (StateModel { grid: r.display@, ..self@ }));
        r
    }

    /// The same state with the program counter replaced.
    pub fn with_pc(self, pc: Address) -> (r: Chip8State)
        ensures
            r@ == (StateModel { pc: pc.0, ..self@ }),
    {
        let r = Chip8State { pc, ..self };
        assert(r@ =~~= (StateModel { pc: pc.0, ..self@ }));
        r
    }

    /// The same state with the return stack replaced.
    pub fn with_stack(self, stack: VecDeque<Address>) -> (r: Chip8State)
        ensures
            r@ == (StateModel {
                stack: Seq::new(stack@.len(), |i: int| stack@[i].0),
                ..self@
            }),
    {
        let r = Chip8State { stack, ..self };
        assert(r@ =~~= (StateModel {
            stack: Seq::new(r.stack@.len(), |i: int| r.stack@[i].0),
            ..self@
        }));
        r
    }

    /// The same state with the index register replaced.
    pub fn with_index_register(self, index: Address) -> (r: Chip8State)
        ensures
            r@ == (StateModel { index: index.0, ..self@ }),
    {
        let r = Chip8State { index_register: index, ..self };
        assert(r@ =~~= (StateModel { index: index.0, ..self@ }));
        r
    }

    /// The same state with the delay timer value replaced; the decay
    /// accumulator is untouched.
    pub fn with_delay_timer(self, delay_timer: Register) -> (r: Chip8State)
        ensures
            r@ == (StateModel { delay: delay_timer.0, ..self@ }),
    {
        let r = Chip8State { delay_timer, ..self };
        assert(r@ =~~= (StateModel { delay: delay_timer.0, ..self@ }));
        r
    }

    /// The same state with the sound timer value replaced; the decay
    /// accumulator is untouched.
    pub fn with_sound_timer(self, sound_timer: Register) -> (r: Chip8State)
        ensures
            r@ == (StateModel { sound: sound_timer.0, ..self@ }),
    {
        let r = Chip8State { sound_timer, ..self };
        assert(r@ =~~= (StateModel { sound: sound_timer.0, ..self@ }));
        r
    }

    /// The same state with one general-purpose register replaced.
    pub fn with_register(self, register: Register, index: u8) -> (r: Chip8State)
        requires
            index < NUM_REGISTERS,
            self@.regs.len() == NUM_REGISTERS,
        ensures
            r@ == (StateModel { regs: self@.regs.update(index as int, register.0), ..self@ }),
    {
        let ghost pre = self@;
        let mut s = self;
        s.gp_registers[index as usize] = register;
        proof {
            assert(s@.regs =~= pre.regs.update(index as int, register.0));
            assert(s@ =~~= (StateModel { regs: pre.regs.update(index as int, register.0), ..pre }));
        }
        s
    }

    /// The same state with `bytes` written to memory starting at `start`.
    pub fn with_memory_set(self, bytes: &[u8], start: Address) -> (r: Chip8State)
        requires
            self.wf(),
            start.0 + bytes@.len() <= MEMORY_SIZE,
        ensures
            r@ == (StateModel { memory: spliced(self@.memory, start.0 as int, bytes@), ..self@ }),
    {
        let mut s = self;
        s.memory_set(bytes, start);
        s
    }

    /// The same state with key `key` marked pressed in the key snapshot.
    pub fn with_key_pressed(self, key: u8) -> (r: Chip8State)
        requires
            key < NUM_KEYS,
            self@.keys.len() == NUM_KEYS,
        ensures
            r@ == (StateModel { keys: self@.keys.update(key as int, true), ..self@ }),
    {
        let ghost pre = self@;
        let mut s = self;
        let keys = s.key_state.with_key_pressed(key);
        s.key_state = keys;
        proof {
            assert(s@ =~~= (StateModel { keys: pre.keys.update(key as int, true), ..pre }));
        }
        s
    }

    /// Whether key `key` is pressed in the current snapshot.
    pub fn is_pressed(&self, key: u8) -> (r: bool)
        requires
            key < NUM_KEYS,
            self@.keys.len() == NUM_KEYS,
        ensures
            r == self@.keys[key as int],
    {
        self.key_state.key_state[key as usize]
    }

    /// Writes `bytes` to memory starting at `start`. Writing past the last
    /// byte of memory is a usage error and is excluded by precondition.
    pub fn memory_set(&mut self, bytes: &[u8], start: Address)
        requires
            old(self).wf(),
            start.0 + bytes@.len() <= MEMORY_SIZE,
        ensures
            final(self).wf(),
            final(self)@ == (StateModel {
                memory: spliced(old(self)@.memory, start.0 as int, bytes@),
                ..old(self)@
            }),
    {
        let ghost pre = self@;
        let at: usize = start.0 as usize;
        let n: usize = bytes.len();
        let mut k: usize = 0;
        while k < n
            invariant
                pre == old(self)@,
                old(self).wf(),
                k <= n,
                n == bytes@.len(),
                at == start.0 as int,
                at + n <= MEMORY_SIZE,
                self.memory@ == spliced(pre.memory, at as int, bytes@.subrange(0, k as int)),
                self@ == (StateModel {
                    memory: self.memory@,
                    ..pre
                }),
            decreases n - k,
        {
            let b: u8 = *vstd::slice::slice_index_get(bytes, k);
            self.memory[at + k] = b;
            proof {
                assert(self.memory@ =~= spliced(pre.memory, at as int, bytes@.subrange(0, k + 1)));
                assert(self@ =~~= (StateModel { memory: self.memory@, ..pre }));
            }
            k = k + 1;
        }
        proof {
            assert(bytes@.subrange(0, n as int) =~= bytes@);
            assert(self@ =~~= (StateModel {
                memory: spliced(pre.memory, start.0 as int, bytes@),
                ..pre
            }));
        }
    }

    /// The value of general-purpose register `index`.
    pub fn gp_register(&self, index: u8) -> (r: Register)
        requires
            index < NUM_REGISTERS,
            self@.regs.len() == NUM_REGISTERS,
        ensures
            r.0 == self@.regs[index as int],
    {
        self.gp_registers[index as usize]
    }

    /// Sets general-purpose register `index` to `value`.
    pub fn set_gp_register(&mut self, index: u8, value: Register)
        requires
            index < NUM_REGISTERS,
            old(self)@.regs.len() == NUM_REGISTERS,
        ensures
            final(self)@ == (StateModel {
                regs: old(self)@.regs.update(index as int, value.0),
                ..old(self)@
            }),
    {
        let ghost pre = self@;
        self.gp_registers[index as usize] = value;
        proof {
            assert(self@.regs =~= pre.regs.update(index as int, value.0));
            assert(self@ =~~= (StateModel { regs: pre.regs.update(index as int, value.0), ..pre }));
        }
    }
}

/// The value of a timer register `t` with `acc` milliseconds already
/// accumulated, after `delta` more milliseconds: one decrement per full decay
/// period, stopping at zero. A timer already at zero does not change.
pub open spec fn timer_value_after(t: u8, acc: u64, delta: u64) -> u8 {
    if t == 0 {
        t
    } else if (acc + delta) / (DECREMENT_PERIOD_MS as int) < t {
        (t - (acc + delta) / (DECREMENT_PERIOD_MS as int)) as u8
    } else {
        0
    }
}

/// The decay accumulator that goes with [`timer_value_after`]: the remainder
/// of the accumulated time, or zero once the timer has drained to zero.
pub open spec fn timer_acc_after(t: u8, acc: u64, delta: u64) -> u64 {
    if t == 0 {
        acc
    } else if (acc + delta) / (DECREMENT_PERIOD_MS as int) < t {
        ((acc + delta) % (DECREMENT_PERIOD_MS as int)) as u64
    } else {
        0
    }
}

/// Advances one timer register by `time_delta` milliseconds of wall time,
/// decrementing it once per full decay period and keeping the remainder in
/// `since_last_update`. When the decay would take the register past zero it
/// stops at zero and the accumulator resets.
pub fn update_timer(register: &mut Register, since_last_update: &mut u64, time_delta: u64)
    requires
        *old(since_last_update) + time_delta <= u64::MAX,
    ensures
        final(register).0 == timer_value_after(
            old(register).0,
            *old(since_last_update),
            time_delta,
        ),
        *final(since_last_update) == timer_acc_after(
            old(register).0,
            *old(since_last_update),
            time_delta,
        ),
{
    if register.0 > 0 {
        let total: u64 = *since_last_update + time_delta;
        let ghost t0 = register.0;
        let mut new_acc: u64 = total;
        while new_acc >= DECREMENT_PERIOD_MS
            invariant
                t0 == old(register).0,
                total == *old(since_last_update) + time_delta,
                *since_last_update == *old(since_last_update),
                1 <= register.0 <= t0,
                new_acc == total - DECREMENT_PERIOD_MS * (t0 - register.0),
            decreases new_acc,
        {
            if register.0 > 1 {
                register.0 = register.0 - 1;
                new_acc = new_acc - DECREMENT_PERIOD_MS;
            } else {
                register.0 = 0;
                *since_last_update = 0;
                proof {
                    let d = (t0 - 1) as int;
                    assert(total as int >= DECREMENT_PERIOD_MS * d + DECREMENT_PERIOD_MS);
                    assert(total as int >= DECREMENT_PERIOD_MS * t0) by (nonlinear_arith)
                        requires
                            total as int >= DECREMENT_PERIOD_MS * d + DECREMENT_PERIOD_MS,
                            d == t0 - 1,
                    ;
                    assert((total as int) / (DECREMENT_PERIOD_MS as int) >= t0) by (nonlinear_arith)
                        requires
                            total as int >= DECREMENT_PERIOD_MS * t0,
                            t0 >= 1,
                    ;
                }
                return ;
            }
        }
        proof {
            let d = (t0 - register.0) as int;
            lemma_fundamental_div_mod_converse(
                total as int,
                DECREMENT_PERIOD_MS as int,
                d,
                new_acc as int,
            );
        }
        *since_last_update = new_acc;
    }
}

/// The machine state after both timers advance by `delta` milliseconds.
pub open spec fn timers_updated(s: StateModel, delta: u64) -> StateModel {
    StateModel {
        delay: timer_value_after(s.delay, s.delay_acc, delta),
        delay_acc: timer_acc_after(s.delay, s.delay_acc, delta),
        sound: timer_value_after(s.sound, s.sound_acc, delta),
        sound_acc: timer_acc_after(s.sound, s.sound_acc, delta),
        ..s
    }
}


/// Number of bytes in a font bitmap: sixteen glyphs of five bytes each.
pub const FONT_SIZE: usize = 80;

/// The address at which the font bitmap lives.
pub const FONT_START: u16 = 0x50;

/// Relies on byteorder::BigEndian::read_u16: the big-endian 16-bit integer
/// held in the first two bytes of the slice.
#[verifier::external_body]
fn read_u16_be(buf: &[u8]) -> (r: u16)
    requires
        buf@.len() >= 2,
    ensures
        r == buf@[0] * 0x100 + buf@[1],
{
    byteorder::BigEndian::read_u16(buf)
}

/// The opcode that a step of `s` fetches: the big-endian byte pair at the
/// program counter.
pub open spec fn fetched_op(s: StateModel) -> u16 {
    (s.memory[s.pc as int] * 0x100 + s.memory[s.pc + 1]) as u16
}

/// The machine state midway through a step: the key snapshot stored, the
/// timers advanced, and the program counter moved past the instruction.
pub open spec fn after_fetch(s: StateModel, keys: Seq<bool>, delta: u64) -> StateModel {
    let s1 = timers_updated(StateModel { keys, ..s }, delta);
    StateModel { pc: (s1.pc + 2) as u16, ..s1 }
}

/// What one step needs of the state: the instruction bytes lie in memory,
/// the time delta cannot overflow the decay accumulator, and the fetched
/// instruction's own requirement holds of the post-fetch state.
pub open spec fn step_req(s: StateModel, keys: Seq<bool>, delta: u64) -> bool {
    &&& s.pc + 2 <= s.memory.len()
    &&& delta <= u64::MAX - (DECREMENT_PERIOD_MS - 1)
    &&& instr_req(after_fetch(s, keys, delta), decode_spec(fetched_op(s)))
}

/// The outcome of one step: the fetched instruction's transition from the
/// post-fetch state when some instruction recognizes the opcode, else an
/// unsupported-opcode failure leaving the post-fetch state.
pub open spec fn step_post(
    pre: StateModel,
    post: StateModel,
    keys: Seq<bool>,
    delta: u64,
    r: Result<(), Error>,
) -> bool {
    let op = fetched_op(pre);
    let mid = after_fetch(pre, keys, delta);
    if op_supported(op) {
        &&& r == Ok::<(), Error>(())
        &&& instr_post(mid, post, decode_spec(op))
    } else {
        &&& r == Err::<(), Error>(Error::UnsupportedOpcode(op))
        &&& post == mid
    }
}

/// The CPU core: owns the machine state and runs the fetch-decode-execute
/// cycle over the fixed, ordered instruction set.
pub struct EmulatedChip8 {
    state: Chip8State,
}

impl View for EmulatedChip8 {
    type V = StateModel;

    closed spec fn view(&self) -> StateModel {
        self.state@
    }
}

impl EmulatedChip8 {
    /// A well-formed core holds a well-formed machine state.
    pub open spec fn wf(&self) -> bool {
        model_wf(self@)
    }

    /// Creates a new, empty, uninitialised emulated chip 8.
    /// Usually you'd call this, followed by [`EmulatedChip8::write_font`],
    /// [`EmulatedChip8::load_program`], and then regularly call
    /// [`EmulatedChip8::step`].
    pub fn new() -> (c: EmulatedChip8)
        ensures
            c.wf(),
            c@ == initial_state(),
    {
        EmulatedChip8 { state: Chip8State::new() }
    }

    /// A core over a caller-built machine state.
    pub fn new_with_state(state: Chip8State) -> (c: EmulatedChip8)
        ensures
            c@ == state@,
    {
        EmulatedChip8 { state }
    }

    /// Writes a font bitmap to its place in memory: sixteen five-byte glyphs
    /// from address 0x50 on, in ascending hex-digit order.
    pub fn write_font(&mut self, font: &[u8])
        requires
            old(self).wf(),
            font@.len() == FONT_SIZE,
        ensures
            final(self).wf(),
            final(self)@ == (StateModel {
                memory: spliced(old(self)@.memory, FONT_START as int, font@),
                ..old(self)@
            }),
    {
        self.state.memory_set(font, Address(FONT_START));
    }

    /// Writes a program to its place in memory (0x200 on) and points the
    /// program counter at it.
    pub fn load_program(&mut self, program: &Program)
        requires
            old(self).wf(),
            program.wf(),
        ensures
            final(self).wf(),
            final(self)@ == (StateModel {
                memory: spliced(old(self)@.memory, PROGRAM_START as int, program@),
                pc: PROGRAM_START,
                ..old(self)@
            }),
    {
        program.load(&mut self.state);
    }

    /// Runs a single step on the CPU: stores the key snapshot, advances the
    /// timers by `time_delta` milliseconds, then runs a full
    /// fetch-decode-execute cycle on the emulated CPU.
    pub fn step(&mut self, key_input: KeyInput, time_delta: u64) -> (r: Result<(), Error>)
        requires
            old(self).wf(),
            key_input.wf(),
            step_req(old(self)@, key_input@, time_delta),
        ensures
            final(self).wf(),
            step_post(old(self)@, final(self)@, key_input@, time_delta, r),
    {
        self.state.key_state = key_input;
        proof {
            assert(self.state@ =~~= (StateModel { keys: self.state.key_state@, ..old(self)@ }));
        }
        self.update_timers(time_delta);
        let opcode_bytes = self.fetch();
        let opcode_data = self.decode(opcode_bytes);
        self.execute(opcode_data)
    }

    /// Returns the underlying chip8 state for inspection, use, or display.
    pub fn get_state(&self) -> (r: &Chip8State)
        ensures
            r@ == self@,
    {
        &self.state
    }

    /// Advances both timers by `time_delta` milliseconds.
    fn update_timers(&mut self, time_delta: u64)
        requires
            old(self).wf(),
            time_delta <= u64::MAX - (DECREMENT_PERIOD_MS - 1),
        ensures
            final(self).wf(),
            final(self)@ == timers_updated(old(self)@, time_delta),
    {
        update_timer(
            &mut self.state.delay_timer,
            &mut self.state.since_last_delay_update,
            time_delta,
        );
        update_timer(
            &mut self.state.sound_timer,
            &mut self.state.since_last_sound_update,
            time_delta,
        );
        proof {
            assert(self@ =~~= timers_updated(old(self)@, time_delta));
        }
    }

    /// Reads the two instruction bytes at the program counter and advances
    /// the program counter past them.
    fn fetch(&mut self) -> (r: u16)
        requires
            old(self).wf(),
            old(self)@.pc + 2 <= old(self)@.memory.len(),
        ensures
            final(self).wf(),
            r == fetched_op(old(self)@),
            final(self)@ == (StateModel { pc: (old(self)@.pc + 2) as u16, ..old(self)@ }),
    {
        let pc: usize = self.state.pc.0 as usize;
        let buf = vstd::slice::slice_subrange(self.state.memory.as_slice(), pc, pc + 2);
        let opcode_bytes = read_u16_be(buf);
        // Always increment PC in fetch stage
        let pc2: u16 = self.state.pc.0 + 2;
        self.state.pc = Address(pc2);
        proof {
            assert(self.state@ =~~= (StateModel { pc: pc2, ..old(self)@ }));
        }
        opcode_bytes
    }

    /// Splits a raw opcode into its canonical fields.
    pub fn decode(&mut self, opcode_bytes: u16) -> (r: OpCodeData)
        ensures
            *final(self) == *old(self),
            r == decode_spec(opcode_bytes),
            r.wf(),
    {
        OpCodeData::decode(opcode_bytes)
    }

    /// Runs a decoded instruction against the machine state: scans the
    /// instruction set in order and executes the first instruction whose
    /// (mask, value) pair matches the opcode; an opcode none matches is
    /// reported as [`Error::UnsupportedOpcode`] and changes nothing.
    pub fn execute(&mut self, opcode_data: OpCodeData) -> (r: Result<(), Error>)
        requires
            old(self).wf(),
            opcode_data.wf(),
            instr_req(old(self)@, opcode_data),
        ensures
            final(self).wf(),
            op_supported(opcode_data.full_opcode) ==> r == Ok::<(), Error>(()) && instr_post(
                old(self)@,
                final(self)@,
                opcode_data,
            ),
            !op_supported(opcode_data.full_opcode) ==> r == Err::<(), Error>(
                Error::UnsupportedOpcode(opcode_data.full_opcode),
            ) && final(self)@ == old(self)@,
    {
        let op = opcode_data.full_opcode;
        if op & 0xFFFF == 0x00E0 {
            let instruction = ClearScreen;
            instruction.execute(&mut self.state, opcode_data);
            Ok(())
        } else if op & 0xF000 == 0x1000 {
            let instruction = Jump;
            instruction.execute(&mut self.state, opcode_data);
            Ok(())
        } else if op & 0xF000 == 0x6000 {
            let instruction = SetRegisterConst;
            instruction.execute(&mut self.state, opcode_data);
            Ok(())
        } else if op & 0xF000 == 0x7000 {
            let instruction = AddRegisterConst;
            instruction.execute(&mut self.state, opcode_data);
            Ok(())
        } else if op & 0xF000 == 0xA000 {
            let instruction = SetIndexRegister;
            instruction.execute(&mut self.state, opcode_data);
            Ok(())
        } else if op & 0xF000 == 0xD000 {
            let instruction = DisplayDraw;
            instruction.execute(&mut self.state, opcode_data);
            Ok(())
        } else if op & 0xF000 == 0x2000 {
            let instruction = SubroutineCall;
            instruction.execute(&mut self.state, opcode_data);
            Ok(())
        } else if op & 0xFFFF == 0x00EE {
            let instruction = SubroutineReturn;
            instruction.execute(&mut self.state, opcode_data);
            Ok(())
        } else if op & 0xF000 == 0x3000 {
            let instruction = SkipConstEqual;
            instruction.execute(&mut self.state, opcode_data);
            Ok(())
        } else if op & 0xF000 == 0x4000 {
            let instruction = SkipConstNotEqual;
            instruction.execute(&mut self.state, opcode_data);
            Ok(())
        } else if op & 0xF00F == 0x5000 {
            let instruction = SkipRegistersEqual;
            instruction.execute(&mut self.state, opcode_data);
            Ok(())
        } else if op & 0xF00F == 0x9000 {
            let instruction = SkipRegistersNotEqual;
            instruction.execute(&mut self.state, opcode_data);
            Ok(())
        } else if op & 0xF00F == 0x8000 {
            let instruction = SetRegisterRegister;
            instruction.execute(&mut self.state, opcode_data);
            Ok(())
        } else if op & 0xF00F == 0x8001 {
            let instruction = BinaryOr;
            instruction.execute(&mut self.state, opcode_data);
            Ok(())
        } else if op & 0xF00F == 0x8002 {
            let instruction = BinaryAnd;
            instruction.execute(&mut self.state, opcode_data);
            Ok(())
        } else if op & 0xF00F == 0x8003 {
            let instruction = BinaryXor;
            instruction.execute(&mut self.state, opcode_data);
            Ok(())
        } else if op & 0xF00F == 0x8004 {
            let instruction = AddRegisters;
            instruction.execute(&mut self.state, opcode_data);
            Ok(())
        } else if op & 0xF00F == 0x8005 {
            let instruction = SubtractRegisters;
            instruction.execute(&mut self.state, opcode_data);
            Ok(())
        } else if op & 0xF00F == 0x8007 {
            let instruction = SubtractRegistersReverse;
            instruction.execute(&mut self.state, opcode_data);
            Ok(())
        } else if op & 0xF00F == 0x8006 {
            let instruction = ShiftRegisterRight;
            instruction.execute(&mut self.state, opcode_data);
            Ok(())
        } else if op & 0xF00F == 0x800E {
            let instruction = ShiftRegisterLeft;
            instruction.execute(&mut self.state, opcode_data);
            Ok(())
        } else if op & 0xF000 == 0xB000 {
            let instruction = JumpOffset;
            instruction.execute(&mut self.state, opcode_data);
            Ok(())
        } else if op & 0xF000 == 0xC000 {
            let instruction = Random;
            instruction.execute(&mut self.state, opcode_data);
            Ok(())
        } else if op & 0xF0FF == 0xE09E {
            let instruction = SkipIfKey;
            instruction.execute(&mut self.state, opcode_data);
            Ok(())
        } else if op & 0xF0FF == 0xE0A1 {
            let instruction = SkipIfNotKey;
            instruction.execute(&mut self.state, opcode_data);
            Ok(())
        } else if op & 0xF0FF == 0xF007 {
            let instruction = ReadDelayTimer;
            instruction.execute(&mut self.state, opcode_data);
            Ok(())
        } else if op & 0xF0FF == 0xF015 {
            let instruction = SetDelayTimer;
            instruction.execute(&mut self.state, opcode_data);
            Ok(())
        } else if op & 0xF0FF == 0xF018 {
            let instruction = SetSoundTimer;
            instruction.execute(&mut self.state, opcode_data);
            Ok(())
        } else if op & 0xF0FF == 0xF01E {
            let instruction = AddIndexRegister;
            instruction.execute(&mut self.state, opcode_data);
            Ok(())
        } else if op & 0xF0FF == 0xF01A {
            let instruction = GetKey;
            instruction.execute(&mut self.state, opcode_data);
            Ok(())
        } else if op & 0xF0FF == 0xF029 {
            let instruction = ReadFontCharacter;
            instruction.execute(&mut self.state, opcode_data);
            Ok(())
        } else if op & 0xF0FF == 0xF033 {
            let instruction = DecimalDecoding;
            instruction.execute(&mut self.state, opcode_data);
            Ok(())
        } else if op & 0xF0FF == 0xF055 {
            let instruction = StoreMemory;
            instruction.execute(&mut self.state, opcode_data);
            Ok(())
        } else if op & 0xF0FF == 0xF065 {
            let instruction = LoadMemory;
            instruction.execute(&mut self.state, opcode_data);
            Ok(())
        } else {
            Err(Error::UnsupportedOpcode(op))
        }
    }
}

/// Law: a timer that has drained to zero stays at zero, however much more
/// time passes.
pub proof fn lemma_timer_stays_zero(acc: u64, delta: u64)
    ensures
        timer_value_after(0, acc, delta) == 0,
{
}

} // verus!
