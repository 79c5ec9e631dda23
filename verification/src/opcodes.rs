use crate::display::{blank_grid, draw_spec, Coordinates, SCREEN_HEIGHT, SCREEN_WIDTH};
use crate::emulator::{Address, Chip8State, Register, StateModel};
use vstd::arithmetic::div_mod::lemma_fundamental_div_mod_converse;
use vstd::prelude::*;

verus! {

/// Data extracted from the 16-bit opcode. Uniform across all opcodes (though
/// not used by all).
#[derive(Debug, Clone, Copy, PartialEq, Eq, Structural)]
pub struct OpCodeData {
    /// Full 2 bytes of the opcode. Anything between the first nibble and the
    /// full 2 bytes can contain the ID of the opcode.
    pub full_opcode: u16,
    /// Second nibble; always used for register indexes.
    pub x: u8,
    /// Third nibble, also always used to index registers.
    pub y: u8,
    /// Fourth nibble.
    pub n: u8,
    /// Second byte.
    pub nn: u8,
    /// Second, third, and fourth nibble.
    pub nnn: u16,
}

/// The decoded form of `op`: each field is the corresponding slice of bits.
pub open spec fn decode_spec(op: u16) -> OpCodeData {
    OpCodeData {
        full_opcode: op,
        x: ((op >> 8) & 0xF) as u8,
        y: ((op >> 4) & 0xF) as u8,
        n: (op & 0xF) as u8,
        nn: (op & 0xFF) as u8,
        nnn: op & 0xFFF,
    }
}

/// The decoded fields lie in their nibble ranges.
pub proof fn lemma_decode_bounds(op: u16)
    ensures
        decode_spec(op).x < 16,
        decode_spec(op).y < 16,
        decode_spec(op).n < 16,
        decode_spec(op).nnn < 0x1000,
{
    assert(((op >> 8) & 0xF) < 16 && ((op >> 4) & 0xF) < 16 && (op & 0xF) < 16 && (op & 0xFFF)
        < 0x1000) by (bit_vector);
}

impl OpCodeData {
    /// A decoded opcode as [`OpCodeData::decode`] produces it: the fields
    /// agree with the raw opcode.
    pub open spec fn wf(self) -> bool {
        &&& self == decode_spec(self.full_opcode)
        &&& self.x < 16
        &&& self.y < 16
        &&& self.n < 16
        &&& self.nnn < 0x1000
    }

    /// Splits a raw 16-bit opcode into its canonical fields. Decoding is
    /// total and pure: every 16-bit value decodes to well-defined fields.
    pub fn decode(opcode_bytes: u16) -> (r: OpCodeData)
        ensures
            r == decode_spec(opcode_bytes),
            r.wf(),
    {
        proof {
            lemma_decode_bounds(opcode_bytes);
        }
        OpCodeData {
            full_opcode: opcode_bytes,
            x: ((opcode_bytes >> 8) & 0xF) as u8,
            y: ((opcode_bytes >> 4) & 0xF) as u8,
            n: (opcode_bytes & 0xF) as u8,
            nn: (opcode_bytes & 0xFF) as u8,
            nnn: opcode_bytes & 0xFFF,
        }
    }
}

/// Law: the decoded fields carve the opcode up exactly: `nnn` is the low
/// twelve bits and is rebuilt from `x` and `nn`, `nn` is rebuilt from `y` and
/// `n`, and the whole opcode is rebuilt from its top nibble and `x`, `y`, `n`.
pub proof fn lemma_decode_reassembles(op: u16)
    ensures
        decode_spec(op).nnn == (((decode_spec(op).x as u16) << 8) | (decode_spec(op).nn as u16))
            & 0xFFF,
        decode_spec(op).nn as u16 == ((decode_spec(op).y as u16) << 4) | (decode_spec(op).n as u16),
        op == ((op >> 12) << 12) | ((decode_spec(op).x as u16) << 8) | ((decode_spec(
            op,
        ).y as u16) << 4) | (decode_spec(op).n as u16),
{
    let x = decode_spec(op).x;
    let y = decode_spec(op).y;
    let n = decode_spec(op).n;
    let nn = decode_spec(op).nn;
    let nnn = decode_spec(op).nnn;
    assert(nnn == (((x as u16) << 8) | (nn as u16)) & 0xFFF) by (bit_vector)
        requires
            x == ((op >> 8) & 0xF) as u8,
            nn == (op & 0xFF) as u8,
            nnn == op & 0xFFF,
    ;
    assert(nn as u16 == ((y as u16) << 4) | (n as u16)) by (bit_vector)
        requires
            y == ((op >> 4) & 0xF) as u8,
            n == (op & 0xF) as u8,
            nn == (op & 0xFF) as u8,
    ;
    assert(op == ((op >> 12) << 12) | ((x as u16) << 8) | ((y as u16) << 4) | (n as u16))
        by (bit_vector)
        requires
            x == ((op >> 8) & 0xF) as u8,
            y == ((op >> 4) & 0xF) as u8,
            n == (op & 0xF) as u8,
    ;
}

/// Whether the raw opcode `op` belongs to the instruction identified by
/// `(val, mask)`.
pub open spec fn op_matches(op: u16, val: u16, mask: u16) -> bool {
    op & mask == val
}

/// The 8-bit wrapping sum of two register values.
pub open spec fn wrap_add8(a: u8, b: u8) -> u8 {
    ((a + b) % 256) as u8
}

/// The 8-bit wrapping difference of two register values.
pub open spec fn wrap_sub8(a: u8, b: u8) -> u8 {
    (((a - b) + 256) % 256) as u8
}

/// The 16-bit wrapping sum of two address values.
pub open spec fn wrap_add16(a: u16, b: u16) -> u16 {
    ((a + b) % 0x10000) as u16
}

/// The 16-bit wrapping difference of two address values.
pub open spec fn wrap_sub16(a: u16, b: u16) -> u16 {
    (((a - b) + 0x10000) % 0x10000) as u16
}

/// Reduction modulo 256 of a sum of two bytes, in closed form.
proof fn lemma_mod256(s: int)
    requires
        0 <= s < 512,
    ensures
        s % 256 == if s < 256 {
            s
        } else {
            s - 256
        },
{
    if s < 256 {
        lemma_fundamental_div_mod_converse(s, 256, 0, s);
    } else {
        lemma_fundamental_div_mod_converse(s, 256, 1, s - 256);
    }
}

/// Reduction modulo 65536 of a bounded sum, in closed form.
proof fn lemma_mod65536(s: int)
    requires
        0 <= s < 131072,
    ensures
        s % 0x10000 == if s < 0x10000 {
            s
        } else {
            s - 0x10000
        },
{
    if s < 0x10000 {
        lemma_fundamental_div_mod_converse(s, 0x10000, 0, s);
    } else {
        lemma_fundamental_div_mod_converse(s, 0x10000, 1, s - 0x10000);
    }
}

/// Implemented by any struct that can read a specific opcode of the
/// instruction set. An opcode belongs to the instruction when
/// `opcode & mask == val`; `execute` then performs it against the machine
/// state. The program counter has already been advanced past the instruction
/// by the time `execute` is called.
pub trait OpCodeReader {
    /// The value identifying the opcode, as a spec value.
    spec fn val_spec(&self) -> u16;

    /// The mask of the opcode prefix, as a spec value.
    spec fn mask_spec(&self) -> u16;

    /// What `execute` needs of the state it runs against; inputs outside it
    /// are usage errors of the emulated program.
    spec fn req(&self, pre: StateModel, data: OpCodeData) -> bool;

    /// The state transition `execute` performs.
    spec fn post(&self, pre: StateModel, post: StateModel, data: OpCodeData) -> bool;

    /// The value identifying the opcode. It is matched under `opcode_mask`,
    /// so any variable bits are zero.
    fn opcode_val(&self) -> (r: u16)
        ensures
            r == self.val_spec(),
    ;

    /// Mask of the opcode prefix.
    fn opcode_mask(&self) -> (r: u16)
        ensures
            r == self.mask_spec(),
    ;

    /// Processes the opcode from a given CPU state and decoded instruction.
    fn execute(&self, state: &mut Chip8State, opcode_data: OpCodeData)
        requires
            old(state).wf(),
            opcode_data.wf(),
            self.req(old(state)@, opcode_data),
        ensures
            final(state).wf(),
            self.post(old(state)@, final(state)@, opcode_data),
    ;
}

/// Clears the screen.
#[derive(Debug, Default, Clone)]
pub struct ClearScreen;

impl OpCodeReader for ClearScreen {
    open spec fn val_spec(&self) -> u16 {
        0x00E0
    }

    open spec fn mask_spec(&self) -> u16 {
        0xFFFF
    }

    open spec fn req(&self, pre: StateModel, data: OpCodeData) -> bool {
        true
    }

    open spec fn post(&self, pre: StateModel, post: StateModel, data: OpCodeData) -> bool {
        post == (StateModel { grid: blank_grid(), ..pre })
    }

    fn opcode_val(&self) -> u16 {
        0x00E0
    }

    fn opcode_mask(&self) -> u16 {
        0xFFFF
    }

    fn execute(&self, state: &mut Chip8State, opcode_data: OpCodeData) {
        state.display.clear();
        proof {
            assert(state@ =~~= (StateModel { grid: blank_grid(), ..old(state)@ }));
        }
    }
}

/// Unconditional jump: sets the program counter to `nnn`.
#[derive(Debug, Default, Clone)]
pub struct Jump;

impl OpCodeReader for Jump {
    open spec fn val_spec(&self) -> u16 {
        0x1000
    }

    open spec fn mask_spec(&self) -> u16 {
        0xF000
    }

    open spec fn req(&self, pre: StateModel, data: OpCodeData) -> bool {
        true
    }

    open spec fn post(&self, pre: StateModel, post: StateModel, data: OpCodeData) -> bool {
        post == (StateModel { pc: data.nnn, ..pre })
    }

    fn opcode_val(&self) -> u16 {
        0x1000
    }

    fn opcode_mask(&self) -> u16 {
        0xF000
    }

    fn execute(&self, state: &mut Chip8State, opcode_data: OpCodeData) {
        state.pc = Address(opcode_data.nnn);
        proof {
            assert(state@ =~~= (StateModel { pc: opcode_data.nnn, ..old(state)@ }));
        }
    }
}

/// Sets register `x` to the constant `nn`.
#[derive(Debug, Default, Clone)]
pub struct SetRegisterConst;

impl OpCodeReader for SetRegisterConst {
    open spec fn val_spec(&self) -> u16 {
        0x6000
    }

    open spec fn mask_spec(&self) -> u16 {
        0xF000
    }

    open spec fn req(&self, pre: StateModel, data: OpCodeData) -> bool {
        true
    }

    open spec fn post(&self, pre: StateModel, post: StateModel, data: OpCodeData) -> bool {
        post == (StateModel { regs: pre.regs.update(data.x as int, data.nn), ..pre })
    }

    fn opcode_val(&self) -> u16 {
        0x6000
    }

    fn opcode_mask(&self) -> u16 {
        0xF000
    }

    fn execute(&self, state: &mut Chip8State, opcode_data: OpCodeData) {
        state.set_gp_register(opcode_data.x, Register(opcode_data.nn));
    }
}

/// Adds the constant `nn` to register `x`, wrapping at 8 bits; no flag is
/// touched.
#[derive(Debug, Default, Clone)]
pub struct AddRegisterConst;

impl OpCodeReader for AddRegisterConst {
    open spec fn val_spec(&self) -> u16 {
        0x7000
    }

    open spec fn mask_spec(&self) -> u16 {
        0xF000
    }

    open spec fn req(&self, pre: StateModel, data: OpCodeData) -> bool {
        true
    }

    open spec fn post(&self, pre: StateModel, post: StateModel, data: OpCodeData) -> bool {
        post == (StateModel {
            regs: pre.regs.update(data.x as int, wrap_add8(pre.regs[data.x as int], data.nn)),
            ..pre
        })
    }

    fn opcode_val(&self) -> u16 {
        0x7000
    }

    fn opcode_mask(&self) -> u16 {
        0xF000
    }

    fn execute(&self, state: &mut Chip8State, opcode_data: OpCodeData) {
        let v: u8 = state.gp_register(opcode_data.x).0;
        let sum: u8 = v.wrapping_add(opcode_data.nn);
        proof {
            lemma_mod256(v + opcode_data.nn);
        }
        state.set_gp_register(opcode_data.x, Register(sum));
    }
}

/// Sets the index register to `nnn`; the value is stored in full, with no
/// masking to 12 bits.
#[derive(Debug, Default, Clone)]
pub struct SetIndexRegister;

impl OpCodeReader for SetIndexRegister {
    open spec fn val_spec(&self) -> u16 {
        0xA000
    }

    open spec fn mask_spec(&self) -> u16 {
        0xF000
    }

    open spec fn req(&self, pre: StateModel, data: OpCodeData) -> bool {
        true
    }

    open spec fn post(&self, pre: StateModel, post: StateModel, data: OpCodeData) -> bool {
        post == (StateModel { index: data.nnn, ..pre })
    }

    fn opcode_val(&self) -> u16 {
        0xA000
    }

    fn opcode_mask(&self) -> u16 {
        0xF000
    }

    fn execute(&self, state: &mut Chip8State, opcode_data: OpCodeData) {
        state.index_register = Address(opcode_data.nnn);
        proof {
            assert(state@ =~~= (StateModel { index: opcode_data.nnn, ..old(state)@ }));
        }
    }
}

/// Draws the `n`-byte sprite at memory address `index` onto the screen,
/// anchored at the coordinates in registers `x` and `y` taken modulo the
/// screen size.
#[derive(Debug, Default, Clone)]
pub struct DisplayDraw;

impl OpCodeReader for DisplayDraw {
    open spec fn val_spec(&self) -> u16 {
        0xD000
    }

    open spec fn mask_spec(&self) -> u16 {
        0xF000
    }

    open spec fn req(&self, pre: StateModel, data: OpCodeData) -> bool {
        pre.index + data.n <= pre.memory.len()
    }

    open spec fn post(&self, pre: StateModel, post: StateModel, data: OpCodeData) -> bool {
        post == (StateModel {
            grid: draw_spec(
                pre.grid,
                pre.memory.subrange(pre.index as int, pre.index + data.n),
                (pre.regs[data.x as int] % (SCREEN_WIDTH as u8)) as int,
                (pre.regs[data.y as int] % (SCREEN_HEIGHT as u8)) as int,
            ),
            ..pre
        })
    }

    fn opcode_val(&self) -> u16 {
        0xD000
    }

    fn opcode_mask(&self) -> u16 {
        0xF000
    }

    fn execute(&self, state: &mut Chip8State, opcode_data: OpCodeData) {
        let draw_coordinates = Coordinates::new(
            state.gp_register(opcode_data.x).0,
            state.gp_register(opcode_data.y).0,
        );
        let sprite_start: usize = state.index_register.0 as usize;
        let sprite_end: usize = sprite_start + opcode_data.n as usize;
        let sprite = vstd::slice::slice_subrange(state.memory.as_slice(), sprite_start, sprite_end);
        state.display.apply_sprite(sprite, draw_coordinates);
        proof {
            assert(state@ =~~= (StateModel {
                grid: draw_spec(
                    old(state)@.grid,
                    old(state)@.memory.subrange(
                        old(state)@.index as int,
                        old(state)@.index + opcode_data.n,
                    ),
                    (old(state)@.regs[opcode_data.x as int] % (SCREEN_WIDTH as u8)) as int,
                    (old(state)@.regs[opcode_data.y as int] % (SCREEN_HEIGHT as u8)) as int,
                ),
                ..old(state)@
            }));
        }
    }
}

/// Subroutine call: pushes the current program counter on the stack, then
/// jumps to `nnn`.
#[derive(Debug, Default, Clone)]
pub struct SubroutineCall;

impl OpCodeReader for SubroutineCall {
    open spec fn val_spec(&self) -> u16 {
        0x2000
    }

    open spec fn mask_spec(&self) -> u16 {
        0xF000
    }

    open spec fn req(&self, pre: StateModel, data: OpCodeData) -> bool {
        true
    }

    open spec fn post(&self, pre: StateModel, post: StateModel, data: OpCodeData) -> bool {
        post == (StateModel { pc: data.nnn, stack: pre.stack.push(pre.pc), ..pre })
    }

    fn opcode_val(&self) -> u16 {
        0x2000
    }

    fn opcode_mask(&self) -> u16 {
        0xF000
    }

    fn execute(&self, state: &mut Chip8State, opcode_data: OpCodeData) {
        let pc = state.pc;
        state.stack.push_back(pc);
        state.pc = Address(opcode_data.nnn);
        proof {
            assert(state@.stack =~= old(state)@.stack.push(old(state)@.pc));
            assert(state@ =~~= (StateModel {
                pc: opcode_data.nnn,
                stack: old(state)@.stack.push(old(state)@.pc),
                ..old(state)@
            }));
        }
    }
}

/// Subroutine return: pops the top of the stack into the program counter.
/// A pop from an empty stack is a usage error and is excluded by
/// precondition.
#[derive(Debug, Default, Clone)]
pub struct SubroutineReturn;

impl OpCodeReader for SubroutineReturn {
    open spec fn val_spec(&self) -> u16 {
        0x00EE
    }

    open spec fn mask_spec(&self) -> u16 {
        0xFFFF
    }

    open spec fn req(&self, pre: StateModel, data: OpCodeData) -> bool {
        pre.stack.len() > 0
    }

    open spec fn post(&self, pre: StateModel, post: StateModel, data: OpCodeData) -> bool {
        post == (StateModel { pc: pre.stack.last(), stack: pre.stack.drop_last(), ..pre })
    }

    fn opcode_val(&self) -> u16 {
        0x00EE
    }

    fn opcode_mask(&self) -> u16 {
        0xFFFF
    }

    fn execute(&self, state: &mut Chip8State, _opcode_data: OpCodeData) {
        let return_address = state.stack.pop_back();
        match return_address {
            Some(addr) => {
                state.pc = addr;
                proof {
                    assert(state@.stack =~= old(state)@.stack.drop_last());
                    assert(state@ =~~= (StateModel {
                        pc: old(state)@.stack.last(),
                        stack: old(state)@.stack.drop_last(),
                        ..old(state)@
                    }));
                }
            },
            None => {
                proof {
                    assert(false);
                }
            },
        }
    }
}

/// Conditional skip: advances the program counter by two more bytes when
/// register `x` equals the constant `nn`.
#[derive(Debug, Default, Clone)]
pub struct SkipConstEqual;

impl OpCodeReader for SkipConstEqual {
    open spec fn val_spec(&self) -> u16 {
        0x3000
    }

    open spec fn mask_spec(&self) -> u16 {
        0xF000
    }

    open spec fn req(&self, pre: StateModel, data: OpCodeData) -> bool {
        true
    }

    open spec fn post(&self, pre: StateModel, post: StateModel, data: OpCodeData) -> bool {
        post == (StateModel {
            pc: if pre.regs[data.x as int] == data.nn {
                wrap_add16(pre.pc, 2)
            } else {
                pre.pc
            },
            ..pre
        })
    }

    fn opcode_val(&self) -> u16 {
        0x3000
    }

    fn opcode_mask(&self) -> u16 {
        0xF000
    }

    fn execute(&self, state: &mut Chip8State, opcode_data: OpCodeData) {
        if state.gp_register(opcode_data.x).0 == opcode_data.nn {
            let pc2 = state.pc.0.wrapping_add(2);
            proof {
                lemma_mod65536(state.pc.0 + 2);
            }
            state.pc = Address(pc2);
        }
        proof {
            assert(state@ =~~= (StateModel { pc: state@.pc, ..old(state)@ }));
        }
    }
}

/// Conditional skip: advances the program counter by two more bytes when
/// register `x` differs from the constant `nn`.
#[derive(Debug, Default, Clone)]
pub struct SkipConstNotEqual;

impl OpCodeReader for SkipConstNotEqual {
    open spec fn val_spec(&self) -> u16 {
        0x4000
    }

    open spec fn mask_spec(&self) -> u16 {
        0xF000
    }

    open spec fn req(&self, pre: StateModel, data: OpCodeData) -> bool {
        true
    }

    open spec fn post(&self, pre: StateModel, post: StateModel, data: OpCodeData) -> bool {
        post == (StateModel {
            pc: if pre.regs[data.x as int] != data.nn {
                wrap_add16(pre.pc, 2)
            } else {
                pre.pc
            },
            ..pre
        })
    }

    fn opcode_val(&self) -> u16 {
        0x4000
    }

    fn opcode_mask(&self) -> u16 {
        0xF000
    }

    fn execute(&self, state: &mut Chip8State, opcode_data: OpCodeData) {
        if state.gp_register(opcode_data.x).0 != opcode_data.nn {
            let pc2 = state.pc.0.wrapping_add(2);
            proof {
                lemma_mod65536(state.pc.0 + 2);
            }
            state.pc = Address(pc2);
        }
        proof {
            assert(state@ =~~= (StateModel { pc: state@.pc, ..old(state)@ }));
        }
    }
}

/// Conditional skip: advances the program counter by two more bytes when
/// registers `x` and `y` are equal.
#[derive(Debug, Default, Clone)]
pub struct SkipRegistersEqual;

impl OpCodeReader for SkipRegistersEqual {
    open spec fn val_spec(&self) -> u16 {
        0x5000
    }

    open spec fn mask_spec(&self) -> u16 {
        0xF00F
    }

    open spec fn req(&self, pre: StateModel, data: OpCodeData) -> bool {
        true
    }

    open spec fn post(&self, pre: StateModel, post: StateModel, data: OpCodeData) -> bool {
        post == (StateModel {
            pc: if pre.regs[data.x as int] == pre.regs[data.y as int] {
                wrap_add16(pre.pc, 2)
            } else {
                pre.pc
            },
            ..pre
        })
    }

    fn opcode_val(&self) -> u16 {
        0x5000
    }

    fn opcode_mask(&self) -> u16 {
        0xF00F
    }

    fn execute(&self, state: &mut Chip8State, opcode_data: OpCodeData) {
        if state.gp_register(opcode_data.x).0 == state.gp_register(opcode_data.y).0 {
            let pc2 = state.pc.0.wrapping_add(2);
            proof {
                lemma_mod65536(state.pc.0 + 2);
            }
            state.pc = Address(pc2);
        }
        proof {
            assert(state@ =~~= (StateModel { pc: state@.pc, ..old(state)@ }));
        }
    }
}

/// Conditional skip: advances the program counter by two more bytes when
/// registers `x` and `y` differ.
#[derive(Debug, Default, Clone)]
pub struct SkipRegistersNotEqual;

impl OpCodeReader for SkipRegistersNotEqual {
    open spec fn val_spec(&self) -> u16 {
        0x9000
    }

    open spec fn mask_spec(&self) -> u16 {
        0xF00F
    }

    open spec fn req(&self, pre: StateModel, data: OpCodeData) -> bool {
        true
    }

    open spec fn post(&self, pre: StateModel, post: StateModel, data: OpCodeData) -> bool {
        post == (StateModel {
            pc: if pre.regs[data.x as int] != pre.regs[data.y as int] {
                wrap_add16(pre.pc, 2)
            } else {
                pre.pc
            },
            ..pre
        })
    }

    fn opcode_val(&self) -> u16 {
        0x9000
    }

    fn opcode_mask(&self) -> u16 {
        0xF00F
    }

    fn execute(&self, state: &mut Chip8State, opcode_data: OpCodeData) {
        if state.gp_register(opcode_data.x).0 != state.gp_register(opcode_data.y).0 {
            let pc2 = state.pc.0.wrapping_add(2);
            proof {
                lemma_mod65536(state.pc.0 + 2);
            }
            state.pc = Address(pc2);
        }
        proof {
            assert(state@ =~~= (StateModel { pc: state@.pc, ..old(state)@ }));
        }
    }
}

/// Copies register `y` into register `x`.
#[derive(Debug, Default, Clone)]
pub struct SetRegisterRegister;

impl OpCodeReader for SetRegisterRegister {
    open spec fn val_spec(&self) -> u16 {
        0x8000
    }

    open spec fn mask_spec(&self) -> u16 {
        0xF00F
    }

    open spec fn req(&self, pre: StateModel, data: OpCodeData) -> bool {
        true
    }

    open spec fn post(&self, pre: StateModel, post: StateModel, data: OpCodeData) -> bool {
        post == (StateModel {
            regs: pre.regs.update(data.x as int, pre.regs[data.y as int]),
            ..pre
        })
    }

    fn opcode_val(&self) -> u16 {
        0x8000
    }

    fn opcode_mask(&self) -> u16 {
        0xF00F
    }

    fn execute(&self, state: &mut Chip8State, opcode_data: OpCodeData) {
        let vy = state.gp_register(opcode_data.y);
        state.set_gp_register(opcode_data.x, vy);
    }
}

/// Bitwise OR of registers `x` and `y` into register `x`.
#[derive(Debug, Default, Clone)]
pub struct BinaryOr;

impl OpCodeReader for BinaryOr {
    open spec fn val_spec(&self) -> u16 {
        0x8001
    }

    open spec fn mask_spec(&self) -> u16 {
        0xF00F
    }

    open spec fn req(&self, pre: StateModel, data: OpCodeData) -> bool {
        true
    }

    open spec fn post(&self, pre: StateModel, post: StateModel, data: OpCodeData) -> bool {
        post == (StateModel {
            regs: pre.regs.update(data.x as int, pre.regs[data.x as int] | pre.regs[data.y as int]),
            ..pre
        })
    }

    fn opcode_val(&self) -> u16 {
        0x8001
    }

    fn opcode_mask(&self) -> u16 {
        0xF00F
    }

    fn execute(&self, state: &mut Chip8State, opcode_data: OpCodeData) {
        let vx = state.gp_register(opcode_data.x).0;
        let vy = state.gp_register(opcode_data.y).0;
        state.set_gp_register(opcode_data.x, Register(vx | vy));
    }
}

/// Bitwise AND of registers `x` and `y` into register `x`.
#[derive(Debug, Default, Clone)]
pub struct BinaryAnd;

impl OpCodeReader for BinaryAnd {
    open spec fn val_spec(&self) -> u16 {
        0x8002
    }

    open spec fn mask_spec(&self) -> u16 {
        0xF00F
    }

    open spec fn req(&self, pre: StateModel, data: OpCodeData) -> bool {
        true
    }

    open spec fn post(&self, pre: StateModel, post: StateModel, data: OpCodeData) -> bool {
        post == (StateModel {
            regs: pre.regs.update(data.x as int, pre.regs[data.x as int] & pre.regs[data.y as int]),
            ..pre
        })
    }

    fn opcode_val(&self) -> u16 {
        0x8002
    }

    fn opcode_mask(&self) -> u16 {
        0xF00F
    }

    fn execute(&self, state: &mut Chip8State, opcode_data: OpCodeData) {
        let vx = state.gp_register(opcode_data.x).0;
        let vy = state.gp_register(opcode_data.y).0;
        state.set_gp_register(opcode_data.x, Register(vx & vy));
    }
}

/// Bitwise XOR of registers `x` and `y` into register `x`.
#[derive(Debug, Default, Clone)]
pub struct BinaryXor;

impl OpCodeReader for BinaryXor {
    open spec fn val_spec(&self) -> u16 {
        0x8003
    }

    open spec fn mask_spec(&self) -> u16 {
        0xF00F
    }

    open spec fn req(&self, pre: StateModel, data: OpCodeData) -> bool {
        true
    }

    open spec fn post(&self, pre: StateModel, post: StateModel, data: OpCodeData) -> bool {
        post == (StateModel {
            regs: pre.regs.update(data.x as int, pre.regs[data.x as int] ^ pre.regs[data.y as int]),
            ..pre
        })
    }

    fn opcode_val(&self) -> u16 {
        0x8003
    }

    fn opcode_mask(&self) -> u16 {
        0xF00F
    }

    fn execute(&self, state: &mut Chip8State, opcode_data: OpCodeData) {
        let vx = state.gp_register(opcode_data.x).0;
        let vy = state.gp_register(opcode_data.y).0;
        state.set_gp_register(opcode_data.x, Register(vx ^ vy));
    }
}

/// Adds register `y` to register `x`, wrapping at 8 bits; register 0xF is
/// then overwritten with 1 when the sum overflowed, else 0, even when `x` is
/// 0xF itself.
#[derive(Debug, Default, Clone)]
pub struct AddRegisters;

impl OpCodeReader for AddRegisters {
    open spec fn val_spec(&self) -> u16 {
        0x8004
    }

    open spec fn mask_spec(&self) -> u16 {
        0xF00F
    }

    open spec fn req(&self, pre: StateModel, data: OpCodeData) -> bool {
        true
    }

    open spec fn post(&self, pre: StateModel, post: StateModel, data: OpCodeData) -> bool {
        post == (StateModel {
            regs: pre.regs.update(
                data.x as int,
                wrap_add8(pre.regs[data.x as int], pre.regs[data.y as int]),
            ).update(
                0xF,
                if pre.regs[data.x as int] + pre.regs[data.y as int] > 255 {
                    1u8
                } else {
                    0u8
                },
            ),
            ..pre
        })
    }

    fn opcode_val(&self) -> u16 {
        0x8004
    }

    fn opcode_mask(&self) -> u16 {
        0xF00F
    }

    fn execute(&self, state: &mut Chip8State, opcode_data: OpCodeData) {
        let x_reg_val = state.gp_register(opcode_data.x).0;
        let y_reg_val = state.gp_register(opcode_data.y).0;
        let sat_add = x_reg_val.saturating_add(y_reg_val);
        let wrap_add = x_reg_val.wrapping_add(y_reg_val);
        proof {
            lemma_mod256(x_reg_val + y_reg_val);
        }
        state.set_gp_register(opcode_data.x, Register(wrap_add));
        state.set_gp_register(0xF, Register(if sat_add != wrap_add { 0x1 } else { 0x0 }));
    }
}

/// Subtracts register `y` from register `x`, wrapping at 8 bits; register
/// 0xF is then overwritten with 0 when a borrow occurred (`y > x`), else 1.
#[derive(Debug, Default, Clone)]
pub struct SubtractRegisters;

impl OpCodeReader for SubtractRegisters {
    open spec fn val_spec(&self) -> u16 {
        0x8005
    }

    open spec fn mask_spec(&self) -> u16 {
        0xF00F
    }

    open spec fn req(&self, pre: StateModel, data: OpCodeData) -> bool {
        true
    }

    open spec fn post(&self, pre: StateModel, post: StateModel, data: OpCodeData) -> bool {
        post == (StateModel {
            regs: pre.regs.update(
                data.x as int,
                wrap_sub8(pre.regs[data.x as int], pre.regs[data.y as int]),
            ).update(
                0xF,
                if pre.regs[data.y as int] > pre.regs[data.x as int] {
                    0u8
                } else {
                    1u8
                },
            ),
            ..pre
        })
    }

    fn opcode_val(&self) -> u16 {
        0x8005
    }

    fn opcode_mask(&self) -> u16 {
        0xF00F
    }

    fn execute(&self, state: &mut Chip8State, opcode_data: OpCodeData) {
        let x_reg_val = state.gp_register(opcode_data.x).0;
        let y_reg_val = state.gp_register(opcode_data.y).0;
        proof {
            lemma_mod256(x_reg_val - y_reg_val + 256);
        }
        state.set_gp_register(opcode_data.x, Register(x_reg_val.wrapping_sub(y_reg_val)));
        state.set_gp_register(0xF, Register(if y_reg_val > x_reg_val { 0x0 } else { 0x1 }));
    }
}

/// Reverse subtraction: sets register `x` to `y - x`, wrapping at 8 bits;
/// register 0xF is then overwritten with 0 when a borrow occurred (`x > y`),
/// else 1.
#[derive(Debug, Default, Clone)]
pub struct SubtractRegistersReverse;

impl OpCodeReader for SubtractRegistersReverse {
    open spec fn val_spec(&self) -> u16 {
        0x8007
    }

    open spec fn mask_spec(&self) -> u16 {
        0xF00F
    }

    open spec fn req(&self, pre: StateModel, data: OpCodeData) -> bool {
        true
    }

    open spec fn post(&self, pre: StateModel, post: StateModel, data: OpCodeData) -> bool {
        post == (StateModel {
            regs: pre.regs.update(
                data.x as int,
                wrap_sub8(pre.regs[data.y as int], pre.regs[data.x as int]),
            ).update(
                0xF,
                if pre.regs[data.x as int] > pre.regs[data.y as int] {
                    0u8
                } else {
                    1u8
                },
            ),
            ..pre
        })
    }

    fn opcode_val(&self) -> u16 {
        0x8007
    }

    fn opcode_mask(&self) -> u16 {
        0xF00F
    }

    fn execute(&self, state: &mut Chip8State, opcode_data: OpCodeData) {
        let x_reg_val = state.gp_register(opcode_data.x).0;
        let y_reg_val = state.gp_register(opcode_data.y).0;
        proof {
            lemma_mod256(y_reg_val - x_reg_val + 256);
        }
        state.set_gp_register(opcode_data.x, Register(y_reg_val.wrapping_sub(x_reg_val)));
        state.set_gp_register(0xF, Register(if x_reg_val > y_reg_val { 0x0 } else { 0x1 }));
    }
}

/// Shifts register `x` right by one bit; register 0xF is then overwritten
/// with the bit shifted out. The `y` operand of the raw encoding is not
/// consulted.
#[derive(Debug, Default, Clone)]
pub struct ShiftRegisterRight;

impl OpCodeReader for ShiftRegisterRight {
    open spec fn val_spec(&self) -> u16 {
        0x8006
    }

    open spec fn mask_spec(&self) -> u16 {
        0xF00F
    }

    open spec fn req(&self, pre: StateModel, data: OpCodeData) -> bool {
        true
    }

    open spec fn post(&self, pre: StateModel, post: StateModel, data: OpCodeData) -> bool {
        post == (StateModel {
            regs: pre.regs.update(data.x as int, pre.regs[data.x as int] >> 1u8).update(
                0xF,
                pre.regs[data.x as int] & 1,
            ),
            ..pre
        })
    }

    fn opcode_val(&self) -> u16 {
        0x8006
    }

    fn opcode_mask(&self) -> u16 {
        0xF00F
    }

    fn execute(&self, state: &mut Chip8State, opcode_data: OpCodeData) {
        let x_reg_val = state.gp_register(opcode_data.x).0;
        let removed_bit = x_reg_val & 0x01;
        state.set_gp_register(opcode_data.x, Register(x_reg_val >> 1));
        state.set_gp_register(0xF, Register(removed_bit));
    }
}

/// Shifts register `x` left by one bit, truncated to 8 bits; register 0xF is
/// then overwritten with the bit shifted out. The `y` operand of the raw
/// encoding is not consulted.
#[derive(Debug, Default, Clone)]
pub struct ShiftRegisterLeft;

impl OpCodeReader for ShiftRegisterLeft {
    open spec fn val_spec(&self) -> u16 {
        0x800E
    }

    open spec fn mask_spec(&self) -> u16 {
        0xF00F
    }

    open spec fn req(&self, pre: StateModel, data: OpCodeData) -> bool {
        true
    }

    open spec fn post(&self, pre: StateModel, post: StateModel, data: OpCodeData) -> bool {
        post == (StateModel {
            regs: pre.regs.update(data.x as int, pre.regs[data.x as int] << 1u8).update(
                0xF,
                if pre.regs[data.x as int] & 0x80 == 0 {
                    0u8
                } else {
                    1u8
                },
            ),
            ..pre
        })
    }

    fn opcode_val(&self) -> u16 {
        0x800E
    }

    fn opcode_mask(&self) -> u16 {
        0xF00F
    }

    fn execute(&self, state: &mut Chip8State, opcode_data: OpCodeData) {
        let x_reg_val = state.gp_register(opcode_data.x).0;
        let removed_bit = if (x_reg_val & 0x80) == 0 { 0x00 } else { 0x01 };
        state.set_gp_register(opcode_data.x, Register(x_reg_val << 1));
        state.set_gp_register(0xF, Register(removed_bit));
    }
}

/// Jump with offset: sets the program counter to `pc + nnn + register 0`,
/// wrapping at 16 bits.
#[derive(Debug, Default, Clone)]
pub struct JumpOffset;

impl OpCodeReader for JumpOffset {
    open spec fn val_spec(&self) -> u16 {
        0xB000
    }

    open spec fn mask_spec(&self) -> u16 {
        0xF000
    }

    open spec fn req(&self, pre: StateModel, data: OpCodeData) -> bool {
        true
    }

    open spec fn post(&self, pre: StateModel, post: StateModel, data: OpCodeData) -> bool {
        post == (StateModel {
            pc: ((pre.pc + data.nnn + pre.regs[0]) % 0x10000) as u16,
            ..pre
        })
    }

    fn opcode_val(&self) -> u16 {
        0xB000
    }

    fn opcode_mask(&self) -> u16 {
        0xF000
    }

    fn execute(&self, state: &mut Chip8State, opcode_data: OpCodeData) {
        let v0: u8 = state.gp_register(0x0).0;
        let w1: u16 = state.pc.0.wrapping_add(opcode_data.nnn);
        let w2: u16 = w1.wrapping_add(v0 as u16);
        proof {
            lemma_mod65536(state.pc.0 + opcode_data.nnn + v0);
        }
        state.pc = Address(w2);
        proof {
            assert(state@ =~~= (StateModel { pc: w2, ..old(state)@ }));
        }
    }
}

/// Relies on rand::random: one uniformly drawn byte. Nothing is promised of
/// its value; callers state only what holds of every outcome.
#[verifier::external_body]
fn random_byte() -> u8 {
    rand::random::<u8>()
}

/// The transition of the [`Random`] opcode for the drawn byte `b`: register
/// `x` becomes `b` masked with `nn`.
pub open spec fn random_post(pre: StateModel, post: StateModel, data: OpCodeData, b: u8) -> bool {
    post == (StateModel { regs: pre.regs.update(data.x as int, b & data.nn), ..pre })
}

/// Sets register `x` to a uniformly random byte bitwise-ANDed with `nn`. The
/// randomness source is opaque, so the contract promises only that some byte
/// was masked: every bit outside `nn` comes out clear.
#[derive(Debug, Default, Clone)]
pub struct Random;

impl OpCodeReader for Random {
    open spec fn val_spec(&self) -> u16 {
        0xC000
    }

    open spec fn mask_spec(&self) -> u16 {
        0xF000
    }

    open spec fn req(&self, pre: StateModel, data: OpCodeData) -> bool {
        true
    }

    open spec fn post(&self, pre: StateModel, post: StateModel, data: OpCodeData) -> bool {
        exists|b: u8| random_post(pre, post, data, b)
    }

    fn opcode_val(&self) -> u16 {
        0xC000
    }

    fn opcode_mask(&self) -> u16 {
        0xF000
    }

    fn execute(&self, state: &mut Chip8State, opcode_data: OpCodeData) {
        let b: u8 = random_byte();
        state.set_gp_register(opcode_data.x, Register(b & opcode_data.nn));
        proof {
            assert(random_post(old(state)@, state@, opcode_data, b));
        }
    }
}

/// The low nibble of a byte names one of the sixteen keys.
proof fn lemma_low_nibble(v: u8)
    ensures
        v & 0xF < 16,
{
    assert(v & 0xF < 16) by (bit_vector);
}

/// Skips the next instruction when the key named by the low nibble of
/// register `x` is pressed.
#[derive(Debug, Default, Clone)]
pub struct SkipIfKey;

impl OpCodeReader for SkipIfKey {
    open spec fn val_spec(&self) -> u16 {
        0xE09E
    }

    open spec fn mask_spec(&self) -> u16 {
        0xF0FF
    }

    open spec fn req(&self, pre: StateModel, data: OpCodeData) -> bool {
        true
    }

    open spec fn post(&self, pre: StateModel, post: StateModel, data: OpCodeData) -> bool {
        post == (StateModel {
            pc: if pre.keys[(pre.regs[data.x as int] & 0xF) as int] {
                wrap_add16(pre.pc, 2)
            } else {
                pre.pc
            },
            ..pre
        })
    }

    fn opcode_val(&self) -> u16 {
        0xE09E
    }

    fn opcode_mask(&self) -> u16 {
        0xF0FF
    }

    fn execute(&self, state: &mut Chip8State, opcode_data: OpCodeData) {
        let raw = state.gp_register(opcode_data.x).0;
        let key = raw & 0x0F;
        proof {
            lemma_low_nibble(raw);
        }
        if state.is_pressed(key) {
            let pc2 = state.pc.0.wrapping_add(2);
            proof {
                lemma_mod65536(state.pc.0 + 2);
            }
            state.pc = Address(pc2);
        }
        proof {
            assert(state@ =~~= (StateModel { pc: state@.pc, ..old(state)@ }));
        }
    }
}

/// Skips the next instruction when the key named by the low nibble of
/// register `x` is not pressed.
#[derive(Debug, Default, Clone)]
pub struct SkipIfNotKey;

impl OpCodeReader for SkipIfNotKey {
    open spec fn val_spec(&self) -> u16 {
        0xE0A1
    }

    open spec fn mask_spec(&self) -> u16 {
        0xF0FF
    }

    open spec fn req(&self, pre: StateModel, data: OpCodeData) -> bool {
        true
    }

    open spec fn post(&self, pre: StateModel, post: StateModel, data: OpCodeData) -> bool {
        post == (StateModel {
            pc: if !pre.keys[(pre.regs[data.x as int] & 0xF) as int] {
                wrap_add16(pre.pc, 2)
            } else {
                pre.pc
            },
            ..pre
        })
    }

    fn opcode_val(&self) -> u16 {
        0xE0A1
    }

    fn opcode_mask(&self) -> u16 {
        0xF0FF
    }

    fn execute(&self, state: &mut Chip8State, opcode_data: OpCodeData) {
        let raw = state.gp_register(opcode_data.x).0;
        let key = raw & 0x0F;
        proof {
            lemma_low_nibble(raw);
        }
        if !state.is_pressed(key) {
            let pc2 = state.pc.0.wrapping_add(2);
            proof {
                lemma_mod65536(state.pc.0 + 2);
            }
            state.pc = Address(pc2);
        }
        proof {
            assert(state@ =~~= (StateModel { pc: state@.pc, ..old(state)@ }));
        }
    }
}

/// Copies the delay timer into register `x`.
#[derive(Debug, Default, Clone)]
pub struct ReadDelayTimer;

impl OpCodeReader for ReadDelayTimer {
    open spec fn val_spec(&self) -> u16 {
        0xF007
    }

    open spec fn mask_spec(&self) -> u16 {
        0xF0FF
    }

    open spec fn req(&self, pre: StateModel, data: OpCodeData) -> bool {
        true
    }

    open spec fn post(&self, pre: StateModel, post: StateModel, data: OpCodeData) -> bool {
        post == (StateModel { regs: pre.regs.update(data.x as int, pre.delay), ..pre })
    }

    fn opcode_val(&self) -> u16 {
        0xF007
    }

    fn opcode_mask(&self) -> u16 {
        0xF0FF
    }

    fn execute(&self, state: &mut Chip8State, opcode_data: OpCodeData) {
        let delay = state.delay_timer;
        state.set_gp_register(opcode_data.x, delay);
    }
}

/// Copies register `x` into the delay timer. The decay accumulator for that
/// timer is not reset.
#[derive(Debug, Default, Clone)]
pub struct SetDelayTimer;

impl OpCodeReader for SetDelayTimer {
    open spec fn val_spec(&self) -> u16 {
        0xF015
    }

    open spec fn mask_spec(&self) -> u16 {
        0xF0FF
    }

    open spec fn req(&self, pre: StateModel, data: OpCodeData) -> bool {
        true
    }

    open spec fn post(&self, pre: StateModel, post: StateModel, data: OpCodeData) -> bool {
        post == (StateModel { delay: pre.regs[data.x as int], ..pre })
    }

    fn opcode_val(&self) -> u16 {
        0xF015
    }

    fn opcode_mask(&self) -> u16 {
        0xF0FF
    }

    fn execute(&self, state: &mut Chip8State, opcode_data: OpCodeData) {
        let v = state.gp_register(opcode_data.x);
        state.delay_timer = v;
        proof {
            assert(state@ =~~= (StateModel { delay: v.0, ..old(state)@ }));
        }
    }
}

/// Copies register `x` into the sound timer. The decay accumulator for that
/// timer is not reset.
#[derive(Debug, Default, Clone)]
pub struct SetSoundTimer;

impl OpCodeReader for SetSoundTimer {
    open spec fn val_spec(&self) -> u16 {
        0xF018
    }

    open spec fn mask_spec(&self) -> u16 {
        0xF0FF
    }

    open spec fn req(&self, pre: StateModel, data: OpCodeData) -> bool {
        true
    }

    open spec fn post(&self, pre: StateModel, post: StateModel, data: OpCodeData) -> bool {
        post == (StateModel { sound: pre.regs[data.x as int], ..pre })
    }

    fn opcode_val(&self) -> u16 {
        0xF018
    }

    fn opcode_mask(&self) -> u16 {
        0xF0FF
    }

    fn execute(&self, state: &mut Chip8State, opcode_data: OpCodeData) {
        let v = state.gp_register(opcode_data.x);
        state.sound_timer = v;
        proof {
            assert(state@ =~~= (StateModel { sound: v.0, ..old(state)@ }));
        }
    }
}

/// Adds register `x` to the index register, wrapping at 16 bits; register
/// 0xF is then overwritten with 1 when the new index exceeds 0xFFF, else 0.
#[derive(Debug, Default, Clone)]
pub struct AddIndexRegister;

impl OpCodeReader for AddIndexRegister {
    open spec fn val_spec(&self) -> u16 {
        0xF01E
    }

    open spec fn mask_spec(&self) -> u16 {
        0xF0FF
    }

    open spec fn req(&self, pre: StateModel, data: OpCodeData) -> bool {
        true
    }

    open spec fn post(&self, pre: StateModel, post: StateModel, data: OpCodeData) -> bool {
        let ni = ((pre.index + pre.regs[data.x as int]) % 0x10000) as u16;
        post == (StateModel {
            index: ni,
            regs: pre.regs.update(
                0xF,
                if ni > 0xFFF {
                    1u8
                } else {
                    0u8
                },
            ),
            ..pre
        })
    }

    fn opcode_val(&self) -> u16 {
        0xF01E
    }

    fn opcode_mask(&self) -> u16 {
        0xF0FF
    }

    fn execute(&self, state: &mut Chip8State, opcode_data: OpCodeData) {
        let v = state.gp_register(opcode_data.x).0;
        let ni = state.index_register.0.wrapping_add(v as u16);
        proof {
            lemma_mod65536(state.index_register.0 + v);
        }
        state.index_register = Address(ni);
        let overflows = ni > 0xFFF;
        state.set_gp_register(0xF, Register(if overflows { 0x1 } else { 0x0 }));
    }
}

/// Busy-wait for a key press: when the key named by the low nibble of
/// register `x` is not pressed, rewinds the program counter by two bytes so
/// the same instruction runs again next step; otherwise does nothing.
#[derive(Debug, Default, Clone)]
pub struct GetKey;

impl OpCodeReader for GetKey {
    open spec fn val_spec(&self) -> u16 {
        0xF01A
    }

    open spec fn mask_spec(&self) -> u16 {
        0xF0FF
    }

    open spec fn req(&self, pre: StateModel, data: OpCodeData) -> bool {
        true
    }

    open spec fn post(&self, pre: StateModel, post: StateModel, data: OpCodeData) -> bool {
        post == (StateModel {
            pc: if pre.keys[(pre.regs[data.x as int] & 0xF) as int] {
                pre.pc
            } else {
                wrap_sub16(pre.pc, 2)
            },
            ..pre
        })
    }

    fn opcode_val(&self) -> u16 {
        0xF01A
    }

    fn opcode_mask(&self) -> u16 {
        0xF0FF
    }

    fn execute(&self, state: &mut Chip8State, opcode_data: OpCodeData) {
        let raw = state.gp_register(opcode_data.x).0;
        let key = raw & 0x0F;
        proof {
            lemma_low_nibble(raw);
        }
        if !state.is_pressed(key) {
            let pc2 = state.pc.0.wrapping_sub(2);
            proof {
                lemma_mod65536(state.pc.0 - 2 + 0x10000);
            }
            state.pc = Address(pc2);
        }
        proof {
            assert(state@ =~~= (StateModel { pc: state@.pc, ..old(state)@ }));
        }
    }
}

/// Points the index register at the font glyph for the value in register
/// `x`: glyphs are 5 bytes each, starting at address 0x50.
#[derive(Debug, Default, Clone)]
pub struct ReadFontCharacter;

impl OpCodeReader for ReadFontCharacter {
    open spec fn val_spec(&self) -> u16 {
        0xF029
    }

    open spec fn mask_spec(&self) -> u16 {
        0xF0FF
    }

    open spec fn req(&self, pre: StateModel, data: OpCodeData) -> bool {
        true
    }

    open spec fn post(&self, pre: StateModel, post: StateModel, data: OpCodeData) -> bool {
        post == (StateModel { index: (0x50 + 5 * pre.regs[data.x as int]) as u16, ..pre })
    }

    fn opcode_val(&self) -> u16 {
        0xF029
    }

    fn opcode_mask(&self) -> u16 {
        0xF0FF
    }

    fn execute(&self, state: &mut Chip8State, opcode_data: OpCodeData) {
        let v = state.gp_register(opcode_data.x).0;
        let target: u16 = 0x50 + (v as u16) * 0x5;
        state.index_register = Address(target);
        proof {
            assert(state@ =~~= (StateModel { index: target, ..old(state)@ }));
        }
    }
}

/// Writes the three decimal digits of register `x` (hundreds, tens, ones) to
/// memory starting at the index register. Writing past the last byte of
/// memory is a usage error and is excluded by precondition.
#[derive(Debug, Default, Clone)]
pub struct DecimalDecoding;

impl OpCodeReader for DecimalDecoding {
    open spec fn val_spec(&self) -> u16 {
        0xF033
    }

    open spec fn mask_spec(&self) -> u16 {
        0xF0FF
    }

    open spec fn req(&self, pre: StateModel, data: OpCodeData) -> bool {
        pre.index + 3 <= pre.memory.len()
    }

    open spec fn post(&self, pre: StateModel, post: StateModel, data: OpCodeData) -> bool {
        let v = pre.regs[data.x as int];
        post == (StateModel {
            memory: crate::emulator::spliced(
                pre.memory,
                pre.index as int,
                seq![(v / 100) as u8, ((v % 100) / 10) as u8, (v % 10) as u8],
            ),
            ..pre
        })
    }

    fn opcode_val(&self) -> u16 {
        0xF033
    }

    fn opcode_mask(&self) -> u16 {
        0xF0FF
    }

    fn execute(&self, state: &mut Chip8State, opcode_data: OpCodeData) {
        let register_val = state.gp_register(opcode_data.x).0;
        let mut digits: Vec<u8> = Vec::new();
        digits.push(register_val / 100);
        digits.push((register_val % 100) / 10);
        digits.push(register_val % 10);
        proof {
            assert(digits@ =~= seq![
                (register_val / 100) as u8,
                ((register_val % 100) / 10) as u8,
                (register_val % 10) as u8,
            ]);
        }
        let index = state.index_register;
        state.memory_set(digits.as_slice(), index);
    }
}

/// Copies registers 0 through `x`, inclusive, into memory starting at the
/// index register. Writing past the last byte of memory is a usage error and
/// is excluded by precondition.
#[derive(Debug, Default, Clone)]
pub struct StoreMemory;

impl OpCodeReader for StoreMemory {
    open spec fn val_spec(&self) -> u16 {
        0xF055
    }

    open spec fn mask_spec(&self) -> u16 {
        0xF0FF
    }

    open spec fn req(&self, pre: StateModel, data: OpCodeData) -> bool {
        pre.index + data.x + 1 <= pre.memory.len()
    }

    open spec fn post(&self, pre: StateModel, post: StateModel, data: OpCodeData) -> bool {
        post == (StateModel {
            memory: crate::emulator::spliced(
                pre.memory,
                pre.index as int,
                pre.regs.subrange(0, data.x + 1),
            ),
            ..pre
        })
    }

    fn opcode_val(&self) -> u16 {
        0xF055
    }

    fn opcode_mask(&self) -> u16 {
        0xF0FF
    }

    fn execute(&self, state: &mut Chip8State, opcode_data: OpCodeData) {
        let mut bytes: Vec<u8> = Vec::new();
        let mut reg: u8 = 0;
        while reg <= opcode_data.x
            invariant
                state == old(state),
                old(state).wf(),
                opcode_data.wf(),
                reg <= opcode_data.x + 1,
                bytes@ =~= old(state)@.regs.subrange(0, reg as int),
            decreases opcode_data.x + 1 - reg,
        {
            bytes.push(state.gp_register(reg).0);
            proof {
                assert(bytes@ =~= old(state)@.regs.subrange(0, reg + 1));
            }
            reg = reg + 1;
        }
        let index = state.index_register;
        state.memory_set(bytes.as_slice(), index);
    }
}

/// Loads registers 0 through `x`, inclusive, from memory starting at the
/// index register; the remaining registers are untouched. Reading past the
/// last byte of memory is a usage error and is excluded by precondition.
#[derive(Debug, Default, Clone)]
pub struct LoadMemory;

/// The register file after a block load of registers 0 through `k - 1` from
/// memory at the index register.
pub open spec fn loaded_regs(pre: StateModel, k: int) -> Seq<u8> {
    Seq::new(
        pre.regs.len(),
        |i: int|
            if 0 <= i < k {
                pre.memory[pre.index + i]
            } else {
                pre.regs[i]
            },
    )
}

impl OpCodeReader for LoadMemory {
    open spec fn val_spec(&self) -> u16 {
        0xF065
    }

    open spec fn mask_spec(&self) -> u16 {
        0xF0FF
    }

    open spec fn req(&self, pre: StateModel, data: OpCodeData) -> bool {
        pre.index + data.x + 1 <= pre.memory.len()
    }

    open spec fn post(&self, pre: StateModel, post: StateModel, data: OpCodeData) -> bool {
        post == (StateModel { regs: loaded_regs(pre, data.x + 1), ..pre })
    }

    fn opcode_val(&self) -> u16 {
        0xF065
    }

    fn opcode_mask(&self) -> u16 {
        0xF0FF
    }

    fn execute(&self, state: &mut Chip8State, opcode_data: OpCodeData) {
        let address_start: usize = state.index_register.0 as usize;
        let mut reg: u8 = 0;
        while reg <= opcode_data.x
            invariant
                old(state).wf(),
                state.wf(),
                opcode_data.wf(),
                reg <= opcode_data.x + 1,
                address_start == old(state)@.index,
                address_start + opcode_data.x + 1 <= old(state)@.memory.len(),
                state@ == (StateModel { regs: loaded_regs(old(state)@, reg as int), ..old(state)@ }),
            decreases opcode_data.x + 1 - reg,
        {
            let b: u8 = state.memory[address_start + reg as usize];
            state.set_gp_register(reg, Register(b));
            proof {
                assert(state@.regs =~= loaded_regs(old(state)@, reg + 1));
                assert(state@ =~~= (StateModel {
                    regs: loaded_regs(old(state)@, reg + 1),
                    ..old(state)@
                }));
            }
            reg = reg + 1;
        }
    }
}

/// Whether some instruction of the set recognizes the raw opcode `op`.
pub open spec fn op_supported(op: u16) -> bool {
    ||| op_matches(op, 0x00E0, 0xFFFF)
    ||| op_matches(op, 0x1000, 0xF000)
    ||| op_matches(op, 0x6000, 0xF000)
    ||| op_matches(op, 0x7000, 0xF000)
    ||| op_matches(op, 0xA000, 0xF000)
    ||| op_matches(op, 0xD000, 0xF000)
    ||| op_matches(op, 0x2000, 0xF000)
    ||| op_matches(op, 0x00EE, 0xFFFF)
    ||| op_matches(op, 0x3000, 0xF000)
    ||| op_matches(op, 0x4000, 0xF000)
    ||| op_matches(op, 0x5000, 0xF00F)
    ||| op_matches(op, 0x9000, 0xF00F)
    ||| op_matches(op, 0x8000, 0xF00F)
    ||| op_matches(op, 0x8001, 0xF00F)
    ||| op_matches(op, 0x8002, 0xF00F)
    ||| op_matches(op, 0x8003, 0xF00F)
    ||| op_matches(op, 0x8004, 0xF00F)
    ||| op_matches(op, 0x8005, 0xF00F)
    ||| op_matches(op, 0x8007, 0xF00F)
    ||| op_matches(op, 0x8006, 0xF00F)
    ||| op_matches(op, 0x800E, 0xF00F)
    ||| op_matches(op, 0xB000, 0xF000)
    ||| op_matches(op, 0xC000, 0xF000)
    ||| op_matches(op, 0xE09E, 0xF0FF)
    ||| op_matches(op, 0xE0A1, 0xF0FF)
    ||| op_matches(op, 0xF007, 0xF0FF)
    ||| op_matches(op, 0xF015, 0xF0FF)
    ||| op_matches(op, 0xF018, 0xF0FF)
    ||| op_matches(op, 0xF01E, 0xF0FF)
    ||| op_matches(op, 0xF01A, 0xF0FF)
    ||| op_matches(op, 0xF029, 0xF0FF)
    ||| op_matches(op, 0xF033, 0xF0FF)
    ||| op_matches(op, 0xF055, 0xF0FF)
    ||| op_matches(op, 0xF065, 0xF0FF)
}

/// What executing `data` needs of the state: the requirement of the first
/// instruction, in table order, whose (mask, value) matches. An opcode no
/// instruction recognizes needs nothing (it is reported, not run).
pub open spec fn instr_req(pre: StateModel, data: OpCodeData) -> bool {
    let op = data.full_opcode;
    if op_matches(op, 0x00E0, 0xFFFF) {
        (ClearScreen).req(pre, data)
    } else if op_matches(op, 0x1000, 0xF000) {
        (Jump).req(pre, data)
    } else if op_matches(op, 0x6000, 0xF000) {
        (SetRegisterConst).req(pre, data)
    } else if op_matches(op, 0x7000, 0xF000) {
        (AddRegisterConst).req(pre, data)
    } else if op_matches(op, 0xA000, 0xF000) {
        (SetIndexRegister).req(pre, data)
    } else if op_matches(op, 0xD000, 0xF000) {
        (DisplayDraw).req(pre, data)
    } else if op_matches(op, 0x2000, 0xF000) {
        (SubroutineCall).req(pre, data)
    } else if op_matches(op, 0x00EE, 0xFFFF) {
        (SubroutineReturn).req(pre, data)
    } else if op_matches(op, 0x3000, 0xF000) {
        (SkipConstEqual).req(pre, data)
    } else if op_matches(op, 0x4000, 0xF000) {
        (SkipConstNotEqual).req(pre, data)
    } else if op_matches(op, 0x5000, 0xF00F) {
        (SkipRegistersEqual).req(pre, data)
    } else if op_matches(op, 0x9000, 0xF00F) {
        (SkipRegistersNotEqual).req(pre, data)
    } else if op_matches(op, 0x8000, 0xF00F) {
        (SetRegisterRegister).req(pre, data)
    } else if op_matches(op, 0x8001, 0xF00F) {
        (BinaryOr).req(pre, data)
    } else if op_matches(op, 0x8002, 0xF00F) {
        (BinaryAnd).req(pre, data)
    } else if op_matches(op, 0x8003, 0xF00F) {
        (BinaryXor).req(pre, data)
    } else if op_matches(op, 0x8004, 0xF00F) {
        (AddRegisters).req(pre, data)
    } else if op_matches(op, 0x8005, 0xF00F) {
        (SubtractRegisters).req(pre, data)
    } else if op_matches(op, 0x8007, 0xF00F) {
        (SubtractRegistersReverse).req(pre, data)
    } else if op_matches(op, 0x8006, 0xF00F) {
        (ShiftRegisterRight).req(pre, data)
    } else if op_matches(op, 0x800E, 0xF00F) {
        (ShiftRegisterLeft).req(pre, data)
    } else if op_matches(op, 0xB000, 0xF000) {
        (JumpOffset).req(pre, data)
    } else if op_matches(op, 0xC000, 0xF000) {
        (Random).req(pre, data)
    } else if op_matches(op, 0xE09E, 0xF0FF) {
        (SkipIfKey).req(pre, data)
    } else if op_matches(op, 0xE0A1, 0xF0FF) {
        (SkipIfNotKey).req(pre, data)
    } else if op_matches(op, 0xF007, 0xF0FF) {
        (ReadDelayTimer).req(pre, data)
    } else if op_matches(op, 0xF015, 0xF0FF) {
        (SetDelayTimer).req(pre, data)
    } else if op_matches(op, 0xF018, 0xF0FF) {
        (SetSoundTimer).req(pre, data)
    } else if op_matches(op, 0xF01E, 0xF0FF) {
        (AddIndexRegister).req(pre, data)
    } else if op_matches(op, 0xF01A, 0xF0FF) {
        (GetKey).req(pre, data)
    } else if op_matches(op, 0xF029, 0xF0FF) {
        (ReadFontCharacter).req(pre, data)
    } else if op_matches(op, 0xF033, 0xF0FF) {
        (DecimalDecoding).req(pre, data)
    } else if op_matches(op, 0xF055, 0xF0FF) {
        (StoreMemory).req(pre, data)
    } else if op_matches(op, 0xF065, 0xF0FF) {
        (LoadMemory).req(pre, data)
    } else {
        true
    }
}

/// The transition of executing `data`: that of the first instruction, in
/// table order, whose (mask, value) matches; no transition for an opcode no
/// instruction recognizes.
pub open spec fn instr_post(pre: StateModel, post: StateModel, data: OpCodeData) -> bool {
    let op = data.full_opcode;
    if op_matches(op, 0x00E0, 0xFFFF) {
        (ClearScreen).post(pre, post, data)
    } else if op_matches(op, 0x1000, 0xF000) {
        (Jump).post(pre, post, data)
    } else if op_matches(op, 0x6000, 0xF000) {
        (SetRegisterConst).post(pre, post, data)
    } else if op_matches(op, 0x7000, 0xF000) {
        (AddRegisterConst).post(pre, post, data)
    } else if op_matches(op, 0xA000, 0xF000) {
        (SetIndexRegister).post(pre, post, data)
    } else if op_matches(op, 0xD000, 0xF000) {
        (DisplayDraw).post(pre, post, data)
    } else if op_matches(op, 0x2000, 0xF000) {
        (SubroutineCall).post(pre, post, data)
    } else if op_matches(op, 0x00EE, 0xFFFF) {
        (SubroutineReturn).post(pre, post, data)
    } else if op_matches(op, 0x3000, 0xF000) {
        (SkipConstEqual).post(pre, post, data)
    } else if op_matches(op, 0x4000, 0xF000) {
        (SkipConstNotEqual).post(pre, post, data)
    } else if op_matches(op, 0x5000, 0xF00F) {
        (SkipRegistersEqual).post(pre, post, data)
    } else if op_matches(op, 0x9000, 0xF00F) {
        (SkipRegistersNotEqual).post(pre, post, data)
    } else if op_matches(op, 0x8000, 0xF00F) {
        (SetRegisterRegister).post(pre, post, data)
    } else if op_matches(op, 0x8001, 0xF00F) {
        (BinaryOr).post(pre, post, data)
    } else if op_matches(op, 0x8002, 0xF00F) {
        (BinaryAnd).post(pre, post, data)
    } else if op_matches(op, 0x8003, 0xF00F) {
        (BinaryXor).post(pre, post, data)
    } else if op_matches(op, 0x8004, 0xF00F) {
        (AddRegisters).post(pre, post, data)
    } else if op_matches(op, 0x8005, 0xF00F) {
        (SubtractRegisters).post(pre, post, data)
    } else if op_matches(op, 0x8007, 0xF00F) {
        (SubtractRegistersReverse).post(pre, post, data)
    } else if op_matches(op, 0x8006, 0xF00F) {
        (ShiftRegisterRight).post(pre, post, data)
    } else if op_matches(op, 0x800E, 0xF00F) {
        (ShiftRegisterLeft).post(pre, post, data)
    } else if op_matches(op, 0xB000, 0xF000) {
        (JumpOffset).post(pre, post, data)
    } else if op_matches(op, 0xC000, 0xF000) {
        (Random).post(pre, post, data)
    } else if op_matches(op, 0xE09E, 0xF0FF) {
        (SkipIfKey).post(pre, post, data)
    } else if op_matches(op, 0xE0A1, 0xF0FF) {
        (SkipIfNotKey).post(pre, post, data)
    } else if op_matches(op, 0xF007, 0xF0FF) {
        (ReadDelayTimer).post(pre, post, data)
    } else if op_matches(op, 0xF015, 0xF0FF) {
        (SetDelayTimer).post(pre, post, data)
    } else if op_matches(op, 0xF018, 0xF0FF) {
        (SetSoundTimer).post(pre, post, data)
    } else if op_matches(op, 0xF01E, 0xF0FF) {
        (AddIndexRegister).post(pre, post, data)
    } else if op_matches(op, 0xF01A, 0xF0FF) {
        (GetKey).post(pre, post, data)
    } else if op_matches(op, 0xF029, 0xF0FF) {
        (ReadFontCharacter).post(pre, post, data)
    } else if op_matches(op, 0xF033, 0xF0FF) {
        (DecimalDecoding).post(pre, post, data)
    } else if op_matches(op, 0xF055, 0xF0FF) {
        (StoreMemory).post(pre, post, data)
    } else if op_matches(op, 0xF065, 0xF0FF) {
        (LoadMemory).post(pre, post, data)
    } else {
        false
    }
}

/// Law: a subroutine call followed by a subroutine return restores the
/// original program counter and leaves the stack exactly as it was, depth
/// included.
pub proof fn lemma_call_return_round_trip(
    s0: StateModel,
    s1: StateModel,
    s2: StateModel,
    call_data: OpCodeData,
    ret_data: OpCodeData,
)
    requires
        (SubroutineCall).post(s0, s1, call_data),
        (SubroutineReturn).post(s1, s2, ret_data),
    ensures
        s2.pc == s0.pc,
        s2.stack == s0.stack,
        s2.stack.len() == s0.stack.len(),
{
    assert(s2.stack =~= s0.stack);
}

} // verus!