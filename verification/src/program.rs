use crate::emulator::{spliced, Address, Chip8State, StateModel};
use vstd::prelude::*;

verus! {

/// Largest number of program bytes accepted by the loader: 2 KiB.
pub const MAX_PROGRAM_SIZE: usize = 2048;

/// The memory address at which programs are loaded and started.
pub const PROGRAM_START: u16 = 0x200;

/// A program image ready to be loaded into machine memory.
pub struct Program {
    data: Vec<u8>,
}

/// Failure to build a program image.
#[derive(Debug, Clone, PartialEq, Eq, Structural)]
pub enum Error {
    /// The program is too large to load onto memory.
    ProgramTooLarge,
}

impl View for Program {
    type V = Seq<u8>;

    closed spec fn view(&self) -> Seq<u8> {
        self.data@
    }
}

impl Program {
    /// A program image holds at most [`MAX_PROGRAM_SIZE`] bytes; the
    /// constructor rejects anything larger.
    pub open spec fn wf(&self) -> bool {
        self@.len() <= MAX_PROGRAM_SIZE
    }

    /// Builds a program image from raw bytes. Inputs over
    /// [`MAX_PROGRAM_SIZE`] bytes are rejected with
    /// [`Error::ProgramTooLarge`], and only those.
    pub fn new_from_data(data: &[u8]) -> (r: Result<Program, Error>)
        ensures
            data@.len() <= MAX_PROGRAM_SIZE ==> (r matches Ok(p) && p@ == data@ && p.wf()),
            data@.len() > MAX_PROGRAM_SIZE ==> r == Err::<Program, Error>(Error::ProgramTooLarge),
    {
        // We only accept programs of up to 2KB
        if data.len() > MAX_PROGRAM_SIZE {
            return Err(Error::ProgramTooLarge);
        }
        Ok(Program { data: vstd::slice::slice_to_vec(data) })
    }

    /// Writes the program to memory at [`PROGRAM_START`] and points the
    /// program counter there. All-or-nothing: nothing else of the state is
    /// touched.
    pub fn load(&self, state: &mut Chip8State)
        requires
            old(state).wf(),
            self.wf(),
        ensures
            final(state).wf(),
            final(state)@ == (StateModel {
                memory: spliced(old(state)@.memory, PROGRAM_START as int, self@),
                pc: PROGRAM_START,
                ..old(state)@
            }),
    {
        state.memory_set(self.data.as_slice(), Address(PROGRAM_START));
        // Set PC to program start
        state.pc = Address(PROGRAM_START);
        proof {
            assert(state@ =~~= (StateModel {
                memory: spliced(old(state)@.memory, PROGRAM_START as int, self@),
                pc: PROGRAM_START,
                ..old(state)@
            }));
        }
    }
}

} // verus!
