//! The machine as a mathematical object: a state, and for each instruction
//! the state that follows. The executable machine is proved to follow this
//! model step by step.

use vstd::prelude::*;
use crate::display::{lemma_draw_len, spec_collides, spec_draw, spec_white_rects, CellRect};
use crate::error::ChipError;
use crate::input::{spec_keypad_code, valid_key, HostKey, InputEvent, MetaInputs};
use crate::instr::{lemma_decode_encodes, InstructionWord, Operation};
use crate::quirks::Quirks;

verus! {

/// Bytes of memory.
pub const RAM_SIZE: usize = 4096;

/// Address at which a loaded program begins.
pub const PROGRAM_START: u16 = 512;

/// The most return addresses that the call stack holds.
pub const STACK_LIMIT: usize = 16;

/// The built-in glyphs for the hexadecimal digits, five bytes each, as they
/// lie at the bottom of memory.
pub const FONT: [u8; 80] = [
    0xF0, 0x90, 0x90, 0x90, 0xF0, 0x20, 0x60, 0x20, 0x20, 0x70, 0xF0, 0x10, 0xF0, 0x80, 0xF0, 0xF0,
    0x10, 0xF0, 0x10, 0xF0, 0x90, 0x90, 0xF0, 0x10, 0x10, 0xF0, 0x80, 0xF0, 0x10, 0xF0, 0xF0, 0x80,
    0xF0, 0x90, 0xF0, 0xF0, 0x10, 0x20, 0x40, 0x40, 0xF0, 0x90, 0xF0, 0x90, 0xF0, 0xF0, 0x90, 0xF0,
    0x10, 0xF0, 0xF0, 0x90, 0xF0, 0x90, 0x90, 0xE0, 0x90, 0xE0, 0x90, 0xE0, 0xF0, 0x80, 0x80, 0x80,
    0xF0, 0xE0, 0x90, 0x90, 0x90, 0xE0, 0xF0, 0x80, 0xF0, 0x80, 0xF0, 0xF0, 0x80, 0xF0, 0x80, 0x80,
];

/// Everything that a machine holds.
#[verifier::ext_equal]
pub struct ChipState {
    /// The behavioural switches the machine was built with.
    pub quirks: Quirks,
    /// Address of the next instruction.
    pub pc: u16,
    /// The index register I.
    pub index: u16,
    /// The registers V[0] to V[F].
    pub regs: Seq<u8>,
    /// The memory, byte by byte.
    pub memory: Seq<u8>,
    /// The return addresses, the latest last.
    pub stack: Seq<u16>,
    /// The delay timer.
    pub delay: u8,
    /// The sound timer.
    pub sound: u8,
    /// The cells of the frame buffer, row after row.
    pub pixels: Seq<bool>,
    /// Whether the frame buffer waits to be presented.
    pub dirty: bool,
    /// The pad key that is held down, if any.
    pub key: Option<u8>,
}

/// Memory before any program is loaded: the font from address 0 on, and
/// zero everywhere else.
pub open spec fn initial_memory() -> Seq<u8> {
    Seq::new(
        4096,
        |a: int|
            if a < 80 {
                FONT@[a]
            } else {
                0u8
            },
    )
}

/// Whether what a fallible step did agrees with what the model says of it:
/// on success the machine is in the state foretold, on failure the foretold
/// error is returned and the machine is as it was.
pub open spec fn realises(
    expected: Result<ChipState, ChipError>,
    before: ChipState,
    result: Result<(), ChipError>,
    after: ChipState,
) -> bool {
    match expected {
        Ok(s) => result is Ok && after == s,
        Err(e) => result == Err::<(), ChipError>(e) && after == before,
    }
}

impl ChipState {
    /// Sizes and ranges that hold of every machine: sixteen registers, 4096
    /// bytes, 2048 cells, addresses of twelve bits, a bounded stack.
    pub open spec fn wf(self) -> bool {
        &&& self.regs.len() == 16
        &&& self.memory.len() == 4096
        &&& self.pixels.len() == 2048
        &&& self.pc < 4096
        &&& self.index < 4096
        &&& self.stack.len() <= STACK_LIMIT
        &&& forall|i: int| 0 <= i < self.stack.len() ==> self.stack[i] < 4096
        &&& valid_key(self.key)
    }

    /// A machine fresh from construction: the font at the bottom of memory,
    /// the frame buffer dark and due to be presented, all else zero.
    pub open spec fn initial(quirks: Quirks) -> ChipState {
        ChipState {
            quirks,
            pc: 0,
            index: 0,
            regs: Seq::new(16, |i: int| 0u8),
            memory: initial_memory(),
            stack: Seq::empty(),
            delay: 0,
            sound: 0,
            pixels: Seq::new(2048, |i: int| false),
            dirty: true,
            key: None,
        }
    }

    /// The value of register V[x].
    pub open spec fn v(self, x: u8) -> u8 {
        self.regs[x as int]
    }

    /// The state with `val` in V[x].
    pub open spec fn set_v(self, x: u8, val: u8) -> ChipState {
        ChipState { regs: self.regs.update(x as int, val), ..self }
    }

    /// The state with V[F] holding 1 if `raised`, else 0.
    pub open spec fn set_flag(self, raised: bool) -> ChipState {
        self.set_v(
            0xF,
            if raised {
                1u8
            } else {
                0u8
            },
        )
    }

    /// The state with the program counter at `addr`, taken to twelve bits.
    pub open spec fn goto(self, addr: int) -> ChipState {
        ChipState { pc: (addr % 4096) as u16, ..self }
    }

    /// The state with the next instruction skipped if `cond` holds.
    pub open spec fn skip_when(self, cond: bool) -> ChipState {
        if cond {
            self.goto(self.pc + 2)
        } else {
            self
        }
    }

    /// The address `offset` bytes past I, taken to twelve bits.
    pub open spec fn addr(self, offset: int) -> int {
        (self.index + offset) % 4096
    }

    /// How far address `a` lies past I, going round the end of memory.
    pub open spec fn offset_of(self, a: int) -> int {
        (a - self.index + 4096) % 4096
    }

    /// The state with I advanced by `by`, taken to twelve bits.
    pub open spec fn advance_index(self, by: int) -> ChipState {
        ChipState { index: self.addr(by) as u16, ..self }
    }

    /// The word at the program counter, most significant byte first.
    pub open spec fn word_at_pc(self) -> u16 {
        (self.memory[self.pc as int] * 256 + self.memory[(self.pc + 1) % 4096]) as u16
    }

    /// `n` bytes of memory from I on.
    pub open spec fn sprite_rows(self, n: u8) -> Seq<u8> {
        Seq::new(n as nat, |j: int| self.memory[self.addr(j)])
    }

    /// After a program was loaded: its bytes lie from the program start on,
    /// and the program counter points at the first.
    pub open spec fn load_program(self, program: Seq<u8>) -> ChipState {
        ChipState {
            memory: Seq::new(
                4096,
                |a: int|
                    if PROGRAM_START <= a < PROGRAM_START + program.len() {
                        program[a - PROGRAM_START]
                    } else {
                        self.memory[a]
                    },
            ),
            pc: PROGRAM_START,
            ..self
        }
    }

    /// 00E0: the frame buffer goes dark.
    pub open spec fn clear_screen(self) -> ChipState {
        ChipState { pixels: Seq::new(2048, |i: int| false), dirty: true, ..self }
    }

    /// 00EE: the latest return address leaves the stack and becomes the
    /// program counter.
    pub open spec fn subroutine_return(self) -> ChipState
        recommends
            self.stack.len() > 0,
    {
        ChipState { pc: self.stack.last(), stack: self.stack.drop_last(), ..self }
    }

    /// 1NNN
    pub open spec fn jump(self, nnn: u16) -> ChipState {
        self.goto(nnn as int)
    }

    /// 2NNN: the program counter goes onto the stack, then to `nnn`.
    pub open spec fn subroutine_call(self, nnn: u16) -> ChipState {
        ChipState { stack: self.stack.push(self.pc), ..self }.goto(nnn as int)
    }

    /// 3XNN
    pub open spec fn skip_equal_unary(self, x: u8, nn: u8) -> ChipState {
        self.skip_when(self.v(x) == nn)
    }

    /// 4XNN
    pub open spec fn skip_not_equal_unary(self, x: u8, nn: u8) -> ChipState {
        self.skip_when(self.v(x) != nn)
    }

    /// 5XY0
    pub open spec fn skip_equal_binary(self, x: u8, y: u8) -> ChipState {
        self.skip_when(self.v(x) == self.v(y))
    }

    /// 6XNN
    pub open spec fn set_value(self, x: u8, nn: u8) -> ChipState {
        self.set_v(x, nn)
    }

    /// 7XNN: the sum wraps at 256 and no flag is touched.
    pub open spec fn add_noncarry(self, x: u8, nn: u8) -> ChipState {
        self.set_v(x, ((self.v(x) + nn) % 256) as u8)
    }

    /// 8XY0
    pub open spec fn set_registers(self, x: u8, y: u8) -> ChipState {
        self.set_v(x, self.v(y))
    }

    /// 8XY1
    pub open spec fn binary_or(self, x: u8, y: u8) -> ChipState {
        self.set_v(x, self.v(x) | self.v(y))
    }

    /// 8XY2
    pub open spec fn binary_and(self, x: u8, y: u8) -> ChipState {
        self.set_v(x, self.v(x) & self.v(y))
    }

    /// 8XY3
    pub open spec fn logical_xor(self, x: u8, y: u8) -> ChipState {
        self.set_v(x, self.v(x) ^ self.v(y))
    }

    /// 8XY4: V[x] takes the low byte of the sum, V[F] the carry.
    pub open spec fn add_carry(self, x: u8, y: u8) -> ChipState {
        let sum = self.v(x) + self.v(y);
        self.set_v(x, (sum % 256) as u8).set_flag(sum > 255)
    }

    /// 8XY5: V[x] takes V[x] - V[y], wrapped; V[F] is 0 if that borrowed.
    pub open spec fn subtract_vx(self, x: u8, y: u8) -> ChipState {
        let diff = self.v(x) - self.v(y);
        self.set_v(x, ((diff + 256) % 256) as u8).set_flag(diff >= 0)
    }

    /// 8XY7: V[x] takes V[y] - V[x], wrapped; V[F] is 0 if that borrowed.
    pub open spec fn subtract_vy(self, x: u8, y: u8) -> ChipState {
        let diff = self.v(y) - self.v(x);
        self.set_v(x, ((diff + 256) % 256) as u8).set_flag(diff >= 0)
    }

    /// The value that 8XY6 and 8XYE shift: V[y] or V[x], as the quirk says.
    pub open spec fn shift_source(self, x: u8, y: u8) -> u8 {
        if self.quirks.shift_uses_vy {
            self.v(y)
        } else {
            self.v(x)
        }
    }

    /// 8XY6: V[x] takes the source halved, V[F] the bit that fell off.
    pub open spec fn shift_right(self, x: u8, y: u8) -> ChipState {
        let src = self.shift_source(x, y);
        self.set_v(x, src / 2).set_flag(src % 2 == 1)
    }

    /// 8XYE: V[x] takes the low byte of the source doubled, V[F] the bit
    /// that fell off.
    pub open spec fn shift_left(self, x: u8, y: u8) -> ChipState {
        let src = self.shift_source(x, y);
        self.set_v(x, (src * 2 % 256) as u8).set_flag(src >= 128)
    }

    /// 9XY0
    pub open spec fn skip_not_equal_binary(self, x: u8, y: u8) -> ChipState {
        self.skip_when(self.v(x) != self.v(y))
    }

    /// ANNN
    pub open spec fn set_index(self, nnn: u16) -> ChipState {
        ChipState { index: nnn % 4096, ..self }
    }

    /// BNNN: a jump to `nnn` plus V[0], or plus V[x] where the quirk says so.
    pub open spec fn jump_with_offset(self, x: u8, nnn: u16) -> ChipState {
        self.goto(
            nnn + if self.quirks.jump_uses_vx {
                self.v(x)
            } else {
                self.v(0)
            },
        )
    }

    /// CXNN, for the random byte `byte`.
    pub open spec fn random(self, x: u8, nn: u8, byte: u8) -> ChipState {
        self.set_v(x, byte & nn)
    }

    /// DXYN: the `n` bytes at I are drawn as a sprite at (V[x], V[y]);
    /// V[F] tells whether a lit cell was put out.
    pub open spec fn display(self, x: u8, y: u8, n: u8) -> ChipState {
        let rows = self.sprite_rows(n);
        let at_x = self.v(x) as int;
        let at_y = self.v(y) as int;
        ChipState {
            pixels: spec_draw(self.pixels, at_x, at_y, rows),
            dirty: true,
            ..self
        }.set_flag(spec_collides(self.pixels, at_x, at_y, rows))
    }

    /// EX9E
    pub open spec fn skip_if_key_pressed(self, x: u8) -> ChipState {
        self.skip_when(self.key == Some(self.v(x)))
    }

    /// EXA1: skips also while no key is held.
    pub open spec fn skip_if_key_not_pressed(self, x: u8) -> ChipState {
        self.skip_when(self.key != Some(self.v(x)))
    }

    /// FX07
    pub open spec fn set_reg_to_delay(self, x: u8) -> ChipState {
        self.set_v(x, self.delay)
    }

    /// FX0A: with a key held, V[x] takes its code. With none, the program
    /// counter steps back onto this instruction, which is thus met again on
    /// the next cycle.
    pub open spec fn get_key(self, x: u8) -> ChipState {
        match self.key {
            Some(code) => self.set_v(x, code),
            None => self.goto(self.pc + 4096 - 2),
        }
    }

    /// FX15
    pub open spec fn set_delay_to_reg(self, x: u8) -> ChipState {
        ChipState { delay: self.v(x), ..self }
    }

    /// FX18
    pub open spec fn set_sound_to_vx(self, x: u8) -> ChipState {
        ChipState { sound: self.v(x), ..self }
    }

    /// FX1E: I takes I + V[x] to twelve bits; where the quirk says so, V[F]
    /// tells whether the sum left the addressable range.
    pub open spec fn add_to_index(self, x: u8) -> ChipState {
        let sum = self.index + self.v(x);
        let moved = self.advance_index(self.v(x) as int);
        if self.quirks.index_overflow_flag {
            moved.set_flag(sum > 4095)
        } else {
            moved
        }
    }

    /// FX29: I points at the glyph for the low nibble of V[x].
    pub open spec fn font_character(self, x: u8) -> ChipState {
        ChipState { index: ((self.v(x) % 16) * 5) as u16, ..self }
    }

    /// FX33: the hundreds, tens and units of V[x] go to I, I + 1 and I + 2.
    pub open spec fn binary_coded_dec_conv(self, x: u8) -> ChipState {
        let num = self.v(x);
        ChipState {
            memory: self.memory.update(self.addr(0), num / 100).update(
                self.addr(1),
                num / 10 % 10,
            ).update(self.addr(2), num % 10),
            ..self
        }
    }

    /// The state after FX55 or FX65 as far as I goes: advanced past the
    /// registers moved where the quirk says so.
    pub open spec fn after_transfer(self, x: u8) -> ChipState {
        if self.quirks.memory_advances_index {
            self.advance_index(x + 1)
        } else {
            self
        }
    }

    /// FX55: V[0] to V[x] go to memory from I on.
    pub open spec fn store_memory(self, x: u8) -> ChipState {
        ChipState {
            memory: Seq::new(
                4096,
                |a: int|
                    if self.offset_of(a) <= x {
                        self.regs[self.offset_of(a)]
                    } else {
                        self.memory[a]
                    },
            ),
            ..self
        }.after_transfer(x)
    }

    /// FX65: V[0] to V[x] are filled from memory from I on.
    pub open spec fn load_memory(self, x: u8) -> ChipState {
        ChipState {
            regs: Seq::new(
                16,
                |r: int|
                    if r <= x {
                        self.memory[self.addr(r)]
                    } else {
                        self.regs[r]
                    },
            ),
            ..self
        }.after_transfer(x)
    }

    /// Each timer drops by `ticks`, and stops at zero.
    pub open spec fn tick_timers(self, ticks: u64) -> ChipState {
        ChipState {
            delay: if self.delay > ticks {
                (self.delay - ticks) as u8
            } else {
                0u8
            },
            sound: if self.sound > ticks {
                (self.sound - ticks) as u8
            } else {
                0u8
            },
            ..self
        }
    }

    /// The state with the key latch holding `key`.
    pub open spec fn with_key(self, key: Option<u8>) -> ChipState {
        ChipState { key, ..self }
    }

    /// What an event from the host does: a quit request, or Escape going
    /// down, asks for the run to end; a pad key going down is latched; a pad
    /// key coming up empties the latch; nothing else matters.
    pub open spec fn poll_inputs(self, event: Option<InputEvent>) -> (MetaInputs, ChipState) {
        match event {
            Some(InputEvent::Quit) | Some(InputEvent::KeyDown(HostKey::Escape)) => (
                MetaInputs::Quit,
                self,
            ),
            Some(InputEvent::KeyDown(key)) => match spec_keypad_code(key) {
                Some(code) => (MetaInputs::PressedInput, self.with_key(Some(code))),
                None => (MetaInputs::Pass, self),
            },
            Some(InputEvent::KeyUp(key)) => match spec_keypad_code(key) {
                Some(code) => (MetaInputs::PressedInput, self.with_key(None)),
                None => (MetaInputs::Pass, self),
            },
            Some(InputEvent::Other) | None => (MetaInputs::Pass, self),
        }
    }

    /// The state once the host has been handed the frame buffer to present.
    pub open spec fn presented(self) -> ChipState {
        ChipState { dirty: false, ..self }
    }

    /// The rectangles to paint if the frame buffer waits to be presented,
    /// `None` if it does not.
    pub open spec fn frame(self) -> Option<Seq<CellRect>> {
        if self.dirty {
            Some(spec_white_rects(self.pixels))
        } else {
            None
        }
    }

    /// The state in which a turn of the host loop runs its cycle: the frame
    /// handed over, the event taken in and `ticks` ticks gone by.
    pub open spec fn before_cycle(self, event: Option<InputEvent>, ticks: u64) -> ChipState {
        self.presented().poll_inputs(event).1.tick_timers(ticks)
    }

    /// The cycle that a turn of the host loop runs.
    pub open spec fn turn_cycle(
        self,
        event: Option<InputEvent>,
        ticks: u64,
        random: u8,
    ) -> Result<ChipState, ChipError> {
        self.before_cycle(event, ticks).cycle(random)
    }

    /// The effect of one operation. `random` is the byte that chance
    /// supplies; only CXNN looks at it. A return with nothing to return to
    /// and a call with the stack full are the two operations that fail.
    #[verifier::opaque]
    pub open spec fn apply(self, op: Operation, random: u8) -> Result<ChipState, ChipError> {
        match op {
            Operation::ClearScreen => Ok(self.clear_screen()),
            Operation::Return => if self.stack.len() == 0 {
                Err(ChipError::StackUnderflow)
            } else {
                Ok(self.subroutine_return())
            },
            Operation::Jump { nnn } => Ok(self.jump(nnn)),
            Operation::Call { nnn } => if self.stack.len() >= STACK_LIMIT {
                Err(ChipError::StackOverflow)
            } else {
                Ok(self.subroutine_call(nnn))
            },
            Operation::SkipEqualByte { x, nn } => Ok(self.skip_equal_unary(x, nn)),
            Operation::SkipNotEqualByte { x, nn } => Ok(self.skip_not_equal_unary(x, nn)),
            Operation::SkipEqual { x, y } => Ok(self.skip_equal_binary(x, y)),
            Operation::SetByte { x, nn } => Ok(self.set_value(x, nn)),
            Operation::AddByte { x, nn } => Ok(self.add_noncarry(x, nn)),
            Operation::Copy { x, y } => Ok(self.set_registers(x, y)),
            Operation::Or { x, y } => Ok(self.binary_or(x, y)),
            Operation::And { x, y } => Ok(self.binary_and(x, y)),
            Operation::Xor { x, y } => Ok(self.logical_xor(x, y)),
            Operation::AddCarry { x, y } => Ok(self.add_carry(x, y)),
            Operation::SubtractVx { x, y } => Ok(self.subtract_vx(x, y)),
            Operation::ShiftRight { x, y } => Ok(self.shift_right(x, y)),
            Operation::SubtractVy { x, y } => Ok(self.subtract_vy(x, y)),
            Operation::ShiftLeft { x, y } => Ok(self.shift_left(x, y)),
            Operation::SkipNotEqual { x, y } => Ok(self.skip_not_equal_binary(x, y)),
            Operation::SetIndex { nnn } => Ok(self.set_index(nnn)),
            Operation::JumpOffset { x, nnn } => Ok(self.jump_with_offset(x, nnn)),
            Operation::Random { x, nn } => Ok(self.random(x, nn, random)),
            Operation::Draw { x, y, n } => Ok(self.display(x, y, n)),
            Operation::SkipKey { x } => Ok(self.skip_if_key_pressed(x)),
            Operation::SkipNotKey { x } => Ok(self.skip_if_key_not_pressed(x)),
            Operation::ReadDelay { x } => Ok(self.set_reg_to_delay(x)),
            Operation::WaitKey { x } => Ok(self.get_key(x)),
            Operation::SetDelay { x } => Ok(self.set_delay_to_reg(x)),
            Operation::SetSound { x } => Ok(self.set_sound_to_vx(x)),
            Operation::AddIndex { x } => Ok(self.add_to_index(x)),
            Operation::FontCharacter { x } => Ok(self.font_character(x)),
            Operation::Decimal { x } => Ok(self.binary_coded_dec_conv(x)),
            Operation::Store { x } => Ok(self.store_memory(x)),
            Operation::Load { x } => Ok(self.load_memory(x)),
        }
    }

    /// The operation that the word at the program counter names.
    pub open spec fn next_operation(self) -> Option<Operation> {
        InstructionWord::spec_decode(self.word_at_pc()).spec_operation()
    }

    /// One cycle: the word at the program counter is fetched, the program
    /// counter moves past it, and the operation it names takes effect. A
    /// word that names none is an error that carries the word and where it
    /// stood.
    pub open spec fn cycle(self, random: u8) -> Result<ChipState, ChipError> {
        match self.next_operation() {
            Some(op) => self.goto(self.pc + 2).apply(op, random),
            None => Err(ChipError::UnknownOpcode { word: self.word_at_pc(), pc: self.pc }),
        }
    }
}

/// Every operation that succeeds leaves a valid machine valid.
pub proof fn lemma_apply_preserves_wf(s: ChipState, op: Operation, random: u8)
    requires
        s.wf(),
        op.wf(),
    ensures
        s.apply(op, random) matches Ok(t) ==> t.wf(),
{
    reveal(ChipState::apply);
    match op {
        Operation::Draw { x, y, n } => {
            lemma_draw_len(s.pixels, s.v(x) as int, s.v(y) as int, s.sprite_rows(n));
        },
        _ => {},
    }
}

/// Every cycle that succeeds leaves a valid machine valid.
pub proof fn lemma_cycle_preserves_wf(s: ChipState, random: u8)
    requires
        s.wf(),
    ensures
        s.cycle(random) matches Ok(t) ==> t.wf(),
{
    lemma_decode_encodes(s.word_at_pc());
    match s.next_operation() {
        Some(op) => {
            lemma_apply_preserves_wf(s.goto(s.pc + 2), op, random);
        },
        None => {},
    }
}

/// Chance enters a cycle through CXNN alone: whatever else stands at the
/// program counter, the cycle comes out the same for every random byte.
pub proof fn lemma_chance_only_in_random(s: ChipState, a: u8, b: u8)
    requires
        !(s.next_operation() matches Some(Operation::Random { .. })),
    ensures
        s.cycle(a) == s.cycle(b),
{
    reveal(ChipState::apply);
}

/// A call on a stack with room succeeds and jumps to its target, and the
/// return that follows it undoes it: the machine is back in the state in
/// which the call was made, its program counter on the instruction after
/// the call.
pub proof fn lemma_call_then_return(s: ChipState, nnn: u16, random: u8)
    requires
        s.wf(),
        s.stack.len() < STACK_LIMIT,
    ensures
        s.apply(Operation::Call { nnn }, random) == Ok::<ChipState, ChipError>(
            s.subroutine_call(nnn),
        ),
        s.subroutine_call(nnn).pc == nnn % 4096,
        s.subroutine_call(nnn).stack.last() == s.pc,
        s.subroutine_call(nnn).apply(Operation::Return, random) == Ok::<ChipState, ChipError>(s),
{
    reveal(ChipState::apply);
    assert(s.subroutine_call(nnn).subroutine_return() =~= s);
}

/// The same over whole cycles: if the word at the program counter is a call
/// and the word at its target a return, two cycles take the machine to the
/// instruction that follows the call and change nothing else.
pub proof fn lemma_call_return_cycles(s: ChipState, nnn: u16, first: u8, second: u8)
    requires
        s.wf(),
        s.stack.len() < STACK_LIMIT,
        s.next_operation() == Some(Operation::Call { nnn }),
        s.cycle(first) matches Ok(t) && t.next_operation() == Some(Operation::Return),
    ensures
        s.cycle(first) matches Ok(t) && t.pc == nnn % 4096 && t.cycle(second) == Ok::<
            ChipState,
            ChipError,
        >(s.goto(s.pc + 2)),
{
    reveal(ChipState::apply);
    lemma_call_then_return(s.goto(s.pc + 2), nnn, first);
}

/// A return with nothing on the stack fails with `StackUnderflow`, and a
/// call with the stack full with `StackOverflow`; no other operation fails.
pub proof fn lemma_apply_failures(s: ChipState, op: Operation, random: u8)
    ensures
        s.apply(op, random) is Err <==> (op is Return && s.stack.len() == 0) || (op is Call
            && s.stack.len() >= STACK_LIMIT),
        op is Return && s.stack.len() == 0 ==> s.apply(op, random) == Err::<ChipState, ChipError>(
            ChipError::StackUnderflow,
        ),
        op is Call && s.stack.len() >= STACK_LIMIT ==> s.apply(op, random) == Err::<
            ChipState,
            ChipError,
        >(ChipError::StackOverflow),
{
    reveal(ChipState::apply);
}

/// FX33 writes the decimal digits of V[x]: each is at most 9, and read as
/// hundreds, tens and units they make up V[x] again. Nothing else in memory
/// changes.
pub proof fn lemma_decimal_digits(s: ChipState, x: u8)
    requires
        s.wf(),
        x < 16,
    ensures
        ({
            let t = s.binary_coded_dec_conv(x);
            let (h, d, u) = (t.memory[s.addr(0)], t.memory[s.addr(1)], t.memory[s.addr(2)]);
            &&& h <= 9 && d <= 9 && u <= 9
            &&& h * 100 + d * 10 + u == s.v(x)
            &&& forall|a: int|
                0 <= a < 4096 && a != s.addr(0) && a != s.addr(1) && a != s.addr(2)
                    ==> t.memory[a] == s.memory[a]
        }),
{
}

/// Timers never rise and never pass zero: after `ticks` ticks each stands at
/// what was left of it, or at zero if that much was not left.
pub proof fn lemma_timers_saturate(s: ChipState, ticks: u64)
    ensures
        s.tick_timers(ticks).delay == if s.delay >= ticks {
            s.delay - ticks
        } else {
            0
        },
        s.tick_timers(ticks).sound == if s.sound >= ticks {
            s.sound - ticks
        } else {
            0
        },
        s.tick_timers(ticks).delay <= s.delay,
        s.tick_timers(ticks).sound <= s.sound,
{
}

/// Ticks add up: letting `a` ticks pass and then `b` is letting `a + b` pass.
pub proof fn lemma_ticks_add_up(s: ChipState, a: u64, b: u64)
    requires
        a + b <= u64::MAX,
    ensures
        s.tick_timers(a).tick_timers(b) == s.tick_timers((a + b) as u64),
{
}

} // verus!
