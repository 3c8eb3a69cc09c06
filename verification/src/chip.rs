//! The machine itself: registers, memory, call stack, timers, frame buffer
//! and key latch, and the fetch-decode-execute cycle that drives them.

use vstd::prelude::*;
use crate::chip::stack::Stack;
use crate::display::{CellRect, Display};
use crate::error::ChipError;
use crate::input::{keypad_code, HostKey, InputEvent, InputLatch, MetaInputs};
use crate::instr::{InstructionWord, Operation};
use crate::quirks::Quirks;
use crate::rng::random_byte;
use crate::timer::TimerClock;
use crate::state::{
    initial_memory, realises, ChipState, FONT, PROGRAM_START, RAM_SIZE, STACK_LIMIT,
};

pub mod stack;

verus! {

/// A machine. Its view is the `ChipState` it stands for, and every method
/// says of that view what the model says of the operation.
pub struct Chip {
    // Only 12 bits are used in program_counter and index_register.
    program_counter: u16,
    index_register: u16,
    registers: [u8; 16],
    memory: [u8; 4096],
    // Return addresses of 12 bits each.
    stack: Stack<u16>,
    delay_timer: u8,
    sound_timer: u8,
    screen: Display,
    keys: InputLatch,
    quirks: Quirks,
}

impl View for Chip {
    type V = ChipState;

    closed spec fn view(&self) -> ChipState {
        ChipState {
            quirks: self.quirks,
            pc: self.program_counter,
            index: self.index_register,
            regs: self.registers@,
            memory: self.memory@,
            stack: self.stack@,
            delay: self.delay_timer,
            sound: self.sound_timer,
            pixels: self.screen.data@,
            dirty: self.screen.redraw,
            key: self.keys@,
        }
    }
}

/// What a turn of the host loop hands back to the host.
#[derive(Debug)]
pub struct HostTurn {
    /// The rectangles to paint on a cleared surface, if the frame buffer
    /// waited to be presented.
    pub frame: Option<Vec<CellRect>>,
    /// What became of the event.
    pub meta: MetaInputs,
    /// How the cycle ended; `Ok` if none was run.
    pub result: Result<(), ChipError>,
}

/// Sixteen registers, all zero.
pub fn initialize_registers() -> (registers: [u8; 16])
    ensures
        registers@ == Seq::new(16, |i: int| 0u8),
{
    [0u8; 16]
}

/// A memory that holds the font at its bottom and zero everywhere else.
pub fn initialize_font() -> (memory: [u8; 4096])
    ensures
        memory@ == initial_memory(),
{
    let mut memory = [0u8; 4096];
    let mut index: usize = 0;
    while index < 80
        invariant
            index <= 80,
            forall|a: int| 0 <= a < index ==> memory@[a] == FONT@[a],
            forall|a: int| index <= a < 4096 ==> memory@[a] == 0,
        decreases 80 - index,
    {
        memory[index] = FONT[index];
        index += 1;
    }
    memory
}

impl Chip {
    /// A fresh machine with every quirk in its older position.
    pub fn new() -> (chip: Chip)
        ensures
            chip@ == ChipState::initial(Quirks::legacy()),
            chip@.wf(),
    {
        Chip::with_quirks(Quirks::legacy())
    }

    /// A fresh machine with the given quirks.
    pub fn with_quirks(quirks: Quirks) -> (chip: Chip)
        ensures
            chip@ == ChipState::initial(quirks),
            chip@.wf(),
    {
        let chip = Chip {
            program_counter: 0,
            index_register: 0,
            registers: initialize_registers(),
            memory: initialize_font(),
            stack: Stack::new(),
            delay_timer: 0,
            sound_timer: 0,
            screen: Display::new(),
            keys: InputLatch::new(),
            quirks,
        };
        chip
    }

    /// The quirks that the machine was built with.
    pub fn quirks(&self) -> (quirks: Quirks)
        ensures
            quirks == self@.quirks,
    {
        self.quirks
    }

    /// The address of the next instruction.
    pub fn program_counter(&self) -> (pc: u16)
        ensures
            pc == self@.pc,
    {
        self.program_counter
    }

    /// The index register I.
    pub fn index_register(&self) -> (index: u16)
        ensures
            index == self@.index,
    {
        self.index_register
    }

    /// The value of register V[x].
    pub fn register(&self, x: u8) -> (val: u8)
        requires
            x < 16,
        ensures
            val == self@.v(x),
    {
        self.registers[x as usize]
    }

    /// The byte of memory at `addr`.
    pub fn memory_at(&self, addr: usize) -> (byte: u8)
        requires
            addr < RAM_SIZE,
        ensures
            byte == self@.memory[addr as int],
    {
        self.memory[addr]
    }

    /// The number of return addresses on the call stack.
    pub fn stack_depth(&self) -> (depth: usize)
        ensures
            depth == self@.stack.len(),
    {
        self.stack.len()
    }

    /// The delay timer.
    pub fn delay_timer(&self) -> (delay: u8)
        ensures
            delay == self@.delay,
    {
        self.delay_timer
    }

    /// The sound timer. The host sounds its tone while this is not zero.
    pub fn sound_timer(&self) -> (sound: u8)
        ensures
            sound == self@.sound,
    {
        self.sound_timer
    }

    /// The frame buffer, to be read between cycles.
    pub fn screen(&self) -> (screen: &Display)
        ensures
            screen.data@ == self@.pixels,
            screen.redraw == self@.dirty,
    {
        &self.screen
    }

    /// Records that the host has presented the frame buffer.
    pub fn acknowledge_frame(&mut self)
        requires
            old(self)@.wf(),
        ensures
            final(self)@ == (ChipState { dirty: false, ..old(self)@ }),
            final(self)@.wf(),
    {
        self.screen.acknowledge();
    }

    /// The pad key that is held down, if any.
    pub fn current_key(&self) -> (key: Option<u8>)
        ensures
            key == self@.key,
    {
        self.keys.current_key()
    }

    /// Records that pad key `code` went down.
    pub fn key_down(&mut self, code: u8)
        requires
            old(self)@.wf(),
            code < 16,
        ensures
            final(self)@ == old(self)@.with_key(Some(code)),
            final(self)@.wf(),
    {
        self.keys.key_down(code);
    }

    /// Records that pad key `code` came up.
    pub fn key_up(&mut self, code: u8)
        requires
            old(self)@.wf(),
        ensures
            final(self)@ == old(self)@.with_key(None),
            final(self)@.wf(),
    {
        self.keys.key_up(code);
    }

    /// Takes in what the host saw happen, or `None` if nothing did, and
    /// says what became of it. The host ends the run on `Quit`.
    pub fn poll_inputs(&mut self, event: Option<InputEvent>) -> (meta: MetaInputs)
        requires
            old(self)@.wf(),
        ensures
            (meta, final(self)@) == old(self)@.poll_inputs(event),
            final(self)@.wf(),
    {
        match event {
            Some(InputEvent::Quit) => MetaInputs::Quit,
            Some(InputEvent::KeyDown(HostKey::Escape)) => MetaInputs::Quit,
            Some(InputEvent::KeyDown(key)) => match keypad_code(key) {
                Some(code) => {
                    self.key_down(code);
                    MetaInputs::PressedInput
                },
                None => MetaInputs::Pass,
            },
            Some(InputEvent::KeyUp(key)) => match keypad_code(key) {
                Some(code) => {
                    self.key_up(code);
                    MetaInputs::PressedInput
                },
                None => MetaInputs::Pass,
            },
            Some(InputEvent::Other) => MetaInputs::Pass,
            None => MetaInputs::Pass,
        }
    }

    /// Lets `ticks` ticks of the timer clock pass.
    pub fn tick_timers(&mut self, ticks: u64)
        requires
            old(self)@.wf(),
        ensures
            final(self)@ == old(self)@.tick_timers(ticks),
            final(self)@.wf(),
    {
        self.delay_timer = if self.delay_timer as u64 > ticks {
            self.delay_timer - ticks as u8
        } else {
            0
        };
        self.sound_timer = if self.sound_timer as u64 > ticks {
            self.sound_timer - ticks as u8
        } else {
            0
        };
    }

    /// Copies `program` into memory from the program start on and points
    /// the program counter at it. A program that would run past the end of
    /// memory is refused and nothing is changed.
    pub fn load_program(&mut self, program: &[u8]) -> (result: Result<(), ChipError>)
        requires
            old(self)@.wf(),
        ensures
            program@.len() <= RAM_SIZE - PROGRAM_START ==> result is Ok && final(self)@ == old(
                self,
            )@.load_program(program@),
            program@.len() > RAM_SIZE - PROGRAM_START ==> result == Err::<(), ChipError>(
                ChipError::ProgramLoadError { size: program.len() },
            ) && final(self)@ == old(self)@,
            final(self)@.wf(),
    {
        if program.len() > RAM_SIZE - PROGRAM_START as usize {
            return Err(ChipError::ProgramLoadError { size: program.len() });
        }
        copy_bytes(&mut self.memory, PROGRAM_START as usize, program);
        self.program_counter = PROGRAM_START;
        Ok(())
    }

    /// Reads the word at the program counter and moves the program counter
    /// past it. An even program counter stays even.
    pub fn fetch(&mut self) -> (word: u16)
        requires
            old(self)@.wf(),
        ensures
            word == old(self)@.word_at_pc(),
            final(self)@ == old(self)@.goto(old(self)@.pc + 2),
            old(self)@.pc % 2 == 0 ==> final(self)@.pc % 2 == 0,
            final(self)@.wf(),
    {
        let high: u16 = self.memory[self.program_counter as usize] as u16;
        let low: u16 = self.memory[((self.program_counter + 1) % 4096) as usize] as u16;
        assert((high << 8) | low == high * 256 + low) by (bit_vector)
            requires
                high < 256,
                low < 256,
        ;
        self.program_counter = (self.program_counter + 2) % 4096;
        (high << 8) | low
    }

    /// 00E0
    pub fn clear_screen(&mut self)
        requires
            old(self)@.wf(),
        ensures
            final(self)@ == old(self)@.clear_screen(),
            final(self)@.wf(),
    {
        self.screen.clear_screen()
    }

    /// 00EE. With nothing on the stack this fails and changes nothing.
    pub fn subroutine_return(&mut self) -> (result: Result<(), ChipError>)
        requires
            old(self)@.wf(),
        ensures
            realises(old(self)@.apply(Operation::Return, 0), old(self)@, result, final(self)@),
            final(self)@.wf(),
    {
        proof {
            reveal(ChipState::apply);
        }
        if self.stack.is_empty() {
            return Err(ChipError::StackUnderflow);
        }
        self.program_counter = self.stack.pop();
        Ok(())
    }

    /// 1NNN
    pub fn jump(&mut self, nnn: u16)
        requires
            old(self)@.wf(),
        ensures
            final(self)@ == old(self)@.jump(nnn),
            final(self)@.wf(),
    {
        self.program_counter = nnn % 4096;
    }

    /// 2NNN. With the stack full this fails and changes nothing.
    pub fn subroutine_call(&mut self, nnn: u16) -> (result: Result<(), ChipError>)
        requires
            old(self)@.wf(),
        ensures
            realises(
                old(self)@.apply(Operation::Call { nnn }, 0),
                old(self)@,
                result,
                final(self)@,
            ),
            final(self)@.wf(),
    {
        proof {
            reveal(ChipState::apply);
        }
        if self.stack.len() >= STACK_LIMIT {
            return Err(ChipError::StackOverflow);
        }
        self.stack.push(self.program_counter);
        self.program_counter = nnn % 4096;
        Ok(())
    }

    /// Moves the program counter past one instruction.
    fn skip(&mut self)
        requires
            old(self)@.wf(),
        ensures
            final(self)@ == old(self)@.skip_when(true),
            final(self)@.wf(),
    {
        self.program_counter = (self.program_counter + 2) % 4096;
    }

    /// 3XNN
    pub fn skip_equal_unary(&mut self, x: u8, nn: u8)
        requires
            old(self)@.wf(),
            x < 16,
        ensures
            final(self)@ == old(self)@.skip_equal_unary(x, nn),
            final(self)@.wf(),
    {
        let reg_val: u8 = self.registers[x as usize];
        if reg_val == nn {
            self.skip();
        }
    }

    /// 4XNN
    pub fn skip_not_equal_unary(&mut self, x: u8, nn: u8)
        requires
            old(self)@.wf(),
            x < 16,
        ensures
            final(self)@ == old(self)@.skip_not_equal_unary(x, nn),
            final(self)@.wf(),
    {
        let reg_val: u8 = self.registers[x as usize];
        if reg_val != nn {
            self.skip();
        }
    }

    /// 5XY0
    pub fn skip_equal_binary(&mut self, x: u8, y: u8)
        requires
            old(self)@.wf(),
            x < 16,
            y < 16,
        ensures
            final(self)@ == old(self)@.skip_equal_binary(x, y),
            final(self)@.wf(),
    {
        if self.registers[x as usize] == self.registers[y as usize] {
            self.skip();
        }
    }

    /// Puts `val` into V[x].
    fn write_register(&mut self, x: u8, val: u8)
        requires
            old(self)@.wf(),
            x < 16,
        ensures
            final(self)@ == old(self)@.set_v(x, val),
            final(self)@.wf(),
    {
        self.registers[x as usize] = val;
    }

    /// 6XNN
    pub fn set_value(&mut self, x: u8, nn: u8)
        requires
            old(self)@.wf(),
            x < 16,
        ensures
            final(self)@ == old(self)@.set_value(x, nn),
            final(self)@.wf(),
    {
        self.write_register(x, nn);
    }

    /// 7XNN
    pub fn add_noncarry(&mut self, x: u8, nn: u8)
        requires
            old(self)@.wf(),
            x < 16,
        ensures
            final(self)@ == old(self)@.add_noncarry(x, nn),
            final(self)@.wf(),
    {
        let sum: u8 = self.registers[x as usize].wrapping_add(nn);
        self.write_register(x, sum);
    }

    /// 8XY0
    pub fn set_registers(&mut self, x: u8, y: u8)
        requires
            old(self)@.wf(),
            x < 16,
            y < 16,
        ensures
            final(self)@ == old(self)@.set_registers(x, y),
            final(self)@.wf(),
    {
        let val: u8 = self.registers[y as usize];
        self.write_register(x, val);
    }

    /// 8XY1
    pub fn binary_or(&mut self, x: u8, y: u8)
        requires
            old(self)@.wf(),
            x < 16,
            y < 16,
        ensures
            final(self)@ == old(self)@.binary_or(x, y),
            final(self)@.wf(),
    {
        let val: u8 = self.registers[x as usize] | self.registers[y as usize];
        self.write_register(x, val);
    }

    /// 8XY2
    pub fn binary_and(&mut self, x: u8, y: u8)
        requires
            old(self)@.wf(),
            x < 16,
            y < 16,
        ensures
            final(self)@ == old(self)@.binary_and(x, y),
            final(self)@.wf(),
    {
        let val: u8 = self.registers[x as usize] & self.registers[y as usize];
        self.write_register(x, val);
    }

    /// 8XY3
    pub fn logical_xor(&mut self, x: u8, y: u8)
        requires
            old(self)@.wf(),
            x < 16,
            y < 16,
        ensures
            final(self)@ == old(self)@.logical_xor(x, y),
            final(self)@.wf(),
    {
        let val: u8 = self.registers[x as usize] ^ self.registers[y as usize];
        self.write_register(x, val);
    }

    /// 8XY4
    pub fn add_carry(&mut self, x: u8, y: u8)
        requires
            old(self)@.wf(),
            x < 16,
            y < 16,
        ensures
            final(self)@ == old(self)@.add_carry(x, y),
            final(self)@.wf(),
    {
        let operation_res: u16 = self.registers[x as usize] as u16 + self.registers[y as usize] as u16;
        self.write_register(x, (operation_res % 256) as u8);
        self.write_register(0xF, if operation_res > 0xFF { 1 } else { 0 });
    }

    /// 8XY5
    pub fn subtract_vx(&mut self, x: u8, y: u8)
        requires
            old(self)@.wf(),
            x < 16,
            y < 16,
        ensures
            final(self)@ == old(self)@.subtract_vx(x, y),
            final(self)@.wf(),
    {
        let vx: u8 = self.registers[x as usize];
        let vy: u8 = self.registers[y as usize];
        let new_vf: u8 = if vx < vy { 0 } else { 1 };
        self.write_register(x, vx.wrapping_sub(vy));
        self.write_register(0xF, new_vf);
    }

    /// 8XY6
    pub fn shift_right(&mut self, x: u8, y: u8)
        requires
            old(self)@.wf(),
            x < 16,
            y < 16,
        ensures
            final(self)@ == old(self)@.shift_right(x, y),
            final(self)@.wf(),
    {
        let source: u8 = if self.quirks.shift_uses_vy {
            self.registers[y as usize]
        } else {
            self.registers[x as usize]
        };
        assert(source >> 1 == source / 2 && source & 0b0000_0001 == source % 2) by (bit_vector);
        self.write_register(x, source >> 1);
        self.write_register(0xF, source & 0b0000_0001);
    }

    /// 8XYE
    pub fn shift_left(&mut self, x: u8, y: u8)
        requires
            old(self)@.wf(),
            x < 16,
            y < 16,
        ensures
            final(self)@ == old(self)@.shift_left(x, y),
            final(self)@.wf(),
    {
        let source: u8 = if self.quirks.shift_uses_vy {
            self.registers[y as usize]
        } else {
            self.registers[x as usize]
        };
        assert(source << 1 == source * 2 % 256 && (source & 0b1000_0000) >> 7 == source / 128)
            by (bit_vector);
        self.write_register(x, source << 1);
        self.write_register(0xF, (source & 0b1000_0000) >> 7);
    }

    /// 8XY7
    pub fn subtract_vy(&mut self, x: u8, y: u8)
        requires
            old(self)@.wf(),
            x < 16,
            y < 16,
        ensures
            final(self)@ == old(self)@.subtract_vy(x, y),
            final(self)@.wf(),
    {
        let vx: u8 = self.registers[x as usize];
        let vy: u8 = self.registers[y as usize];
        let new_vf: u8 = if vy < vx { 0 } else { 1 };
        self.write_register(x, vy.wrapping_sub(vx));
        self.write_register(0xF, new_vf);
    }

    /// 9XY0
    pub fn skip_not_equal_binary(&mut self, x: u8, y: u8)
        requires
            old(self)@.wf(),
            x < 16,
            y < 16,
        ensures
            final(self)@ == old(self)@.skip_not_equal_binary(x, y),
            final(self)@.wf(),
    {
        if self.registers[x as usize] != self.registers[y as usize] {
            self.skip();
        }
    }

    /// ANNN
    pub fn set_index(&mut self, nnn: u16)
        requires
            old(self)@.wf(),
        ensures
            final(self)@ == old(self)@.set_index(nnn),
            final(self)@.wf(),
    {
        self.index_register = nnn % 4096;
    }

    /// BNNN, `x` being the second nibble of the instruction.
    pub fn jump_with_offset(&mut self, x: u8, nnn: u16)
        requires
            old(self)@.wf(),
            x < 16,
        ensures
            final(self)@ == old(self)@.jump_with_offset(x, nnn),
            final(self)@.wf(),
    {
        let offset: u8 = if self.quirks.jump_uses_vx {
            self.registers[x as usize]
        } else {
            self.registers[0]
        };
        self.program_counter = ((nnn as u32 + offset as u32) % 4096) as u16;
    }

    /// CXNN: V[x] takes a random byte masked by `nn`.
    pub fn random(&mut self, x: u8, nn: u8)
        requires
            old(self)@.wf(),
            x < 16,
        ensures
            exists|byte: u8| final(self)@ == old(self)@.random(x, nn, byte),
            final(self)@.wf(),
    {
        let byte: u8 = random_byte();
        self.set_random(x, nn, byte);
    }

    /// CXNN once chance has supplied `byte`.
    pub fn set_random(&mut self, x: u8, nn: u8, byte: u8)
        requires
            old(self)@.wf(),
            x < 16,
        ensures
            final(self)@ == old(self)@.random(x, nn, byte),
            final(self)@.wf(),
    {
        self.write_register(x, byte & nn);
    }

    /// DXYN
    pub fn display(&mut self, x: u8, y: u8, n: u8)
        requires
            old(self)@.wf(),
            x < 16,
            y < 16,
        ensures
            final(self)@ == old(self)@.display(x, y, n),
            final(self)@.wf(),
    {
        let x_coord: u8 = self.registers[x as usize];
        let y_coord: u8 = self.registers[y as usize];
        let mut rows: Vec<u8> = Vec::new();
        let mut y_line: u8 = 0;
        while y_line < n
            invariant
                y_line <= n,
                self.index_register < 4096,
                rows@ == Seq::new(
                    y_line as nat,
                    |j: int| self.memory@[(self.index_register + j) % 4096],
                ),
            decreases n - y_line,
        {
            let addr: usize = (self.index_register as usize + y_line as usize) % 4096;
            rows.push(self.memory[addr]);
            y_line += 1;
        }
        assert(rows@ =~= old(self)@.sprite_rows(n));
        let flipped: bool = self.screen.draw_sprite(x_coord, y_coord, rows.as_slice());
        self.registers[0xF] = if flipped { 1 } else { 0 };
    }

    /// EX9E
    pub fn skip_if_key_pressed(&mut self, x: u8)
        requires
            old(self)@.wf(),
            x < 16,
        ensures
            final(self)@ == old(self)@.skip_if_key_pressed(x),
            final(self)@.wf(),
    {
        let key: u8 = self.registers[x as usize];
        match self.keys.current_key() {
            Some(a) => {
                if key == a {
                    self.skip();
                }
            },
            None => {},
        }
    }

    /// EXA1
    pub fn skip_if_key_not_pressed(&mut self, x: u8)
        requires
            old(self)@.wf(),
            x < 16,
        ensures
            final(self)@ == old(self)@.skip_if_key_not_pressed(x),
            final(self)@.wf(),
    {
        let key: u8 = self.registers[x as usize];
        match self.keys.current_key() {
            Some(a) => {
                if key != a {
                    self.skip();
                }
            },
            None => {
                self.skip();
            },
        }
    }

    /// FX07
    pub fn set_reg_to_delay(&mut self, x: u8)
        requires
            old(self)@.wf(),
            x < 16,
        ensures
            final(self)@ == old(self)@.set_reg_to_delay(x),
            final(self)@.wf(),
    {
        let delay: u8 = self.delay_timer;
        self.write_register(x, delay);
    }

    /// FX0A. While no key is held the program counter is put back onto
    /// this instruction, so that the host can go on serving its events and
    /// the wait is taken up again on the next cycle.
    pub fn get_key(&mut self, x: u8)
        requires
            old(self)@.wf(),
            x < 16,
        ensures
            final(self)@ == old(self)@.get_key(x),
            final(self)@.wf(),
    {
        match self.keys.current_key() {
            Some(code) => {
                self.write_register(x, code);
            },
            None => {
                self.program_counter = (self.program_counter + 4094) % 4096;
            },
        }
    }

    /// FX15
    pub fn set_delay_to_reg(&mut self, x: u8)
        requires
            old(self)@.wf(),
            x < 16,
        ensures
            final(self)@ == old(self)@.set_delay_to_reg(x),
            final(self)@.wf(),
    {
        self.delay_timer = self.registers[x as usize];
    }

    /// FX18
    pub fn set_sound_to_vx(&mut self, x: u8)
        requires
            old(self)@.wf(),
            x < 16,
        ensures
            final(self)@ == old(self)@.set_sound_to_vx(x),
            final(self)@.wf(),
    {
        self.sound_timer = self.registers[x as usize];
    }

    /// FX1E
    pub fn add_to_index(&mut self, x: u8)
        requires
            old(self)@.wf(),
            x < 16,
        ensures
            final(self)@ == old(self)@.add_to_index(x),
            final(self)@.wf(),
    {
        let sum: u16 = self.index_register + self.registers[x as usize] as u16;
        self.index_register = sum % 4096;
        if self.quirks.index_overflow_flag {
            self.registers[0xF] = if sum > 0x0FFF { 1 } else { 0 };
        }
    }

    /// FX29
    pub fn font_character(&mut self, x: u8)
        requires
            old(self)@.wf(),
            x < 16,
        ensures
            final(self)@ == old(self)@.font_character(x),
            final(self)@.wf(),
    {
        let val: u8 = self.registers[x as usize];
        assert(val & 0xF == val % 16) by (bit_vector);
        self.index_register = (val & 0xF) as u16 * 5;
    }

    /// FX33
    pub fn binary_coded_dec_conv(&mut self, x: u8)
        requires
            old(self)@.wf(),
            x < 16,
        ensures
            final(self)@ == old(self)@.binary_coded_dec_conv(x),
            final(self)@.wf(),
    {
        let num: u8 = self.registers[x as usize];
        let index: usize = self.index_register as usize;
        self.memory[index] = num / 100;
        self.memory[(index + 1) % 4096] = (num % 100) / 10;
        self.memory[(index + 2) % 4096] = num % 10;
    }

    /// Moves I past the registers that FX55 or FX65 dealt with, if the
    /// quirk asks for it.
    fn finish_transfer(&mut self, x: u8)
        requires
            old(self)@.wf(),
            x < 16,
        ensures
            final(self)@ == old(self)@.after_transfer(x),
            final(self)@.wf(),
    {
        if self.quirks.memory_advances_index {
            self.index_register = (self.index_register + x as u16 + 1) % 4096;
        }
    }

    /// FX55
    pub fn store_memory(&mut self, x: u8)
        requires
            old(self)@.wf(),
            x < 16,
        ensures
            final(self)@ == old(self)@.store_memory(x),
            final(self)@.wf(),
    {
        let ghost before = self@;
        let mut reg: u8 = 0;
        while reg <= x
            invariant
                reg <= x + 1,
                x < 16,
                before.wf(),
                self@ == (ChipState { memory: self.memory@, ..before }),
                forall|a: int|
                    0 <= a < 4096 ==> self.memory@[a] == if before.offset_of(a) < reg {
                        before.regs[before.offset_of(a)]
                    } else {
                        before.memory[a]
                    },
            decreases x + 1 - reg,
        {
            let addr: usize = (self.index_register as usize + reg as usize) % 4096;
            proof {
                assert forall|a: int| 0 <= a < 4096 implies (before.offset_of(a) == reg <==> a
                    == addr) by {
                    lemma_offset_of_address(before.index as int, reg as int, a);
                }
            }
            self.memory[addr] = self.registers[reg as usize];
            reg += 1;
        }
        self.finish_transfer(x);
    }

    /// FX65
    pub fn load_memory(&mut self, x: u8)
        requires
            old(self)@.wf(),
            x < 16,
        ensures
            final(self)@ == old(self)@.load_memory(x),
            final(self)@.wf(),
    {
        let ghost before = self@;
        let mut reg: u8 = 0;
        while reg <= x
            invariant
                reg <= x + 1,
                x < 16,
                before.wf(),
                self@ == (ChipState { regs: self.registers@, ..before }),
                forall|r: int|
                    0 <= r < 16 ==> self.registers@[r] == if r < reg {
                        before.memory[before.addr(r)]
                    } else {
                        before.regs[r]
                    },
            decreases x + 1 - reg,
        {
            let addr: usize = (self.index_register as usize + reg as usize) % 4096;
            self.registers[reg as usize] = self.memory[addr];
            reg += 1;
        }
        self.finish_transfer(x);
    }

    /// Carries out `op`, with `random` for the byte that CXNN asks of
    /// chance. On failure nothing is changed.
    pub fn execute(&mut self, op: Operation, random: u8) -> (result: Result<(), ChipError>)
        requires
            old(self)@.wf(),
            op.wf(),
        ensures
            realises(old(self)@.apply(op, random), old(self)@, result, final(self)@),
            final(self)@.wf(),
    {
        proof {
            reveal(ChipState::apply);
        }
        match op {
            Operation::ClearScreen => self.clear_screen(),
            Operation::Return => {
                return self.subroutine_return();
            },
            Operation::Jump { nnn } => self.jump(nnn),
            Operation::Call { nnn } => {
                return self.subroutine_call(nnn);
            },
            Operation::SkipEqualByte { x, nn } => self.skip_equal_unary(x, nn),
            Operation::SkipNotEqualByte { x, nn } => self.skip_not_equal_unary(x, nn),
            Operation::SkipEqual { x, y } => self.skip_equal_binary(x, y),
            Operation::SetByte { x, nn } => self.set_value(x, nn),
            Operation::AddByte { x, nn } => self.add_noncarry(x, nn),
            Operation::Copy { x, y } => self.set_registers(x, y),
            Operation::Or { x, y } => self.binary_or(x, y),
            Operation::And { x, y } => self.binary_and(x, y),
            Operation::Xor { x, y } => self.logical_xor(x, y),
            Operation::AddCarry { x, y } => self.add_carry(x, y),
            Operation::SubtractVx { x, y } => self.subtract_vx(x, y),
            Operation::ShiftRight { x, y } => self.shift_right(x, y),
            Operation::SubtractVy { x, y } => self.subtract_vy(x, y),
            Operation::ShiftLeft { x, y } => self.shift_left(x, y),
            Operation::SkipNotEqual { x, y } => self.skip_not_equal_binary(x, y),
            Operation::SetIndex { nnn } => self.set_index(nnn),
            Operation::JumpOffset { x, nnn } => self.jump_with_offset(x, nnn),
            Operation::Random { x, nn } => self.set_random(x, nn, random),
            Operation::Draw { x, y, n } => self.display(x, y, n),
            Operation::SkipKey { x } => self.skip_if_key_pressed(x),
            Operation::SkipNotKey { x } => self.skip_if_key_not_pressed(x),
            Operation::ReadDelay { x } => self.set_reg_to_delay(x),
            Operation::WaitKey { x } => self.get_key(x),
            Operation::SetDelay { x } => self.set_delay_to_reg(x),
            Operation::SetSound { x } => self.set_sound_to_vx(x),
            Operation::AddIndex { x } => self.add_to_index(x),
            Operation::FontCharacter { x } => self.font_character(x),
            Operation::Decimal { x } => self.binary_coded_dec_conv(x),
            Operation::Store { x } => self.store_memory(x),
            Operation::Load { x } => self.load_memory(x),
        }
        Ok(())
    }

    /// One cycle with `random` for the byte that chance supplies: fetches
    /// the word at the program counter, decodes it and carries it out. On
    /// failure nothing is changed, the program counter included.
    pub fn instruction_with(&mut self, random: u8) -> (result: Result<(), ChipError>)
        requires
            old(self)@.wf(),
        ensures
            realises(old(self)@.cycle(random), old(self)@, result, final(self)@),
            final(self)@.wf(),
    {
        let pc: u16 = self.program_counter;
        let word: u16 = self.fetch();
        let decoded = InstructionWord::decode(word);
        match decoded.operation() {
            Some(op) => {
                let result = self.execute(op, random);
                if result.is_err() {
                    self.program_counter = pc;
                }
                result
            },
            None => {
                self.program_counter = pc;
                Err(ChipError::UnknownOpcode { word, pc })
            },
        }
    }

    /// One cycle. Where the instruction is CXNN, chance supplies a byte;
    /// what is done is what `instruction_with` does for some byte.
    pub fn instruction(&mut self) -> (result: Result<(), ChipError>)
        requires
            old(self)@.wf(),
        ensures
            exists|random: u8|
                realises(
                    #[trigger] old(self)@.cycle(random),
                    old(self)@,
                    result,
                    final(self)@,
                ),
            !(old(self)@.next_operation() matches Some(Operation::Random { .. })) ==> realises(
                old(self)@.cycle(0),
                old(self)@,
                result,
                final(self)@,
            ),
            final(self)@.wf(),
    {
        let random: u8 = if self.next_is_random() {
            random_byte()
        } else {
            0
        };
        self.instruction_with(random)
    }

    /// Hands the frame buffer to the host if it waits to be presented: the
    /// rectangles to paint on a cleared surface, after which the machine
    /// takes the frame as presented. `None` if nothing has changed.
    pub fn take_frame(&mut self) -> (frame: Option<Vec<CellRect>>)
        requires
            old(self)@.wf(),
        ensures
            final(self)@ == old(self)@.presented(),
            final(self)@.wf(),
            match frame {
                Some(rects) => Some(rects@) == old(self)@.frame(),
                None => old(self)@.frame() is None,
            },
    {
        if self.screen.redraw {
            self.screen.acknowledge();
            Some(self.screen.create_white_rects())
        } else {
            None
        }
    }

    /// One turn of the host loop. The host brings what it has seen happen
    /// since the last turn (`event`, if anything) and the time gone by
    /// (`elapsed`, in the units of `clock`). In this order: the frame
    /// buffer is handed over if it waits to be presented; the event is
    /// taken in; and unless it asks for the run to end, the timers drop by
    /// the ticks that `clock` finds due and one cycle runs.
    ///
    /// The host then paints `frame` if there is one, stops on `Quit` or on
    /// an error, and otherwise waits until the next instruction is due.
    pub fn interpret(
        &mut self,
        clock: &mut TimerClock,
        event: Option<InputEvent>,
        elapsed: u64,
    ) -> (turn: HostTurn)
        requires
            old(self)@.wf(),
        ensures
            final(self)@.wf(),
            match turn.frame {
                Some(rects) => Some(rects@) == old(self)@.frame(),
                None => old(self)@.frame() is None,
            },
            turn.meta == old(self)@.presented().poll_inputs(event).0,
            turn.meta is Quit ==> turn.result is Ok && final(clock)@ == old(clock)@ && final(self)@
                == old(self)@.presented().poll_inputs(event).1,
            !(turn.meta is Quit) ==> final(clock)@ == old(clock)@.advanced(elapsed) && (exists|
                random: u8,
            |
                realises(
                    #[trigger] old(self)@.turn_cycle(
                        event,
                        old(clock)@.ticks_due(elapsed) as u64,
                        random,
                    ),
                    old(self)@.before_cycle(event, old(clock)@.ticks_due(elapsed) as u64),
                    turn.result,
                    final(self)@,
                )),
    {
        let frame = self.take_frame();
        let meta = self.poll_inputs(event);
        if meta == MetaInputs::Quit {
            return HostTurn { frame, meta, result: Ok(()) };
        }
        let ticks: u64 = clock.advance(elapsed);
        self.tick_timers(ticks);
        let ghost before = self@;
        let result = self.instruction();
        proof {
            let random = choose|random: u8|
                realises(#[trigger] before.cycle(random), before, result, self@);
            assert(ticks == old(clock)@.ticks_due(elapsed) as u64);
            assert(realises(
                old(self)@.turn_cycle(event, ticks, random),
                old(self)@.before_cycle(event, ticks),
                result,
                self@,
            ));
        }
        HostTurn { frame, meta, result }
    }

    /// Whether the instruction at the program counter is CXNN.
    pub fn next_is_random(&self) -> (is_random: bool)
        requires
            self@.wf(),
        ensures
            is_random == (self@.next_operation() matches Some(Operation::Random { .. })),
    {
        let high: u8 = self.memory[self.program_counter as usize];
        assert(high >> 4 == high / 16) by (bit_vector);
        high >> 4 == 0xC
    }
}

/// The address that lies `r` bytes past `index` is the only one whose offset
/// from `index` is `r`.
proof fn lemma_offset_of_address(index: int, r: int, a: int)
    requires
        0 <= index < 4096,
        0 <= r < 4096,
        0 <= a < 4096,
    ensures
        (a - index + 4096) % 4096 == r <==> a == (index + r) % 4096,
{
}

/// Copies `bytes` into `memory` from `start` on.
fn copy_bytes(memory: &mut [u8; 4096], start: usize, bytes: &[u8])
    requires
        start + bytes@.len() <= 4096,
    ensures
        final(memory)@ == Seq::new(
            4096,
            |a: int|
                if start <= a < start + bytes@.len() {
                    bytes@[a - start]
                } else {
                    old(memory)@[a]
                },
        ),
{
    let mut i: usize = 0;
    while i < bytes.len()
        invariant
            i <= bytes@.len(),
            start + bytes@.len() <= 4096,
            memory@ == Seq::new(
                4096,
                |a: int|
                    if start <= a < start + i {
                        bytes@[a - start]
                    } else {
                        old(memory)@[a]
                    },
            ),
        decreases bytes@.len() - i,
    {
        memory[start + i] = bytes[i];
        i += 1;
    }
}

impl Default for Chip {
    fn default() -> (chip: Chip)
        ensures
            chip@ == ChipState::initial(Quirks::legacy()),
    {
        Chip::new()
    }
}

} // verus!
