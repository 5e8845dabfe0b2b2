//! The machine itself: its state, and one method per instruction.
//!
//! Every method says in its contract which model state it leaves behind, as a
//! function of [`Machine`] applied to the state it found. Register indices are
//! four-bit numbers: the methods that take one ask for an index below 16.

use vstd::prelude::*;
use crate::error::Chip8Error;
use crate::font::{font_byte, FONT_HEIGHT, FONT_SPRITES};
use crate::keypad::Keypad;
use crate::layout::{cell, CALLSTACK, DATA, DISPLAY, FONT_DATA, MEMORY_SIZE, STACK_DEPTH};
use crate::machine::{blank_machine, Machine};
use crate::random::random_byte;

verus! {

/// A CHIP-8 machine.
#[derive(Debug)]
pub struct Chip8 {
    /// Memory: interpreter area with the font, program area, call stack and
    /// display, in this order.
    pub memory: [u8; MEMORY_SIZE],
    /// The registers `V0` to `VF`. Several instructions leave a flag in `VF`.
    pub v: [u8; 16],
    /// The address register `I`.
    pub i: u16,
    /// The program counter.
    pub pc: u16,
    /// The stack pointer: the number of return addresses on the call stack.
    pub sp: u8,
    /// The delay timer. The caller counts it down.
    pub timer_delay: u8,
    /// The sound timer. The caller counts it down and sounds a tone meanwhile.
    pub timer_sound: u8,
    /// Set by the draw instruction; the caller clears it once it has shown
    /// the display.
    pub should_draw: bool,
}

impl View for Chip8 {
    type V = Machine;

    open spec fn view(&self) -> Machine {
        Machine {
            memory: self.memory@,
            v: self.v@,
            i: self.i,
            pc: self.pc,
            sp: self.sp,
            timer_delay: self.timer_delay,
            timer_sound: self.timer_sound,
            should_draw: self.should_draw,
        }
    }
}

impl Clone for Chip8 {
    /// A second machine in the same state.
    fn clone(&self) -> (copy: Chip8)
        ensures
            copy == *self,
    {
        Chip8 {
            memory: self.memory,
            v: self.v,
            i: self.i,
            pc: self.pc,
            sp: self.sp,
            timer_delay: self.timer_delay,
            timer_sound: self.timer_sound,
            should_draw: self.should_draw,
        }
    }
}

impl Chip8 {
    /// A machine with all of its state zero.
    pub fn new() -> (chip8: Chip8)
        ensures
            chip8@ == blank_machine(),
    {
        Chip8 {
            memory: [0; MEMORY_SIZE],
            v: [0; 16],
            i: 0,
            pc: 0,
            sp: 0,
            timer_delay: 0,
            timer_sound: 0,
            should_draw: false,
        }
    }

    /// Reads the two bytes of the instruction at the program counter and moves
    /// the counter past them. Fails, and changes nothing, where the second
    /// byte would lie beyond the end of memory.
    pub fn fetch(&mut self) -> (fetched: Result<(u8, u8), Chip8Error>)
        ensures
            old(self)@.can_fetch() ==> fetched == Ok::<(u8, u8), Chip8Error>(old(self)@.fetched())
                && final(self)@ == old(self)@.fetch(),
            !old(self)@.can_fetch() ==> fetched == Err::<(u8, u8), Chip8Error>(
                (Chip8Error::AddressOverflow { pc: old(self).pc }),
            ) && final(self)@ == old(self)@,
    {
        if self.pc as usize + 1 >= MEMORY_SIZE {
            return Err(Chip8Error::AddressOverflow { pc: self.pc });
        }
        let b0 = self.memory[self.pc as usize];
        let b1 = self.memory[self.pc as usize + 1];
        self.pc += 2;
        Ok((b0, b1))
    }

    /// Copies the font table to the start of memory.
    pub fn load_fonts(&mut self)
        ensures
            final(self)@ == old(self)@.load_fonts(),
    {
        let mut digit: usize = 0;
        while digit < 16
            invariant
                digit <= 16,
                self@ == (Machine { memory: self.memory@, ..old(self)@ }),
                forall|a: int|
                    0 <= a < MEMORY_SIZE ==> self.memory@[a] == (if a < FONT_HEIGHT * digit {
                        font_byte(a)
                    } else {
                        old(self).memory@[a]
                    }),
            decreases 16 - digit,
        {
            let mut row: usize = 0;
            while row < FONT_HEIGHT
                invariant
                    digit < 16,
                    row <= FONT_HEIGHT,
                    self@ == (Machine { memory: self.memory@, ..old(self)@ }),
                    forall|a: int|
                        0 <= a < MEMORY_SIZE ==> self.memory@[a] == (if a < FONT_HEIGHT * digit
                            + row {
                            font_byte(a)
                        } else {
                            old(self).memory@[a]
                        }),
                decreases FONT_HEIGHT - row,
            {
                self.memory[FONT_DATA + FONT_HEIGHT * digit + row] = FONT_SPRITES[digit][row];
                row += 1;
            }
            digit += 1;
        }
    }

    /// Copies a program to the start of the program area and points the
    /// program counter at it.
    pub fn load_program(&mut self, program: &[u8])
        requires
            program@.len() <= MEMORY_SIZE - DATA,
        ensures
            final(self)@ == old(self)@.load_program(program@),
    {
        let mut k: usize = 0;
        while k < program.len()
            invariant
                k <= program@.len() <= MEMORY_SIZE - DATA,
                self@ == (Machine { memory: self.memory@, ..old(self)@ }),
                forall|a: int|
                    0 <= a < MEMORY_SIZE ==> self.memory@[a] == (if DATA <= a < DATA + k {
                        program@[a - DATA]
                    } else {
                        old(self).memory@[a]
                    }),
            decreases program@.len() - k,
        {
            self.memory[DATA + k] = program[k];
            k += 1;
        }
        self.pc = DATA as u16;
    }

    /// Fills the display area with `value`.
    fn set_display(&mut self, value: u8)
        ensures
            final(self)@ == old(self)@.with_display(value),
    {
        let mut a: usize = DISPLAY;
        while a < MEMORY_SIZE
            invariant
                DISPLAY <= a <= MEMORY_SIZE,
                self@ == (Machine { memory: self.memory@, ..old(self)@ }),
                forall|k: int|
                    0 <= k < MEMORY_SIZE ==> self.memory@[k] == (if DISPLAY <= k < a {
                        value
                    } else {
                        old(self).memory@[k]
                    }),
            decreases MEMORY_SIZE - a,
        {
            self.memory[a] = value;
            a += 1;
        }
    }

    /// `00E0`: turns every pixel dark.
    pub fn clear_screen(&mut self)
        ensures
            final(self)@ == old(self)@.clear_screen(),
    {
        self.set_display(0);
    }

    /// Lights every pixel. No instruction does this.
    pub fn fill_screen(&mut self)
        ensures
            final(self)@ == old(self)@.fill_screen(),
    {
        self.set_display(0xFF);
    }

    /// `00EE`: returns from a subroutine. Takes the program counter from the
    /// top of the call stack, high byte first, and drops that slot. Fails, and
    /// changes nothing, where the stack is empty or the stack pointer lies
    /// beyond it.
    pub fn ret(&mut self) -> (done: Result<(), Chip8Error>)
        ensures
            match old(self)@.ret_error() {
                Some(error) => done == Err::<(), Chip8Error>(error) && final(self)@ == old(self)@,
                None => done == Ok::<(), Chip8Error>(()) && final(self)@ == old(self)@.ret(),
            },
    {
        if self.sp == 0 {
            return Err(Chip8Error::StackUnderflow);
        }
        if self.sp > STACK_DEPTH {
            return Err(Chip8Error::StackOverflow);
        }
        let slot: usize = CALLSTACK + 2 * (self.sp as usize);
        let pc0 = self.memory[slot];
        let pc1 = self.memory[slot + 1];
        self.pc = pc0 as u16 * 256 + pc1 as u16;
        self.sp -= 1;
        Ok(())
    }

    /// `1nnn`: goes on at `nnn`.
    pub fn jump(&mut self, nnn: u16)
        ensures
            final(self)@ == old(self)@.jump(nnn),
    {
        self.pc = nnn;
    }

    /// `2nnn`: calls the subroutine at `nnn`. Puts the program counter on the
    /// call stack, high byte first, and goes on at `nnn`. Fails, and changes
    /// nothing, where the stack is full.
    pub fn call(&mut self, nnn: u16) -> (done: Result<(), Chip8Error>)
        ensures
            match old(self)@.call_error() {
                Some(error) => done == Err::<(), Chip8Error>(error) && final(self)@ == old(self)@,
                None => done == Ok::<(), Chip8Error>(()) && final(self)@ == old(self)@.call(nnn),
            },
    {
        if self.sp >= STACK_DEPTH {
            return Err(Chip8Error::StackOverflow);
        }
        self.sp += 1;
        let slot: usize = CALLSTACK + 2 * (self.sp as usize);
        self.memory[slot] = (self.pc / 256) as u8;
        self.memory[slot + 1] = (self.pc % 256) as u8;
        self.pc = nnn;
        Ok(())
    }

    /// Skips the next instruction if `condition` holds.
    fn skip_if(&mut self, condition: bool)
        ensures
            final(self)@ == old(self)@.skip_if(condition),
    {
        if condition {
            self.pc = self.pc.wrapping_add(2);
        }
    }

    /// `3xkk`: skips the next instruction if `Vx` equals `byte`.
    pub fn se_byte(&mut self, v_x: usize, byte: u8)
        requires
            v_x < 16,
        ensures
            final(self)@ == old(self)@.se_byte(v_x as int, byte),
    {
        self.skip_if(self.v[v_x] == byte);
    }

    /// `4xkk`: skips the next instruction if `Vx` differs from `byte`.
    pub fn sne(&mut self, v_x: usize, byte: u8)
        requires
            v_x < 16,
        ensures
            final(self)@ == old(self)@.sne(v_x as int, byte),
    {
        self.skip_if(self.v[v_x] != byte);
    }

    /// `5xy0`: skips the next instruction if `Vx` equals `Vy`.
    pub fn se_reg(&mut self, v_x: usize, v_y: usize)
        requires
            v_x < 16,
            v_y < 16,
        ensures
            final(self)@ == old(self)@.se_reg(v_x as int, v_y as int),
    {
        self.skip_if(self.v[v_x] == self.v[v_y]);
    }

    /// `6xkk`: `Vx = kk`.
    pub fn load(&mut self, v_x: usize, kk: u8)
        requires
            v_x < 16,
        ensures
            final(self)@ == old(self)@.load(v_x as int, kk),
    {
        self.v[v_x] = kk;
    }

    /// `7xkk`: `Vx = Vx + kk` in eight bits. Leaves no carry.
    pub fn add(&mut self, v_x: usize, kk: u8)
        requires
            v_x < 16,
        ensures
            final(self)@ == old(self)@.add(v_x as int, kk),
    {
        self.v[v_x] = self.v[v_x].wrapping_add(kk);
    }

    /// `8xy0`: `Vx = Vy`.
    pub fn load_reg(&mut self, v_x: usize, v_y: usize)
        requires
            v_x < 16,
            v_y < 16,
        ensures
            final(self)@ == old(self)@.load_reg(v_x as int, v_y as int),
    {
        self.v[v_x] = self.v[v_y];
    }

    /// `8xy1`: `Vx = Vx | Vy`.
    pub fn or(&mut self, v_x: usize, v_y: usize)
        requires
            v_x < 16,
            v_y < 16,
        ensures
            final(self)@ == old(self)@.or(v_x as int, v_y as int),
    {
        self.v[v_x] = self.v[v_x] | self.v[v_y];
    }

    /// `8xy2`: `Vx = Vx & Vy`.
    pub fn and(&mut self, v_x: usize, v_y: usize)
        requires
            v_x < 16,
            v_y < 16,
        ensures
            final(self)@ == old(self)@.and(v_x as int, v_y as int),
    {
        self.v[v_x] = self.v[v_x] & self.v[v_y];
    }

    /// `8xy3`: `Vx = Vx ^ Vy`.
    pub fn xor(&mut self, v_x: usize, v_y: usize)
        requires
            v_x < 16,
            v_y < 16,
        ensures
            final(self)@ == old(self)@.xor(v_x as int, v_y as int),
    {
        self.v[v_x] = self.v[v_x] ^ self.v[v_y];
    }

    /// `8xy4`: `Vx = Vx + Vy` in eight bits, then `VF = 1` if the sum passed
    /// 255 and `VF = 0` if not. With `x = F` the flag is what stays in `VF`.
    pub fn add_with_carry(&mut self, v_x: usize, v_y: usize)
        requires
            v_x < 16,
            v_y < 16,
        ensures
            final(self)@ == old(self)@.add_with_carry(v_x as int, v_y as int),
            final(self).v[0xF] == 1 <==> old(self).v[v_x as int] + old(self).v[v_y as int] > 255,
            final(self).v[0xF] == 0 <==> old(self).v[v_x as int] + old(self).v[v_y as int] <= 255,
            v_x != 0xF ==> final(self).v[v_x as int] == (old(self).v[v_x as int] + old(
                self,
            ).v[v_y as int]) % 256,
    {
        let a = self.v[v_x];
        let b = self.v[v_y];
        self.v[v_x] = a.wrapping_add(b);
        self.v[0xF] = if a as u16 + b as u16 > 255 {
            1
        } else {
            0
        };
    }

    /// `8xy5`: `Vx = Vx - Vy` in eight bits, then `VF = 0` if `Vx` was less
    /// than `Vy`, so that the subtraction borrowed, and `VF = 1` if not. With
    /// `x = F` the flag is what stays in `VF`.
    pub fn sub_with_borrow(&mut self, v_x: usize, v_y: usize)
        requires
            v_x < 16,
            v_y < 16,
        ensures
            final(self)@ == old(self)@.sub_with_borrow(v_x as int, v_y as int),
            final(self).v[0xF] == 0 <==> old(self).v[v_x as int] < old(self).v[v_y as int],
            final(self).v[0xF] == 1 <==> old(self).v[v_x as int] >= old(self).v[v_y as int],
            v_x != 0xF ==> final(self).v[v_x as int] == (old(self).v[v_x as int] - old(
                self,
            ).v[v_y as int]) % 256,
    {
        let a = self.v[v_x];
        let b = self.v[v_y];
        self.v[v_x] = a.wrapping_sub(b);
        self.v[0xF] = if a >= b {
            1
        } else {
            0
        };
    }

    /// `8xy6`: `Vx = Vx >> 1`, then `VF` = the lowest bit that `Vx` had. `Vy`
    /// plays no part.
    pub fn shr(&mut self, v_x: usize, v_y: usize)
        requires
            v_x < 16,
        ensures
            final(self)@ == old(self)@.shr(v_x as int),
    {
        let x = self.v[v_x];
        self.v[v_x] = x >> 1u8;
        self.v[0xF] = x & 1;
    }

    /// `8xy7`: `Vx = Vy - Vx` in eight bits, then `VF = 1` if `Vy` was greater
    /// than `Vx` and `VF = 0` if not.
    pub fn subn(&mut self, v_x: usize, v_y: usize)
        requires
            v_x < 16,
            v_y < 16,
        ensures
            final(self)@ == old(self)@.subn(v_x as int, v_y as int),
    {
        let a = self.v[v_x];
        let b = self.v[v_y];
        self.v[v_x] = b.wrapping_sub(a);
        self.v[0xF] = if b > a {
            1
        } else {
            0
        };
    }

    /// `8xyE`: `Vx = Vx << 1` in eight bits, then `VF` = the highest bit that
    /// `Vx` had.
    pub fn shl(&mut self, v_x: usize)
        requires
            v_x < 16,
        ensures
            final(self)@ == old(self)@.shl(v_x as int),
    {
        let x = self.v[v_x];
        self.v[v_x] = x << 1u8;
        self.v[0xF] = x >> 7u8;
    }

    /// `9xy0`: skips the next instruction if `Vx` differs from `Vy`.
    pub fn sne_v(&mut self, v_x: usize, v_y: usize)
        requires
            v_x < 16,
            v_y < 16,
        ensures
            final(self)@ == old(self)@.sne_v(v_x as int, v_y as int),
    {
        self.skip_if(self.v[v_x] != self.v[v_y]);
    }

    /// `Annn`: `I = nnn`.
    pub fn load_i(&mut self, nnn: u16)
        ensures
            final(self)@ == old(self)@.load_i(nnn),
    {
        self.i = nnn;
    }

    /// `Bnnn`: goes on at `V0 + offset`, in sixteen bits.
    pub fn jump_to_v0(&mut self, offset: u16)
        ensures
            final(self)@ == old(self)@.jump_to_v0(offset),
    {
        self.pc = (self.v[0] as u16).wrapping_add(offset);
    }

    /// `Fx07`: `Vx` = the delay timer.
    pub fn load_delay_timer(&mut self, v_x: usize)
        requires
            v_x < 16,
        ensures
            final(self)@ == old(self)@.load_delay_timer(v_x as int),
    {
        self.v[v_x] = self.timer_delay;
    }

    /// `Fx15`: the delay timer = `Vx`.
    pub fn set_delay_timer(&mut self, v_x: usize)
        requires
            v_x < 16,
        ensures
            final(self)@ == old(self)@.set_delay_timer(v_x as int),
    {
        self.timer_delay = self.v[v_x];
    }

    /// `Fx18`: the sound timer = `Vx`.
    pub fn set_sound_timer(&mut self, v_x: usize)
        requires
            v_x < 16,
        ensures
            final(self)@ == old(self)@.set_sound_timer(v_x as int),
    {
        self.timer_sound = self.v[v_x];
    }

    /// `Fx1E`: `I = I + Vx` in sixteen bits.
    pub fn add_i(&mut self, v_x: usize)
        requires
            v_x < 16,
        ensures
            final(self)@ == old(self)@.add_i(v_x as int),
    {
        self.i = self.i.wrapping_add(self.v[v_x] as u16);
    }

    /// `Fx29`: `I` = the address of the glyph of the digit in `Vx`, five bytes
    /// per glyph from the start of the font table. The low four bits of `Vx`
    /// are the digit.
    pub fn load_font(&mut self, v_x: usize)
        requires
            v_x < 16,
        ensures
            final(self)@ == old(self)@.load_font(v_x as int),
    {
        self.i = FONT_DATA as u16 + 5 * (self.v[v_x] % 16) as u16;
    }

    /// `Cxkk`: `Vx = random & kk`, for a byte `random` that is drawn anew at
    /// each call.
    pub fn rand(&mut self, v_x: usize, kk: u8)
        requires
            v_x < 16,
        ensures
            exists|random: u8| final(self)@ == #[trigger] old(self)@.rand(v_x as int, kk, random),
    {
        let random = random_byte();
        self.rand_with(v_x, kk, random);
    }

    /// `Cxkk` with the random byte given: `Vx = random & kk`.
    pub fn rand_with(&mut self, v_x: usize, kk: u8, random: u8)
        requires
            v_x < 16,
        ensures
            final(self)@ == old(self)@.rand(v_x as int, kk, random),
    {
        self.v[v_x] = random & kk;
    }

    /// `Ex9E`: skips the next instruction if the key that `Vx` names is held
    /// down.
    pub fn skip_if_key_pressed(&mut self, v_x: usize, keys: &Keypad)
        requires
            v_x < 16,
        ensures
            final(self)@ == old(self)@.skip_if_key_pressed(v_x as int, *keys),
    {
        self.skip_if(keys.is_key_down(self.v[v_x]));
    }

    /// `ExA1`: skips the next instruction if the key that `Vx` names is not
    /// held down.
    pub fn skip_if_key_not_pressed(&mut self, v_x: usize, keys: &Keypad)
        requires
            v_x < 16,
        ensures
            final(self)@ == old(self)@.skip_if_key_not_pressed(v_x as int, *keys),
    {
        self.skip_if(!keys.is_key_down(self.v[v_x]));
    }

    /// `Fx0A`: `Vx` = the pressed key, read without waiting.
    pub fn load_key_press(&mut self, v_x: usize, keys: &Keypad)
        requires
            v_x < 16,
        ensures
            final(self)@ == old(self)@.load_key_press(v_x as int, *keys),
    {
        self.v[v_x] = keys.get_key();
    }

    /// Writes `value` to the memory cell that `address` denotes.
    fn store(&mut self, address: usize, value: u8)
        ensures
            final(self)@ == old(self)@.store(address as int, value),
    {
        self.memory[address % MEMORY_SIZE] = value;
    }

    /// `Fx33`: writes the decimal digits of `Vx` to memory: the hundreds at
    /// `I`, the tens at `I + 1` and the ones at `I + 2`. Addresses past the end
    /// of memory go on at its start.
    pub fn load_bcd(&mut self, v_x: usize)
        requires
            v_x < 16,
        ensures
            final(self)@ == old(self)@.load_bcd(v_x as int),
    {
        let val = self.v[v_x];
        let hundreds = val / 100;
        let tens = val % 100 / 10;
        let ones = val % 10;
        let i = self.i as usize;
        self.store(i, hundreds);
        self.store(i + 1, tens);
        self.store(i + 2, ones);
    }

    /// `Fx55`: copies the registers `V0` to `VF` to the sixteen bytes of
    /// memory from `I` on. Addresses past the end of memory go on at its
    /// start.
    pub fn store_registers(&mut self)
        ensures
            final(self)@ == old(self)@.store_registers(),
    {
        let mut k: usize = 0;
        while k < 16
            invariant
                k <= 16,
                self@ == (Machine { memory: self.memory@, ..old(self)@ }),
                forall|a: int|
                    0 <= a < MEMORY_SIZE ==> self.memory@[a] == (if cell(a - self.i) < k {
                        self.v@[cell(a - self.i)]
                    } else {
                        old(self).memory@[a]
                    }),
            decreases 16 - k,
        {
            self.memory[(self.i as usize + k) % MEMORY_SIZE] = self.v[k];
            k += 1;
        }
    }

    /// `Fx65`: copies the sixteen bytes of memory from `I` on to the registers
    /// `V0` to `VF`. Addresses past the end of memory go on at its start.
    pub fn recall_registers(&mut self)
        ensures
            final(self)@ == old(self)@.recall_registers(),
    {
        let mut k: usize = 0;
        while k < 16
            invariant
                k <= 16,
                self@ == (Machine { v: self.v@, ..old(self)@ }),
                forall|j: int|
                    0 <= j < 16 ==> self.v@[j] == (if j < k {
                        old(self)@.byte_at(self.i + j)
                    } else {
                        old(self).v@[j]
                    }),
            decreases 16 - k,
        {
            self.v[k] = self.memory[(self.i as usize + k) % MEMORY_SIZE];
            k += 1;
        }
    }
}

} // verus!
