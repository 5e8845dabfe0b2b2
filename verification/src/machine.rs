//! The mathematical model of the machine: its state as sequences and
//! integers, and each instruction as a function from state to state.

use vstd::prelude::*;
use crate::error::Chip8Error;
use crate::font::{font_byte, glyph_offset, FONT_TABLE_LEN};
use crate::keypad::Keypad;
use crate::layout::{
    cell, wrap16, wrap8, CALLSTACK, DATA, DISPLAY, FONT_DATA, MEMORY_SIZE, STACK_DEPTH,
};
use crate::screen::{sprite_hits, sprite_rows, xor_sprite};

verus! {

/// The state of a machine.
#[verifier::ext_equal]
pub ghost struct Machine {
    /// The 4096 bytes of memory.
    pub memory: Seq<u8>,
    /// The registers `V0` to `VF`.
    pub v: Seq<u8>,
    /// The address register.
    pub i: u16,
    /// The program counter.
    pub pc: u16,
    /// The stack pointer: the number of return addresses on the call stack.
    pub sp: u8,
    /// The delay timer.
    pub timer_delay: u8,
    /// The sound timer.
    pub timer_sound: u8,
    /// Set when the display has changed since the caller last drew it.
    pub should_draw: bool,
}

impl Machine {
    /// The sizes that every machine has.
    pub open spec fn wf(self) -> bool {
        self.memory.len() == MEMORY_SIZE && self.v.len() == 16
    }

    /// The call stack holds no more return addresses than it has room for.
    pub open spec fn stack_in_bounds(self) -> bool {
        self.sp <= STACK_DEPTH
    }

    /// Register `Vx` set to `value`.
    pub open spec fn with_register(self, x: int, value: u8) -> Machine {
        Machine { v: self.v.update(x, value), ..self }
    }

    /// The flag register `VF` set to 1 or 0.
    pub open spec fn with_flag(self, set: bool) -> Machine {
        self.with_register(
            0xF,
            if set {
                1
            } else {
                0
            },
        )
    }

    /// The program counter set to `pc`.
    pub open spec fn with_pc(self, pc: u16) -> Machine {
        Machine { pc, ..self }
    }

    /// The address register set to `i`.
    pub open spec fn with_i(self, i: u16) -> Machine {
        Machine { i, ..self }
    }

    /// `value` written to the memory cell that `address` denotes.
    pub open spec fn store(self, address: int, value: u8) -> Machine {
        Machine { memory: self.memory.update(cell(address), value), ..self }
    }

    /// The byte in the memory cell that `address` denotes.
    pub open spec fn byte_at(self, address: int) -> u8 {
        self.memory[cell(address)]
    }

    /// The next instruction skipped if `condition` holds.
    pub open spec fn skip_if(self, condition: bool) -> Machine {
        if condition {
            self.with_pc(wrap16(self.pc + 2))
        } else {
            self
        }
    }

    /// Both bytes of the instruction at the program counter lie in memory.
    pub open spec fn can_fetch(self) -> bool {
        self.pc + 1 < MEMORY_SIZE
    }

    /// The two bytes at the program counter.
    pub open spec fn fetched(self) -> (u8, u8) {
        (self.memory[self.pc as int], self.memory[self.pc + 1])
    }

    /// The program counter advanced past one instruction.
    pub open spec fn fetch(self) -> Machine {
        self.with_pc((self.pc + 2) as u16)
    }

    /// The display area filled with `value`.
    pub open spec fn with_display(self, value: u8) -> Machine {
        Machine {
            memory: Seq::new(
                self.memory.len(),
                |a: int|
                    if DISPLAY <= a {
                        value
                    } else {
                        self.memory[a]
                    },
            ),
            ..self
        }
    }

    /// `00E0`
    pub open spec fn clear_screen(self) -> Machine {
        self.with_display(0)
    }

    /// Every pixel lit.
    pub open spec fn fill_screen(self) -> Machine {
        self.with_display(0xFF)
    }

    /// Address of the first byte of the call-stack slot `slot`.
    pub open spec fn slot_address(slot: int) -> int {
        CALLSTACK + 2 * slot
    }

    /// The return address on top of the call stack.
    pub open spec fn return_address(self) -> u16 {
        (self.memory[Self::slot_address(self.sp as int)] * 256 + self.memory[Self::slot_address(
            self.sp as int,
        ) + 1]) as u16
    }

    /// Why a return fails, if it does.
    pub open spec fn ret_error(self) -> Option<Chip8Error> {
        if self.sp == 0 {
            Some(Chip8Error::StackUnderflow)
        } else if self.sp > STACK_DEPTH {
            Some(Chip8Error::StackOverflow)
        } else {
            None
        }
    }

    /// `00EE`, where it does not fail.
    pub open spec fn ret(self) -> Machine {
        Machine { pc: self.return_address(), sp: (self.sp - 1) as u8, ..self }
    }

    /// `1nnn`
    pub open spec fn jump(self, nnn: u16) -> Machine {
        self.with_pc(nnn)
    }

    /// Why a call fails, if it does.
    pub open spec fn call_error(self) -> Option<Chip8Error> {
        if self.sp >= STACK_DEPTH {
            Some(Chip8Error::StackOverflow)
        } else {
            None
        }
    }

    /// `2nnn`, where it does not fail.
    pub open spec fn call(self, nnn: u16) -> Machine {
        let slot = Self::slot_address(self.sp + 1);
        Machine {
            memory: self.memory.update(slot, (self.pc / 256) as u8).update(
                slot + 1,
                (self.pc % 256) as u8,
            ),
            sp: (self.sp + 1) as u8,
            pc: nnn,
            ..self
        }
    }

    /// `3xkk`
    pub open spec fn se_byte(self, x: int, byte: u8) -> Machine {
        self.skip_if(self.v[x] == byte)
    }

    /// `4xkk`
    pub open spec fn sne(self, x: int, byte: u8) -> Machine {
        self.skip_if(self.v[x] != byte)
    }

    /// `5xy0`
    pub open spec fn se_reg(self, x: int, y: int) -> Machine {
        self.skip_if(self.v[x] == self.v[y])
    }

    /// `6xkk`
    pub open spec fn load(self, x: int, kk: u8) -> Machine {
        self.with_register(x, kk)
    }

    /// `7xkk`
    pub open spec fn add(self, x: int, kk: u8) -> Machine {
        self.with_register(x, wrap8(self.v[x] + kk))
    }

    /// `8xy0`
    pub open spec fn load_reg(self, x: int, y: int) -> Machine {
        self.with_register(x, self.v[y])
    }

    /// `8xy1`
    pub open spec fn or(self, x: int, y: int) -> Machine {
        self.with_register(x, self.v[x] | self.v[y])
    }

    /// `8xy2`
    pub open spec fn and(self, x: int, y: int) -> Machine {
        self.with_register(x, self.v[x] & self.v[y])
    }

    /// `8xy3`
    pub open spec fn xor(self, x: int, y: int) -> Machine {
        self.with_register(x, self.v[x] ^ self.v[y])
    }

    /// `8xy4`: the sum in `Vx`, then the carry in `VF`.
    pub open spec fn add_with_carry(self, x: int, y: int) -> Machine {
        self.with_register(x, wrap8(self.v[x] + self.v[y])).with_flag(self.v[x] + self.v[y] > 255)
    }

    /// `8xy5`: the difference in `Vx`, then in `VF` whether nothing was
    /// borrowed.
    pub open spec fn sub_with_borrow(self, x: int, y: int) -> Machine {
        self.with_register(x, wrap8(self.v[x] - self.v[y])).with_flag(self.v[x] >= self.v[y])
    }

    /// `8xy6`: `Vx` shifted right, then the bit shifted out in `VF`.
    pub open spec fn shr(self, x: int) -> Machine {
        self.with_register(x, self.v[x] >> 1u8).with_register(0xF, self.v[x] & 1)
    }

    /// `8xy7`: `Vy - Vx` in `Vx`, then in `VF` whether `Vy` was the greater.
    pub open spec fn subn(self, x: int, y: int) -> Machine {
        self.with_register(x, wrap8(self.v[y] - self.v[x])).with_flag(self.v[y] > self.v[x])
    }

    /// `8xyE`: `Vx` shifted left, then the bit shifted out in `VF`.
    pub open spec fn shl(self, x: int) -> Machine {
        self.with_register(x, self.v[x] << 1u8).with_register(0xF, self.v[x] >> 7u8)
    }

    /// `9xy0`
    pub open spec fn sne_v(self, x: int, y: int) -> Machine {
        self.skip_if(self.v[x] != self.v[y])
    }

    /// `Annn`
    pub open spec fn load_i(self, nnn: u16) -> Machine {
        self.with_i(nnn)
    }

    /// `Bnnn`
    pub open spec fn jump_to_v0(self, offset: u16) -> Machine {
        self.with_pc(wrap16(self.v[0] + offset))
    }

    /// `Cxkk`, with the random byte that was drawn.
    pub open spec fn rand(self, x: int, kk: u8, random: u8) -> Machine {
        self.with_register(x, random & kk)
    }

    /// `Dxyn`: the `n` bytes at `I` drawn as a sprite at column `Vx` and row
    /// `Vy`, then in `VF` whether a lit pixel went dark.
    pub open spec fn draw(self, x: int, y: int, n: int) -> Machine {
        let sprite = sprite_rows(self.memory, self.i as int, n);
        let vx = self.v[x] as int;
        let vy = self.v[y] as int;
        Machine {
            memory: xor_sprite(self.memory, sprite, vx, vy),
            should_draw: true,
            ..self
        }.with_flag(sprite_hits(self.memory, sprite, vx, vy))
    }

    /// `Ex9E`
    pub open spec fn skip_if_key_pressed(self, x: int, keys: Keypad) -> Machine {
        self.skip_if(keys.is_down(self.v[x]))
    }

    /// `ExA1`
    pub open spec fn skip_if_key_not_pressed(self, x: int, keys: Keypad) -> Machine {
        self.skip_if(!keys.is_down(self.v[x]))
    }

    /// `Fx07`
    pub open spec fn load_delay_timer(self, x: int) -> Machine {
        self.with_register(x, self.timer_delay)
    }

    /// `Fx0A`
    pub open spec fn load_key_press(self, x: int, keys: Keypad) -> Machine {
        self.with_register(x, keys.pressed)
    }

    /// `Fx15`
    pub open spec fn set_delay_timer(self, x: int) -> Machine {
        Machine { timer_delay: self.v[x], ..self }
    }

    /// `Fx18`
    pub open spec fn set_sound_timer(self, x: int) -> Machine {
        Machine { timer_sound: self.v[x], ..self }
    }

    /// `Fx1E`
    pub open spec fn add_i(self, x: int) -> Machine {
        self.with_i(wrap16(self.i + self.v[x]))
    }

    /// `Fx29`
    pub open spec fn load_font(self, x: int) -> Machine {
        self.with_i((FONT_DATA + glyph_offset(self.v[x])) as u16)
    }

    /// `Fx33`: the hundreds, tens and ones of `Vx` at `I`, `I + 1` and
    /// `I + 2`.
    pub open spec fn load_bcd(self, x: int) -> Machine {
        let value = self.v[x];
        self.store(self.i as int, value / 100).store(self.i + 1, value % 100 / 10).store(
            self.i + 2,
            value % 10,
        )
    }

    /// `Fx55`: the sixteen registers at `I` to `I + 15`.
    pub open spec fn store_registers(self) -> Machine {
        Machine {
            memory: Seq::new(
                self.memory.len(),
                |a: int|
                    if cell(a - self.i) < 16 {
                        self.v[cell(a - self.i)]
                    } else {
                        self.memory[a]
                    },
            ),
            ..self
        }
    }

    /// `Fx65`: the sixteen bytes at `I` to `I + 15` in the registers.
    pub open spec fn recall_registers(self) -> Machine {
        Machine { v: Seq::new(16, |k: int| self.byte_at(self.i + k)), ..self }
    }

    /// The bytes of a program copied to the start of the program area, and the
    /// program counter set there.
    pub open spec fn load_program(self, program: Seq<u8>) -> Machine {
        Machine {
            memory: Seq::new(
                self.memory.len(),
                |a: int|
                    if DATA <= a < DATA + program.len() {
                        program[a - DATA]
                    } else {
                        self.memory[a]
                    },
            ),
            pc: DATA as u16,
            ..self
        }
    }

    /// The font table laid over the start of memory.
    pub open spec fn load_fonts(self) -> Machine {
        Machine {
            memory: Seq::new(
                self.memory.len(),
                |a: int|
                    if a < FONT_TABLE_LEN {
                        font_byte(a)
                    } else {
                        self.memory[a]
                    },
            ),
            ..self
        }
    }
}

/// The machine before anything was loaded: every byte, register and counter
/// zero.
pub open spec fn blank_machine() -> Machine {
    Machine {
        memory: Seq::new(MEMORY_SIZE as nat, |a: int| 0u8),
        v: Seq::new(16, |k: int| 0u8),
        i: 0,
        pc: 0,
        sp: 0,
        timer_delay: 0,
        timer_sound: 0,
        should_draw: false,
    }
}

} // verus!
