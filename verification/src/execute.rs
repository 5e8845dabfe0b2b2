//! Decode and execute: what each instruction does to the machine.

use vstd::prelude::*;
use crate::chip8::Chip8;
use crate::error::Chip8Error;
use crate::instruction::{decode, spec_decode, Instruction};
use crate::keypad::Keypad;
use crate::layout::wrap16;
use crate::machine::Machine;
use crate::random::random_byte;

verus! {

impl Machine {
    /// Why `instruction` fails in this state, if it does. Only a call and a
    /// return can fail.
    pub open spec fn execute_error(self, instruction: Instruction) -> Option<Chip8Error> {
        match instruction {
            Instruction::Ret => self.ret_error(),
            Instruction::Call { .. } => self.call_error(),
            _ => None,
        }
    }

    /// The state after `instruction`, where it does not fail. `keys` is the
    /// keypad as the instruction finds it, and `random` the byte that is drawn
    /// if the instruction asks for one.
    pub open spec fn execute(self, instruction: Instruction, keys: Keypad, random: u8) -> Machine {
        match instruction {
            Instruction::ClearScreen => self.clear_screen(),
            Instruction::Ret => self.ret(),
            Instruction::Jump { nnn } => self.jump(nnn),
            Instruction::Call { nnn } => self.call(nnn),
            Instruction::SeByte { x, kk } => self.se_byte(x as int, kk),
            Instruction::Sne { x, kk } => self.sne(x as int, kk),
            Instruction::SeReg { x, y } => self.se_reg(x as int, y as int),
            Instruction::Load { x, kk } => self.load(x as int, kk),
            Instruction::Add { x, kk } => self.add(x as int, kk),
            Instruction::LoadReg { x, y } => self.load_reg(x as int, y as int),
            Instruction::Or { x, y } => self.or(x as int, y as int),
            Instruction::And { x, y } => self.and(x as int, y as int),
            Instruction::Xor { x, y } => self.xor(x as int, y as int),
            Instruction::AddWithCarry { x, y } => self.add_with_carry(x as int, y as int),
            Instruction::SubWithBorrow { x, y } => self.sub_with_borrow(x as int, y as int),
            Instruction::Shr { x, .. } => self.shr(x as int),
            Instruction::Subn { x, y } => self.subn(x as int, y as int),
            Instruction::Shl { x } => self.shl(x as int),
            Instruction::SneV { x, y } => self.sne_v(x as int, y as int),
            Instruction::LoadI { nnn } => self.load_i(nnn),
            Instruction::JumpToV0 { offset } => self.jump_to_v0(offset),
            Instruction::Rand { x, kk } => self.rand(x as int, kk, random),
            Instruction::Draw { x, y, n } => self.draw(x as int, y as int, n as int),
            Instruction::SkipIfKeyPressed { x } => self.skip_if_key_pressed(x as int, keys),
            Instruction::SkipIfKeyNotPressed { x } => self.skip_if_key_not_pressed(x as int, keys),
            Instruction::LoadDelayTimer { x } => self.load_delay_timer(x as int),
            Instruction::LoadKeyPress { x } => self.load_key_press(x as int, keys),
            Instruction::SetDelayTimer { x } => self.set_delay_timer(x as int),
            Instruction::SetSoundTimer { x } => self.set_sound_timer(x as int),
            Instruction::AddI { x } => self.add_i(x as int),
            Instruction::LoadFont { x } => self.load_font(x as int),
            Instruction::LoadBcd { x } => self.load_bcd(x as int),
            Instruction::StoreRegisters => self.store_registers(),
            Instruction::RecallRegisters => self.recall_registers(),
        }
    }

    /// `instruction` takes this state to `after` with the result `done`: to
    /// the state that the instruction describes, or, where it fails, to the
    /// same state with its error.
    pub open spec fn steps_to(
        self,
        instruction: Instruction,
        keys: Keypad,
        random: u8,
        done: Result<(), Chip8Error>,
        after: Machine,
    ) -> bool {
        match self.execute_error(instruction) {
            Some(error) => done == Err::<(), Chip8Error>(error) && after == self,
            None => done == Ok::<(), Chip8Error>(()) && after == self.execute(
                instruction,
                keys,
                random,
            ),
        }
    }

    /// The error for two bytes that name no instruction, met with the program
    /// counter already past them.
    pub open spec fn unknown_instruction(self, b0: u8, b1: u8) -> Chip8Error {
        Chip8Error::UnknownInstruction { b0, b1, pc: wrap16(self.pc - 2) }
    }
}

impl Chip8 {
    /// Executes one instruction. `random` is used by `Cxkk` alone.
    pub fn execute(&mut self, instruction: Instruction, keys: &Keypad, random: u8) -> (done: Result<
        (),
        Chip8Error,
    >)
        requires
            instruction.valid(),
        ensures
            old(self)@.steps_to(instruction, *keys, random, done, final(self)@),
            old(self)@.stack_in_bounds() ==> final(self)@.stack_in_bounds(),
    {
        match instruction {
            Instruction::ClearScreen => self.clear_screen(),
            Instruction::Ret => {
                return self.ret();
            },
            Instruction::Jump { nnn } => self.jump(nnn),
            Instruction::Call { nnn } => {
                return self.call(nnn);
            },
            Instruction::SeByte { x, kk } => self.se_byte(x, kk),
            Instruction::Sne { x, kk } => self.sne(x, kk),
            Instruction::SeReg { x, y } => self.se_reg(x, y),
            Instruction::Load { x, kk } => self.load(x, kk),
            Instruction::Add { x, kk } => self.add(x, kk),
            Instruction::LoadReg { x, y } => self.load_reg(x, y),
            Instruction::Or { x, y } => self.or(x, y),
            Instruction::And { x, y } => self.and(x, y),
            Instruction::Xor { x, y } => self.xor(x, y),
            Instruction::AddWithCarry { x, y } => self.add_with_carry(x, y),
            Instruction::SubWithBorrow { x, y } => self.sub_with_borrow(x, y),
            Instruction::Shr { x, y } => self.shr(x, y),
            Instruction::Subn { x, y } => self.subn(x, y),
            Instruction::Shl { x } => self.shl(x),
            Instruction::SneV { x, y } => self.sne_v(x, y),
            Instruction::LoadI { nnn } => self.load_i(nnn),
            Instruction::JumpToV0 { offset } => self.jump_to_v0(offset),
            Instruction::Rand { x, kk } => self.rand_with(x, kk, random),
            Instruction::Draw { x, y, n } => self.draw(x, y, n),
            Instruction::SkipIfKeyPressed { x } => self.skip_if_key_pressed(x, keys),
            Instruction::SkipIfKeyNotPressed { x } => self.skip_if_key_not_pressed(x, keys),
            Instruction::LoadDelayTimer { x } => self.load_delay_timer(x),
            Instruction::LoadKeyPress { x } => self.load_key_press(x, keys),
            Instruction::SetDelayTimer { x } => self.set_delay_timer(x),
            Instruction::SetSoundTimer { x } => self.set_sound_timer(x),
            Instruction::AddI { x } => self.add_i(x),
            Instruction::LoadFont { x } => self.load_font(x),
            Instruction::LoadBcd { x } => self.load_bcd(x),
            Instruction::StoreRegisters => self.store_registers(),
            Instruction::RecallRegisters => self.recall_registers(),
        }
        Ok(())
    }

    /// Decodes the two bytes of a fetched instruction and executes it. `keys`
    /// is the keypad as the caller has just sampled it.
    ///
    /// Where the bytes name no instruction, the machine stays as it is, with
    /// the program counter past the two bytes, and the error holds the bytes
    /// and the address they were fetched from. `Cxkk` draws a random byte;
    /// what follows holds for the byte that was drawn.
    pub fn decode_execute(&mut self, b0: u8, b1: u8, keys: &Keypad) -> (done: Result<
        (),
        Chip8Error,
    >)
        ensures
            spec_decode(b0, b1) is None ==> done == Err::<(), Chip8Error>(
                old(self)@.unknown_instruction(b0, b1),
            ) && final(self)@ == old(self)@,
            spec_decode(b0, b1) matches Some(instruction) ==> exists|random: u8| #[trigger]
                old(self)@.steps_to(instruction, *keys, random, done, final(self)@),
            old(self)@.stack_in_bounds() ==> final(self)@.stack_in_bounds(),
    {
        match decode(b0, b1) {
            None => Err(Chip8Error::UnknownInstruction { b0, b1, pc: self.pc.wrapping_sub(2) }),
            Some(instruction) => {
                let random = match instruction {
                    Instruction::Rand { .. } => random_byte(),
                    _ => 0,
                };
                self.execute(instruction, keys, random)
            },
        }
    }
}

} // verus!
