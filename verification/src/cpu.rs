//! The processor: registers, and the instructions that work on them through
//! the bus.

use crate::alu;
use crate::alu::{
    adc_value, after_adc, after_compare, branch_to, carry_of, carry_out, has_flag, high,
    is_negative, law_branch_target, law_carry_out, law_flag_bits, law_overflow_bits,
    law_sbc_is_adc, law_sign_bit, law_sum_bits, low, signed_offset, signed_overflow, with_flag,
    with_zn, word, zero_page, Flag, Shift, UNUSED_BIT,
};
use crate::bus::{BusFault, ControlSignal, Mem};
use crate::laws::{
    adds, compares, law_adc, law_compare, law_load, law_logic, law_sbc, law_shift, shifts,
    subtracts,
};
use crate::machine;
use crate::machine::{
    fetch, fetch_word, pop, pop_word, push, push_word, read_byte, read_pair, read_word,
    write_byte, write_word, Fault, Halt, Machine, Register, BRK_OPCODE, IRQ_VECTOR, RESET_VECTOR,
    STACK_PAGE,
};
use crate::opcode::{decode, AddressingMode, Operation};
use vstd::prelude::*;

verus! {

/// A 6502 on a bus of kind `T`.
pub struct CPU<T: Mem> {
    pub register_a: u8,
    pub register_x: u8,
    pub register_y: u8,
    pub stack_pointer: u8,
    pub status: u8,
    pub program_counter: u16,
    /// Whether the driver is asked to trace each instruction.
    pub debug: bool,
    /// The bus that every byte crosses.
    pub memory: T,
}

impl<T: Mem> CPU<T> {
    /// The processor as a value.
    pub open spec fn view(&self) -> Machine {
        Machine {
            a: self.register_a,
            x: self.register_x,
            y: self.register_y,
            sp: self.stack_pointer,
            status: self.status,
            pc: self.program_counter,
            debug: self.debug,
            bus: self.memory@,
        }
    }

    /// A processor in front of `memory`: registers cleared, the stack empty,
    /// the unused bit of the status register set, the program counter at 0.
    pub fn new(memory: T, debug: bool) -> (cpu: Self)
        ensures
            cpu@ == (Machine {
                a: 0,
                x: 0,
                y: 0,
                sp: 0xFF,
                status: UNUSED_BIT,
                pc: 0,
                debug,
                bus: memory@,
            }),
    {
        CPU {
            register_a: 0,
            register_x: 0,
            register_y: 0,
            stack_pointer: 0xff,
            status: 0b0010_0000,
            program_counter: 0,
            debug,
            memory,
        }
    }

    /// Reads a byte: the bus is disabled, given the address, switched to
    /// reading and enabled for one cycle.
    pub fn mem_read(&mut self, addr: u16) -> (r: Result<u8, BusFault>)
        ensures
            (final(self)@, r) == read_byte(old(self)@, addr),
    {
        let _ = self.memory.set_control_signal(ControlSignal::MemEnable, false);
        self.memory.set_address_bus(addr);
        let _ = self.memory.set_control_signal(ControlSignal::AccessMode, true);
        let served = self.memory.set_control_signal(ControlSignal::MemEnable, true);
        let val: u8 = self.memory.get_data_bus();
        let _ = self.memory.set_control_signal(ControlSignal::MemEnable, false);
        match served {
            Ok(()) => Ok(val),
            Err(fault) => Err(fault),
        }
    }

    /// Writes a byte: the bus is disabled, given the address, switched to
    /// writing, given the byte and enabled for one cycle.
    pub fn mem_write(&mut self, addr: u16, value: u8) -> (r: Result<(), BusFault>)
        ensures
            (final(self)@, r) == write_byte::<T>(old(self)@, addr, value),
    {
        let _ = self.memory.set_control_signal(ControlSignal::MemEnable, false);
        self.memory.set_address_bus(addr);
        let _ = self.memory.set_control_signal(ControlSignal::AccessMode, false);
        self.memory.set_data_bus(value);
        let served = self.memory.set_control_signal(ControlSignal::MemEnable, true);
        let _ = self.memory.set_control_signal(ControlSignal::MemEnable, false);
        served
    }

    /// Reads a word whose bytes lie at two given addresses.
    pub fn mem_read_pair(&mut self, lo_at: u16, hi_at: u16) -> (r: Result<u16, BusFault>)
        ensures
            (final(self)@, r) == read_pair(old(self)@, lo_at, hi_at),
    {
        let lo = self.mem_read(lo_at)?;
        let hi = self.mem_read(hi_at)?;
        Ok(word(lo, hi))
    }

    pub fn mem_read_u16(&mut self, addr: u16) -> (r: Result<u16, BusFault>)
        ensures
            (final(self)@, r) == read_word(old(self)@, addr),
    {
        self.mem_read_pair(addr, addr.wrapping_add(1))
    }

    pub fn mem_write_u16(&mut self, addr: u16, value: u16) -> (r: Result<(), BusFault>)
        ensures
            (final(self)@, r) == write_word::<T>(old(self)@, addr, value),
    {
        self.mem_write(addr, low(value))?;
        self.mem_write(addr.wrapping_add(1), high(value))
    }

    pub fn stack_push(&mut self, val: u8) -> (r: Result<(), BusFault>)
        ensures
            (final(self)@, r) == push::<T>(old(self)@, val),
    {
        let addr: u16 = word(self.stack_pointer, STACK_PAGE);
        self.mem_write(addr, val)?;
        self.stack_pointer = self.stack_pointer.wrapping_sub(1);
        Ok(())
    }

    pub fn stack_pop(&mut self) -> (r: Result<u8, BusFault>)
        ensures
            (final(self)@, r) == pop(old(self)@),
    {
        self.stack_pointer = self.stack_pointer.wrapping_add(1);
        let addr: u16 = word(self.stack_pointer, STACK_PAGE);
        self.mem_read(addr)
    }

    pub fn stack_push_u16(&mut self, val: u16) -> (r: Result<(), BusFault>)
        ensures
            (final(self)@, r) == push_word::<T>(old(self)@, val),
    {
        self.stack_push(high(val))?;
        self.stack_push(low(val))
    }

    pub fn stack_pop_u16(&mut self) -> (r: Result<u16, BusFault>)
        ensures
            (final(self)@, r) == pop_word(old(self)@),
    {
        let lo = self.stack_pop()?;
        let hi = self.stack_pop()?;
        Ok(word(lo, hi))
    }

    pub fn fetch(&mut self) -> (r: Result<u8, BusFault>)
        ensures
            (final(self)@, r) == fetch(old(self)@),
    {
        let data = self.mem_read(self.program_counter)?;
        self.program_counter = self.program_counter.wrapping_add(1);
        Ok(data)
    }

    pub fn fetch_u16(&mut self) -> (r: Result<u16, BusFault>)
        ensures
            (final(self)@, r) == fetch_word(old(self)@),
    {
        let lo = self.fetch()?;
        let hi = self.fetch()?;
        Ok(word(lo, hi))
    }

    pub fn set_flag(&mut self, flag: Flag, val: bool)
        ensures
            final(self)@ == (Machine {
                status: with_flag(old(self).status, flag, val),
                ..old(self)@
            }),
    {
        proof {
            law_flag_bits(self.status, flag);
        }
        let code = flag.mask();
        if val {
            self.status = self.status | code;
        } else {
            self.status = self.status & !code;
        }
    }

    pub fn get_flag(&self, flag: Flag) -> (on: bool)
        ensures
            on == has_flag(self.status, flag),
    {
        proof {
            law_flag_bits(self.status, flag);
        }
        (self.status & flag.mask()) != 0
    }

    /// Z follows a result.
    pub fn set_zero(&mut self, result: u8)
        ensures
            final(self)@ == (Machine {
                status: with_flag(old(self).status, Flag::Z, result == 0),
                ..old(self)@
            }),
    {
        self.set_flag(Flag::Z, result == 0);
    }

    /// N follows bit 7 of a result.
    pub fn set_negative(&mut self, result: u8)
        ensures
            final(self)@ == (Machine {
                status: with_flag(old(self).status, Flag::N, is_negative(result)),
                ..old(self)@
            }),
    {
        let mask: u8 = 0b1000_0000;
        proof {
            law_sign_bit(result);
            assert(mask & result == result & mask) by (bit_vector);
        }
        self.set_flag(Flag::N, (mask & result) != 0);
    }

    /// C follows the carry out of bit 7 of the sum `result` of `a` and `b`.
    pub fn set_carry(&mut self, a: u8, b: u8, result: u8)
        ensures
            final(self)@ == (Machine {
                status: with_flag(old(self).status, Flag::C, carry_out(a, b, result)),
                ..old(self)@
            }),
    {
        let mask: u8 = 0b1000_0000;
        proof {
            law_sum_bits(a, b, result);
        }
        self.set_flag(Flag::C, ((a & b) | ((a | b) & !result)) & mask != 0);
    }

    /// V is set where `a` and `b` have one sign and their sum `result` has
    /// the other.
    pub fn set_overflow(&mut self, a: u8, b: u8, result: u8)
        ensures
            final(self)@ == (Machine {
                status: with_flag(old(self).status, Flag::V, signed_overflow(a, b, result)),
                ..old(self)@
            }),
    {
        let mask: u8 = 0b1000_0000;
        proof {
            law_sum_bits(a, b, result);
        }
        self.set_flag(Flag::V, (a & mask == b & mask) && (a & mask != result & mask));
    }

    /// Z and N follow a result.
    fn set_zero_negative(&mut self, result: u8)
        ensures
            final(self)@ == (Machine { status: with_zn(old(self).status, result), ..old(self)@ }),
    {
        self.set_zero(result);
        self.set_negative(result);
    }

    /// Reads the word that a zero-page byte points at.
    fn read_pointer(&mut self, pointer: u8) -> (r: Result<u16, BusFault>)
        ensures
            (final(self)@, r) == machine::read_pointer(old(self)@, pointer),
    {
        self.mem_read_pair(zero_page(pointer), zero_page(pointer.wrapping_add(1)))
    }

    /// Resolves an addressing mode to the effective address, reading what
    /// lies behind the opcode. Accumulator and Implied have no address.
    pub fn get_target_address(&mut self, mode: AddressingMode) -> (r: Result<
        Option<u16>,
        BusFault,
    >)
        ensures
            (final(self)@, r) == machine::target(old(self)@, mode),
    {
        match mode {
            AddressingMode::Immediate => {
                let at = self.program_counter;
                self.program_counter = self.program_counter.wrapping_add(1);
                Ok(Some(at))
            },
            AddressingMode::ZeroPage => {
                let byte = self.fetch()?;
                Ok(Some(zero_page(byte)))
            },
            AddressingMode::ZeroPageX => {
                let byte = self.fetch()?;
                Ok(Some(zero_page(byte.wrapping_add(self.register_x))))
            },
            AddressingMode::ZeroPageY => {
                let byte = self.fetch()?;
                Ok(Some(zero_page(byte.wrapping_add(self.register_y))))
            },
            AddressingMode::Absolute => {
                let base = self.fetch_u16()?;
                Ok(Some(base))
            },
            AddressingMode::AbsoluteX => {
                let base = self.fetch_u16()?;
                Ok(Some(base.wrapping_add(self.register_x as u16)))
            },
            AddressingMode::AbsoluteY => {
                let base = self.fetch_u16()?;
                Ok(Some(base.wrapping_add(self.register_y as u16)))
            },
            AddressingMode::Indirect => {
                let pointer = self.fetch_u16()?;
                let next = word(low(pointer).wrapping_add(1), high(pointer));
                let addr = self.mem_read_pair(pointer, next)?;
                Ok(Some(addr))
            },
            AddressingMode::IndexedIndirect => {
                let x = self.register_x;
                let byte = self.fetch()?;
                let addr = self.read_pointer(byte.wrapping_add(x))?;
                Ok(Some(addr))
            },
            AddressingMode::IndirectIndexed => {
                let y = self.register_y;
                let byte = self.fetch()?;
                let base = self.read_pointer(byte)?;
                Ok(Some(base.wrapping_add(y as u16)))
            },
            AddressingMode::Accumulator | AddressingMode::Implied => Ok(None),
            AddressingMode::Relative => {
                let offset = self.fetch()?;
                Ok(Some(branch_to(self.program_counter, offset)))
            },
        }
    }

    /// Resolves an addressing mode and reads the operand. Where the mode has
    /// no address the operand is the accumulator.
    pub fn operand(&mut self, mode: AddressingMode) -> (r: Result<(Option<u16>, u8), BusFault>)
        ensures
            (final(self)@, r) == machine::operand(old(self)@, mode),
    {
        let place = self.get_target_address(mode)?;
        let value = match place {
            Some(addr) => self.mem_read(addr)?,
            None => self.register_a,
        };
        Ok((place, value))
    }

    /// Puts a byte where an operand came from.
    fn store(&mut self, place: Option<u16>, value: u8) -> (r: Result<(), BusFault>)
        ensures
            (final(self)@, r) == machine::store::<T>(old(self)@, place, value),
    {
        match place {
            Some(addr) => self.mem_write(addr, value),
            None => {
                self.register_a = value;
                Ok(())
            },
        }
    }

    /// Adds `other` and the carry to the accumulator.
    fn add_with_carry(&mut self, other: u8)
        ensures
            final(self)@ == (Machine {
                a: adc_value(old(self).register_a, other, carry_of(old(self).status)),
                status: after_adc(old(self).status, old(self).register_a, other),
                ..old(self)@
            }),
    {
        let old_a: u8 = self.register_a;
        let carry: u8 = if self.get_flag(Flag::C) {
            1
        } else {
            0
        };
        let sum: u16 = old_a as u16 + other as u16 + carry as u16;
        self.register_a = low(sum);
        proof {
            law_carry_out(old_a, other, carry as int);
        }
        self.set_zero_negative(self.register_a);
        self.set_carry(old_a, other, self.register_a);
        self.set_overflow(old_a, other, self.register_a);
    }

    /// Adds the operand and the carry to the accumulator.
    pub fn adc(&mut self, mode: AddressingMode) -> (r: Result<(), BusFault>)
        ensures
            (final(self)@, r) == machine::adc(old(self)@, mode),
            r is Ok ==> {
                &&& machine::operand(old(self)@, mode).1 matches Ok((_, v))
                &&& adds(old(self).register_a, v, old(self).status, final(self)@)
            },
    {
        proof {
            law_adc(self@, mode);
        }
        let (_, other) = self.operand(mode)?;
        self.add_with_carry(other);
        Ok(())
    }

    /// Subtracts the operand and the borrow from the accumulator.
    pub fn sbc(&mut self, mode: AddressingMode) -> (r: Result<(), BusFault>)
        ensures
            (final(self)@, r) == machine::sbc(old(self)@, mode),
            r is Ok ==> {
                &&& machine::operand(old(self)@, mode).1 matches Ok((_, v))
                &&& subtracts(old(self).register_a, v, old(self).status, final(self)@)
            },
    {
        let (_, other) = self.operand(mode)?;
        proof {
            law_overflow_bits(self.register_a, other, 0);
            law_sbc_is_adc(self.status, self.register_a, other);
        }
        self.add_with_carry(!other);
        proof {
            law_sbc(old(self)@, mode);
        }
        Ok(())
    }

    /// Ands the operand into the accumulator; Z and N follow the result.
    pub fn and(&mut self, mode: AddressingMode) -> (r: Result<(), BusFault>)
        ensures
            (final(self)@, r) == machine::and(old(self)@, mode),
            r is Ok ==> {
                &&& machine::operand(old(self)@, mode).1 matches Ok((_, v))
                &&& final(self).register_a == old(self).register_a & v
                &&& has_flag(final(self).status, Flag::Z) == (final(self).register_a == 0)
                &&& has_flag(final(self).status, Flag::N) == (final(self).register_a & 0x80 != 0)
            },
    {
        proof {
            law_logic(self@, mode);
        }
        let (_, other) = self.operand(mode)?;
        self.register_a = self.register_a & other;
        self.set_zero_negative(self.register_a);
        Ok(())
    }

    /// Ors the operand into the accumulator; Z and N follow the result.
    pub fn ora(&mut self, mode: AddressingMode) -> (r: Result<(), BusFault>)
        ensures
            (final(self)@, r) == machine::ora(old(self)@, mode),
            r is Ok ==> {
                &&& machine::operand(old(self)@, mode).1 matches Ok((_, v))
                &&& final(self).register_a == old(self).register_a | v
                &&& has_flag(final(self).status, Flag::Z) == (final(self).register_a == 0)
                &&& has_flag(final(self).status, Flag::N) == (final(self).register_a & 0x80 != 0)
            },
    {
        proof {
            law_logic(self@, mode);
        }
        let (_, other) = self.operand(mode)?;
        self.register_a = self.register_a | other;
        self.set_zero_negative(self.register_a);
        Ok(())
    }

    /// Exclusive-ors the operand into the accumulator; Z and N follow the result.
    pub fn eor(&mut self, mode: AddressingMode) -> (r: Result<(), BusFault>)
        ensures
            (final(self)@, r) == machine::eor(old(self)@, mode),
            r is Ok ==> {
                &&& machine::operand(old(self)@, mode).1 matches Ok((_, v))
                &&& final(self).register_a == old(self).register_a ^ v
                &&& has_flag(final(self).status, Flag::Z) == (final(self).register_a == 0)
                &&& has_flag(final(self).status, Flag::N) == (final(self).register_a & 0x80 != 0)
            },
    {
        proof {
            law_logic(self@, mode);
        }
        let (_, other) = self.operand(mode)?;
        self.register_a = self.register_a ^ other;
        self.set_zero_negative(self.register_a);
        Ok(())
    }

    pub fn bit(&mut self, mode: AddressingMode) -> (r: Result<(), BusFault>)
        ensures
            (final(self)@, r) == machine::bit(old(self)@, mode),
    {
        let (_, val) = self.operand(mode)?;
        proof {
            law_sign_bit(val);
        }
        self.set_flag(Flag::Z, self.register_a & val == 0);
        self.set_flag(Flag::N, val & 0b1000_0000 != 0);
        self.set_flag(Flag::V, val & 0b0100_0000 != 0);
        Ok(())
    }

    /// Compares a register with an operand.
    fn compare_with(&mut self, register: u8, val: u8)
        ensures
            final(self)@ == (Machine {
                status: after_compare(old(self).status, register, val),
                ..old(self)@
            }),
    {
        self.set_flag(Flag::C, register >= val);
        self.set_flag(Flag::Z, register == val);
        proof {
            law_sign_bit(register.wrapping_sub(val));
        }
        self.set_flag(Flag::N, register.wrapping_sub(val) & 0b1000_0000 != 0);
    }

    /// Compares the register with the operand.
    pub fn cmp(&mut self, mode: AddressingMode) -> (r: Result<(), BusFault>)
        ensures
            (final(self)@, r) == machine::compare(old(self)@, Register::A, mode),
            r is Ok ==> {
                &&& machine::operand(old(self)@, mode).1 matches Ok((_, v))
                &&& compares(old(self).register_a, v, final(self).status)
            },
    {
        proof {
            law_compare(self@, Register::A, mode);
        }
        let (_, val) = self.operand(mode)?;
        self.compare_with(self.register_a, val);
        Ok(())
    }

    /// Compares the register with the operand.
    pub fn cpx(&mut self, mode: AddressingMode) -> (r: Result<(), BusFault>)
        ensures
            (final(self)@, r) == machine::compare(old(self)@, Register::X, mode),
            r is Ok ==> {
                &&& machine::operand(old(self)@, mode).1 matches Ok((_, v))
                &&& compares(old(self).register_x, v, final(self).status)
            },
    {
        proof {
            law_compare(self@, Register::X, mode);
        }
        let (_, val) = self.operand(mode)?;
        self.compare_with(self.register_x, val);
        Ok(())
    }

    /// Compares the register with the operand.
    pub fn cpy(&mut self, mode: AddressingMode) -> (r: Result<(), BusFault>)
        ensures
            (final(self)@, r) == machine::compare(old(self)@, Register::Y, mode),
            r is Ok ==> {
                &&& machine::operand(old(self)@, mode).1 matches Ok((_, v))
                &&& compares(old(self).register_y, v, final(self).status)
            },
    {
        proof {
            law_compare(self@, Register::Y, mode);
        }
        let (_, val) = self.operand(mode)?;
        self.compare_with(self.register_y, val);
        Ok(())
    }

    /// Loads the register with the operand; Z and N follow the operand.
    pub fn lda(&mut self, mode: AddressingMode) -> (r: Result<(), BusFault>)
        ensures
            (final(self)@, r) == machine::load_register(old(self)@, Register::A, mode),
            r is Ok ==> {
                &&& machine::operand(old(self)@, mode).1 matches Ok((_, v))
                &&& final(self).register_a == v
                &&& has_flag(final(self).status, Flag::Z) == (v == 0)
                &&& has_flag(final(self).status, Flag::N) == (v & 0x80 != 0)
            },
    {
        proof {
            law_load(self@, Register::A, mode);
        }
        let (_, val) = self.operand(mode)?;
        self.register_a = val;
        self.set_zero_negative(val);
        Ok(())
    }

    /// Loads the register with the operand; Z and N follow the operand.
    pub fn ldx(&mut self, mode: AddressingMode) -> (r: Result<(), BusFault>)
        ensures
            (final(self)@, r) == machine::load_register(old(self)@, Register::X, mode),
            r is Ok ==> {
                &&& machine::operand(old(self)@, mode).1 matches Ok((_, v))
                &&& final(self).register_x == v
                &&& has_flag(final(self).status, Flag::Z) == (v == 0)
                &&& has_flag(final(self).status, Flag::N) == (v & 0x80 != 0)
            },
    {
        proof {
            law_load(self@, Register::X, mode);
        }
        let (_, val) = self.operand(mode)?;
        self.register_x = val;
        self.set_zero_negative(val);
        Ok(())
    }

    /// Loads the register with the operand; Z and N follow the operand.
    pub fn ldy(&mut self, mode: AddressingMode) -> (r: Result<(), BusFault>)
        ensures
            (final(self)@, r) == machine::load_register(old(self)@, Register::Y, mode),
            r is Ok ==> {
                &&& machine::operand(old(self)@, mode).1 matches Ok((_, v))
                &&& final(self).register_y == v
                &&& has_flag(final(self).status, Flag::Z) == (v == 0)
                &&& has_flag(final(self).status, Flag::N) == (v & 0x80 != 0)
            },
    {
        proof {
            law_load(self@, Register::Y, mode);
        }
        let (_, val) = self.operand(mode)?;
        self.register_y = val;
        self.set_zero_negative(val);
        Ok(())
    }

    pub fn sta(&mut self, mode: AddressingMode) -> (r: Result<(), BusFault>)
        ensures
            (final(self)@, r) == machine::store_register::<T>(old(self)@, Register::A, mode),
    {
        let val = self.register_a;
        let place = self.get_target_address(mode)?;
        self.store(place, val)
    }

    pub fn stx(&mut self, mode: AddressingMode) -> (r: Result<(), BusFault>)
        ensures
            (final(self)@, r) == machine::store_register::<T>(old(self)@, Register::X, mode),
    {
        let val = self.register_x;
        let place = self.get_target_address(mode)?;
        self.store(place, val)
    }

    pub fn sty(&mut self, mode: AddressingMode) -> (r: Result<(), BusFault>)
        ensures
            (final(self)@, r) == machine::store_register::<T>(old(self)@, Register::Y, mode),
    {
        let val = self.register_y;
        let place = self.get_target_address(mode)?;
        self.store(place, val)
    }

    /// Shifts or rotates the operand where it lies.
    fn shift(&mut self, kind: Shift, mode: AddressingMode) -> (r: Result<(), BusFault>)
        ensures
            (final(self)@, r) == machine::shift::<T>(old(self)@, kind, mode),
    {
        let (place, val) = self.operand(mode)?;
        let (new_val, carry) = alu::shift(kind, val, self.get_flag(Flag::C));
        self.store(place, new_val)?;
        self.set_flag(Flag::C, carry);
        self.set_zero_negative(new_val);
        Ok(())
    }

    /// Shifts the operand left, where it lies.
    pub fn asl(&mut self, mode: AddressingMode) -> (r: Result<(), BusFault>)
        ensures
            (final(self)@, r) == machine::shift::<T>(old(self)@, Shift::Asl, mode),
            r is Ok ==> {
                &&& machine::operand(old(self)@, mode).1 matches Ok((place, v))
                &&& shifts::<T>(Shift::Asl, place, v, old(self)@, final(self)@)
            },
    {
        proof {
            law_shift::<T>(self@, Shift::Asl, mode);
        }
        self.shift(Shift::Asl, mode)
    }

    /// Shifts the operand right, where it lies.
    pub fn lsr(&mut self, mode: AddressingMode) -> (r: Result<(), BusFault>)
        ensures
            (final(self)@, r) == machine::shift::<T>(old(self)@, Shift::Lsr, mode),
            r is Ok ==> {
                &&& machine::operand(old(self)@, mode).1 matches Ok((place, v))
                &&& shifts::<T>(Shift::Lsr, place, v, old(self)@, final(self)@)
            },
    {
        proof {
            law_shift::<T>(self@, Shift::Lsr, mode);
        }
        self.shift(Shift::Lsr, mode)
    }

    /// Rotates the operand left through the carry, where it lies.
    pub fn rol(&mut self, mode: AddressingMode) -> (r: Result<(), BusFault>)
        ensures
            (final(self)@, r) == machine::shift::<T>(old(self)@, Shift::Rol, mode),
            r is Ok ==> {
                &&& machine::operand(old(self)@, mode).1 matches Ok((place, v))
                &&& shifts::<T>(Shift::Rol, place, v, old(self)@, final(self)@)
            },
    {
        proof {
            law_shift::<T>(self@, Shift::Rol, mode);
        }
        self.shift(Shift::Rol, mode)
    }

    /// Rotates the operand right through the carry, where it lies.
    pub fn ror(&mut self, mode: AddressingMode) -> (r: Result<(), BusFault>)
        ensures
            (final(self)@, r) == machine::shift::<T>(old(self)@, Shift::Ror, mode),
            r is Ok ==> {
                &&& machine::operand(old(self)@, mode).1 matches Ok((place, v))
                &&& shifts::<T>(Shift::Ror, place, v, old(self)@, final(self)@)
            },
    {
        proof {
            law_shift::<T>(self@, Shift::Ror, mode);
        }
        self.shift(Shift::Ror, mode)
    }

    pub fn inc(&mut self, mode: AddressingMode) -> (r: Result<(), BusFault>)
        ensures
            (final(self)@, r) == machine::inc::<T>(old(self)@, mode),
    {
        let (place, old_val) = self.operand(mode)?;
        let val: u8 = old_val.wrapping_add(1);
        self.store(place, val)?;
        self.set_zero_negative(val);
        Ok(())
    }

    pub fn dec(&mut self, mode: AddressingMode) -> (r: Result<(), BusFault>)
        ensures
            (final(self)@, r) == machine::dec::<T>(old(self)@, mode),
    {
        let (place, old_val) = self.operand(mode)?;
        let val: u8 = old_val.wrapping_sub(1);
        self.store(place, val)?;
        self.set_zero_negative(val);
        Ok(())
    }

    /// A branch instruction whose condition the caller has tested. The offset
    /// is fetched either way; a branch that is not taken leaves the program
    /// counter just behind it, and one that is taken adds the signed offset
    /// to that.
    pub fn jump_rel(&mut self, condition: bool) -> (r: Result<(), BusFault>)
        ensures
            (final(self)@, r) == machine::branch(old(self)@, condition),
            r is Ok ==> {
                &&& fetch(old(self)@).1 matches Ok(offset)
                &&& final(self).program_counter == if condition {
                    (old(self).program_counter + 1 + signed_offset(offset)) % 0x1_0000
                } else {
                    (old(self).program_counter + 1) % 0x1_0000
                }
            },
    {
        proof {
            if fetch(self@).1 is Ok {
                law_branch_target(self.program_counter.wrapping_add(1), fetch(self@).1->Ok_0);
            }
        }
        let place = self.get_target_address(AddressingMode::Relative)?;
        if !condition {
            return Ok(());
        }
        match place {
            Some(addr) => {
                self.program_counter = addr;
            },
            None => {},
        }
        Ok(())
    }

    pub fn jmp(&mut self, mode: AddressingMode) -> (r: Result<(), BusFault>)
        ensures
            (final(self)@, r) == machine::jmp(old(self)@, mode),
    {
        let place = self.get_target_address(mode)?;
        match place {
            Some(addr) => {
                self.program_counter = addr;
            },
            None => {},
        }
        Ok(())
    }

    pub fn jsr(&mut self) -> (r: Result<(), BusFault>)
        ensures
            (final(self)@, r) == machine::jsr::<T>(old(self)@),
    {
        let target_addr = self.fetch_u16()?;
        self.stack_push_u16(self.program_counter.wrapping_sub(1))?;
        self.program_counter = target_addr;
        Ok(())
    }

    pub fn rts(&mut self) -> (r: Result<(), BusFault>)
        ensures
            (final(self)@, r) == machine::rts(old(self)@),
    {
        let ret_addr = self.stack_pop_u16()?;
        self.program_counter = ret_addr.wrapping_add(1);
        Ok(())
    }

    pub fn brk(&mut self) -> (r: Result<(), BusFault>)
        ensures
            (final(self)@, r) == machine::brk::<T>(old(self)@),
    {
        proof {
            law_flag_bits(self.status, Flag::B);
        }
        let status: u8 = self.status | Flag::B.mask();
        self.stack_push_u16(self.program_counter)?;
        self.stack_push(status)?;
        self.program_counter = self.mem_read_u16(IRQ_VECTOR)?;
        self.set_flag(Flag::B, true);
        Ok(())
    }

    pub fn rti(&mut self) -> (r: Result<(), BusFault>)
        ensures
            (final(self)@, r) == machine::rti(old(self)@),
    {
        self.status = self.stack_pop()?;
        self.program_counter = self.stack_pop_u16()?;
        Ok(())
    }

    pub fn pla(&mut self) -> (r: Result<(), BusFault>)
        ensures
            (final(self)@, r) == machine::pla(old(self)@),
    {
        self.register_a = self.stack_pop()?;
        self.set_zero_negative(self.register_a);
        Ok(())
    }

    pub fn plp(&mut self) -> (r: Result<(), BusFault>)
        ensures
            (final(self)@, r) == machine::plp(old(self)@),
    {
        self.status = self.stack_pop()?;
        Ok(())
    }

    /// Gives a register a value; Z and N follow it.
    fn load_value(&mut self, which: Register, value: u8)
        ensures
            final(self)@ == machine::loaded(old(self)@, which, value),
    {
        match which {
            Register::A => {
                self.register_a = value;
            },
            Register::X => {
                self.register_x = value;
            },
            Register::Y => {
                self.register_y = value;
            },
        }
        self.set_zero_negative(value);
    }

    /// Carries out an instruction that works on an operand in memory or in
    /// the accumulator.
    fn operate(&mut self, op: Operation, mode: AddressingMode) -> (r: Result<(), BusFault>)
        ensures
            (final(self)@, r) == machine::operate::<T>(old(self)@, op, mode),
    {
        match op {
            Operation::Adc => self.adc(mode),
            Operation::And => self.and(mode),
            Operation::Asl => self.asl(mode),
            Operation::Bit => self.bit(mode),
            Operation::Cmp => self.cmp(mode),
            Operation::Cpx => self.cpx(mode),
            Operation::Cpy => self.cpy(mode),
            Operation::Dec => self.dec(mode),
            Operation::Eor => self.eor(mode),
            Operation::Inc => self.inc(mode),
            Operation::Lda => self.lda(mode),
            Operation::Ldx => self.ldx(mode),
            Operation::Ldy => self.ldy(mode),
            Operation::Lsr => self.lsr(mode),
            Operation::Ora => self.ora(mode),
            Operation::Rol => self.rol(mode),
            Operation::Ror => self.ror(mode),
            Operation::Sbc => self.sbc(mode),
            Operation::Sta => self.sta(mode),
            Operation::Stx => self.stx(mode),
            Operation::Sty => self.sty(mode),
            _ => Ok(()),
        }
    }

    /// Whether a branch instruction is taken as the flags stand.
    fn branch_taken(&self, op: Operation) -> (taken: bool)
        ensures
            taken == machine::branch_taken(self.status, op),
    {
        match op {
            Operation::Bcc => !self.get_flag(Flag::C),
            Operation::Bcs => self.get_flag(Flag::C),
            Operation::Beq => self.get_flag(Flag::Z),
            Operation::Bmi => self.get_flag(Flag::N),
            Operation::Bne => !self.get_flag(Flag::Z),
            Operation::Bpl => !self.get_flag(Flag::N),
            Operation::Bvc => !self.get_flag(Flag::V),
            Operation::Bvs => self.get_flag(Flag::V),
            _ => false,
        }
    }

    /// Carries out a jump or an instruction that works on the stack.
    fn control(&mut self, op: Operation, mode: AddressingMode) -> (r: Result<(), BusFault>)
        ensures
            (final(self)@, r) == machine::control::<T>(old(self)@, op, mode),
    {
        match op {
            Operation::Brk => self.brk(),
            Operation::Jmp => self.jmp(mode),
            Operation::Jsr => self.jsr(),
            Operation::Pha => self.stack_push(self.register_a),
            Operation::Php => {
                proof {
                    law_flag_bits(self.status, Flag::B);
                }
                self.stack_push(self.status | Flag::B.mask())
            },
            Operation::Pla => self.pla(),
            Operation::Plp => self.plp(),
            Operation::Rti => self.rti(),
            Operation::Rts => self.rts(),
            _ => Ok(()),
        }
    }

    /// Carries out an instruction that touches nothing but registers.
    fn implied(&mut self, op: Operation)
        ensures
            final(self)@ == machine::implied(old(self)@, op),
    {
        match op {
            Operation::Clc => self.set_flag(Flag::C, false),
            Operation::Cld => self.set_flag(Flag::D, false),
            Operation::Cli => self.set_flag(Flag::I, false),
            Operation::Clv => self.set_flag(Flag::V, false),
            Operation::Sec => self.set_flag(Flag::C, true),
            Operation::Sed => self.set_flag(Flag::D, true),
            Operation::Sei => self.set_flag(Flag::I, true),
            Operation::Dex => self.load_value(Register::X, self.register_x.wrapping_sub(1)),
            Operation::Dey => self.load_value(Register::Y, self.register_y.wrapping_sub(1)),
            Operation::Inx => self.load_value(Register::X, self.register_x.wrapping_add(1)),
            Operation::Iny => self.load_value(Register::Y, self.register_y.wrapping_add(1)),
            Operation::Tax => self.load_value(Register::X, self.register_a),
            Operation::Tay => self.load_value(Register::Y, self.register_a),
            Operation::Tsx => self.load_value(Register::X, self.stack_pointer),
            Operation::Txa => self.load_value(Register::A, self.register_x),
            Operation::Txs => {
                self.stack_pointer = self.register_x;
            },
            Operation::Tya => self.load_value(Register::A, self.register_y),
            _ => {},
        }
    }

    /// Carries out one instruction whose opcode has been fetched and decoded.
    pub fn execute(&mut self, op: Operation, mode: AddressingMode) -> (r: Result<(), BusFault>)
        ensures
            (final(self)@, r) == machine::execute::<T>(old(self)@, op, mode),
    {
        match op {
            Operation::Adc
            | Operation::And
            | Operation::Asl
            | Operation::Bit
            | Operation::Cmp
            | Operation::Cpx
            | Operation::Cpy
            | Operation::Dec
            | Operation::Eor
            | Operation::Inc
            | Operation::Lda
            | Operation::Ldx
            | Operation::Ldy
            | Operation::Lsr
            | Operation::Ora
            | Operation::Rol
            | Operation::Ror
            | Operation::Sbc
            | Operation::Sta
            | Operation::Stx
            | Operation::Sty => self.operate(op, mode),
            Operation::Bcc
            | Operation::Bcs
            | Operation::Beq
            | Operation::Bmi
            | Operation::Bne
            | Operation::Bpl
            | Operation::Bvc
            | Operation::Bvs => {
                let taken = self.branch_taken(op);
                self.jump_rel(taken)
            },
            Operation::Brk
            | Operation::Jmp
            | Operation::Jsr
            | Operation::Pha
            | Operation::Php
            | Operation::Pla
            | Operation::Plp
            | Operation::Rti
            | Operation::Rts => self.control(op, mode),
            Operation::Clc
            | Operation::Cld
            | Operation::Cli
            | Operation::Clv
            | Operation::Dex
            | Operation::Dey
            | Operation::Inx
            | Operation::Iny
            | Operation::Nop
            | Operation::Sec
            | Operation::Sed
            | Operation::Sei
            | Operation::Tax
            | Operation::Tay
            | Operation::Tsx
            | Operation::Txa
            | Operation::Txs
            | Operation::Tya => {
                self.implied(op);
                Ok(())
            },
        }
    }

    /// Fetches, decodes and carries out one instruction.
    pub fn step(&mut self) -> (r: Result<(), Fault>)
        ensures
            (final(self)@, r) == machine::step::<T>(old(self)@),
    {
        let opcode = match self.fetch() {
            Ok(opcode) => opcode,
            Err(fault) => {
                return Err(Fault::Bus(fault));
            },
        };
        match decode(opcode) {
            Some((op, mode)) => match self.execute(op, mode) {
                Ok(()) => Ok(()),
                Err(fault) => Err(Fault::Bus(fault)),
            },
            None => Err(Fault::UnknownOpcode(opcode)),
        }
    }

    /// Points the processor at its program: the program counter is loaded
    /// from the reset vector.
    pub fn start(&mut self) -> (r: Result<(), BusFault>)
        ensures
            (final(self)@, r) == machine::start(old(self)@),
    {
        self.program_counter = self.mem_read_u16(RESET_VECTOR)?;
        Ok(())
    }

    /// Resets the processor: A, X, Y and the status register go back to what
    /// a new processor has, and the program counter is loaded from the reset
    /// vector.
    pub fn reset(&mut self) -> (r: Result<(), BusFault>)
        ensures
            (final(self)@, r) == machine::reset(old(self)@),
    {
        self.register_a = 0;
        self.register_x = 0;
        self.register_y = 0;
        self.status = UNUSED_BIT;
        self.start()
    }

    /// Runs at most `limit` instructions. The run ends early at a BRK, whose
    /// opcode is fetched and not carried out, and at the first fault.
    pub fn run(&mut self, limit: u64) -> (halt: Halt)
        ensures
            (final(self)@, halt) == machine::run::<T>(old(self)@, limit as nat),
    {
        let mut left: u64 = limit;
        while left > 0
            invariant
                machine::run::<T>(self@, left as nat) == machine::run::<T>(
                    old(self)@,
                    limit as nat,
                ),
            decreases left,
        {
            let opcode = match self.fetch() {
                Ok(opcode) => opcode,
                Err(fault) => {
                    return Halt::Fault(Fault::Bus(fault));
                },
            };
            if opcode == BRK_OPCODE {
                return Halt::Break;
            }
            match decode(opcode) {
                Some((op, mode)) => match self.execute(op, mode) {
                    Ok(()) => {},
                    Err(fault) => {
                        return Halt::Fault(Fault::Bus(fault));
                    },
                },
                None => {
                    return Halt::Fault(Fault::UnknownOpcode(opcode));
                },
            }
            left = left - 1;
        }
        Halt::Limit
    }
}

} // verus!
