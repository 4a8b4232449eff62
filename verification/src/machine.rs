//! The processor as mathematics: its state as a value, and what each memory
//! access, addressing mode and instruction makes of that state.
//!
//! Every function here takes a state and gives the state that follows,
//! together with the result or the bus fault that ended the access. What a
//! write does to memory is the business of the bus, so the functions that can
//! write are generic in the kind of bus.

use crate::alu::{
    adc_value, after_adc, after_bit, after_compare, after_sbc, after_shift, branch_target,
    carry_of, has_flag, high_of, low_of, sbc_value, shifted, with_flag, with_zn, word_of, Flag,
    Shift, UNUSED_BIT,
};
use crate::bus::{BusFault, BusState, Mem};
use crate::opcode::{decoded, AddressingMode, Operation};
use vstd::prelude::*;

verus! {

/// Page of the stack: the stack pointer is the low byte of an address in it.
pub const STACK_PAGE: u8 = 0x01;

/// Where the address of the first instruction is kept.
pub const RESET_VECTOR: u16 = 0xFFFC;

/// Where the address of the interrupt handler is kept.
pub const IRQ_VECTOR: u16 = 0xFFFE;

/// The registers of the processor and the bus it drives.
#[verifier::ext_equal]
pub struct Machine {
    pub a: u8,
    pub x: u8,
    pub y: u8,
    pub sp: u8,
    pub status: u8,
    pub pc: u16,
    pub debug: bool,
    pub bus: BusState,
}

/// A read through the bus. It leaves the bus at rest with the address on its
/// address lines, and the byte, if one came, on its data lines.
pub open spec fn read_byte(m: Machine, address: u16) -> (Machine, Result<u8, BusFault>) {
    let rest = BusState { address, enabled: false, reading: true, ..m.bus };
    if m.bus.cells.dom().contains(address) {
        let byte = m.bus.cells[address];
        (Machine { bus: BusState { data: byte, ..rest }, ..m }, Ok(byte))
    } else {
        (Machine { bus: rest, ..m }, Err(BusFault::Unmapped(address)))
    }
}

/// A write through the bus. It leaves the bus at rest with the address and
/// the byte on its lines, and memory as the bus decodes the write.
pub open spec fn write_byte<T: Mem>(m: Machine, address: u16, value: u8) -> (
    Machine,
    Result<(), BusFault>,
) {
    let rest = BusState { address, data: value, enabled: false, reading: false, ..m.bus };
    match T::write_cycle(m.bus.cells, address, value) {
        Ok(cells) => (Machine { bus: BusState { cells, ..rest }, ..m }, Ok(())),
        Err(fault) => (Machine { bus: rest, ..m }, Err(fault)),
    }
}

/// Reads a word whose bytes lie at two given addresses.
pub open spec fn read_pair(m: Machine, lo_at: u16, hi_at: u16) -> (Machine, Result<u16, BusFault>) {
    let (m1, lo) = read_byte(m, lo_at);
    match lo {
        Ok(lo) => {
            let (m2, hi) = read_byte(m1, hi_at);
            match hi {
                Ok(hi) => (m2, Ok(word_of(lo, hi))),
                Err(fault) => (m2, Err(fault)),
            }
        },
        Err(fault) => (m1, Err(fault)),
    }
}

/// Reads a little-endian word at an address and the one behind it.
pub open spec fn read_word(m: Machine, address: u16) -> (Machine, Result<u16, BusFault>) {
    read_pair(m, address, address.wrapping_add(1))
}

/// Writes a little-endian word at an address and the one behind it.
pub open spec fn write_word<T: Mem>(m: Machine, address: u16, value: u16) -> (
    Machine,
    Result<(), BusFault>,
) {
    let (m1, lo) = write_byte::<T>(m, address, low_of(value));
    match lo {
        Ok(()) => write_byte::<T>(m1, address.wrapping_add(1), high_of(value)),
        Err(fault) => (m1, Err(fault)),
    }
}

/// The address that the stack pointer names.
pub open spec fn stack_address(sp: u8) -> u16 {
    word_of(sp, STACK_PAGE)
}

/// Pushes a byte: it is written where the stack pointer points, and the
/// pointer then goes down by one, from 0 round to 255.
pub open spec fn push<T: Mem>(m: Machine, value: u8) -> (Machine, Result<(), BusFault>) {
    let (m1, r) = write_byte::<T>(m, stack_address(m.sp), value);
    match r {
        Ok(()) => (Machine { sp: m.sp.wrapping_sub(1), ..m1 }, Ok(())),
        Err(fault) => (m1, Err(fault)),
    }
}

/// Pops a byte: the stack pointer goes up by one, from 255 round to 0, and
/// the byte is read where it then points.
pub open spec fn pop(m: Machine) -> (Machine, Result<u8, BusFault>) {
    let sp = m.sp.wrapping_add(1);
    read_byte(Machine { sp, ..m }, stack_address(sp))
}

/// Pushes a word, high byte first.
pub open spec fn push_word<T: Mem>(m: Machine, value: u16) -> (Machine, Result<(), BusFault>) {
    let (m1, hi) = push::<T>(m, high_of(value));
    match hi {
        Ok(()) => push::<T>(m1, low_of(value)),
        Err(fault) => (m1, Err(fault)),
    }
}

/// Pops a word, low byte first.
pub open spec fn pop_word(m: Machine) -> (Machine, Result<u16, BusFault>) {
    let (m1, lo) = pop(m);
    match lo {
        Ok(lo) => {
            let (m2, hi) = pop(m1);
            match hi {
                Ok(hi) => (m2, Ok(word_of(lo, hi))),
                Err(fault) => (m2, Err(fault)),
            }
        },
        Err(fault) => (m1, Err(fault)),
    }
}

/// Reads the byte at the program counter and moves the counter past it.
pub open spec fn fetch(m: Machine) -> (Machine, Result<u8, BusFault>) {
    let (m1, r) = read_byte(m, m.pc);
    match r {
        Ok(byte) => (Machine { pc: m.pc.wrapping_add(1), ..m1 }, Ok(byte)),
        Err(fault) => (m1, Err(fault)),
    }
}

/// Fetches a little-endian word.
pub open spec fn fetch_word(m: Machine) -> (Machine, Result<u16, BusFault>) {
    let (m1, lo) = fetch(m);
    match lo {
        Ok(lo) => {
            let (m2, hi) = fetch(m1);
            match hi {
                Ok(hi) => (m2, Ok(word_of(lo, hi))),
                Err(fault) => (m2, Err(fault)),
            }
        },
        Err(fault) => (m1, Err(fault)),
    }
}

/// The address behind `address` in the same page: the low byte goes up by
/// one, from 255 round to 0, and the high byte stays.
pub open spec fn next_in_page(address: u16) -> u16 {
    word_of(low_of(address).wrapping_add(1), high_of(address))
}

/// An address in the zero page.
pub open spec fn zero_page_of(byte: u8) -> u16 {
    byte as u16
}

/// Reads the word that a zero-page byte points at. Both of its bytes lie in
/// the zero page: behind 0xFF comes 0x00.
pub open spec fn read_pointer(m: Machine, pointer: u8) -> (Machine, Result<u16, BusFault>) {
    read_pair(m, zero_page_of(pointer), zero_page_of(pointer.wrapping_add(1)))
}

/// Turns a word into the address `index` behind it; the sum wraps at 16 bits.
pub open spec fn indexed(step: (Machine, Result<u16, BusFault>), index: u8) -> (
    Machine,
    Result<Option<u16>, BusFault>,
) {
    match step.1 {
        Ok(base) => (step.0, Ok(Some(base.wrapping_add(index as u16)))),
        Err(fault) => (step.0, Err(fault)),
    }
}

/// The effective address of an instruction in a given addressing mode, read
/// from behind its opcode. Accumulator and Implied have none.
pub open spec fn target(m: Machine, mode: AddressingMode) -> (
    Machine,
    Result<Option<u16>, BusFault>,
) {
    match mode {
        AddressingMode::Immediate => (Machine { pc: m.pc.wrapping_add(1), ..m }, Ok(Some(m.pc))),
        AddressingMode::ZeroPage => zero_page_target(m, 0),
        AddressingMode::ZeroPageX => zero_page_target(m, m.x),
        AddressingMode::ZeroPageY => zero_page_target(m, m.y),
        AddressingMode::Absolute => indexed(fetch_word(m), 0),
        AddressingMode::AbsoluteX => indexed(fetch_word(m), m.x),
        AddressingMode::AbsoluteY => indexed(fetch_word(m), m.y),
        AddressingMode::Indirect => {
            let (m1, pointer) = fetch_word(m);
            match pointer {
                Ok(pointer) => indexed(read_pair(m1, pointer, next_in_page(pointer)), 0),
                Err(fault) => (m1, Err(fault)),
            }
        },
        AddressingMode::IndexedIndirect => {
            let (m1, byte) = fetch(m);
            match byte {
                Ok(byte) => indexed(read_pointer(m1, byte.wrapping_add(m.x)), 0),
                Err(fault) => (m1, Err(fault)),
            }
        },
        AddressingMode::IndirectIndexed => {
            let (m1, byte) = fetch(m);
            match byte {
                Ok(byte) => indexed(read_pointer(m1, byte), m.y),
                Err(fault) => (m1, Err(fault)),
            }
        },
        AddressingMode::Accumulator | AddressingMode::Implied => (m, Ok(None)),
        AddressingMode::Relative => {
            let (m1, offset) = fetch(m);
            match offset {
                Ok(offset) => (m1, Ok(Some(branch_target(m1.pc, offset)))),
                Err(fault) => (m1, Err(fault)),
            }
        },
    }
}

/// Zero-page addressing: the fetched byte plus an index, kept to eight bits.
pub open spec fn zero_page_target(m: Machine, index: u8) -> (
    Machine,
    Result<Option<u16>, BusFault>,
) {
    let (m1, byte) = fetch(m);
    match byte {
        Ok(byte) => (m1, Ok(Some(zero_page_of(byte.wrapping_add(index))))),
        Err(fault) => (m1, Err(fault)),
    }
}

/// The operand at a place: the byte in memory, or the accumulator where the
/// mode names no address.
pub open spec fn load(m: Machine, place: Option<u16>) -> (Machine, Result<u8, BusFault>) {
    match place {
        Some(address) => read_byte(m, address),
        None => (m, Ok(m.a)),
    }
}

/// Puts a byte at a place: into memory, or into the accumulator where the
/// mode names no address.
pub open spec fn store<T: Mem>(m: Machine, place: Option<u16>, value: u8) -> (
    Machine,
    Result<(), BusFault>,
) {
    match place {
        Some(address) => write_byte::<T>(m, address, value),
        None => (Machine { a: value, ..m }, Ok(())),
    }
}

/// Resolves the addressing mode and reads the operand: both the place and
/// the byte found there.
pub open spec fn operand(m: Machine, mode: AddressingMode) -> (
    Machine,
    Result<(Option<u16>, u8), BusFault>,
) {
    let (m1, place) = target(m, mode);
    match place {
        Ok(place) => {
            let (m2, value) = load(m1, place);
            match value {
                Ok(value) => (m2, Ok((place, value))),
                Err(fault) => (m2, Err(fault)),
            }
        },
        Err(fault) => (m1, Err(fault)),
    }
}

/// One of the three registers that instructions load, store and compare.
#[derive(Clone, Copy, Debug, PartialEq, Eq, Structural)]
pub enum Register {
    A,
    X,
    Y,
}

/// What a register holds.
pub open spec fn register(m: Machine, which: Register) -> u8 {
    match which {
        Register::A => m.a,
        Register::X => m.x,
        Register::Y => m.y,
    }
}

/// A register takes a value, and Z and N follow the value.
pub open spec fn loaded(m: Machine, which: Register, value: u8) -> Machine {
    let status = with_zn(m.status, value);
    match which {
        Register::A => Machine { a: value, status, ..m },
        Register::X => Machine { x: value, status, ..m },
        Register::Y => Machine { y: value, status, ..m },
    }
}

/// The accumulator after ADC of `value`, with C, V, Z and N.
pub open spec fn added(m: Machine, value: u8) -> Machine {
    Machine {
        a: adc_value(m.a, value, carry_of(m.status)),
        status: after_adc(m.status, m.a, value),
        ..m
    }
}

/// The accumulator after SBC of `value`, with C, V, Z and N.
pub open spec fn subtracted(m: Machine, value: u8) -> Machine {
    Machine {
        a: sbc_value(m.a, value, carry_of(m.status)),
        status: after_sbc(m.status, m.a, value),
        ..m
    }
}

/// The status register after comparing a register with `value`.
pub open spec fn compared(m: Machine, which: Register, value: u8) -> Machine {
    Machine { status: after_compare(m.status, register(m, which), value), ..m }
}

/// The status register after BIT of `value`.
pub open spec fn bit_tested(m: Machine, value: u8) -> Machine {
    Machine { status: after_bit(m.status, m.a, value), ..m }
}

/// What an instruction that only reads its operand makes of the machine and
/// the byte it read.
pub open spec fn reads(m: Machine, mode: AddressingMode, then: spec_fn(Machine, u8) -> Machine) -> (
    Machine,
    Result<(), BusFault>,
) {
    let (m1, r) = operand(m, mode);
    match r {
        Ok((_, value)) => (then(m1, value), Ok(())),
        Err(fault) => (m1, Err(fault)),
    }
}

/// LDA, LDX, LDY.
pub open spec fn load_register(m: Machine, which: Register, mode: AddressingMode) -> (
    Machine,
    Result<(), BusFault>,
) {
    reads(m, mode, |m1: Machine, value: u8| loaded(m1, which, value))
}

/// STA, STX, STY. No flag changes.
pub open spec fn store_register<T: Mem>(m: Machine, which: Register, mode: AddressingMode) -> (
    Machine,
    Result<(), BusFault>,
) {
    let (m1, place) = target(m, mode);
    match place {
        Ok(place) => store::<T>(m1, place, register(m, which)),
        Err(fault) => (m1, Err(fault)),
    }
}

/// ADC.
pub open spec fn adc(m: Machine, mode: AddressingMode) -> (Machine, Result<(), BusFault>) {
    reads(m, mode, |m1: Machine, value: u8| added(m1, value))
}

/// SBC.
pub open spec fn sbc(m: Machine, mode: AddressingMode) -> (Machine, Result<(), BusFault>) {
    reads(m, mode, |m1: Machine, value: u8| subtracted(m1, value))
}

/// AND.
pub open spec fn and(m: Machine, mode: AddressingMode) -> (Machine, Result<(), BusFault>) {
    reads(m, mode, |m1: Machine, value: u8| loaded(m1, Register::A, m1.a & value))
}

/// ORA.
pub open spec fn ora(m: Machine, mode: AddressingMode) -> (Machine, Result<(), BusFault>) {
    reads(m, mode, |m1: Machine, value: u8| loaded(m1, Register::A, m1.a | value))
}

/// EOR.
pub open spec fn eor(m: Machine, mode: AddressingMode) -> (Machine, Result<(), BusFault>) {
    reads(m, mode, |m1: Machine, value: u8| loaded(m1, Register::A, m1.a ^ value))
}

/// BIT.
pub open spec fn bit(m: Machine, mode: AddressingMode) -> (Machine, Result<(), BusFault>) {
    reads(m, mode, |m1: Machine, value: u8| bit_tested(m1, value))
}

/// CMP, CPX, CPY.
pub open spec fn compare(m: Machine, which: Register, mode: AddressingMode) -> (
    Machine,
    Result<(), BusFault>,
) {
    reads(m, mode, |m1: Machine, value: u8| compared(m1, which, value))
}

/// What an instruction that changes its operand in place does: the new byte
/// goes back to where the old one came from, and the status register follows.
pub open spec fn modifies<T: Mem>(
    m: Machine,
    mode: AddressingMode,
    value: spec_fn(Machine, u8) -> u8,
    status: spec_fn(Machine, u8) -> u8,
) -> (Machine, Result<(), BusFault>) {
    let (m1, r) = operand(m, mode);
    match r {
        Ok((place, old)) => {
            let (m2, w) = store::<T>(m1, place, value(m1, old));
            match w {
                Ok(()) => (Machine { status: status(m1, old), ..m2 }, Ok(())),
                Err(fault) => (m2, Err(fault)),
            }
        },
        Err(fault) => (m1, Err(fault)),
    }
}

/// ASL, LSR, ROL, ROR.
pub open spec fn shift<T: Mem>(m: Machine, kind: Shift, mode: AddressingMode) -> (
    Machine,
    Result<(), BusFault>,
) {
    modifies::<T>(
        m,
        mode,
        |m1: Machine, old: u8| shifted(kind, old, has_flag(m1.status, Flag::C)),
        |m1: Machine, old: u8| after_shift(m1.status, kind, old),
    )
}

/// INC.
pub open spec fn inc<T: Mem>(m: Machine, mode: AddressingMode) -> (Machine, Result<(), BusFault>) {
    modifies::<T>(
        m,
        mode,
        |m1: Machine, old: u8| old.wrapping_add(1),
        |m1: Machine, old: u8| with_zn(m1.status, old.wrapping_add(1)),
    )
}

/// DEC.
pub open spec fn dec<T: Mem>(m: Machine, mode: AddressingMode) -> (Machine, Result<(), BusFault>) {
    modifies::<T>(
        m,
        mode,
        |m1: Machine, old: u8| old.wrapping_sub(1),
        |m1: Machine, old: u8| with_zn(m1.status, old.wrapping_sub(1)),
    )
}

/// A branch: the offset is fetched either way, and a taken branch moves the
/// program counter to its target.
pub open spec fn branch(m: Machine, taken: bool) -> (Machine, Result<(), BusFault>) {
    let (m1, place) = target(m, AddressingMode::Relative);
    match place {
        Ok(Some(address)) => (
            if taken {
                Machine { pc: address, ..m1 }
            } else {
                m1
            },
            Ok(()),
        ),
        Ok(None) => (m1, Ok(())),
        Err(fault) => (m1, Err(fault)),
    }
}

/// JMP.
pub open spec fn jmp(m: Machine, mode: AddressingMode) -> (Machine, Result<(), BusFault>) {
    let (m1, place) = target(m, mode);
    match place {
        Ok(Some(address)) => (Machine { pc: address, ..m1 }, Ok(())),
        Ok(None) => (m1, Ok(())),
        Err(fault) => (m1, Err(fault)),
    }
}

/// JSR: pushes the address of its own last byte, then jumps.
pub open spec fn jsr<T: Mem>(m: Machine) -> (Machine, Result<(), BusFault>) {
    let (m1, address) = fetch_word(m);
    match address {
        Ok(address) => {
            let (m2, pushed) = push_word::<T>(m1, m1.pc.wrapping_sub(1));
            match pushed {
                Ok(()) => (Machine { pc: address, ..m2 }, Ok(())),
                Err(fault) => (m2, Err(fault)),
            }
        },
        Err(fault) => (m1, Err(fault)),
    }
}

/// RTS: pulls an address and goes on behind it.
pub open spec fn rts(m: Machine) -> (Machine, Result<(), BusFault>) {
    let (m1, address) = pop_word(m);
    match address {
        Ok(address) => (Machine { pc: address.wrapping_add(1), ..m1 }, Ok(())),
        Err(fault) => (m1, Err(fault)),
    }
}

/// BRK: pushes the program counter and the status register with B set, then
/// takes the program counter from the interrupt vector and sets B.
pub open spec fn brk<T: Mem>(m: Machine) -> (Machine, Result<(), BusFault>) {
    let (m1, pushed) = push_word::<T>(m, m.pc);
    match pushed {
        Ok(()) => {
            let (m2, pushed) = push::<T>(m1, with_flag(m.status, Flag::B, true));
            match pushed {
                Ok(()) => {
                    let (m3, handler) = read_word(m2, IRQ_VECTOR);
                    match handler {
                        Ok(handler) => (
                            Machine {
                                pc: handler,
                                status: with_flag(m.status, Flag::B, true),
                                ..m3
                            },
                            Ok(()),
                        ),
                        Err(fault) => (m3, Err(fault)),
                    }
                },
                Err(fault) => (m2, Err(fault)),
            }
        },
        Err(fault) => (m1, Err(fault)),
    }
}

/// RTI: pulls the status register, then the program counter.
pub open spec fn rti(m: Machine) -> (Machine, Result<(), BusFault>) {
    let (m1, status) = pop(m);
    match status {
        Ok(status) => {
            let (m2, address) = pop_word(Machine { status, ..m1 });
            match address {
                Ok(address) => (Machine { pc: address, ..m2 }, Ok(())),
                Err(fault) => (m2, Err(fault)),
            }
        },
        Err(fault) => (m1, Err(fault)),
    }
}

/// PLA: pulls the accumulator; Z and N follow it.
pub open spec fn pla(m: Machine) -> (Machine, Result<(), BusFault>) {
    let (m1, value) = pop(m);
    match value {
        Ok(value) => (loaded(m1, Register::A, value), Ok(())),
        Err(fault) => (m1, Err(fault)),
    }
}

/// PLP: pulls the status register.
pub open spec fn plp(m: Machine) -> (Machine, Result<(), BusFault>) {
    let (m1, status) = pop(m);
    match status {
        Ok(status) => (Machine { status, ..m1 }, Ok(())),
        Err(fault) => (m1, Err(fault)),
    }
}

/// The instructions that work on an operand in memory or in the accumulator.
/// Any other operation leaves the machine as it is.
pub open spec fn operate<T: Mem>(m: Machine, op: Operation, mode: AddressingMode) -> (
    Machine,
    Result<(), BusFault>,
) {
    match op {
        Operation::Adc => adc(m, mode),
        Operation::And => and(m, mode),
        Operation::Asl => shift::<T>(m, Shift::Asl, mode),
        Operation::Bit => bit(m, mode),
        Operation::Cmp => compare(m, Register::A, mode),
        Operation::Cpx => compare(m, Register::X, mode),
        Operation::Cpy => compare(m, Register::Y, mode),
        Operation::Dec => dec::<T>(m, mode),
        Operation::Eor => eor(m, mode),
        Operation::Inc => inc::<T>(m, mode),
        Operation::Lda => load_register(m, Register::A, mode),
        Operation::Ldx => load_register(m, Register::X, mode),
        Operation::Ldy => load_register(m, Register::Y, mode),
        Operation::Lsr => shift::<T>(m, Shift::Lsr, mode),
        Operation::Ora => ora(m, mode),
        Operation::Rol => shift::<T>(m, Shift::Rol, mode),
        Operation::Ror => shift::<T>(m, Shift::Ror, mode),
        Operation::Sbc => sbc(m, mode),
        Operation::Sta => store_register::<T>(m, Register::A, mode),
        Operation::Stx => store_register::<T>(m, Register::X, mode),
        Operation::Sty => store_register::<T>(m, Register::Y, mode),
        _ => (m, Ok(())),
    }
}

/// Whether a branch instruction is taken under a status register. No other
/// operation is.
pub open spec fn branch_taken(status: u8, op: Operation) -> bool {
    match op {
        Operation::Bcc => !has_flag(status, Flag::C),
        Operation::Bcs => has_flag(status, Flag::C),
        Operation::Beq => has_flag(status, Flag::Z),
        Operation::Bmi => has_flag(status, Flag::N),
        Operation::Bne => !has_flag(status, Flag::Z),
        Operation::Bpl => !has_flag(status, Flag::N),
        Operation::Bvc => !has_flag(status, Flag::V),
        Operation::Bvs => has_flag(status, Flag::V),
        _ => false,
    }
}

/// The jumps, and the instructions that work on the stack. Any other
/// operation leaves the machine as it is.
pub open spec fn control<T: Mem>(m: Machine, op: Operation, mode: AddressingMode) -> (
    Machine,
    Result<(), BusFault>,
) {
    match op {
        Operation::Brk => brk::<T>(m),
        Operation::Jmp => jmp(m, mode),
        Operation::Jsr => jsr::<T>(m),
        Operation::Pha => push::<T>(m, m.a),
        Operation::Php => push::<T>(m, with_flag(m.status, Flag::B, true)),
        Operation::Pla => pla(m),
        Operation::Plp => plp(m),
        Operation::Rti => rti(m),
        Operation::Rts => rts(m),
        _ => (m, Ok(())),
    }
}

/// The instructions that touch nothing but registers: flag changes,
/// transfers, and steps of X and Y. Any other operation leaves the machine as
/// it is.
pub open spec fn implied(m: Machine, op: Operation) -> Machine {
    match op {
        Operation::Clc => Machine { status: with_flag(m.status, Flag::C, false), ..m },
        Operation::Cld => Machine { status: with_flag(m.status, Flag::D, false), ..m },
        Operation::Cli => Machine { status: with_flag(m.status, Flag::I, false), ..m },
        Operation::Clv => Machine { status: with_flag(m.status, Flag::V, false), ..m },
        Operation::Sec => Machine { status: with_flag(m.status, Flag::C, true), ..m },
        Operation::Sed => Machine { status: with_flag(m.status, Flag::D, true), ..m },
        Operation::Sei => Machine { status: with_flag(m.status, Flag::I, true), ..m },
        Operation::Dex => loaded(m, Register::X, m.x.wrapping_sub(1)),
        Operation::Dey => loaded(m, Register::Y, m.y.wrapping_sub(1)),
        Operation::Inx => loaded(m, Register::X, m.x.wrapping_add(1)),
        Operation::Iny => loaded(m, Register::Y, m.y.wrapping_add(1)),
        Operation::Tax => loaded(m, Register::X, m.a),
        Operation::Tay => loaded(m, Register::Y, m.a),
        Operation::Tsx => loaded(m, Register::X, m.sp),
        Operation::Txa => loaded(m, Register::A, m.x),
        Operation::Txs => Machine { sp: m.x, ..m },
        Operation::Tya => loaded(m, Register::A, m.y),
        _ => m,
    }
}

/// What one instruction does, its opcode fetched already.
pub open spec fn execute<T: Mem>(m: Machine, op: Operation, mode: AddressingMode) -> (
    Machine,
    Result<(), BusFault>,
) {
    match op {
        Operation::Adc
        | Operation::And
        | Operation::Asl
        | Operation::Bit
        | Operation::Cmp
        | Operation::Cpx
        | Operation::Cpy
        | Operation::Dec
        | Operation::Eor
        | Operation::Inc
        | Operation::Lda
        | Operation::Ldx
        | Operation::Ldy
        | Operation::Lsr
        | Operation::Ora
        | Operation::Rol
        | Operation::Ror
        | Operation::Sbc
        | Operation::Sta
        | Operation::Stx
        | Operation::Sty => operate::<T>(m, op, mode),
        Operation::Bcc
        | Operation::Bcs
        | Operation::Beq
        | Operation::Bmi
        | Operation::Bne
        | Operation::Bpl
        | Operation::Bvc
        | Operation::Bvs => branch(m, branch_taken(m.status, op)),
        Operation::Brk
        | Operation::Jmp
        | Operation::Jsr
        | Operation::Pha
        | Operation::Php
        | Operation::Pla
        | Operation::Plp
        | Operation::Rti
        | Operation::Rts => control::<T>(m, op, mode),
        Operation::Clc
        | Operation::Cld
        | Operation::Cli
        | Operation::Clv
        | Operation::Dex
        | Operation::Dey
        | Operation::Inx
        | Operation::Iny
        | Operation::Nop
        | Operation::Sec
        | Operation::Sed
        | Operation::Sei
        | Operation::Tax
        | Operation::Tay
        | Operation::Tsx
        | Operation::Txa
        | Operation::Txs
        | Operation::Tya => (implied(m, op), Ok(())),
    }
}

/// The program counter is loaded from the reset vector.
pub open spec fn start(m: Machine) -> (Machine, Result<(), BusFault>) {
    let (m1, entry) = read_word(m, RESET_VECTOR);
    match entry {
        Ok(entry) => (Machine { pc: entry, ..m1 }, Ok(())),
        Err(fault) => (m1, Err(fault)),
    }
}

/// A reset: A, X and Y are cleared, the status register goes back to the
/// unused bit alone, and the program counter is loaded from the reset vector.
/// The stack pointer and memory stay.
pub open spec fn reset(m: Machine) -> (Machine, Result<(), BusFault>) {
    start(Machine { a: 0, x: 0, y: 0, status: UNUSED_BIT, ..m })
}

/// Why the processor cannot go on.
#[derive(Clone, Copy, Debug, PartialEq, Eq, Structural)]
pub enum Fault {
    /// The bus turned a memory cycle down.
    Bus(BusFault),
    /// The byte at the program counter is no instruction.
    UnknownOpcode(u8),
}

/// One instruction, from the fetch of its opcode on.
pub open spec fn step<T: Mem>(m: Machine) -> (Machine, Result<(), Fault>) {
    let (m1, opcode) = fetch(m);
    match opcode {
        Ok(opcode) => match decoded(opcode) {
            Some((op, mode)) => {
                let (m2, r) = execute::<T>(m1, op, mode);
                match r {
                    Ok(()) => (m2, Ok(())),
                    Err(fault) => (m2, Err(Fault::Bus(fault))),
                }
            },
            None => (m1, Err(Fault::UnknownOpcode(opcode))),
        },
        Err(fault) => (m1, Err(Fault::Bus(fault))),
    }
}

/// The opcode of BRK, which ends a program that is run to its end.
pub const BRK_OPCODE: u8 = 0x00;

/// How a run ended.
#[derive(Clone, Copy, Debug, PartialEq, Eq, Structural)]
pub enum Halt {
    /// The program reached a BRK.
    Break,
    /// The processor could not go on.
    Fault(Fault),
    /// The allowance of instructions is used up.
    Limit,
}

/// A run of at most `limit` instructions. It ends early at a BRK, whose
/// opcode is fetched and not carried out, so that the program counter rests
/// just behind it; and at the first fault.
pub open spec fn run<T: Mem>(m: Machine, limit: nat) -> (Machine, Halt)
    decreases limit,
{
    if limit == 0 {
        (m, Halt::Limit)
    } else {
        let (m1, opcode) = fetch(m);
        match opcode {
            Ok(opcode) => if opcode == BRK_OPCODE {
                (m1, Halt::Break)
            } else {
                match decoded(opcode) {
                    Some((op, mode)) => {
                        let (m2, r) = execute::<T>(m1, op, mode);
                        match r {
                            Ok(()) => run::<T>(m2, (limit - 1) as nat),
                            Err(fault) => (m2, Halt::Fault(Fault::Bus(fault))),
                        }
                    },
                    None => (m1, Halt::Fault(Fault::UnknownOpcode(opcode))),
                }
            },
            Err(fault) => (m1, Halt::Fault(Fault::Bus(fault))),
        }
    }
}

} // verus!
