//! The instruction set: operations, addressing modes, and the opcode byte of
//! each pair of them that the processor knows.

use vstd::prelude::*;

verus! {

/// How an instruction finds its operand.
#[derive(Clone, Copy, Debug, PartialEq, Eq, Structural)]
pub enum AddressingMode {
    /// The operand is the byte behind the opcode.
    Immediate,
    /// The byte behind the opcode is an address in the zero page.
    ZeroPage,
    /// Zero page, plus X, staying in the zero page.
    ZeroPageX,
    /// Zero page, plus Y, staying in the zero page.
    ZeroPageY,
    /// The word behind the opcode is the address.
    Absolute,
    /// Absolute, plus X.
    AbsoluteX,
    /// Absolute, plus Y.
    AbsoluteY,
    /// The word behind the opcode points at the address.
    Indirect,
    /// `(d,X)`: the zero-page byte plus X points at the address.
    IndexedIndirect,
    /// `(d),Y`: the zero-page byte points at an address, to which Y is added.
    IndirectIndexed,
    /// The operand is the accumulator.
    Accumulator,
    /// The instruction has no operand.
    Implied,
    /// The byte behind the opcode is a signed offset from the address behind
    /// it.
    Relative,
}

/// What an instruction does.
#[derive(Clone, Copy, Debug, PartialEq, Eq, Structural)]
pub enum Operation {
    /// Add memory to the accumulator, with carry.
    Adc,
    /// And memory into the accumulator.
    And,
    /// Shift left.
    Asl,
    /// Branch if carry is clear.
    Bcc,
    /// Branch if carry is set.
    Bcs,
    /// Branch if zero is set.
    Beq,
    /// Test bits of memory against the accumulator.
    Bit,
    /// Branch if negative is set.
    Bmi,
    /// Branch if zero is clear.
    Bne,
    /// Branch if negative is clear.
    Bpl,
    /// Enter the interrupt handler.
    Brk,
    /// Branch if overflow is clear.
    Bvc,
    /// Branch if overflow is set.
    Bvs,
    /// Clear carry.
    Clc,
    /// Clear decimal mode.
    Cld,
    /// Clear interrupt disable.
    Cli,
    /// Clear overflow.
    Clv,
    /// Compare memory with the accumulator.
    Cmp,
    /// Compare memory with X.
    Cpx,
    /// Compare memory with Y.
    Cpy,
    /// Decrement memory.
    Dec,
    /// Decrement X.
    Dex,
    /// Decrement Y.
    Dey,
    /// Exclusive-or memory into the accumulator.
    Eor,
    /// Increment memory.
    Inc,
    /// Increment X.
    Inx,
    /// Increment Y.
    Iny,
    /// Jump.
    Jmp,
    /// Jump to a subroutine.
    Jsr,
    /// Load the accumulator.
    Lda,
    /// Load X.
    Ldx,
    /// Load Y.
    Ldy,
    /// Shift right.
    Lsr,
    /// Do nothing.
    Nop,
    /// Or memory into the accumulator.
    Ora,
    /// Push the accumulator.
    Pha,
    /// Push the status register.
    Php,
    /// Pull the accumulator.
    Pla,
    /// Pull the status register.
    Plp,
    /// Rotate left through carry.
    Rol,
    /// Rotate right through carry.
    Ror,
    /// Return from the interrupt handler.
    Rti,
    /// Return from a subroutine.
    Rts,
    /// Subtract memory from the accumulator, with borrow.
    Sbc,
    /// Set carry.
    Sec,
    /// Set decimal mode.
    Sed,
    /// Set interrupt disable.
    Sei,
    /// Store the accumulator.
    Sta,
    /// Store X.
    Stx,
    /// Store Y.
    Sty,
    /// Copy the accumulator to X.
    Tax,
    /// Copy the accumulator to Y.
    Tay,
    /// Copy the stack pointer to X.
    Tsx,
    /// Copy X to the accumulator.
    Txa,
    /// Copy X to the stack pointer.
    Txs,
    /// Copy Y to the accumulator.
    Tya,
}

/// The opcode byte of an operation in an addressing mode, where the processor
/// has that instruction.
pub open spec fn opcode_of(op: Operation, mode: AddressingMode) -> Option<u8> {
    match op {
        Operation::Adc => match mode {
            AddressingMode::Immediate => Some(0x69),
            AddressingMode::ZeroPage => Some(0x65),
            AddressingMode::ZeroPageX => Some(0x75),
            AddressingMode::Absolute => Some(0x6D),
            AddressingMode::AbsoluteX => Some(0x7D),
            AddressingMode::AbsoluteY => Some(0x79),
            AddressingMode::IndexedIndirect => Some(0x61),
            AddressingMode::IndirectIndexed => Some(0x71),
            _ => None,
        },
        Operation::And => match mode {
            AddressingMode::Immediate => Some(0x29),
            AddressingMode::ZeroPage => Some(0x25),
            AddressingMode::ZeroPageX => Some(0x35),
            AddressingMode::Absolute => Some(0x2D),
            AddressingMode::AbsoluteX => Some(0x3D),
            AddressingMode::AbsoluteY => Some(0x39),
            AddressingMode::IndexedIndirect => Some(0x21),
            AddressingMode::IndirectIndexed => Some(0x31),
            _ => None,
        },
        Operation::Asl => match mode {
            AddressingMode::Accumulator => Some(0x0A),
            AddressingMode::ZeroPage => Some(0x06),
            AddressingMode::ZeroPageX => Some(0x16),
            AddressingMode::Absolute => Some(0x0E),
            AddressingMode::AbsoluteX => Some(0x1E),
            _ => None,
        },
        Operation::Bcc => match mode {
            AddressingMode::Relative => Some(0x90),
            _ => None,
        },
        Operation::Bcs => match mode {
            AddressingMode::Relative => Some(0xB0),
            _ => None,
        },
        Operation::Beq => match mode {
            AddressingMode::Relative => Some(0xF0),
            _ => None,
        },
        Operation::Bit => match mode {
            AddressingMode::ZeroPage => Some(0x24),
            AddressingMode::Absolute => Some(0x2C),
            _ => None,
        },
        Operation::Bmi => match mode {
            AddressingMode::Relative => Some(0x30),
            _ => None,
        },
        Operation::Bne => match mode {
            AddressingMode::Relative => Some(0xD0),
            _ => None,
        },
        Operation::Bpl => match mode {
            AddressingMode::Relative => Some(0x10),
            _ => None,
        },
        Operation::Brk => match mode {
            AddressingMode::Implied => Some(0x00),
            _ => None,
        },
        Operation::Bvc => match mode {
            AddressingMode::Relative => Some(0x50),
            _ => None,
        },
        Operation::Bvs => match mode {
            AddressingMode::Relative => Some(0x70),
            _ => None,
        },
        Operation::Clc => match mode {
            AddressingMode::Implied => Some(0x18),
            _ => None,
        },
        Operation::Cld => match mode {
            AddressingMode::Implied => Some(0xD8),
            _ => None,
        },
        Operation::Cli => match mode {
            AddressingMode::Implied => Some(0x58),
            _ => None,
        },
        Operation::Clv => match mode {
            AddressingMode::Implied => Some(0xB8),
            _ => None,
        },
        Operation::Cmp => match mode {
            AddressingMode::Immediate => Some(0xC9),
            AddressingMode::ZeroPage => Some(0xC5),
            AddressingMode::ZeroPageX => Some(0xD5),
            AddressingMode::Absolute => Some(0xCD),
            AddressingMode::AbsoluteX => Some(0xDD),
            AddressingMode::AbsoluteY => Some(0xD9),
            AddressingMode::IndexedIndirect => Some(0xC1),
            AddressingMode::IndirectIndexed => Some(0xD1),
            _ => None,
        },
        Operation::Cpx => match mode {
            AddressingMode::Immediate => Some(0xE0),
            AddressingMode::ZeroPage => Some(0xE4),
            AddressingMode::Absolute => Some(0xEC),
            _ => None,
        },
        Operation::Cpy => match mode {
            AddressingMode::Immediate => Some(0xC0),
            AddressingMode::ZeroPage => Some(0xC4),
            AddressingMode::Absolute => Some(0xCC),
            _ => None,
        },
        Operation::Dec => match mode {
            AddressingMode::ZeroPage => Some(0xC6),
            AddressingMode::ZeroPageX => Some(0xD6),
            AddressingMode::Absolute => Some(0xCE),
            AddressingMode::AbsoluteX => Some(0xDE),
            _ => None,
        },
        Operation::Dex => match mode {
            AddressingMode::Implied => Some(0xCA),
            _ => None,
        },
        Operation::Dey => match mode {
            AddressingMode::Implied => Some(0x88),
            _ => None,
        },
        Operation::Eor => match mode {
            AddressingMode::Immediate => Some(0x49),
            AddressingMode::ZeroPage => Some(0x45),
            AddressingMode::ZeroPageX => Some(0x55),
            AddressingMode::Absolute => Some(0x4D),
            AddressingMode::AbsoluteX => Some(0x5D),
            AddressingMode::AbsoluteY => Some(0x59),
            AddressingMode::IndexedIndirect => Some(0x41),
            AddressingMode::IndirectIndexed => Some(0x51),
            _ => None,
        },
        Operation::Inc => match mode {
            AddressingMode::ZeroPage => Some(0xE6),
            AddressingMode::ZeroPageX => Some(0xF6),
            AddressingMode::Absolute => Some(0xEE),
            AddressingMode::AbsoluteX => Some(0xFE),
            _ => None,
        },
        Operation::Inx => match mode {
            AddressingMode::Implied => Some(0xE8),
            _ => None,
        },
        Operation::Iny => match mode {
            AddressingMode::Implied => Some(0xC8),
            _ => None,
        },
        Operation::Jmp => match mode {
            AddressingMode::Absolute => Some(0x4C),
            AddressingMode::Indirect => Some(0x6C),
            _ => None,
        },
        Operation::Jsr => match mode {
            AddressingMode::Absolute => Some(0x20),
            _ => None,
        },
        Operation::Lda => match mode {
            AddressingMode::Immediate => Some(0xA9),
            AddressingMode::ZeroPage => Some(0xA5),
            AddressingMode::ZeroPageX => Some(0xB5),
            AddressingMode::Absolute => Some(0xAD),
            AddressingMode::AbsoluteX => Some(0xBD),
            AddressingMode::AbsoluteY => Some(0xB9),
            AddressingMode::IndexedIndirect => Some(0xA1),
            AddressingMode::IndirectIndexed => Some(0xB1),
            _ => None,
        },
        Operation::Ldx => match mode {
            AddressingMode::Immediate => Some(0xA2),
            AddressingMode::ZeroPage => Some(0xA6),
            AddressingMode::ZeroPageY => Some(0xB6),
            AddressingMode::Absolute => Some(0xAE),
            AddressingMode::AbsoluteY => Some(0xBE),
            _ => None,
        },
        Operation::Ldy => match mode {
            AddressingMode::Immediate => Some(0xA0),
            AddressingMode::ZeroPage => Some(0xA4),
            AddressingMode::ZeroPageX => Some(0xB4),
            AddressingMode::Absolute => Some(0xAC),
            AddressingMode::AbsoluteX => Some(0xBC),
            _ => None,
        },
        Operation::Lsr => match mode {
            AddressingMode::Accumulator => Some(0x4A),
            AddressingMode::ZeroPage => Some(0x46),
            AddressingMode::ZeroPageX => Some(0x56),
            AddressingMode::Absolute => Some(0x4E),
            AddressingMode::AbsoluteX => Some(0x5E),
            _ => None,
        },
        Operation::Nop => match mode {
            AddressingMode::Implied => Some(0xEA),
            _ => None,
        },
        Operation::Ora => match mode {
            AddressingMode::Immediate => Some(0x09),
            AddressingMode::ZeroPage => Some(0x05),
            AddressingMode::ZeroPageX => Some(0x15),
            AddressingMode::Absolute => Some(0x0D),
            AddressingMode::AbsoluteX => Some(0x1D),
            AddressingMode::AbsoluteY => Some(0x19),
            AddressingMode::IndexedIndirect => Some(0x01),
            AddressingMode::IndirectIndexed => Some(0x11),
            _ => None,
        },
        Operation::Pha => match mode {
            AddressingMode::Implied => Some(0x48),
            _ => None,
        },
        Operation::Php => match mode {
            AddressingMode::Implied => Some(0x08),
            _ => None,
        },
        Operation::Pla => match mode {
            AddressingMode::Implied => Some(0x68),
            _ => None,
        },
        Operation::Plp => match mode {
            AddressingMode::Implied => Some(0x28),
            _ => None,
        },
        Operation::Rol => match mode {
            AddressingMode::Accumulator => Some(0x2A),
            AddressingMode::ZeroPage => Some(0x26),
            AddressingMode::ZeroPageX => Some(0x36),
            AddressingMode::Absolute => Some(0x2E),
            AddressingMode::AbsoluteX => Some(0x3E),
            _ => None,
        },
        Operation::Ror => match mode {
            AddressingMode::Accumulator => Some(0x6A),
            AddressingMode::ZeroPage => Some(0x66),
            AddressingMode::ZeroPageX => Some(0x76),
            AddressingMode::Absolute => Some(0x6E),
            AddressingMode::AbsoluteX => Some(0x7E),
            _ => None,
        },
        Operation::Rti => match mode {
            AddressingMode::Implied => Some(0x40),
            _ => None,
        },
        Operation::Rts => match mode {
            AddressingMode::Implied => Some(0x60),
            _ => None,
        },
        Operation::Sbc => match mode {
            AddressingMode::Immediate => Some(0xE9),
            AddressingMode::ZeroPage => Some(0xE5),
            AddressingMode::ZeroPageX => Some(0xF5),
            AddressingMode::Absolute => Some(0xED),
            AddressingMode::AbsoluteX => Some(0xFD),
            AddressingMode::AbsoluteY => Some(0xF9),
            AddressingMode::IndexedIndirect => Some(0xE1),
            AddressingMode::IndirectIndexed => Some(0xF1),
            _ => None,
        },
        Operation::Sec => match mode {
            AddressingMode::Implied => Some(0x38),
            _ => None,
        },
        Operation::Sed => match mode {
            AddressingMode::Implied => Some(0xF8),
            _ => None,
        },
        Operation::Sei => match mode {
            AddressingMode::Implied => Some(0x78),
            _ => None,
        },
        Operation::Sta => match mode {
            AddressingMode::ZeroPage => Some(0x85),
            AddressingMode::ZeroPageX => Some(0x95),
            AddressingMode::Absolute => Some(0x8D),
            AddressingMode::AbsoluteX => Some(0x9D),
            AddressingMode::AbsoluteY => Some(0x99),
            AddressingMode::IndexedIndirect => Some(0x81),
            AddressingMode::IndirectIndexed => Some(0x91),
            _ => None,
        },
        Operation::Stx => match mode {
            AddressingMode::ZeroPage => Some(0x86),
            AddressingMode::ZeroPageY => Some(0x96),
            AddressingMode::Absolute => Some(0x8E),
            _ => None,
        },
        Operation::Sty => match mode {
            AddressingMode::ZeroPage => Some(0x84),
            AddressingMode::ZeroPageX => Some(0x94),
            AddressingMode::Absolute => Some(0x8C),
            _ => None,
        },
        Operation::Tax => match mode {
            AddressingMode::Implied => Some(0xAA),
            _ => None,
        },
        Operation::Tay => match mode {
            AddressingMode::Implied => Some(0xA8),
            _ => None,
        },
        Operation::Tsx => match mode {
            AddressingMode::Implied => Some(0xBA),
            _ => None,
        },
        Operation::Txa => match mode {
            AddressingMode::Implied => Some(0x8A),
            _ => None,
        },
        Operation::Txs => match mode {
            AddressingMode::Implied => Some(0x9A),
            _ => None,
        },
        Operation::Tya => match mode {
            AddressingMode::Implied => Some(0x98),
            _ => None,
        },
    }
}

/// The instruction that an opcode byte stands for, if it stands for one.
pub open spec fn decoded(opcode: u8) -> Option<(Operation, AddressingMode)> {
    match opcode {
        0x00 => Some((Operation::Brk, AddressingMode::Implied)),
        0x01 => Some((Operation::Ora, AddressingMode::IndexedIndirect)),
        0x05 => Some((Operation::Ora, AddressingMode::ZeroPage)),
        0x06 => Some((Operation::Asl, AddressingMode::ZeroPage)),
        0x08 => Some((Operation::Php, AddressingMode::Implied)),
        0x09 => Some((Operation::Ora, AddressingMode::Immediate)),
        0x0A => Some((Operation::Asl, AddressingMode::Accumulator)),
        0x0D => Some((Operation::Ora, AddressingMode::Absolute)),
        0x0E => Some((Operation::Asl, AddressingMode::Absolute)),
        0x10 => Some((Operation::Bpl, AddressingMode::Relative)),
        0x11 => Some((Operation::Ora, AddressingMode::IndirectIndexed)),
        0x15 => Some((Operation::Ora, AddressingMode::ZeroPageX)),
        0x16 => Some((Operation::Asl, AddressingMode::ZeroPageX)),
        0x18 => Some((Operation::Clc, AddressingMode::Implied)),
        0x19 => Some((Operation::Ora, AddressingMode::AbsoluteY)),
        0x1D => Some((Operation::Ora, AddressingMode::AbsoluteX)),
        0x1E => Some((Operation::Asl, AddressingMode::AbsoluteX)),
        0x20 => Some((Operation::Jsr, AddressingMode::Absolute)),
        0x21 => Some((Operation::And, AddressingMode::IndexedIndirect)),
        0x24 => Some((Operation::Bit, AddressingMode::ZeroPage)),
        0x25 => Some((Operation::And, AddressingMode::ZeroPage)),
        0x26 => Some((Operation::Rol, AddressingMode::ZeroPage)),
        0x28 => Some((Operation::Plp, AddressingMode::Implied)),
        0x29 => Some((Operation::And, AddressingMode::Immediate)),
        0x2A => Some((Operation::Rol, AddressingMode::Accumulator)),
        0x2C => Some((Operation::Bit, AddressingMode::Absolute)),
        0x2D => Some((Operation::And, AddressingMode::Absolute)),
        0x2E => Some((Operation::Rol, AddressingMode::Absolute)),
        0x30 => Some((Operation::Bmi, AddressingMode::Relative)),
        0x31 => Some((Operation::And, AddressingMode::IndirectIndexed)),
        0x35 => Some((Operation::And, AddressingMode::ZeroPageX)),
        0x36 => Some((Operation::Rol, AddressingMode::ZeroPageX)),
        0x38 => Some((Operation::Sec, AddressingMode::Implied)),
        0x39 => Some((Operation::And, AddressingMode::AbsoluteY)),
        0x3D => Some((Operation::And, AddressingMode::AbsoluteX)),
        0x3E => Some((Operation::Rol, AddressingMode::AbsoluteX)),
        0x40 => Some((Operation::Rti, AddressingMode::Implied)),
        0x41 => Some((Operation::Eor, AddressingMode::IndexedIndirect)),
        0x45 => Some((Operation::Eor, AddressingMode::ZeroPage)),
        0x46 => Some((Operation::Lsr, AddressingMode::ZeroPage)),
        0x48 => Some((Operation::Pha, AddressingMode::Implied)),
        0x49 => Some((Operation::Eor, AddressingMode::Immediate)),
        0x4A => Some((Operation::Lsr, AddressingMode::Accumulator)),
        0x4C => Some((Operation::Jmp, AddressingMode::Absolute)),
        0x4D => Some((Operation::Eor, AddressingMode::Absolute)),
        0x4E => Some((Operation::Lsr, AddressingMode::Absolute)),
        0x50 => Some((Operation::Bvc, AddressingMode::Relative)),
        0x51 => Some((Operation::Eor, AddressingMode::IndirectIndexed)),
        0x55 => Some((Operation::Eor, AddressingMode::ZeroPageX)),
        0x56 => Some((Operation::Lsr, AddressingMode::ZeroPageX)),
        0x58 => Some((Operation::Cli, AddressingMode::Implied)),
        0x59 => Some((Operation::Eor, AddressingMode::AbsoluteY)),
        0x5D => Some((Operation::Eor, AddressingMode::AbsoluteX)),
        0x5E => Some((Operation::Lsr, AddressingMode::AbsoluteX)),
        0x60 => Some((Operation::Rts, AddressingMode::Implied)),
        0x61 => Some((Operation::Adc, AddressingMode::IndexedIndirect)),
        0x65 => Some((Operation::Adc, AddressingMode::ZeroPage)),
        0x66 => Some((Operation::Ror, AddressingMode::ZeroPage)),
        0x68 => Some((Operation::Pla, AddressingMode::Implied)),
        0x69 => Some((Operation::Adc, AddressingMode::Immediate)),
        0x6A => Some((Operation::Ror, AddressingMode::Accumulator)),
        0x6C => Some((Operation::Jmp, AddressingMode::Indirect)),
        0x6D => Some((Operation::Adc, AddressingMode::Absolute)),
        0x6E => Some((Operation::Ror, AddressingMode::Absolute)),
        0x70 => Some((Operation::Bvs, AddressingMode::Relative)),
        0x71 => Some((Operation::Adc, AddressingMode::IndirectIndexed)),
        0x75 => Some((Operation::Adc, AddressingMode::ZeroPageX)),
        0x76 => Some((Operation::Ror, AddressingMode::ZeroPageX)),
        0x78 => Some((Operation::Sei, AddressingMode::Implied)),
        0x79 => Some((Operation::Adc, AddressingMode::AbsoluteY)),
        0x7D => Some((Operation::Adc, AddressingMode::AbsoluteX)),
        0x7E => Some((Operation::Ror, AddressingMode::AbsoluteX)),
        0x81 => Some((Operation::Sta, AddressingMode::IndexedIndirect)),
        0x84 => Some((Operation::Sty, AddressingMode::ZeroPage)),
        0x85 => Some((Operation::Sta, AddressingMode::ZeroPage)),
        0x86 => Some((Operation::Stx, AddressingMode::ZeroPage)),
        0x88 => Some((Operation::Dey, AddressingMode::Implied)),
        0x8A => Some((Operation::Txa, AddressingMode::Implied)),
        0x8C => Some((Operation::Sty, AddressingMode::Absolute)),
        0x8D => Some((Operation::Sta, AddressingMode::Absolute)),
        0x8E => Some((Operation::Stx, AddressingMode::Absolute)),
        0x90 => Some((Operation::Bcc, AddressingMode::Relative)),
        0x91 => Some((Operation::Sta, AddressingMode::IndirectIndexed)),
        0x94 => Some((Operation::Sty, AddressingMode::ZeroPageX)),
        0x95 => Some((Operation::Sta, AddressingMode::ZeroPageX)),
        0x96 => Some((Operation::Stx, AddressingMode::ZeroPageY)),
        0x98 => Some((Operation::Tya, AddressingMode::Implied)),
        0x99 => Some((Operation::Sta, AddressingMode::AbsoluteY)),
        0x9A => Some((Operation::Txs, AddressingMode::Implied)),
        0x9D => Some((Operation::Sta, AddressingMode::AbsoluteX)),
        0xA0 => Some((Operation::Ldy, AddressingMode::Immediate)),
        0xA1 => Some((Operation::Lda, AddressingMode::IndexedIndirect)),
        0xA2 => Some((Operation::Ldx, AddressingMode::Immediate)),
        0xA4 => Some((Operation::Ldy, AddressingMode::ZeroPage)),
        0xA5 => Some((Operation::Lda, AddressingMode::ZeroPage)),
        0xA6 => Some((Operation::Ldx, AddressingMode::ZeroPage)),
        0xA8 => Some((Operation::Tay, AddressingMode::Implied)),
        0xA9 => Some((Operation::Lda, AddressingMode::Immediate)),
        0xAA => Some((Operation::Tax, AddressingMode::Implied)),
        0xAC => Some((Operation::Ldy, AddressingMode::Absolute)),
        0xAD => Some((Operation::Lda, AddressingMode::Absolute)),
        0xAE => Some((Operation::Ldx, AddressingMode::Absolute)),
        0xB0 => Some((Operation::Bcs, AddressingMode::Relative)),
        0xB1 => Some((Operation::Lda, AddressingMode::IndirectIndexed)),
        0xB4 => Some((Operation::Ldy, AddressingMode::ZeroPageX)),
        0xB5 => Some((Operation::Lda, AddressingMode::ZeroPageX)),
        0xB6 => Some((Operation::Ldx, AddressingMode::ZeroPageY)),
        0xB8 => Some((Operation::Clv, AddressingMode::Implied)),
        0xB9 => Some((Operation::Lda, AddressingMode::AbsoluteY)),
        0xBA => Some((Operation::Tsx, AddressingMode::Implied)),
        0xBC => Some((Operation::Ldy, AddressingMode::AbsoluteX)),
        0xBD => Some((Operation::Lda, AddressingMode::AbsoluteX)),
        0xBE => Some((Operation::Ldx, AddressingMode::AbsoluteY)),
        0xC0 => Some((Operation::Cpy, AddressingMode::Immediate)),
        0xC1 => Some((Operation::Cmp, AddressingMode::IndexedIndirect)),
        0xC4 => Some((Operation::Cpy, AddressingMode::ZeroPage)),
        0xC5 => Some((Operation::Cmp, AddressingMode::ZeroPage)),
        0xC6 => Some((Operation::Dec, AddressingMode::ZeroPage)),
        0xC8 => Some((Operation::Iny, AddressingMode::Implied)),
        0xC9 => Some((Operation::Cmp, AddressingMode::Immediate)),
        0xCA => Some((Operation::Dex, AddressingMode::Implied)),
        0xCC => Some((Operation::Cpy, AddressingMode::Absolute)),
        0xCD => Some((Operation::Cmp, AddressingMode::Absolute)),
        0xCE => Some((Operation::Dec, AddressingMode::Absolute)),
        0xD0 => Some((Operation::Bne, AddressingMode::Relative)),
        0xD1 => Some((Operation::Cmp, AddressingMode::IndirectIndexed)),
        0xD5 => Some((Operation::Cmp, AddressingMode::ZeroPageX)),
        0xD6 => Some((Operation::Dec, AddressingMode::ZeroPageX)),
        0xD8 => Some((Operation::Cld, AddressingMode::Implied)),
        0xD9 => Some((Operation::Cmp, AddressingMode::AbsoluteY)),
        0xDD => Some((Operation::Cmp, AddressingMode::AbsoluteX)),
        0xDE => Some((Operation::Dec, AddressingMode::AbsoluteX)),
        0xE0 => Some((Operation::Cpx, AddressingMode::Immediate)),
        0xE1 => Some((Operation::Sbc, AddressingMode::IndexedIndirect)),
        0xE4 => Some((Operation::Cpx, AddressingMode::ZeroPage)),
        0xE5 => Some((Operation::Sbc, AddressingMode::ZeroPage)),
        0xE6 => Some((Operation::Inc, AddressingMode::ZeroPage)),
        0xE8 => Some((Operation::Inx, AddressingMode::Implied)),
        0xE9 => Some((Operation::Sbc, AddressingMode::Immediate)),
        0xEA => Some((Operation::Nop, AddressingMode::Implied)),
        0xEC => Some((Operation::Cpx, AddressingMode::Absolute)),
        0xED => Some((Operation::Sbc, AddressingMode::Absolute)),
        0xEE => Some((Operation::Inc, AddressingMode::Absolute)),
        0xF0 => Some((Operation::Beq, AddressingMode::Relative)),
        0xF1 => Some((Operation::Sbc, AddressingMode::IndirectIndexed)),
        0xF5 => Some((Operation::Sbc, AddressingMode::ZeroPageX)),
        0xF6 => Some((Operation::Inc, AddressingMode::ZeroPageX)),
        0xF8 => Some((Operation::Sed, AddressingMode::Implied)),
        0xF9 => Some((Operation::Sbc, AddressingMode::AbsoluteY)),
        0xFD => Some((Operation::Sbc, AddressingMode::AbsoluteX)),
        0xFE => Some((Operation::Inc, AddressingMode::AbsoluteX)),
        _ => None,
    }
}

/// The two tables say the same: a byte stands for an instruction exactly when
/// it is the opcode of that operation in that addressing mode. So no two
/// instructions share an opcode byte.
pub proof fn law_opcodes(op: Operation, mode: AddressingMode, opcode: u8)
    ensures
        decoded(opcode) == Some((op, mode)) <==> opcode_of(op, mode) == Some(opcode),
{
}

/// Decodes an opcode byte.
pub fn decode(opcode: u8) -> (r: Option<(Operation, AddressingMode)>)
    ensures
        r == decoded(opcode),
{
    match opcode {
        0x00 => Some((Operation::Brk, AddressingMode::Implied)),
        0x01 => Some((Operation::Ora, AddressingMode::IndexedIndirect)),
        0x05 => Some((Operation::Ora, AddressingMode::ZeroPage)),
        0x06 => Some((Operation::Asl, AddressingMode::ZeroPage)),
        0x08 => Some((Operation::Php, AddressingMode::Implied)),
        0x09 => Some((Operation::Ora, AddressingMode::Immediate)),
        0x0A => Some((Operation::Asl, AddressingMode::Accumulator)),
        0x0D => Some((Operation::Ora, AddressingMode::Absolute)),
        0x0E => Some((Operation::Asl, AddressingMode::Absolute)),
        0x10 => Some((Operation::Bpl, AddressingMode::Relative)),
        0x11 => Some((Operation::Ora, AddressingMode::IndirectIndexed)),
        0x15 => Some((Operation::Ora, AddressingMode::ZeroPageX)),
        0x16 => Some((Operation::Asl, AddressingMode::ZeroPageX)),
        0x18 => Some((Operation::Clc, AddressingMode::Implied)),
        0x19 => Some((Operation::Ora, AddressingMode::AbsoluteY)),
        0x1D => Some((Operation::Ora, AddressingMode::AbsoluteX)),
        0x1E => Some((Operation::Asl, AddressingMode::AbsoluteX)),
        0x20 => Some((Operation::Jsr, AddressingMode::Absolute)),
        0x21 => Some((Operation::And, AddressingMode::IndexedIndirect)),
        0x24 => Some((Operation::Bit, AddressingMode::ZeroPage)),
        0x25 => Some((Operation::And, AddressingMode::ZeroPage)),
        0x26 => Some((Operation::Rol, AddressingMode::ZeroPage)),
        0x28 => Some((Operation::Plp, AddressingMode::Implied)),
        0x29 => Some((Operation::And, AddressingMode::Immediate)),
        0x2A => Some((Operation::Rol, AddressingMode::Accumulator)),
        0x2C => Some((Operation::Bit, AddressingMode::Absolute)),
        0x2D => Some((Operation::And, AddressingMode::Absolute)),
        0x2E => Some((Operation::Rol, AddressingMode::Absolute)),
        0x30 => Some((Operation::Bmi, AddressingMode::Relative)),
        0x31 => Some((Operation::And, AddressingMode::IndirectIndexed)),
        0x35 => Some((Operation::And, AddressingMode::ZeroPageX)),
        0x36 => Some((Operation::Rol, AddressingMode::ZeroPageX)),
        0x38 => Some((Operation::Sec, AddressingMode::Implied)),
        0x39 => Some((Operation::And, AddressingMode::AbsoluteY)),
        0x3D => Some((Operation::And, AddressingMode::AbsoluteX)),
        0x3E => Some((Operation::Rol, AddressingMode::AbsoluteX)),
        0x40 => Some((Operation::Rti, AddressingMode::Implied)),
        0x41 => Some((Operation::Eor, AddressingMode::IndexedIndirect)),
        0x45 => Some((Operation::Eor, AddressingMode::ZeroPage)),
        0x46 => Some((Operation::Lsr, AddressingMode::ZeroPage)),
        0x48 => Some((Operation::Pha, AddressingMode::Implied)),
        0x49 => Some((Operation::Eor, AddressingMode::Immediate)),
        0x4A => Some((Operation::Lsr, AddressingMode::Accumulator)),
        0x4C => Some((Operation::Jmp, AddressingMode::Absolute)),
        0x4D => Some((Operation::Eor, AddressingMode::Absolute)),
        0x4E => Some((Operation::Lsr, AddressingMode::Absolute)),
        0x50 => Some((Operation::Bvc, AddressingMode::Relative)),
        0x51 => Some((Operation::Eor, AddressingMode::IndirectIndexed)),
        0x55 => Some((Operation::Eor, AddressingMode::ZeroPageX)),
        0x56 => Some((Operation::Lsr, AddressingMode::ZeroPageX)),
        0x58 => Some((Operation::Cli, AddressingMode::Implied)),
        0x59 => Some((Operation::Eor, AddressingMode::AbsoluteY)),
        0x5D => Some((Operation::Eor, AddressingMode::AbsoluteX)),
        0x5E => Some((Operation::Lsr, AddressingMode::AbsoluteX)),
        0x60 => Some((Operation::Rts, AddressingMode::Implied)),
        0x61 => Some((Operation::Adc, AddressingMode::IndexedIndirect)),
        0x65 => Some((Operation::Adc, AddressingMode::ZeroPage)),
        0x66 => Some((Operation::Ror, AddressingMode::ZeroPage)),
        0x68 => Some((Operation::Pla, AddressingMode::Implied)),
        0x69 => Some((Operation::Adc, AddressingMode::Immediate)),
        0x6A => Some((Operation::Ror, AddressingMode::Accumulator)),
        0x6C => Some((Operation::Jmp, AddressingMode::Indirect)),
        0x6D => Some((Operation::Adc, AddressingMode::Absolute)),
        0x6E => Some((Operation::Ror, AddressingMode::Absolute)),
        0x70 => Some((Operation::Bvs, AddressingMode::Relative)),
        0x71 => Some((Operation::Adc, AddressingMode::IndirectIndexed)),
        0x75 => Some((Operation::Adc, AddressingMode::ZeroPageX)),
        0x76 => Some((Operation::Ror, AddressingMode::ZeroPageX)),
        0x78 => Some((Operation::Sei, AddressingMode::Implied)),
        0x79 => Some((Operation::Adc, AddressingMode::AbsoluteY)),
        0x7D => Some((Operation::Adc, AddressingMode::AbsoluteX)),
        0x7E => Some((Operation::Ror, AddressingMode::AbsoluteX)),
        0x81 => Some((Operation::Sta, AddressingMode::IndexedIndirect)),
        0x84 => Some((Operation::Sty, AddressingMode::ZeroPage)),
        0x85 => Some((Operation::Sta, AddressingMode::ZeroPage)),
        0x86 => Some((Operation::Stx, AddressingMode::ZeroPage)),
        0x88 => Some((Operation::Dey, AddressingMode::Implied)),
        0x8A => Some((Operation::Txa, AddressingMode::Implied)),
        0x8C => Some((Operation::Sty, AddressingMode::Absolute)),
        0x8D => Some((Operation::Sta, AddressingMode::Absolute)),
        0x8E => Some((Operation::Stx, AddressingMode::Absolute)),
        0x90 => Some((Operation::Bcc, AddressingMode::Relative)),
        0x91 => Some((Operation::Sta, AddressingMode::IndirectIndexed)),
        0x94 => Some((Operation::Sty, AddressingMode::ZeroPageX)),
        0x95 => Some((Operation::Sta, AddressingMode::ZeroPageX)),
        0x96 => Some((Operation::Stx, AddressingMode::ZeroPageY)),
        0x98 => Some((Operation::Tya, AddressingMode::Implied)),
        0x99 => Some((Operation::Sta, AddressingMode::AbsoluteY)),
        0x9A => Some((Operation::Txs, AddressingMode::Implied)),
        0x9D => Some((Operation::Sta, AddressingMode::AbsoluteX)),
        0xA0 => Some((Operation::Ldy, AddressingMode::Immediate)),
        0xA1 => Some((Operation::Lda, AddressingMode::IndexedIndirect)),
        0xA2 => Some((Operation::Ldx, AddressingMode::Immediate)),
        0xA4 => Some((Operation::Ldy, AddressingMode::ZeroPage)),
        0xA5 => Some((Operation::Lda, AddressingMode::ZeroPage)),
        0xA6 => Some((Operation::Ldx, AddressingMode::ZeroPage)),
        0xA8 => Some((Operation::Tay, AddressingMode::Implied)),
        0xA9 => Some((Operation::Lda, AddressingMode::Immediate)),
        0xAA => Some((Operation::Tax, AddressingMode::Implied)),
        0xAC => Some((Operation::Ldy, AddressingMode::Absolute)),
        0xAD => Some((Operation::Lda, AddressingMode::Absolute)),
        0xAE => Some((Operation::Ldx, AddressingMode::Absolute)),
        0xB0 => Some((Operation::Bcs, AddressingMode::Relative)),
        0xB1 => Some((Operation::Lda, AddressingMode::IndirectIndexed)),
        0xB4 => Some((Operation::Ldy, AddressingMode::ZeroPageX)),
        0xB5 => Some((Operation::Lda, AddressingMode::ZeroPageX)),
        0xB6 => Some((Operation::Ldx, AddressingMode::ZeroPageY)),
        0xB8 => Some((Operation::Clv, AddressingMode::Implied)),
        0xB9 => Some((Operation::Lda, AddressingMode::AbsoluteY)),
        0xBA => Some((Operation::Tsx, AddressingMode::Implied)),
        0xBC => Some((Operation::Ldy, AddressingMode::AbsoluteX)),
        0xBD => Some((Operation::Lda, AddressingMode::AbsoluteX)),
        0xBE => Some((Operation::Ldx, AddressingMode::AbsoluteY)),
        0xC0 => Some((Operation::Cpy, AddressingMode::Immediate)),
        0xC1 => Some((Operation::Cmp, AddressingMode::IndexedIndirect)),
        0xC4 => Some((Operation::Cpy, AddressingMode::ZeroPage)),
        0xC5 => Some((Operation::Cmp, AddressingMode::ZeroPage)),
        0xC6 => Some((Operation::Dec, AddressingMode::ZeroPage)),
        0xC8 => Some((Operation::Iny, AddressingMode::Implied)),
        0xC9 => Some((Operation::Cmp, AddressingMode::Immediate)),
        0xCA => Some((Operation::Dex, AddressingMode::Implied)),
        0xCC => Some((Operation::Cpy, AddressingMode::Absolute)),
        0xCD => Some((Operation::Cmp, AddressingMode::Absolute)),
        0xCE => Some((Operation::Dec, AddressingMode::Absolute)),
        0xD0 => Some((Operation::Bne, AddressingMode::Relative)),
        0xD1 => Some((Operation::Cmp, AddressingMode::IndirectIndexed)),
        0xD5 => Some((Operation::Cmp, AddressingMode::ZeroPageX)),
        0xD6 => Some((Operation::Dec, AddressingMode::ZeroPageX)),
        0xD8 => Some((Operation::Cld, AddressingMode::Implied)),
        0xD9 => Some((Operation::Cmp, AddressingMode::AbsoluteY)),
        0xDD => Some((Operation::Cmp, AddressingMode::AbsoluteX)),
        0xDE => Some((Operation::Dec, AddressingMode::AbsoluteX)),
        0xE0 => Some((Operation::Cpx, AddressingMode::Immediate)),
        0xE1 => Some((Operation::Sbc, AddressingMode::IndexedIndirect)),
        0xE4 => Some((Operation::Cpx, AddressingMode::ZeroPage)),
        0xE5 => Some((Operation::Sbc, AddressingMode::ZeroPage)),
        0xE6 => Some((Operation::Inc, AddressingMode::ZeroPage)),
        0xE8 => Some((Operation::Inx, AddressingMode::Implied)),
        0xE9 => Some((Operation::Sbc, AddressingMode::Immediate)),
        0xEA => Some((Operation::Nop, AddressingMode::Implied)),
        0xEC => Some((Operation::Cpx, AddressingMode::Absolute)),
        0xED => Some((Operation::Sbc, AddressingMode::Absolute)),
        0xEE => Some((Operation::Inc, AddressingMode::Absolute)),
        0xF0 => Some((Operation::Beq, AddressingMode::Relative)),
        0xF1 => Some((Operation::Sbc, AddressingMode::IndirectIndexed)),
        0xF5 => Some((Operation::Sbc, AddressingMode::ZeroPageX)),
        0xF6 => Some((Operation::Inc, AddressingMode::ZeroPageX)),
        0xF8 => Some((Operation::Sed, AddressingMode::Implied)),
        0xF9 => Some((Operation::Sbc, AddressingMode::AbsoluteY)),
        0xFD => Some((Operation::Sbc, AddressingMode::AbsoluteX)),
        0xFE => Some((Operation::Inc, AddressingMode::AbsoluteX)),
        _ => None,
    }
}

} // verus!
