//! What holds of every instruction of a kind, whatever the operand and the
//! addressing mode.

use crate::alu::{
    adc_carry, adc_value, carry_bit, carry_of, has_flag, high_of, is_negative, law_overflow_bits,
    law_shift_bits, law_sign_bit, law_with_flag, law_with_zn, low_of, sbc_carry, sbc_value,
    shifted, shifted_out, signed_overflow, with_flag, with_zn, Flag, Shift,
};
use crate::bus::{ram_cell, region_of, ArrayBus, BusFault, Mem, Region, RomBus};
use crate::machine::{
    adc, and, compare, eor, execute, fetch, fetch_word, jsr, load_register, operand, ora, pla,
    pop_word, push, push_word, read_byte, register, rts, run, sbc, shift, stack_address, step,
    store, target, write_byte, Halt, Machine, Register, BRK_OPCODE,
};
use crate::opcode::{decoded, AddressingMode};
use vstd::prelude::*;

verus! {

/// Two machines with the same registers and the same memory; the program
/// counter and the lines of the bus may differ.
pub open spec fn same_but_pc(m: Machine, n: Machine) -> bool {
    &&& n.a == m.a
    &&& n.x == m.x
    &&& n.y == m.y
    &&& n.sp == m.sp
    &&& n.status == m.status
    &&& n.debug == m.debug
    &&& n.bus.cells == m.bus.cells
}

/// Resolving an addressing mode and reading the operand change nothing but
/// the program counter and the lines of the bus; and the operand is the byte
/// at the effective address, or the accumulator where there is no address.
pub proof fn law_operand(m: Machine, mode: AddressingMode)
    ensures
        same_but_pc(m, target(m, mode).0),
        same_but_pc(m, operand(m, mode).0),
        operand(m, mode).1 matches Ok((place, value)) ==> {
            &&& target(m, mode).1 == Ok::<Option<u16>, BusFault>(place)
            &&& place matches Some(address) ==> m.bus.cells.dom().contains(address) && value
                == m.bus.cells[address]
            &&& place is None ==> value == m.a
        },
        operand(m, mode).1 is Ok <==> (target(m, mode).1 matches Ok(place) && (place matches Some(
            address,
        ) ==> m.bus.cells.dom().contains(address))),
{
}

/// A load gives the register the operand; Z tells whether the operand is
/// zero, and N is its bit 7. This holds of LDA, LDX and LDY in every
/// addressing mode.
pub proof fn law_load(m: Machine, which: Register, mode: AddressingMode)
    ensures
        load_register(m, which, mode).1 is Ok <==> operand(m, mode).1 is Ok,
        operand(m, mode).1 matches Ok((_, v)) ==> {
            let after = load_register(m, which, mode).0;
            &&& register(after, which) == v
            &&& has_flag(after.status, Flag::Z) == (v == 0)
            &&& has_flag(after.status, Flag::N) == (v & 0x80 != 0)
        },
{
    law_operand(m, mode);
    law_with_zn(m.status, operand(m, mode).1->Ok_0.1);
    law_sign_bit(operand(m, mode).1->Ok_0.1);
}

/// What ADC of an operand `v` to an accumulator `a` leaves behind, `c` being
/// the carry of the status register before: the accumulator holds `(a + v +
/// c) mod 256`; C is set when `a + v + c` is over 255; V is set when `!(a ^ v)
/// & (a ^ sum) & 0x80` is not zero; Z and N follow the sum; D is as it was.
pub open spec fn adds(a: u8, v: u8, status: u8, after: Machine) -> bool {
    let c = carry_of(status);
    &&& after.a == (a + v + c) % 256
    &&& has_flag(after.status, Flag::C) == (a + v + c > 255)
    &&& has_flag(after.status, Flag::V) == (!(a ^ v) & (a ^ after.a) & 0x80 != 0)
    &&& has_flag(after.status, Flag::Z) == (after.a == 0)
    &&& has_flag(after.status, Flag::N) == (after.a & 0x80 != 0)
    &&& has_flag(after.status, Flag::D) == has_flag(status, Flag::D)
}

/// What SBC of an operand `v` from an accumulator `a` leaves behind, `c`
/// being the carry of the status register before: the accumulator holds `(a
/// - v - (1 - c)) mod 256`; C is set when nothing was borrowed, that is when
/// `a - v - (1 - c)` is not below zero; V is set when `(a ^ v) & (a ^
/// difference) & 0x80` is not zero; Z and N follow the difference.
pub open spec fn subtracts(a: u8, v: u8, status: u8, after: Machine) -> bool {
    let c = carry_of(status);
    &&& after.a == (a - v - (1 - c)) % 256
    &&& has_flag(after.status, Flag::C) == (a - v - (1 - c) >= 0)
    &&& has_flag(after.status, Flag::V) == ((a ^ v) & (a ^ after.a) & 0x80 != 0)
    &&& has_flag(after.status, Flag::Z) == (after.a == 0)
    &&& has_flag(after.status, Flag::N) == (after.a & 0x80 != 0)
}

/// What a comparison of a register `r` with an operand `v` leaves in the
/// status register: C when `r >= v`, Z when `r == v`, and N as bit 7 of `(r -
/// v) & 0xFF`.
pub open spec fn compares(r: u8, v: u8, status: u8) -> bool {
    &&& has_flag(status, Flag::C) == (r >= v)
    &&& has_flag(status, Flag::Z) == (r == v)
    &&& has_flag(status, Flag::N) == ((((r - v) % 256) as u8) & 0x80 != 0)
}

/// The byte that a shift or rotation makes of `v` under a carry `c`, in bit
/// operations: ASL `(v << 1) & 0xFF`, LSR `v >> 1`, ROL `((v << 1) | c) &
/// 0xFF`, ROR `(v >> 1) | (c << 7)`.
pub open spec fn shifted_bits(kind: Shift, v: u8, c: u8) -> u8 {
    match kind {
        Shift::Asl => (v << 1) & 0xFF,
        Shift::Lsr => v >> 1,
        Shift::Rol => ((v << 1) | c) & 0xFF,
        Shift::Ror => (v >> 1) | (c << 7),
    }
}

/// The bit that a shift or rotation of `v` pushes out, in bit operations:
/// bit 7 to the left, bit 0 to the right.
pub open spec fn shifted_out_bits(kind: Shift, v: u8) -> bool {
    match kind {
        Shift::Asl | Shift::Rol => v & 0x80 != 0,
        Shift::Lsr | Shift::Ror => v & 0x01 != 0,
    }
}

/// What a shift or rotation of an operand `v` at `place` leaves behind: the
/// new byte is in the accumulator, or was handed to the bus as a write at the
/// operand's address; C is the bit that went out; Z and N follow the new
/// byte.
pub open spec fn shifts<T: Mem>(
    kind: Shift,
    place: Option<u16>,
    v: u8,
    before: Machine,
    after: Machine,
) -> bool {
    let new = shifted_bits(kind, v, carry_bit(has_flag(before.status, Flag::C)));
    &&& has_flag(after.status, Flag::C) == shifted_out_bits(kind, v)
    &&& has_flag(after.status, Flag::Z) == (new == 0)
    &&& has_flag(after.status, Flag::N) == (new & 0x80 != 0)
    &&& place is None ==> after.a == new
    &&& place matches Some(address) ==> T::write_cycle(before.bus.cells, address, new) == Ok::<
        Map<u16, u8>,
        BusFault,
    >(after.bus.cells)
}

/// ADC does what `adds` says, in every addressing mode, whenever its operand
/// can be read; the decimal flag changes none of it.
pub proof fn law_adc(m: Machine, mode: AddressingMode)
    ensures
        adc(m, mode).1 is Ok <==> operand(m, mode).1 is Ok,
        operand(m, mode).1 matches Ok((_, v)) ==> adds(m.a, v, m.status, adc(m, mode).0),
{
    law_operand(m, mode);
    if operand(m, mode).1 is Ok {
        let v = operand(m, mode).1->Ok_0.1;
        let sum = adc_value(m.a, v, carry_of(m.status));
        let zn = with_zn(m.status, sum);
        let zc = with_flag(zn, Flag::C, adc_carry(m.a, v, carry_of(m.status)));
        law_with_zn(m.status, sum);
        law_with_flag(zn, Flag::C, adc_carry(m.a, v, carry_of(m.status)));
        law_with_flag(zc, Flag::V, signed_overflow(m.a, v, sum));
        law_overflow_bits(m.a, v, sum);
        law_sign_bit(sum);
    }
}

/// SBC does what `subtracts` says, in every addressing mode, whenever its
/// operand can be read.
pub proof fn law_sbc(m: Machine, mode: AddressingMode)
    ensures
        sbc(m, mode).1 is Ok <==> operand(m, mode).1 is Ok,
        operand(m, mode).1 matches Ok((_, v)) ==> subtracts(
            m.a,
            v,
            m.status,
            sbc(m, mode).0,
        ),
{
    law_operand(m, mode);
    if operand(m, mode).1 is Ok {
        let v = operand(m, mode).1->Ok_0.1;
        let c = carry_of(m.status);
        let diff = sbc_value(m.a, v, c);
        let zn = with_zn(m.status, diff);
        let zc = with_flag(zn, Flag::C, sbc_carry(m.a, v, c));
        law_with_zn(m.status, diff);
        law_with_flag(zn, Flag::C, sbc_carry(m.a, v, c));
        law_with_flag(zc, Flag::V, signed_overflow(m.a, (255 - v) as u8, diff));
        law_overflow_bits(m.a, v, diff);
        law_sign_bit(diff);
    }
}

/// AND, ORA and EOR leave `a & v`, `a | v` and `a ^ v` in the accumulator; Z
/// and N follow the result.
pub proof fn law_logic(m: Machine, mode: AddressingMode)
    ensures
        operand(m, mode).1 matches Ok((_, v)) ==> {
            &&& and(m, mode).1 is Ok
            &&& ora(m, mode).1 is Ok
            &&& eor(m, mode).1 is Ok
            &&& and(m, mode).0.a == m.a & v
            &&& ora(m, mode).0.a == m.a | v
            &&& eor(m, mode).0.a == m.a ^ v
            &&& has_flag(and(m, mode).0.status, Flag::Z) == (m.a & v == 0)
            &&& has_flag(and(m, mode).0.status, Flag::N) == ((m.a & v) & 0x80 != 0)
            &&& has_flag(ora(m, mode).0.status, Flag::Z) == (m.a | v == 0)
            &&& has_flag(ora(m, mode).0.status, Flag::N) == ((m.a | v) & 0x80 != 0)
            &&& has_flag(eor(m, mode).0.status, Flag::Z) == (m.a ^ v == 0)
            &&& has_flag(eor(m, mode).0.status, Flag::N) == ((m.a ^ v) & 0x80 != 0)
        },
{
    law_operand(m, mode);
    if operand(m, mode).1 is Ok {
        let v = operand(m, mode).1->Ok_0.1;
        law_with_zn(m.status, m.a & v);
        law_with_zn(m.status, m.a | v);
        law_with_zn(m.status, m.a ^ v);
        law_sign_bit(m.a & v);
        law_sign_bit(m.a | v);
        law_sign_bit(m.a ^ v);
    }
}

/// ASL, LSR, ROL and ROR do what `shifts` says, in every addressing mode.
/// They fail only where the operand cannot be read or the bus turns the
/// write down.
pub proof fn law_shift<T: Mem>(m: Machine, kind: Shift, mode: AddressingMode)
    ensures
        operand(m, mode).1 matches Ok((place, v)) ==> {
            &&& shift::<T>(m, kind, mode).1 == store::<T>(
                operand(m, mode).0,
                place,
                shifted(kind, v, has_flag(m.status, Flag::C)),
            ).1
            &&& shift::<T>(m, kind, mode).1 is Ok ==> shifts::<T>(
                kind,
                place,
                v,
                m,
                shift::<T>(m, kind, mode).0,
            )
        },
        operand(m, mode).1 is Err ==> shift::<T>(m, kind, mode).1 is Err,
{
    law_operand(m, mode);
    if operand(m, mode).1 is Ok {
        let v = operand(m, mode).1->Ok_0.1;
        let new = shifted(kind, v, has_flag(m.status, Flag::C));
        let c = with_flag(m.status, Flag::C, shifted_out(kind, v));
        law_with_flag(m.status, Flag::C, shifted_out(kind, v));
        law_with_zn(c, new);
        law_sign_bit(new);
        law_sign_bit(v);
        law_shift_bits(v, has_flag(m.status, Flag::C));
    }
}

/// CMP, CPX and CPY do what `compares` says, in every addressing mode,
/// whenever the operand can be read; they change no register.
pub proof fn law_compare(m: Machine, which: Register, mode: AddressingMode)
    ensures
        compare(m, which, mode).1 is Ok <==> operand(m, mode).1 is Ok,
        operand(m, mode).1 matches Ok((_, v)) ==> {
            let after = compare(m, which, mode).0;
            &&& compares(register(m, which), v, after.status)
            &&& after.a == m.a
            &&& after.x == m.x
            &&& after.y == m.y
        },
{
    law_operand(m, mode);
    if operand(m, mode).1 is Ok {
        let v = operand(m, mode).1->Ok_0.1;
        let r = register(m, which);
        let c = with_flag(m.status, Flag::C, r >= v);
        let z = with_flag(c, Flag::Z, r == v);
        law_with_flag(m.status, Flag::C, r >= v);
        law_with_flag(c, Flag::Z, r == v);
        law_with_flag(z, Flag::N, is_negative(r.wrapping_sub(v)));
        law_sign_bit(r.wrapping_sub(v));
    }
}

/// On the console's bus a byte written to work RAM at `a` is read back at
/// `a`, `a + 0x0800`, `a + 0x1000` and `a + 0x1800`.
pub proof fn law_ram_mirrors(bus: RomBus, m: Machine, a: u16, v: u8, k: int)
    requires
        m.bus == bus@,
        a <= 0x07FF,
        0 <= k < 4,
    ensures
        write_byte::<RomBus>(m, a, v).1 is Ok,
        read_byte(write_byte::<RomBus>(m, a, v).0, (a + 0x0800 * k) as u16).1 == Ok::<
            u8,
            BusFault,
        >(v),
{
}

/// Every address of the stack page answers.
pub open spec fn stack_answers(cells: Map<u16, u8>) -> bool {
    forall|sp: u8| cells.dom().contains(#[trigger] stack_address(sp))
}

/// On buses of kind `T` the stack page is memory: a write there is served,
/// shows at the written address, and leaves the rest of the page as it was.
pub open spec fn stack_is_memory<T: Mem>() -> bool {
    forall|cells: Map<u16, u8>, sp: u8, v: u8|
        stack_answers(cells) ==> {
            &&& (#[trigger] T::write_cycle(cells, stack_address(sp), v)) matches Ok(after)
            &&& stack_answers(after)
            &&& forall|other: u8|
                after[#[trigger] stack_address(other)] == if other == sp {
                    v
                } else {
                    cells[stack_address(other)]
                }
        }
}

/// The stack page of the console is memory: it lies in work RAM.
pub proof fn law_console_stack(bus: RomBus)
    ensures
        stack_is_memory::<RomBus>(),
        stack_answers(bus@.cells),
{
    assert forall|sp: u8| region_of(#[trigger] stack_address(sp)) == Region::Ram by {}
    assert forall|cells: Map<u16, u8>, sp: u8, v: u8| stack_answers(cells) implies {
        &&& (#[trigger] RomBus::write_cycle(cells, stack_address(sp), v)) matches Ok(after)
        &&& stack_answers(after)
        &&& forall|other: u8|
            after[#[trigger] stack_address(other)] == if other == sp {
                v
            } else {
                cells[stack_address(other)]
            }
    } by {
        let after = RomBus::write_cycle(cells, stack_address(sp), v)->Ok_0;
        assert forall|other: u8| after.dom().contains(#[trigger] stack_address(other)) by {
            assert(cells.dom().contains(stack_address(other)));
        }
        assert forall|other: u8|
            after[#[trigger] stack_address(other)] == if other == sp {
                v
            } else {
                cells[stack_address(other)]
            } by {
            assert(cells.dom().contains(stack_address(other)));
            assert(other != sp ==> ram_cell(stack_address(other))
                != ram_cell(stack_address(sp)));
        }
    }
}

/// The stack page of a flat memory is memory.
pub proof fn law_flat_stack(bus: ArrayBus)
    ensures
        stack_is_memory::<ArrayBus>(),
        stack_answers(bus@.cells),
{
    assert forall|cells: Map<u16, u8>, sp: u8, v: u8| stack_answers(cells) implies {
        &&& (#[trigger] ArrayBus::write_cycle(cells, stack_address(sp), v)) matches Ok(after)
        &&& stack_answers(after)
        &&& forall|other: u8|
            after[#[trigger] stack_address(other)] == if other == sp {
                v
            } else {
                cells[stack_address(other)]
            }
    } by {
        let after = ArrayBus::write_cycle(cells, stack_address(sp), v)->Ok_0;
        assert forall|other: u8| after.dom().contains(#[trigger] stack_address(other)) by {
            assert(cells.dom().contains(stack_address(other)));
        }
    }
}

/// A word pushed is the word popped, where the stack page is memory.
proof fn lemma_push_pop_word<T: Mem>(m: Machine, value: u16, pc: u16)
    requires
        stack_is_memory::<T>(),
        stack_answers(m.bus.cells),
    ensures
        push_word::<T>(m, value).1 is Ok,
        pop_word(Machine { pc, ..push_word::<T>(m, value).0 }).1 == Ok::<u16, BusFault>(value),
        pop_word(Machine { pc, ..push_word::<T>(m, value).0 }).0.sp == m.sp,
{
    let top = stack_address(m.sp);
    let below = stack_address(m.sp.wrapping_sub(1));
    let first = T::write_cycle(m.bus.cells, top, high_of(value));
    assert(first is Ok);
    let second = T::write_cycle(first->Ok_0, below, low_of(value));
    assert(second is Ok);
    assert(second->Ok_0.dom().contains(stack_address(m.sp)));
    assert(second->Ok_0.dom().contains(stack_address(m.sp.wrapping_sub(1))));
}

/// JSR followed by RTS goes on at the instruction behind the JSR, two bytes
/// behind its opcode, with the stack pointer where it was. This holds on
/// every bus whose stack page is memory. `m` is the machine with the opcode
/// of JSR fetched.
pub proof fn law_jsr_rts<T: Mem>(m: Machine)
    requires
        stack_is_memory::<T>(),
        stack_answers(m.bus.cells),
        jsr::<T>(m).1 is Ok,
    ensures
        rts(jsr::<T>(m).0).1 is Ok,
        rts(jsr::<T>(m).0).0.pc == m.pc.wrapping_add(2),
        rts(jsr::<T>(m).0).0.sp == m.sp,
{
    let (m1, address) = fetch_word(m);
    let back = m1.pc.wrapping_sub(1);
    lemma_push_pop_word::<T>(m1, back, address->Ok_0);
}

/// PHA followed by PLA leaves the accumulator and the stack pointer as they
/// were, and sets Z and N by the accumulator. This holds on every bus whose
/// stack page is memory.
pub proof fn law_pha_pla<T: Mem>(m: Machine)
    requires
        stack_is_memory::<T>(),
        stack_answers(m.bus.cells),
    ensures
        push::<T>(m, m.a).1 is Ok,
        pla(push::<T>(m, m.a).0).1 is Ok,
        pla(push::<T>(m, m.a).0).0.a == m.a,
        pla(push::<T>(m, m.a).0).0.sp == m.sp,
        has_flag(pla(push::<T>(m, m.a).0).0.status, Flag::Z) == (m.a == 0),
        has_flag(pla(push::<T>(m, m.a).0).0.status, Flag::N) == (m.a & 0x80 != 0),
{
    let after = T::write_cycle(m.bus.cells, stack_address(m.sp), m.a);
    assert(after is Ok);
    assert(after->Ok_0.dom().contains(stack_address(m.sp)));
    law_with_zn(m.status, m.a);
    law_sign_bit(m.a);
}

/// On the console JSR followed by RTS goes on at the instruction behind the
/// JSR, and PHA followed by PLA gives the accumulator back.
pub proof fn law_console_round_trips(bus: RomBus, m: Machine)
    requires
        m.bus == bus@,
    ensures
        jsr::<RomBus>(m).1 is Ok ==> rts(jsr::<RomBus>(m).0).1 is Ok && rts(
            jsr::<RomBus>(m).0,
        ).0.pc == m.pc.wrapping_add(2),
        pla(push::<RomBus>(m, m.a).0).1 is Ok,
        pla(push::<RomBus>(m, m.a).0).0.a == m.a,
{
    law_console_stack(bus);
    law_pha_pla::<RomBus>(m);
    if jsr::<RomBus>(m).1 is Ok {
        law_jsr_rts::<RomBus>(m);
    }
}

/// The bits of a byte repeat in pairs: bit 7 is bit 5 is bit 3 is bit 1, and
/// bit 6 is bit 4 is bit 2 is bit 0.
pub open spec fn repeats_in_pairs(v: u8) -> bool {
    v / 4 == v % 64
}

/// Two ROLs in a row, each with a carry-in of its own, give back the byte
/// they started from if and only if each carry-in is the bit that its ROL
/// pushes out. This is stated of the bytes whose bits repeat in pairs, and of
/// any byte where a carry-in differs: of another byte two ROLs give back
/// something else whatever the carry-ins.
pub proof fn law_rol_twice(v: u8, first: bool, second: bool)
    requires
        repeats_in_pairs(v) || !(first == shifted_out(Shift::Rol, v) && second == shifted_out(
            Shift::Rol,
            shifted(Shift::Rol, v, first),
        )),
    ensures
        shifted(Shift::Rol, shifted(Shift::Rol, v, first), second) == v <==> (first
            == shifted_out(Shift::Rol, v) && second == shifted_out(
            Shift::Rol,
            shifted(Shift::Rol, v, first),
        )),
{
    lemma_rol_twice(v, carry_bit(first), carry_bit(second));
}

proof fn lemma_rol_twice(v: u8, c1: u8, c2: u8)
    by (bit_vector)
    requires
        c1 <= 1,
        c2 <= 1,
    ensures
        ((2 * ((2 * v + c1) % 256) + c2) % 256 == v) <==> ((c1 == 1) == (v >= 0x80) && (c2 == 1)
            == ((2 * v + c1) % 256 >= 0x80) && v / 4 == v % 64),
{
}

/// A run is a row of steps: where the next opcode is not BRK, a run goes on
/// as a step does and then runs for what is left of its allowance, and it
/// ends where the step faults.
pub proof fn law_run_steps<T: Mem>(m: Machine, limit: nat)
    requires
        limit > 0,
        fetch(m).1 != Ok::<u8, BusFault>(BRK_OPCODE),
    ensures
        step::<T>(m).1 matches Ok(()) ==> run::<T>(m, limit) == run::<T>(
            step::<T>(m).0,
            (limit - 1) as nat,
        ),
        step::<T>(m).1 matches Err(fault) ==> run::<T>(m, limit) == (
            step::<T>(m).0,
            Halt::Fault(fault),
        ),
{
}

/// A run may be made in parts: a run that uses up its allowance goes on, on
/// a further allowance, as one run on both would; a run that ends before
/// that ends the same way on any larger allowance.
pub proof fn law_run_in_parts<T: Mem>(m: Machine, first: nat, second: nat)
    ensures
        run::<T>(m, first + second) == if run::<T>(m, first).1 == Halt::Limit {
            run::<T>(run::<T>(m, first).0, second)
        } else {
            run::<T>(m, first)
        },
    decreases first,
{
    if first > 0 {
        let (m1, opcode) = fetch(m);
        match opcode {
            Ok(byte) => {
                if byte != BRK_OPCODE {
                    match decoded(byte) {
                        Some((op, mode)) => {
                            let (m2, r) = execute::<T>(m1, op, mode);
                            if r is Ok {
                                law_run_in_parts::<T>(m2, (first - 1) as nat, second);
                            }
                        },
                        None => {},
                    }
                }
            },
            Err(_) => {},
        }
    }
}

} // verus!
