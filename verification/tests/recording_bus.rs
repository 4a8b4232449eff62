use nes_core::alu::Flag;
use nes_core::bus::{BusFault, ControlSignal, Mem};
use nes_core::cpu::CPU;
use nes_core::machine::Halt;
use nes_core::opcode::AddressingMode;
use std::collections::HashMap;

/// A recording bus: reads are served from planted bytes, and every write must
/// be one that the test expects.
pub struct TestBus {
    address_bus: u16,
    data_bus: u8,
    control_bus: u8,
    read_targets: HashMap<u16, u8>,
    write_targets: HashMap<u16, u8>,
}

impl TestBus {
    pub fn set_read_target(&mut self, addr: u16, val: u8) {
        self.read_targets.insert(addr, val);
    }

    pub fn set_read_u16_target(&mut self, addr: u16, val: u16) {
        let low: u8 = (val & 0xff) as u8;
        let high: u8 = (val >> 8) as u8;
        self.read_targets.insert(addr, low);
        self.read_targets.insert(addr + 1, high);
    }

    pub fn set_write_target(&mut self, addr: u16, val: u8) {
        self.write_targets.insert(addr, val);
    }

    pub fn set_vector_read_target(&mut self, addr: u16, values: Vec<u8>) {
        let mut offset: u16 = 0;
        for val in values {
            self.read_targets.insert(addr + offset, val);
            offset += 1;
        }
    }
}

impl Mem for TestBus {
    fn new() -> Self {
        Self {
            address_bus: 0,
            data_bus: 0,
            control_bus: 0,
            read_targets: HashMap::new(),
            write_targets: HashMap::new(),
        }
    }

    fn set_address_bus(&mut self, addr: u16) {
        self.address_bus = addr;
    }

    fn set_data_bus(&mut self, val: u8) {
        self.data_bus = val;
    }

    fn get_data_bus(&self) -> u8 {
        self.data_bus
    }

    fn set_control_signal(&mut self, control: ControlSignal, val: bool) -> Result<(), BusFault> {
        let mask = control.mask();
        if val {
            self.control_bus |= mask;
        } else {
            self.control_bus &= !mask;
        }

        if !self.get_control_signal(ControlSignal::MemEnable) {
            return Ok(());
        }

        if self.get_control_signal(ControlSignal::AccessMode) {
            let result: Option<&u8> = self.read_targets.get(&self.address_bus);
            self.data_bus = match result {
                Some(val) => *val,
                None => panic!(
                    "Method trying to read from forbidden memory (addr: {:x})",
                    self.address_bus
                ),
            }
        } else {
            let result: Option<&u8> = self.write_targets.get(&self.address_bus);
            match result {
                Some(val) => {
                    if *val != self.data_bus {
                        panic!(
                            "Method trying to write invalid data(expected: {:b}, got: {:b})",
                            *val, self.data_bus
                        );
                    }
                }
                None => panic!(
                    "Method trying to write to forbidden memory(addr: {:x}, val: {:b})",
                    self.address_bus, self.data_bus
                ),
            }
        }
        Ok(())
    }

    fn get_control_signal(&self, control: ControlSignal) -> bool {
        (self.control_bus & control.mask()) != 0
    }
}

/*  ** Logic check for rel_jump. **
    We simulate that a jump instruction was read at the address 0x8000, and the program counter moved to
    0x8001, where we load the relative jump address. Afterwards, we call the jump_rel instruction logic
    directly, and check if it set the program counter as expected: the offset counts from 0x8002, the
    address behind the operand.
*/
#[test]
fn test_rel_jump() {
    let mut cpu = CPU::<TestBus>::new(TestBus::new(), false);

    cpu.program_counter = 0x8001;
    cpu.memory.set_read_target(0x8001, 0b1001_0101);
    assert_eq!(cpu.jump_rel(true), Ok(()));
    assert_eq!(cpu.program_counter, 0x7f97);

    cpu.program_counter = 0x8001;
    cpu.memory.set_read_target(0x8001, 0b0110_0101);
    assert_eq!(cpu.jump_rel(true), Ok(()));
    assert_eq!(cpu.program_counter, 0x8067);
}

/*  ** Checking jump instructions **
    In the different test methods we set up the cpu flags according to the instruction tested, and call the jump_check
    method. This method loads the cpu memory with the instruction tested, and a jump pattern, which allows to test
    if the cpu branched or not. We compare this with the expected behavior.
*/
fn jump_check(instruction: u8, cpu: &mut CPU<TestBus>) -> bool {
    cpu.program_counter = 0x8000;
    cpu.memory
        .set_vector_read_target(0x8000, vec![instruction, 0x03, 0x00, 0x00, 0x00, 0x00]);
    assert_eq!(cpu.run(16), Halt::Break);

    match cpu.program_counter {
        0x8006 => true,  // This is 0x8005 + 1, i.e. the program halts on 0x8005
        0x8003 => false, // Similarly in this case the program halts on 0x8002
        _ => panic!(
            "The value of the program counter is unexpected: {:x}",
            cpu.program_counter
        ),
    }
}

#[test]
fn test_bcc_0x90() {
    let mut cpu = CPU::<TestBus>::new(TestBus::new(), false);

    cpu.set_flag(Flag::C, false);
    assert_eq!(jump_check(0x90, &mut cpu), true);

    cpu.set_flag(Flag::C, true);
    assert_eq!(jump_check(0x90, &mut cpu), false);
}

#[test]
fn test_bcs_0xb0() {
    let mut cpu = CPU::<TestBus>::new(TestBus::new(), false);

    cpu.set_flag(Flag::C, false);
    assert_eq!(jump_check(0xb0, &mut cpu), false);

    cpu.set_flag(Flag::C, true);
    assert_eq!(jump_check(0xb0, &mut cpu), true);
}

#[test]
fn test_beq_0xf0() {
    let mut cpu = CPU::<TestBus>::new(TestBus::new(), false);

    cpu.set_flag(Flag::Z, false);
    assert_eq!(jump_check(0xf0, &mut cpu), false);

    cpu.set_flag(Flag::Z, true);
    assert_eq!(jump_check(0xf0, &mut cpu), true);
}

#[test]
fn test_bne_0xd0() {
    let mut cpu = CPU::<TestBus>::new(TestBus::new(), false);

    cpu.set_flag(Flag::Z, false);
    assert_eq!(jump_check(0xd0, &mut cpu), true);

    cpu.set_flag(Flag::Z, true);
    assert_eq!(jump_check(0xd0, &mut cpu), false);
}

#[test]
fn test_bmi_0x30() {
    let mut cpu = CPU::<TestBus>::new(TestBus::new(), false);

    cpu.set_flag(Flag::N, false);
    assert_eq!(jump_check(0x30, &mut cpu), false);

    cpu.set_flag(Flag::N, true);
    assert_eq!(jump_check(0x30, &mut cpu), true);
}

#[test]
fn test_bpl_0x10() {
    let mut cpu = CPU::<TestBus>::new(TestBus::new(), false);

    cpu.set_flag(Flag::N, false);
    assert_eq!(jump_check(0x10, &mut cpu), true);

    cpu.set_flag(Flag::N, true);
    assert_eq!(jump_check(0x10, &mut cpu), false);
}

#[test]
fn test_bvc_0x50() {
    let mut cpu = CPU::<TestBus>::new(TestBus::new(), false);

    cpu.set_flag(Flag::V, false);
    assert_eq!(jump_check(0x50, &mut cpu), true);

    cpu.set_flag(Flag::V, true);
    assert_eq!(jump_check(0x50, &mut cpu), false);
}

#[test]
fn test_bvc_0x70() {
    let mut cpu = CPU::<TestBus>::new(TestBus::new(), false);

    cpu.set_flag(Flag::V, false);
    assert_eq!(jump_check(0x70, &mut cpu), false);

    cpu.set_flag(Flag::V, true);
    assert_eq!(jump_check(0x70, &mut cpu), true);
}

// Given a cpu and an addressing mode, this method plants a value in a location that the mode reaches from
// program counter 0, and gives the address of that location.
fn addressing_mode_tester(cpu: &mut CPU<TestBus>, secret_value: u8, mode: AddressingMode) -> u16 {
    let lsb: u8 = 10;
    let msb: u8 = 13;
    let addr: u16 = ((msb as u16) << 8) + (lsb as u16);
    let reg: u8 = 53;
    let indirect: u16 = 745;

    cpu.program_counter = 0;

    match mode {
        AddressingMode::Immediate => {
            cpu.memory.set_read_target(0, secret_value);
            0
        }
        AddressingMode::ZeroPage => {
            cpu.memory.set_read_target(lsb as u16, secret_value);
            cpu.memory.set_read_target(0, lsb);
            lsb as u16
        }
        AddressingMode::ZeroPageX => {
            cpu.register_x = reg;
            cpu.memory.set_read_target(lsb as u16 + reg as u16, secret_value);
            cpu.memory.set_read_target(0, lsb);
            lsb as u16 + reg as u16
        }
        AddressingMode::ZeroPageY => {
            cpu.register_y = reg;
            cpu.memory.set_read_target(lsb as u16 + reg as u16, secret_value);
            cpu.memory.set_read_target(0, lsb);
            lsb as u16 + reg as u16
        }
        AddressingMode::Absolute => {
            cpu.memory.set_read_target(addr, secret_value);
            cpu.memory.set_read_u16_target(0, addr);
            addr
        }
        AddressingMode::AbsoluteX => {
            cpu.register_x = reg;
            cpu.memory.set_read_target(addr + reg as u16, secret_value);
            cpu.memory.set_read_u16_target(0, addr);
            addr + (reg as u16)
        }
        AddressingMode::AbsoluteY => {
            cpu.register_y = reg;
            cpu.memory.set_read_target(addr + reg as u16, secret_value);
            cpu.memory.set_read_u16_target(0, addr);
            addr + (reg as u16)
        }
        AddressingMode::Indirect => {
            cpu.memory.set_read_u16_target(addr, indirect);
            cpu.memory.set_read_target(indirect, secret_value);
            cpu.memory.set_read_u16_target(0, addr);
            indirect
        }
        AddressingMode::IndexedIndirect => {
            cpu.register_x = reg;
            cpu.memory.set_read_u16_target(lsb as u16 + reg as u16, indirect);
            cpu.memory.set_read_target(indirect, secret_value);
            cpu.memory.set_read_target(0, lsb);
            indirect
        }
        AddressingMode::IndirectIndexed => {
            cpu.register_y = reg;
            cpu.memory.set_read_u16_target(lsb as u16, indirect);
            cpu.memory.set_read_target(indirect + reg as u16, secret_value);
            cpu.memory.set_read_target(0, lsb);
            indirect + (reg as u16)
        }
        AddressingMode::Accumulator | AddressingMode::Implied => {
            cpu.register_a = secret_value;
            0
        }
        AddressingMode::Relative => {
            cpu.memory.set_read_target(0, lsb);
            cpu.memory.set_read_target(1 + lsb as u16, secret_value);
            1 + lsb as u16
        }
    }
}

const MEMORY_MODES: [AddressingMode; 10] = [
    AddressingMode::Immediate,
    AddressingMode::ZeroPage,
    AddressingMode::ZeroPageX,
    AddressingMode::ZeroPageY,
    AddressingMode::Absolute,
    AddressingMode::AbsoluteX,
    AddressingMode::AbsoluteY,
    AddressingMode::Indirect,
    AddressingMode::IndexedIndirect,
    AddressingMode::IndirectIndexed,
];

const VALUES: [u8; 8] = [0x00, 0x01, 0x3C, 0x7F, 0x80, 0x81, 0xC3, 0xFF];

#[test]
fn the_tester_plants_where_the_mode_points() {
    for mode in MEMORY_MODES {
        let mut cpu = CPU::<TestBus>::new(TestBus::new(), false);
        let addr = addressing_mode_tester(&mut cpu, 0x5A, mode);
        assert_eq!(cpu.get_target_address(mode), Ok(Some(addr)));
    }
}

#[test]
fn adc_in_every_mode() {
    for mode in MEMORY_MODES {
        for a in VALUES {
            for mem_value in VALUES {
                for c in [0u8, 1] {
                    let mut cpu = CPU::<TestBus>::new(TestBus::new(), false);
                    cpu.register_a = a;
                    cpu.set_flag(Flag::C, c != 0);
                    addressing_mode_tester(&mut cpu, mem_value, mode);

                    assert_eq!(cpu.adc(mode), Ok(()));

                    assert_eq!(cpu.register_a, a.wrapping_add(c).wrapping_add(mem_value));
                    assert_eq!(cpu.get_flag(Flag::Z), cpu.register_a == 0);
                    assert_eq!(cpu.get_flag(Flag::N), cpu.register_a & 0b1000_0000 != 0);
                    assert_eq!(
                        cpu.get_flag(Flag::C),
                        a as u16 + mem_value as u16 + c as u16 > 255
                    );
                }
            }
        }
    }
}

#[test]
fn and_ora_eor_in_every_mode() {
    for mode in MEMORY_MODES {
        for a in VALUES {
            for mem_value in VALUES {
                let mut cpu = CPU::<TestBus>::new(TestBus::new(), false);
                cpu.register_a = a;
                addressing_mode_tester(&mut cpu, mem_value, mode);
                assert_eq!(cpu.and(mode), Ok(()));
                assert_eq!(cpu.register_a, a & mem_value);
                assert_eq!(cpu.get_flag(Flag::Z), cpu.register_a == 0);
                assert_eq!(cpu.get_flag(Flag::N), cpu.register_a & 0b1000_0000 != 0);

                let mut cpu = CPU::<TestBus>::new(TestBus::new(), false);
                cpu.register_a = a;
                addressing_mode_tester(&mut cpu, mem_value, mode);
                assert_eq!(cpu.ora(mode), Ok(()));
                assert_eq!(cpu.register_a, a | mem_value);
                assert_eq!(cpu.get_flag(Flag::Z), cpu.register_a == 0);
                assert_eq!(cpu.get_flag(Flag::N), cpu.register_a & 0b1000_0000 != 0);

                let mut cpu = CPU::<TestBus>::new(TestBus::new(), false);
                cpu.register_a = a;
                addressing_mode_tester(&mut cpu, mem_value, mode);
                assert_eq!(cpu.eor(mode), Ok(()));
                assert_eq!(cpu.register_a, a ^ mem_value);
                assert_eq!(cpu.get_flag(Flag::Z), cpu.register_a == 0);
                assert_eq!(cpu.get_flag(Flag::N), cpu.register_a & 0b1000_0000 != 0);
            }
        }
    }
}

#[test]
fn loads_in_every_mode() {
    for mode in MEMORY_MODES {
        for val in VALUES {
            let mut cpu = CPU::<TestBus>::new(TestBus::new(), false);
            addressing_mode_tester(&mut cpu, val, mode);
            assert_eq!(cpu.lda(mode), Ok(()));
            assert_eq!(cpu.register_a, val);

            let mut cpu = CPU::<TestBus>::new(TestBus::new(), false);
            addressing_mode_tester(&mut cpu, val, mode);
            assert_eq!(cpu.ldx(mode), Ok(()));
            assert_eq!(cpu.register_x, val);

            let mut cpu = CPU::<TestBus>::new(TestBus::new(), false);
            addressing_mode_tester(&mut cpu, val, mode);
            assert_eq!(cpu.ldy(mode), Ok(()));
            assert_eq!(cpu.register_y, val);
            assert_eq!(cpu.get_flag(Flag::Z), val == 0);
            assert_eq!(cpu.get_flag(Flag::N), val & 0b1000_0000 != 0);
        }
    }
}

#[test]
fn compares_in_every_mode() {
    for mode in MEMORY_MODES {
        for reg in VALUES {
            for mem_value in VALUES {
                let mut cpu = CPU::<TestBus>::new(TestBus::new(), false);
                addressing_mode_tester(&mut cpu, mem_value, mode);
                cpu.register_a = reg;
                assert_eq!(cpu.cmp(mode), Ok(()));
                assert_eq!(cpu.get_flag(Flag::C), reg >= mem_value);
                assert_eq!(cpu.get_flag(Flag::Z), reg == mem_value);
                assert_eq!(
                    cpu.get_flag(Flag::N),
                    reg.wrapping_sub(mem_value) & 0b1000_0000 != 0
                );
            }
        }
    }
}

#[test]
fn bit_in_its_modes() {
    for mode in [AddressingMode::ZeroPage, AddressingMode::Absolute] {
        for reg in VALUES {
            for mem_value in VALUES {
                let mut cpu = CPU::<TestBus>::new(TestBus::new(), false);
                cpu.register_a = reg;
                addressing_mode_tester(&mut cpu, mem_value, mode);

                assert_eq!(cpu.bit(mode), Ok(()));

                assert_eq!(cpu.get_flag(Flag::Z), reg & mem_value == 0);
                assert_eq!(cpu.get_flag(Flag::N), mem_value & 0b1000_0000 != 0);
                assert_eq!(cpu.get_flag(Flag::V), mem_value & 0b0100_0000 != 0);
            }
        }
    }
}

const IN_PLACE_MODES: [AddressingMode; 4] = [
    AddressingMode::ZeroPage,
    AddressingMode::ZeroPageX,
    AddressingMode::Absolute,
    AddressingMode::AbsoluteX,
];

#[test]
fn asl_writes_the_shifted_byte() {
    for mode in IN_PLACE_MODES {
        for mem_value in VALUES {
            let mut cpu = CPU::<TestBus>::new(TestBus::new(), false);
            let addr = addressing_mode_tester(&mut cpu, mem_value, mode);
            cpu.memory.set_write_target(addr, mem_value << 1);

            assert_eq!(cpu.asl(mode), Ok(()));

            assert_eq!(cpu.get_flag(Flag::Z), mem_value << 1 == 0);
            assert_eq!(cpu.get_flag(Flag::N), (mem_value << 1) & 0b1000_0000 != 0);
            assert_eq!(cpu.get_flag(Flag::C), (mem_value) & 0b1000_0000 != 0);
        }
    }
}

#[test]
fn lsr_writes_the_shifted_byte() {
    for mode in IN_PLACE_MODES {
        for val in VALUES {
            let mut cpu = CPU::<TestBus>::new(TestBus::new(), false);
            let addr: u16 = addressing_mode_tester(&mut cpu, val, mode);
            let new_val = val >> 1;
            cpu.memory.set_write_target(addr, new_val);

            assert_eq!(cpu.lsr(mode), Ok(()));

            assert_eq!(cpu.get_flag(Flag::C), val & 0b0000_0001 != 0);
            assert_eq!(cpu.get_flag(Flag::Z), new_val == 0);
            assert_eq!(cpu.get_flag(Flag::N), new_val & 0b1000_0000 != 0);
        }
    }
}

#[test]
fn rol_writes_the_rotated_byte() {
    for mode in IN_PLACE_MODES {
        for val in VALUES {
            for carry in [0u8, 1] {
                let mut cpu = CPU::<TestBus>::new(TestBus::new(), false);
                cpu.set_flag(Flag::C, carry != 0);
                let addr: u16 = addressing_mode_tester(&mut cpu, val, mode);

                let target_val = (val << 1) + carry;
                cpu.memory.set_write_target(addr, target_val);

                assert_eq!(cpu.rol(mode), Ok(()));

                assert_eq!(cpu.get_flag(Flag::C), val & 0b1000_0000 != 0);
                assert_eq!(cpu.get_flag(Flag::Z), target_val == 0);
                assert_eq!(cpu.get_flag(Flag::N), target_val & 0b1000_0000 != 0);
            }
        }
    }
}

#[test]
fn ror_writes_the_rotated_byte() {
    for mode in IN_PLACE_MODES {
        for val in VALUES {
            for carry in [0u8, 1] {
                let mut cpu = CPU::<TestBus>::new(TestBus::new(), false);
                cpu.set_flag(Flag::C, carry != 0);
                let addr: u16 = addressing_mode_tester(&mut cpu, val, mode);

                let target_val = (val >> 1) | (carry << 7);
                cpu.memory.set_write_target(addr, target_val);

                assert_eq!(cpu.ror(mode), Ok(()));

                assert_eq!(cpu.get_flag(Flag::C), val & 0b0000_0001 != 0);
                assert_eq!(cpu.get_flag(Flag::Z), target_val == 0);
                assert_eq!(cpu.get_flag(Flag::N), target_val & 0b1000_0000 != 0);
            }
        }
    }
}

#[test]
fn inc_and_dec_write_the_stepped_byte() {
    for mode in IN_PLACE_MODES {
        for val in VALUES {
            let mut cpu = CPU::<TestBus>::new(TestBus::new(), false);
            let addr = addressing_mode_tester(&mut cpu, val, mode);
            cpu.memory.set_write_target(addr, val.wrapping_add(1));

            assert_eq!(cpu.inc(mode), Ok(()));

            assert_eq!(cpu.get_flag(Flag::Z), val.wrapping_add(1) == 0);
            assert_eq!(cpu.get_flag(Flag::N), (val.wrapping_add(1) & 0b1000_0000) != 0);

            let mut cpu = CPU::<TestBus>::new(TestBus::new(), false);
            let addr = addressing_mode_tester(&mut cpu, val, mode);
            let new_value = val.wrapping_sub(1);
            cpu.memory.set_write_target(addr, new_value);

            assert_eq!(cpu.dec(mode), Ok(()));

            assert_eq!(cpu.get_flag(Flag::Z), new_value == 0);
            assert_eq!(cpu.get_flag(Flag::N), (new_value) & 0b1000_0000 != 0);
        }
    }
}

#[test]
fn stores_write_the_register() {
    for mode in IN_PLACE_MODES {
        let mut cpu = CPU::<TestBus>::new(TestBus::new(), false);
        let addr = addressing_mode_tester(&mut cpu, 0, mode);
        cpu.register_a = 0xA5;
        cpu.memory.set_write_target(addr, 0xA5);
        assert_eq!(cpu.sta(mode), Ok(()));
    }
    let mut cpu = CPU::<TestBus>::new(TestBus::new(), false);
    let addr = addressing_mode_tester(&mut cpu, 0, AddressingMode::ZeroPageY);
    cpu.register_x = 0x5A;
    cpu.memory.set_write_target(addr, 0x5A);
    assert_eq!(cpu.stx(AddressingMode::ZeroPageY), Ok(()));
    let mut cpu = CPU::<TestBus>::new(TestBus::new(), false);
    let addr = addressing_mode_tester(&mut cpu, 0, AddressingMode::ZeroPageX);
    cpu.register_y = 0x3C;
    cpu.memory.set_write_target(addr, 0x3C);
    assert_eq!(cpu.sty(AddressingMode::ZeroPageX), Ok(()));
}
