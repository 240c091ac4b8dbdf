use pic_emulator::data_bus::{
    DataBus, SfrBank, FSR_ADDR, INDIRECT_ADDR, OPTION_ADDR, PCLATH_ADDR, PCL_ADDR, PORTA_ADDR,
    PORTB_ADDR, STATUS_ADDR, TMR0_ADDR, TRISA_ADDR, TRISB_ADDR,
};
use pic_emulator::stack::ReturnStack;

#[test]
fn new_bus_is_zero() {
    let bus = DataBus::new();
    assert!(bus.memory.iter().all(|byte| *byte == 0));
    assert_eq!(bus.w, 0);
    assert_eq!(bus.get_pc(), 0);
    assert_eq!(bus.stack.len(), 0);
}

#[test]
fn special_function_registers_sit_at_their_offsets() {
    let mut bus = DataBus::new();
    bus.w = 0x01;
    bus.write_byte(TMR0_ADDR, 0x02);
    bus.write_byte(PCL_ADDR, 0x03);
    bus.write_byte(FSR_ADDR, 0x05);
    bus.write_byte(PORTA_ADDR, 0x06);
    bus.write_byte(PORTB_ADDR, 0x07);
    bus.write_byte(PCLATH_ADDR, 0x08);
    bus.write_byte(STATUS_ADDR, 0x20);
    bus.write_byte(OPTION_ADDR, 0x09);
    bus.write_byte(TRISA_ADDR, 0x0A);
    bus.write_byte(TRISB_ADDR, 0x0B);
    assert_eq!(
        bus.sfr_bank(),
        SfrBank {
            w: 0x01,
            status: 0x20,
            fsr: 0x05,
            pcl: 0x03,
            pclath: 0x08,
            option: 0x09,
            tmr0: 0x02,
            porta: 0x06,
            portb: 0x07,
            trisa: 0x0A,
            trisb: 0x0B,
        }
    );
    assert_eq!(bus.memory[0x81], 0x09);
    assert_eq!(bus.memory[0x85], 0x0A);
    assert_eq!(bus.memory[0x86], 0x0B);
}

#[test]
fn banked_register_follows_rp0() {
    let mut bus = DataBus::new();
    bus.write_byte(0x20, 0x11);
    assert_eq!(bus.memory[0x20], 0x11);
    assert_eq!(bus.read_byte(0x20), 0x11);
    bus.set_bit(STATUS_ADDR, 5);
    assert_eq!(bus.read_byte(0x20), 0x00);
    bus.write_byte(0x20, 0x22);
    assert_eq!(bus.memory[0x80 + 0x20], 0x22);
    assert_eq!(bus.memory[0x20], 0x11);
    bus.clear_bit(STATUS_ADDR, 5);
    assert_eq!(bus.read_byte(0x20), 0x11);
}

#[test]
fn mirrored_registers_ignore_the_bank() {
    let mut bus = DataBus::new();
    bus.write_byte(STATUS_ADDR, 0x20);
    assert_eq!(bus.resolve(STATUS_ADDR), Some(0x03));
    assert_eq!(bus.resolve(FSR_ADDR), Some(0x04));
    assert_eq!(bus.resolve(PCL_ADDR), Some(0x02));
    assert_eq!(bus.resolve(PCLATH_ADDR), Some(0x0A));
    assert_eq!(bus.resolve(PORTA_ADDR), Some(0x85));
    bus.write_byte(FSR_ADDR, 0x44);
    assert_eq!(bus.memory[0x04], 0x44);
    bus.write_byte(STATUS_ADDR, 0x00);
    assert_eq!(bus.read_byte(FSR_ADDR), 0x44);
    assert_eq!(bus.resolve(PORTA_ADDR), Some(0x05));
}

#[test]
fn indirect_access_goes_through_fsr() {
    let mut bus = DataBus::new();
    bus.write_byte(0x30, 0x77);
    bus.write_byte(FSR_ADDR, 0x30);
    assert_eq!(bus.read_byte(INDIRECT_ADDR), 0x77);
    assert_eq!(bus.read_byte(INDIRECT_ADDR), bus.read_byte(0x30));
    bus.write_byte(INDIRECT_ADDR, 0x5A);
    assert_eq!(bus.read_byte(0x30), 0x5A);
    assert_eq!(bus.read_byte(FSR_ADDR), 0x30);
}

#[test]
fn indirect_round_trip_for_every_pointer() {
    for pointer in 1..=255u8 {
        let mut bus = DataBus::new();
        bus.write_byte(FSR_ADDR, pointer);
        assert_eq!(bus.read_byte(INDIRECT_ADDR), bus.read_byte(pointer));
        bus.write_byte(INDIRECT_ADDR, 0xC3);
        assert_eq!(bus.read_byte(pointer), 0xC3);
    }
}

#[test]
fn indirect_through_zero_pointer_does_nothing() {
    let mut bus = DataBus::new();
    assert_eq!(bus.resolve(INDIRECT_ADDR), None);
    assert_eq!(bus.read_byte(INDIRECT_ADDR), 0);
    assert!(!bus.write_byte(INDIRECT_ADDR, 0xFF));
    assert!(bus.memory.iter().all(|byte| *byte == 0));
    assert_eq!(bus.read_byte(INDIRECT_ADDR), 0);
    assert!(!bus.get_bit(INDIRECT_ADDR, 3));
}

#[test]
fn bit_access_reads_and_writes_one_bit() {
    let mut bus = DataBus::new();
    bus.set_bit(0x21, 3);
    assert_eq!(bus.read_byte(0x21), 0x08);
    assert!(bus.get_bit(0x21, 3));
    assert!(!bus.get_bit(0x21, 2));
    bus.set_bit(0x21, 0);
    bus.clear_bit(0x21, 3);
    assert_eq!(bus.read_byte(0x21), 0x01);
}

#[test]
fn program_counter_is_pclath_and_pcl() {
    let mut bus = DataBus::new();
    bus.load_pc(0x1234);
    assert_eq!(bus.get_pc(), 0x1234);
    assert_eq!(bus.memory[PCL_ADDR as usize], 0x34);
    assert_eq!(bus.memory[PCLATH_ADDR as usize], 0x12);
    bus.load_pc(0xFFFF);
    assert_eq!(bus.get_pc(), 0x1FFF);
    assert_eq!(bus.memory[PCL_ADDR as usize], 0xFF);
    assert_eq!(bus.memory[PCLATH_ADDR as usize], 0x1F);
}

#[test]
fn program_counter_matches_its_registers_in_every_state() {
    for high in [0x00u8, 0x01, 0x1F, 0x20, 0xE0, 0xFF] {
        for low in [0x00u8, 0x01, 0x7F, 0xFF] {
            let mut bus = DataBus::new();
            bus.write_byte(PCLATH_ADDR, high);
            bus.write_byte(PCL_ADDR, low);
            let pc = bus.get_pc();
            assert_eq!(bus.memory[PCL_ADDR as usize] as u16, pc & 0xFF);
            assert_eq!((bus.memory[PCLATH_ADDR as usize] & 0x1F) as u16, (pc >> 8) & 0x1F);
            assert!(pc <= 0x1FFF);
        }
    }
}

#[test]
fn writing_pcl_is_reported() {
    let mut bus = DataBus::new();
    bus.write_byte(PCLATH_ADDR, 0x03);
    assert!(bus.write_byte(PCL_ADDR, 0x45));
    assert_eq!(bus.get_pc(), 0x0345);
    assert!(!bus.write_byte(0x20, 0x45));
    assert!(!bus.write_byte(PCLATH_ADDR, 0x01));
    assert_eq!(bus.get_pc(), 0x0145);
    bus.write_byte(FSR_ADDR, PCL_ADDR);
    assert!(bus.write_byte(INDIRECT_ADDR, 0x10));
    assert_eq!(bus.get_pc(), 0x0110);
}

#[test]
fn inc_pc_wraps_at_thirteen_bits() {
    let mut bus = DataBus::new();
    bus.inc_pc(1);
    assert_eq!(bus.get_pc(), 1);
    bus.load_pc(0x00FF);
    bus.inc_pc(1);
    assert_eq!(bus.get_pc(), 0x0100);
    bus.load_pc(0x1FFF);
    bus.inc_pc(1);
    assert_eq!(bus.get_pc(), 0);
    bus.load_pc(0x1FFF);
    bus.inc_pc(2);
    assert_eq!(bus.get_pc(), 1);
}

#[test]
fn push_then_pop_returns_the_value() {
    let mut stack = ReturnStack::new();
    assert!(!stack.push(0x0123));
    assert_eq!(stack.len(), 1);
    assert_eq!(stack.get(0), 0x0123);
    assert_eq!(stack.pop(), 0x0123);
    assert_eq!(stack.len(), 0);
}

#[test]
fn stack_is_last_in_first_out() {
    let mut stack = ReturnStack::new();
    for value in 1..=5u16 {
        stack.push(value);
    }
    assert_eq!(stack.len(), 5);
    assert_eq!(stack.get(0), 1);
    assert_eq!(stack.get(4), 5);
    for value in (1..=5u16).rev() {
        assert_eq!(stack.pop(), value);
    }
    assert_eq!(stack.len(), 0);
}

#[test]
fn push_pop_restores_the_length_below_capacity() {
    for depth in 0..8usize {
        let mut stack = ReturnStack::new();
        for value in 0..depth {
            stack.push(value as u16 + 100);
        }
        stack.push(0x1ABC);
        assert_eq!(stack.pop(), 0x1ABC);
        assert_eq!(stack.len(), depth);
        for index in 0..depth {
            assert_eq!(stack.get(index), index as u16 + 100);
        }
    }
}

#[test]
fn stack_overflow_overwrites_the_oldest() {
    let mut stack = ReturnStack::new();
    for value in 1..=8u16 {
        assert!(!stack.push(value));
    }
    assert_eq!(stack.len(), 8);
    assert!(stack.push(9));
    assert_eq!(stack.len(), 8);
    assert_eq!(stack.get(0), 2);
    assert_eq!(stack.get(7), 9);
    assert_eq!(stack.pop(), 9);
    assert_eq!(stack.len(), 7);
    for value in (2..=8u16).rev() {
        assert_eq!(stack.pop(), value);
    }
    assert_eq!(stack.len(), 0);
}

#[test]
fn stack_underflow_wraps() {
    let mut stack = ReturnStack::new();
    assert_eq!(stack.pop(), 0);
    assert_eq!(stack.len(), 0);
    stack.push(0x0111);
    stack.push(0x0222);
    assert_eq!(stack.pop(), 0x0222);
    assert_eq!(stack.pop(), 0x0111);
    assert_eq!(stack.len(), 0);
    for _ in 0..6 {
        assert_eq!(stack.pop(), 0);
    }
    assert_eq!(stack.pop(), 0x0222);
    assert_eq!(stack.pop(), 0x0111);
    assert_eq!(stack.len(), 0);
}

#[test]
fn bus_stack_operations_report_overflow() {
    let mut bus = DataBus::new();
    for value in 0..8u16 {
        assert!(!bus.push(value));
    }
    assert!(bus.push(8));
    assert_eq!(bus.pop(), 8);
}
