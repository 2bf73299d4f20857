use maikor_platform::mem::{address, interrupt_flags, sizes};
use maikor_platform::models::{Byteable, LayerHeader, Sprite};
use maikor_platform::op_params;
use maikor_platform::ops;
use maikor_platform::registers::flags::{
    CARRY, GREATER_THAN, INTERRUPTS, LESS_THAN, OVERFLOW, SIGNED, ZERO,
};
use maikor_platform::registers::id;
use maikor_vm_core::constants::registers::offset;
use maikor_vm_core::ops::operand::Width;
use maikor_vm_core::{VmError, VM};

fn machine_with_banks() -> VM {
    let mut vm = VM::new();
    vm.load_game(
        vec![[90; 4200], [91; 4200], [92; 4200]],
        vec![[2; 4200], [3; 4200], [4; 4200]],
        vec![[12; 4000], [13; 4000], [14; 4000], [15; 4000], [16; 4000]],
        vec![[100; 4096], [101; 4096], [102; 4096]],
    );
    vm.init();
    vm
}

#[test]
fn a_new_machine_is_zero_but_for_flags_and_stack_pointers() {
    let vm = VM::new();
    assert_eq!(vm.registers, [0, 0, 0, 0, 0, 0, 0, 0, ZERO | INTERRUPTS]);
    assert_eq!(vm.pc, 0);
    assert_eq!(vm.get_sp(), address::STACK);
    assert_eq!(vm.get_fp(), address::STACK);
    for (i, byte) in vm.memory.iter().enumerate() {
        let pointer = (address::SP as usize..address::SP as usize + 4).contains(&i);
        if !pointer {
            assert_eq!(*byte, 0, "{i}");
        }
    }
    assert_eq!(vm.memory[address::SP as usize], 0xFC);
    assert_eq!(vm.memory[address::SP as usize + 1], 0x18);
    assert!(!vm.halted && vm.error.is_none() && vm.fault.is_none());
    assert_eq!((vm.op_executed, vm.cycles_executed), (0, 0));
    assert!(vm.code_banks.is_empty() && vm.sound_writes.is_empty());
    assert_eq!(vm.save_dirty_flag, [false; 16]);
}

#[test]
fn a_new_machine_shows_no_sprite_and_no_layer() {
    let vm = VM::new();
    for i in 0..maikor_platform::constants::SPRITE_COUNT {
        let at = address::SPRITE_TABLE as usize + i * Sprite::SIZE;
        assert!(!Sprite::from_bytes(&vm.memory[at..at + Sprite::SIZE]).enabled);
    }
    for i in 0..maikor_platform::constants::LAYER_COUNT {
        let at = address::LAYER_HEADERS as usize + i * LayerHeader::SIZE;
        assert!(!LayerHeader::from_bytes(&vm.memory[at..at + LayerHeader::SIZE]).enabled);
    }
}

#[test]
fn add_ff_and_01_sets_zero_and_carry() {
    let mut vm = VM::new();
    vm.registers[offset::AL] = 0xFF;
    vm.execute_op(&[ops::ADD_REG_NUM_BYTE, id::AL, 0x01]);
    assert_eq!(vm.registers[offset::AL], 0);
    assert!(vm.check_flag(ZERO));
    assert!(!vm.check_flag(SIGNED));
    assert!(vm.check_flag(CARRY));
    assert!(vm.check_flag(INTERRUPTS));
    assert!(!vm.check_flag(LESS_THAN) && !vm.check_flag(GREATER_THAN));
    // The operands differ in sign, so the sum cannot leave the signed range.
    assert!(!vm.check_flag(OVERFLOW));
}

#[test]
fn overflow_is_the_signed_range_left() {
    let cases: [(u8, u8, u8, u8, u8); 8] = [
        (ops::ADD_REG_NUM_BYTE, 127, 1, 128, SIGNED | OVERFLOW),
        (ops::ADD_REG_NUM_BYTE, 0x80, 0x80, 0, ZERO | CARRY | OVERFLOW),
        (ops::ADD_REG_NUM_BYTE, 240, 17, 1, CARRY),
        (ops::ADD_REG_NUM_BYTE, 100, 27, 127, 0),
        (ops::SUB_REG_NUM_BYTE, 0x80, 1, 0x7F, OVERFLOW),
        (ops::SUB_REG_NUM_BYTE, 0, 10, 246, CARRY | SIGNED),
        (ops::SUB_REG_NUM_BYTE, 0x7F, 0xFF, 0x80, CARRY | SIGNED | OVERFLOW),
        (ops::SUB_REG_NUM_BYTE, 5, 5, 0, ZERO),
    ];
    for (op, a, b, result, flags) in cases {
        let mut vm = VM::new();
        vm.registers[offset::CL] = a;
        vm.execute_op(&[op, id::CL, b]);
        assert_eq!(vm.registers[offset::CL], result, "{op:02X} {a} {b}");
        assert_eq!(vm.registers[offset::FLAGS], flags | INTERRUPTS, "{op:02X} {a} {b}");
    }
    let mut vm = VM::new();
    vm.registers[offset::AH] = 0x7F;
    vm.registers[offset::AL] = 0xFF;
    vm.execute_op(&[ops::ADD_REG_NUM_WORD, id::AX, 0, 1]);
    assert_eq!(vm.registers[..2], [0x80, 0]);
    assert_eq!(vm.registers[offset::FLAGS], SIGNED | OVERFLOW | INTERRUPTS);
}

#[test]
fn carrying_arithmetic_takes_the_carry_in() {
    let mut vm = VM::new();
    vm.set_flag(CARRY);
    vm.registers[offset::BH] = 10;
    vm.execute_op(&[ops::ADDC_REG_NUM_BYTE, id::BH, 10]);
    assert_eq!(vm.registers[offset::BH], 21);
    assert_eq!(vm.registers[offset::FLAGS], INTERRUPTS);
    vm.set_flag(CARRY);
    vm.execute_op(&[ops::SUBC_REG_NUM_BYTE, id::BH, 21]);
    assert_eq!(vm.registers[offset::BH], 255);
    assert_eq!(vm.registers[offset::FLAGS], INTERRUPTS | CARRY | SIGNED);
    vm.execute_op(&[ops::ADDC_REG_NUM_BYTE, id::BH, 0]);
    assert_eq!(vm.registers[offset::BH], 0);
    assert_eq!(vm.registers[offset::FLAGS], INTERRUPTS | CARRY | ZERO);
}

#[test]
fn multiplication_and_division() {
    let mut vm = VM::new();
    vm.registers[offset::AL] = 20;
    vm.execute_op(&[ops::MUL_REG_NUM_BYTE, id::AL, 20]);
    assert_eq!(vm.registers[offset::AL], 144);
    assert_eq!(vm.registers[offset::FLAGS], INTERRUPTS | CARRY | SIGNED | OVERFLOW);
    vm.execute_op(&[ops::DIV_REG_NUM_BYTE, id::AL, 10]);
    assert_eq!(vm.registers[offset::AL], 14);
    assert_eq!(vm.registers[offset::FLAGS], INTERRUPTS | OVERFLOW);
    vm.registers[offset::AL] = 0xF9;
    vm.execute_op(&[ops::DIVS_REG_NUM_BYTE, id::AL, 2]);
    assert_eq!(vm.registers[offset::AL], 0xFD);
    assert_eq!(vm.registers[offset::FLAGS], INTERRUPTS | SIGNED);
    vm.execute_op(&[ops::MULS_REG_NUM_BYTE, id::AL, 0xFE]);
    assert_eq!(vm.registers[offset::AL], 6);
    assert_eq!(vm.registers[offset::FLAGS], INTERRUPTS | OVERFLOW);
    vm.registers[offset::CH] = 0x12;
    vm.registers[offset::CL] = 0x34;
    vm.execute_op(&[ops::DIV_REG_NUM_WORD, id::CX, 0, 0x10]);
    assert_eq!(vm.registers[offset::CH..=offset::CL], [0x01, 0x23]);
    assert!(!vm.halted);
}

#[test]
fn division_by_zero_halts() {
    for op in [ops::DIV_REG_NUM_BYTE, ops::DIVS_REG_NUM_BYTE] {
        let mut vm = VM::new();
        vm.registers[offset::AL] = 9;
        vm.execute_op(&[op, id::AL, 0]);
        assert!(vm.halted);
        assert_eq!(vm.fault, Some(VmError::DivisionByZero));
        assert_eq!(vm.registers[offset::AL], 9);
        assert!(vm.error.as_ref().unwrap().starts_with("Division by zero\nAH: 00  AL: 09"));
    }
}

#[test]
fn logic_sets_the_flags_of_its_result() {
    let mut vm = VM::new();
    vm.registers[offset::DL] = 0b1100;
    vm.set_flag(CARRY);
    vm.execute_op(&[ops::AND_REG_NUM_BYTE, id::DL, 0b1010]);
    assert_eq!(vm.registers[offset::DL], 0b1000);
    assert_eq!(vm.registers[offset::FLAGS], INTERRUPTS);
    vm.execute_op(&[ops::XOR_REG_NUM_BYTE, id::DL, 0b1000]);
    assert_eq!(vm.registers[offset::DL], 0);
    assert_eq!(vm.registers[offset::FLAGS], INTERRUPTS | ZERO);
    vm.execute_op(&[ops::OR_REG_NUM_BYTE, id::DL, 0x81]);
    assert_eq!(vm.registers[offset::DL], 0x81);
    assert_eq!(vm.registers[offset::FLAGS], INTERRUPTS | SIGNED);
    vm.execute_op(&[ops::NOT_REG_BYTE, id::DL]);
    assert_eq!(vm.registers[offset::DL], 0x7E);
    assert_eq!(vm.registers[offset::FLAGS], INTERRUPTS);
    vm.registers[offset::AH] = 0xFF;
    vm.registers[offset::AL] = 0x00;
    vm.execute_op(&[ops::NOT_REG_WORD, id::AX]);
    assert_eq!(vm.registers[..2], [0x00, 0xFF]);
}

#[test]
fn comparisons_set_less_and_greater() {
    let mut vm = VM::new();
    vm.registers[offset::AL] = 5;
    vm.set_flag(CARRY);
    vm.set_flag(OVERFLOW);
    vm.execute_op(&[ops::CMP_REG_NUM_BYTE, id::AL, 10]);
    assert!(vm.check_flag(LESS_THAN) && !vm.check_flag(GREATER_THAN));
    assert!(!vm.check_flag(CARRY) && !vm.check_flag(OVERFLOW));
    assert_eq!(vm.registers[offset::AL], 5);

    vm.registers[offset::AL] = 255;
    vm.execute_op(&[ops::CMP_REG_NUM_BYTE, id::AL, 5]);
    assert!(!vm.check_flag(LESS_THAN) && vm.check_flag(GREATER_THAN));
    vm.execute_op(&[ops::CMPS_REG_NUM_BYTE, id::AL, 5]);
    assert!(vm.check_flag(LESS_THAN) && !vm.check_flag(GREATER_THAN));
    assert!(vm.check_flag(SIGNED) && !vm.check_flag(ZERO));

    vm.registers[offset::BL] = 255;
    vm.execute_op(&[ops::CMP_REG_REG_BYTE, id::AL, id::BL]);
    assert!(!vm.check_flag(LESS_THAN) && !vm.check_flag(GREATER_THAN));
    vm.memory[300] = 0x80;
    vm.memory[301] = 0x00;
    vm.registers[offset::CH] = 0x7F;
    vm.execute_op(&[ops::CMP_REG_ADDR_WORD, id::CX, 1, 44]);
    assert!(vm.check_flag(LESS_THAN));
    vm.execute_op(&[ops::CMPS_REG_ADDR_WORD, id::CX, 1, 44]);
    assert!(vm.check_flag(GREATER_THAN));
    assert_eq!(vm.memory[300], 0x80);
}

#[test]
fn shifts_move_one_place_at_a_time() {
    let cases: [(u8, u8, u8, bool, u8, bool); 12] = [
        (ops::ASL_REG_NUM_BYTE, 0x81, 1, false, 0x02, false),
        (ops::ASR_REG_NUM_BYTE, 0x81, 1, false, 0xC0, false),
        (ops::LSR_REG_NUM_BYTE, 0x81, 1, false, 0x40, false),
        (ops::ROL_REG_NUM_BYTE, 0x81, 1, false, 0x03, false),
        (ops::ROR_REG_NUM_BYTE, 0x81, 1, false, 0xC0, false),
        (ops::RCL_REG_NUM_BYTE, 0x81, 1, false, 0x02, true),
        (ops::RCL_REG_NUM_BYTE, 0x01, 1, true, 0x03, false),
        (ops::RCR_REG_NUM_BYTE, 0x81, 1, false, 0x40, true),
        (ops::RCR_REG_NUM_BYTE, 0x80, 2, true, 0x60, false),
        (ops::ASL_REG_NUM_BYTE, 0xFF, 9, false, 0x00, false),
        (ops::ASR_REG_NUM_BYTE, 0x80, 20, false, 0xFF, false),
        (ops::ROL_REG_NUM_BYTE, 0x12, 12, false, 0x21, false),
    ];
    for (op, value, amount, carry, result, carry_out) in cases {
        let mut vm = VM::new();
        vm.registers[offset::BL] = value;
        vm.update_flag_conditionally(CARRY, carry);
        vm.execute_op(&[op, id::BL, amount]);
        assert_eq!(vm.registers[offset::BL], result, "{op:02X} {value:02X} {amount}");
        assert_eq!(vm.check_flag(CARRY), carry_out, "{op:02X} {value:02X} {amount}");
        assert_eq!(vm.check_flag(ZERO), result == 0);
        assert_eq!(vm.check_flag(SIGNED), result >= 128);
    }
    let mut vm = VM::new();
    vm.memory[400] = 0x80;
    vm.memory[401] = 0x01;
    vm.execute_op(&[ops::ROL_ADDR_WORD, 1, 144]);
    assert_eq!(vm.memory[400..402], [0x00, 0x03]);
    vm.registers[offset::DL] = 3;
    vm.registers[offset::CH] = 0x80;
    vm.execute_op(&[ops::ASR_REG_REG_WORD, id::CX, id::DX]);
    assert_eq!(vm.registers[offset::CH..=offset::CL], [0xF0, 0x00]);
}

#[test]
fn a_program_runs_to_its_halt() {
    let mut vm = VM::new();
    vm.debug_set_mem_range(
        0,
        &[
            ops::INC_REG_BYTE,
            id::AL,
            ops::INC_REG_BYTE,
            id::AH,
            ops::CPY_REG_REG_BYTE,
            id::BH,
            id::AH,
            ops::CPY_ADDR_REG_WORD,
            1,
            0,
            id::BX,
            ops::HALT,
        ],
    );
    let mut cycles = 0;
    let mut steps = 0;
    while !vm.halted {
        cycles += vm.step();
        steps += 1;
    }
    assert_eq!(steps, 5);
    assert_eq!(vm.registers, [1, 1, 1, 0, 0, 0, 0, 0, INTERRUPTS]);
    assert_eq!(vm.memory[256], 1);
    assert_eq!(vm.memory[257], 0);
    assert_eq!(vm.pc, 11);
    assert!(vm.error.is_none() && vm.fault.is_none());
    assert_eq!(cycles, 2 + 2 + 2 + 4);
    assert_eq!(vm.cycles_executed, cycles);
    assert_eq!(vm.op_executed, 5);
    assert_eq!(vm.step(), 0);
    assert_eq!(vm.op_executed, 5);
    assert_eq!(vm.pc, 11);
}

#[test]
fn edits_survive_a_bank_swap() {
    let windows = [
        (address::CODE_BANK_1_ID, address::CODE_BANK_1, 4200u16),
        (address::CODE_BANK_2_ID, address::CODE_BANK_2, 4200),
        (address::RAM_BANK_1_ID, address::RAM_BANK_1, 4200),
        (address::RAM_BANK_2_ID, address::RAM_BANK_2, 4200),
        (address::SAVE_BANK_ID, address::SAVE_BANK, 4096),
        (address::ATLAS1_BANK_ID, address::ATLAS1, 4000),
        (address::ATLAS2_BANK_ID, address::ATLAS2, 4000),
        (address::ATLAS3_BANK_ID, address::ATLAS3, 4000),
        (address::ATLAS4_BANK_ID, address::ATLAS4, 4000),
    ];
    for (select, base, size) in windows {
        for at in [0, 1, size / 2, size - 1] {
            let mut vm = machine_with_banks();
            vm.debug_set_mem(select, 2);
            let before = vm.memory[(base + at) as usize];
            vm.debug_set_mem(base + at, 201);
            vm.debug_set_mem(select, 0);
            assert_ne!(vm.memory[(base + at) as usize], 201);
            vm.debug_set_mem(select, 2);
            assert_eq!(vm.read_byte_mem(base + at), (201, 1));
            vm.debug_set_mem(select, 1);
            assert_ne!(vm.memory[(base + at) as usize], before);
            assert!(!vm.halted);
        }
    }
}

#[test]
fn a_write_through_a_window_costs_one_more_cycle() {
    let mut vm = machine_with_banks();
    assert_eq!(vm.write_byte_mem(address::RAM_BANK_1 + 7, 9), Ok(2));
    assert_eq!(vm.ram_banks[0][7], 9);
    assert_eq!(vm.write_word_mem(address::RAM_BANK_1 + 4199, 0x0102), Ok(4));
    assert_eq!(vm.ram_banks[0][4199], 1);
    assert_eq!(vm.memory[address::RAM_BANK_2 as usize], 2);
    assert_eq!(vm.ram_banks[1][0], 2);
    assert_eq!(vm.write_byte_mem(address::RAM_BANK_1_ID, 1), Ok(21));
    assert_eq!(vm.write_byte_mem(address::RAM_BANK_2_ID, 1), Ok(21));
    assert_eq!(vm.write_word_mem(address::RAM_BANK_1 + 4199, 0x0304), Ok(4));
    assert_eq!(vm.ram_banks[1][4199], 3);
    assert_eq!(vm.ram_banks[1][0], 4);
    assert_eq!(vm.write_byte_mem(address::RAM as u16, 5), Ok(1));
    assert_eq!(vm.write_byte_mem(address::SOUND, 5), Ok(1));
    assert_eq!(vm.write_byte_mem(address::TIMER_CONTROL, 5), Ok(1));
    let mut bare = VM::new();
    assert_eq!(bare.write_byte_mem(address::RAM_BANK_1 + 7, 9), Ok(1));
    assert_eq!(bare.memory[address::RAM_BANK_1 as usize + 7], 9);
}

#[test]
fn a_save_write_marks_its_bank_dirty() {
    let mut vm = machine_with_banks();
    vm.debug_set_mem(address::SAVE_BANK_ID, 1);
    assert_eq!(vm.save_dirty_flag, [false; 16]);
    vm.debug_set_mem(address::SAVE_BANK + 100, 77);
    let mut expected = [false; 16];
    expected[1] = true;
    assert_eq!(vm.save_dirty_flag, expected);
    assert_eq!(vm.save_banks[1][100], 77);
    assert_eq!(vm.save_banks[0][100], 100);
    vm.debug_set_mem(address::ATLAS1 + 5, 1);
    vm.debug_set_mem(address::SAVE_BANK_ID, 2);
    vm.debug_set_mem(100, 1);
    assert_eq!(vm.save_dirty_flag, expected);
    vm.execute_op(&[ops::CPY_ADDR_NUM_BYTE, 0x88, 0x11, 3]);
    expected[2] = true;
    assert_eq!(vm.save_dirty_flag, expected);
    assert_eq!(vm.save_banks[2][0], 3);
}

#[test]
fn selecting_a_bank_that_is_not_there_halts() {
    let mut vm = machine_with_banks();
    assert_eq!(
        vm.write_byte_mem(address::CODE_BANK_2_ID, 3),
        Err(VmError::BankOutOfRange(address::CODE_BANK_2_ID, 3))
    );
    assert_eq!(vm.memory[address::CODE_BANK_2_ID as usize], 3);
    assert_eq!(vm.memory[address::CODE_BANK_2 as usize], 91);
    assert!(!vm.halted);
    assert_eq!(vm.write_byte_mem(address::CODE_BANK_2 + 1, 8), Ok(1));
    vm.debug_set_mem(address::ATLAS3_BANK_ID, 200);
    assert!(vm.halted);
    assert_eq!(
        vm.fault,
        Some(VmError::BankOutOfRange(address::ATLAS3_BANK_ID, 200))
    );
    assert!(vm.error.as_ref().unwrap().starts_with("No bank C8 to select at FB49\nAH: 00"));
    let mut vm = VM::new();
    vm.memory[0] = ops::CPY_ADDR_NUM_BYTE;
    vm.memory[1] = 0xFB;
    vm.memory[2] = 0x46;
    assert_eq!(vm.step(), 0);
    assert!(vm.halted);
    assert_eq!(vm.fault, Some(VmError::BankOutOfRange(address::RAM_BANK_1_ID, 0)));
    assert_eq!(vm.pc, 0);
    assert_eq!(vm.op_executed, 0);
}

#[test]
fn initialisation_selects_the_first_banks() {
    let mut vm = VM::new();
    vm.load_game(vec![[7; 4200]], vec![], vec![[1; 4000], [2; 4000]], vec![]);
    vm.init();
    assert!(!vm.halted);
    assert_eq!(vm.memory[address::CODE_BANK_1 as usize], 7);
    assert_eq!(vm.memory[address::CODE_BANK_2 as usize + 4199], 7);
    assert_eq!(vm.memory[address::CODE_BANK_2_ID as usize], 0);
    assert_eq!(vm.memory[address::RAM_BANK_1 as usize], 0);
    assert_eq!(vm.memory[address::ATLAS1 as usize], 1);
    assert_eq!(vm.memory[address::ATLAS2 as usize], 2);
    assert_eq!(vm.memory[address::ATLAS2_BANK_ID as usize], 1);
    assert_eq!(vm.memory[address::ATLAS3 as usize], 1);
    assert_eq!(vm.memory[address::ATLAS4 as usize + 3999], 1);
    assert_eq!(vm.memory[address::ATLAS4_BANK_ID as usize], 0);
    assert_eq!(vm.memory[address::SAVE_BANK as usize], 0);
    let mut bare = VM::new();
    let before = bare.memory;
    bare.init();
    assert!(bare.memory == before && !bare.halted);
}

#[test]
fn an_interrupt_is_entered_and_returned_from() {
    let mut vm = VM::new();
    vm.registers = [1, 2, 3, 4, 5, 6, 7, 8, INTERRUPTS | CARRY];
    vm.pc = 0x1234;
    vm.memory[address::IRQ_CONTROL as usize] = interrupt_flags::IRQ_TIMER | interrupt_flags::IRQ_INPUT;
    vm.trigger_interrupt(interrupt_flags::IRQ_TIMER);
    assert_eq!(vm.pc, address::interrupt::IRQ_TIMER);
    assert_eq!(vm.registers, [1, 2, 3, 4, 5, 6, 7, 8, CARRY]);
    let dump = address::IRQ_REG_DUMP as usize;
    assert_eq!(vm.memory[dump..dump + 9], [1, 2, 3, 4, 5, 6, 7, 8, INTERRUPTS | CARRY]);
    let slot = address::IRQ_RET_ADDR as usize;
    assert_eq!(vm.memory[slot..slot + 2], [0x12, 0x34]);

    vm.trigger_interrupt(interrupt_flags::IRQ_INPUT);
    assert_eq!(vm.pc, address::interrupt::IRQ_TIMER);

    vm.registers = [9, 9, 9, 9, 9, 9, 9, 9, 0];
    vm.memory[vm.pc as usize] = ops::RETI;
    assert_eq!(vm.step(), 4);
    assert_eq!(vm.registers, [1, 2, 3, 4, 5, 6, 7, 8, INTERRUPTS | CARRY]);
    assert_eq!(vm.pc, 0x1234);
    assert!(!vm.halted);
}

#[test]
fn interrupts_are_masked_and_checked() {
    let vectors = [
        (interrupt_flags::IRQ_SCREEN_DRAW, address::interrupt::IRQ_SCREEN_DRAW),
        (interrupt_flags::IRQ_TIMER, address::interrupt::IRQ_TIMER),
        (interrupt_flags::IRQ_DATETIME, address::interrupt::IRQ_DATETIME),
        (interrupt_flags::IRQ_CONTROLLER, address::interrupt::IRQ_CONTROLLER),
        (interrupt_flags::IRQ_INPUT, address::interrupt::IRQ_INPUT),
        (interrupt_flags::IRQ_LINE_DRAW, address::interrupt::IRQ_LINE_DRAW),
    ];
    for (flag, vector) in vectors {
        let mut vm = VM::new();
        vm.pc = 77;
        vm.trigger_interrupt(flag);
        assert_eq!(vm.pc, 77);
        vm.memory[address::IRQ_CONTROL as usize] = 0xFF;
        vm.clear_flag(INTERRUPTS);
        vm.trigger_interrupt(flag);
        assert_eq!(vm.pc, 77);
        vm.set_flag(INTERRUPTS);
        vm.trigger_interrupt(flag);
        assert_eq!(vm.pc, vector);
        assert!(!vm.check_flag(INTERRUPTS) && !vm.halted);
    }
    let mut vm = VM::new();
    vm.memory[address::IRQ_CONTROL as usize] = 0xFF;
    vm.trigger_interrupt(3);
    assert!(vm.halted);
    assert_eq!(vm.fault, Some(VmError::InvalidInterrupt(3)));
    assert!(vm
        .error
        .as_ref()
        .unwrap()
        .starts_with("Attempted to trigger invalid interrupt id: 03\n"));
    assert_eq!(vm.pc, 0);
}

#[test]
fn a_call_without_room_overflows_the_stack() {
    let mut vm = VM::new();
    vm.memory[0] = ops::CALL_ADDR;
    vm.memory[1] = 0x01;
    vm.memory[2] = 0x00;
    vm.set_sp(65531);
    vm.set_fp(0xFC20);
    let memory = vm.memory;
    assert_eq!(vm.step(), 0);
    assert!(vm.halted);
    assert_eq!(vm.fault, Some(VmError::StackOverflow));
    assert!(vm.error.as_ref().unwrap().starts_with("Stack overflow\n"));
    assert_eq!(vm.get_sp(), 65531);
    assert_eq!(vm.get_fp(), 0xFC20);
    assert_eq!(vm.pc, 0);
    assert!(vm.memory == memory);

    let mut vm = VM::new();
    vm.set_sp(65530);
    vm.execute_op(&[ops::CALL_ADDR, 1, 0]);
    assert!(!vm.halted);
    assert_eq!(vm.get_sp(), 65534);
    vm.execute_op(&[ops::PUSH_NUM_BYTE, 1]);
    assert_eq!(vm.fault, Some(VmError::StackOverflow));
}

#[test]
fn a_call_returns_to_the_next_instruction() {
    let mut vm = VM::new();
    vm.debug_set_mem_range(
        100,
        &[ops::CALL_ADDR, 0x02, 0x00, ops::HALT],
    );
    vm.debug_set_mem_range(0x200, &[ops::INC_REG_BYTE, id::DL, ops::RET]);
    vm.pc = 100;
    vm.set_fp(0xAABB);
    assert_eq!(vm.step(), 4);
    assert_eq!(vm.pc, 0x200);
    assert_eq!(vm.get_sp(), address::STACK + 4);
    let stack = address::STACK as usize;
    assert_eq!(vm.memory[stack..stack + 4], [0xAA, 0xBB, 0, 103]);
    vm.set_fp(1);
    vm.step();
    assert_eq!(vm.step(), 3);
    assert_eq!(vm.pc, 103);
    assert_eq!(vm.get_sp(), address::STACK);
    assert_eq!(vm.get_fp(), 0xAABB);
    vm.step();
    assert!(vm.halted && vm.fault.is_none());
    assert_eq!(vm.registers[offset::DL], 1);

    let mut vm = VM::new();
    vm.memory[50] = ops::CALL_REG;
    vm.memory[51] = id::BX | op_params::IND_OFFSET_NUM;
    vm.memory[52] = 0;
    vm.memory[53] = 2;
    vm.memory[302] = 0x40;
    vm.registers[offset::BH] = 1;
    vm.registers[offset::BL] = 44;
    vm.pc = 50;
    assert_eq!(vm.step(), 8);
    assert_eq!(vm.pc, 0x4000);
    assert_eq!(vm.pop_value(Width::Word), 54);
}

#[test]
fn push_and_pop() {
    let mut vm = VM::new();
    vm.registers[offset::CL] = 0xAB;
    vm.execute_op(&[ops::PUSH_REG_BYTE, id::CL]);
    vm.execute_op(&[ops::PUSH_NUM_WORD, 0x12, 0x34]);
    let stack = address::STACK as usize;
    assert_eq!(vm.memory[stack..stack + 3], [0xAB, 0x12, 0x34]);
    assert_eq!(vm.get_sp(), address::STACK + 3);
    vm.execute_op(&[ops::POP_REG_WORD, id::DX]);
    assert_eq!(vm.registers[offset::DH..=offset::DL], [0x12, 0x34]);
    vm.execute_op(&[ops::POP_REG_BYTE, id::AX | op_params::INDIRECT]);
    assert_eq!(vm.memory[0], 0xAB);
    assert_eq!(vm.get_sp(), address::STACK);
    assert!(!vm.halted);
}

#[test]
fn errors_of_decoding_halt() {
    let mut vm = VM::new();
    vm.memory[0] = 0x6E;
    assert_eq!(vm.step(), 0);
    assert_eq!(vm.fault, Some(VmError::UnsupportedOp(0x6E)));
    assert!(vm.error.as_ref().unwrap().starts_with("Unsupported op: 6E\n"));
    assert_eq!((vm.pc, vm.op_executed), (0, 0));

    let mut vm = VM::new();
    vm.execute_op(&[ops::SLEEP]);
    assert_eq!(vm.fault, Some(VmError::UnsupportedOp(0xFF)));

    let mut vm = VM::new();
    vm.execute_op(&[ops::INC_REG_BYTE, 13]);
    assert_eq!(vm.fault, Some(VmError::InvalidRegister(13)));
    assert!(vm.error.as_ref().unwrap().starts_with("Invalid register: 0D\n"));

    let mut vm = VM::new();
    vm.execute_op(&[ops::INC_REG_BYTE, 0x21]);
    assert_eq!(vm.fault, Some(VmError::InvalidAddressingMode(0x21)));
    assert!(vm.error.as_ref().unwrap().starts_with("Invalid addressing mode: 21\n"));

    let mut vm = VM::new();
    vm.execute_op(&[ops::INC_REG_WORD, id::CL]);
    assert_eq!(vm.fault, Some(VmError::ExtendedRegisterRequired(id::CL)));
    assert!(vm
        .error
        .as_ref()
        .unwrap()
        .starts_with("Can only use extended registers, not CL\n"));
    assert_eq!(vm.registers[offset::CL], 0);

    let mut vm = VM::new();
    vm.execute_op(&[ops::EHALT]);
    assert!(vm.halted);
    assert_eq!(vm.fault, Some(VmError::HaltedByProgram));
    assert!(vm.error.as_ref().unwrap().starts_with("Halted by program\n"));

    let mut vm = VM::new();
    vm.execute_op(&[ops::NOP]);
    assert!(!vm.halted && vm.error.is_none());
    vm.memory[0] = ops::NOP;
    assert_eq!(vm.step(), 3);
    assert_eq!(vm.pc, 1);
}

#[test]
fn the_dump_shows_registers_stack_and_code() {
    let mut vm = VM::new();
    assert_eq!(
        vm.dump(),
        "AH: 00  AL: 00  BH: 00  BL: 00\nCH: 00  CL: 00  DH: 00  DL: 00\nFLG: 41 SP: FC18 FP: FC18 PC: 0000\nStack: \nCode: 00 00 00 00 00 00 00"
    );
    vm.registers = [0x1A, 0x2B, 0x3C, 0x4D, 0x5E, 0x6F, 0x70, 0x81, 0x92];
    vm.pc = 10;
    for i in 0..20 {
        vm.memory[i] = i as u8 * 3;
    }
    vm.execute_op(&[ops::PUSH_NUM_WORD, 0xCA, 0xFE]);
    vm.execute_op(&[ops::PUSH_NUM_BYTE, 0x07]);
    vm.set_fp(0xFC19);
    assert_eq!(
        vm.dump(),
        "AH: 1A  AL: 2B  BH: 3C  BL: 4D\nCH: 5E  CL: 6F  DH: 70  DL: 81\nFLG: 92 SP: FC1B FP: FC19 PC: 000A\nStack: CA FE 07\nCode: 0C 0F 12 15 18 1B 1E 21 24 27 2A 2D 30"
    );
    vm.pc = 65535;
    vm.set_sp(3);
    assert!(vm.dump().ends_with("PC: FFFF\nStack: \nCode: 00 00 00 00 00 00"));
    assert_eq!(VmError::StackOverflow.message(), "Stack overflow");
    assert_eq!(VmError::BankOutOfRange(0xFB45, 9).message(), "No bank 09 to select at FB45");
    vm.fail(VmError::HaltedByProgram);
    assert_eq!(
        vm.error,
        Some(format!("Halted by program\n{}", vm.dump()))
    );
}

#[test]
fn sound_writes_are_queued_for_the_host() {
    let mut vm = machine_with_banks();
    vm.execute_op(&[ops::CPY_ADDR_NUM_BYTE, 0x87, 0xF2, 9]);
    vm.debug_set_mem(address::SOUND + sizes::SOUND - 1, 8);
    vm.debug_set_mem(address::SOUND + sizes::SOUND, 1);
    vm.debug_set_mem(address::WAVE_TABLE, 6);
    vm.debug_set_mem(address::WAVE_TABLE + sizes::WAVE_TABLE - 1, 5);
    vm.debug_set_mem(address::WAVE_TABLE + sizes::WAVE_TABLE, 2);
    vm.debug_set_mem(address::SOUND - 1, 3);
    assert!(!vm.halted);
    let writes = vm.take_sound_writes();
    assert_eq!(
        writes,
        vec![
            (address::SOUND, 9),
            (address::SOUND + 29, 8),
            (address::WAVE_TABLE, 6),
            (address::WAVE_TABLE + 15, 5)
        ]
    );
    assert!(vm.sound_writes.is_empty());
    assert_eq!(vm.memory[address::SOUND as usize], 9);
    vm.reset_sound_registers();
    let sound = address::SOUND as usize;
    assert_eq!(vm.memory[sound..sound + 30], [0; 30]);
    assert_eq!(vm.memory[sound - 1], 3);
    assert_eq!(vm.memory[sound + 30], 1);
    assert_eq!(vm.memory[address::WAVE_TABLE as usize], 6);
}

#[test]
fn block_copies_go_through_windows() {
    let mut vm = machine_with_banks();
    for i in 0..10 {
        vm.memory[500 + i] = i as u8 + 1;
    }
    let to = address::RAM_BANK_1 + 10;
    vm.memory[0] = ops::MEM_CPY_ADDR_ADDR_BYTE;
    vm.memory[1] = (to >> 8) as u8;
    vm.memory[2] = (to & 0xFF) as u8;
    vm.memory[3] = 1;
    vm.memory[4] = 244;
    vm.memory[5] = 10;
    assert_eq!(vm.step(), 2 + 10 * 2);
    assert_eq!(vm.pc, 6);
    assert_eq!(vm.ram_banks[0][10..20], [1, 2, 3, 4, 5, 6, 7, 8, 9, 10]);
    assert_eq!(vm.memory[to as usize + 9], 10);
    vm.registers[offset::AH] = 1;
    vm.registers[offset::AL] = 244;
    vm.registers[offset::BL] = 3;
    vm.execute_op(&[ops::MSWP_REG_ADDR_REG, id::AX | op_params::POST_INC, 0, 0, id::BL]);
    assert!(!vm.halted, "{:?}", vm.error);
    assert_eq!(vm.memory[500..503], [ops::MEM_CPY_ADDR_ADDR_BYTE, (to >> 8) as u8, (to & 0xFF) as u8]);
    assert_eq!(vm.memory[0..3], [1, 2, 3]);
    assert_eq!(vm.registers[offset::AL], 246);
    vm.memory[3] = 9;
    vm.memory[4] = 1;
    vm.execute_op(&[ops::MEM_CPY_ADDR_ADDR_BYTE, 0xFB, 0x44, 0, 2, 3]);
    assert_eq!(vm.fault, Some(VmError::BankOutOfRange(address::CODE_BANK_1_ID, 9)));
    assert_eq!(vm.memory[0xFB44..0xFB47], [3, 9, 0]);
}

#[test]
fn indexed_modes_add_their_offset() {
    let mut vm = VM::new();
    vm.registers[offset::AL] = 50;
    vm.registers[offset::CH] = 200;
    vm.registers[offset::DH] = 0xFF;
    vm.registers[offset::DL] = 0xFE;
    vm.execute_op(&[ops::CPY_REG_NUM_BYTE, id::AX | op_params::IND_OFFSET_REG, 7, id::CH]);
    assert_eq!(vm.memory[250], 7);
    vm.execute_op(&[ops::CPY_REG_NUM_BYTE, id::AX | op_params::IND_OFFSET_EXT_REG, 8, id::DX]);
    assert_eq!(vm.memory[48], 8);
    vm.execute_op(&[ops::CPY_REG_NUM_BYTE, id::AX | op_params::IND_OFFSET_NUM, 9, 0xFF, 0xFF]);
    assert_eq!(vm.memory[49], 9);
    vm.execute_op(&[ops::CPY_REG_NUM_BYTE, id::AX | op_params::IND_OFFSET_EXT_REG, 8, id::DL]);
    assert_eq!(vm.fault, Some(VmError::ExtendedRegisterRequired(id::DL)));
}

#[test]
fn copies_set_flags_for_register_destinations_only() {
    let mut vm = VM::new();
    vm.set_flag(CARRY);
    vm.execute_op(&[ops::CPY_ADDR_NUM_BYTE, 0, 9, 0x80]);
    assert_eq!(vm.registers[offset::FLAGS], ZERO | INTERRUPTS | CARRY);
    vm.execute_op(&[ops::CPY_REG_NUM_BYTE, id::AX | op_params::INDIRECT, 0x80]);
    assert_eq!(vm.registers[offset::FLAGS], ZERO | INTERRUPTS | CARRY);
    assert_eq!(vm.memory[0], 0x80);
    vm.execute_op(&[ops::CPY_REG_ADDR_BYTE, id::BL, 0, 9]);
    assert_eq!(vm.registers[offset::FLAGS], SIGNED | INTERRUPTS);
    vm.execute_op(&[ops::CPY_REG_NUM_WORD, id::CX, 0, 0]);
    assert_eq!(vm.registers[offset::FLAGS], ZERO | INTERRUPTS);
    vm.execute_op(&[ops::INC_REG_BYTE, id::BL]);
    vm.execute_op(&[ops::DEC_ADDR_WORD, 0, 20]);
    assert_eq!(vm.registers[offset::FLAGS], ZERO | INTERRUPTS);
    assert_eq!(vm.memory[20..22], [0xFF, 0xFF]);
}
