use maikor_platform::op_params::{INDIRECT, IND_OFFSET_NUM, IND_PRE_DEC, POST_INC};
use maikor_platform::registers::{id, FLG_DEFAULT};
use maikor_vm_core::constants::registers::offset;
use maikor_vm_core::{Register, VmError, VM};

#[test]
fn byte_mem_write() {
    let mut vm = VM::new_test();

    let cost1 = vm.write_byte_mem(2, 124).unwrap();
    let cost2 = vm.write_byte_mem(875, 1).unwrap();

    assert_eq!(vm.memory[2], 124);
    assert_eq!(vm.memory[875], 1);
    assert_eq!(cost1, 1);
    assert_eq!(cost2, 1);
}

#[test]
fn word_mem_write() {
    let mut vm = VM::new_test();

    let cost = vm.write_word_mem(875, 10).unwrap();

    assert_eq!(vm.memory[875], 0);
    assert_eq!(vm.memory[876], 10);
    assert_eq!(cost, 2);
}

#[test]
fn byte_mem_read() {
    let mut vm = VM::new_test();

    vm.memory[12] = 56;
    let (value, cost) = vm.read_byte_mem(12);

    assert_eq!(value, 56);
    assert_eq!(cost, 1);
}

#[test]
fn word_mem_read() {
    let mut vm = VM::new_test();

    vm.memory[12] = 1;
    vm.memory[13] = 56;
    let (value, cost) = vm.read_word_mem(12);

    assert_eq!(value, 312);
    assert_eq!(cost, 2);
}

#[test]
fn byte_reg_write() {
    let mut vm = VM::new_test();

    let cost1 = vm.write_byte_reg(&Register::from(id::AL as u8).unwrap(), 0, 10).unwrap();
    let cost2 = vm.write_byte_reg(&Register::from(id::DH as u8).unwrap(), 0, 19).unwrap();

    assert_eq!(vm.registers, [0, 10, 0, 0, 0, 0, 19, 0, FLG_DEFAULT]);
    assert_eq!(cost1, 1);
    assert_eq!(cost2, 1);
}

#[test]
fn byte_ind_reg_write() {
    let mut vm = VM::new_test();

    vm.registers[offset::AH] = 1;
    vm.registers[offset::DL] = 50;
    let cost1 = vm
        .write_byte_reg(&Register::from(id::AX as u8 | INDIRECT).unwrap(), 0, 10)
        .unwrap();
    let cost2 = vm
        .write_byte_reg(&Register::from(id::DX as u8 | INDIRECT).unwrap(), 0, 19)
        .unwrap();

    assert_eq!(vm.memory[256], 10);
    assert_eq!(vm.memory[50], 19);
    assert_eq!(cost1, 3);
    assert_eq!(cost2, 3);
}

#[test]
fn word_reg_write() {
    let mut vm = VM::new_test();

    let cost1 = vm.write_word_reg(&Register::from(id::BX as u8).unwrap(), 0, 256).unwrap();
    let cost2 = vm.write_word_reg(&Register::from(id::DX as u8).unwrap(), 0, 12563).unwrap();

    assert_eq!(vm.registers, [0, 0, 1, 0, 0, 0, 49, 19, FLG_DEFAULT]);
    assert_eq!(cost1, 2);
    assert_eq!(cost2, 2);
}

#[test]
fn word_ind_reg_write() {
    let mut vm = VM::new_test();

    vm.registers[offset::AH] = 1;
    vm.registers[offset::DL] = 50;
    let cost1 = vm
        .write_word_reg(&Register::from(id::AX as u8 | INDIRECT).unwrap(), 0, 10)
        .unwrap();
    let cost2 = vm
        .write_word_reg(&Register::from(id::DX as u8 | INDIRECT).unwrap(), 0, 19)
        .unwrap();

    assert_eq!(vm.memory[257], 10);
    assert_eq!(vm.memory[51], 19);
    assert_eq!(cost1, 4);
    assert_eq!(cost2, 4);
}

#[test]
fn byte_reg_read() {
    let mut vm = VM::new_test();

    vm.registers[offset::AH] = 4;
    let (value, cost) = vm.read_byte_reg(&Register::from(id::AH as u8).unwrap(), 0).unwrap();

    assert_eq!(value, 4);
    assert_eq!(cost, 1);
}

#[test]
fn word_reg_read() {
    let mut vm = VM::new_test();

    vm.registers[offset::AH] = 2;
    vm.registers[offset::AL] = 2;
    let (value, cost) = vm.read_word_reg(&Register::from(id::AX as u8).unwrap(), 0).unwrap();

    assert_eq!(value, 514);
    assert_eq!(cost, 2);
}

#[test]
fn byte_ind_reg_read() {
    let mut vm = VM::new_test();

    vm.registers[offset::AL] = 4;
    vm.memory[4] = 15;
    let (value, cost) = vm
        .read_byte_reg(&Register::from(id::AX as u8 | INDIRECT).unwrap(), 0)
        .unwrap();

    assert_eq!(value, 15);
    assert_eq!(cost, 3);
}

#[test]
fn word_ind_reg_read() {
    let mut vm = VM::new_test();

    vm.registers[offset::AH] = 2;
    vm.registers[offset::AL] = 2;
    vm.memory[514] = 1;
    vm.memory[515] = 2;
    let (value, cost) = vm
        .read_word_reg(&Register::from(id::AX as u8 | INDIRECT).unwrap(), 0)
        .unwrap();

    assert_eq!(value, 258);
    assert_eq!(cost, 4);
}

#[test]
fn check_reg_from() {
    assert_eq!(
        Register::from(id::AL as u8),
        Ok(Register::new_no_calc(false, 1, offset::AL))
    );

    assert_eq!(
        Register::from(id::BX as u8),
        Ok(Register::new_no_calc(false, 2, offset::BH))
    );

    assert_eq!(
        Register::from(id::CX as u8 | INDIRECT),
        Ok(Register::new_no_calc(true, 2, offset::CH))
    );

    assert_eq!(
        Register::from(id::AL as u8 | POST_INC),
        Ok(Register::new_ppid(false, true, true, true, 1, offset::AL))
    );

    assert_eq!(
        Register::from(id::DX as u8 | IND_PRE_DEC),
        Ok(Register::new_ppid(true, true, false, false, 2, offset::DH))
    );

    assert_eq!(
        Register::from(id::BX as u8 | IND_OFFSET_NUM),
        Ok(Register::new_offset(false, false, true, 2, offset::BH))
    );
}

#[test]
fn register_decoding_goes_wrong_on_unknown_nibbles() {
    for byte in 0..=255u8 {
        let decoded = Register::from(byte);
        let low = byte & 0x0F;
        let mode = byte & 0xF0;
        if low > 12 {
            assert_eq!(decoded, Err(VmError::InvalidRegister(byte)));
        } else if mode == 0x10 || mode == 0x20 || mode == 0x30 {
            assert_eq!(decoded, Err(VmError::InvalidAddressingMode(byte)));
        } else {
            let reg = decoded.unwrap();
            assert!(reg.size == 1 || reg.size == 2);
            assert!(reg.addr + reg.size <= 9);
            assert_eq!(reg.id(), low);
            assert_eq!(reg.size, id::size(low));
            let described: maikor_platform::op_params::RegisterPPID = byte.try_into().unwrap();
            assert_eq!(reg.is_indirect, described.is_indirect);
            assert_eq!(reg.is_offset_reg, described.is_offset_reg);
            assert_eq!(reg.is_offset_ext_reg, described.is_offset_ext_reg);
            assert_eq!(reg.is_offset_num, described.is_offset_num);
            assert_eq!(reg.is_calc, described.ppid.is_some());
        }
    }
}

#[test]
fn words_and_pointers_need_extended_registers() {
    let mut vm = VM::new_test();
    let al = Register::from(id::AL).unwrap();
    assert_eq!(
        vm.read_word_reg(&al, 0),
        Err(VmError::ExtendedRegisterRequired(id::AL))
    );
    assert_eq!(
        vm.write_word_reg(&al, 0, 5),
        Err(VmError::ExtendedRegisterRequired(id::AL))
    );
    let pointer = Register::from(id::DH | INDIRECT).unwrap();
    assert_eq!(
        vm.read_byte_reg(&pointer, 0),
        Err(VmError::ExtendedRegisterRequired(id::DH))
    );
    assert_eq!(
        vm.write_byte_reg(&pointer, 0, 1),
        Err(VmError::ExtendedRegisterRequired(id::DH))
    );
    assert_eq!(vm.registers, VM::new().registers);
}

#[test]
fn word_access_wraps_at_the_top_of_memory() {
    let mut vm = VM::new_test();
    assert_eq!(vm.write_word_mem(65535, 0x1234), Ok(2));
    assert_eq!(vm.memory[65535], 0x12);
    assert_eq!(vm.memory[0], 0x34);
    assert_eq!(vm.read_word_mem(65535), (0x1234, 2));
    assert_eq!(VM::index(10, -20), 65526);
    assert_eq!(VM::index(65530, 10), 4);
}
