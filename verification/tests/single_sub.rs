#![allow(dead_code, unused_imports)]

use maikor_platform::mem::{address, sizes};
use maikor_platform::op_params;
use maikor_platform::ops;
use maikor_platform::registers::flags;
use maikor_platform::registers::id;
use maikor_vm_core::vm::VM;

use maikor_vm_core::constants::registers::offset;

fn flags_to_str(flg: u8) -> String {
    let mut output = String::new();
    let list = [
        (flags::CARRY, "CARRY"),
        (flags::OVERFLOW, "OVERFLOW"),
        (flags::ZERO, "ZERO"),
        (flags::INTERRUPTS, "INTERRUPTS"),
        (flags::LESS_THAN, "LESS_THAN"),
        (flags::GREATER_THAN, "GREATER_THAN"),
        (flags::SIGNED, "SIGNED"),
    ];
    for (id, str) in list {
        if flg & id == id {
            if !output.is_empty() {
                output.push(',');
            }
            output.push_str(str);
        }
    }
    if output.is_empty() {
        String::from("(0) -")
    } else {
        format!("({flg}) {output}")
    }
}

fn compare_registers(text: &str, expected_values: &[u8; 9], actual_values: &[u8; 9]) {
    let mut mismatches = String::new();
    for (i, &actual) in actual_values.iter().enumerate() {
        let expected = expected_values[i];
        if expected != actual {
            if i < 8 {
                let name = id::to_name(i as u8).unwrap();
                mismatches.push_str(&format!("{} was {} not {}\n", name, actual, expected));
            } else {
                mismatches.push_str(&format!(
                    "FLG: was '{}' not '{}'",
                    flags_to_str(actual),
                    flags_to_str(expected)
                ));
            }
        }
    }
    if !mismatches.is_empty() {
        panic!("Register comparison failed for {}:\n{}", text, mismatches)
    }
}

/// Compares memory outside the reserved scratch area.
fn compare_memory(text: &str, expected_mem: &[u8], actual_mem: &[u8]) {
    if expected_mem.len() != actual_mem.len() {
        panic!(
            "Memory comparison failed, different sizes: {} != {}",
            expected_mem.len(),
            actual_mem.len()
        );
    }
    let mut mismatches = String::new();
    for (i, &actual) in actual_mem.iter().enumerate() {
        let addr = i as u16;
        if (address::RESERVED..address::RESERVED + sizes::RESERVED).contains(&addr) {
            continue;
        }
        let expected = expected_mem[i];
        if expected != actual {
            mismatches.push_str(&format!(
                "{:04X} was {:02X} not {:02X} | {} was {} not {}\n",
                i, actual, expected, i, actual, expected
            ));
        }
    }
    if !mismatches.is_empty() {
        panic!("Memory comparison failed for {}:\n{}", text, mismatches)
    }
}

/// Executes one instruction on a new machine and compares registers and
/// memory afterwards.
fn test_op(desc: &str, bytes: &[u8], registers: &[(usize, u8)], memory: &[(usize, u8)]) {
    run_test_op(VM::new(), desc, bytes, registers, memory);
}

/// Executes one instruction on a new machine with the given registers and
/// memory, and compares registers and memory afterwards.
fn test_op_init(
    desc: &str,
    bytes: &[u8],
    init_registers: &[(usize, u8)],
    init_memory: &[(usize, u8)],
    registers: &[(usize, u8)],
    memory: &[(usize, u8)],
) {
    let mut vm = VM::new();
    for (addr, value) in init_registers {
        vm.registers[*addr] = *value;
    }
    for (addr, value) in init_memory {
        vm.memory[*addr] = *value;
    }
    run_test_op(vm, desc, bytes, registers, memory);
}

fn run_test_op(
    mut vm: VM,
    desc: &str,
    bytes: &[u8],
    registers: &[(usize, u8)],
    memory: &[(usize, u8)],
) {
    let mut expected_reg = vm.registers;
    let mut expected_mem = vm.memory;
    for (addr, value) in registers {
        expected_reg[*addr] = *value;
    }
    for (addr, value) in memory {
        expected_mem[*addr] = *value;
    }
    vm.execute_op(bytes);
    assert!(!vm.halted, "halted with {:?}", vm.error);
    compare_registers(desc, &expected_reg, &vm.registers);
    compare_memory(desc, &expected_mem, &vm.memory);
}

#[test]
fn sub_reg_num_byte() {
    test_op_init(
        &format!("SUB.B CH 3"),
        &[ops::SUB_REG_NUM_BYTE, id::CH as u8, 3],
        &[(offset::CH, 15)],
        &[],
        &[(offset::CH, 12), (offset::FLAGS, flags::INTERRUPTS)],
        &[],
    );
}
