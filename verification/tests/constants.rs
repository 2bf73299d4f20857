use maikor_vm_core::constants::mem::sizes;
use maikor_vm_core::constants::ops;

#[test]
fn check_totals() {
    assert_eq!(sizes::LAYER_TOTAL, 10572);
    assert_eq!(sizes::PALETTES_TOTAL, 180);
    assert_eq!(sizes::SPRITE_TABLE, 1020);
    assert_eq!(sizes::ATLAS_TOTAL, 16002);
    assert_eq!(sizes::GRAPHICS_TOTAL, 27774);
    assert_eq!(sizes::SYSTEM_TOTAL, 33637);
    assert_eq!(sizes::HARDWARE_TOTAL, 4124);
    assert_eq!(sizes::TOTAL, 65535);
}

#[test]
#[allow(unused_comparisons)]
fn check_all_commands_have_byte_counts() {
    for op in ops::ALL {
        assert!(ops::get_byte_count(op) >= 0, "{:02X}", op);
    }
}

#[test]
fn addresses_are_those_of_the_platform() {
    assert_eq!(maikor_vm_core::mem::address::CODE, maikor_platform::mem::address::CODE as usize);
    assert_eq!(maikor_vm_core::mem::address::CODE_BANK_1, maikor_platform::mem::address::CODE_BANK_1 as usize);
    assert_eq!(maikor_vm_core::mem::address::CODE_BANK_2, maikor_platform::mem::address::CODE_BANK_2 as usize);
    assert_eq!(maikor_vm_core::mem::address::RAM, maikor_platform::mem::address::RAM as usize);
    assert_eq!(maikor_vm_core::mem::address::RAM_BANK_1, maikor_platform::mem::address::RAM_BANK_1 as usize);
    assert_eq!(maikor_vm_core::mem::address::RAM_BANK_2, maikor_platform::mem::address::RAM_BANK_2 as usize);
    assert_eq!(maikor_vm_core::mem::address::INPUT, maikor_platform::mem::address::INPUT as usize);
    assert_eq!(maikor_vm_core::mem::address::SOUND, maikor_platform::mem::address::SOUND as usize);
    assert_eq!(maikor_vm_core::mem::address::SAVE_BANK_ID, maikor_platform::mem::address::SAVE_BANK_ID as usize);
    assert_eq!(maikor_vm_core::mem::address::SAVE_BANK, maikor_platform::mem::address::SAVE_BANK as usize);
    assert_eq!(maikor_vm_core::mem::address::ATLAS1, maikor_platform::mem::address::ATLAS1 as usize);
    assert_eq!(maikor_vm_core::mem::address::ATLAS2, maikor_platform::mem::address::ATLAS2 as usize);
    assert_eq!(maikor_vm_core::mem::address::ATLAS3, maikor_platform::mem::address::ATLAS3 as usize);
    assert_eq!(maikor_vm_core::mem::address::ATLAS4, maikor_platform::mem::address::ATLAS4 as usize);
    assert_eq!(maikor_vm_core::mem::address::PALETTES, maikor_platform::mem::address::PALETTES as usize);
    assert_eq!(maikor_vm_core::mem::address::SPRITE_TABLE, maikor_platform::mem::address::SPRITE_TABLE as usize);
    assert_eq!(maikor_vm_core::mem::address::LAYER_HEADERS, maikor_platform::mem::address::LAYER_HEADERS as usize);
    assert_eq!(maikor_vm_core::mem::address::LAYERS, maikor_platform::mem::address::LAYERS as usize);
    assert_eq!(maikor_vm_core::mem::address::CODE_BANK_1_ID, maikor_platform::mem::address::CODE_BANK_1_ID as usize);
    assert_eq!(maikor_vm_core::mem::address::RAM_BANK_1_ID, maikor_platform::mem::address::RAM_BANK_1_ID as usize);
    assert_eq!(maikor_vm_core::mem::address::ATLAS1_BANK_ID, maikor_platform::mem::address::ATLAS1_BANK_ID as usize);
    assert_eq!(maikor_vm_core::mem::address::ATLAS2_BANK_ID, maikor_platform::mem::address::ATLAS2_BANK_ID as usize);
    assert_eq!(maikor_vm_core::mem::address::ATLAS3_BANK_ID, maikor_platform::mem::address::ATLAS3_BANK_ID as usize);
    assert_eq!(maikor_vm_core::mem::address::ATLAS4_BANK_ID, maikor_platform::mem::address::ATLAS4_BANK_ID as usize);
    assert_eq!(maikor_vm_core::mem::address::SP, maikor_platform::mem::address::SP as usize);
    assert_eq!(maikor_vm_core::mem::address::FP, maikor_platform::mem::address::FP as usize);
    assert_eq!(maikor_vm_core::mem::address::TIMER_CONTROL, maikor_platform::mem::address::TIMER_CONTROL as usize);
    assert_eq!(maikor_vm_core::mem::address::TIMER_VALUE1, maikor_platform::mem::address::TIMER_VALUE1 as usize);
    assert_eq!(maikor_vm_core::mem::address::TIMER_VALUE2, maikor_platform::mem::address::TIMER_VALUE2 as usize);
    assert_eq!(maikor_vm_core::mem::address::TIMER_VALUE3, maikor_platform::mem::address::TIMER_VALUE3 as usize);
    assert_eq!(maikor_vm_core::mem::address::TIMER_VALUE4, maikor_platform::mem::address::TIMER_VALUE4 as usize);
    assert_eq!(maikor_vm_core::mem::address::IRQ_RET_ADDR, maikor_platform::mem::address::IRQ_RET_ADDR as usize);
    assert_eq!(maikor_vm_core::mem::address::IRQ_REG_DUMP, maikor_platform::mem::address::IRQ_REG_DUMP as usize);
    assert_eq!(maikor_vm_core::mem::address::CONTROLLER_PALETTE, maikor_platform::mem::address::CONTROLLER_PALETTE as usize);
    assert_eq!(maikor_vm_core::mem::address::CONTROLLER_TABLE, maikor_platform::mem::address::CONTROLLER_TABLE as usize);
    assert_eq!(maikor_vm_core::mem::address::IRQ_CONTROL, maikor_platform::mem::address::IRQ_CONTROL as usize);
    assert_eq!(maikor_vm_core::mem::address::SAVE_CONTROL, maikor_platform::mem::address::SAVE_CONTROL as usize);
    assert_eq!(maikor_vm_core::mem::address::DATETIME, maikor_platform::mem::address::DATETIME as usize);
    assert_eq!(maikor_vm_core::mem::address::RAND, maikor_platform::mem::address::RAND as usize);
    assert_eq!(maikor_vm_core::mem::address::WAVE_TABLE, maikor_platform::mem::address::WAVE_TABLE as usize);
    assert_eq!(maikor_vm_core::mem::address::CODE_BANK_2_ID, maikor_platform::mem::address::CODE_BANK_2_ID as usize);
    assert_eq!(maikor_vm_core::mem::address::RAM_BANK_2_ID, maikor_platform::mem::address::RAM_BANK_2_ID as usize);
    assert_eq!(maikor_vm_core::mem::address::VLINE, maikor_platform::mem::address::VLINE as usize);
    assert_eq!(maikor_vm_core::mem::address::RESERVED, maikor_platform::mem::address::RESERVED as usize);
    assert_eq!(maikor_vm_core::mem::address::STACK, maikor_platform::mem::address::STACK as usize);
    assert_eq!(maikor_vm_core::mem::address::MAX, maikor_platform::mem::address::MAX as usize);
    assert_eq!(maikor_vm_core::mem::interrupt::IRQ_INPUT, maikor_platform::mem::address::interrupt::IRQ_INPUT);
    assert_eq!(maikor_vm_core::mem::interrupt::IRQ_SCREEN_DRAW, maikor_platform::mem::address::interrupt::IRQ_SCREEN_DRAW);
    assert_eq!(maikor_vm_core::mem::interrupt::IRQ_TIMER, maikor_platform::mem::address::interrupt::IRQ_TIMER);
    assert_eq!(maikor_vm_core::mem::interrupt::IRQ_CONTROLLER, maikor_platform::mem::address::interrupt::IRQ_CONTROLLER);
    assert_eq!(maikor_vm_core::mem::interrupt::IRQ_DATETIME, maikor_platform::mem::address::interrupt::IRQ_DATETIME);
    assert_eq!(maikor_vm_core::mem::interrupt::IRQ_LINE_DRAW, maikor_platform::mem::address::interrupt::IRQ_LINE_DRAW);
    assert_eq!(maikor_vm_core::mem::interrupt_flags::IRQ_SCREEN_DRAW, maikor_platform::mem::interrupt_flags::IRQ_SCREEN_DRAW);
    assert_eq!(maikor_vm_core::mem::interrupt_flags::IRQ_TIMER, maikor_platform::mem::interrupt_flags::IRQ_TIMER);
    assert_eq!(maikor_vm_core::mem::interrupt_flags::IRQ_DATETIME, maikor_platform::mem::interrupt_flags::IRQ_DATETIME);
    assert_eq!(maikor_vm_core::mem::interrupt_flags::IRQ_CONTROLLER, maikor_platform::mem::interrupt_flags::IRQ_CONTROLLER);
    assert_eq!(maikor_vm_core::mem::interrupt_flags::IRQ_INPUT, maikor_platform::mem::interrupt_flags::IRQ_INPUT);
    assert_eq!(maikor_vm_core::mem::interrupt_flags::IRQ_LINE_DRAW, maikor_platform::mem::interrupt_flags::IRQ_LINE_DRAW);
}

#[test]
fn sizes_are_those_of_the_platform() {
    assert_eq!(maikor_vm_core::mem::sizes::MAIN_CODE, maikor_platform::mem::sizes::MAIN_CODE as usize);
    assert_eq!(maikor_vm_core::mem::sizes::MAIN_RAM, maikor_platform::mem::sizes::MAIN_RAM as usize);
    assert_eq!(maikor_vm_core::mem::sizes::CODE_BANK, maikor_platform::mem::sizes::CODE_BANK as usize);
    assert_eq!(maikor_vm_core::mem::sizes::RAM_BANK, maikor_platform::mem::sizes::RAM_BANK as usize);
    assert_eq!(maikor_vm_core::mem::sizes::SOUND, maikor_platform::mem::sizes::SOUND as usize);
    assert_eq!(maikor_vm_core::mem::sizes::WAVE_TABLE, maikor_platform::mem::sizes::WAVE_TABLE as usize);
    assert_eq!(maikor_vm_core::mem::sizes::INPUT, maikor_platform::mem::sizes::INPUT as usize);
    assert_eq!(maikor_vm_core::mem::sizes::SAVE_BANK, maikor_platform::mem::sizes::SAVE_BANK as usize);
    assert_eq!(maikor_vm_core::mem::sizes::ATLAS, maikor_platform::mem::sizes::ATLAS as usize);
    assert_eq!(maikor_vm_core::mem::sizes::STACK, maikor_platform::mem::sizes::STACK as usize);
    assert_eq!(maikor_vm_core::mem::sizes::SP, maikor_platform::mem::sizes::SP as usize);
    assert_eq!(maikor_vm_core::mem::sizes::FP, maikor_platform::mem::sizes::FP as usize);
    assert_eq!(maikor_vm_core::mem::sizes::IRQ_RET_ADDR, maikor_platform::mem::sizes::IRQ_RET_ADDR as usize);
    assert_eq!(maikor_vm_core::mem::sizes::IRQ_CONTROL, maikor_platform::mem::sizes::IRQ_CONTROL as usize);
    assert_eq!(maikor_vm_core::mem::sizes::RESERVED, maikor_platform::mem::sizes::RESERVED as usize);
    assert_eq!(maikor_vm_core::mem::sizes::TOTAL, maikor_platform::mem::sizes::TOTAL as usize);
    assert_eq!(maikor_vm_core::mem::SAVE_COUNT, maikor_platform::constants::SAVE_COUNT);
}

#[test]
fn opcodes_are_those_of_the_platform() {
    assert_eq!(ops::NOP, maikor_platform::ops::NOP);
    assert_eq!(ops::HALT, maikor_platform::ops::HALT);
    assert_eq!(ops::CALL_ADDR, maikor_platform::ops::CALL_ADDR);
    assert_eq!(ops::CALL_REG, maikor_platform::ops::CALL_REG);
    assert_eq!(ops::RET, maikor_platform::ops::RET);
    assert_eq!(ops::RETI, maikor_platform::ops::RETI);
    assert_eq!(ops::SWAP_REG_REG_BYTE, maikor_platform::ops::SWAP_REG_REG_BYTE);
    assert_eq!(ops::SWAP_REG_REG_WORD, maikor_platform::ops::SWAP_REG_REG_WORD);
    assert_eq!(ops::MEM_CPY_ADDR_ADDR_BYTE, maikor_platform::ops::MEM_CPY_ADDR_ADDR_BYTE);
    assert_eq!(ops::MEM_CPY_ADDR_REG_BYTE, maikor_platform::ops::MEM_CPY_ADDR_REG_BYTE);
    assert_eq!(ops::MEM_CPY_REG_ADDR_BYTE, maikor_platform::ops::MEM_CPY_REG_ADDR_BYTE);
    assert_eq!(ops::MEM_CPY_REG_REG_BYTE, maikor_platform::ops::MEM_CPY_REG_REG_BYTE);
    assert_eq!(ops::MEM_CPY_ADDR_ADDR_REG, maikor_platform::ops::MEM_CPY_ADDR_ADDR_REG);
    assert_eq!(ops::MEM_CPY_ADDR_REG_REG, maikor_platform::ops::MEM_CPY_ADDR_REG_REG);
    assert_eq!(ops::MEM_CPY_REG_ADDR_REG, maikor_platform::ops::MEM_CPY_REG_ADDR_REG);
    assert_eq!(ops::MEM_CPY_REG_REG_REG, maikor_platform::ops::MEM_CPY_REG_REG_REG);
    assert_eq!(ops::CPY_REG_REG_BYTE, maikor_platform::ops::CPY_REG_REG_BYTE);
    assert_eq!(ops::CPY_REG_REG_WORD, maikor_platform::ops::CPY_REG_REG_WORD);
    assert_eq!(ops::CPY_ADDR_REG_BYTE, maikor_platform::ops::CPY_ADDR_REG_BYTE);
    assert_eq!(ops::CPY_ADDR_REG_WORD, maikor_platform::ops::CPY_ADDR_REG_WORD);
    assert_eq!(ops::CPY_REG_ADDR_BYTE, maikor_platform::ops::CPY_REG_ADDR_BYTE);
    assert_eq!(ops::CPY_REG_ADDR_WORD, maikor_platform::ops::CPY_REG_ADDR_WORD);
    assert_eq!(ops::CPY_ADDR_ADDR_BYTE, maikor_platform::ops::CPY_ADDR_ADDR_BYTE);
    assert_eq!(ops::CPY_ADDR_ADDR_WORD, maikor_platform::ops::CPY_ADDR_ADDR_WORD);
    assert_eq!(ops::CPY_REG_NUM_BYTE, maikor_platform::ops::CPY_REG_NUM_BYTE);
    assert_eq!(ops::CPY_REG_NUM_WORD, maikor_platform::ops::CPY_REG_NUM_WORD);
    assert_eq!(ops::CPY_ADDR_NUM_BYTE, maikor_platform::ops::CPY_ADDR_NUM_BYTE);
    assert_eq!(ops::CPY_ADDR_NUM_WORD, maikor_platform::ops::CPY_ADDR_NUM_WORD);
    assert_eq!(ops::CMP_REG_ADDR_BYTE, maikor_platform::ops::CMP_REG_ADDR_BYTE);
    assert_eq!(ops::CMP_REG_ADDR_WORD, maikor_platform::ops::CMP_REG_ADDR_WORD);
    assert_eq!(ops::CMPS_REG_ADDR_BYTE, maikor_platform::ops::CMPS_REG_ADDR_BYTE);
    assert_eq!(ops::CMPS_REG_ADDR_WORD, maikor_platform::ops::CMPS_REG_ADDR_WORD);
    assert_eq!(ops::ADD_REG_REG_BYTE, maikor_platform::ops::ADD_REG_REG_BYTE);
    assert_eq!(ops::ADD_REG_REG_WORD, maikor_platform::ops::ADD_REG_REG_WORD);
    assert_eq!(ops::ADD_REG_NUM_BYTE, maikor_platform::ops::ADD_REG_NUM_BYTE);
    assert_eq!(ops::ADD_REG_NUM_WORD, maikor_platform::ops::ADD_REG_NUM_WORD);
    assert_eq!(ops::ADD_REG_ADDR_BYTE, maikor_platform::ops::ADD_REG_ADDR_BYTE);
    assert_eq!(ops::ADD_REG_ADDR_WORD, maikor_platform::ops::ADD_REG_ADDR_WORD);
    assert_eq!(ops::ADD_ADDR_REG_BYTE, maikor_platform::ops::ADD_ADDR_REG_BYTE);
    assert_eq!(ops::ADD_ADDR_REG_WORD, maikor_platform::ops::ADD_ADDR_REG_WORD);
    assert_eq!(ops::ADD_ADDR_NUM_BYTE, maikor_platform::ops::ADD_ADDR_NUM_BYTE);
    assert_eq!(ops::ADD_ADDR_NUM_WORD, maikor_platform::ops::ADD_ADDR_NUM_WORD);
    assert_eq!(ops::ADD_ADDR_ADDR_BYTE, maikor_platform::ops::ADD_ADDR_ADDR_BYTE);
    assert_eq!(ops::ADD_ADDR_ADDR_WORD, maikor_platform::ops::ADD_ADDR_ADDR_WORD);
    assert_eq!(ops::INC_REG_BYTE, maikor_platform::ops::INC_REG_BYTE);
    assert_eq!(ops::INC_REG_WORD, maikor_platform::ops::INC_REG_WORD);
    assert_eq!(ops::INC_ADDR_BYTE, maikor_platform::ops::INC_ADDR_BYTE);
    assert_eq!(ops::INC_ADDR_WORD, maikor_platform::ops::INC_ADDR_WORD);
    assert_eq!(ops::SUB_REG_REG_BYTE, maikor_platform::ops::SUB_REG_REG_BYTE);
    assert_eq!(ops::SUB_REG_REG_WORD, maikor_platform::ops::SUB_REG_REG_WORD);
    assert_eq!(ops::SUB_REG_NUM_BYTE, maikor_platform::ops::SUB_REG_NUM_BYTE);
    assert_eq!(ops::SUB_REG_NUM_WORD, maikor_platform::ops::SUB_REG_NUM_WORD);
    assert_eq!(ops::SUB_REG_ADDR_BYTE, maikor_platform::ops::SUB_REG_ADDR_BYTE);
    assert_eq!(ops::SUB_REG_ADDR_WORD, maikor_platform::ops::SUB_REG_ADDR_WORD);
    assert_eq!(ops::SUB_ADDR_REG_BYTE, maikor_platform::ops::SUB_ADDR_REG_BYTE);
    assert_eq!(ops::SUB_ADDR_REG_WORD, maikor_platform::ops::SUB_ADDR_REG_WORD);
    assert_eq!(ops::SUB_ADDR_NUM_BYTE, maikor_platform::ops::SUB_ADDR_NUM_BYTE);
    assert_eq!(ops::SUB_ADDR_NUM_WORD, maikor_platform::ops::SUB_ADDR_NUM_WORD);
    assert_eq!(ops::SUB_ADDR_ADDR_BYTE, maikor_platform::ops::SUB_ADDR_ADDR_BYTE);
    assert_eq!(ops::SUB_ADDR_ADDR_WORD, maikor_platform::ops::SUB_ADDR_ADDR_WORD);
    assert_eq!(ops::DEC_REG_BYTE, maikor_platform::ops::DEC_REG_BYTE);
    assert_eq!(ops::DEC_REG_WORD, maikor_platform::ops::DEC_REG_WORD);
    assert_eq!(ops::DEC_ADDR_BYTE, maikor_platform::ops::DEC_ADDR_BYTE);
    assert_eq!(ops::DEC_ADDR_WORD, maikor_platform::ops::DEC_ADDR_WORD);
    assert_eq!(ops::NOT_REG_BYTE, maikor_platform::ops::NOT_REG_BYTE);
    assert_eq!(ops::NOT_REG_WORD, maikor_platform::ops::NOT_REG_WORD);
    assert_eq!(ops::OR_REG_REG_BYTE, maikor_platform::ops::OR_REG_REG_BYTE);
    assert_eq!(ops::OR_REG_REG_WORD, maikor_platform::ops::OR_REG_REG_WORD);
    assert_eq!(ops::OR_REG_NUM_BYTE, maikor_platform::ops::OR_REG_NUM_BYTE);
    assert_eq!(ops::OR_REG_NUM_WORD, maikor_platform::ops::OR_REG_NUM_WORD);
    assert_eq!(ops::XOR_REG_REG_BYTE, maikor_platform::ops::XOR_REG_REG_BYTE);
    assert_eq!(ops::XOR_REG_REG_WORD, maikor_platform::ops::XOR_REG_REG_WORD);
    assert_eq!(ops::XOR_REG_NUM_BYTE, maikor_platform::ops::XOR_REG_NUM_BYTE);
    assert_eq!(ops::XOR_REG_NUM_WORD, maikor_platform::ops::XOR_REG_NUM_WORD);
    assert_eq!(ops::AND_REG_REG_BYTE, maikor_platform::ops::AND_REG_REG_BYTE);
    assert_eq!(ops::AND_REG_REG_WORD, maikor_platform::ops::AND_REG_REG_WORD);
    assert_eq!(ops::AND_REG_NUM_BYTE, maikor_platform::ops::AND_REG_NUM_BYTE);
    assert_eq!(ops::AND_REG_NUM_WORD, maikor_platform::ops::AND_REG_NUM_WORD);
    assert_eq!(ops::JRF_BYTE, maikor_platform::ops::JRF_BYTE);
    assert_eq!(ops::JRB_BYTE, maikor_platform::ops::JRB_BYTE);
    assert_eq!(ops::ASL_REG_NUM_BYTE, maikor_platform::ops::ASL_REG_NUM_BYTE);
    assert_eq!(ops::ASL_REG_NUM_WORD, maikor_platform::ops::ASL_REG_NUM_WORD);
    assert_eq!(ops::ASL_REG_REG_BYTE, maikor_platform::ops::ASL_REG_REG_BYTE);
    assert_eq!(ops::ASL_REG_REG_WORD, maikor_platform::ops::ASL_REG_REG_WORD);
    assert_eq!(ops::ASL_ADDR_BYTE, maikor_platform::ops::ASL_ADDR_BYTE);
    assert_eq!(ops::ASL_ADDR_WORD, maikor_platform::ops::ASL_ADDR_WORD);
    assert_eq!(ops::ASR_REG_NUM_BYTE, maikor_platform::ops::ASR_REG_NUM_BYTE);
    assert_eq!(ops::ASR_REG_NUM_WORD, maikor_platform::ops::ASR_REG_NUM_WORD);
    assert_eq!(ops::ASR_REG_REG_BYTE, maikor_platform::ops::ASR_REG_REG_BYTE);
    assert_eq!(ops::ASR_REG_REG_WORD, maikor_platform::ops::ASR_REG_REG_WORD);
    assert_eq!(ops::ASR_ADDR_BYTE, maikor_platform::ops::ASR_ADDR_BYTE);
    assert_eq!(ops::ASR_ADDR_WORD, maikor_platform::ops::ASR_ADDR_WORD);
    assert_eq!(ops::LSR_REG_NUM_BYTE, maikor_platform::ops::LSR_REG_NUM_BYTE);
    assert_eq!(ops::LSR_REG_NUM_WORD, maikor_platform::ops::LSR_REG_NUM_WORD);
    assert_eq!(ops::LSR_REG_REG_BYTE, maikor_platform::ops::LSR_REG_REG_BYTE);
    assert_eq!(ops::LSR_REG_REG_WORD, maikor_platform::ops::LSR_REG_REG_WORD);
    assert_eq!(ops::LSR_ADDR_BYTE, maikor_platform::ops::LSR_ADDR_BYTE);
    assert_eq!(ops::LSR_ADDR_WORD, maikor_platform::ops::LSR_ADDR_WORD);
    assert_eq!(ops::ROL_REG_NUM_BYTE, maikor_platform::ops::ROL_REG_NUM_BYTE);
    assert_eq!(ops::ROL_REG_NUM_WORD, maikor_platform::ops::ROL_REG_NUM_WORD);
    assert_eq!(ops::ROL_REG_REG_BYTE, maikor_platform::ops::ROL_REG_REG_BYTE);
    assert_eq!(ops::ROL_REG_REG_WORD, maikor_platform::ops::ROL_REG_REG_WORD);
    assert_eq!(ops::ROL_ADDR_BYTE, maikor_platform::ops::ROL_ADDR_BYTE);
    assert_eq!(ops::ROL_ADDR_WORD, maikor_platform::ops::ROL_ADDR_WORD);
    assert_eq!(ops::ROR_REG_NUM_BYTE, maikor_platform::ops::ROR_REG_NUM_BYTE);
    assert_eq!(ops::ROR_REG_NUM_WORD, maikor_platform::ops::ROR_REG_NUM_WORD);
    assert_eq!(ops::ROR_REG_REG_BYTE, maikor_platform::ops::ROR_REG_REG_BYTE);
    assert_eq!(ops::ROR_REG_REG_WORD, maikor_platform::ops::ROR_REG_REG_WORD);
    assert_eq!(ops::ROR_ADDR_BYTE, maikor_platform::ops::ROR_ADDR_BYTE);
    assert_eq!(ops::ROR_ADDR_WORD, maikor_platform::ops::ROR_ADDR_WORD);
    assert_eq!(ops::PUSH_REG_BYTE, maikor_platform::ops::PUSH_REG_BYTE);
    assert_eq!(ops::PUSH_REG_WORD, maikor_platform::ops::PUSH_REG_WORD);
    assert_eq!(ops::PUSH_NUM_BYTE, maikor_platform::ops::PUSH_NUM_BYTE);
    assert_eq!(ops::PUSH_NUM_WORD, maikor_platform::ops::PUSH_NUM_WORD);
    assert_eq!(ops::POP_REG_BYTE, maikor_platform::ops::POP_REG_BYTE);
    assert_eq!(ops::POP_REG_WORD, maikor_platform::ops::POP_REG_WORD);
    assert_eq!(ops::MSWP_REG_REG_REG, maikor_platform::ops::MSWP_REG_REG_REG);
    assert_eq!(ops::MSWP_REG_REG_BYTE, maikor_platform::ops::MSWP_REG_REG_BYTE);
    assert_eq!(ops::MSWP_REG_ADDR_REG, maikor_platform::ops::MSWP_REG_ADDR_REG);
    assert_eq!(ops::MSWP_REG_ADDR_BYTE, maikor_platform::ops::MSWP_REG_ADDR_BYTE);
    assert_eq!(ops::MSWP_ADDR_REG_REG, maikor_platform::ops::MSWP_ADDR_REG_REG);
    assert_eq!(ops::MSWP_ADDR_REG_BYTE, maikor_platform::ops::MSWP_ADDR_REG_BYTE);
    assert_eq!(ops::MSWP_ADDR_ADDR_BYTE, maikor_platform::ops::MSWP_ADDR_ADDR_BYTE);
    assert_eq!(ops::MSWP_ADDR_ADDR_REG, maikor_platform::ops::MSWP_ADDR_ADDR_REG);
    assert_eq!(ops::MUL_REG_REG_BYTE, maikor_platform::ops::MUL_REG_REG_BYTE);
    assert_eq!(ops::MUL_REG_REG_WORD, maikor_platform::ops::MUL_REG_REG_WORD);
    assert_eq!(ops::MUL_REG_NUM_BYTE, maikor_platform::ops::MUL_REG_NUM_BYTE);
    assert_eq!(ops::MUL_REG_NUM_WORD, maikor_platform::ops::MUL_REG_NUM_WORD);
    assert_eq!(ops::MUL_REG_ADDR_BYTE, maikor_platform::ops::MUL_REG_ADDR_BYTE);
    assert_eq!(ops::MUL_REG_ADDR_WORD, maikor_platform::ops::MUL_REG_ADDR_WORD);
    assert_eq!(ops::MUL_ADDR_REG_BYTE, maikor_platform::ops::MUL_ADDR_REG_BYTE);
    assert_eq!(ops::MUL_ADDR_REG_WORD, maikor_platform::ops::MUL_ADDR_REG_WORD);
    assert_eq!(ops::MUL_ADDR_NUM_BYTE, maikor_platform::ops::MUL_ADDR_NUM_BYTE);
    assert_eq!(ops::MUL_ADDR_NUM_WORD, maikor_platform::ops::MUL_ADDR_NUM_WORD);
    assert_eq!(ops::MUL_ADDR_ADDR_BYTE, maikor_platform::ops::MUL_ADDR_ADDR_BYTE);
    assert_eq!(ops::MUL_ADDR_ADDR_WORD, maikor_platform::ops::MUL_ADDR_ADDR_WORD);
    assert_eq!(ops::MULS_REG_REG_BYTE, maikor_platform::ops::MULS_REG_REG_BYTE);
    assert_eq!(ops::MULS_REG_REG_WORD, maikor_platform::ops::MULS_REG_REG_WORD);
    assert_eq!(ops::MULS_REG_NUM_BYTE, maikor_platform::ops::MULS_REG_NUM_BYTE);
    assert_eq!(ops::MULS_REG_NUM_WORD, maikor_platform::ops::MULS_REG_NUM_WORD);
    assert_eq!(ops::MULS_REG_ADDR_BYTE, maikor_platform::ops::MULS_REG_ADDR_BYTE);
    assert_eq!(ops::MULS_REG_ADDR_WORD, maikor_platform::ops::MULS_REG_ADDR_WORD);
    assert_eq!(ops::MULS_ADDR_REG_BYTE, maikor_platform::ops::MULS_ADDR_REG_BYTE);
    assert_eq!(ops::MULS_ADDR_REG_WORD, maikor_platform::ops::MULS_ADDR_REG_WORD);
    assert_eq!(ops::MULS_ADDR_NUM_BYTE, maikor_platform::ops::MULS_ADDR_NUM_BYTE);
    assert_eq!(ops::MULS_ADDR_NUM_WORD, maikor_platform::ops::MULS_ADDR_NUM_WORD);
    assert_eq!(ops::MULS_ADDR_ADDR_BYTE, maikor_platform::ops::MULS_ADDR_ADDR_BYTE);
    assert_eq!(ops::MULS_ADDR_ADDR_WORD, maikor_platform::ops::MULS_ADDR_ADDR_WORD);
    assert_eq!(ops::DIV_REG_REG_BYTE, maikor_platform::ops::DIV_REG_REG_BYTE);
    assert_eq!(ops::DIV_REG_REG_WORD, maikor_platform::ops::DIV_REG_REG_WORD);
    assert_eq!(ops::DIV_REG_NUM_BYTE, maikor_platform::ops::DIV_REG_NUM_BYTE);
    assert_eq!(ops::DIV_REG_NUM_WORD, maikor_platform::ops::DIV_REG_NUM_WORD);
    assert_eq!(ops::DIV_REG_ADDR_BYTE, maikor_platform::ops::DIV_REG_ADDR_BYTE);
    assert_eq!(ops::DIV_REG_ADDR_WORD, maikor_platform::ops::DIV_REG_ADDR_WORD);
    assert_eq!(ops::DIV_ADDR_REG_BYTE, maikor_platform::ops::DIV_ADDR_REG_BYTE);
    assert_eq!(ops::DIV_ADDR_REG_WORD, maikor_platform::ops::DIV_ADDR_REG_WORD);
    assert_eq!(ops::DIV_ADDR_NUM_BYTE, maikor_platform::ops::DIV_ADDR_NUM_BYTE);
    assert_eq!(ops::DIV_ADDR_NUM_WORD, maikor_platform::ops::DIV_ADDR_NUM_WORD);
    assert_eq!(ops::DIV_ADDR_ADDR_BYTE, maikor_platform::ops::DIV_ADDR_ADDR_BYTE);
    assert_eq!(ops::DIV_ADDR_ADDR_WORD, maikor_platform::ops::DIV_ADDR_ADDR_WORD);
    assert_eq!(ops::DIVS_REG_REG_BYTE, maikor_platform::ops::DIVS_REG_REG_BYTE);
    assert_eq!(ops::DIVS_REG_REG_WORD, maikor_platform::ops::DIVS_REG_REG_WORD);
    assert_eq!(ops::DIVS_REG_NUM_BYTE, maikor_platform::ops::DIVS_REG_NUM_BYTE);
    assert_eq!(ops::DIVS_REG_NUM_WORD, maikor_platform::ops::DIVS_REG_NUM_WORD);
    assert_eq!(ops::DIVS_REG_ADDR_BYTE, maikor_platform::ops::DIVS_REG_ADDR_BYTE);
    assert_eq!(ops::DIVS_REG_ADDR_WORD, maikor_platform::ops::DIVS_REG_ADDR_WORD);
    assert_eq!(ops::DIVS_ADDR_REG_BYTE, maikor_platform::ops::DIVS_ADDR_REG_BYTE);
    assert_eq!(ops::DIVS_ADDR_REG_WORD, maikor_platform::ops::DIVS_ADDR_REG_WORD);
    assert_eq!(ops::DIVS_ADDR_NUM_BYTE, maikor_platform::ops::DIVS_ADDR_NUM_BYTE);
    assert_eq!(ops::DIVS_ADDR_NUM_WORD, maikor_platform::ops::DIVS_ADDR_NUM_WORD);
    assert_eq!(ops::DIVS_ADDR_ADDR_BYTE, maikor_platform::ops::DIVS_ADDR_ADDR_BYTE);
    assert_eq!(ops::DIVS_ADDR_ADDR_WORD, maikor_platform::ops::DIVS_ADDR_ADDR_WORD);
    assert_eq!(ops::JMP_ADDR, maikor_platform::ops::JMP_ADDR);
    assert_eq!(ops::JMP_REG, maikor_platform::ops::JMP_REG);
    assert_eq!(ops::JE_ADDR, maikor_platform::ops::JE_ADDR);
    assert_eq!(ops::JE_REG, maikor_platform::ops::JE_REG);
    assert_eq!(ops::JNE_ADDR, maikor_platform::ops::JNE_ADDR);
    assert_eq!(ops::JNE_REG, maikor_platform::ops::JNE_REG);
    assert_eq!(ops::JL_ADDR, maikor_platform::ops::JL_ADDR);
    assert_eq!(ops::JL_REG, maikor_platform::ops::JL_REG);
    assert_eq!(ops::JG_ADDR, maikor_platform::ops::JG_ADDR);
    assert_eq!(ops::JG_REG, maikor_platform::ops::JG_REG);
    assert_eq!(ops::JLE_ADDR, maikor_platform::ops::JLE_ADDR);
    assert_eq!(ops::JLE_REG, maikor_platform::ops::JLE_REG);
    assert_eq!(ops::JGE_ADDR, maikor_platform::ops::JGE_ADDR);
    assert_eq!(ops::JGE_REG, maikor_platform::ops::JGE_REG);
    assert_eq!(ops::CMP_REG_NUM_BYTE, maikor_platform::ops::CMP_REG_NUM_BYTE);
    assert_eq!(ops::CMP_REG_NUM_WORD, maikor_platform::ops::CMP_REG_NUM_WORD);
    assert_eq!(ops::CMP_REG_REG_BYTE, maikor_platform::ops::CMP_REG_REG_BYTE);
    assert_eq!(ops::CMP_REG_REG_WORD, maikor_platform::ops::CMP_REG_REG_WORD);
    assert_eq!(ops::CMPS_REG_NUM_BYTE, maikor_platform::ops::CMPS_REG_NUM_BYTE);
    assert_eq!(ops::CMPS_REG_NUM_WORD, maikor_platform::ops::CMPS_REG_NUM_WORD);
    assert_eq!(ops::CMPS_REG_REG_BYTE, maikor_platform::ops::CMPS_REG_REG_BYTE);
    assert_eq!(ops::CMPS_REG_REG_WORD, maikor_platform::ops::CMPS_REG_REG_WORD);
    assert_eq!(ops::JBC_REG_REG, maikor_platform::ops::JBC_REG_REG);
    assert_eq!(ops::JBS_REG_REG, maikor_platform::ops::JBS_REG_REG);
    assert_eq!(ops::JBC_ADDR_REG, maikor_platform::ops::JBC_ADDR_REG);
    assert_eq!(ops::JBS_ADDR_REG, maikor_platform::ops::JBS_ADDR_REG);
    assert_eq!(ops::JBC_REG_NUM, maikor_platform::ops::JBC_REG_NUM);
    assert_eq!(ops::JBS_REG_NUM, maikor_platform::ops::JBS_REG_NUM);
    assert_eq!(ops::JBC_ADDR_NUM, maikor_platform::ops::JBC_ADDR_NUM);
    assert_eq!(ops::JBS_ADDR_NUM, maikor_platform::ops::JBS_ADDR_NUM);
    assert_eq!(ops::RCL_REG_NUM_BYTE, maikor_platform::ops::RCL_REG_NUM_BYTE);
    assert_eq!(ops::RCL_REG_NUM_WORD, maikor_platform::ops::RCL_REG_NUM_WORD);
    assert_eq!(ops::RCL_REG_REG_BYTE, maikor_platform::ops::RCL_REG_REG_BYTE);
    assert_eq!(ops::RCL_REG_REG_WORD, maikor_platform::ops::RCL_REG_REG_WORD);
    assert_eq!(ops::RCL_ADDR_BYTE, maikor_platform::ops::RCL_ADDR_BYTE);
    assert_eq!(ops::RCL_ADDR_WORD, maikor_platform::ops::RCL_ADDR_WORD);
    assert_eq!(ops::RCR_REG_NUM_BYTE, maikor_platform::ops::RCR_REG_NUM_BYTE);
    assert_eq!(ops::RCR_REG_NUM_WORD, maikor_platform::ops::RCR_REG_NUM_WORD);
    assert_eq!(ops::RCR_REG_REG_BYTE, maikor_platform::ops::RCR_REG_REG_BYTE);
    assert_eq!(ops::RCR_REG_REG_WORD, maikor_platform::ops::RCR_REG_REG_WORD);
    assert_eq!(ops::RCR_ADDR_BYTE, maikor_platform::ops::RCR_ADDR_BYTE);
    assert_eq!(ops::RCR_ADDR_WORD, maikor_platform::ops::RCR_ADDR_WORD);
    assert_eq!(ops::ADDC_REG_REG_BYTE, maikor_platform::ops::ADDC_REG_REG_BYTE);
    assert_eq!(ops::ADDC_REG_REG_WORD, maikor_platform::ops::ADDC_REG_REG_WORD);
    assert_eq!(ops::ADDC_REG_NUM_BYTE, maikor_platform::ops::ADDC_REG_NUM_BYTE);
    assert_eq!(ops::ADDC_REG_NUM_WORD, maikor_platform::ops::ADDC_REG_NUM_WORD);
    assert_eq!(ops::ADDC_REG_ADDR_BYTE, maikor_platform::ops::ADDC_REG_ADDR_BYTE);
    assert_eq!(ops::ADDC_REG_ADDR_WORD, maikor_platform::ops::ADDC_REG_ADDR_WORD);
    assert_eq!(ops::ADDC_ADDR_REG_BYTE, maikor_platform::ops::ADDC_ADDR_REG_BYTE);
    assert_eq!(ops::ADDC_ADDR_REG_WORD, maikor_platform::ops::ADDC_ADDR_REG_WORD);
    assert_eq!(ops::ADDC_ADDR_NUM_BYTE, maikor_platform::ops::ADDC_ADDR_NUM_BYTE);
    assert_eq!(ops::ADDC_ADDR_NUM_WORD, maikor_platform::ops::ADDC_ADDR_NUM_WORD);
    assert_eq!(ops::ADDC_ADDR_ADDR_BYTE, maikor_platform::ops::ADDC_ADDR_ADDR_BYTE);
    assert_eq!(ops::ADDC_ADDR_ADDR_WORD, maikor_platform::ops::ADDC_ADDR_ADDR_WORD);
    assert_eq!(ops::SUBC_REG_REG_BYTE, maikor_platform::ops::SUBC_REG_REG_BYTE);
    assert_eq!(ops::SUBC_REG_REG_WORD, maikor_platform::ops::SUBC_REG_REG_WORD);
    assert_eq!(ops::SUBC_REG_NUM_BYTE, maikor_platform::ops::SUBC_REG_NUM_BYTE);
    assert_eq!(ops::SUBC_REG_NUM_WORD, maikor_platform::ops::SUBC_REG_NUM_WORD);
    assert_eq!(ops::SUBC_REG_ADDR_BYTE, maikor_platform::ops::SUBC_REG_ADDR_BYTE);
    assert_eq!(ops::SUBC_REG_ADDR_WORD, maikor_platform::ops::SUBC_REG_ADDR_WORD);
    assert_eq!(ops::SUBC_ADDR_REG_BYTE, maikor_platform::ops::SUBC_ADDR_REG_BYTE);
    assert_eq!(ops::SUBC_ADDR_REG_WORD, maikor_platform::ops::SUBC_ADDR_REG_WORD);
    assert_eq!(ops::SUBC_ADDR_NUM_BYTE, maikor_platform::ops::SUBC_ADDR_NUM_BYTE);
    assert_eq!(ops::SUBC_ADDR_NUM_WORD, maikor_platform::ops::SUBC_ADDR_NUM_WORD);
    assert_eq!(ops::SUBC_ADDR_ADDR_BYTE, maikor_platform::ops::SUBC_ADDR_ADDR_BYTE);
    assert_eq!(ops::SUBC_ADDR_ADDR_WORD, maikor_platform::ops::SUBC_ADDR_ADDR_WORD);
    assert_eq!(ops::BMUL_ADDR_ADDR, maikor_platform::ops::BMUL_ADDR_ADDR);
    assert_eq!(ops::BMUL_ADDR_NUM, maikor_platform::ops::BMUL_ADDR_NUM);
    assert_eq!(ops::BMUL_ADDR_REG, maikor_platform::ops::BMUL_ADDR_REG);
    assert_eq!(ops::BMUL_REG_ADDR, maikor_platform::ops::BMUL_REG_ADDR);
    assert_eq!(ops::BMUL_REG_NUM, maikor_platform::ops::BMUL_REG_NUM);
    assert_eq!(ops::BMUL_REG_REG, maikor_platform::ops::BMUL_REG_REG);
    assert_eq!(ops::EHALT, maikor_platform::ops::EHALT);
    assert_eq!(ops::SLEEP, maikor_platform::ops::SLEEP);
    assert_eq!(ops::ALL, maikor_platform::ops::ALL);
    for op in 0..=255u8 {
        let executed = ops::ALL.contains(&op)
            && !matches!(
                op,
                maikor_platform::ops::SLEEP
                    | maikor_platform::ops::BMUL_ADDR_ADDR
                    | maikor_platform::ops::BMUL_ADDR_NUM
                    | maikor_platform::ops::BMUL_ADDR_REG
                    | maikor_platform::ops::BMUL_REG_ADDR
                    | maikor_platform::ops::BMUL_REG_NUM
                    | maikor_platform::ops::BMUL_REG_REG
            );
        assert_eq!(maikor_vm_core::execute::decode(op).is_some(), executed, "{op:02X}");
    }
}

#[test]
fn operand_encodings_are_those_of_the_platform() {
    assert_eq!(maikor_vm_core::constants::op_params::MASK, maikor_platform::op_params::MASK);
    assert_eq!(maikor_vm_core::constants::op_params::REGISTER, maikor_platform::op_params::REGISTER);
    assert_eq!(maikor_vm_core::constants::op_params::POST_INC, maikor_platform::op_params::POST_INC);
    assert_eq!(maikor_vm_core::constants::op_params::POST_DEC, maikor_platform::op_params::POST_DEC);
    assert_eq!(maikor_vm_core::constants::op_params::PRE_INC, maikor_platform::op_params::PRE_INC);
    assert_eq!(maikor_vm_core::constants::op_params::PRE_DEC, maikor_platform::op_params::PRE_DEC);
    assert_eq!(maikor_vm_core::constants::op_params::INDIRECT, maikor_platform::op_params::INDIRECT);
    assert_eq!(maikor_vm_core::constants::op_params::IND_OFFSET_REG, maikor_platform::op_params::IND_OFFSET_REG);
    assert_eq!(maikor_vm_core::constants::op_params::IND_OFFSET_EXT_REG, maikor_platform::op_params::IND_OFFSET_EXT_REG);
    assert_eq!(maikor_vm_core::constants::op_params::IND_OFFSET_NUM, maikor_platform::op_params::IND_OFFSET_NUM);
    assert_eq!(maikor_vm_core::constants::op_params::IND_POST_INC, maikor_platform::op_params::IND_POST_INC);
    assert_eq!(maikor_vm_core::constants::op_params::IND_POST_DEC, maikor_platform::op_params::IND_POST_DEC);
    assert_eq!(maikor_vm_core::constants::op_params::IND_PRE_INC, maikor_platform::op_params::IND_PRE_INC);
    assert_eq!(maikor_vm_core::constants::op_params::IND_PRE_DEC, maikor_platform::op_params::IND_PRE_DEC);
}

#[test]
fn registers_are_those_of_the_platform() {
    assert_eq!(maikor_vm_core::constants::registers::id::AH, maikor_platform::registers::id::AH);
    assert_eq!(maikor_vm_core::constants::registers::id::AL, maikor_platform::registers::id::AL);
    assert_eq!(maikor_vm_core::constants::registers::id::BH, maikor_platform::registers::id::BH);
    assert_eq!(maikor_vm_core::constants::registers::id::BL, maikor_platform::registers::id::BL);
    assert_eq!(maikor_vm_core::constants::registers::id::CH, maikor_platform::registers::id::CH);
    assert_eq!(maikor_vm_core::constants::registers::id::CL, maikor_platform::registers::id::CL);
    assert_eq!(maikor_vm_core::constants::registers::id::DH, maikor_platform::registers::id::DH);
    assert_eq!(maikor_vm_core::constants::registers::id::DL, maikor_platform::registers::id::DL);
    assert_eq!(maikor_vm_core::constants::registers::id::FLAGS, maikor_platform::registers::id::FLAGS);
    assert_eq!(maikor_vm_core::constants::registers::id::AX, maikor_platform::registers::id::AX);
    assert_eq!(maikor_vm_core::constants::registers::id::BX, maikor_platform::registers::id::BX);
    assert_eq!(maikor_vm_core::constants::registers::id::CX, maikor_platform::registers::id::CX);
    assert_eq!(maikor_vm_core::constants::registers::id::DX, maikor_platform::registers::id::DX);
    assert_eq!(maikor_vm_core::constants::registers::flags::CARRY, maikor_platform::registers::flags::CARRY);
    assert_eq!(maikor_vm_core::constants::registers::flags::ZERO, maikor_platform::registers::flags::ZERO);
    assert_eq!(maikor_vm_core::constants::registers::flags::SIGNED, maikor_platform::registers::flags::SIGNED);
    assert_eq!(maikor_vm_core::constants::registers::flags::OVERFLOW, maikor_platform::registers::flags::OVERFLOW);
    assert_eq!(maikor_vm_core::constants::registers::flags::LESS_THAN, maikor_platform::registers::flags::LESS_THAN);
    assert_eq!(maikor_vm_core::constants::registers::flags::GREATER_THAN, maikor_platform::registers::flags::GREATER_THAN);
    assert_eq!(maikor_vm_core::constants::registers::flags::INTERRUPTS, maikor_platform::registers::flags::INTERRUPTS);
    assert_eq!(maikor_vm_core::constants::registers::SIZE, maikor_platform::registers::SIZE);
    assert_eq!(maikor_vm_core::constants::registers::FLG_DEFAULT, maikor_platform::registers::FLG_DEFAULT);
    for value in 0..=255u8 {
        let name = maikor_vm_core::constants::registers::id::name(value);
        match maikor_platform::registers::id::to_name(value) {
            Ok(expected) => assert_eq!(name, expected),
            Err(_) => assert_eq!(name, "?"),
        }
        assert_eq!(
            maikor_vm_core::constants::registers::id::size(value),
            maikor_platform::registers::id::size(value)
        );
    }
}

#[test]
fn byte_counts_follow_the_operand_forms() {
    assert_eq!(ops::get_byte_count(ops::NOP), 0);
    assert_eq!(ops::get_byte_count(ops::HALT), 0);
    assert_eq!(ops::get_byte_count(ops::RET), 0);
    assert_eq!(ops::get_byte_count(ops::CALL_ADDR), 2);
    assert_eq!(ops::get_byte_count(ops::CALL_REG), 1);
    assert_eq!(ops::get_byte_count(ops::INC_REG_WORD), 1);
    assert_eq!(ops::get_byte_count(ops::CPY_REG_NUM_BYTE), 2);
    assert_eq!(ops::get_byte_count(ops::CPY_REG_NUM_WORD), 3);
    assert_eq!(ops::get_byte_count(ops::CPY_ADDR_NUM_WORD), 4);
    assert_eq!(ops::get_byte_count(ops::ADD_ADDR_ADDR_BYTE), 4);
    assert_eq!(ops::get_byte_count(ops::MEM_CPY_ADDR_ADDR_BYTE), 5);
    assert_eq!(ops::get_byte_count(ops::MSWP_REG_REG_REG), 3);
    assert_eq!(ops::get_byte_count(ops::JBS_ADDR_NUM), 3);
    assert_eq!(ops::get_byte_count(ops::JRF_BYTE), 1);
    assert_eq!(ops::get_byte_count(ops::RCL_REG_NUM_WORD), 3);
    assert_eq!(ops::get_byte_count(ops::ASL_ADDR_BYTE), 2);
    assert_eq!(ops::get_byte_count(0x6E), 0);
    assert_eq!(ops::get_byte_count(ops::SLEEP), 0);
}

#[test]
fn every_opcode_reads_as_many_operand_bytes_as_its_count() {
    for op in ops::ALL {
        let mut vm = maikor_vm_core::VM::new();
        vm.arg_ptr = maikor_platform::mem::address::RESERVED;
        let _ = vm.execute(op);
        assert_eq!(
            (vm.arg_ptr - maikor_platform::mem::address::RESERVED) as usize,
            ops::get_byte_count(op),
            "{op:02X}"
        );
    }
}

#[test]
fn opcodes_are_those_of_the_language_crate() {
    assert_eq!(ops::NOP, maikor_language::ops::NOP);
    assert_eq!(ops::HALT, maikor_language::ops::HALT);
    assert_eq!(ops::CALL_ADDR, maikor_language::ops::CALL_ADDR);
    assert_eq!(ops::CALL_REG, maikor_language::ops::CALL_REG);
    assert_eq!(ops::RET, maikor_language::ops::RET);
    assert_eq!(ops::RETI, maikor_language::ops::RETI);
    assert_eq!(ops::SWAP_REG_REG_BYTE, maikor_language::ops::SWAP_REG_REG_BYTE);
    assert_eq!(ops::SWAP_REG_REG_WORD, maikor_language::ops::SWAP_REG_REG_WORD);
    assert_eq!(ops::MEM_CPY_ADDR_ADDR_BYTE, maikor_language::ops::MEM_CPY_ADDR_ADDR_BYTE);
    assert_eq!(ops::MEM_CPY_ADDR_REG_BYTE, maikor_language::ops::MEM_CPY_ADDR_REG_BYTE);
    assert_eq!(ops::MEM_CPY_REG_ADDR_BYTE, maikor_language::ops::MEM_CPY_REG_ADDR_BYTE);
    assert_eq!(ops::MEM_CPY_REG_REG_BYTE, maikor_language::ops::MEM_CPY_REG_REG_BYTE);
    assert_eq!(ops::MEM_CPY_ADDR_ADDR_REG, maikor_language::ops::MEM_CPY_ADDR_ADDR_REG);
    assert_eq!(ops::MEM_CPY_ADDR_REG_REG, maikor_language::ops::MEM_CPY_ADDR_REG_REG);
    assert_eq!(ops::MEM_CPY_REG_ADDR_REG, maikor_language::ops::MEM_CPY_REG_ADDR_REG);
    assert_eq!(ops::MEM_CPY_REG_REG_REG, maikor_language::ops::MEM_CPY_REG_REG_REG);
    assert_eq!(ops::CPY_REG_REG_BYTE, maikor_language::ops::CPY_REG_REG_BYTE);
    assert_eq!(ops::CPY_REG_REG_WORD, maikor_language::ops::CPY_REG_REG_WORD);
    assert_eq!(ops::CPY_ADDR_REG_BYTE, maikor_language::ops::CPY_ADDR_REG_BYTE);
    assert_eq!(ops::CPY_ADDR_REG_WORD, maikor_language::ops::CPY_ADDR_REG_WORD);
    assert_eq!(ops::CPY_REG_ADDR_BYTE, maikor_language::ops::CPY_REG_ADDR_BYTE);
    assert_eq!(ops::CPY_REG_ADDR_WORD, maikor_language::ops::CPY_REG_ADDR_WORD);
    assert_eq!(ops::CPY_ADDR_ADDR_BYTE, maikor_language::ops::CPY_ADDR_ADDR_BYTE);
    assert_eq!(ops::CPY_ADDR_ADDR_WORD, maikor_language::ops::CPY_ADDR_ADDR_WORD);
    assert_eq!(ops::CPY_REG_NUM_BYTE, maikor_language::ops::CPY_REG_NUM_BYTE);
    assert_eq!(ops::CPY_REG_NUM_WORD, maikor_language::ops::CPY_REG_NUM_WORD);
    assert_eq!(ops::CPY_ADDR_NUM_BYTE, maikor_language::ops::CPY_ADDR_NUM_BYTE);
    assert_eq!(ops::CPY_ADDR_NUM_WORD, maikor_language::ops::CPY_ADDR_NUM_WORD);
    assert_eq!(ops::CMP_REG_ADDR_BYTE, maikor_language::ops::CMP_REG_ADDR_BYTE);
    assert_eq!(ops::CMP_REG_ADDR_WORD, maikor_language::ops::CMP_REG_ADDR_WORD);
    assert_eq!(ops::CMPS_REG_ADDR_BYTE, maikor_language::ops::CMPS_REG_ADDR_BYTE);
    assert_eq!(ops::CMPS_REG_ADDR_WORD, maikor_language::ops::CMPS_REG_ADDR_WORD);
    assert_eq!(ops::ADD_REG_REG_BYTE, maikor_language::ops::ADD_REG_REG_BYTE);
    assert_eq!(ops::ADD_REG_REG_WORD, maikor_language::ops::ADD_REG_REG_WORD);
    assert_eq!(ops::ADD_REG_NUM_BYTE, maikor_language::ops::ADD_REG_NUM_BYTE);
    assert_eq!(ops::ADD_REG_NUM_WORD, maikor_language::ops::ADD_REG_NUM_WORD);
    assert_eq!(ops::ADD_REG_ADDR_BYTE, maikor_language::ops::ADD_REG_ADDR_BYTE);
    assert_eq!(ops::ADD_REG_ADDR_WORD, maikor_language::ops::ADD_REG_ADDR_WORD);
    assert_eq!(ops::ADD_ADDR_REG_BYTE, maikor_language::ops::ADD_ADDR_REG_BYTE);
    assert_eq!(ops::ADD_ADDR_REG_WORD, maikor_language::ops::ADD_ADDR_REG_WORD);
    assert_eq!(ops::ADD_ADDR_NUM_BYTE, maikor_language::ops::ADD_ADDR_NUM_BYTE);
    assert_eq!(ops::ADD_ADDR_NUM_WORD, maikor_language::ops::ADD_ADDR_NUM_WORD);
    assert_eq!(ops::ADD_ADDR_ADDR_BYTE, maikor_language::ops::ADD_ADDR_ADDR_BYTE);
    assert_eq!(ops::ADD_ADDR_ADDR_WORD, maikor_language::ops::ADD_ADDR_ADDR_WORD);
    assert_eq!(ops::INC_REG_BYTE, maikor_language::ops::INC_REG_BYTE);
    assert_eq!(ops::INC_REG_WORD, maikor_language::ops::INC_REG_WORD);
    assert_eq!(ops::INC_ADDR_BYTE, maikor_language::ops::INC_ADDR_BYTE);
    assert_eq!(ops::INC_ADDR_WORD, maikor_language::ops::INC_ADDR_WORD);
    assert_eq!(ops::SUB_REG_REG_BYTE, maikor_language::ops::SUB_REG_REG_BYTE);
    assert_eq!(ops::SUB_REG_REG_WORD, maikor_language::ops::SUB_REG_REG_WORD);
    assert_eq!(ops::SUB_REG_NUM_BYTE, maikor_language::ops::SUB_REG_NUM_BYTE);
    assert_eq!(ops::SUB_REG_NUM_WORD, maikor_language::ops::SUB_REG_NUM_WORD);
    assert_eq!(ops::SUB_REG_ADDR_BYTE, maikor_language::ops::SUB_REG_ADDR_BYTE);
    assert_eq!(ops::SUB_REG_ADDR_WORD, maikor_language::ops::SUB_REG_ADDR_WORD);
    assert_eq!(ops::SUB_ADDR_REG_BYTE, maikor_language::ops::SUB_ADDR_REG_BYTE);
    assert_eq!(ops::SUB_ADDR_REG_WORD, maikor_language::ops::SUB_ADDR_REG_WORD);
    assert_eq!(ops::SUB_ADDR_NUM_BYTE, maikor_language::ops::SUB_ADDR_NUM_BYTE);
    assert_eq!(ops::SUB_ADDR_NUM_WORD, maikor_language::ops::SUB_ADDR_NUM_WORD);
    assert_eq!(ops::SUB_ADDR_ADDR_BYTE, maikor_language::ops::SUB_ADDR_ADDR_BYTE);
    assert_eq!(ops::SUB_ADDR_ADDR_WORD, maikor_language::ops::SUB_ADDR_ADDR_WORD);
    assert_eq!(ops::DEC_REG_BYTE, maikor_language::ops::DEC_REG_BYTE);
    assert_eq!(ops::DEC_REG_WORD, maikor_language::ops::DEC_REG_WORD);
    assert_eq!(ops::DEC_ADDR_BYTE, maikor_language::ops::DEC_ADDR_BYTE);
    assert_eq!(ops::DEC_ADDR_WORD, maikor_language::ops::DEC_ADDR_WORD);
    assert_eq!(ops::NOT_REG_BYTE, maikor_language::ops::NOT_REG_BYTE);
    assert_eq!(ops::NOT_REG_WORD, maikor_language::ops::NOT_REG_WORD);
    assert_eq!(ops::OR_REG_REG_BYTE, maikor_language::ops::OR_REG_REG_BYTE);
    assert_eq!(ops::OR_REG_REG_WORD, maikor_language::ops::OR_REG_REG_WORD);
    assert_eq!(ops::OR_REG_NUM_BYTE, maikor_language::ops::OR_REG_NUM_BYTE);
    assert_eq!(ops::OR_REG_NUM_WORD, maikor_language::ops::OR_REG_NUM_WORD);
    assert_eq!(ops::XOR_REG_REG_BYTE, maikor_language::ops::XOR_REG_REG_BYTE);
    assert_eq!(ops::XOR_REG_REG_WORD, maikor_language::ops::XOR_REG_REG_WORD);
    assert_eq!(ops::XOR_REG_NUM_BYTE, maikor_language::ops::XOR_REG_NUM_BYTE);
    assert_eq!(ops::XOR_REG_NUM_WORD, maikor_language::ops::XOR_REG_NUM_WORD);
    assert_eq!(ops::AND_REG_REG_BYTE, maikor_language::ops::AND_REG_REG_BYTE);
    assert_eq!(ops::AND_REG_REG_WORD, maikor_language::ops::AND_REG_REG_WORD);
    assert_eq!(ops::AND_REG_NUM_BYTE, maikor_language::ops::AND_REG_NUM_BYTE);
    assert_eq!(ops::AND_REG_NUM_WORD, maikor_language::ops::AND_REG_NUM_WORD);
    assert_eq!(ops::JRF_BYTE, maikor_language::ops::JRF_BYTE);
    assert_eq!(ops::JRB_BYTE, maikor_language::ops::JRB_BYTE);
    assert_eq!(ops::ASL_REG_NUM_BYTE, maikor_language::ops::ASL_REG_NUM_BYTE);
    assert_eq!(ops::ASL_REG_NUM_WORD, maikor_language::ops::ASL_REG_NUM_WORD);
    assert_eq!(ops::ASL_REG_REG_BYTE, maikor_language::ops::ASL_REG_REG_BYTE);
    assert_eq!(ops::ASL_REG_REG_WORD, maikor_language::ops::ASL_REG_REG_WORD);
    assert_eq!(ops::ASL_ADDR_BYTE, maikor_language::ops::ASL_ADDR_BYTE);
    assert_eq!(ops::ASL_ADDR_WORD, maikor_language::ops::ASL_ADDR_WORD);
    assert_eq!(ops::ASR_REG_NUM_BYTE, maikor_language::ops::ASR_REG_NUM_BYTE);
    assert_eq!(ops::ASR_REG_NUM_WORD, maikor_language::ops::ASR_REG_NUM_WORD);
    assert_eq!(ops::ASR_REG_REG_BYTE, maikor_language::ops::ASR_REG_REG_BYTE);
    assert_eq!(ops::ASR_REG_REG_WORD, maikor_language::ops::ASR_REG_REG_WORD);
    assert_eq!(ops::ASR_ADDR_BYTE, maikor_language::ops::ASR_ADDR_BYTE);
    assert_eq!(ops::ASR_ADDR_WORD, maikor_language::ops::ASR_ADDR_WORD);
    assert_eq!(ops::LSR_REG_NUM_BYTE, maikor_language::ops::LSR_REG_NUM_BYTE);
    assert_eq!(ops::LSR_REG_NUM_WORD, maikor_language::ops::LSR_REG_NUM_WORD);
    assert_eq!(ops::LSR_REG_REG_BYTE, maikor_language::ops::LSR_REG_REG_BYTE);
    assert_eq!(ops::LSR_REG_REG_WORD, maikor_language::ops::LSR_REG_REG_WORD);
    assert_eq!(ops::LSR_ADDR_BYTE, maikor_language::ops::LSR_ADDR_BYTE);
    assert_eq!(ops::LSR_ADDR_WORD, maikor_language::ops::LSR_ADDR_WORD);
    assert_eq!(ops::ROL_REG_NUM_BYTE, maikor_language::ops::ROL_REG_NUM_BYTE);
    assert_eq!(ops::ROL_REG_NUM_WORD, maikor_language::ops::ROL_REG_NUM_WORD);
    assert_eq!(ops::ROL_REG_REG_BYTE, maikor_language::ops::ROL_REG_REG_BYTE);
    assert_eq!(ops::ROL_REG_REG_WORD, maikor_language::ops::ROL_REG_REG_WORD);
    assert_eq!(ops::ROL_ADDR_BYTE, maikor_language::ops::ROL_ADDR_BYTE);
    assert_eq!(ops::ROL_ADDR_WORD, maikor_language::ops::ROL_ADDR_WORD);
    assert_eq!(ops::ROR_REG_NUM_BYTE, maikor_language::ops::ROR_REG_NUM_BYTE);
    assert_eq!(ops::ROR_REG_NUM_WORD, maikor_language::ops::ROR_REG_NUM_WORD);
    assert_eq!(ops::ROR_REG_REG_BYTE, maikor_language::ops::ROR_REG_REG_BYTE);
    assert_eq!(ops::ROR_REG_REG_WORD, maikor_language::ops::ROR_REG_REG_WORD);
    assert_eq!(ops::ROR_ADDR_BYTE, maikor_language::ops::ROR_ADDR_BYTE);
    assert_eq!(ops::ROR_ADDR_WORD, maikor_language::ops::ROR_ADDR_WORD);
    assert_eq!(ops::PUSH_REG_BYTE, maikor_language::ops::PUSH_REG_BYTE);
    assert_eq!(ops::PUSH_REG_WORD, maikor_language::ops::PUSH_REG_WORD);
    assert_eq!(ops::PUSH_NUM_BYTE, maikor_language::ops::PUSH_NUM_BYTE);
    assert_eq!(ops::PUSH_NUM_WORD, maikor_language::ops::PUSH_NUM_WORD);
    assert_eq!(ops::POP_REG_BYTE, maikor_language::ops::POP_REG_BYTE);
    assert_eq!(ops::POP_REG_WORD, maikor_language::ops::POP_REG_WORD);
    assert_eq!(ops::MUL_REG_REG_BYTE, maikor_language::ops::MUL_REG_REG_BYTE);
    assert_eq!(ops::MUL_REG_REG_WORD, maikor_language::ops::MUL_REG_REG_WORD);
    assert_eq!(ops::MUL_REG_NUM_BYTE, maikor_language::ops::MUL_REG_NUM_BYTE);
    assert_eq!(ops::MUL_REG_NUM_WORD, maikor_language::ops::MUL_REG_NUM_WORD);
    assert_eq!(ops::MUL_REG_ADDR_BYTE, maikor_language::ops::MUL_REG_ADDR_BYTE);
    assert_eq!(ops::MUL_REG_ADDR_WORD, maikor_language::ops::MUL_REG_ADDR_WORD);
    assert_eq!(ops::MUL_ADDR_REG_BYTE, maikor_language::ops::MUL_ADDR_REG_BYTE);
    assert_eq!(ops::MUL_ADDR_REG_WORD, maikor_language::ops::MUL_ADDR_REG_WORD);
    assert_eq!(ops::MUL_ADDR_NUM_BYTE, maikor_language::ops::MUL_ADDR_NUM_BYTE);
    assert_eq!(ops::MUL_ADDR_NUM_WORD, maikor_language::ops::MUL_ADDR_NUM_WORD);
    assert_eq!(ops::MUL_ADDR_ADDR_BYTE, maikor_language::ops::MUL_ADDR_ADDR_BYTE);
    assert_eq!(ops::MUL_ADDR_ADDR_WORD, maikor_language::ops::MUL_ADDR_ADDR_WORD);
    assert_eq!(ops::MULS_REG_REG_BYTE, maikor_language::ops::MULS_REG_REG_BYTE);
    assert_eq!(ops::MULS_REG_REG_WORD, maikor_language::ops::MULS_REG_REG_WORD);
    assert_eq!(ops::MULS_REG_NUM_BYTE, maikor_language::ops::MULS_REG_NUM_BYTE);
    assert_eq!(ops::MULS_REG_NUM_WORD, maikor_language::ops::MULS_REG_NUM_WORD);
    assert_eq!(ops::MULS_REG_ADDR_BYTE, maikor_language::ops::MULS_REG_ADDR_BYTE);
    assert_eq!(ops::MULS_REG_ADDR_WORD, maikor_language::ops::MULS_REG_ADDR_WORD);
    assert_eq!(ops::MULS_ADDR_REG_BYTE, maikor_language::ops::MULS_ADDR_REG_BYTE);
    assert_eq!(ops::MULS_ADDR_REG_WORD, maikor_language::ops::MULS_ADDR_REG_WORD);
    assert_eq!(ops::MULS_ADDR_NUM_BYTE, maikor_language::ops::MULS_ADDR_NUM_BYTE);
    assert_eq!(ops::MULS_ADDR_NUM_WORD, maikor_language::ops::MULS_ADDR_NUM_WORD);
    assert_eq!(ops::MULS_ADDR_ADDR_BYTE, maikor_language::ops::MULS_ADDR_ADDR_BYTE);
    assert_eq!(ops::MULS_ADDR_ADDR_WORD, maikor_language::ops::MULS_ADDR_ADDR_WORD);
    assert_eq!(ops::DIV_REG_REG_BYTE, maikor_language::ops::DIV_REG_REG_BYTE);
    assert_eq!(ops::DIV_REG_REG_WORD, maikor_language::ops::DIV_REG_REG_WORD);
    assert_eq!(ops::DIV_REG_NUM_BYTE, maikor_language::ops::DIV_REG_NUM_BYTE);
    assert_eq!(ops::DIV_REG_NUM_WORD, maikor_language::ops::DIV_REG_NUM_WORD);
    assert_eq!(ops::DIV_REG_ADDR_BYTE, maikor_language::ops::DIV_REG_ADDR_BYTE);
    assert_eq!(ops::DIV_REG_ADDR_WORD, maikor_language::ops::DIV_REG_ADDR_WORD);
    assert_eq!(ops::DIV_ADDR_REG_BYTE, maikor_language::ops::DIV_ADDR_REG_BYTE);
    assert_eq!(ops::DIV_ADDR_REG_WORD, maikor_language::ops::DIV_ADDR_REG_WORD);
    assert_eq!(ops::DIV_ADDR_NUM_BYTE, maikor_language::ops::DIV_ADDR_NUM_BYTE);
    assert_eq!(ops::DIV_ADDR_NUM_WORD, maikor_language::ops::DIV_ADDR_NUM_WORD);
    assert_eq!(ops::DIV_ADDR_ADDR_BYTE, maikor_language::ops::DIV_ADDR_ADDR_BYTE);
    assert_eq!(ops::DIV_ADDR_ADDR_WORD, maikor_language::ops::DIV_ADDR_ADDR_WORD);
    assert_eq!(ops::DIVS_REG_REG_BYTE, maikor_language::ops::DIVS_REG_REG_BYTE);
    assert_eq!(ops::DIVS_REG_REG_WORD, maikor_language::ops::DIVS_REG_REG_WORD);
    assert_eq!(ops::DIVS_REG_NUM_BYTE, maikor_language::ops::DIVS_REG_NUM_BYTE);
    assert_eq!(ops::DIVS_REG_NUM_WORD, maikor_language::ops::DIVS_REG_NUM_WORD);
    assert_eq!(ops::DIVS_REG_ADDR_BYTE, maikor_language::ops::DIVS_REG_ADDR_BYTE);
    assert_eq!(ops::DIVS_REG_ADDR_WORD, maikor_language::ops::DIVS_REG_ADDR_WORD);
    assert_eq!(ops::DIVS_ADDR_REG_BYTE, maikor_language::ops::DIVS_ADDR_REG_BYTE);
    assert_eq!(ops::DIVS_ADDR_REG_WORD, maikor_language::ops::DIVS_ADDR_REG_WORD);
    assert_eq!(ops::DIVS_ADDR_NUM_BYTE, maikor_language::ops::DIVS_ADDR_NUM_BYTE);
    assert_eq!(ops::DIVS_ADDR_NUM_WORD, maikor_language::ops::DIVS_ADDR_NUM_WORD);
    assert_eq!(ops::DIVS_ADDR_ADDR_BYTE, maikor_language::ops::DIVS_ADDR_ADDR_BYTE);
    assert_eq!(ops::DIVS_ADDR_ADDR_WORD, maikor_language::ops::DIVS_ADDR_ADDR_WORD);
    assert_eq!(ops::JMP_ADDR, maikor_language::ops::JMP_ADDR);
    assert_eq!(ops::JMP_REG, maikor_language::ops::JMP_REG);
    assert_eq!(ops::JE_ADDR, maikor_language::ops::JE_ADDR);
    assert_eq!(ops::JE_REG, maikor_language::ops::JE_REG);
    assert_eq!(ops::JNE_ADDR, maikor_language::ops::JNE_ADDR);
    assert_eq!(ops::JNE_REG, maikor_language::ops::JNE_REG);
    assert_eq!(ops::JL_ADDR, maikor_language::ops::JL_ADDR);
    assert_eq!(ops::JL_REG, maikor_language::ops::JL_REG);
    assert_eq!(ops::JG_ADDR, maikor_language::ops::JG_ADDR);
    assert_eq!(ops::JG_REG, maikor_language::ops::JG_REG);
    assert_eq!(ops::JLE_ADDR, maikor_language::ops::JLE_ADDR);
    assert_eq!(ops::JLE_REG, maikor_language::ops::JLE_REG);
    assert_eq!(ops::JGE_ADDR, maikor_language::ops::JGE_ADDR);
    assert_eq!(ops::JGE_REG, maikor_language::ops::JGE_REG);
    assert_eq!(ops::CMP_REG_NUM_BYTE, maikor_language::ops::CMP_REG_NUM_BYTE);
    assert_eq!(ops::CMP_REG_NUM_WORD, maikor_language::ops::CMP_REG_NUM_WORD);
    assert_eq!(ops::CMP_REG_REG_BYTE, maikor_language::ops::CMP_REG_REG_BYTE);
    assert_eq!(ops::CMP_REG_REG_WORD, maikor_language::ops::CMP_REG_REG_WORD);
    assert_eq!(ops::CMPS_REG_NUM_BYTE, maikor_language::ops::CMPS_REG_NUM_BYTE);
    assert_eq!(ops::CMPS_REG_NUM_WORD, maikor_language::ops::CMPS_REG_NUM_WORD);
    assert_eq!(ops::CMPS_REG_REG_BYTE, maikor_language::ops::CMPS_REG_REG_BYTE);
    assert_eq!(ops::CMPS_REG_REG_WORD, maikor_language::ops::CMPS_REG_REG_WORD);
    assert_eq!(ops::JBC_REG_REG, maikor_language::ops::JBC_REG_REG);
    assert_eq!(ops::JBS_REG_REG, maikor_language::ops::JBS_REG_REG);
    assert_eq!(ops::JBC_ADDR_REG, maikor_language::ops::JBC_ADDR_REG);
    assert_eq!(ops::JBS_ADDR_REG, maikor_language::ops::JBS_ADDR_REG);
    assert_eq!(ops::JBC_REG_NUM, maikor_language::ops::JBC_REG_NUM);
    assert_eq!(ops::JBS_REG_NUM, maikor_language::ops::JBS_REG_NUM);
    assert_eq!(ops::JBC_ADDR_NUM, maikor_language::ops::JBC_ADDR_NUM);
    assert_eq!(ops::JBS_ADDR_NUM, maikor_language::ops::JBS_ADDR_NUM);
    assert_eq!(ops::ADDC_REG_REG_BYTE, maikor_language::ops::ADDC_REG_REG_BYTE);
    assert_eq!(ops::ADDC_REG_REG_WORD, maikor_language::ops::ADDC_REG_REG_WORD);
    assert_eq!(ops::ADDC_REG_NUM_BYTE, maikor_language::ops::ADDC_REG_NUM_BYTE);
    assert_eq!(ops::ADDC_REG_NUM_WORD, maikor_language::ops::ADDC_REG_NUM_WORD);
    assert_eq!(ops::ADDC_REG_ADDR_BYTE, maikor_language::ops::ADDC_REG_ADDR_BYTE);
    assert_eq!(ops::ADDC_REG_ADDR_WORD, maikor_language::ops::ADDC_REG_ADDR_WORD);
    assert_eq!(ops::ADDC_ADDR_REG_BYTE, maikor_language::ops::ADDC_ADDR_REG_BYTE);
    assert_eq!(ops::ADDC_ADDR_REG_WORD, maikor_language::ops::ADDC_ADDR_REG_WORD);
    assert_eq!(ops::ADDC_ADDR_NUM_BYTE, maikor_language::ops::ADDC_ADDR_NUM_BYTE);
    assert_eq!(ops::ADDC_ADDR_NUM_WORD, maikor_language::ops::ADDC_ADDR_NUM_WORD);
    assert_eq!(ops::ADDC_ADDR_ADDR_BYTE, maikor_language::ops::ADDC_ADDR_ADDR_BYTE);
    assert_eq!(ops::ADDC_ADDR_ADDR_WORD, maikor_language::ops::ADDC_ADDR_ADDR_WORD);
    assert_eq!(ops::SUBC_REG_REG_BYTE, maikor_language::ops::SUBC_REG_REG_BYTE);
    assert_eq!(ops::SUBC_REG_REG_WORD, maikor_language::ops::SUBC_REG_REG_WORD);
    assert_eq!(ops::SUBC_REG_NUM_BYTE, maikor_language::ops::SUBC_REG_NUM_BYTE);
    assert_eq!(ops::SUBC_REG_NUM_WORD, maikor_language::ops::SUBC_REG_NUM_WORD);
    assert_eq!(ops::SUBC_REG_ADDR_BYTE, maikor_language::ops::SUBC_REG_ADDR_BYTE);
    assert_eq!(ops::SUBC_REG_ADDR_WORD, maikor_language::ops::SUBC_REG_ADDR_WORD);
    assert_eq!(ops::SUBC_ADDR_REG_BYTE, maikor_language::ops::SUBC_ADDR_REG_BYTE);
    assert_eq!(ops::SUBC_ADDR_REG_WORD, maikor_language::ops::SUBC_ADDR_REG_WORD);
    assert_eq!(ops::SUBC_ADDR_NUM_BYTE, maikor_language::ops::SUBC_ADDR_NUM_BYTE);
    assert_eq!(ops::SUBC_ADDR_NUM_WORD, maikor_language::ops::SUBC_ADDR_NUM_WORD);
    assert_eq!(ops::SUBC_ADDR_ADDR_BYTE, maikor_language::ops::SUBC_ADDR_ADDR_BYTE);
    assert_eq!(ops::SUBC_ADDR_ADDR_WORD, maikor_language::ops::SUBC_ADDR_ADDR_WORD);
    assert_eq!(ops::EHALT, maikor_language::ops::EHALT);
    assert_eq!(ops::SLEEP, maikor_language::ops::SLEEP);
    for op in maikor_language::ops::ALL {
        assert!(ops::ALL.contains(&op), "{op:02X}");
    }
    assert_eq!(maikor_vm_core::constants::registers::flags::CARRY, maikor_language::registers::flags::CARRY);
    assert_eq!(maikor_vm_core::constants::registers::flags::ZERO, maikor_language::registers::flags::ZERO);
    assert_eq!(maikor_vm_core::constants::registers::flags::SIGNED, maikor_language::registers::flags::SIGNED);
    assert_eq!(maikor_vm_core::constants::registers::flags::OVERFLOW, maikor_language::registers::flags::OVERFLOW);
    assert_eq!(maikor_vm_core::constants::registers::flags::LESS_THAN, maikor_language::registers::flags::LESS_THAN);
    assert_eq!(maikor_vm_core::constants::registers::flags::GREATER_THAN, maikor_language::registers::flags::GREATER_THAN);
    assert_eq!(maikor_vm_core::constants::registers::flags::INTERRUPTS, maikor_language::registers::flags::INTERRUPTS);
}
