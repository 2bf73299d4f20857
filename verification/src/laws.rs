//! Laws of the machine: what holds of every state, proved from the model
//! that the contracts of the executable machine are stated over.

use vstd::prelude::*;
use crate::constants::ops;
use crate::constants::registers::flags::INTERRUPTS;
use crate::error::VmError;
use crate::execute::{instruction_of, Instruction};
use crate::mem::SAVE_COUNT;
use crate::model::{window_at, window_selected_at, Machine, Window};
use crate::ops::misc::vector_of;
use crate::ops::operand::{ArgKind, Width};
use crate::register::decode_register;

verus! {

/// A write to a bank-select byte with the id of a provisioned bank shows
/// that bank in the window, and changes no bank.
pub proof fn lemma_select_shows_bank(m: Machine, window: Window, id: u8, offset: int)
    requires
        m.wf(),
        id < m.banks(window.kind()).len(),
        0 <= offset < window.size(),
    ensures
        m.write_byte_mem(window.select_addr() as u16, id).1 == Ok::<usize, VmError>(21),
        m.write_byte_mem(window.select_addr() as u16, id).0.memory[window.base() + offset]
            == m.banks(window.kind())[id as int][offset],
        m.write_byte_mem(window.select_addr() as u16, id).0.selected(window) == id,
        m.write_byte_mem(window.select_addr() as u16, id).0.banks(window.kind()) == m.banks(
            window.kind(),
        ),
        m.write_byte_mem(window.select_addr() as u16, id).0.wf(),
{
    reveal(Machine::write_byte_mem);
    let addr = window.select_addr() as u16;
    assert(window_selected_at(addr as int) == Some(window));
    assert(window_at(addr as int) is None);
    let after = m.write_byte_mem(addr, id).0;
    assert(after.banks(window.kind()) =~= m.banks(window.kind()));
}

/// A write into a window that shows a provisioned bank reaches memory and
/// the bank behind the window, at two cycles, and moves no window.
pub proof fn lemma_window_write_reaches_bank(m: Machine, window: Window, offset: int, value: u8)
    requires
        m.wf(),
        m.is_active(window),
        0 <= offset < window.size(),
    ensures
        m.write_byte_mem((window.base() + offset) as u16, value).1 == Ok::<usize, VmError>(2),
        m.write_byte_mem((window.base() + offset) as u16, value).0.memory[window.base() + offset]
            == value,
        m.write_byte_mem((window.base() + offset) as u16, value).0.banks(
            window.kind(),
        )[m.selected(window) as int][offset] == value,
        m.write_byte_mem((window.base() + offset) as u16, value).0.selected(window) == m.selected(
            window,
        ),
        m.write_byte_mem((window.base() + offset) as u16, value).0.banks(window.kind()).len()
            == m.banks(window.kind()).len(),
        m.write_byte_mem((window.base() + offset) as u16, value).0.wf(),
{
    reveal(Machine::write_byte_mem);
    let addr = (window.base() + offset) as u16;
    assert(window_at(addr as int) == Some(window));
    assert(window_selected_at(addr as int) is None);
    let stored = m.store(addr, value);
    assert(stored.selected(window) == m.selected(window));
    assert(stored.is_active(window));
}

/// Edits survive deselection: after bank `n` is selected into a window, a
/// byte written inside the window, another bank selected and bank `n`
/// selected again, the byte is read back where it was written.
pub proof fn lemma_bank_swap_round_trip(
    m: Machine,
    window: Window,
    n: u8,
    other: u8,
    offset: int,
    value: u8,
)
    requires
        m.wf(),
        n < m.banks(window.kind()).len(),
        other < m.banks(window.kind()).len(),
        0 <= offset < window.size(),
    ensures
        ({
            let select = window.select_addr() as u16;
            let place = (window.base() + offset) as u16;
            let selected = m.write_byte_mem(select, n).0;
            let written = selected.write_byte_mem(place, value).0;
            let away = written.write_byte_mem(select, other).0;
            let back = away.write_byte_mem(select, n).0;
            back.read_byte_mem(place) == value
        }),
{
    let select = window.select_addr() as u16;
    let place = (window.base() + offset) as u16;
    lemma_select_shows_bank(m, window, n, offset);
    let selected = m.write_byte_mem(select, n).0;
    lemma_window_write_reaches_bank(selected, window, offset, value);
    let written = selected.write_byte_mem(place, value).0;
    lemma_select_shows_bank(written, window, other, offset);
    let away = written.write_byte_mem(select, other).0;
    lemma_select_shows_bank(away, window, n, offset);
}

/// A write through the save window marks the selected save bank dirty and
/// leaves every other dirty flag as it was.
pub proof fn lemma_save_write_marks_dirty(m: Machine, offset: int, value: u8)
    requires
        m.wf(),
        m.is_active(Window::Save),
        m.selected(Window::Save) < SAVE_COUNT,
        0 <= offset < Window::Save.size(),
    ensures
        ({
            let after = m.write_byte_mem((Window::Save.base() + offset) as u16, value).0;
            &&& after.save_dirty_flag.len() == m.save_dirty_flag.len()
            &&& after.save_dirty_flag[m.selected(Window::Save) as int]
            &&& forall|i: int|
                0 <= i < SAVE_COUNT && i != m.selected(Window::Save) ==> after.save_dirty_flag[i]
                    == m.save_dirty_flag[i]
        }),
{
    reveal(Machine::write_byte_mem);
    let addr = (Window::Save.base() + offset) as u16;
    assert(window_at(addr as int) == Some(Window::Save));
    assert(window_selected_at(addr as int) is None);
    let stored = m.store(addr, value);
    assert(stored.selected(Window::Save) == m.selected(Window::Save));
}

/// A write outside the save window changes no dirty flag.
pub proof fn lemma_other_writes_keep_dirty_flags(m: Machine, addr: u16, value: u8)
    requires
        m.wf(),
        !Window::Save.contains(addr as int),
    ensures
        m.write_byte_mem(addr, value).0.save_dirty_flag == m.save_dirty_flag,
{
    reveal(Machine::write_byte_mem);
}

/// An interrupt that is accepted and then returned from leaves the
/// registers and the program counter as they were before it. INTERRUPTS is
/// then what the restored flags register holds: set, as it was when the
/// interrupt was accepted.
pub proof fn lemma_interrupt_round_trip(m: Machine, interrupt_id: u8)
    requires
        m.wf(),
        m.accepts(interrupt_id),
        vector_of(interrupt_id) is Some,
    ensures
        m.trigger_interrupt(interrupt_id).pc == vector_of(interrupt_id).unwrap(),
        !m.trigger_interrupt(interrupt_id).check_flag(INTERRUPTS),
        m.trigger_interrupt(interrupt_id).run(Instruction::Reti).1 == Ok::<(bool, usize), VmError>(
            (true, 4),
        ),
        m.trigger_interrupt(interrupt_id).run(Instruction::Reti).0.registers == m.registers,
        m.trigger_interrupt(interrupt_id).run(Instruction::Reti).0.pc == m.pc,
        m.trigger_interrupt(interrupt_id).run(Instruction::Reti).0.check_flag(INTERRUPTS),
{
    reveal(Machine::return_from_interrupt);
    let entered = m.trigger_interrupt(interrupt_id);
    crate::flags::lemma_flag_chain(m.flags(), INTERRUPTS, false);
    let back = entered.return_from_interrupt();
    assert(back.registers =~= m.registers);
}

/// A CALL without room for four more bytes on the stack overflows it: the
/// call is an error, and memory, with the stack and both pointers in it, is
/// as it was.
pub proof fn lemma_call_without_room_overflows(m: Machine)
    requires
        m.wf(),
        !m.has_room(4),
    ensures
        m.call(ArgKind::Addr).1 == Err::<usize, VmError>(VmError::StackOverflow),
        m.call(ArgKind::Addr).0.memory == m.memory,
        m.call(ArgKind::Addr).0.sp() == m.sp(),
        m.call(ArgKind::Addr).0.fp() == m.fp(),
        m.call(ArgKind::Addr).0.pc == m.pc,
{
    reveal(Machine::setup_one);
    reveal(Machine::fetch);
    reveal(Machine::prepare);
    reveal(Machine::target);
    reveal(Machine::finish);
    reveal(Machine::call);
}

/// A step onto a CALL without room for four more bytes on the stack halts
/// the machine with a stack overflow and leaves the stack pointer, the frame
/// pointer and the program counter as they were.
pub proof fn lemma_step_onto_call_without_room(m: Machine)
    requires
        m.wf(),
        !m.halted,
        m.memory[m.pc as int] == ops::CALL_ADDR,
        !m.has_room(4),
    ensures
        m.step().1 == 0,
        m.step().0.halted,
        m.step().0.fault == Some(VmError::StackOverflow),
        m.step().0.sp() == m.sp(),
        m.step().0.fp() == m.fp(),
        m.step().0.pc == m.pc,
{
    reveal(Machine::setup_one);
    reveal(Machine::fetch);
    reveal(Machine::prepare);
    reveal(Machine::target);
    reveal(Machine::finish);
    reveal(Machine::call);
    assert(instruction_of(ops::CALL_ADDR) == Some(Instruction::Call(ArgKind::Addr)));
}

/// Adjusting an operand and reading an offset write nothing to memory.
pub proof fn lemma_prepare_keeps_memory(m: Machine, operand: crate::ops::operand::Operand, width: Width)
    ensures
        m.prepare(operand, width).0.memory == m.memory,
        m.finish(operand, width).0.memory == m.memory,
{
    reveal(Machine::prepare);
    reveal(Machine::finish);
    reveal(Machine::pre_process);
    reveal(Machine::process_arg);
}

/// A comparison never writes to memory, whatever its operands are and
/// whether it ends in an error or not.
pub proof fn lemma_compare_keeps_memory(m: Machine, signed: bool, width: Width, kind: ArgKind)
    ensures
        m.compare(signed, width, kind).0.memory == m.memory,
{
    reveal(Machine::setup_two);
    reveal(Machine::fetch);
    reveal(Machine::finish_two);
    reveal(Machine::compare);
    let (m1, setup) = m.setup_two(ArgKind::Reg, kind, width);
    let (f1, dst) = m.fetch(ArgKind::Reg, width);
    assert(f1.memory == m.memory);
    if dst is Ok {
        let (f2, src) = f1.fetch(kind, width);
        assert(f2.memory == m.memory);
        if src is Ok {
            lemma_prepare_keeps_memory(f2, dst.unwrap(), width);
            let (f3, p) = f2.prepare(dst.unwrap(), width);
            if p is Ok {
                lemma_prepare_keeps_memory(f3, src.unwrap(), width);
            }
        }
    }
    assert(m1.memory == m.memory);
    if setup is Ok {
        let pair = setup.unwrap();
        let lhs = m1.load(pair.dst, width, pair.dst_offset);
        let rhs = m1.load(pair.src, width, pair.src_offset);
        if lhs is Ok && rhs is Ok {
            let flagged = m1.set_order_flags(width, lhs.unwrap().0, rhs.unwrap().0, signed);
            assert(flagged.memory == m1.memory);
            lemma_prepare_keeps_memory(flagged, pair.src, width);
            lemma_prepare_keeps_memory(flagged.finish(pair.src, width).0, pair.dst, width);
        }
    }
}

/// A comparison of a register addressed without adjustment with an
/// immediate changes nothing but the flags register and the operand
/// pointer: it never mutates its operands.
pub proof fn lemma_compare_keeps_operands(m: Machine, signed: bool, width: Width)
    requires
        m.wf(),
        decode_register(m.peek_arg()) matches Ok(reg) && !reg.is_calc && !reg.is_offset_num
            && !reg.is_offset_reg && !reg.is_offset_ext_reg,
    ensures
        m.compare(signed, width, ArgKind::Num).0.memory == m.memory,
        forall|i: int|
            0 <= i < 8 ==> m.compare(signed, width, ArgKind::Num).0.registers[i] == m.registers[i],
        m.compare(signed, width, ArgKind::Num).0.pc == m.pc,
{
    reveal(Machine::setup_two);
    reveal(Machine::fetch);
    reveal(Machine::prepare);
    reveal(Machine::finish);
    reveal(Machine::finish_two);
    reveal(Machine::pre_process);
    reveal(Machine::process_arg);
    reveal(Machine::load);
    reveal(Machine::compare);
    lemma_compare_keeps_memory(m, signed, width, ArgKind::Num);
}

/// A copy into memory, from an immediate or from memory, leaves the flags
/// register as it is.
pub proof fn lemma_copy_to_memory_keeps_flags(m: Machine, width: Width, src_kind: ArgKind)
    requires
        m.wf(),
        src_kind != ArgKind::Reg,
    ensures
        m.copy(width, ArgKind::Addr, src_kind).0.registers == m.registers,
{
    reveal(Machine::setup_two);
    reveal(Machine::fetch);
    reveal(Machine::prepare);
    reveal(Machine::finish);
    reveal(Machine::finish_two);
    reveal(Machine::load);
    reveal(Machine::save);
    reveal(Machine::write_byte_mem);
    reveal(Machine::write_word_mem);
    reveal(Machine::copy);
}

/// A word that is stored is read back, wherever it lies: also across the
/// top of memory.
pub proof fn lemma_store_word_then_read(m: Machine, addr: u16, value: u16)
    requires
        m.wf(),
    ensures
        m.store_word(addr, value).read_word_mem(addr) == value,
        m.store_word(addr, value).wf(),
{
}

/// What is pushed is popped: with room on the stack, a push and then a pop
/// of the same width give the value back and leave the stack pointer where
/// it was.
pub proof fn lemma_push_then_pop(m: Machine, width: Width, value: u16)
    requires
        m.wf(),
        width.fits(value),
        m.has_room(width.bytes() as u16),
        m.sp() >= crate::mem::address::STACK,
    ensures
        m.push_value(width, value).1 == Ok::<usize, VmError>(width.bytes() as usize),
        m.push_value(width, value).0.sp() == m.sp() + width.bytes(),
        m.push_value(width, value).0.pop_value(width).1 == value,
        m.push_value(width, value).0.pop_value(width).0.sp() == m.sp(),
{
    reveal(Machine::push_value);
    reveal(Machine::pop_value);
    let sp = m.sp();
    let stored = match width {
        Width::Byte => m.store(sp, value as u8),
        Width::Word => m.store_word(sp, value),
    };
    let pushed = stored.set_sp((sp + width.bytes()) as u16);
    lemma_store_word_then_read(stored, crate::mem::address::SP as u16, (sp + width.bytes()) as u16);
    assert(pushed.sp() == sp + width.bytes());
    let lowered = pushed.set_sp(sp);
    lemma_store_word_then_read(pushed, crate::mem::address::SP as u16, sp);
    assert(lowered.sp() == sp);
    match width {
        Width::Byte => {
            assert(lowered.memory[sp as int] == value as u8);
        },
        Width::Word => {
            assert(lowered.read_word_mem(sp) == value);
        },
    }
}

/// A RET after a CALL comes back: with room on the stack, a call to an
/// address followed by a return sets the program counter to the instruction
/// after the call, and leaves the frame pointer and the stack pointer as
/// they were before the call.
pub proof fn lemma_call_then_ret(m: Machine)
    requires
        m.wf(),
        m.has_room(4),
        m.sp() >= crate::mem::address::STACK,
        m.arg_ptr == crate::model::next_addr(m.pc),
    ensures
        m.call(ArgKind::Addr).1 == Ok::<usize, VmError>(4),
        m.call(ArgKind::Addr).0.pc == m.peek_arg_word(),
        m.call(ArgKind::Addr).0.ret().0.pc == ((m.pc + 3) % 65536) as u16,
        m.call(ArgKind::Addr).0.ret().0.fp() == m.fp(),
        m.call(ArgKind::Addr).0.ret().0.sp() == m.sp(),
{
    reveal(Machine::call);
    reveal(Machine::ret);
    reveal(Machine::setup_one);
    reveal(Machine::fetch);
    reveal(Machine::prepare);
    reveal(Machine::target);
    reveal(Machine::finish);
    let m1 = m.setup_one(ArgKind::Addr, Width::Word).0;
    assert(m1.memory == m.memory);
    assert(m1.pc == m.pc);
    let back = m1.return_address(m.arg_ptr);
    assert(back == ((m.pc + 3) % 65536) as u16);
    let frame = m1.fp();
    assert(frame == m.fp());
    assert(m1.sp() == m.sp());
    lemma_push_then_pop(m1, Width::Word, frame);
    let m2 = m1.push_value(Width::Word, frame).0;
    lemma_push_wf(m1, Width::Word, frame);
    assert(m2.has_room(2));
    lemma_push_then_pop(m2, Width::Word, back);
    let m3 = m2.push_value(Width::Word, back).0;
    let called = m3.goto(m.peek_arg_word());
    assert(m.call(ArgKind::Addr).0 == called);
    reveal(Machine::pop_value);
    reveal(Machine::push_value);
    let (r1, popped_back) = called.pop_value(Width::Word);
    assert(popped_back == back);
    assert(r1.sp() == m2.sp());
    assert(r1.memory[m1.sp() as int] == m2.memory[m1.sp() as int]);
    assert(r1.read_word_mem(m1.sp()) == frame);
    let (r2, popped_frame) = r1.pop_value(Width::Word);
    assert(popped_frame == frame);
    lemma_store_word_then_read(r2.goto(back), crate::mem::address::FP as u16, frame);
}

/// A push keeps the lengths of the state.
pub proof fn lemma_push_wf(m: Machine, width: Width, value: u16)
    requires
        m.wf(),
    ensures
        m.push_value(width, value).0.wf(),
{
    reveal(Machine::push_value);
}

/// A halted machine does nothing when stepped.
pub proof fn lemma_halted_machine_stays(m: Machine)
    requires
        m.halted,
    ensures
        m.step() == (m, 0usize),
{
}

/// An error halts the machine: after a step that met one, the machine is
/// halted and holds the error and its message.
pub proof fn lemma_error_halts(m: Machine)
    requires
        !m.halted,
        (Machine { arg_ptr: crate::model::next_addr(m.pc), ..m }).execute(
            m.memory[m.pc as int],
        ).1 is Err,
    ensures
        m.step().0.halted,
        m.step().0.fault is Some,
        m.step().0.error is Some,
        m.step().1 == 0,
{
}

} // verus!
