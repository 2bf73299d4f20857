//! Block operations: MEM_CPY copies and MSWP swaps a run of bytes between
//! two places in memory. Every byte is written as any write to memory is,
//! so banks and the sound unit follow.

use vstd::prelude::*;
use crate::error::VmError;
use crate::model::Machine;
use crate::ops::operand::{ArgKind, Operand, Width};
use crate::vm::VM;

verus! {

/// The two block operations.
#[derive(Copy, Clone, Debug, Eq, PartialEq, Structural)]
pub enum BlockOp {
    Copy,
    Swap,
}

/// The address `i` bytes after `base`, wrapping at the top of memory.
pub open spec fn place(base: u16, i: int) -> u16 {
    ((base + i) % 65536) as u16
}

impl Machine {
    /// The `count` bytes of memory from `src` on.
    pub open spec fn bytes_at(self, src: u16, count: nat) -> Seq<u8> {
        Seq::new(count, |i: int| self.memory[place(src, i) as int])
    }

    /// Writing `bytes[i..]` to memory from `dst + i` on, one write after
    /// another, on top of `cost` cycles already used. The first error ends
    /// it.
    pub open spec fn write_from(self, dst: u16, bytes: Seq<u8>, i: nat, cost: usize) -> (Machine, Result<usize, VmError>)
        decreases bytes.len() - i,
    {
        if i >= bytes.len() {
            (self, Ok(cost))
        } else {
            let (m1, written) = self.write_byte_mem(place(dst, i as int), bytes[i as int]);
            match written {
                Err(e) => (m1, Err(e)),
                Ok(c) => m1.write_from(dst, bytes, i + 1, (cost + c) as usize),
            }
        }
    }

    /// Exchanging the bytes at `dst + i..dst + count` with those at
    /// `src + i..src + count`, pair by pair from the lowest address up, on
    /// top of `cost` cycles already used. The first error ends it.
    pub open spec fn swap_from(self, dst: u16, src: u16, count: nat, i: nat, cost: usize) -> (Machine, Result<usize, VmError>)
        decreases count - i,
    {
        if i >= count {
            (self, Ok(cost))
        } else {
            let a = self.memory[place(dst, i as int) as int];
            let b = self.memory[place(src, i as int) as int];
            let (m1, first) = self.write_byte_mem(place(dst, i as int), b);
            match first {
                Err(e) => (m1, Err(e)),
                Ok(c1) => {
                    let (m2, second) = m1.write_byte_mem(place(src, i as int), a);
                    match second {
                        Err(e) => (m2, Err(e)),
                        Ok(c2) => m2.swap_from(dst, src, count, i + 1, (cost + c1 + c2) as usize),
                    }
                },
            }
        }
    }

    /// The transfer of a block operation. A copy reads all of its source
    /// before it writes, so that overlapping ranges copy as if through a
    /// buffer.
    pub open spec fn transfer(self, op: BlockOp, dst: u16, src: u16, count: u8) -> (Machine, Result<usize, VmError>) {
        match op {
            BlockOp::Copy => self.write_from(dst, self.bytes_at(src, count as nat), 0, 0),
            BlockOp::Swap => self.swap_from(dst, src, count as nat, 0, 0),
        }
    }

    /// MEM_CPY and MSWP. The two places are addresses or the words that
    /// register operands give; the count is an immediate byte or the byte
    /// that a register operand gives. The cost is two cycles, the cycles of
    /// the operands and the cycles of the writes.
    #[verifier::opaque]
    pub open spec fn block(self, op: BlockOp, dst_kind: ArgKind, src_kind: ArgKind, count_kind: ArgKind) -> (Machine, Result<usize, VmError>) {
        let (m1, fetched_dst) = self.fetch(dst_kind, Width::Word);
        match fetched_dst {
            Err(e) => (m1, Err(e)),
            Ok(dst) => {
                let (m2, fetched_src) = m1.fetch(src_kind, Width::Word);
                match fetched_src {
                    Err(e) => (m2, Err(e)),
                    Ok(src) => {
                        let (m3, fetched_count) = m2.fetch(count_kind, Width::Byte);
                        match fetched_count {
                            Err(e) => (m3, Err(e)),
                            Ok(count) => m3.block_on(op, dst, src, count),
                        }
                    },
                }
            },
        }
    }

    /// A block operation on operands that were read.
    #[verifier::opaque]
    pub open spec fn block_on(self, op: BlockOp, dst: Operand, src: Operand, count: Operand) -> (Machine, Result<usize, VmError>) {
        let (m1, prepared_dst) = self.prepare(dst, Width::Word);
        match prepared_dst {
            Err(e) => (m1, Err(e)),
            Ok(pd) => {
                let (m2, prepared_src) = m1.prepare(src, Width::Word);
                match prepared_src {
                    Err(e) => (m2, Err(e)),
                    Ok(ps) => {
                        let (m3, prepared_count) = m2.prepare(count, Width::Byte);
                        match prepared_count {
                            Err(e) => (m3, Err(e)),
                            Ok(pc) => match m3.target(dst, pd.0) {
                                Err(e) => (m3, Err(e)),
                                Ok(to) => match m3.target(src, ps.0) {
                                    Err(e) => (m3, Err(e)),
                                    Ok(from) => match m3.load(count, Width::Byte, pc.0) {
                                        Err(e) => (m3, Err(e)),
                                        Ok(n) => {
                                            let (m4, moved) = m3.transfer(
                                                op,
                                                to.0,
                                                from.0,
                                                n.0 as u8,
                                            );
                                            match moved {
                                                Err(e) => (m4, Err(e)),
                                                Ok(write_cost) => {
                                                    let (m5, c1) = m4.finish(count, Width::Byte);
                                                    let (m6, c2) = m5.finish(src, Width::Word);
                                                    let (m7, c3) = m6.finish(dst, Width::Word);
                                                    (
                                                        m7,
                                                        Ok(
                                                            (2 + pd.1 + ps.1 + pc.1 + to.1 + from.1
                                                                + n.1 + write_cost + c1 + c2
                                                                + c3) as usize,
                                                        ),
                                                    )
                                                },
                                            }
                                        },
                                    },
                                },
                            },
                        }
                    },
                }
            },
        }
    }
}

impl VM {
    /// The address `i` bytes after `base`, wrapping at the top of memory.
    pub(crate) fn place_of(base: u16, i: usize) -> (r: u16)
        requires
            i <= 255,
        ensures
            r == place(base, i as int),
    {
        ((base as u32 + i as u32) % 65536) as u16
    }

    /// Copies `count` bytes from `src` to `dst`, as if through a buffer.
    /// Returns the cycles that the writes used.
    pub fn copy_mem(&mut self, dst: u16, src: u16, count: u8) -> (r: Result<usize, VmError>)
        ensures
            final(self)@ == old(self)@.transfer(BlockOp::Copy, dst, src, count).0,
            r == old(self)@.transfer(BlockOp::Copy, dst, src, count).1,
            r matches Ok(cost) ==> cost <= 22 * 255,
    {
        let n: usize = count as usize;
        let mut buffer: Vec<u8> = Vec::new();
        let mut k: usize = 0;
        while k < n
            invariant
                k <= n,
                n == count,
                buffer@.len() == k,
                *self == *old(self),
                forall|j: int| 0 <= j < k ==> buffer@[j] == self@.memory[place(src, j) as int],
            decreases n - k,
        {
            buffer.push(self.memory[Self::place_of(src, k) as usize]);
            k = k + 1;
        }
        assert(buffer@ =~= old(self)@.bytes_at(src, count as nat));
        let mut i: usize = 0;
        let mut cost: usize = 0;
        while i < n
            invariant
                i <= n,
                n == count,
                buffer@.len() == n,
                buffer@ == old(self)@.bytes_at(src, count as nat),
                cost <= 22 * i,
                old(self)@.write_from(dst, buffer@, 0, 0) == self@.write_from(
                    dst,
                    buffer@,
                    i as nat,
                    cost,
                ),
            decreases n - i,
        {
            let c: usize = self.write_byte_mem(Self::place_of(dst, i), buffer[i])?;
            cost = cost + c;
            i = i + 1;
        }
        Ok(cost)
    }

    /// Exchanges `count` bytes at `dst` with those at `src`, pair by pair
    /// from the lowest address up. Returns the cycles that the writes used.
    pub fn swap_mem(&mut self, dst: u16, src: u16, count: u8) -> (r: Result<usize, VmError>)
        ensures
            final(self)@ == old(self)@.transfer(BlockOp::Swap, dst, src, count).0,
            r == old(self)@.transfer(BlockOp::Swap, dst, src, count).1,
            r matches Ok(cost) ==> cost <= 44 * 255,
    {
        let n: usize = count as usize;
        let mut i: usize = 0;
        let mut cost: usize = 0;
        while i < n
            invariant
                i <= n,
                n == count,
                cost <= 44 * i,
                old(self)@.swap_from(dst, src, n as nat, 0, 0) == self@.swap_from(
                    dst,
                    src,
                    n as nat,
                    i as nat,
                    cost,
                ),
            decreases n - i,
        {
            let to: u16 = Self::place_of(dst, i);
            let from: u16 = Self::place_of(src, i);
            let a: u8 = self.memory[to as usize];
            let b: u8 = self.memory[from as usize];
            let c1: usize = self.write_byte_mem(to, b)?;
            let c2: usize = self.write_byte_mem(from, a)?;
            cost = cost + c1 + c2;
            i = i + 1;
        }
        Ok(cost)
    }

    /// Executes a MEM_CPY or MSWP. Returns the cycles used.
    pub fn block(&mut self, op: BlockOp, dst_kind: ArgKind, src_kind: ArgKind, count_kind: ArgKind) -> (r:
        Result<usize, VmError>)
        ensures
            final(self)@ == old(self)@.block(op, dst_kind, src_kind, count_kind).0,
            r == old(self)@.block(op, dst_kind, src_kind, count_kind).1,
            r matches Ok(cost) ==> cost <= 12000,
    {
        proof {
            reveal(Machine::block);
        }
        let dst: Operand = self.fetch(dst_kind, Width::Word)?;
        let src: Operand = self.fetch(src_kind, Width::Word)?;
        let count: Operand = self.fetch(count_kind, Width::Byte)?;
        self.block_on(op, &dst, &src, &count)
    }

    /// Executes a block operation on operands that were read. Returns the
    /// cycles used.
    pub fn block_on(&mut self, op: BlockOp, dst: &Operand, src: &Operand, count: &Operand) -> (r:
        Result<usize, VmError>)
        requires
            dst.wf(),
            src.wf(),
            count.wf(),
            count matches Operand::Num(value) ==> Width::Byte.fits(*value),
        ensures
            final(self)@ == old(self)@.block_on(op, *dst, *src, *count).0,
            r == old(self)@.block_on(op, *dst, *src, *count).1,
            r matches Ok(cost) ==> cost <= 12000,
    {
        proof {
            reveal(Machine::block_on);
        }
        let pd: (i16, usize) = self.prepare(dst, Width::Word)?;
        let ps: (i16, usize) = self.prepare(src, Width::Word)?;
        let pc: (i16, usize) = self.prepare(count, Width::Byte)?;
        let to: (u16, usize) = self.target(dst, pd.0)?;
        let from: (u16, usize) = self.target(src, ps.0)?;
        let n: (u16, usize) = self.load(count, Width::Byte, pc.0)?;
        let before: usize = 2 + pd.1 + ps.1 + pc.1 + to.1 + from.1 + n.1;
        let write_cost: usize = match op {
            BlockOp::Copy => self.copy_mem(to.0, from.0, n.0 as u8)?,
            BlockOp::Swap => self.swap_mem(to.0, from.0, n.0 as u8)?,
        };
        let c1: usize = self.finish(count, Width::Byte);
        let c2: usize = self.finish(src, Width::Word);
        let c3: usize = self.finish(dst, Width::Word);
        Ok(before + write_cost + c1 + c2 + c3)
    }
}

} // verus!
