//! The operand descriptor: which register an operand byte names, and how
//! the instruction is to address through it.

use vstd::prelude::*;
use crate::constants::op_params;
use crate::constants::registers::id;
use crate::constants::registers::offset;
use crate::error::VmError;

verus! {

/// A decoded operand byte.
#[derive(Copy, Clone, Debug, Eq, PartialEq, Structural)]
pub struct Register {
    /// The register holds a pointer into memory.
    pub is_indirect: bool,
    /// The register is adjusted before or after the access.
    pub is_calc: bool,
    /// The adjustment comes after the access.
    pub is_post: bool,
    /// The adjustment is an increment.
    pub is_inc: bool,
    /// The offset is the value of a byte register named by a further byte.
    pub is_offset_reg: bool,
    /// The offset is the value of a word register named by a further byte.
    pub is_offset_ext_reg: bool,
    /// The offset is an immediate word.
    pub is_offset_num: bool,
    /// Bytes that the register holds, 1 or 2.
    pub size: usize,
    /// Index of the register's first byte in the register file.
    pub addr: usize,
}

/// The descriptor that an operand byte encodes. The low nibble selects one
/// of thirteen registers, the high nibble one of thirteen addressing modes;
/// any other nibble is an error that names the byte.
pub open spec fn decode_register(byte: u8) -> Result<Register, VmError> {
    let reg = byte % 16;
    let mode = byte / 16;
    if reg > 12 {
        Err(VmError::InvalidRegister(byte))
    } else if mode == 1 || mode == 2 || mode == 3 {
        Err(VmError::InvalidAddressingMode(byte))
    } else {
        let is_calc = (4 <= mode <= 7) || mode >= 12;
        Ok(
            Register {
                is_indirect: mode >= 8,
                is_calc,
                is_post: is_calc && mode % 4 < 2,
                is_inc: is_calc && mode % 2 == 0,
                is_offset_reg: mode == 9,
                is_offset_ext_reg: mode == 10,
                is_offset_num: mode == 11,
                size: if reg >= 9 { 2 } else { 1 },
                addr: if reg >= 9 { ((reg - 9) * 2) as usize } else { reg as usize },
            },
        )
    }
}

impl Register {
    /// A descriptor is well formed when it names one or two bytes that lie
    /// in the register file.
    pub open spec fn wf(&self) -> bool {
        &&& (self.size == 1 || self.size == 2)
        &&& self.addr + self.size <= 9
    }

    /// Whether the descriptor names a word register.
    pub open spec fn is_extended(&self) -> bool {
        self.size == 2
    }

    /// The id of the register that the descriptor names.
    pub open spec fn id_of(&self) -> u8 {
        if self.size == 2 && self.addr == offset::AH {
            id::AX
        } else if self.size == 2 && self.addr == offset::BH {
            id::BX
        } else if self.size == 2 && self.addr == offset::CH {
            id::CX
        } else if self.size == 2 && self.addr == offset::DH {
            id::DX
        } else if self.size == 1 && self.addr < 8 {
            self.addr as u8
        } else {
            id::FLAGS
        }
    }

    /// Decodes an operand byte.
    pub fn from(byte: u8) -> (r: Result<Register, VmError>)
        ensures
            r == decode_register(byte),
            r matches Ok(reg) ==> reg.wf(),
    {
        let (size, addr): (usize, usize) = match byte % 16 {
            id::AL => (1, offset::AL),
            id::BL => (1, offset::BL),
            id::CL => (1, offset::CL),
            id::DL => (1, offset::DL),
            id::AH => (1, offset::AH),
            id::BH => (1, offset::BH),
            id::CH => (1, offset::CH),
            id::DH => (1, offset::DH),
            id::AX => (2, offset::AH),
            id::BX => (2, offset::BH),
            id::CX => (2, offset::CH),
            id::DX => (2, offset::DH),
            id::FLAGS => (1, offset::FLAGS),
            _ => {
                return Err(VmError::InvalidRegister(byte));
            },
        };
        let mode: u8 = byte - byte % 16;
        match mode {
            op_params::REGISTER => Ok(Register::new_no_calc(false, size, addr)),
            op_params::INDIRECT => Ok(Register::new_no_calc(true, size, addr)),
            op_params::POST_INC => Ok(Register::new_ppid(false, true, true, true, size, addr)),
            op_params::PRE_INC => Ok(Register::new_ppid(false, true, false, true, size, addr)),
            op_params::POST_DEC => Ok(Register::new_ppid(false, true, true, false, size, addr)),
            op_params::PRE_DEC => Ok(Register::new_ppid(false, true, false, false, size, addr)),
            op_params::IND_POST_INC => Ok(Register::new_ppid(true, true, true, true, size, addr)),
            op_params::IND_PRE_INC => Ok(Register::new_ppid(true, true, false, true, size, addr)),
            op_params::IND_POST_DEC => Ok(Register::new_ppid(true, true, true, false, size, addr)),
            op_params::IND_PRE_DEC => Ok(Register::new_ppid(true, true, false, false, size, addr)),
            op_params::IND_OFFSET_REG => Ok(Register::new_offset(true, false, false, size, addr)),
            op_params::IND_OFFSET_EXT_REG => Ok(
                Register::new_offset(false, true, false, size, addr),
            ),
            op_params::IND_OFFSET_NUM => Ok(Register::new_offset(false, false, true, size, addr)),
            _ => Err(VmError::InvalidAddressingMode(byte)),
        }
    }

    /// The id of the register that the descriptor names.
    pub fn id(&self) -> (r: u8)
        ensures
            r == self.id_of(),
    {
        if self.size == 2 && self.addr == offset::AH {
            id::AX
        } else if self.size == 2 && self.addr == offset::BH {
            id::BX
        } else if self.size == 2 && self.addr == offset::CH {
            id::CX
        } else if self.size == 2 && self.addr == offset::DH {
            id::DX
        } else if self.size == 1 && self.addr < 8 {
            self.addr as u8
        } else {
            id::FLAGS
        }
    }

    /// A register addressed directly or as a plain pointer.
    pub fn new_no_calc(is_indirect: bool, size: usize, addr: usize) -> (r: Register)
        requires
            size == 1 || size == 2,
            addr + size <= 9,
        ensures
            r.wf(),
            r == (Register {
                is_indirect,
                is_calc: false,
                is_post: false,
                is_inc: false,
                is_offset_reg: false,
                is_offset_ext_reg: false,
                is_offset_num: false,
                size,
                addr,
            }),
    {
        Register {
            is_indirect,
            is_calc: false,
            is_post: false,
            is_inc: false,
            is_offset_reg: false,
            is_offset_ext_reg: false,
            is_offset_num: false,
            size,
            addr,
        }
    }

    /// A pointer register with an offset, from exactly one of three sources.
    pub fn new_offset(
        is_offset_reg: bool,
        is_offset_ext_reg: bool,
        is_offset_num: bool,
        size: usize,
        addr: usize,
    ) -> (r: Register)
        requires
            size == 1 || size == 2,
            addr + size <= 9,
        ensures
            r.wf(),
            r == (Register {
                is_indirect: true,
                is_calc: false,
                is_post: false,
                is_inc: false,
                is_offset_reg,
                is_offset_ext_reg,
                is_offset_num,
                size,
                addr,
            }),
    {
        Register {
            is_indirect: true,
            is_calc: false,
            is_post: false,
            is_inc: false,
            is_offset_reg,
            is_offset_ext_reg,
            is_offset_num,
            size,
            addr,
        }
    }

    /// A register that is adjusted before or after the access.
    pub fn new_ppid(
        is_indirect: bool,
        is_calc: bool,
        is_post: bool,
        is_inc: bool,
        size: usize,
        addr: usize,
    ) -> (r: Register)
        requires
            size == 1 || size == 2,
            addr + size <= 9,
        ensures
            r.wf(),
            r == (Register {
                is_indirect,
                is_calc,
                is_post,
                is_inc,
                is_offset_reg: false,
                is_offset_ext_reg: false,
                is_offset_num: false,
                size,
                addr,
            }),
    {
        Register {
            is_indirect,
            is_calc,
            is_post,
            is_inc,
            is_offset_reg: false,
            is_offset_ext_reg: false,
            is_offset_num: false,
            size,
            addr,
        }
    }
}

} // verus!
