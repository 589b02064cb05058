use vstd::prelude::*;

verus! {

/// One decoded instruction. `x` and `y` name registers, `k` is an immediate
/// byte, `addr` a 12-bit address and `n` a sprite height.
#[derive(Clone, Copy, Debug, PartialEq, Eq, Structural)]
pub enum Instruction {
    Clear,
    Return,
    Jump { addr: u16 },
    Call { addr: u16 },
    SkipEqImm { x: u8, k: u8 },
    SkipNeImm { x: u8, k: u8 },
    SkipEqReg { x: u8, y: u8 },
    SkipNeReg { x: u8, y: u8 },
    LoadImm { x: u8, k: u8 },
    AddImm { x: u8, k: u8 },
    Move { x: u8, y: u8 },
    Or { x: u8, y: u8 },
    And { x: u8, y: u8 },
    Xor { x: u8, y: u8 },
    AddReg { x: u8, y: u8 },
    SubReg { x: u8, y: u8 },
    ShiftRight { x: u8 },
    SubN { x: u8, y: u8 },
    ShiftLeft { x: u8 },
    LoadI { addr: u16 },
    JumpV0 { addr: u16 },
    Random { x: u8, k: u8 },
    Draw { x: u8, y: u8, n: u8 },
    ReadDelay { x: u8 },
    WaitKey { x: u8 },
    SetDelay { x: u8 },
    SetSound { x: u8 },
    AddI { x: u8 },
    FontChar { x: u8 },
    Bcd { x: u8 },
    StoreRegs { x: u8 },
    LoadRegs { x: u8 },
}

/// Register index in bits 8..12 of an opcode.
pub open spec fn op_x(op: u16) -> u8 {
    ((op >> 8u16) & 0xf) as u8
}

/// Register index in bits 4..8 of an opcode.
pub open spec fn op_y(op: u16) -> u8 {
    ((op >> 4u16) & 0xf) as u8
}

/// The low nibble of an opcode.
pub open spec fn op_n(op: u16) -> u8 {
    (op & 0xf) as u8
}

/// The low byte of an opcode.
pub open spec fn op_kk(op: u16) -> u8 {
    (op & 0xff) as u8
}

/// The low twelve bits of an opcode.
pub open spec fn op_nnn(op: u16) -> u16 {
    op & 0xfff
}

/// The instruction an opcode stands for; `None` where the opcode is not part of
/// the instruction set.
pub open spec fn decode_spec(op: u16) -> Option<Instruction> {
    let (x, y, n, k, addr) = (op_x(op), op_y(op), op_n(op), op_kk(op), op_nnn(op));
    let family = op >> 12u16;
    if family == 0 {
        if op == 0x00e0 {
            Some(Instruction::Clear)
        } else if op == 0x00ee {
            Some(Instruction::Return)
        } else {
            None
        }
    } else if family == 1 {
        Some(Instruction::Jump { addr })
    } else if family == 2 {
        Some(Instruction::Call { addr })
    } else if family == 3 {
        Some(Instruction::SkipEqImm { x, k })
    } else if family == 4 {
        Some(Instruction::SkipNeImm { x, k })
    } else if family == 5 {
        Some(Instruction::SkipEqReg { x, y })
    } else if family == 6 {
        Some(Instruction::LoadImm { x, k })
    } else if family == 7 {
        Some(Instruction::AddImm { x, k })
    } else if family == 8 {
        if n == 0 {
            Some(Instruction::Move { x, y })
        } else if n == 1 {
            Some(Instruction::Or { x, y })
        } else if n == 2 {
            Some(Instruction::And { x, y })
        } else if n == 3 {
            Some(Instruction::Xor { x, y })
        } else if n == 4 {
            Some(Instruction::AddReg { x, y })
        } else if n == 5 {
            Some(Instruction::SubReg { x, y })
        } else if n == 6 {
            Some(Instruction::ShiftRight { x })
        } else if n == 7 {
            Some(Instruction::SubN { x, y })
        } else if n == 0xe {
            Some(Instruction::ShiftLeft { x })
        } else {
            None
        }
    } else if family == 9 {
        Some(Instruction::SkipNeReg { x, y })
    } else if family == 0xa {
        Some(Instruction::LoadI { addr })
    } else if family == 0xb {
        Some(Instruction::JumpV0 { addr })
    } else if family == 0xc {
        Some(Instruction::Random { x, k })
    } else if family == 0xd {
        Some(Instruction::Draw { x, y, n })
    } else if family == 0xf {
        if k == 0x07 {
            Some(Instruction::ReadDelay { x })
        } else if k == 0x0a {
            Some(Instruction::WaitKey { x })
        } else if k == 0x15 {
            Some(Instruction::SetDelay { x })
        } else if k == 0x18 {
            Some(Instruction::SetSound { x })
        } else if k == 0x1e {
            Some(Instruction::AddI { x })
        } else if k == 0x29 {
            Some(Instruction::FontChar { x })
        } else if k == 0x33 {
            Some(Instruction::Bcd { x })
        } else if k == 0x55 {
            Some(Instruction::StoreRegs { x })
        } else if k == 0x65 {
            Some(Instruction::LoadRegs { x })
        } else {
            None
        }
    } else {
        None
    }
}

impl Instruction {
    /// Register indices below 16, sprite heights below 16, addresses of 12 bits.
    pub open spec fn wf(self) -> bool {
        match self {
            Instruction::Clear | Instruction::Return => true,
            Instruction::Jump { addr }
            | Instruction::Call { addr }
            | Instruction::LoadI { addr }
            | Instruction::JumpV0 { addr } => addr <= 0xfff,
            Instruction::SkipEqImm { x, .. }
            | Instruction::SkipNeImm { x, .. }
            | Instruction::LoadImm { x, .. }
            | Instruction::AddImm { x, .. }
            | Instruction::Random { x, .. }
            | Instruction::ShiftRight { x }
            | Instruction::ShiftLeft { x }
            | Instruction::ReadDelay { x }
            | Instruction::WaitKey { x }
            | Instruction::SetDelay { x }
            | Instruction::SetSound { x }
            | Instruction::AddI { x }
            | Instruction::FontChar { x }
            | Instruction::Bcd { x }
            | Instruction::StoreRegs { x }
            | Instruction::LoadRegs { x } => x < 16,
            Instruction::SkipEqReg { x, y }
            | Instruction::SkipNeReg { x, y }
            | Instruction::Move { x, y }
            | Instruction::Or { x, y }
            | Instruction::And { x, y }
            | Instruction::Xor { x, y }
            | Instruction::AddReg { x, y }
            | Instruction::SubReg { x, y }
            | Instruction::SubN { x, y } => x < 16 && y < 16,
            Instruction::Draw { x, y, n } => x < 16 && y < 16 && n < 16,
        }
    }
}

fn get_vx_k(opcode: u16) -> (r: (u8, u8))
    ensures
        r == (op_x(opcode), op_kk(opcode)),
        r.0 < 16,
{
    let vx = ((opcode >> 8) & 0xf) as u8;
    let k = (opcode & 0xff) as u8;
    assert(((opcode >> 8u16) & 0xf) < 16) by (bit_vector);
    (vx, k)
}

fn get_vx_vy(opcode: u16) -> (r: (u8, u8))
    ensures
        r == (op_x(opcode), op_y(opcode)),
        r.0 < 16,
        r.1 < 16,
{
    let vx = ((opcode >> 8) & 0xf) as u8;
    let vy = ((opcode >> 4) & 0xf) as u8;
    assert(((opcode >> 8u16) & 0xf) < 16) by (bit_vector);
    assert(((opcode >> 4u16) & 0xf) < 16) by (bit_vector);
    (vx, vy)
}

/// Decodes a 16-bit opcode; `None` where it is not part of the instruction set.
pub fn decode(opcode: u16) -> (r: Option<Instruction>)
    ensures
        r == decode_spec(opcode),
        r matches Some(ins) ==> ins.wf(),
{
    let (x, k) = get_vx_k(opcode);
    let (_, y) = get_vx_vy(opcode);
    let n = (opcode & 0xf) as u8;
    let addr = opcode & 0xfff;
    assert((opcode & 0xf) < 16) by (bit_vector);
    assert((opcode & 0xfff) <= 0xfff) by (bit_vector);
    let family = opcode >> 12;
    if family == 0 {
        if opcode == 0x00e0 {
            Some(Instruction::Clear)
        } else if opcode == 0x00ee {
            Some(Instruction::Return)
        } else {
            None
        }
    } else if family == 1 {
        Some(Instruction::Jump { addr })
    } else if family == 2 {
        Some(Instruction::Call { addr })
    } else if family == 3 {
        Some(Instruction::SkipEqImm { x, k })
    } else if family == 4 {
        Some(Instruction::SkipNeImm { x, k })
    } else if family == 5 {
        Some(Instruction::SkipEqReg { x, y })
    } else if family == 6 {
        Some(Instruction::LoadImm { x, k })
    } else if family == 7 {
        Some(Instruction::AddImm { x, k })
    } else if family == 8 {
        match n {
            0 => Some(Instruction::Move { x, y }),
            1 => Some(Instruction::Or { x, y }),
            2 => Some(Instruction::And { x, y }),
            3 => Some(Instruction::Xor { x, y }),
            4 => Some(Instruction::AddReg { x, y }),
            5 => Some(Instruction::SubReg { x, y }),
            6 => Some(Instruction::ShiftRight { x }),
            7 => Some(Instruction::SubN { x, y }),
            0xe => Some(Instruction::ShiftLeft { x }),
            _ => None,
        }
    } else if family == 9 {
        Some(Instruction::SkipNeReg { x, y })
    } else if family == 0xa {
        Some(Instruction::LoadI { addr })
    } else if family == 0xb {
        Some(Instruction::JumpV0 { addr })
    } else if family == 0xc {
        Some(Instruction::Random { x, k })
    } else if family == 0xd {
        Some(Instruction::Draw { x, y, n })
    } else if family == 0xf {
        match k {
            0x07 => Some(Instruction::ReadDelay { x }),
            0x0a => Some(Instruction::WaitKey { x }),
            0x15 => Some(Instruction::SetDelay { x }),
            0x18 => Some(Instruction::SetSound { x }),
            0x1e => Some(Instruction::AddI { x }),
            0x29 => Some(Instruction::FontChar { x }),
            0x33 => Some(Instruction::Bcd { x }),
            0x55 => Some(Instruction::StoreRegs { x }),
            0x65 => Some(Instruction::LoadRegs { x }),
            _ => None,
        }
    } else {
        None
    }
}

} // verus!
