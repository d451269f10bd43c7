//! From the two bytes of an opcode to its four 4-bit fields, and from the
//! fields to the instruction they spell.

use vstd::prelude::*;

verus! {

/// The four 4-bit fields of an opcode, most significant first.
#[derive(Clone, Copy, Debug, PartialEq, Eq, Structural)]
pub struct Nibbles {
    pub n0: u8,
    pub n1: u8,
    pub n2: u8,
    pub n3: u8,
}

/// One instruction with its operands: `x` and `y` are register indices, `kk`
/// a byte, `addr` a 12-bit address, `n` a sprite height.
#[derive(Clone, Copy, Debug, PartialEq, Eq, Structural)]
pub enum Instruction {
    /// `00E0`: clear the display.
    Cls,
    /// `00EE`: return from a subroutine.
    Ret,
    /// `1nnn`: jump to `addr`.
    Jp { addr: u16 },
    /// `2nnn`: call the subroutine at `addr`.
    Call { addr: u16 },
    /// `3xkk`: skip the next instruction if Vx equals `kk`.
    SeByte { x: u8, kk: u8 },
    /// `4xkk`: skip the next instruction if Vx differs from `kk`.
    SneByte { x: u8, kk: u8 },
    /// `5xy0`: skip the next instruction if Vx equals Vy.
    SeReg { x: u8, y: u8 },
    /// `6xkk`: Vx = `kk`.
    LdByte { x: u8, kk: u8 },
    /// `7xkk`: Vx = Vx + `kk`, without touching VF.
    AddByte { x: u8, kk: u8 },
    /// `8xy0`: Vx = Vy.
    LdReg { x: u8, y: u8 },
    /// `8xy1`: Vx = Vx OR Vy.
    Or { x: u8, y: u8 },
    /// `8xy2`: Vx = Vx AND Vy.
    And { x: u8, y: u8 },
    /// `8xy3`: Vx = Vx XOR Vy.
    Xor { x: u8, y: u8 },
    /// `8xy4`: Vx = Vx + Vy, VF = carry.
    AddReg { x: u8, y: u8 },
    /// `8xy5`: Vx = Vx - Vy, VF = no borrow.
    SubReg { x: u8, y: u8 },
    /// `8xy6`: VF = lowest bit of Vx, Vx = Vx shifted right by one.
    Shr { x: u8 },
    /// `8xy7`: Vx = Vy - Vx, VF = no borrow.
    SubnReg { x: u8, y: u8 },
    /// `8xyE`: VF = highest bit of Vx, Vx = Vx shifted left by one.
    Shl { x: u8 },
    /// `9xy0`: skip the next instruction if Vx differs from Vy.
    SneReg { x: u8, y: u8 },
    /// `Annn`: I = `addr`.
    LdI { addr: u16 },
    /// `Bnnn`: jump to V0 + `addr`.
    JpV0 { addr: u16 },
    /// `Cxkk`: Vx = random byte AND `kk`.
    Rnd { x: u8, kk: u8 },
    /// `Dxyn`: draw the `n`-row sprite at I at (Vx, Vy), VF = collision.
    Drw { x: u8, y: u8, n: u8 },
    /// `Ex9E`: skip the next instruction if key Vx is down.
    Skp { x: u8 },
    /// `ExA1`: skip the next instruction if key Vx is up.
    Sknp { x: u8 },
    /// `Fx07`: Vx = delay timer.
    LdVxDt { x: u8 },
    /// `Fx0A`: wait for a key and put its code into Vx.
    LdKey { x: u8 },
    /// `Fx15`: delay timer = Vx.
    LdDtVx { x: u8 },
    /// `Fx18`: sound timer = Vx.
    LdStVx { x: u8 },
    /// `Fx1E`: I = I + Vx.
    AddI { x: u8 },
    /// `Fx29`: I = address of the font glyph for Vx.
    LdFont { x: u8 },
    /// `Fx33`: store the three decimal digits of Vx at I, I+1, I+2.
    Bcd { x: u8 },
    /// `Fx55`: store V0..Vx at I onwards.
    StoreRegs { x: u8 },
    /// `Fx65`: load V0..Vx from I onwards.
    LoadRegs { x: u8 },
}

/// The fields of the opcode whose first byte is `hi` and second byte `lo`.
pub open spec fn nibbles_of(hi: u8, lo: u8) -> Nibbles {
    Nibbles { n0: hi / 16, n1: hi % 16, n2: lo / 16, n3: lo % 16 }
}

/// The 12-bit address that three fields spell.
pub open spec fn address_of(n1: u8, n2: u8, n3: u8) -> u16 {
    (n1 * 256 + n2 * 16 + n3) as u16
}

/// The byte that two fields spell.
pub open spec fn byte_of(n2: u8, n3: u8) -> u8 {
    (n2 * 16 + n3) as u8
}

/// The opcode as one 16-bit word, first byte high.
pub open spec fn opcode_of(hi: u8, lo: u8) -> u16 {
    (hi * 256 + lo) as u16
}

/// The instruction that the fields spell, if any: the opcode table.
pub open spec fn instruction_of(f: Nibbles) -> Option<Instruction> {
    let x = f.n1;
    let y = f.n2;
    let kk = byte_of(f.n2, f.n3);
    let addr = address_of(f.n1, f.n2, f.n3);
    if f.n0 == 0x0 {
        if f.n1 == 0x0 && f.n2 == 0xE && f.n3 == 0x0 {
            Some(Instruction::Cls)
        } else if f.n1 == 0x0 && f.n2 == 0xE && f.n3 == 0xE {
            Some(Instruction::Ret)
        } else {
            None
        }
    } else if f.n0 == 0x1 {
        Some(Instruction::Jp { addr })
    } else if f.n0 == 0x2 {
        Some(Instruction::Call { addr })
    } else if f.n0 == 0x3 {
        Some(Instruction::SeByte { x, kk })
    } else if f.n0 == 0x4 {
        Some(Instruction::SneByte { x, kk })
    } else if f.n0 == 0x5 {
        if f.n3 == 0x0 {
            Some(Instruction::SeReg { x, y })
        } else {
            None
        }
    } else if f.n0 == 0x6 {
        Some(Instruction::LdByte { x, kk })
    } else if f.n0 == 0x7 {
        Some(Instruction::AddByte { x, kk })
    } else if f.n0 == 0x8 {
        if f.n3 == 0x0 {
            Some(Instruction::LdReg { x, y })
        } else if f.n3 == 0x1 {
            Some(Instruction::Or { x, y })
        } else if f.n3 == 0x2 {
            Some(Instruction::And { x, y })
        } else if f.n3 == 0x3 {
            Some(Instruction::Xor { x, y })
        } else if f.n3 == 0x4 {
            Some(Instruction::AddReg { x, y })
        } else if f.n3 == 0x5 {
            Some(Instruction::SubReg { x, y })
        } else if f.n3 == 0x6 {
            Some(Instruction::Shr { x })
        } else if f.n3 == 0x7 {
            Some(Instruction::SubnReg { x, y })
        } else if f.n3 == 0xE {
            Some(Instruction::Shl { x })
        } else {
            None
        }
    } else if f.n0 == 0x9 {
        if f.n3 == 0x0 {
            Some(Instruction::SneReg { x, y })
        } else {
            None
        }
    } else if f.n0 == 0xA {
        Some(Instruction::LdI { addr })
    } else if f.n0 == 0xB {
        Some(Instruction::JpV0 { addr })
    } else if f.n0 == 0xC {
        Some(Instruction::Rnd { x, kk })
    } else if f.n0 == 0xD {
        Some(Instruction::Drw { x, y, n: f.n3 })
    } else if f.n0 == 0xE {
        if f.n2 == 0x9 && f.n3 == 0xE {
            Some(Instruction::Skp { x })
        } else if f.n2 == 0xA && f.n3 == 0x1 {
            Some(Instruction::Sknp { x })
        } else {
            None
        }
    } else if f.n0 == 0xF {
        if f.n2 == 0x0 && f.n3 == 0x7 {
            Some(Instruction::LdVxDt { x })
        } else if f.n2 == 0x0 && f.n3 == 0xA {
            Some(Instruction::LdKey { x })
        } else if f.n2 == 0x1 && f.n3 == 0x5 {
            Some(Instruction::LdDtVx { x })
        } else if f.n2 == 0x1 && f.n3 == 0x8 {
            Some(Instruction::LdStVx { x })
        } else if f.n2 == 0x1 && f.n3 == 0xE {
            Some(Instruction::AddI { x })
        } else if f.n2 == 0x2 && f.n3 == 0x9 {
            Some(Instruction::LdFont { x })
        } else if f.n2 == 0x3 && f.n3 == 0x3 {
            Some(Instruction::Bcd { x })
        } else if f.n2 == 0x5 && f.n3 == 0x5 {
            Some(Instruction::StoreRegs { x })
        } else if f.n2 == 0x6 && f.n3 == 0x5 {
            Some(Instruction::LoadRegs { x })
        } else {
            None
        }
    } else {
        None
    }
}

impl Instruction {
    /// Whether every register index is below 16 and every address below
    /// 4096: true of whatever the decoder hands out.
    pub open spec fn operands_in_range(self) -> bool {
        match self {
            Instruction::Cls | Instruction::Ret => true,
            Instruction::Jp { addr } | Instruction::Call { addr } | Instruction::LdI { addr }
            | Instruction::JpV0 { addr } => addr < 4096,
            Instruction::SeByte { x, .. } | Instruction::SneByte { x, .. } | Instruction::LdByte {
                x,
                ..
            } | Instruction::AddByte { x, .. } | Instruction::Rnd { x, .. } => x < 16,
            Instruction::SeReg { x, y } | Instruction::LdReg { x, y } | Instruction::Or { x, y }
            | Instruction::And { x, y } | Instruction::Xor { x, y } | Instruction::AddReg { x, y }
            | Instruction::SubReg { x, y } | Instruction::SubnReg { x, y } | Instruction::SneReg {
                x,
                y,
            } => x < 16 && y < 16,
            Instruction::Drw { x, y, n } => x < 16 && y < 16 && n < 16,
            Instruction::Shr { x } | Instruction::Shl { x } | Instruction::Skp { x }
            | Instruction::Sknp { x } | Instruction::LdVxDt { x } | Instruction::LdKey { x }
            | Instruction::LdDtVx { x } | Instruction::LdStVx { x } | Instruction::AddI { x }
            | Instruction::LdFont { x } | Instruction::Bcd { x } | Instruction::StoreRegs { x }
            | Instruction::LoadRegs { x } => x < 16,
        }
    }
}

/// Splits an opcode into its four fields. Never fails: every pair of bytes
/// has fields, each below 16.
pub fn nibbles(hi: u8, lo: u8) -> (f: Nibbles)
    ensures
        f == nibbles_of(hi, lo),
        f.n0 < 16 && f.n1 < 16 && f.n2 < 16 && f.n3 < 16,
{
    assert(hi >> 4 == hi / 16) by (bit_vector);
    assert(hi & 0x0F == hi % 16) by (bit_vector);
    assert(lo >> 4 == lo / 16) by (bit_vector);
    assert(lo & 0x0F == lo % 16) by (bit_vector);
    Nibbles { n0: hi >> 4, n1: hi & 0x0F, n2: lo >> 4, n3: lo & 0x0F }
}

/// Joins three fields into a 12-bit address.
pub fn address(n1: u8, n2: u8, n3: u8) -> (a: u16)
    requires
        n1 < 16 && n2 < 16 && n3 < 16,
    ensures
        a == address_of(n1, n2, n3),
        a < 4096,
{
    let a1: u16 = n1 as u16;
    let a2: u16 = n2 as u16;
    let a3: u16 = n3 as u16;
    assert((a1 << 8) | (a2 << 4) | a3 == a1 * 256 + a2 * 16 + a3) by (bit_vector)
        requires
            a1 < 16 && a2 < 16 && a3 < 16,
    ;
    (a1 << 8) | (a2 << 4) | a3
}

/// Joins two fields into a byte.
pub fn byte(n2: u8, n3: u8) -> (b: u8)
    requires
        n2 < 16 && n3 < 16,
    ensures
        b == byte_of(n2, n3),
{
    assert((n2 << 4) | n3 == n2 * 16 + n3) by (bit_vector)
        requires
            n2 < 16 && n3 < 16,
    ;
    (n2 << 4) | n3
}

/// Finds the instruction that the fields spell; `None` where the opcode table
/// has no entry for them.
pub fn instruction(f: Nibbles) -> (r: Option<Instruction>)
    requires
        f.n0 < 16 && f.n1 < 16 && f.n2 < 16 && f.n3 < 16,
    ensures
        r == instruction_of(f),
        r matches Some(ins) ==> ins.operands_in_range(),
{
    let x = f.n1;
    let y = f.n2;
    let kk = byte(f.n2, f.n3);
    let addr = address(f.n1, f.n2, f.n3);
    match (f.n0, f.n1, f.n2, f.n3) {
        (0x0, 0x0, 0xE, 0x0) => Some(Instruction::Cls),
        (0x0, 0x0, 0xE, 0xE) => Some(Instruction::Ret),
        (0x1, _, _, _) => Some(Instruction::Jp { addr }),
        (0x2, _, _, _) => Some(Instruction::Call { addr }),
        (0x3, _, _, _) => Some(Instruction::SeByte { x, kk }),
        (0x4, _, _, _) => Some(Instruction::SneByte { x, kk }),
        (0x5, _, _, 0x0) => Some(Instruction::SeReg { x, y }),
        (0x6, _, _, _) => Some(Instruction::LdByte { x, kk }),
        (0x7, _, _, _) => Some(Instruction::AddByte { x, kk }),
        (0x8, _, _, 0x0) => Some(Instruction::LdReg { x, y }),
        (0x8, _, _, 0x1) => Some(Instruction::Or { x, y }),
        (0x8, _, _, 0x2) => Some(Instruction::And { x, y }),
        (0x8, _, _, 0x3) => Some(Instruction::Xor { x, y }),
        (0x8, _, _, 0x4) => Some(Instruction::AddReg { x, y }),
        (0x8, _, _, 0x5) => Some(Instruction::SubReg { x, y }),
        (0x8, _, _, 0x6) => Some(Instruction::Shr { x }),
        (0x8, _, _, 0x7) => Some(Instruction::SubnReg { x, y }),
        (0x8, _, _, 0xE) => Some(Instruction::Shl { x }),
        (0x9, _, _, 0x0) => Some(Instruction::SneReg { x, y }),
        (0xA, _, _, _) => Some(Instruction::LdI { addr }),
        (0xB, _, _, _) => Some(Instruction::JpV0 { addr }),
        (0xC, _, _, _) => Some(Instruction::Rnd { x, kk }),
        (0xD, _, _, _) => Some(Instruction::Drw { x, y, n: f.n3 }),
        (0xE, _, 0x9, 0xE) => Some(Instruction::Skp { x }),
        (0xE, _, 0xA, 0x1) => Some(Instruction::Sknp { x }),
        (0xF, _, 0x0, 0x7) => Some(Instruction::LdVxDt { x }),
        (0xF, _, 0x0, 0xA) => Some(Instruction::LdKey { x }),
        (0xF, _, 0x1, 0x5) => Some(Instruction::LdDtVx { x }),
        (0xF, _, 0x1, 0x8) => Some(Instruction::LdStVx { x }),
        (0xF, _, 0x1, 0xE) => Some(Instruction::AddI { x }),
        (0xF, _, 0x2, 0x9) => Some(Instruction::LdFont { x }),
        (0xF, _, 0x3, 0x3) => Some(Instruction::Bcd { x }),
        (0xF, _, 0x5, 0x5) => Some(Instruction::StoreRegs { x }),
        (0xF, _, 0x6, 0x5) => Some(Instruction::LoadRegs { x }),
        _ => None,
    }
}

/// Decodes the opcode whose first byte is `hi` and second byte `lo`.
pub fn decode(hi: u8, lo: u8) -> (r: Option<Instruction>)
    ensures
        r == instruction_of(nibbles_of(hi, lo)),
        r matches Some(ins) ==> ins.operands_in_range(),
{
    instruction(nibbles(hi, lo))
}

} // verus!
