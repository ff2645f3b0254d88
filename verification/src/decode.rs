use vstd::prelude::*;

use crate::errors::DecodeError;

verus! {

/// One decoded instruction, carrying only its operand fields: register
/// indices `x`/`y` in [0,15], a 12-bit address, an 8-bit immediate `kk`,
/// or a 4-bit row count `n`.
#[derive(Clone, Copy, Debug, PartialEq, Eq, Structural)]
pub enum Opcode {
    /// 00E0: clear the framebuffer.
    Cls,
    /// 00EE: return from a subroutine.
    Ret,
    /// 1nnn: jump to `addr`.
    Jp { addr: u16 },
    /// 2nnn: call the subroutine at `addr`.
    Call { addr: u16 },
    /// 3xkk: skip the next instruction if Vx == kk.
    SeByte { x: u8, kk: u8 },
    /// 4xkk: skip the next instruction if Vx != kk.
    SneByte { x: u8, kk: u8 },
    /// 5xy0: skip the next instruction if Vx == Vy.
    SeReg { x: u8, y: u8 },
    /// 6xkk: Vx = kk.
    LdByte { x: u8, kk: u8 },
    /// 7xkk: Vx = Vx + kk (wrapping), flags untouched.
    AddByte { x: u8, kk: u8 },
    /// 8xy0: Vx = Vy.
    LdReg { x: u8, y: u8 },
    /// 8xy1: Vx = Vx | Vy.
    Or { x: u8, y: u8 },
    /// 8xy2: Vx = Vx & Vy.
    And { x: u8, y: u8 },
    /// 8xy3: Vx = Vx ^ Vy.
    Xor { x: u8, y: u8 },
    /// 8xy4: Vx = Vx + Vy (wrapping), VF = carry.
    AddReg { x: u8, y: u8 },
    /// 8xy5: Vx = Vx - Vy (wrapping), VF = not-borrow.
    Sub { x: u8, y: u8 },
    /// 8xy6: shift right by one, VF = shifted-out bit.
    Shr { x: u8, y: u8 },
    /// 8xy7: Vx = Vy - Vx (wrapping), VF = not-borrow.
    Subn { x: u8, y: u8 },
    /// 8xyE: shift left by one, VF = shifted-out bit.
    Shl { x: u8, y: u8 },
    /// 9xy0: skip the next instruction if Vx != Vy.
    SneReg { x: u8, y: u8 },
    /// Annn: I = addr.
    LdI { addr: u16 },
    /// Bnnn: jump to (addr + V0) mod 4096.
    JpV0 { addr: u16 },
    /// Cxkk: Vx = random byte & kk.
    Rnd { x: u8, kk: u8 },
    /// Dxyn: XOR-blit n sprite rows from I at (Vx, Vy), VF = collision.
    Drw { x: u8, y: u8, n: u8 },
    /// Ex9E: skip the next instruction if the key named by Vx is pressed.
    Skp { x: u8 },
    /// ExA1: skip the next instruction if the key named by Vx is not pressed.
    Sknp { x: u8 },
    /// Fx07: Vx = delay timer.
    LdVxDt { x: u8 },
    /// Fx0A: suspend until a key press is delivered; then Vx = key code.
    LdKey { x: u8 },
    /// Fx15: delay timer = Vx.
    LdDtVx { x: u8 },
    /// Fx18: sound timer = Vx.
    LdStVx { x: u8 },
    /// Fx1E: I = (I + Vx) mod 4096.
    AddI { x: u8 },
    /// Fx29: I = address of the font glyph for the low nibble of Vx.
    LdFont { x: u8 },
    /// Fx33: store the three decimal digits of Vx at I, I+1, I+2.
    LdBcd { x: u8 },
    /// Fx55: store V0..Vx into RAM starting at I.
    StoreRegs { x: u8 },
    /// Fx65: load V0..Vx from RAM starting at I.
    LoadRegs { x: u8 },
}

/// The x register-index field of a word: its second-highest nibble.
pub open spec fn field_x(word: u16) -> u8 {
    ((word / 256) % 16) as u8
}

/// The y register-index field of a word: its second-lowest nibble.
pub open spec fn field_y(word: u16) -> u8 {
    ((word / 16) % 16) as u8
}

/// The 4-bit count field of a word: its lowest nibble.
pub open spec fn field_n(word: u16) -> u8 {
    (word % 16) as u8
}

/// The 8-bit immediate field of a word: its low byte.
pub open spec fn field_kk(word: u16) -> u8 {
    (word % 256) as u8
}

/// The 12-bit address field of a word: its low three nibbles.
pub open spec fn field_nnn(word: u16) -> u16 {
    word % 4096
}

/// The defined instruction forms: `Some` maps a word to its decoded
/// opcode, `None` marks an unassigned bit pattern.
pub open spec fn spec_decode(word: u16) -> Option<Opcode> {
    let h = word / 4096;
    let x = field_x(word);
    let y = field_y(word);
    let n = field_n(word);
    let kk = field_kk(word);
    let addr = field_nnn(word);
    if word == 0x00E0 {
        Some(Opcode::Cls)
    } else if word == 0x00EE {
        Some(Opcode::Ret)
    } else if h == 0x1 {
        Some(Opcode::Jp { addr })
    } else if h == 0x2 {
        Some(Opcode::Call { addr })
    } else if h == 0x3 {
        Some(Opcode::SeByte { x, kk })
    } else if h == 0x4 {
        Some(Opcode::SneByte { x, kk })
    } else if h == 0x5 && n == 0 {
        Some(Opcode::SeReg { x, y })
    } else if h == 0x6 {
        Some(Opcode::LdByte { x, kk })
    } else if h == 0x7 {
        Some(Opcode::AddByte { x, kk })
    } else if h == 0x8 && n == 0x0 {
        Some(Opcode::LdReg { x, y })
    } else if h == 0x8 && n == 0x1 {
        Some(Opcode::Or { x, y })
    } else if h == 0x8 && n == 0x2 {
        Some(Opcode::And { x, y })
    } else if h == 0x8 && n == 0x3 {
        Some(Opcode::Xor { x, y })
    } else if h == 0x8 && n == 0x4 {
        Some(Opcode::AddReg { x, y })
    } else if h == 0x8 && n == 0x5 {
        Some(Opcode::Sub { x, y })
    } else if h == 0x8 && n == 0x6 {
        Some(Opcode::Shr { x, y })
    } else if h == 0x8 && n == 0x7 {
        Some(Opcode::Subn { x, y })
    } else if h == 0x8 && n == 0xE {
        Some(Opcode::Shl { x, y })
    } else if h == 0x9 && n == 0 {
        Some(Opcode::SneReg { x, y })
    } else if h == 0xA {
        Some(Opcode::LdI { addr })
    } else if h == 0xB {
        Some(Opcode::JpV0 { addr })
    } else if h == 0xC {
        Some(Opcode::Rnd { x, kk })
    } else if h == 0xD {
        Some(Opcode::Drw { x, y, n })
    } else if h == 0xE && kk == 0x9E {
        Some(Opcode::Skp { x })
    } else if h == 0xE && kk == 0xA1 {
        Some(Opcode::Sknp { x })
    } else if h == 0xF && kk == 0x07 {
        Some(Opcode::LdVxDt { x })
    } else if h == 0xF && kk == 0x0A {
        Some(Opcode::LdKey { x })
    } else if h == 0xF && kk == 0x15 {
        Some(Opcode::LdDtVx { x })
    } else if h == 0xF && kk == 0x18 {
        Some(Opcode::LdStVx { x })
    } else if h == 0xF && kk == 0x1E {
        Some(Opcode::AddI { x })
    } else if h == 0xF && kk == 0x29 {
        Some(Opcode::LdFont { x })
    } else if h == 0xF && kk == 0x33 {
        Some(Opcode::LdBcd { x })
    } else if h == 0xF && kk == 0x55 {
        Some(Opcode::StoreRegs { x })
    } else if h == 0xF && kk == 0x65 {
        Some(Opcode::LoadRegs { x })
    } else {
        None
    }
}

/// Bounds that every decoded opcode's operand fields satisfy: register
/// indices and counts fit in a nibble, addresses in 12 bits.
pub open spec fn op_wf(op: Opcode) -> bool {
    match op {
        Opcode::Cls => true,
        Opcode::Ret => true,
        Opcode::Jp { addr } => addr < 4096,
        Opcode::Call { addr } => addr < 4096,
        Opcode::SeByte { x, kk: _ } => x < 16,
        Opcode::SneByte { x, kk: _ } => x < 16,
        Opcode::SeReg { x, y } => x < 16 && y < 16,
        Opcode::LdByte { x, kk: _ } => x < 16,
        Opcode::AddByte { x, kk: _ } => x < 16,
        Opcode::LdReg { x, y } => x < 16 && y < 16,
        Opcode::Or { x, y } => x < 16 && y < 16,
        Opcode::And { x, y } => x < 16 && y < 16,
        Opcode::Xor { x, y } => x < 16 && y < 16,
        Opcode::AddReg { x, y } => x < 16 && y < 16,
        Opcode::Sub { x, y } => x < 16 && y < 16,
        Opcode::Shr { x, y } => x < 16 && y < 16,
        Opcode::Subn { x, y } => x < 16 && y < 16,
        Opcode::Shl { x, y } => x < 16 && y < 16,
        Opcode::SneReg { x, y } => x < 16 && y < 16,
        Opcode::LdI { addr } => addr < 4096,
        Opcode::JpV0 { addr } => addr < 4096,
        Opcode::Rnd { x, kk: _ } => x < 16,
        Opcode::Drw { x, y, n } => x < 16 && y < 16 && n < 16,
        Opcode::Skp { x } => x < 16,
        Opcode::Sknp { x } => x < 16,
        Opcode::LdVxDt { x } => x < 16,
        Opcode::LdKey { x } => x < 16,
        Opcode::LdDtVx { x } => x < 16,
        Opcode::LdStVx { x } => x < 16,
        Opcode::AddI { x } => x < 16,
        Opcode::LdFont { x } => x < 16,
        Opcode::LdBcd { x } => x < 16,
        Opcode::StoreRegs { x } => x < 16,
        Opcode::LoadRegs { x } => x < 16,
    }
}

/// Turns one big-endian 16-bit word into its decoded opcode; a bit pattern
/// with no defined form is rejected with the raw word, never silently
/// skipped.
pub fn decode(word: u16) -> (r: Result<Opcode, DecodeError>)
    ensures
        r is Ok <==> spec_decode(word) is Some,
        r matches Ok(op) ==> spec_decode(word) == Some(op) && op_wf(op),
        r is Err ==> r == Result::<Opcode, DecodeError>::Err(
            DecodeError::UnknownOpcode(word),
        ),
{
    let h: u16 = word / 4096;
    let x: u8 = ((word / 256) % 16) as u8;
    let y: u8 = ((word / 16) % 16) as u8;
    let n: u8 = (word % 16) as u8;
    let kk: u8 = (word % 256) as u8;
    let addr: u16 = word % 4096;
    if word == 0x00E0 {
        Ok(Opcode::Cls)
    } else if word == 0x00EE {
        Ok(Opcode::Ret)
    } else if h == 0x1 {
        Ok(Opcode::Jp { addr })
    } else if h == 0x2 {
        Ok(Opcode::Call { addr })
    } else if h == 0x3 {
        Ok(Opcode::SeByte { x, kk })
    } else if h == 0x4 {
        Ok(Opcode::SneByte { x, kk })
    } else if h == 0x5 && n == 0 {
        Ok(Opcode::SeReg { x, y })
    } else if h == 0x6 {
        Ok(Opcode::LdByte { x, kk })
    } else if h == 0x7 {
        Ok(Opcode::AddByte { x, kk })
    } else if h == 0x8 && n == 0x0 {
        Ok(Opcode::LdReg { x, y })
    } else if h == 0x8 && n == 0x1 {
        Ok(Opcode::Or { x, y })
    } else if h == 0x8 && n == 0x2 {
        Ok(Opcode::And { x, y })
    } else if h == 0x8 && n == 0x3 {
        Ok(Opcode::Xor { x, y })
    } else if h == 0x8 && n == 0x4 {
        Ok(Opcode::AddReg { x, y })
    } else if h == 0x8 && n == 0x5 {
        Ok(Opcode::Sub { x, y })
    } else if h == 0x8 && n == 0x6 {
        Ok(Opcode::Shr { x, y })
    } else if h == 0x8 && n == 0x7 {
        Ok(Opcode::Subn { x, y })
    } else if h == 0x8 && n == 0xE {
        Ok(Opcode::Shl { x, y })
    } else if h == 0x9 && n == 0 {
        Ok(Opcode::SneReg { x, y })
    } else if h == 0xA {
        Ok(Opcode::LdI { addr })
    } else if h == 0xB {
        Ok(Opcode::JpV0 { addr })
    } else if h == 0xC {
        Ok(Opcode::Rnd { x, kk })
    } else if h == 0xD {
        Ok(Opcode::Drw { x, y, n })
    } else if h == 0xE && kk == 0x9E {
        Ok(Opcode::Skp { x })
    } else if h == 0xE && kk == 0xA1 {
        Ok(Opcode::Sknp { x })
    } else if h == 0xF && kk == 0x07 {
        Ok(Opcode::LdVxDt { x })
    } else if h == 0xF && kk == 0x0A {
        Ok(Opcode::LdKey { x })
    } else if h == 0xF && kk == 0x15 {
        Ok(Opcode::LdDtVx { x })
    } else if h == 0xF && kk == 0x18 {
        Ok(Opcode::LdStVx { x })
    } else if h == 0xF && kk == 0x1E {
        Ok(Opcode::AddI { x })
    } else if h == 0xF && kk == 0x29 {
        Ok(Opcode::LdFont { x })
    } else if h == 0xF && kk == 0x33 {
        Ok(Opcode::LdBcd { x })
    } else if h == 0xF && kk == 0x55 {
        Ok(Opcode::StoreRegs { x })
    } else if h == 0xF && kk == 0x65 {
        Ok(Opcode::LoadRegs { x })
    } else {
        Err(DecodeError::UnknownOpcode(word))
    }
}

} // verus!
