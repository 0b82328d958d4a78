//! Abstractions for the 6502 CPU instruction set: addressing modes,
//! instruction types and the decoder from raw bytes.
use vstd::prelude::*;
use vstd::slice::{slice_subrange, slice_to_vec};

pub mod opcodes;

pub use opcodes::{
    category_of, description_of, lookup, mnemonic_of, opcode_entry, opcode_of,
};

verus! {

/// Instruction addressing mode with the associated argument (memory address / offset)
#[derive(Clone, Copy, Debug, PartialEq, Eq, Structural)]
pub enum AddrMode {
    /// accumulator
    A,
    /// absolute
    Abs(u16),
    /// absolute, X-indexed
    AbsX(u16),
    /// absolute, Y-indexed
    AbsY(u16),
    /// immediate
    Imm(u8),
    /// implied
    Impl,
    /// indirect
    Ind(u16),
    /// X-indexed, indirect
    XInd(u8),
    /// indirect, Y-indexed
    IndY(u8),
    /// relative
    Rel(i8),
    /// zeropage
    Zpg(u8),
    /// zeropage, X-indexed
    ZpgX(u8),
    /// zeropage, Y-indexed
    ZpgY(u8),
}

/// An addressing mode without its argument.
#[derive(Clone, Copy, Debug, PartialEq, Eq, Structural)]
pub enum AddrKind {
    A,
    Abs,
    AbsX,
    AbsY,
    Imm,
    Impl,
    Ind,
    XInd,
    IndY,
    Rel,
    Zpg,
    ZpgX,
    ZpgY,
}

#[derive(Clone, Copy, Debug, PartialEq, Eq, Structural)]
pub enum InstructionType {
    ADC, AND, ASL, BCC, BCS, BEQ, BIT, BMI, BNE, BPL, BRK, BVC, BVS, CLC, CLD, CLI, CLV, CMP, CPX,
    CPY, DEC, DEX, DEY, EOR, INC, INX, INY, JMP, JSR, LDA, LDX, LDY, LSR, NOP, ORA, PHA, PHP, PLA,
    PLP, ROL, ROR, RTI, RTS, SBC, SEC, SED, SEI, STA, STX, STY, TAX, TAY, TSX, TXA, TXS, TYA,
}

/// The kinds of work that instructions do.
#[derive(Clone, Copy, Debug, PartialEq, Eq, Structural)]
pub enum Category {
    /// Moves between a register and memory.
    LoadStore,
    /// Addition and subtraction with carry.
    Arithmetic,
    /// Bitwise combination with, or test against, the accumulator.
    Logical,
    /// Shifts and rotates by one bit.
    ShiftRotate,
    /// Comparison of a register with memory.
    Compare,
    /// Steps by one, of memory or of an index register.
    IncDec,
    /// Conditional branches.
    Branch,
    /// Jumps, calls, returns and the break.
    Jump,
    /// Pushes and pulls of a register.
    Stack,
    /// Setting or clearing one flag.
    Flag,
    /// Copies from register to register.
    Transfer,
    /// No operation.
    NoOp,
}

/// Why a run of bytes is not an instruction.
#[derive(Clone, Copy, Debug, PartialEq, Eq, Structural)]
pub enum DecodeError {
    /// The bytes end before the opcode or before the end of its operand.
    Truncated,
    /// The first byte is none of the defined opcode values.
    IllegalOpcode { opcode: u8 },
}

/// The 16-bit value whose low byte is `low` and whose high byte is `high`.
pub open spec fn word(low: u8, high: u8) -> u16 {
    (low + 256 * high) as u16
}

/// The byte read as a signed number in two's complement.
pub open spec fn signed(byte: u8) -> i8 {
    if byte < 128 {
        byte as i8
    } else {
        (byte - 256) as i8
    }
}

/// Join two bytes into a 16-bit value, low byte first.
pub fn make_word(low: u8, high: u8) -> (value: u16)
    ensures
        value == word(low, high),
{
    let value = (high as u16) << 8 | (low as u16);
    assert(((high as u16) << 8 | (low as u16)) == (low as u16) + 256 * (high as u16))
        by (bit_vector);
    value
}

/// Read a byte as a signed number in two's complement.
pub fn to_signed(byte: u8) -> (value: i8)
    ensures
        value == signed(byte),
{
    if byte < 128 {
        byte as i8
    } else {
        (byte as i16 - 256) as i8
    }
}

impl AddrKind {
    /// Number of operand bytes that follow the opcode.
    pub open spec fn operand_size(self) -> nat {
        match self {
            AddrKind::A | AddrKind::Impl => 0,
            AddrKind::Abs | AddrKind::AbsX | AddrKind::AbsY | AddrKind::Ind => 2,
            _ => 1,
        }
    }

    /// Number of operand bytes that follow the opcode.
    pub fn operand_len(&self) -> (size: usize)
        ensures
            size == self.operand_size(),
    {
        match self {
            AddrKind::A | AddrKind::Impl => 0,
            AddrKind::Abs | AddrKind::AbsX | AddrKind::AbsY | AddrKind::Ind => 2,
            _ => 1,
        }
    }

    /// The addressing mode of this kind whose argument is taken from the
    /// bytes that follow the opcode `bytes[0]`; 16-bit arguments are
    /// little-endian.
    pub open spec fn with_operand(self, bytes: Seq<u8>) -> AddrMode {
        match self {
            AddrKind::A => AddrMode::A,
            AddrKind::Abs => AddrMode::Abs(word(bytes[1], bytes[2])),
            AddrKind::AbsX => AddrMode::AbsX(word(bytes[1], bytes[2])),
            AddrKind::AbsY => AddrMode::AbsY(word(bytes[1], bytes[2])),
            AddrKind::Imm => AddrMode::Imm(bytes[1]),
            AddrKind::Impl => AddrMode::Impl,
            AddrKind::Ind => AddrMode::Ind(word(bytes[1], bytes[2])),
            AddrKind::XInd => AddrMode::XInd(bytes[1]),
            AddrKind::IndY => AddrMode::IndY(bytes[1]),
            AddrKind::Rel => AddrMode::Rel(signed(bytes[1])),
            AddrKind::Zpg => AddrMode::Zpg(bytes[1]),
            AddrKind::ZpgX => AddrMode::ZpgX(bytes[1]),
            AddrKind::ZpgY => AddrMode::ZpgY(bytes[1]),
        }
    }
}

impl AddrMode {
    /// The mode without its argument.
    pub fn get_kind(&self) -> (kind: AddrKind)
        ensures
            kind == self.kind(),
    {
        match self {
            AddrMode::A => AddrKind::A,
            AddrMode::Abs(_) => AddrKind::Abs,
            AddrMode::AbsX(_) => AddrKind::AbsX,
            AddrMode::AbsY(_) => AddrKind::AbsY,
            AddrMode::Imm(_) => AddrKind::Imm,
            AddrMode::Impl => AddrKind::Impl,
            AddrMode::Ind(_) => AddrKind::Ind,
            AddrMode::XInd(_) => AddrKind::XInd,
            AddrMode::IndY(_) => AddrKind::IndY,
            AddrMode::Rel(_) => AddrKind::Rel,
            AddrMode::Zpg(_) => AddrKind::Zpg,
            AddrMode::ZpgX(_) => AddrKind::ZpgX,
            AddrMode::ZpgY(_) => AddrKind::ZpgY,
        }
    }

    /// The mode without its argument.
    pub open spec fn kind(self) -> AddrKind {
        match self {
            AddrMode::A => AddrKind::A,
            AddrMode::Abs(_) => AddrKind::Abs,
            AddrMode::AbsX(_) => AddrKind::AbsX,
            AddrMode::AbsY(_) => AddrKind::AbsY,
            AddrMode::Imm(_) => AddrKind::Imm,
            AddrMode::Impl => AddrKind::Impl,
            AddrMode::Ind(_) => AddrKind::Ind,
            AddrMode::XInd(_) => AddrKind::XInd,
            AddrMode::IndY(_) => AddrKind::IndY,
            AddrMode::Rel(_) => AddrKind::Rel,
            AddrMode::Zpg(_) => AddrKind::Zpg,
            AddrMode::ZpgX(_) => AddrKind::ZpgX,
            AddrMode::ZpgY(_) => AddrKind::ZpgY,
        }
    }
}

#[derive(Debug)]
pub struct InstructionName {
    pub mnemonic: &'static str,
    pub description: &'static str,
}

impl InstructionName {
    /// The name of the instruction that a defined opcode value encodes.
    pub fn from(opcode: u8) -> (name: Self)
        requires
            opcode_entry(opcode) is Some,
        ensures
            name.mnemonic@ == mnemonic_of(opcode_entry(opcode).unwrap().0),
            name.description@ == description_of(opcode_entry(opcode).unwrap().0),
    {
        match lookup(opcode) {
            Some((ins_type, _)) => InstructionName {
                mnemonic: ins_type.mnemonic(),
                description: ins_type.description(),
            },
            None => InstructionName { mnemonic: "", description: "" },
        }
    }
}

/// Instruction to be executed by the processor and related useful information
#[derive(Debug)]
pub struct Instruction {
    pub machine_code: Vec<u8>,
    pub ins_type: InstructionType,
    pub addr_mode: AddrMode,
    pub name: InstructionName,
}

/// An instruction as a value: its type, its addressing mode with the
/// argument, the bytes that encode it and its name.
pub struct InstructionView {
    pub ins_type: InstructionType,
    pub addr_mode: AddrMode,
    pub machine_code: Seq<u8>,
    pub mnemonic: Seq<char>,
    pub description: Seq<char>,
}

impl InstructionView {
    /// The encoding is as long as the addressing mode says: the opcode and
    /// the operand bytes.
    pub open spec fn wf(self) -> bool {
        self.machine_code.len() == 1 + self.addr_mode.kind().operand_size()
    }
}

/// What a run of bytes decodes to. The first byte is the opcode; it selects
/// the instruction and the addressing mode, whose argument is read from the
/// one or two bytes that follow. Bytes after the instruction are ignored.
pub open spec fn decode(bytes: Seq<u8>) -> Result<InstructionView, DecodeError> {
    if bytes.len() == 0 {
        Err(DecodeError::Truncated)
    } else {
        match opcode_entry(bytes[0]) {
            None => Err(DecodeError::IllegalOpcode { opcode: bytes[0] }),
            Some((ins_type, kind)) => if bytes.len() < 1 + kind.operand_size() {
                Err(DecodeError::Truncated)
            } else {
                Ok(
                    InstructionView {
                        ins_type,
                        addr_mode: kind.with_operand(bytes),
                        machine_code: bytes.take(1 + kind.operand_size() as int),
                        mnemonic: mnemonic_of(ins_type),
                        description: description_of(ins_type),
                    },
                )
            },
        }
    }
}

impl Instruction {
    pub open spec fn view(&self) -> InstructionView {
        InstructionView {
            ins_type: self.ins_type,
            addr_mode: self.addr_mode,
            machine_code: self.machine_code@,
            mnemonic: self.name.mnemonic@,
            description: self.name.description@,
        }
    }

    /// Decode single instruction from byte slice
    pub fn from(bytes: &[u8]) -> (r: Result<Self, DecodeError>)
        ensures
            match decode(bytes@) {
                Ok(decoded) => r is Ok && r.unwrap()@ == decoded,
                Err(e) => r is Err && r.unwrap_err() == e,
            },
    {
        if bytes.len() == 0 {
            return Err(DecodeError::Truncated);
        }
        let opcode = bytes[0];
        let (ins_type, kind) = match lookup(opcode) {
            Some(entry) => entry,
            None => {
                return Err(DecodeError::IllegalOpcode { opcode });
            },
        };
        let addr_mode = match kind {
            AddrKind::A => AddrMode::A,
            AddrKind::Abs => AddrMode::Abs(get_u16(bytes)?),
            AddrKind::AbsX => AddrMode::AbsX(get_u16(bytes)?),
            AddrKind::AbsY => AddrMode::AbsY(get_u16(bytes)?),
            AddrKind::Imm => AddrMode::Imm(get_u8(bytes)?),
            AddrKind::Impl => AddrMode::Impl,
            AddrKind::Ind => AddrMode::Ind(get_u16(bytes)?),
            AddrKind::XInd => AddrMode::XInd(get_u8(bytes)?),
            AddrKind::IndY => AddrMode::IndY(get_u8(bytes)?),
            AddrKind::Rel => AddrMode::Rel(to_signed(get_u8(bytes)?)),
            AddrKind::Zpg => AddrMode::Zpg(get_u8(bytes)?),
            AddrKind::ZpgX => AddrMode::ZpgX(get_u8(bytes)?),
            AddrKind::ZpgY => AddrMode::ZpgY(get_u8(bytes)?),
        };
        let length = 1 + kind.operand_len();
        let machine_code = slice_to_vec(slice_subrange(bytes, 0, length));
        Ok(Instruction { machine_code, ins_type, addr_mode, name: InstructionName::from(opcode) })
    }
}

/** decoding helpers **/

/// The byte that follows the opcode stored at `bytes[0]`.
pub fn get_u8(bytes: &[u8]) -> (r: Result<u8, DecodeError>)
    ensures
        r == if bytes@.len() > 1 {
            Ok::<u8, DecodeError>(bytes@[1])
        } else {
            Err::<u8, DecodeError>(DecodeError::Truncated)
        },
{
    get_u8_at(bytes, 1)
}

/// The byte at `index`.
pub fn get_u8_at(bytes: &[u8], index: usize) -> (r: Result<u8, DecodeError>)
    ensures
        r == if index < bytes@.len() {
            Ok::<u8, DecodeError>(bytes@[index as int])
        } else {
            Err::<u8, DecodeError>(DecodeError::Truncated)
        },
{
    if index < bytes.len() {
        Ok(bytes[index])
    } else {
        Err(DecodeError::Truncated)
    }
}

/// The little-endian 16-bit value that follows the opcode stored at
/// `bytes[0]`.
pub fn get_u16(bytes: &[u8]) -> (r: Result<u16, DecodeError>)
    ensures
        r == if bytes@.len() > 2 {
            Ok::<u16, DecodeError>(word(bytes@[1], bytes@[2]))
        } else {
            Err::<u16, DecodeError>(DecodeError::Truncated)
        },
{
    let lower_byte = get_u8_at(bytes, 1)?;
    let higher_byte = get_u8_at(bytes, 2)?;
    Ok(make_word(lower_byte, higher_byte))
}

/// Whatever decodes is well formed, and unless it is `BRK` its addressing
/// mode is legal for it: no opcode of the table leads execution into a mode
/// that the instruction cannot work with.
pub proof fn lemma_decoded_is_legal(bytes: Seq<u8>)
    requires
        decode(bytes) is Ok,
    ensures
        decode(bytes).unwrap().wf(),
        decode(bytes).unwrap().machine_code[0] == bytes[0],
        decode(bytes).unwrap().ins_type != InstructionType::BRK ==> decode(
            bytes,
        ).unwrap().executable(),
{
}

} // verus!
