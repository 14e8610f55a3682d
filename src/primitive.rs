// Low level primitives: registers, addresses, immediates, raw opcodes and
// the decoded instruction set.
use vstd::prelude::*;

verus! {

/// The high nibble of an opcode: its instruction group.
pub open spec fn op_kind(op: u16) -> int {
    op as int / 4096
}

/// The second nibble of an opcode (X).
pub open spec fn op_x(op: u16) -> int {
    (op as int / 256) % 16
}

/// The third nibble of an opcode (Y).
pub open spec fn op_y(op: u16) -> int {
    (op as int / 16) % 16
}

/// The fourth nibble of an opcode (N).
pub open spec fn op_n(op: u16) -> int {
    op as int % 16
}

/// The low byte of an opcode (NN).
pub open spec fn op_nn(op: u16) -> int {
    op as int % 256
}

/// The low twelve bits of an opcode (NNN).
pub open spec fn op_nnn(op: u16) -> int {
    op as int % 4096
}

/// One of the sixteen general registers V0..VF, by index.
#[derive(Clone, Copy, Debug, PartialEq, Eq, Structural)]
pub struct Register(u8);

impl Register {
    #[verifier::type_invariant]
    spec fn inv(self) -> bool {
        self.0 < 16
    }

    pub closed spec fn view(&self) -> u8 {
        self.0
    }

    /// The register with the given index, as a specification value.
    pub closed spec fn spec_new(value: u8) -> Register {
        Register(value)
    }

    /// The register with index `value`, or `None` when `value` is not a
    /// four-bit index.
    pub fn new(value: u8) -> (r: Option<Register>)
        ensures
            value < 16 ==> r == Some(Register::spec_new(value)),
            value >= 16 ==> r is None,
    {
        if is_4_bit(value) {
            Some(Register(value))
        } else {
            None
        }
    }

    pub fn get(&self) -> (r: u8)
        ensures
            r == self@,
            r < 16,
    {
        proof {
            use_type_invariant(self);
        }
        self.0
    }
}

/// A twelve-bit memory address.
#[derive(Clone, Copy, Debug, PartialEq, Eq, Structural)]
pub struct Address(u16);

impl Address {
    #[verifier::type_invariant]
    spec fn inv(self) -> bool {
        self.0 <= 0xFFF
    }

    pub closed spec fn view(&self) -> u16 {
        self.0
    }

    pub closed spec fn spec_new(value: u16) -> Address {
        Address(value)
    }

    /// The address `value`, or `None` when it does not fit in twelve bits.
    pub fn new(value: u16) -> (r: Option<Address>)
        ensures
            value <= 0xFFF ==> r == Some(Address::spec_new(value)),
            value > 0xFFF ==> r is None,
    {
        if value <= 0xFFF {
            Some(Address(value))
        } else {
            None
        }
    }

    pub fn get(&self) -> (r: u16)
        ensures
            r == self@,
            r <= 0xFFF,
    {
        proof {
            use_type_invariant(self);
        }
        self.0
    }
}

/// An eight-bit immediate operand.
#[derive(Clone, Copy, Debug, PartialEq, Eq, Structural)]
pub struct Immediate8(u8);

impl Immediate8 {
    pub closed spec fn view(&self) -> u8 {
        self.0
    }

    pub closed spec fn spec_new(value: u8) -> Immediate8 {
        Immediate8(value)
    }

    pub fn new(value: u8) -> (r: Immediate8)
        ensures
            r == Immediate8::spec_new(value),
    {
        Immediate8(value)
    }

    pub fn get(&self) -> (r: u8)
        ensures
            r == self@,
    {
        self.0
    }
}

/// A four-bit immediate operand.
#[derive(Clone, Copy, Debug, PartialEq, Eq, Structural)]
pub struct Immediate4(u8);

impl Immediate4 {
    #[verifier::type_invariant]
    spec fn inv(self) -> bool {
        self.0 < 16
    }

    pub closed spec fn view(&self) -> u8 {
        self.0
    }

    pub closed spec fn spec_new(value: u8) -> Immediate4 {
        Immediate4(value)
    }

    /// The immediate `value`, or `None` when it does not fit in four bits.
    pub fn new(value: u8) -> (r: Option<Immediate4>)
        ensures
            value < 16 ==> r == Some(Immediate4::spec_new(value)),
            value >= 16 ==> r is None,
    {
        if is_4_bit(value) {
            Some(Immediate4(value))
        } else {
            None
        }
    }

    pub fn get(&self) -> (r: u8)
        ensures
            r == self@,
            r < 16,
    {
        proof {
            use_type_invariant(self);
        }
        self.0
    }
}

pub broadcast proof fn lemma_register_spec_new(value: u8)
    ensures
        #[trigger] Register::spec_new(value)@ == value,
{
}

pub broadcast proof fn lemma_register_ext(r: Register)
    ensures
        #[trigger] Register::spec_new(r@) == r,
{
}

pub broadcast proof fn lemma_address_spec_new(value: u16)
    ensures
        #[trigger] Address::spec_new(value)@ == value,
{
}

pub broadcast proof fn lemma_address_ext(a: Address)
    ensures
        #[trigger] Address::spec_new(a@) == a,
{
}

pub broadcast proof fn lemma_immediate8_spec_new(value: u8)
    ensures
        #[trigger] Immediate8::spec_new(value)@ == value,
{
}

pub broadcast proof fn lemma_immediate8_ext(i: Immediate8)
    ensures
        #[trigger] Immediate8::spec_new(i@) == i,
{
}

pub broadcast proof fn lemma_immediate4_spec_new(value: u8)
    ensures
        #[trigger] Immediate4::spec_new(value)@ == value,
{
}

pub broadcast proof fn lemma_immediate4_ext(i: Immediate4)
    ensures
        #[trigger] Immediate4::spec_new(i@) == i,
{
}

pub broadcast group group_primitive_lemmas {
    lemma_register_spec_new,
    lemma_register_ext,
    lemma_address_spec_new,
    lemma_address_ext,
    lemma_immediate8_spec_new,
    lemma_immediate8_ext,
    lemma_immediate4_spec_new,
    lemma_immediate4_ext,
}

fn is_4_bit(value: u8) -> (r: bool)
    ensures
        r == (value < 16),
{
    assert(value & 0xF == value <==> value < 16) by (bit_vector);
    value & 0xF == value
}

/// A sixteen-bit opcode as fetched from memory.
#[derive(Clone, Copy, Debug, PartialEq, Eq, Structural)]
pub struct RawInstruction(u16);

impl RawInstruction {
    pub closed spec fn view(&self) -> u16 {
        self.0
    }

    /// The opcode made of `byte1` (high) and `byte2` (low).
    pub fn new(byte1: u8, byte2: u8) -> (r: RawInstruction)
        ensures
            r@ == byte1 as int * 256 + byte2 as int,
    {
        RawInstruction(byte1 as u16 * 256 + byte2 as u16)
    }

    /// The opcode as a number.
    pub fn value(&self) -> (r: u16)
        ensures
            r == self@,
    {
        self.0
    }

    pub fn to_nibbles(&self) -> (r: (u8, u8, u8, u8))
        ensures
            r.0 == op_kind(self@),
            r.1 == op_x(self@),
            r.2 == op_y(self@),
            r.3 == op_n(self@),
    {
        let v = self.0;
        assert(((v & 0xF000) >> 12) == v / 4096) by (bit_vector);
        assert(((v & 0x0F00) >> 8) == (v / 256) % 16) by (bit_vector);
        assert(((v & 0x00F0) >> 4) == (v / 16) % 16) by (bit_vector);
        assert((v & 0x000F) == v % 16) by (bit_vector);
        (
            ((v & 0xF000) >> 12) as u8,
            ((v & 0x0F00) >> 8) as u8,
            ((v & 0x00F0) >> 4) as u8,
            (v & 0x000F) as u8,
        )
    }

    pub fn nnn(&self) -> (r: Address)
        ensures
            r@ == op_nnn(self@),
    {
        let v = self.0;
        assert((0x0FFF & v) == v % 4096) by (bit_vector);
        Address(0x0FFF & v)
    }

    pub fn nn(&self) -> (r: Immediate8)
        ensures
            r@ == op_nn(self@),
    {
        let v = self.0;
        assert((0x00FF & v) == v % 256) by (bit_vector);
        Immediate8((0x00FF & v) as u8)
    }

    pub fn x(&self) -> (r: Register)
        ensures
            r@ == op_x(self@),
    {
        Register(self.to_nibbles().1)
    }

    pub fn y(&self) -> (r: Register)
        ensures
            r@ == op_y(self@),
    {
        Register(self.to_nibbles().2)
    }

    pub fn n(&self) -> (r: Immediate4)
        ensures
            r@ == op_n(self@),
    {
        Immediate4(self.to_nibbles().3)
    }
}

/// The register-to-register operations of group 8XY*.
#[derive(Clone, Copy, Debug, PartialEq, Eq, Structural)]
pub enum RegOperation {
    Assign,
    Or,
    And,
    Xor,
    Add,
    Sub,
    SubInv,
    ShiftLeft,
    ShiftRight,
}

/// The comparison a skip instruction makes.
#[derive(Clone, Copy, Debug, PartialEq, Eq, Structural)]
pub enum SkipIf {
    Eq,
    NotEq,
}

#[derive(Clone, Copy, Debug, PartialEq, Eq, Structural)]
pub enum Instruction {
    // Draw
    ClearScreen,
    Draw(Register, Register, Immediate4),
    SetFont(Register),
    // Subroutine
    Jump(Address),
    JumpWithOffset(Address),
    CallSubroutine(Address),
    Return,
    // Controlflow
    Skip(SkipIf, Register, Immediate8),
    SkipReg(SkipIf, Register, Register),
    // Keys
    SkipKeyPress(SkipIf, Register),
    GetKey(Register),
    // Register Logic
    RegOp(RegOperation, Register, Register),
    SetRegImmediate(Register, Immediate8),
    AddRegImmediate(Register, Immediate8),
    Random(Register, Immediate8),
    // Store & Load
    StoreAddr(Register),
    LoadAddr(Register),
    // Timers
    SetSoundTimer(Register),
    SetDelayTimer(Register),
    GetDelayTimer(Register),
    // Index
    SetIndex(Address),
    AddIndex(Register),
    // Misc
    BinaryDecimalConv(Register),
    // A native routine call (0NNN), which an interpreter cannot run: a no-op.
    ExecuteMachineLangRoutine,
    Invalid,
}

impl Instruction {
    /// Every operand lies in its declared width.
    pub open spec fn wf(self) -> bool {
        match self {
            Instruction::Draw(x, y, n) => x@ < 16 && y@ < 16 && n@ < 16,
            Instruction::SetFont(x) => x@ < 16,
            Instruction::Jump(a) => a@ <= 0xFFF,
            Instruction::JumpWithOffset(a) => a@ <= 0xFFF,
            Instruction::CallSubroutine(a) => a@ <= 0xFFF,
            Instruction::Skip(_, x, _) => x@ < 16,
            Instruction::SkipReg(_, x, y) => x@ < 16 && y@ < 16,
            Instruction::SkipKeyPress(_, x) => x@ < 16,
            Instruction::GetKey(x) => x@ < 16,
            Instruction::RegOp(_, x, y) => x@ < 16 && y@ < 16,
            Instruction::SetRegImmediate(x, _) => x@ < 16,
            Instruction::AddRegImmediate(x, _) => x@ < 16,
            Instruction::Random(x, _) => x@ < 16,
            Instruction::StoreAddr(x) => x@ < 16,
            Instruction::LoadAddr(x) => x@ < 16,
            Instruction::SetSoundTimer(x) => x@ < 16,
            Instruction::SetDelayTimer(x) => x@ < 16,
            Instruction::GetDelayTimer(x) => x@ < 16,
            Instruction::SetIndex(a) => a@ <= 0xFFF,
            Instruction::AddIndex(x) => x@ < 16,
            Instruction::BinaryDecimalConv(x) => x@ < 16,
            _ => true,
        }
    }
}

} // verus!
