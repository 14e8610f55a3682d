// Decodes a raw opcode into an instruction, and encodes one back.
use vstd::prelude::*;

use crate::primitive::{
    group_primitive_lemmas, op_kind, op_n, op_nn, op_nnn, op_x, op_y, Address, Immediate4,
    Immediate8, Instruction, RawInstruction, RegOperation, Register, SkipIf,
};

verus! {

broadcast use group_primitive_lemmas;

/// The operation selected by the last nibble of a group-8 opcode.
pub open spec fn reg_op_of(n: int) -> Option<RegOperation> {
    if n == 0x0 {
        Some(RegOperation::Assign)
    } else if n == 0x1 {
        Some(RegOperation::Or)
    } else if n == 0x2 {
        Some(RegOperation::And)
    } else if n == 0x3 {
        Some(RegOperation::Xor)
    } else if n == 0x4 {
        Some(RegOperation::Add)
    } else if n == 0x5 {
        Some(RegOperation::Sub)
    } else if n == 0x6 {
        Some(RegOperation::ShiftRight)
    } else if n == 0x7 {
        Some(RegOperation::SubInv)
    } else if n == 0xE {
        Some(RegOperation::ShiftLeft)
    } else {
        None
    }
}

/// The last nibble of the group-8 opcode of an operation.
pub open spec fn reg_op_code(op: RegOperation) -> int {
    match op {
        RegOperation::Assign => 0x0,
        RegOperation::Or => 0x1,
        RegOperation::And => 0x2,
        RegOperation::Xor => 0x3,
        RegOperation::Add => 0x4,
        RegOperation::Sub => 0x5,
        RegOperation::ShiftRight => 0x6,
        RegOperation::SubInv => 0x7,
        RegOperation::ShiftLeft => 0xE,
    }
}

/// The instruction table: what each opcode decodes to, `None` for the
/// patterns that name no instruction.
pub open spec fn decode_spec(op: u16) -> Option<Instruction> {
    let k = op_kind(op);
    let n = op_n(op);
    let nn = op_nn(op);
    let x = Register::spec_new(op_x(op) as u8);
    let y = Register::spec_new(op_y(op) as u8);
    let addr = Address::spec_new(op_nnn(op) as u16);
    let imm = Immediate8::spec_new(nn as u8);
    if op == 0x00E0 {
        Some(Instruction::ClearScreen)
    } else if op == 0x00EE {
        Some(Instruction::Return)
    } else if k == 0x0 {
        Some(Instruction::ExecuteMachineLangRoutine)
    } else if k == 0x1 {
        Some(Instruction::Jump(addr))
    } else if k == 0x2 {
        Some(Instruction::CallSubroutine(addr))
    } else if k == 0x3 {
        Some(Instruction::Skip(SkipIf::Eq, x, imm))
    } else if k == 0x4 {
        Some(Instruction::Skip(SkipIf::NotEq, x, imm))
    } else if k == 0x5 {
        if n == 0 {
            Some(Instruction::SkipReg(SkipIf::Eq, x, y))
        } else {
            None
        }
    } else if k == 0x6 {
        Some(Instruction::SetRegImmediate(x, imm))
    } else if k == 0x7 {
        Some(Instruction::AddRegImmediate(x, imm))
    } else if k == 0x8 {
        match reg_op_of(n) {
            Some(o) => Some(Instruction::RegOp(o, x, y)),
            None => None,
        }
    } else if k == 0x9 {
        if n == 0 {
            Some(Instruction::SkipReg(SkipIf::NotEq, x, y))
        } else {
            None
        }
    } else if k == 0xA {
        Some(Instruction::SetIndex(addr))
    } else if k == 0xB {
        Some(Instruction::JumpWithOffset(addr))
    } else if k == 0xC {
        Some(Instruction::Random(x, imm))
    } else if k == 0xD {
        Some(Instruction::Draw(x, y, Immediate4::spec_new(n as u8)))
    } else if k == 0xE {
        if nn == 0x9E {
            Some(Instruction::SkipKeyPress(SkipIf::Eq, x))
        } else if nn == 0xA1 {
            Some(Instruction::SkipKeyPress(SkipIf::NotEq, x))
        } else {
            None
        }
    } else if nn == 0x07 {
        Some(Instruction::GetDelayTimer(x))
    } else if nn == 0x0A {
        Some(Instruction::GetKey(x))
    } else if nn == 0x15 {
        Some(Instruction::SetDelayTimer(x))
    } else if nn == 0x18 {
        Some(Instruction::SetSoundTimer(x))
    } else if nn == 0x1E {
        Some(Instruction::AddIndex(x))
    } else if nn == 0x29 {
        Some(Instruction::SetFont(x))
    } else if nn == 0x33 {
        Some(Instruction::BinaryDecimalConv(x))
    } else if nn == 0x55 {
        Some(Instruction::StoreAddr(x))
    } else if nn == 0x65 {
        Some(Instruction::LoadAddr(x))
    } else {
        None
    }
}

/// The opcode of an instruction; `0000` stands for the native routine
/// call, and `Invalid` has none.
pub open spec fn encode_spec(inst: Instruction) -> Option<u16> {
    match inst {
        Instruction::ClearScreen => Some(0x00E0),
        Instruction::Return => Some(0x00EE),
        Instruction::ExecuteMachineLangRoutine => Some(0x0000),
        Instruction::Jump(a) => Some((0x1000 + a@) as u16),
        Instruction::CallSubroutine(a) => Some((0x2000 + a@) as u16),
        Instruction::Skip(SkipIf::Eq, x, v) => Some((0x3000 + x@ * 256 + v@) as u16),
        Instruction::Skip(SkipIf::NotEq, x, v) => Some((0x4000 + x@ * 256 + v@) as u16),
        Instruction::SkipReg(SkipIf::Eq, x, y) => Some((0x5000 + x@ * 256 + y@ * 16) as u16),
        Instruction::SetRegImmediate(x, v) => Some((0x6000 + x@ * 256 + v@) as u16),
        Instruction::AddRegImmediate(x, v) => Some((0x7000 + x@ * 256 + v@) as u16),
        Instruction::RegOp(o, x, y) => Some(
            (0x8000 + x@ * 256 + y@ * 16 + reg_op_code(o)) as u16,
        ),
        Instruction::SkipReg(SkipIf::NotEq, x, y) => Some((0x9000 + x@ * 256 + y@ * 16) as u16),
        Instruction::SetIndex(a) => Some((0xA000 + a@) as u16),
        Instruction::JumpWithOffset(a) => Some((0xB000 + a@) as u16),
        Instruction::Random(x, v) => Some((0xC000 + x@ * 256 + v@) as u16),
        Instruction::Draw(x, y, n) => Some((0xD000 + x@ * 256 + y@ * 16 + n@) as u16),
        Instruction::SkipKeyPress(SkipIf::Eq, x) => Some((0xE09E + x@ * 256) as u16),
        Instruction::SkipKeyPress(SkipIf::NotEq, x) => Some((0xE0A1 + x@ * 256) as u16),
        Instruction::GetDelayTimer(x) => Some((0xF007 + x@ * 256) as u16),
        Instruction::GetKey(x) => Some((0xF00A + x@ * 256) as u16),
        Instruction::SetDelayTimer(x) => Some((0xF015 + x@ * 256) as u16),
        Instruction::SetSoundTimer(x) => Some((0xF018 + x@ * 256) as u16),
        Instruction::AddIndex(x) => Some((0xF01E + x@ * 256) as u16),
        Instruction::SetFont(x) => Some((0xF029 + x@ * 256) as u16),
        Instruction::BinaryDecimalConv(x) => Some((0xF033 + x@ * 256) as u16),
        Instruction::StoreAddr(x) => Some((0xF055 + x@ * 256) as u16),
        Instruction::LoadAddr(x) => Some((0xF065 + x@ * 256) as u16),
        Instruction::Invalid => None,
    }
}

pub struct Decoder;

impl Decoder {
    /// The instruction that `raw` encodes, or `None` when no instruction
    /// has that opcode.
    pub fn decode(raw: &RawInstruction) -> (r: Option<Instruction>)
        ensures
            r == decode_spec(raw@),
            r matches Some(i) ==> i.wf(),
    {
        let (nibble1, nibble2, nibble3, nibble4) = raw.to_nibbles();
        proof {
            assert(op_nn(raw@) == op_y(raw@) * 16 + op_n(raw@));
            assert(raw@ == op_kind(raw@) * 4096 + op_x(raw@) * 256 + op_y(raw@) * 16 + op_n(raw@));
        }
        Some(
            match (nibble1, nibble3, nibble4) {
                // Display/Draw
                (0x0, 0xE, 0x0) if nibble2 == 0 => Instruction::ClearScreen,
                (0x0, 0xE, 0xE) if nibble2 == 0 => Instruction::Return,
                (0x0, _, _) => Instruction::ExecuteMachineLangRoutine,
                (0xD, _, _) => Instruction::Draw(raw.x(), raw.y(), raw.n()),
                (0xF, 0x2, 0x9) => Instruction::SetFont(raw.x()),
                // Subroutine
                (0x1, _, _) => Instruction::Jump(raw.nnn()),
                (0xB, _, _) => Instruction::JumpWithOffset(raw.nnn()),
                (0x2, _, _) => Instruction::CallSubroutine(raw.nnn()),
                // Control Flow
                (0x3, _, _) => Instruction::Skip(SkipIf::Eq, raw.x(), raw.nn()),
                (0x4, _, _) => Instruction::Skip(SkipIf::NotEq, raw.x(), raw.nn()),
                (0x5, _, 0x0) => Instruction::SkipReg(SkipIf::Eq, raw.x(), raw.y()),
                (0x9, _, 0x0) => Instruction::SkipReg(SkipIf::NotEq, raw.x(), raw.y()),
                // Keys
                (0xF, 0x0, 0xA) => Instruction::GetKey(raw.x()),
                (0xE, 0x9, 0xE) => Instruction::SkipKeyPress(SkipIf::Eq, raw.x()),
                (0xE, 0xA, 0x1) => Instruction::SkipKeyPress(SkipIf::NotEq, raw.x()),
                // Register Logic
                (0x6, _, _) => Instruction::SetRegImmediate(raw.x(), raw.nn()),
                (0x7, _, _) => Instruction::AddRegImmediate(raw.x(), raw.nn()),
                (0x8, _, op) => {
                    let reg_op: RegOperation = match op {
                        0x0 => RegOperation::Assign,
                        0x1 => RegOperation::Or,
                        0x2 => RegOperation::And,
                        0x3 => RegOperation::Xor,
                        0x4 => RegOperation::Add,
                        0x5 => RegOperation::Sub,
                        0x7 => RegOperation::SubInv,
                        0x6 => RegOperation::ShiftRight,
                        0xE => RegOperation::ShiftLeft,
                        _ => return None,
                    };
                    Instruction::RegOp(reg_op, raw.x(), raw.y())
                },
                // Store and Load
                (0xF, 0x5, 0x5) => Instruction::StoreAddr(raw.x()),
                (0xF, 0x6, 0x5) => Instruction::LoadAddr(raw.x()),
                // Timers
                (0xF, 0x0, 0x7) => Instruction::GetDelayTimer(raw.x()),
                (0xF, 0x1, 0x5) => Instruction::SetDelayTimer(raw.x()),
                (0xF, 0x1, 0x8) => Instruction::SetSoundTimer(raw.x()),
                // Index
                (0xA, _, _) => Instruction::SetIndex(raw.nnn()),
                (0xF, 0x1, 0xE) => Instruction::AddIndex(raw.x()),
                // Misc
                (0xC, _, _) => Instruction::Random(raw.x(), raw.nn()),
                (0xF, 0x3, 0x3) => Instruction::BinaryDecimalConv(raw.x()),
                _ => return None,
            },
        )
    }
}

impl Decoder {
    /// The opcode of `inst` (`0000` for the native routine call), or `None`
    /// for `Invalid`.
    pub fn encode(inst: &Instruction) -> (r: Option<RawInstruction>)
        ensures
            match encode_spec(*inst) {
                Some(op) => r matches Some(raw) && raw@ == op,
                None => r is None,
            },
    {
        let op: u16 = match *inst {
            Instruction::ClearScreen => 0x00E0,
            Instruction::Return => 0x00EE,
            Instruction::ExecuteMachineLangRoutine => 0x0000,
            Instruction::Jump(a) => 0x1000 + a.get(),
            Instruction::CallSubroutine(a) => 0x2000 + a.get(),
            Instruction::Skip(SkipIf::Eq, x, v) => 0x3000 + x.get() as u16 * 256 + v.get() as u16,
            Instruction::Skip(SkipIf::NotEq, x, v) => 0x4000 + x.get() as u16 * 256 + v.get() as u16,
            Instruction::SkipReg(SkipIf::Eq, x, y) => 0x5000 + x.get() as u16 * 256 + y.get() as u16 * 16,
            Instruction::SetRegImmediate(x, v) => 0x6000 + x.get() as u16 * 256 + v.get() as u16,
            Instruction::AddRegImmediate(x, v) => 0x7000 + x.get() as u16 * 256 + v.get() as u16,
            Instruction::RegOp(o, x, y) => {
                let code: u16 = match o {
                    RegOperation::Assign => 0x0,
                    RegOperation::Or => 0x1,
                    RegOperation::And => 0x2,
                    RegOperation::Xor => 0x3,
                    RegOperation::Add => 0x4,
                    RegOperation::Sub => 0x5,
                    RegOperation::ShiftRight => 0x6,
                    RegOperation::SubInv => 0x7,
                    RegOperation::ShiftLeft => 0xE,
                };
                0x8000 + x.get() as u16 * 256 + y.get() as u16 * 16 + code
            },
            Instruction::SkipReg(SkipIf::NotEq, x, y) => 0x9000 + x.get() as u16 * 256 + y.get() as u16 * 16,
            Instruction::SetIndex(a) => 0xA000 + a.get(),
            Instruction::JumpWithOffset(a) => 0xB000 + a.get(),
            Instruction::Random(x, v) => 0xC000 + x.get() as u16 * 256 + v.get() as u16,
            Instruction::Draw(x, y, n) => 0xD000 + x.get() as u16 * 256 + y.get() as u16 * 16 + n.get() as u16,
            Instruction::SkipKeyPress(SkipIf::Eq, x) => 0xE09E + x.get() as u16 * 256,
            Instruction::SkipKeyPress(SkipIf::NotEq, x) => 0xE0A1 + x.get() as u16 * 256,
            Instruction::GetDelayTimer(x) => 0xF007 + x.get() as u16 * 256,
            Instruction::GetKey(x) => 0xF00A + x.get() as u16 * 256,
            Instruction::SetDelayTimer(x) => 0xF015 + x.get() as u16 * 256,
            Instruction::SetSoundTimer(x) => 0xF018 + x.get() as u16 * 256,
            Instruction::AddIndex(x) => 0xF01E + x.get() as u16 * 256,
            Instruction::SetFont(x) => 0xF029 + x.get() as u16 * 256,
            Instruction::BinaryDecimalConv(x) => 0xF033 + x.get() as u16 * 256,
            Instruction::StoreAddr(x) => 0xF055 + x.get() as u16 * 256,
            Instruction::LoadAddr(x) => 0xF065 + x.get() as u16 * 256,
            Instruction::Invalid => return None,
        };
        Some(RawInstruction::new((op / 256) as u8, (op % 256) as u8))
    }
}

proof fn lemma_fields(k: int, x: int, y: int, n: int)
    requires
        0 <= k < 16,
        0 <= x < 16,
        0 <= y < 16,
        0 <= n < 16,
    ensures
        ({
            let op = (k * 4096 + x * 256 + y * 16 + n) as u16;
            &&& op as int == k * 4096 + x * 256 + y * 16 + n
            &&& op_kind(op) == k
            &&& op_x(op) == x
            &&& op_y(op) == y
            &&& op_n(op) == n
            &&& op_nn(op) == y * 16 + n
            &&& op_nnn(op) == x * 256 + y * 16 + n
        }),
{
    assert(0 <= k * 4096 + x * 256 + y * 16 + n < 65536) by (nonlinear_arith)
        requires
            0 <= k < 16,
            0 <= x < 16,
            0 <= y < 16,
            0 <= n < 16,
    ;
    let v = k * 4096 + x * 256 + y * 16 + n;
    assert(v / 4096 == k && (v / 256) % 16 == x && (v / 16) % 16 == y && v % 16 == n && v % 256
        == y * 16 + n && v % 4096 == x * 256 + y * 16 + n) by (nonlinear_arith)
        requires
            v == k * 4096 + x * 256 + y * 16 + n,
            0 <= k < 16,
            0 <= x < 16,
            0 <= y < 16,
            0 <= n < 16,
    ;
}

proof fn lemma_split(v: int)
    requires
        0 <= v < 4096,
    ensures
        v == (v / 256) * 256 + ((v / 16) % 16) * 16 + v % 16,
        0 <= v / 256 < 16,
        0 <= (v / 16) % 16 < 16,
        0 <= v % 16 < 16,
{
}

/// Decoding the opcode of any well-formed instruction other than `Invalid`
/// gives that instruction back.
pub proof fn lemma_decode_encode(inst: Instruction)
    requires
        inst.wf(),
        !(inst is Invalid),
    ensures
        encode_spec(inst) matches Some(op) && decode_spec(op) == Some(inst),
{
    match inst {
        Instruction::ClearScreen => {},
        Instruction::Return => {},
        Instruction::ExecuteMachineLangRoutine => {},
        Instruction::Invalid => {},
        Instruction::Jump(a) | Instruction::CallSubroutine(a) | Instruction::SetIndex(a)
        | Instruction::JumpWithOffset(a) => {
            let v = a@ as int;
            lemma_split(v);
            let k = if inst is Jump {
                1int
            } else if inst is CallSubroutine {
                2
            } else if inst is SetIndex {
                0xA
            } else {
                0xB
            };
            lemma_fields(k, v / 256, (v / 16) % 16, v % 16);
        },
        Instruction::Skip(_, x, i) | Instruction::SetRegImmediate(x, i)
        | Instruction::AddRegImmediate(x, i) | Instruction::Random(x, i) => {
            let v = i@ as int;
            let k = if inst matches Instruction::Skip(SkipIf::Eq, _, _) {
                3int
            } else if inst is Skip {
                4
            } else if inst is SetRegImmediate {
                6
            } else if inst is AddRegImmediate {
                7
            } else {
                0xC
            };
            lemma_fields(k, x@ as int, v / 16, v % 16);
        },
        Instruction::SkipReg(c, x, y) => {
            lemma_fields(if c is Eq { 5int } else { 9 }, x@ as int, y@ as int, 0);
        },
        Instruction::RegOp(o, x, y) => {
            lemma_fields(8, x@ as int, y@ as int, reg_op_code(o));
        },
        Instruction::Draw(x, y, n) => {
            lemma_fields(0xD, x@ as int, y@ as int, n@ as int);
        },
        Instruction::SkipKeyPress(c, x) => {
            if c is Eq {
                lemma_fields(0xE, x@ as int, 9, 0xE);
            } else {
                lemma_fields(0xE, x@ as int, 0xA, 1);
            }
        },
        Instruction::GetDelayTimer(x) => lemma_fields(0xF, x@ as int, 0, 7),
        Instruction::GetKey(x) => lemma_fields(0xF, x@ as int, 0, 0xA),
        Instruction::SetDelayTimer(x) => lemma_fields(0xF, x@ as int, 1, 5),
        Instruction::SetSoundTimer(x) => lemma_fields(0xF, x@ as int, 1, 8),
        Instruction::AddIndex(x) => lemma_fields(0xF, x@ as int, 1, 0xE),
        Instruction::SetFont(x) => lemma_fields(0xF, x@ as int, 2, 9),
        Instruction::BinaryDecimalConv(x) => lemma_fields(0xF, x@ as int, 3, 3),
        Instruction::StoreAddr(x) => lemma_fields(0xF, x@ as int, 5, 5),
        Instruction::LoadAddr(x) => lemma_fields(0xF, x@ as int, 6, 5),
    }
}

/// Encoding what an opcode decodes to gives the opcode back, for every
/// opcode but the native routine calls `0NNN`, which all decode alike.
pub proof fn lemma_encode_decode(op: u16)
    requires
        decode_spec(op) matches Some(inst) && !(inst is ExecuteMachineLangRoutine),
    ensures
        decode_spec(op) matches Some(inst) && encode_spec(inst) == Some(op),
{
    lemma_decompose(op);
    let (k, x, y, n) = (op_kind(op), op_x(op), op_y(op), op_n(op));
    lemma_fields(k, x, y, n);
    let inst = decode_spec(op)->0;
    if k < 4 {
        assert(encode_spec(inst) == Some(op));
    } else if k < 8 {
        assert(encode_spec(inst) == Some(op));
    } else if k == 8 {
        assert(encode_spec(inst) == Some(op));
    } else if k < 0xE {
        assert(encode_spec(inst) == Some(op));
    } else if k == 0xE {
        assert(encode_spec(inst) == Some(op));
    } else {
        assert(encode_spec(inst) == Some(op));
    }
}

proof fn lemma_decompose(op: u16)
    ensures
        op as int == op_kind(op) * 4096 + op_x(op) * 256 + op_y(op) * 16 + op_n(op),
        0 <= op_kind(op) < 16,
        0 <= op_x(op) < 16,
        0 <= op_y(op) < 16,
        0 <= op_n(op) < 16,
{
    let v = op as int;
    assert(v == (v / 4096) * 4096 + ((v / 256) % 16) * 256 + ((v / 16) % 16) * 16 + v % 16
        && 0 <= v / 4096 < 16) by (nonlinear_arith)
        requires
            0 <= v < 65536,
    ;
}

} // verus!
