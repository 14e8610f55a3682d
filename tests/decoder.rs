use chip8::decoder::Decoder;
use chip8::primitive::{
    Address, Immediate4, Immediate8, Instruction, RawInstruction, RegOperation, Register, SkipIf,
};

fn decode(op: u16) -> Option<Instruction> {
    Decoder::decode(&RawInstruction::new((op >> 8) as u8, op as u8))
}

fn reg(i: u8) -> Register {
    Register::new(i).unwrap()
}

fn addr(a: u16) -> Address {
    Address::new(a).unwrap()
}

#[test]
fn raw_instruction_fields() {
    let raw = RawInstruction::new(0xD1, 0x2F);
    assert_eq!(raw.value(), 0xD12F);
    assert_eq!(raw.to_nibbles(), (0xD, 0x1, 0x2, 0xF));
    assert_eq!(raw.nnn().get(), 0x12F);
    assert_eq!(raw.nn().get(), 0x2F);
    assert_eq!(raw.x().get(), 1);
    assert_eq!(raw.y().get(), 2);
    assert_eq!(raw.n().get(), 0xF);
}

#[test]
fn validated_primitives_reject_out_of_range() {
    assert!(Register::new(15).is_some());
    assert!(Register::new(16).is_none());
    assert!(Immediate4::new(16).is_none());
    assert!(Address::new(0xFFF).is_some());
    assert!(Address::new(0x1000).is_none());
}

#[test]
fn decode_group_zero() {
    assert_eq!(decode(0x00E0), Some(Instruction::ClearScreen));
    assert_eq!(decode(0x00EE), Some(Instruction::Return));
    assert_eq!(decode(0x0123), Some(Instruction::ExecuteMachineLangRoutine));
    assert_eq!(decode(0x01E0), Some(Instruction::ExecuteMachineLangRoutine));
    assert_eq!(decode(0x0000), Some(Instruction::ExecuteMachineLangRoutine));
}

#[test]
fn decode_table() {
    let cases = [
        (0x1ABC, Instruction::Jump(addr(0xABC))),
        (0x2123, Instruction::CallSubroutine(addr(0x123))),
        (0x3A45, Instruction::Skip(SkipIf::Eq, reg(0xA), Immediate8::new(0x45))),
        (0x4A45, Instruction::Skip(SkipIf::NotEq, reg(0xA), Immediate8::new(0x45))),
        (0x5120, Instruction::SkipReg(SkipIf::Eq, reg(1), reg(2))),
        (0x6F07, Instruction::SetRegImmediate(reg(0xF), Immediate8::new(7))),
        (0x7301, Instruction::AddRegImmediate(reg(3), Immediate8::new(1))),
        (0x8120, Instruction::RegOp(RegOperation::Assign, reg(1), reg(2))),
        (0x8121, Instruction::RegOp(RegOperation::Or, reg(1), reg(2))),
        (0x8122, Instruction::RegOp(RegOperation::And, reg(1), reg(2))),
        (0x8123, Instruction::RegOp(RegOperation::Xor, reg(1), reg(2))),
        (0x8124, Instruction::RegOp(RegOperation::Add, reg(1), reg(2))),
        (0x8125, Instruction::RegOp(RegOperation::Sub, reg(1), reg(2))),
        (0x8126, Instruction::RegOp(RegOperation::ShiftRight, reg(1), reg(2))),
        (0x8127, Instruction::RegOp(RegOperation::SubInv, reg(1), reg(2))),
        (0x812E, Instruction::RegOp(RegOperation::ShiftLeft, reg(1), reg(2))),
        (0x9120, Instruction::SkipReg(SkipIf::NotEq, reg(1), reg(2))),
        (0xA123, Instruction::SetIndex(addr(0x123))),
        (0xB123, Instruction::JumpWithOffset(addr(0x123))),
        (0xC3F0, Instruction::Random(reg(3), Immediate8::new(0xF0))),
        (0xD01F, Instruction::Draw(reg(0), reg(1), Immediate4::new(0xF).unwrap())),
        (0xE59E, Instruction::SkipKeyPress(SkipIf::Eq, reg(5))),
        (0xE5A1, Instruction::SkipKeyPress(SkipIf::NotEq, reg(5))),
        (0xF507, Instruction::GetDelayTimer(reg(5))),
        (0xF50A, Instruction::GetKey(reg(5))),
        (0xF515, Instruction::SetDelayTimer(reg(5))),
        (0xF518, Instruction::SetSoundTimer(reg(5))),
        (0xF51E, Instruction::AddIndex(reg(5))),
        (0xF529, Instruction::SetFont(reg(5))),
        (0xF533, Instruction::BinaryDecimalConv(reg(5))),
        (0xF555, Instruction::StoreAddr(reg(5))),
        (0xF565, Instruction::LoadAddr(reg(5))),
    ];
    for (op, inst) in cases {
        assert_eq!(decode(op), Some(inst), "opcode {op:04X}");
    }
}

#[test]
fn decode_undefined_patterns() {
    for op in [0x5121u16, 0x912F, 0x8128, 0x812D, 0x812F, 0xE19F, 0xE1A2, 0xF100, 0xF1FF, 0xF166] {
        assert_eq!(decode(op), None, "opcode {op:04X}");
    }
}

#[test]
fn decode_encode_round_trip() {
    for op in 0..=0xFFFFu16 {
        if let Some(inst) = decode(op) {
            let raw = Decoder::encode(&inst).unwrap();
            assert_eq!(Decoder::decode(&raw), Some(inst));
            if op >= 0x1000 || op == 0x00E0 || op == 0x00EE {
                assert_eq!(raw.value(), op);
            }
        }
    }
}

#[test]
fn encode_gives_opcodes() {
    assert_eq!(Decoder::encode(&Instruction::ClearScreen).unwrap().value(), 0x00E0);
    assert_eq!(Decoder::encode(&Instruction::ExecuteMachineLangRoutine).unwrap().value(), 0x0000);
    let draw = Instruction::Draw(reg(0xA), reg(0xB), Immediate4::new(3).unwrap());
    assert_eq!(Decoder::encode(&draw).unwrap().value(), 0xDAB3);
    assert_eq!(Decoder::encode(&Instruction::Invalid), None);
}
