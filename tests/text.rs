use chip8::chip8::{Chip8, Chip8Version};
use chip8::hardware::{Hardware, HardwareExecutionConfig};
use chip8::input::{Chip8KeyState, KeyboardLayout};
use chip8::primitive::{
    Address, Immediate4, Immediate8, Instruction, RawInstruction, RegOperation, Register, SkipIf,
};
use chip8::scheduler::PlaybackMode;
use chip8::screen::Screen;
use chip8::text::push_hex;

fn reg(i: u8) -> Register {
    Register::new(i).unwrap()
}

#[test]
fn hex_padding() {
    let mut s = String::new();
    push_hex(&mut s, 0x2A, 3);
    assert_eq!(s, "02A");
    let mut s = String::new();
    push_hex(&mut s, 0x1234, 3);
    assert_eq!(s, "1234");
    let mut s = String::new();
    push_hex(&mut s, 0, 0);
    assert_eq!(s, "0");
}

#[test]
fn operand_text() {
    assert_eq!(reg(0xB).text(), "VB");
    assert_eq!(Address::new(0x2F0).unwrap().text(), "Ax0002F0");
    assert_eq!(Immediate8::new(0x0A).text(), "0x0A");
    assert_eq!(Immediate4::new(0xC).unwrap().text(), "0xC");
    assert_eq!(RawInstruction::new(0xD0, 0x15).text(), "0xD015");
}

#[test]
fn mnemonics() {
    let cases = [
        (Instruction::ClearScreen, "ClearScreen"),
        (Instruction::Draw(reg(0), reg(1), Immediate4::new(5).unwrap()), "Draw V0 V1 0x5"),
        (Instruction::Jump(Address::new(0x228).unwrap()), "Jump to Ax000228"),
        (Instruction::Skip(SkipIf::NotEq, reg(3), Immediate8::new(0x10)), "Skip if V3 != 0x10"),
        (Instruction::SkipReg(SkipIf::Eq, reg(3), reg(4)), "Skip if V3 == V4"),
        (Instruction::SkipKeyPress(SkipIf::Eq, reg(2)), "Skip if key == V2"),
        (Instruction::RegOp(RegOperation::Assign, reg(1), reg(2)), "V1 = V2"),
        (Instruction::RegOp(RegOperation::Add, reg(1), reg(2)), "V1 = V1 + V2"),
        (Instruction::RegOp(RegOperation::SubInv, reg(1), reg(2)), "V1 = V2 - V1"),
        (Instruction::RegOp(RegOperation::ShiftLeft, reg(1), reg(2)), "Shift Left on V1 V2"),
        (Instruction::AddRegImmediate(reg(7), Immediate8::new(1)), "V7 = V7 + 0x01"),
        (Instruction::Random(reg(7), Immediate8::new(0xFF)), "V7 = RANDOM & 0xFF"),
        (Instruction::StoreAddr(reg(0xA)), "Store V0-VA"),
        (Instruction::ExecuteMachineLangRoutine, "ExecMachineLangRoutine"),
        (Instruction::Invalid, "INVALID"),
    ];
    for (inst, text) in cases {
        assert_eq!(inst.text(), text);
    }
}

#[test]
fn names_of_versions_and_layouts() {
    assert_eq!(Chip8Version::SUPERCHIP.text(), "superchip");
    assert_eq!(KeyboardLayout::Natural.text(), "natural");
}

#[test]
fn debug_lines() {
    let mut hw = Hardware::new(HardwareExecutionConfig { version: Chip8Version::CHIP48, add_index_sets_flag: false });
    hw.load_rom(&vec![0x81, 0x24]).unwrap();
    hw.cpu.set_index(0x2A);
    hw.cpu.set_delay_timer(123);
    hw.cpu.register_set(&reg(0xF), 0xAB);
    let mut keys = Chip8KeyState::default();
    keys.press(1);
    keys.press(0xA);
    hw.set_key_state(&keys);
    hw.set_playback_mode(PlaybackMode::Stepping);
    let d = hw.get_debug_info();
    let screen = &hw.screen;
    assert_eq!(screen.format_key_state(&d), "[1,A]");
    assert_eq!(
        screen.format_cpu_state(&d),
        "I: 0x02A | DT: 123 | ST: 0 | V0-F: [00,00,00,00,00,00,00,00,00,00,00,00,00,00,00,AB]"
    );
    assert_eq!(screen.format_instruction(&d), "PC: 0x200 | Raw: 0x8124 | V1 = V1 + V2");
    assert_eq!(screen.format_playback_mode(&d), "Stepping");
}

#[test]
fn no_keys_pressed_text() {
    assert_eq!(Chip8KeyState::default().format_pressed_keys(), "[]");
}

#[test]
fn disassembly_listing() {
    let lines = Chip8::dump_inst_lines(&vec![0x00, 0xE0, 0x81, 0x28, 0xA2, 0x2A, 0x12]);
    assert_eq!(
        lines,
        vec![
            "Ax000200: Code 0x00E0, ClearScreen".to_string(),
            "Ax000202: Code 0x8128, INVALID".to_string(),
            "Ax000204: Code 0xA22A, Set Index Ax00022A".to_string(),
        ]
    );
}

#[test]
fn frame_origin_centres_grid() {
    assert_eq!(Screen::frame_origin(200, 50, false), (36, 7));
    assert_eq!(Screen::frame_origin(200, 50, true), (36, 6));
    assert_eq!(Screen::frame_origin(100, 20, false), (0, 1));
}
