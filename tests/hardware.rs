use chip8::chip8::Chip8Version;
use chip8::hardware::{Hardware, HardwareExecutionConfig, InterpreterFault};
use chip8::input::{Chip8KeyEvent, Chip8KeyEventKind, Chip8KeyState};
use chip8::primitive::{Immediate4, Instruction, Register};
use chip8::scheduler::{HardwareAction, HardwareMessage, HardwareScheduler};

fn machine(version: Chip8Version, program: &[u8]) -> Hardware {
    let mut hw = Hardware::new(HardwareExecutionConfig { version, add_index_sets_flag: false });
    hw.load_rom(&program.to_vec()).unwrap();
    hw
}

fn reg(i: u8) -> Register {
    Register::new(i).unwrap()
}

fn set(hw: &mut Hardware, i: u8, v: u8) {
    hw.cpu.register_set(&reg(i), v);
}

fn get(hw: &Hardware, i: u8) -> u8 {
    hw.cpu.register_val(&reg(i))
}

fn step(hw: &mut Hardware) -> Result<HardwareAction, InterpreterFault> {
    HardwareScheduler::dispatch(hw, &HardwareMessage::ExecuteInstruction)
}

fn lit_pixels(hw: &Hardware) -> Vec<(u8, u8)> {
    let mut lit = Vec::new();
    for y in 0..32u8 {
        for x in 0..64u8 {
            if hw.screen.get_pixel(x, y).unwrap() {
                lit.push((x, y));
            }
        }
    }
    lit
}

#[test]
fn clear_then_return_without_call_faults() {
    let mut hw = machine(Chip8Version::CHIP48, &[0x00, 0xE0, 0x00, 0xEE]);
    hw.screen.set_pixel(3, 4, true);
    assert_eq!(step(&mut hw), Ok(HardwareAction::Nothing));
    assert!(lit_pixels(&hw).is_empty());
    assert_eq!(hw.cpu.get_pc(), 0x202);
    assert_eq!(step(&mut hw), Err(InterpreterFault::StackUnderflow));
    assert_eq!(hw.cpu.get_pc(), 0x202);
}

#[test]
fn call_then_return_lands_after_the_call() {
    // 0x200: CALL 0x206; 0x206: RETURN
    let mut hw = machine(Chip8Version::CHIP48, &[0x22, 0x06, 0x00, 0x00, 0x00, 0x00, 0x00, 0xEE]);
    step(&mut hw).unwrap();
    assert_eq!(hw.cpu.get_pc(), 0x206);
    assert_eq!(hw.cpu.stack_depth(), 1);
    step(&mut hw).unwrap();
    assert_eq!(hw.cpu.get_pc(), 0x202);
    assert_eq!(hw.cpu.stack_depth(), 0);
}

#[test]
fn add_with_carry() {
    let mut hw = machine(Chip8Version::COSMAC, &[0x80, 0x14]);
    set(&mut hw, 0, 0xFF);
    set(&mut hw, 1, 0x02);
    step(&mut hw).unwrap();
    assert_eq!(get(&hw, 0), 0x01);
    assert_eq!(get(&hw, 0xF), 1);
}

#[test]
fn add_without_carry_clears_flag() {
    let mut hw = machine(Chip8Version::COSMAC, &[0x80, 0x14]);
    set(&mut hw, 0, 0x10);
    set(&mut hw, 1, 0x20);
    set(&mut hw, 0xF, 1);
    step(&mut hw).unwrap();
    assert_eq!(get(&hw, 0), 0x30);
    assert_eq!(get(&hw, 0xF), 0);
}

#[test]
fn shift_right_quirk_cosmac() {
    let mut hw = machine(Chip8Version::COSMAC, &[0x80, 0x16]);
    set(&mut hw, 0, 0x00);
    set(&mut hw, 1, 0xFF);
    step(&mut hw).unwrap();
    assert_eq!(get(&hw, 0), 0x7F);
    assert_eq!(get(&hw, 1), 0xFF);
    assert_eq!(get(&hw, 0xF), 1);
}

#[test]
fn shift_right_quirk_chip48_and_superchip() {
    for version in [Chip8Version::CHIP48, Chip8Version::SUPERCHIP] {
        let mut hw = machine(version, &[0x80, 0x16]);
        set(&mut hw, 0, 0x00);
        set(&mut hw, 1, 0xFF);
        step(&mut hw).unwrap();
        assert_eq!(get(&hw, 0), 0x00);
        assert_eq!(get(&hw, 1), 0xFF);
        assert_eq!(get(&hw, 0xF), 0);
    }
}

#[test]
fn shift_left_takes_bit_seven() {
    let mut hw = machine(Chip8Version::CHIP48, &[0x80, 0x1E]);
    set(&mut hw, 0, 0x81);
    step(&mut hw).unwrap();
    assert_eq!(get(&hw, 0), 0x02);
    assert_eq!(get(&hw, 0xF), 1);
}

#[test]
fn flag_wins_when_destination_is_vf() {
    let mut hw = machine(Chip8Version::CHIP48, &[0x8F, 0x14]);
    set(&mut hw, 0xF, 0xFF);
    set(&mut hw, 1, 0x02);
    step(&mut hw).unwrap();
    assert_eq!(get(&hw, 0xF), 1);
}

#[test]
fn jump_offset_quirk() {
    let mut hw = machine(Chip8Version::COSMAC, &[0xB3, 0x20]);
    set(&mut hw, 0, 0x10);
    set(&mut hw, 3, 0x20);
    step(&mut hw).unwrap();
    assert_eq!(hw.cpu.get_pc(), 0x330);
    for version in [Chip8Version::CHIP48, Chip8Version::SUPERCHIP] {
        let mut hw = machine(version, &[0xB3, 0x20]);
        set(&mut hw, 0, 0x10);
        set(&mut hw, 3, 0x20);
        step(&mut hw).unwrap();
        assert_eq!(hw.cpu.get_pc(), 0x340);
    }
}

#[test]
fn draw_wraps_start_and_clips_edges() {
    // 0x200: DRAW V0, V1, 1; sprite byte 0xFF at 0x300
    let mut hw = machine(Chip8Version::CHIP48, &[0xD0, 0x11]);
    hw.cpu.store_in_addr(0x300, 0xFF);
    hw.cpu.set_index(0x300);
    set(&mut hw, 0, 62);
    set(&mut hw, 1, 31);
    step(&mut hw).unwrap();
    assert_eq!(lit_pixels(&hw), vec![(62, 31), (63, 31)]);
    assert_eq!(get(&hw, 0xF), 0);
}

#[test]
fn draw_start_wraps_by_modulus() {
    let mut hw = machine(Chip8Version::CHIP48, &[0xD0, 0x11]);
    hw.cpu.store_in_addr(0x300, 0x80);
    hw.cpu.set_index(0x300);
    set(&mut hw, 0, 64 + 5);
    set(&mut hw, 1, 32 + 2);
    step(&mut hw).unwrap();
    assert_eq!(lit_pixels(&hw), vec![(5, 2)]);
}

#[test]
fn draw_twice_restores_framebuffer() {
    // two DRAW V0, V1, 2 in a row; sprite 0xF0 0x81 at 0x300
    let mut hw = machine(Chip8Version::CHIP48, &[0xD0, 0x12, 0xD0, 0x12]);
    hw.cpu.store_in_addr(0x300, 0xF0);
    hw.cpu.store_in_addr(0x301, 0x81);
    hw.cpu.set_index(0x300);
    set(&mut hw, 0, 10);
    set(&mut hw, 1, 7);
    hw.screen.set_pixel(11, 7, true);
    hw.screen.set_pixel(40, 20, true);
    let before = lit_pixels(&hw);
    step(&mut hw).unwrap();
    assert_eq!(get(&hw, 0xF), 1);
    assert!(!hw.screen.get_pixel(11, 7).unwrap());
    step(&mut hw).unwrap();
    assert_eq!(lit_pixels(&hw), before);
    assert_eq!(get(&hw, 0xF), 1);
}

#[test]
fn get_key_blocks_then_resumes_on_press() {
    let mut hw = machine(Chip8Version::CHIP48, &[0xF0, 0x0A]);
    set(&mut hw, 0, 0x33);
    step(&mut hw).unwrap();
    assert!(hw.is_waiting_for_key());
    // clock ticks while nothing is pressed
    for _ in 0..50 {
        step(&mut hw).unwrap();
    }
    assert_eq!(hw.cpu.get_pc(), 0x200);
    assert_eq!(get(&hw, 0), 0x33);
    let press = Chip8KeyEvent { key: 0x5, kind: Chip8KeyEventKind::Press };
    HardwareScheduler::dispatch(&mut hw, &HardwareMessage::HandleKeyEvent(press)).unwrap();
    assert_eq!(get(&hw, 0), 0x05);
    assert_eq!(hw.cpu.get_pc(), 0x202);
    assert!(!hw.is_waiting_for_key());
}

#[test]
fn get_key_on_cosmac_waits_for_release() {
    let mut hw = machine(Chip8Version::COSMAC, &[0xF3, 0x0A]);
    step(&mut hw).unwrap();
    assert!(!hw.handle_key_when_waiting(0x7, Chip8KeyEventKind::Press));
    assert!(hw.is_waiting_for_key());
    assert_eq!(hw.cpu.get_pc(), 0x200);
    assert!(hw.handle_key_when_waiting(0x7, Chip8KeyEventKind::Release));
    assert_eq!(get(&hw, 3), 0x7);
    assert_eq!(hw.cpu.get_pc(), 0x202);
}

#[test]
fn key_edge_without_wait_changes_nothing() {
    let mut hw = machine(Chip8Version::CHIP48, &[0x00, 0xE0]);
    assert!(!hw.handle_key_when_waiting(0x1, Chip8KeyEventKind::Press));
    assert_eq!(hw.cpu.get_pc(), 0x200);
}

#[test]
fn pc_advances_by_two() {
    let program = [0x60, 0x05, 0x70, 0x01, 0xA1, 0x23, 0xF0, 0x1E, 0x01, 0x23, 0x80, 0x12];
    let mut hw = machine(Chip8Version::CHIP48, &program);
    for i in 0..6u16 {
        assert_eq!(hw.cpu.get_pc(), 0x200 + 2 * i);
        step(&mut hw).unwrap();
    }
    assert_eq!(hw.cpu.get_pc(), 0x20C);
}

#[test]
fn skips_advance_by_four_when_taken() {
    // SKIP V0 == 5 (taken), then at 0x204 SKIP V0 != 5 (not taken)
    let mut hw = machine(Chip8Version::CHIP48, &[0x30, 0x05, 0x00, 0x00, 0x40, 0x05]);
    set(&mut hw, 0, 5);
    step(&mut hw).unwrap();
    assert_eq!(hw.cpu.get_pc(), 0x204);
    step(&mut hw).unwrap();
    assert_eq!(hw.cpu.get_pc(), 0x206);
}

#[test]
fn skip_on_registers_and_keys() {
    // 5010: V0 == V1; 9010: V0 != V1; E09E: key V0 pressed; E0A1: key V0 not pressed
    let mut hw = machine(Chip8Version::CHIP48, &[0x50, 0x10, 0x00, 0x00, 0x90, 0x10, 0xE0, 0x9E, 0x00, 0x00, 0xE0, 0xA1]);
    set(&mut hw, 0, 0x12);
    set(&mut hw, 1, 0x12);
    step(&mut hw).unwrap();
    assert_eq!(hw.cpu.get_pc(), 0x204);
    step(&mut hw).unwrap();
    assert_eq!(hw.cpu.get_pc(), 0x206);
    let mut keys = Chip8KeyState::default();
    keys.press(0x2); // V0 & 0xF == 2
    hw.set_key_state(&keys);
    step(&mut hw).unwrap();
    assert_eq!(hw.cpu.get_pc(), 0x20A);
    step(&mut hw).unwrap();
    assert_eq!(hw.cpu.get_pc(), 0x20C);
}

#[test]
fn vf_unchanged_by_flagless_instructions() {
    // AND, OR, XOR, SET, ADD immediate, SET_I, FONT
    let program = [0x80, 0x12, 0x80, 0x11, 0x80, 0x13, 0x80, 0x10, 0x70, 0xFF, 0xA3, 0x00, 0xF0, 0x29];
    let mut hw = machine(Chip8Version::CHIP48, &program);
    set(&mut hw, 0, 0xF0);
    set(&mut hw, 1, 0x3C);
    set(&mut hw, 0xF, 0xAB);
    for _ in 0..7 {
        step(&mut hw).unwrap();
        assert_eq!(get(&hw, 0xF), 0xAB);
    }
}

#[test]
fn add_immediate_wraps_without_flag() {
    let mut hw = machine(Chip8Version::CHIP48, &[0x70, 0x10]);
    set(&mut hw, 0, 0xF8);
    step(&mut hw).unwrap();
    assert_eq!(get(&hw, 0), 0x08);
    assert_eq!(get(&hw, 0xF), 0);
}

#[test]
fn sub_and_subn() {
    let mut hw = machine(Chip8Version::CHIP48, &[0x80, 0x15, 0x82, 0x37, 0x84, 0x55]);
    set(&mut hw, 0, 0x05);
    set(&mut hw, 1, 0x07);
    set(&mut hw, 2, 0x09);
    set(&mut hw, 3, 0x03);
    set(&mut hw, 4, 0x40);
    set(&mut hw, 5, 0x40);
    step(&mut hw).unwrap();
    assert_eq!(get(&hw, 0), 0xFE);
    assert_eq!(get(&hw, 0xF), 0);
    step(&mut hw).unwrap();
    assert_eq!(get(&hw, 2), 0xFA);
    assert_eq!(get(&hw, 0xF), 0);
    step(&mut hw).unwrap();
    assert_eq!(get(&hw, 4), 0x00);
    assert_eq!(get(&hw, 0xF), 0);
}

#[test]
fn sub_without_borrow_sets_flag() {
    let mut hw = machine(Chip8Version::CHIP48, &[0x80, 0x15, 0x82, 0x37]);
    set(&mut hw, 0, 0x09);
    set(&mut hw, 1, 0x02);
    set(&mut hw, 2, 0x01);
    set(&mut hw, 3, 0x08);
    step(&mut hw).unwrap();
    assert_eq!(get(&hw, 0), 0x07);
    assert_eq!(get(&hw, 0xF), 1);
    step(&mut hw).unwrap();
    assert_eq!(get(&hw, 2), 0x07);
    assert_eq!(get(&hw, 0xF), 1);
}

#[test]
fn bcd_digits() {
    for value in [0u8, 7, 42, 100, 254, 255] {
        let mut hw = machine(Chip8Version::CHIP48, &[0xF0, 0x33]);
        set(&mut hw, 0, value);
        hw.cpu.set_index(0x400);
        step(&mut hw).unwrap();
        let d = [hw.cpu.load_from_addr(0x400), hw.cpu.load_from_addr(0x401), hw.cpu.load_from_addr(0x402)];
        assert_eq!(d[0] as u16 * 100 + d[1] as u16 * 10 + d[2] as u16, value as u16);
        assert!(d.iter().all(|&x| x < 10));
    }
}

#[test]
fn bcd_wraps_addresses_at_end_of_memory() {
    let mut hw = machine(Chip8Version::CHIP48, &[0xF0, 0x33]);
    set(&mut hw, 0, 254);
    hw.cpu.set_index(0xFFF);
    step(&mut hw).unwrap();
    assert_eq!(hw.cpu.load_from_addr(0xFFF), 2);
    assert_eq!(hw.cpu.load_from_addr(0x000), 5);
    assert_eq!(hw.cpu.load_from_addr(0x001), 4);
}

#[test]
fn store_and_load_quirks() {
    // STORE V0..V2 then LOAD V0..V2
    for (version, advance) in [(Chip8Version::COSMAC, 3u16), (Chip8Version::CHIP48, 0)] {
        let mut hw = machine(version, &[0xF2, 0x55, 0xF2, 0x65]);
        set(&mut hw, 0, 0x11);
        set(&mut hw, 1, 0x22);
        set(&mut hw, 2, 0x33);
        set(&mut hw, 3, 0x44);
        hw.cpu.set_index(0x500);
        step(&mut hw).unwrap();
        assert_eq!(hw.cpu.load_from_addr(0x500), 0x11);
        assert_eq!(hw.cpu.load_from_addr(0x501), 0x22);
        assert_eq!(hw.cpu.load_from_addr(0x502), 0x33);
        assert_eq!(hw.cpu.load_from_addr(0x503), 0x00);
        assert_eq!(hw.cpu.get_index(), 0x500 + advance);
        hw.cpu.set_index(0x500);
        set(&mut hw, 0, 0);
        set(&mut hw, 1, 0);
        set(&mut hw, 2, 0);
        step(&mut hw).unwrap();
        assert_eq!((get(&hw, 0), get(&hw, 1), get(&hw, 2), get(&hw, 3)), (0x11, 0x22, 0x33, 0x44));
        assert_eq!(hw.cpu.get_index(), 0x500 + advance);
    }
}

#[test]
fn font_points_at_glyph() {
    let mut hw = machine(Chip8Version::CHIP48, &[0xF0, 0x29]);
    set(&mut hw, 0, 0x1A);
    step(&mut hw).unwrap();
    assert_eq!(hw.cpu.get_index(), 0x50 + 0xA * 5);
    assert_eq!(hw.cpu.load_from_addr(hw.cpu.get_index()), 0xF0);
}

#[test]
fn timers_set_and_read() {
    let mut hw = machine(Chip8Version::CHIP48, &[0xF0, 0x15, 0xF1, 0x18, 0xF2, 0x07]);
    set(&mut hw, 0, 3);
    set(&mut hw, 1, 9);
    step(&mut hw).unwrap();
    step(&mut hw).unwrap();
    assert_eq!(hw.cpu.get_delay_timer(), 3);
    assert_eq!(hw.cpu.get_sound_timer(), 9);
    HardwareScheduler::dispatch(&mut hw, &HardwareMessage::DecrementTimers).unwrap();
    step(&mut hw).unwrap();
    assert_eq!(get(&hw, 2), 2);
    assert_eq!(hw.cpu.get_sound_timer(), 8);
}

#[test]
fn timers_count_down_and_hold_at_zero() {
    let mut hw = machine(Chip8Version::CHIP48, &[]);
    hw.cpu.set_delay_timer(5);
    hw.cpu.set_sound_timer(60);
    for n in 1..=20u8 {
        hw.decrement_timers();
        assert_eq!(hw.cpu.get_delay_timer(), 5 - n.min(5));
        assert_eq!(hw.cpu.get_sound_timer(), 60 - n);
    }
}

#[test]
fn random_is_masked() {
    let mut hw = machine(Chip8Version::CHIP48, &[0xC0, 0x0F]);
    step(&mut hw).unwrap();
    assert_eq!(get(&hw, 0) & 0xF0, 0);
    assert_eq!(hw.cpu.get_pc(), 0x202);
    let mut hw = machine(Chip8Version::CHIP48, &[]);
    let inst = Instruction::Random(reg(4), chip8::primitive::Immediate8::new(0x3C));
    hw.execute_instruction_with(&inst, 0xA5).unwrap();
    assert_eq!(get(&hw, 4), 0x24);
}

#[test]
fn add_index_wraps_and_optional_flag() {
    let mut hw = machine(Chip8Version::CHIP48, &[0xF0, 0x1E]);
    set(&mut hw, 0, 0x10);
    hw.cpu.set_index(0xFFF8);
    step(&mut hw).unwrap();
    assert_eq!(hw.cpu.get_index(), 0x0008);
    assert_eq!(get(&hw, 0xF), 0);
    let mut hw = Hardware::new(HardwareExecutionConfig { version: Chip8Version::CHIP48, add_index_sets_flag: true });
    hw.load_rom(&vec![0xF0, 0x1E, 0xF0, 0x1E]).unwrap();
    set(&mut hw, 0, 0x10);
    hw.cpu.set_index(0xFF8);
    step(&mut hw).unwrap();
    assert_eq!(hw.cpu.get_index(), 0x1008);
    assert_eq!(get(&hw, 0xF), 1);
    hw.cpu.set_index(0x100);
    step(&mut hw).unwrap();
    assert_eq!(get(&hw, 0xF), 0);
}

#[test]
fn call_past_capacity_faults() {
    // CALL 0x200 forever
    let mut hw = machine(Chip8Version::CHIP48, &[0x22, 0x00]);
    for _ in 0..16 {
        step(&mut hw).unwrap();
    }
    assert_eq!(hw.cpu.stack_depth(), 16);
    assert_eq!(step(&mut hw), Err(InterpreterFault::StackOverflow));
    assert_eq!(hw.cpu.stack_depth(), 16);
}

#[test]
fn invalid_opcode_faults() {
    let mut hw = machine(Chip8Version::CHIP48, &[0x81, 0x28]);
    assert_eq!(step(&mut hw), Err(InterpreterFault::InvalidInstruction));
    assert_eq!(hw.cpu.get_pc(), 0x200);
    assert_eq!(hw.execute_instruction(&Instruction::Invalid), Err(InterpreterFault::InvalidInstruction));
}

#[test]
fn machine_routine_is_a_no_op() {
    let mut hw = machine(Chip8Version::CHIP48, &[0x01, 0x23]);
    set(&mut hw, 0xF, 9);
    step(&mut hw).unwrap();
    assert_eq!(hw.cpu.get_pc(), 0x202);
    assert_eq!(get(&hw, 0xF), 9);
}

#[test]
fn jump_sets_pc() {
    let mut hw = machine(Chip8Version::CHIP48, &[0x1A, 0xBC]);
    step(&mut hw).unwrap();
    assert_eq!(hw.cpu.get_pc(), 0xABC);
}

#[test]
fn load_rom_places_font_and_program() {
    let mut hw = Hardware::new(HardwareExecutionConfig { version: Chip8Version::CHIP48, add_index_sets_flag: false });
    hw.load_rom(&vec![0xAB, 0xCD]).unwrap();
    assert_eq!(hw.cpu.get_pc(), 0x200);
    assert_eq!(hw.cpu.load_from_addr(0x50), 0xF0);
    assert_eq!(hw.cpu.load_from_addr(0x50 + 79), 0x80);
    assert_eq!(hw.cpu.load_from_addr(0x200), 0xAB);
    assert_eq!(hw.cpu.load_from_addr(0x201), 0xCD);
    assert_eq!(hw.cpu.load_from_addr(0x202), 0x00);
}

#[test]
fn load_rom_refuses_oversized() {
    let mut hw = Hardware::new(HardwareExecutionConfig { version: Chip8Version::CHIP48, add_index_sets_flag: false });
    assert!(hw.load_rom(&vec![0x11; 3584]).is_ok());
    assert_eq!(hw.cpu.load_from_addr(0xFFF), 0x11);
    let mut hw = Hardware::new(HardwareExecutionConfig { version: Chip8Version::CHIP48, add_index_sets_flag: false });
    assert_eq!(hw.load_rom(&vec![0x11; 3585]), Err(()));
    assert_eq!(hw.cpu.get_pc(), 0);
    assert_eq!(hw.cpu.load_from_addr(0x50), 0);
}

#[test]
fn restart_reloads_program() {
    let mut hw = machine(Chip8Version::CHIP48, &[0x60, 0x07, 0x12, 0x00]);
    step(&mut hw).unwrap();
    hw.screen.set_pixel(0, 0, true);
    hw.cpu.store_in_addr(0x200, 0x00);
    hw.restart_rom();
    assert_eq!(get(&hw, 0), 0);
    assert_eq!(hw.cpu.get_pc(), 0x200);
    assert_eq!(hw.cpu.load_from_addr(0x200), 0x60);
    assert!(lit_pixels(&hw).is_empty());
}

#[test]
fn debug_snapshot_reflects_state() {
    let mut hw = machine(Chip8Version::CHIP48, &[0xD0, 0x15]);
    set(&mut hw, 3, 0x42);
    hw.cpu.set_index(0x123);
    hw.update_debug_info();
    let d = hw.screen.get_debug_info().unwrap();
    assert_eq!(d.current_pc, 0x200);
    assert_eq!(d.raw_instruction.value(), 0xD015);
    assert_eq!(d.decoded_instruction, Instruction::Draw(reg(0), reg(1), Immediate4::new(5).unwrap()));
    assert_eq!(d.index_register, 0x123);
    assert_eq!(d.registers[3], 0x42);
    let dispatched = HardwareScheduler::dispatch(&mut hw, &HardwareMessage::FlushScreen);
    assert_eq!(dispatched, Ok(HardwareAction::FlushScreen));
}

#[test]
fn update_key_state_message_replaces_keys() {
    let mut hw = machine(Chip8Version::CHIP48, &[0xE4, 0x9E]);
    set(&mut hw, 0x4, 0x0C);
    let mut keys = Chip8KeyState::default();
    keys.press(0xC);
    HardwareScheduler::dispatch(&mut hw, &HardwareMessage::UpdateKeyState(keys)).unwrap();
    step(&mut hw).unwrap();
    assert_eq!(hw.cpu.get_pc(), 0x204);
}
