use chip8::input::{Chip8Command, Chip8InputEvent, Chip8KeyEvent, Chip8KeyEventKind};
use chip8::scheduler::{
    screen_tick_messages, ClockControl, ClockControlMessage, HardwareMessage, InputScheduler,
    PlaybackMode,
};

#[test]
fn clock_starts_by_debug_flag() {
    assert_eq!(ClockControl::new(false).mode, PlaybackMode::Running);
    assert_eq!(ClockControl::new(true).mode, PlaybackMode::Paused);
    assert!(ClockControl::new(false).on_tick());
    assert!(!ClockControl::new(true).on_tick());
}

#[test]
fn toggle_pause_play() {
    let mut c = ClockControl::new(false);
    let r = c.on_control(ClockControlMessage::TogglePausePlay);
    assert_eq!(c.mode, PlaybackMode::Paused);
    assert_eq!(r.report, Some(PlaybackMode::Paused));
    assert!(!r.reset_interval);
    assert!(!c.on_tick());
    let r = c.on_control(ClockControlMessage::TogglePausePlay);
    assert_eq!(c.mode, PlaybackMode::Running);
    assert!(r.reset_interval);
    assert!(c.on_tick());
}

#[test]
fn step_executes_exactly_once_then_pauses() {
    let mut c = ClockControl::new(false);
    let r = c.on_control(ClockControlMessage::Step);
    assert_eq!(r.report, Some(PlaybackMode::Stepping));
    assert!(!r.execute);
    assert!(!c.on_tick());
    let r = c.on_quantum();
    assert!(r.execute);
    assert_eq!(c.mode, PlaybackMode::Stepping);
    let r = c.on_quantum();
    assert!(!r.execute);
    assert_eq!(r.report, Some(PlaybackMode::Paused));
    assert_eq!(c.mode, PlaybackMode::Paused);
    let r = c.on_quantum();
    assert!(!r.execute);
    assert_eq!(r.report, None);
}

#[test]
fn toggle_from_stepping_pauses() {
    let mut c = ClockControl::new(true);
    c.on_control(ClockControlMessage::Step);
    c.on_control(ClockControlMessage::TogglePausePlay);
    assert_eq!(c.mode, PlaybackMode::Paused);
}

#[test]
fn shutdown_stops_the_clock() {
    let mut c = ClockControl::new(false);
    let r = c.on_control(ClockControlMessage::Shutdown);
    assert!(r.shutdown);
    assert_eq!(c.mode, PlaybackMode::Running);
}

#[test]
fn screen_tick_sends_snapshot_only_with_debug() {
    let with = screen_tick_messages(true);
    assert_eq!(with.len(), 2);
    assert!(matches!(with[0], HardwareMessage::UpdateDebugInfo));
    assert!(matches!(with[1], HardwareMessage::FlushScreen));
    let without = screen_tick_messages(false);
    assert_eq!(without.len(), 1);
    assert!(matches!(without[0], HardwareMessage::FlushScreen));
}

#[test]
fn key_events_go_to_hardware_edge_first() {
    let mut s = InputScheduler::new();
    let ev = Chip8KeyEvent { key: 0x5, kind: Chip8KeyEventKind::Press };
    let r = s.handle_input_event(&Chip8InputEvent::Chip8KeyEvent(ev));
    assert!(r.to_clock.is_none());
    assert_eq!(r.to_hardware.len(), 2);
    assert!(matches!(r.to_hardware[0], HardwareMessage::HandleKeyEvent(e) if e == ev));
    match r.to_hardware[1] {
        HardwareMessage::UpdateKeyState(ks) => {
            assert!(ks.is_key_pressed(5));
            assert!(!ks.is_key_pressed(4));
        }
        _ => panic!("expected the keypad state"),
    }
    let up = Chip8KeyEvent { key: 0x5, kind: Chip8KeyEventKind::Release };
    let r = s.handle_input_event(&Chip8InputEvent::Chip8KeyEvent(up));
    match r.to_hardware[1] {
        HardwareMessage::UpdateKeyState(ks) => assert!(!ks.is_key_pressed(5)),
        _ => panic!("expected the keypad state"),
    }
}

#[test]
fn commands_go_to_clock_on_press_only() {
    let mut s = InputScheduler::new();
    let cases = [
        (Chip8Command::Quit, ClockControlMessage::Shutdown),
        (Chip8Command::DebugPlayPause, ClockControlMessage::TogglePausePlay),
        (Chip8Command::DebugStep, ClockControlMessage::Step),
    ];
    for (command, message) in cases {
        let r = s.handle_input_event(&Chip8InputEvent::CommandEvent {
            command,
            kind: Chip8KeyEventKind::Press,
        });
        assert_eq!(r.to_clock, Some(message));
        assert!(r.to_hardware.is_empty());
        let r = s.handle_input_event(&Chip8InputEvent::CommandEvent {
            command,
            kind: Chip8KeyEventKind::Release,
        });
        assert_eq!(r.to_clock, None);
    }
}
