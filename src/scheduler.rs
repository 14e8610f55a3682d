// The decisions of the clocks and the message bus: what each message does to
// the hardware, the playback state machine of the CPU clock, and which
// messages an input event produces.
use vstd::prelude::*;

use crate::decoder::{decode_spec, Decoder};
use crate::hardware::{key_edge_spec, outcome, step, Hardware, HardwareState, InterpreterFault};
use crate::input::{
    lemma_key_state_len, Chip8Command, Chip8InputEvent, Chip8KeyEvent, Chip8KeyEventKind,
    Chip8KeyState,
};

verus! {

broadcast use lemma_key_state_len;

#[derive(Clone, Copy, Debug, PartialEq, Eq, Structural)]
pub enum PlaybackMode {
    Running,
    Paused,
    Stepping,
}

/// The messages of the hardware bus.
#[derive(Clone, Copy, Debug)]
pub enum HardwareMessage {
    ExecuteInstruction,
    UpdateKeyState(Chip8KeyState),
    HandleKeyEvent(Chip8KeyEvent),
    DecrementTimers,
    FlushScreen,
    UpdateDebugInfo,
}

/// What the owner of the terminal has to do after a message.
#[derive(Clone, Copy, Debug, PartialEq, Eq, Structural)]
pub enum HardwareAction {
    Nothing,
    FlushScreen,
}

/// What a message does to the hardware (`before` to `after`) and what it
/// asks of the terminal's owner.
pub open spec fn dispatch_spec(
    before: HardwareState,
    message: HardwareMessage,
    r: Result<HardwareAction, InterpreterFault>,
    after: HardwareState,
) -> bool {
    match message {
        HardwareMessage::ExecuteInstruction => if before.cpu.waiting is Some {
            // The CPU idles while it waits for a key.
            r == Ok::<HardwareAction, InterpreterFault>(HardwareAction::Nothing) && after == before
        } else {
            match decode_spec(before.cpu.current_opcode() as u16) {
                Some(inst) => {
                    &&& r matches Ok(a) ==> a == HardwareAction::Nothing
                    &&& exists|random: u8|
                        step(before, inst, random) == outcome(
                            match r {
                                Ok(_) => Ok(()),
                                Err(e) => Err(e),
                            },
                            after,
                        )
                    &&& (r is Err) ==> after == before
                },
                None => r == Err::<HardwareAction, InterpreterFault>(
                    InterpreterFault::InvalidInstruction,
                ) && after == before,
            }
        },
        HardwareMessage::UpdateKeyState(ks) => r == Ok::<HardwareAction, InterpreterFault>(
            HardwareAction::Nothing,
        ) && after == HardwareState { keys: ks@, ..before },
        HardwareMessage::HandleKeyEvent(ev) => r == Ok::<HardwareAction, InterpreterFault>(
            HardwareAction::Nothing,
        ) && after == key_edge_spec(before, ev.key, ev.kind).0,
        HardwareMessage::DecrementTimers => r == Ok::<HardwareAction, InterpreterFault>(
            HardwareAction::Nothing,
        ) && after == before.with_cpu(before.cpu.ticked()),
        HardwareMessage::FlushScreen => r == Ok::<HardwareAction, InterpreterFault>(
            HardwareAction::FlushScreen,
        ) && after == before,
        HardwareMessage::UpdateDebugInfo => r == Ok::<HardwareAction, InterpreterFault>(
            HardwareAction::Nothing,
        ) && after.debug_info is Some && after == HardwareState {
            debug_info: after.debug_info,
            ..before
        },
    }
}

// Applies the messages of the hardware bus, one at a time.
pub struct HardwareScheduler;

impl HardwareScheduler {
    /// Applies one message to the hardware; a fault of the interpreter is
    /// returned, and leaves the hardware as it was.
    pub fn dispatch(hardware: &mut Hardware, message: &HardwareMessage) -> (r: Result<
        HardwareAction,
        InterpreterFault,
    >)
        ensures
            dispatch_spec(old(hardware)@, *message, r, final(hardware)@),
    {
        match *message {
            HardwareMessage::ExecuteInstruction => {
                // Skip execution while the CPU waits for a key
                if !hardware.is_waiting_for_key() {
                    let raw = hardware.fetch_current_instruction();
                    match Decoder::decode(&raw) {
                        Some(inst) => {
                            hardware.execute_instruction(&inst)?;
                        },
                        None => return Err(InterpreterFault::InvalidInstruction),
                    }
                }
            },
            HardwareMessage::HandleKeyEvent(Chip8KeyEvent { key, kind }) => {
                hardware.handle_key_when_waiting(key, kind);
            },
            HardwareMessage::DecrementTimers => {
                hardware.decrement_timers();
            },
            HardwareMessage::UpdateKeyState(key_state) => {
                hardware.set_key_state(&key_state);
            },
            HardwareMessage::FlushScreen => {
                return Ok(HardwareAction::FlushScreen);
            },
            HardwareMessage::UpdateDebugInfo => {
                hardware.update_debug_info();
            },
        }
        Ok(HardwareAction::Nothing)
    }
}

/// The messages of the control bus of the CPU clock.
#[derive(Clone, Copy, Debug, PartialEq, Eq, Structural)]
pub enum ClockControlMessage {
    TogglePausePlay,
    Step,
    Shutdown,
}

/// What the CPU clock does in answer to an event.
#[derive(Clone, Copy, Debug, PartialEq, Eq, Structural)]
pub struct ClockReaction {
    /// Send one ExecuteInstruction.
    pub execute: bool,
    /// Report this playback mode to the debug overlay.
    pub report: Option<PlaybackMode>,
    /// Restart the CPU interval from now.
    pub reset_interval: bool,
    /// Stop the clock.
    pub shutdown: bool,
}

/// The playback state machine of the CPU clock.
#[derive(Clone, Copy, Debug, PartialEq, Eq, Structural)]
pub struct ClockControl {
    pub mode: PlaybackMode,
    /// A Step whose ExecuteInstruction has not been sent yet.
    pub step_pending: bool,
}

pub open spec fn quiet() -> ClockReaction {
    ClockReaction { execute: false, report: None, reset_interval: false, shutdown: false }
}

/// The next state of the machine and the clock's reaction to a control
/// message.
pub open spec fn control_spec(c: ClockControl, msg: ClockControlMessage) -> (
    ClockControl,
    ClockReaction,
) {
    match msg {
        ClockControlMessage::TogglePausePlay => {
            let mode = if c.mode == PlaybackMode::Paused {
                PlaybackMode::Running
            } else {
                PlaybackMode::Paused
            };
            (
                ClockControl { mode, ..c },
                ClockReaction {
                    report: Some(mode),
                    reset_interval: mode == PlaybackMode::Running,
                    ..quiet()
                },
            )
        },
        ClockControlMessage::Step => (
            ClockControl { mode: PlaybackMode::Stepping, step_pending: true },
            ClockReaction { report: Some(PlaybackMode::Stepping), ..quiet() },
        ),
        ClockControlMessage::Shutdown => (c, ClockReaction { shutdown: true, ..quiet() }),
    }
}

/// The next state of the machine and the clock's reaction to a control
/// quantum: a pending step sends its one ExecuteInstruction; after it the
/// machine falls back to Paused.
pub open spec fn quantum_spec(c: ClockControl) -> (ClockControl, ClockReaction) {
    if c.step_pending {
        (ClockControl { step_pending: false, ..c }, ClockReaction { execute: true, ..quiet() })
    } else if c.mode == PlaybackMode::Stepping {
        (
            ClockControl { mode: PlaybackMode::Paused, ..c },
            ClockReaction { report: Some(PlaybackMode::Paused), ..quiet() },
        )
    } else {
        (c, quiet())
    }
}

impl ClockControl {
    /// The machine at start: Paused with the debug overlay, else Running.
    pub fn new(debug: bool) -> (r: Self)
        ensures
            r.mode == if debug {
                PlaybackMode::Paused
            } else {
                PlaybackMode::Running
            },
            !r.step_pending,
    {
        ClockControl {
            mode: if debug {
                PlaybackMode::Paused
            } else {
                PlaybackMode::Running
            },
            step_pending: false,
        }
    }

    /// Whether a tick of the CPU interval sends an ExecuteInstruction.
    pub fn on_tick(&self) -> (r: bool)
        ensures
            r == (self.mode == PlaybackMode::Running),
    {
        self.mode == PlaybackMode::Running
    }

    pub fn on_control(&mut self, msg: ClockControlMessage) -> (r: ClockReaction)
        ensures
            (*final(self), r) == control_spec(*old(self), msg),
    {
        let mut reaction = ClockReaction {
            execute: false,
            report: None,
            reset_interval: false,
            shutdown: false,
        };
        match msg {
            ClockControlMessage::TogglePausePlay => {
                self.mode = if self.mode == PlaybackMode::Paused {
                    PlaybackMode::Running
                } else {
                    PlaybackMode::Paused
                };
                reaction.report = Some(self.mode);
                reaction.reset_interval = self.mode == PlaybackMode::Running;
            },
            ClockControlMessage::Step => {
                self.mode = PlaybackMode::Stepping;
                self.step_pending = true;
                reaction.report = Some(PlaybackMode::Stepping);
            },
            ClockControlMessage::Shutdown => {
                reaction.shutdown = true;
            },
        }
        reaction
    }

    pub fn on_quantum(&mut self) -> (r: ClockReaction)
        ensures
            (*final(self), r) == quantum_spec(*old(self)),
    {
        let mut reaction = ClockReaction {
            execute: false,
            report: None,
            reset_interval: false,
            shutdown: false,
        };
        if self.step_pending {
            self.step_pending = false;
            reaction.execute = true;
        } else if self.mode == PlaybackMode::Stepping {
            self.mode = PlaybackMode::Paused;
            reaction.report = Some(PlaybackMode::Paused);
        }
        reaction
    }
}

/// From any state, a Step makes the next control quantum send exactly one
/// ExecuteInstruction; the quantum after it sends none and leaves the
/// machine Paused, where CPU ticks send nothing.
pub proof fn lemma_step_executes_once(c: ClockControl)
    ensures
        ({
            let (c1, _) = control_spec(c, ClockControlMessage::Step);
            let (c2, r2) = quantum_spec(c1);
            let (c3, r3) = quantum_spec(c2);
            &&& r2.execute
            &&& !r3.execute
            &&& c3.mode == PlaybackMode::Paused
            &&& !c3.step_pending
            &&& quantum_spec(c3) == (c3, quiet())
        }),
{
}

/// The messages one screen tick sends: the debug snapshot first when the
/// overlay is on, then the flush.
pub fn screen_tick_messages(debug_enabled: bool) -> (r: Vec<HardwareMessage>)
    ensures
        r@ == if debug_enabled {
            seq![HardwareMessage::UpdateDebugInfo, HardwareMessage::FlushScreen]
        } else {
            seq![HardwareMessage::FlushScreen]
        },
{
    if debug_enabled {
        vec![HardwareMessage::UpdateDebugInfo, HardwareMessage::FlushScreen]
    } else {
        vec![HardwareMessage::FlushScreen]
    }
}

/// Where the messages of one input event go.
#[derive(Debug)]
pub struct InputReaction {
    pub to_hardware: Vec<HardwareMessage>,
    pub to_clock: Option<ClockControlMessage>,
}

/// The control message a command's press sends.
pub open spec fn command_message(command: Chip8Command) -> ClockControlMessage {
    match command {
        Chip8Command::Quit => ClockControlMessage::Shutdown,
        Chip8Command::DebugPlayPause => ClockControlMessage::TogglePausePlay,
        Chip8Command::DebugStep => ClockControlMessage::Step,
    }
}

// Keeps the keypad state that the input events build up.
pub struct InputScheduler {
    key_state: Chip8KeyState,
}

impl InputScheduler {
    pub closed spec fn keys(&self) -> Seq<bool> {
        self.key_state@
    }

    /// Starts with no key pressed.
    pub fn new() -> (r: Self)
        ensures
            r.keys() == Seq::new(16, |i: int| false),
    {
        Self { key_state: Chip8KeyState::default() }
    }

    /// Routes one input event: a key edge updates the keypad and goes to the
    /// hardware as the edge (for GET_KEY) followed by the new keypad state;
    /// a command goes to the clock on its press only.
    pub fn handle_input_event(&mut self, input_event: &Chip8InputEvent) -> (r: InputReaction)
        ensures
            match *input_event {
                Chip8InputEvent::Chip8KeyEvent(ev) => {
                    let keys = if ev.key < 16 {
                        old(self).keys().update(ev.key as int, ev.kind == Chip8KeyEventKind::Press)
                    } else {
                        old(self).keys()
                    };
                    &&& final(self).keys() == keys
                    &&& r.to_hardware@.len() == 2
                    &&& r.to_hardware@[0] == HardwareMessage::HandleKeyEvent(ev)
                    &&& r.to_hardware@[1] matches HardwareMessage::UpdateKeyState(ks) && ks@ == keys
                    &&& r.to_clock is None
                },
                Chip8InputEvent::CommandEvent { command, kind } => {
                    &&& final(self).keys() == old(self).keys()
                    &&& r.to_hardware@.len() == 0
                    &&& r.to_clock == if kind == Chip8KeyEventKind::Press {
                        Some(command_message(command))
                    } else {
                        None
                    }
                },
            },
    {
        match *input_event {
            Chip8InputEvent::Chip8KeyEvent(Chip8KeyEvent { key, kind }) => {
                // Update local key state
                if kind == Chip8KeyEventKind::Press {
                    self.key_state.press(key);
                } else {
                    self.key_state.release(key);
                }
                InputReaction {
                    to_hardware: vec![
                        HardwareMessage::HandleKeyEvent(Chip8KeyEvent { key, kind }),
                        HardwareMessage::UpdateKeyState(self.key_state),
                    ],
                    to_clock: None,
                }
            },
            Chip8InputEvent::CommandEvent { command, kind } => {
                let to_clock = if kind == Chip8KeyEventKind::Press {
                    Some(
                        match command {
                            Chip8Command::Quit => ClockControlMessage::Shutdown,
                            Chip8Command::DebugPlayPause => ClockControlMessage::TogglePausePlay,
                            Chip8Command::DebugStep => ClockControlMessage::Step,
                        },
                    )
                } else {
                    None
                };
                InputReaction { to_hardware: Vec::new(), to_clock }
            },
        }
    }
}

/// Runs the whole machine: the clocks, the input pump and the hardware.
pub struct Chip8Orchaestrator;

} // verus!
