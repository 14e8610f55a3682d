// The machine as a whole: configuration, the built-in font, and loading a
// program.
use vstd::prelude::*;

use crate::hardware::{loaded_state, Hardware, HardwareExecutionConfig, HardwareState};
use crate::input::KeyEventHandler;
use crate::cpu::CpuState;
use crate::scheduler::PlaybackMode;

verus! {

/// The interpreter family whose quirks are followed.
#[derive(Clone, Copy, Debug, PartialEq, Eq, Structural)]
pub enum Chip8Version {
    COSMAC,
    CHIP48,
    SUPERCHIP,
}

#[derive(Clone, Copy, Debug, PartialEq, Eq, Structural)]
pub struct Chip8Config {
    pub version: Chip8Version,
    pub debug: bool,
}

pub struct Chip8 {
    pub config: Chip8Config,
    pub hardware: Hardware,
    pub input: KeyEventHandler,
}

impl Chip8 {
    /// Where a program is expected to start.
    pub const ENTRY_POINT: u16 = 0x200;
    pub const INPUT_POLL_RATE_MS: u64 = 10;
    /// Where the built-in font is loaded.
    pub const FONT_START_ADDR: u16 = 0x50;
    pub const BYTES_PER_FONT: u16 = 5;
    /// The largest program that fits between the entry point and the end of
    /// memory.
    pub const MAX_ROM_SIZE: usize = 3584;
    /// The 4x5 glyphs of the hex digits 0..F, five bytes each.
    pub const FONT: [u8; 80] = [
        0xF0, 0x90, 0x90, 0x90, 0xF0, // 0
        0x20, 0x60, 0x20, 0x20, 0x70, // 1
        0xF0, 0x10, 0xF0, 0x80, 0xF0, // 2
        0xF0, 0x10, 0xF0, 0x10, 0xF0, // 3
        0x90, 0x90, 0xF0, 0x10, 0x10, // 4
        0xF0, 0x80, 0xF0, 0x10, 0xF0, // 5
        0xF0, 0x80, 0xF0, 0x90, 0xF0, // 6
        0xF0, 0x10, 0x20, 0x40, 0x40, // 7
        0xF0, 0x90, 0xF0, 0x90, 0xF0, // 8
        0xF0, 0x90, 0xF0, 0x10, 0xF0, // 9
        0xF0, 0x90, 0xF0, 0x90, 0x90, // A
        0xE0, 0x90, 0xE0, 0x90, 0xE0, // B
        0xF0, 0x80, 0x80, 0x80, 0xF0, // C
        0xE0, 0x90, 0x90, 0x90, 0xE0, // D
        0xF0, 0x80, 0xF0, 0x80, 0xF0, // E
        0xF0, 0x80, 0xF0, 0x80, 0x80, // F
    ];
}

impl Chip8 {
    /// A machine with everything cleared, following the quirks of the
    /// configured version, ADD_I leaving VF alone.
    pub fn new(config: Chip8Config, input_handler: KeyEventHandler) -> (r: Self)
        ensures
            r.config == config,
            r.hardware@ == (HardwareState {
                cpu: CpuState::initial(),
                pixels: Seq::new(2048, |p: int| false),
                debug_info: None,
                keys: Seq::new(16, |k: int| false),
                config: HardwareExecutionConfig {
                    version: config.version,
                    add_index_sets_flag: false,
                },
                playback: PlaybackMode::Running,
                rom: None,
            }),
            r.input.layout() == input_handler.layout(),
            r.input.poll_rate_ms() == input_handler.poll_rate_ms(),
    {
        Self {
            config,
            hardware: Hardware::new(
                HardwareExecutionConfig { version: config.version, add_index_sets_flag: false },
            ),
            input: input_handler,
        }
    }

    // Loads a program `bytes` into ROM starting at the entry point, and gets
    // the CPU ready for execution
    pub fn load_rom(&mut self, bytes: &Vec<u8>) -> (r: Result<(), ()>)
        ensures
            (r is Ok) <==> (bytes@.len() <= 3584),
            (r is Ok) ==> final(self).hardware@ == loaded_state(old(self).hardware@, bytes@),
            (r is Err) ==> final(self).hardware@ == old(self).hardware@,
            final(self).config == old(self).config,
    {
        self.hardware.load_rom(bytes)
    }
}

} // verus!
