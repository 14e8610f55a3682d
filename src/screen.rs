// The 64x32 monochrome framebuffer and the debug snapshot shown under it.
use vstd::prelude::*;

use crate::input::Chip8KeyState;
use crate::primitive::{Instruction, RawInstruction};
use crate::scheduler::PlaybackMode;

verus! {

/// A snapshot of the machine for the debug overlay.
#[derive(Clone, Copy, Debug)]
pub struct DebugInfo {
    pub current_pc: u16,
    pub raw_instruction: RawInstruction,
    pub decoded_instruction: Instruction,
    pub index_register: u16,
    pub delay_timer: u8,
    pub sound_timer: u8,
    pub registers: [u8; 16],
    pub key_state: Chip8KeyState,
    pub playback_mode: PlaybackMode,
}

/// The row-major index of pixel (x, y).
pub open spec fn pixel_index(x: int, y: int) -> int {
    y * 64 + x
}

/// Where the top-left cell of the 64x32 grid (two cells per pixel) goes on a
/// terminal of the given size: centred horizontally; vertically centred in
/// what is left above a reserve of four lines (six with the debug overlay),
/// or on line 1 when that is too little.
pub open spec fn frame_origin_spec(term_width: u16, term_height: u16, has_debug: bool) -> (
    u16,
    u16,
) {
    let offset_x = if term_width > 128 {
        (term_width - 128) / 2
    } else {
        0
    };
    let reserve: int = if has_debug {
        6
    } else {
        4
    };
    let available = if term_height > reserve {
        term_height - reserve
    } else {
        0
    };
    let offset_y = if available < 32 {
        1
    } else {
        (available - 32) / 2
    };
    (offset_x as u16, offset_y as u16)
}

pub struct Screen {
    pixels: [bool; 2048],
    debug_info: Option<DebugInfo>,
}

impl View for Screen {
    type V = Seq<bool>;

    closed spec fn view(&self) -> Seq<bool> {
        self.pixels@
    }
}

/// A framebuffer always has 64 x 32 pixels.
pub broadcast proof fn lemma_screen_len(s: Screen)
    ensures
        (#[trigger] s@).len() == 2048,
{
}

impl Screen {
    pub const N_ROWS: u8 = 32;
    pub const N_COLS: u8 = 64;
    pub const N_PIXELS: u16 = 2048;

    pub closed spec fn debug_info(&self) -> Option<DebugInfo> {
        self.debug_info
    }

    /// A cleared framebuffer with no debug snapshot.
    pub fn new() -> (r: Self)
        ensures
            r@ == Seq::new(2048, |i: int| false),
            r.debug_info() is None,
    {
        let r = Self { pixels: [false; 2048], debug_info: None };
        assert(r@ =~= Seq::new(2048, |i: int| false));
        r
    }

    /// The pixel at (x, y), or `None` off the grid.
    pub fn get_pixel(&self, x: u8, y: u8) -> (r: Option<bool>)
        ensures
            r == if x < 64 && y < 32 {
                Some(self@[pixel_index(x as int, y as int)])
            } else {
                None
            },
    {
        if x >= Self::N_COLS || y >= Self::N_ROWS {
            None
        } else {
            Some(self.pixels[Self::get_idx(x, y)])
        }
    }

    /// Sets the pixel at (x, y); off the grid nothing changes.
    pub fn set_pixel(&mut self, x: u8, y: u8, value: bool)
        ensures
            final(self)@ == if x < 64 && y < 32 {
                old(self)@.update(pixel_index(x as int, y as int), value)
            } else {
                old(self)@
            },
            final(self).debug_info() == old(self).debug_info(),
    {
        if x >= Self::N_COLS || y >= Self::N_ROWS {
            return;
        }
        self.pixels[Self::get_idx(x, y)] = value;
    }

    /// Turns every pixel off.
    pub fn clear(&mut self)
        ensures
            final(self)@ == Seq::new(2048, |i: int| false),
            final(self).debug_info() == old(self).debug_info(),
    {
        self.pixels = [false; 2048];
        assert(self@ =~= Seq::new(2048, |i: int| false));
    }

    pub fn set_debug_info(&mut self, debug_info: DebugInfo)
        ensures
            final(self)@ == old(self)@,
            final(self).debug_info() == Some(debug_info),
    {
        self.debug_info = Some(debug_info);
    }

    /// The latest debug snapshot, if any.
    pub fn get_debug_info(&self) -> (r: Option<DebugInfo>)
        ensures
            r == self.debug_info(),
    {
        self.debug_info
    }

    /// Where the grid's top-left cell goes on a terminal of the given size.
    pub fn frame_origin(term_width: u16, term_height: u16, has_debug: bool) -> (r: (u16, u16))
        ensures
            r == frame_origin_spec(term_width, term_height, has_debug),
    {
        let display_width: u16 = 128;
        let display_height: u16 = 32;
        let offset_x = term_width.saturating_sub(display_width) / 2;
        let bottom_reserve: u16 = if has_debug {
            6
        } else {
            4
        };
        let available_height = term_height.saturating_sub(bottom_reserve);
        let offset_y = if available_height < display_height {
            1
        } else {
            available_height.saturating_sub(display_height) / 2
        };
        (offset_x, offset_y)
    }

    fn get_idx(x: u8, y: u8) -> (r: usize)
        requires
            x < 64,
            y < 32,
        ensures
            r == pixel_index(x as int, y as int),
            r < 2048,
    {
        assert(y * 64 + x < 2048) by (nonlinear_arith)
            requires
                x < 64,
                y < 32,
        ;
        y as usize * 64 + x as usize
    }
}

} // verus!
