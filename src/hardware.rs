// Executes decoded instructions against the CPU, the framebuffer and the
// keypad.
use vstd::prelude::*;

use crate::chip8::{Chip8, Chip8Version};
use crate::cpu::{lemma_cpu_sizes, wrap16, CpuState, CPU};
use crate::decoder::{decode_spec, Decoder};
use crate::input::{lemma_key_state_len, Chip8KeyEventKind, Chip8KeyState};
use crate::primitive::{
    group_primitive_lemmas, Immediate4, Instruction, RawInstruction, RegOperation, Register,
    SkipIf,
};
use crate::scheduler::PlaybackMode;
use crate::screen::{lemma_screen_len, DebugInfo, Screen};

verus! {

broadcast use group_primitive_lemmas, lemma_cpu_sizes, lemma_key_state_len, lemma_screen_len;

#[derive(Clone, Copy, Debug)]
pub struct HardwareExecutionConfig {
    pub version: Chip8Version,
    /// Whether ADD_I sets VF when I passes 0xFFF (off by default).
    pub add_index_sets_flag: bool,
}

/// The fatal conditions of the interpreter.
#[derive(Clone, Copy, Debug, PartialEq, Eq, Structural)]
pub enum InterpreterFault {
    /// RETURN with an empty stack.
    StackUnderflow,
    /// CALL with the stack at its capacity.
    StackOverflow,
    /// An opcode that names no instruction, or the `Invalid` instruction.
    InvalidInstruction,
}

/// The mathematical state of the hardware.
pub struct HardwareState {
    pub cpu: CpuState,
    pub pixels: Seq<bool>,
    pub debug_info: Option<DebugInfo>,
    pub keys: Seq<bool>,
    pub config: HardwareExecutionConfig,
    pub playback: PlaybackMode,
    pub rom: Option<Seq<u8>>,
}

impl HardwareState {
    pub open spec fn with_cpu(self, cpu: CpuState) -> HardwareState {
        HardwareState { cpu, ..self }
    }

    pub open spec fn is_cosmac(self) -> bool {
        self.config.version == Chip8Version::COSMAC
    }
}

/// The value an 8XY* operation leaves in Vx, and the flag it writes to VF
/// (after Vx), if any.
pub open spec fn reg_op_result(version: Chip8Version, op: RegOperation, vx: u8, vy: u8) -> (
    u8,
    Option<u8>,
) {
    let shifted = if version == Chip8Version::COSMAC {
        vy
    } else {
        vx
    };
    match op {
        RegOperation::Assign => (vy, None),
        RegOperation::Or => (vx | vy, None),
        RegOperation::And => (vx & vy, None),
        RegOperation::Xor => (vx ^ vy, None),
        RegOperation::Add => (
            ((vx + vy) % 256) as u8,
            Some(
                if vx + vy >= 256 {
                    1u8
                } else {
                    0u8
                },
            ),
        ),
        RegOperation::Sub => (
            ((vx - vy + 256) % 256) as u8,
            Some(
                if vx > vy {
                    1u8
                } else {
                    0u8
                },
            ),
        ),
        RegOperation::SubInv => (
            ((vy - vx + 256) % 256) as u8,
            Some(
                if vy > vx {
                    1u8
                } else {
                    0u8
                },
            ),
        ),
        RegOperation::ShiftRight => ((shifted / 2) as u8, Some((shifted % 2) as u8)),
        RegOperation::ShiftLeft => (((shifted * 2) % 256) as u8, Some((shifted / 128) as u8)),
    }
}

/// The CPU after the 8XY* operation `op` on Vx and Vy (before the program
/// counter moves on): the flag, if any, is written after Vx.
pub open spec fn reg_op_cpu(s: HardwareState, op: RegOperation, x: int, y: int) -> CpuState {
    let c = s.cpu;
    let (v, flag) = reg_op_result(s.config.version, op, c.registers[x], c.registers[y]);
    let c1 = c.with_register(x, v);
    match flag {
        Some(f) => c1.with_register(15, f),
        None => c1,
    }
}

/// Whether bit `k` (0 = most significant) of a sprite row is set.
pub open spec fn sprite_bit(row: u8, k: int) -> bool {
    (row >> ((7 - k) as u8)) & 1u8 == 1u8
}

/// Whether drawing `rows` rows of the sprite at I from (sx, sy) flips the
/// pixel with row-major index `p`: rows and columns past the edges are
/// clipped.
pub open spec fn sprite_hit(c: CpuState, sx: int, sy: int, rows: int, p: int) -> bool {
    let px = p % 64;
    let py = p / 64;
    &&& 0 <= p < 2048
    &&& sx <= px < sx + 8
    &&& sy <= py < sy + rows
    &&& sprite_bit(c.byte_at(c.index + (py - sy)), px - sx)
}

/// The framebuffer after the sprite is XOR-ed onto it.
pub open spec fn drawn_pixels(s: HardwareState, sx: int, sy: int, rows: int) -> Seq<bool> {
    Seq::new(2048, |p: int| s.pixels[p] != sprite_hit(s.cpu, sx, sy, rows, p))
}

/// Whether pixel `p` is flipped by the part of the sprite drawn before row
/// `r`, bit `b`.
pub open spec fn hit_before(c: CpuState, sx: int, sy: int, rows: int, p: int, r: int, b: int) -> bool {
    &&& sprite_hit(c, sx, sy, rows, p)
    &&& (p / 64 - sy < r || (p / 64 - sy == r && p % 64 - sx < b))
}

pub open spec fn collides_before(
    c: CpuState,
    pixels: Seq<bool>,
    sx: int,
    sy: int,
    rows: int,
    r: int,
    b: int,
) -> bool {
    exists|p: int| #[trigger] hit_before(c, sx, sy, rows, p, r, b) && pixels[p]
}

/// Whether the sprite turns some lit pixel off.
pub open spec fn draw_collides(s: HardwareState, sx: int, sy: int, rows: int) -> bool {
    exists|p: int| #[trigger] sprite_hit(s.cpu, sx, sy, rows, p) && s.pixels[p]
}

/// The state after the sprite of DRAW Vx, Vy, N is drawn (before the
/// program counter moves on): the start wraps, the sprite is clipped, VF
/// tells whether a lit pixel went off.
pub open spec fn draw_state(s: HardwareState, x: int, y: int, n: int) -> HardwareState {
    let sx = s.cpu.registers[x] % 64;
    let sy = s.cpu.registers[y] % 32;
    let flag: u8 = if draw_collides(s, sx as int, sy as int, n) {
        1
    } else {
        0
    };
    HardwareState {
        cpu: s.cpu.with_register(15, flag),
        pixels: drawn_pixels(s, sx as int, sy as int, n),
        ..s
    }
}

/// The CPU after a skip instruction whose condition is `skip`.
pub open spec fn skip_state(c: CpuState, skip: bool) -> CpuState {
    if skip {
        c.advanced().advanced()
    } else {
        c.advanced()
    }
}

pub open spec fn skip_holds(cond: SkipIf, b: bool) -> bool {
    match cond {
        SkipIf::Eq => b,
        SkipIf::NotEq => !b,
    }
}

/// What executing one instruction does to the hardware, `random` being the
/// byte that RAND draws.
pub open spec fn step(s: HardwareState, inst: Instruction, random: u8) -> Result<
    HardwareState,
    InterpreterFault,
> {
    let c = s.cpu;
    match inst {
        Instruction::ClearScreen => Ok(
            HardwareState { cpu: c.advanced(), pixels: Seq::new(2048, |p: int| false), ..s },
        ),
        Instruction::Draw(x, y, n) => {
            let d = draw_state(s, x@ as int, y@ as int, n@ as int);
            Ok(d.with_cpu(d.cpu.advanced()))
        },
        Instruction::SetFont(x) => Ok(
            s.with_cpu(
                CpuState {
                    index: (0x50 + (c.registers[x@ as int] % 16) * 5) as u16,
                    ..c
                }.advanced(),
            ),
        ),
        Instruction::Jump(a) => Ok(s.with_cpu(CpuState { pc: a@, ..c })),
        Instruction::JumpWithOffset(a) => {
            let offset_reg: int = if s.is_cosmac() {
                0
            } else {
                (a@ as int / 256) % 16
            };
            Ok(s.with_cpu(CpuState { pc: (a@ + c.registers[offset_reg]) as u16, ..c }))
        },
        Instruction::CallSubroutine(a) => if c.stack.len() >= 16 {
            Err(InterpreterFault::StackOverflow)
        } else {
            Ok(s.with_cpu(CpuState { stack: c.stack.push(c.pc), pc: a@, ..c }))
        },
        Instruction::Return => if c.stack.len() == 0 {
            Err(InterpreterFault::StackUnderflow)
        } else {
            Ok(
                s.with_cpu(
                    CpuState { stack: c.stack.drop_last(), pc: c.stack.last(), ..c }.advanced(),
                ),
            )
        },
        Instruction::Skip(cond, x, v) => Ok(
            s.with_cpu(skip_state(c, skip_holds(cond, c.registers[x@ as int] == v@))),
        ),
        Instruction::SkipReg(cond, x, y) => Ok(
            s.with_cpu(
                skip_state(c, skip_holds(cond, c.registers[x@ as int] == c.registers[y@ as int])),
            ),
        ),
        Instruction::SkipKeyPress(cond, x) => Ok(
            s.with_cpu(skip_state(c, skip_holds(cond, s.keys[c.registers[x@ as int] as int % 16]))),
        ),
        Instruction::GetKey(x) => Ok(s.with_cpu(CpuState { waiting: Some(x), ..c })),
        Instruction::RegOp(op, x, y) => Ok(
            s.with_cpu(reg_op_cpu(s, op, x@ as int, y@ as int).advanced()),
        ),
        Instruction::SetRegImmediate(x, v) => Ok(
            s.with_cpu(c.with_register(x@ as int, v@).advanced()),
        ),
        Instruction::AddRegImmediate(x, v) => Ok(
            s.with_cpu(
                c.with_register(x@ as int, ((c.registers[x@ as int] + v@) % 256) as u8).advanced(),
            ),
        ),
        Instruction::Random(x, v) => Ok(s.with_cpu(c.with_register(x@ as int, random & v@).advanced())),
        Instruction::StoreAddr(x) => Ok(
            s.with_cpu(
                CpuState {
                    memory: c.stored_memory(x@ as int),
                    index: if s.is_cosmac() {
                        wrap16(c.index + x@ + 1)
                    } else {
                        c.index
                    },
                    ..c
                }.advanced(),
            ),
        ),
        Instruction::LoadAddr(x) => Ok(
            s.with_cpu(
                CpuState {
                    registers: c.loaded_registers(x@ as int),
                    index: if s.is_cosmac() {
                        wrap16(c.index + x@ + 1)
                    } else {
                        c.index
                    },
                    ..c
                }.advanced(),
            ),
        ),
        Instruction::SetSoundTimer(x) => Ok(
            s.with_cpu(CpuState { sound: c.registers[x@ as int], ..c }.advanced()),
        ),
        Instruction::SetDelayTimer(x) => Ok(
            s.with_cpu(CpuState { delay: c.registers[x@ as int], ..c }.advanced()),
        ),
        Instruction::GetDelayTimer(x) => Ok(s.with_cpu(c.with_register(x@ as int, c.delay).advanced())),
        Instruction::SetIndex(a) => Ok(s.with_cpu(CpuState { index: a@, ..c }.advanced())),
        Instruction::AddIndex(x) => {
            let sum = c.index + c.registers[x@ as int];
            let c1 = CpuState { index: wrap16(sum), ..c };
            let c2 = if s.config.add_index_sets_flag {
                c1.with_register(
                    15,
                    if sum > 0xFFF {
                        1
                    } else {
                        0
                    },
                )
            } else {
                c1
            };
            Ok(s.with_cpu(c2.advanced()))
        },
        Instruction::BinaryDecimalConv(x) => Ok(
            s.with_cpu(
                CpuState { memory: c.bcd_memory(c.registers[x@ as int]), ..c }.advanced(),
            ),
        ),
        Instruction::ExecuteMachineLangRoutine => Ok(s.with_cpu(c.advanced())),
        Instruction::Invalid => Err(InterpreterFault::InvalidInstruction),
    }
}

/// The outcome `r` of an execution, with `after` the state it left.
pub open spec fn outcome(r: Result<(), InterpreterFault>, after: HardwareState) -> Result<
    HardwareState,
    InterpreterFault,
> {
    match r {
        Ok(_) => Ok(after),
        Err(e) => Err(e),
    }
}

/// The key edge that satisfies GET_KEY: the release on COSMAC, the press
/// otherwise.
pub open spec fn expected_edge(version: Chip8Version) -> Chip8KeyEventKind {
    if version == Chip8Version::COSMAC {
        Chip8KeyEventKind::Release
    } else {
        Chip8KeyEventKind::Press
    }
}

/// What a key edge does to the hardware, and whether it satisfied a
/// pending GET_KEY.
pub open spec fn key_edge_spec(s: HardwareState, key: u8, kind: Chip8KeyEventKind) -> (
    HardwareState,
    bool,
) {
    match s.cpu.waiting {
        Some(reg) => if kind == expected_edge(s.config.version) {
            (
                s.with_cpu(
                    CpuState { waiting: None, ..s.cpu }.with_register(reg@ as int, key).advanced(),
                ),
                true,
            )
        } else {
            (s, false)
        },
        None => (s, false),
    }
}

/// The state after a program is loaded: the font at 0x050, the program at
/// 0x200, the program counter at 0x200.
pub open spec fn loaded_state(s: HardwareState, bytes: Seq<u8>) -> HardwareState {
    let with_font = CpuState {
        memory: s.cpu.memory_with_bytes(0x50, Chip8::FONT@),
        ..s.cpu
    };
    HardwareState {
        cpu: CpuState {
            memory: with_font.memory_with_bytes(0x200, bytes),
            pc: 0x200,
            ..with_font
        },
        rom: Some(bytes),
        ..s
    }
}

/// Whether `d` is the debug snapshot of state `s`.
pub open spec fn is_snapshot_of(d: DebugInfo, s: HardwareState) -> bool {
    &&& d.current_pc == s.cpu.pc
    &&& d.raw_instruction@ == s.cpu.current_opcode()
    &&& d.decoded_instruction == match decode_spec(d.raw_instruction@) {
        Some(i) => i,
        None => Instruction::Invalid,
    }
    &&& d.index_register == s.cpu.index
    &&& d.delay_timer == s.cpu.delay
    &&& d.sound_timer == s.cpu.sound
    &&& d.registers@ == s.cpu.registers
    &&& d.key_state@ == s.keys
    &&& d.playback_mode == s.playback
}

/// Relies on rand::random::<u8>: a byte from the thread-local generator.
/// Nothing is known of its value.
#[verifier::external_body]
fn random_byte() -> (r: u8) {
    rand::random::<u8>()
}

// Manages the internal state of the CPU and the Screen
pub struct Hardware {
    pub cpu: CPU,
    pub screen: Screen,
    key_state: Chip8KeyState,
    config: HardwareExecutionConfig,
    playback_state: PlaybackMode,
    rom: Option<Vec<u8>>,
}

impl View for Hardware {
    type V = HardwareState;

    closed spec fn view(&self) -> HardwareState {
        HardwareState {
            cpu: self.cpu@,
            pixels: self.screen@,
            debug_info: self.screen.debug_info(),
            keys: self.key_state@,
            config: self.config,
            playback: self.playback_state,
            rom: match self.rom {
                Some(v) => Some(v@),
                None => None,
            },
        }
    }
}

/// The hardware's CPU, framebuffer and keypad have their fixed sizes.
pub broadcast proof fn lemma_hardware_sizes(h: Hardware)
    ensures
        (#[trigger] h@).cpu.memory.len() == 4096 && h@.cpu.registers.len() == 16 && h@.pixels.len()
            == 2048 && h@.keys.len() == 16,
{
}

proof fn lemma_pixel_coords(x: int, y: int)
    requires
        0 <= x < 64,
        0 <= y < 32,
    ensures
        (y * 64 + x) % 64 == x,
        (y * 64 + x) / 64 == y,
        0 <= y * 64 + x < 2048,
{
    assert((y * 64 + x) % 64 == x && (y * 64 + x) / 64 == y && 0 <= y * 64 + x < 2048)
        by (nonlinear_arith)
        requires
            0 <= x < 64,
            0 <= y < 32,
    ;
}

impl Hardware {
    pub fn new(config: HardwareExecutionConfig) -> (r: Self)
        ensures
            r@ == (HardwareState {
                cpu: CpuState::initial(),
                pixels: Seq::new(2048, |p: int| false),
                debug_info: None,
                keys: Seq::new(16, |k: int| false),
                config,
                playback: PlaybackMode::Running,
                rom: None,
            }),
    {
        Self {
            cpu: CPU::new(),
            screen: Screen::new(),
            key_state: Chip8KeyState::default(),
            config,
            playback_state: PlaybackMode::Running,
            rom: None,
        }
    }

    /// Replaces the keypad state.
    pub fn set_key_state(&mut self, key_state: &Chip8KeyState)
        ensures
            final(self)@ == (HardwareState { keys: key_state@, ..old(self)@ }),
    {
        self.key_state = *key_state;
    }

    /// One 60 Hz tick of both timers.
    pub fn decrement_timers(&mut self)
        ensures
            final(self)@ == old(self)@.with_cpu(old(self)@.cpu.ticked()),
    {
        self.cpu.dec_delay();
        self.cpu.dec_sound();
    }

    /// Records the playback mode shown in the debug overlay.
    pub fn set_playback_mode(&mut self, mode: PlaybackMode)
        ensures
            final(self)@ == (HardwareState { playback: mode, ..old(self)@ }),
    {
        self.playback_state = mode;
    }

    /// Offers a key edge to a pending GET_KEY: an edge of the kind the
    /// version waits for stores the key in the register, clears the latch
    /// and advances the program counter; returns whether it did.
    pub fn handle_key_when_waiting(&mut self, key: u8, kind: Chip8KeyEventKind) -> (r: bool)
        ensures
            (final(self)@, r) == key_edge_spec(old(self)@, key, kind),
    {
        if let Some(reg) = self.cpu.stop_waiting_for_key() {
            let expected_kind = if self.config.version == Chip8Version::COSMAC {
                Chip8KeyEventKind::Release
            } else {
                Chip8KeyEventKind::Press
            };
            if kind == expected_kind {
                self.cpu.register_set(&reg, key);
                self.cpu.increment_pc();
                return true;
            } else {
                // Wrong event type, continue waiting
                self.cpu.start_waiting_for_key(reg);
            }
        }
        false
    }

    /// The opcode at the program counter.
    pub fn fetch_current_instruction(&self) -> (r: RawInstruction)
        ensures
            r@ == self@.cpu.current_opcode(),
    {
        self.cpu.fetch_current_instruction()
    }

    pub fn is_waiting_for_key(&self) -> (r: bool)
        ensures
            r == (self@.cpu.waiting is Some),
    {
        self.cpu.is_waiting_for_key()
    }

    /// Loads the font and a program, and points the program counter at the
    /// program; a program longer than 3584 bytes is refused, changing
    /// nothing.
    pub fn load_rom(&mut self, bytes: &Vec<u8>) -> (r: Result<(), ()>)
        ensures
            (r is Ok) <==> (bytes@.len() <= 3584),
            (r is Ok) ==> final(self)@ == loaded_state(old(self)@, bytes@),
            (r is Err) ==> final(self)@ == old(self)@,
    {
        if bytes.len() > Chip8::MAX_ROM_SIZE {
            return Err(());
        }
        let font_stored = self.cpu.store_memory_slice(
            Chip8::FONT_START_ADDR as usize,
            Chip8::FONT.as_slice(),
        );
        let rom_stored = self.cpu.store_memory_slice(Chip8::ENTRY_POINT as usize, bytes.as_slice());
        self.cpu.set_pc(Chip8::ENTRY_POINT);
        self.rom = Some(bytes.clone());
        Ok(())
    }

    /// Executes one instruction, drawing a random byte for RAND; on a fault
    /// nothing changes.
    pub fn execute_instruction(&mut self, inst: &Instruction) -> (r: Result<(), InterpreterFault>)
        ensures
            exists|random: u8| step(old(self)@, *inst, random) == outcome(r, final(self)@),
            (r is Err) ==> final(self)@ == old(self)@,
    {
        let random = match inst {
            Instruction::Random(_, _) => random_byte(),
            _ => 0,
        };
        self.execute_instruction_with(inst, random)
    }

    /// Executes one instruction, `random` being the byte RAND uses; on a
    /// fault nothing changes.
    pub fn execute_instruction_with(&mut self, inst: &Instruction, random: u8) -> (r: Result<
        (),
        InterpreterFault,
    >)
        ensures
            step(old(self)@, *inst, random) == outcome(r, final(self)@),
            (r is Err) ==> final(self)@ == old(self)@,
    {
        match *inst {
            Instruction::ClearScreen => self.screen.clear(),
            Instruction::Jump(addr) => {
                self.cpu.jump_to(&addr);
                return Ok(());
            },
            Instruction::RegOp(reg_op, regx, regy) => self.execute_reg_op(&reg_op, &regx, &regy),
            Instruction::SetRegImmediate(reg, value) => self.cpu.register_set(&reg, value.get()),
            Instruction::AddRegImmediate(reg, value) => self.cpu.add_reg(&reg, value.get()),
            Instruction::SetIndex(addr) => self.cpu.set_index(addr.get()),
            Instruction::AddIndex(reg) => {
                let reg_val = self.cpu.register_val(&reg) as u16;
                let past_end = self.cpu.get_index() as u32 + reg_val as u32 > 0xFFF;
                self.cpu.add_index(reg_val);
                if self.config.add_index_sets_flag {
                    *self.cpu.vf() = if past_end {
                        1
                    } else {
                        0
                    };
                }
            },
            Instruction::Draw(regx, regy, row_count) => {
                self.execute_draw(&regx, &regy, &row_count);
            },
            Instruction::LoadAddr(reg) => {
                if self.config.version == Chip8Version::COSMAC {
                    self.cpu.load_registers_cosmac(&reg);
                } else {
                    self.cpu.load_registers(&reg);
                }
            },
            Instruction::StoreAddr(reg) => {
                if self.config.version == Chip8Version::COSMAC {
                    self.cpu.store_registers_cosmac(&reg);
                } else {
                    self.cpu.store_registers(&reg);
                }
            },
            Instruction::SetFont(reg) => {
                let v = self.cpu.register_val(&reg);
                assert(v & 0x0F == v % 16) by (bit_vector);
                let font_addr = Chip8::FONT_START_ADDR + ((v & 0x0F) as u16 * Chip8::BYTES_PER_FONT);
                self.cpu.set_index(font_addr);
            },
            Instruction::JumpWithOffset(addr) => {
                let a = addr.get();
                let reg_index = if self.config.version == Chip8Version::COSMAC {
                    0
                } else {
                    // Newer interpreters read the address as XNN and add VX
                    assert((a >> 8u16) & 0xF == (a / 256) % 16) by (bit_vector);
                    ((a >> 8) & 0xF) as u8
                };
                let offset_reg = Register::new(reg_index).unwrap();
                self.cpu.set_pc(a + self.cpu.register_val(&offset_reg) as u16);
                return Ok(());
            },
            Instruction::CallSubroutine(addr) => {
                if self.cpu.stack_depth() >= CPU::STACK_CAPACITY {
                    return Err(InterpreterFault::StackOverflow);
                }
                let pc = self.cpu.get_pc();
                self.cpu.push_stack(pc);
                self.cpu.jump_to(&addr);
                return Ok(());
            },
            Instruction::Return => {
                match self.cpu.pop_stack() {
                    Some(return_addr) => self.cpu.set_pc(return_addr),
                    None => return Err(InterpreterFault::StackUnderflow),
                }
            },
            Instruction::Skip(skipif, reg, value) => {
                let eq = self.cpu.register_val(&reg) == value.get();
                if (skipif == SkipIf::Eq && eq) || (skipif == SkipIf::NotEq && !eq) {
                    self.cpu.increment_pc();
                }
            },
            Instruction::SkipReg(skipif, regx, regy) => {
                let eq = self.cpu.register_val(&regx) == self.cpu.register_val(&regy);
                if (skipif == SkipIf::Eq && eq) || (skipif == SkipIf::NotEq && !eq) {
                    self.cpu.increment_pc();
                }
            },
            Instruction::SkipKeyPress(skipif, reg) => {
                let v = self.cpu.register_val(&reg);
                assert(v & 0x0F == v % 16) by (bit_vector);
                let pressed = self.key_state.is_key_pressed(v & 0x0F);
                if (skipif == SkipIf::Eq && pressed) || (skipif == SkipIf::NotEq && !pressed) {
                    self.cpu.increment_pc();
                }
            },
            Instruction::GetKey(reg) => {
                // Arm the latch and stay on this instruction
                self.cpu.start_waiting_for_key(reg);
                return Ok(());
            },
            Instruction::Random(reg, value) => {
                self.cpu.register_set(&reg, random & value.get());
            },
            Instruction::SetSoundTimer(reg) => {
                let v = self.cpu.register_val(&reg);
                self.cpu.set_sound_timer(v);
            },
            Instruction::SetDelayTimer(reg) => {
                let v = self.cpu.register_val(&reg);
                self.cpu.set_delay_timer(v);
            },
            Instruction::GetDelayTimer(reg) => {
                let v = self.cpu.get_delay_timer();
                self.cpu.register_set(&reg, v);
            },
            Instruction::BinaryDecimalConv(reg) => self.cpu.binary_decimal_conv(&reg),
            Instruction::Invalid => return Err(InterpreterFault::InvalidInstruction),
            Instruction::ExecuteMachineLangRoutine => {},
        };
        self.cpu.increment_pc();
        Ok(())
    }

    /// The debug snapshot of the current state.
    pub fn get_debug_info(&self) -> (r: DebugInfo)
        ensures
            is_snapshot_of(r, self@),
    {
        let raw_inst = self.cpu.fetch_current_instruction();
        let decoded_inst = match Decoder::decode(&raw_inst) {
            Some(inst) => inst,
            None => Instruction::Invalid,
        };
        DebugInfo {
            current_pc: self.cpu.get_pc(),
            raw_instruction: raw_inst,
            decoded_instruction: decoded_inst,
            index_register: self.cpu.get_index(),
            delay_timer: self.cpu.get_delay_timer(),
            sound_timer: self.cpu.get_sound_timer(),
            registers: self.cpu.all_register_val(),
            key_state: self.key_state,
            playback_mode: self.playback_state,
        }
    }

    /// Stores the debug snapshot of the current state for the renderer.
    pub fn update_debug_info(&mut self)
        ensures
            final(self)@.debug_info matches Some(d) && is_snapshot_of(d, old(self)@),
            final(self)@ == (HardwareState { debug_info: final(self)@.debug_info, ..old(self)@ }),
    {
        let debug_info = self.get_debug_info();
        self.screen.set_debug_info(debug_info);
    }

    fn execute_reg_op(&mut self, reg_op: &RegOperation, regx: &Register, regy: &Register)
        ensures
            final(self)@ == old(self)@.with_cpu(
                reg_op_cpu(old(self)@, *reg_op, regx@ as int, regy@ as int),
            ),
    {
        let vx = self.cpu.register_val(regx);
        let vy = self.cpu.register_val(regy);
        match *reg_op {
            RegOperation::Assign => {
                self.cpu.register_set(regx, vy);
            },
            RegOperation::Or => {
                self.cpu.register_set(regx, vx | vy);
            },
            RegOperation::Xor => {
                self.cpu.register_set(regx, vx ^ vy);
            },
            RegOperation::And => {
                self.cpu.register_set(regx, vx & vy);
            },
            RegOperation::Add => {
                let overflow = vx as u16 + vy as u16 > 255;
                self.cpu.register_set(regx, vx.wrapping_add(vy));
                *self.cpu.vf() = if overflow {
                    1
                } else {
                    0
                };
            },
            RegOperation::Sub => {
                self.cpu.register_set(regx, vx.wrapping_sub(vy));
                *self.cpu.vf() = if vx > vy {
                    1
                } else {
                    0
                };
            },
            RegOperation::SubInv => {
                self.cpu.register_set(regx, vy.wrapping_sub(vx));
                *self.cpu.vf() = if vy > vx {
                    1
                } else {
                    0
                };
            },
            RegOperation::ShiftLeft => {
                let val = if self.config.version == Chip8Version::COSMAC {
                    vy
                } else {
                    vx
                };
                assert((val << 1u8) == (val * 2) % 256 && (val & 0x80) >> 7u8 == val / 128)
                    by (bit_vector);
                self.cpu.register_set(regx, val << 1);
                *self.cpu.vf() = (val & 0x80) >> 7;
            },
            RegOperation::ShiftRight => {
                let val = if self.config.version == Chip8Version::COSMAC {
                    vy
                } else {
                    vx
                };
                assert((val >> 1u8) == val / 2 && (val & 1) == val % 2) by (bit_vector);
                self.cpu.register_set(regx, val >> 1);
                *self.cpu.vf() = val & 1;
            },
        }
    }

    // Draws a sprite N rows tall from memory at I, starting at (Vx mod 64,
    // Vy mod 32); every set bit flips its pixel, and pixels past the right
    // or bottom edge are clipped. VF ends 1 when a lit pixel went off.
    fn execute_draw(&mut self, regx: &Register, regy: &Register, row_count: &Immediate4)
        ensures
            final(self)@ == draw_state(old(self)@, regx@ as int, regy@ as int, row_count@ as int),
    {
        let ghost s0 = self@;
        let start_x = self.cpu.register_val(regx) % Screen::N_COLS;
        let start_y = self.cpu.register_val(regy) % Screen::N_ROWS;
        let index_addr = self.cpu.get_index();
        let rows = row_count.get();
        let ghost sx = start_x as int;
        let ghost sy = start_y as int;
        let ghost c0 = s0.cpu;
        let mut collided = false;
        let mut row: u8 = 0;
        assert forall|p: int| !(#[trigger] hit_before(c0, sx, sy, rows as int, p, 0, 0)) by {}
        assert(self@.pixels =~= Seq::new(
            2048,
            |p: int| s0.pixels[p] != hit_before(c0, sx, sy, rows as int, p, 0, 0),
        ));
        while row < rows && start_y + row < Screen::N_ROWS
            invariant
                self@ == (HardwareState { pixels: self@.pixels, ..s0 }),
                c0 == s0.cpu,
                s0.cpu.index == index_addr,
                sx == start_x,
                sy == start_y,
                start_x < 64,
                start_y < 32,
                rows < 16,
                row <= rows,
                self@.pixels == Seq::new(
                    2048,
                    |p: int| s0.pixels[p] != hit_before(c0, sx, sy, rows as int, p, row as int, 0),
                ),
                collided == collides_before(c0, s0.pixels, sx, sy, rows as int, row as int, 0),
            decreases rows - row,
        {
            let row_addr = index_addr.wrapping_add(row as u16);
            let sprite_data = self.cpu.load_from_addr(row_addr);
            assert(row_addr == index_addr + row || row_addr == index_addr + row - 65536);
            assert(row_addr as int % 4096 == (index_addr + row) % 4096);
            let y = start_y + row;
            let mut bit_pos: u8 = 0;
            while bit_pos < 8 && start_x + bit_pos < Screen::N_COLS
                invariant
                    self@ == (HardwareState { pixels: self@.pixels, ..s0 }),
                    c0 == s0.cpu,
                    sx == start_x,
                    sy == start_y,
                    start_x < 64,
                    start_y < 32,
                    y == start_y + row,
                    y < 32,
                    rows < 16,
                    row < rows,
                    bit_pos <= 8,
                    sprite_data == c0.byte_at(c0.index + row),
                    self@.pixels == Seq::new(
                        2048,
                        |p: int|
                            s0.pixels[p] != hit_before(
                                c0,
                                sx,
                                sy,
                                rows as int,
                                p,
                                row as int,
                                bit_pos as int,
                            ),
                    ),
                    collided == collides_before(c0, s0.pixels, sx, sy, rows as int, row as int, bit_pos as int),
                decreases 8 - bit_pos,
            {
                let x = start_x + bit_pos;
                let ghost p0 = y * 64 + x;
                proof {
                    lemma_pixel_coords(x as int, y as int);
                }
                let sprite_bit = (sprite_data >> (7 - bit_pos)) & 1;
                let ghost old_pixels = self@.pixels;
                let ghost hit0 = sprite_hit(c0, sx, sy, rows as int, p0);
                assert(hit0 == (sprite_bit == 1));
                assert(!hit_before(c0, sx, sy, rows as int, p0, row as int, bit_pos as int));
                assert forall|p: int| 0 <= p < 2048 && p != p0 implies #[trigger] hit_before(
                    c0,
                    sx,
                    sy,
                    rows as int,
                    p,
                    row as int,
                    bit_pos + 1,
                ) == hit_before(c0, sx, sy, rows as int, p, row as int, bit_pos as int) by {
                    assert(p == (p / 64) * 64 + p % 64);
                }
                assert(hit_before(c0, sx, sy, rows as int, p0, row as int, bit_pos + 1) == hit0);
                if sprite_bit == 1 {
                    let pixel = self.screen.get_pixel(x, y).unwrap();
                    if pixel {
                        self.screen.set_pixel(x, y, false);
                        collided = true;
                    } else {
                        self.screen.set_pixel(x, y, true);
                    }
                }
                proof {
                    assert(self@.pixels =~= Seq::new(
                        2048,
                        |p: int|
                            s0.pixels[p] != hit_before(
                                c0,
                                sx,
                                sy,
                                rows as int,
                                p,
                                row as int,
                                bit_pos + 1,
                            ),
                    ));
                    if hit0 && s0.pixels[p0] {
                        assert(hit_before(c0, sx, sy, rows as int, p0, row as int, bit_pos + 1)
                            && s0.pixels[p0]);
                    }
                    if collides_before(c0, s0.pixels, sx, sy, rows as int, row as int, bit_pos + 1) {
                        let w = choose|w: int|
                            #[trigger] hit_before(c0, sx, sy, rows as int, w, row as int, bit_pos + 1)
                                && s0.pixels[w];
                        if w != p0 {
                            assert(hit_before(c0, sx, sy, rows as int, w, row as int, bit_pos as int));
                        }
                    }
                    if collided && !(hit0 && s0.pixels[p0]) {
                        let w = choose|w: int|
                            #[trigger] hit_before(c0, sx, sy, rows as int, w, row as int, bit_pos as int)
                                && s0.pixels[w];
                        assert(hit_before(c0, sx, sy, rows as int, w, row as int, bit_pos + 1));
                    }
                }
                bit_pos += 1;
            }
            proof {
                assert forall|p: int| #[trigger] hit_before(
                    c0,
                    sx,
                    sy,
                    rows as int,
                    p,
                    row as int,
                    bit_pos as int,
                ) == hit_before(c0, sx, sy, rows as int, p, row + 1, 0) by {}
                assert(self@.pixels =~= Seq::new(
                    2048,
                    |p: int| s0.pixels[p] != hit_before(c0, sx, sy, rows as int, p, row + 1, 0),
                ));
                if collided {
                    let w = choose|w: int|
                        #[trigger] hit_before(c0, sx, sy, rows as int, w, row as int, bit_pos as int)
                            && s0.pixels[w];
                    assert(hit_before(c0, sx, sy, rows as int, w, row + 1, 0));
                }
                if collides_before(c0, s0.pixels, sx, sy, rows as int, row + 1, 0) {
                    let w = choose|w: int|
                        #[trigger] hit_before(c0, sx, sy, rows as int, w, row + 1, 0) && s0.pixels[w];
                    assert(hit_before(c0, sx, sy, rows as int, w, row as int, bit_pos as int));
                }
            }
            row += 1;
        }
        proof {
            assert forall|p: int| #[trigger] hit_before(c0, sx, sy, rows as int, p, row as int, 0)
                == sprite_hit(c0, sx, sy, rows as int, p) by {}
            assert(self@.pixels =~= drawn_pixels(s0, sx, sy, rows as int));
            if collided {
                let w = choose|w: int|
                    #[trigger] hit_before(c0, sx, sy, rows as int, w, row as int, 0) && s0.pixels[w];
                assert(sprite_hit(c0, sx, sy, rows as int, w));
            }
            if draw_collides(s0, sx, sy, rows as int) {
                let w = choose|w: int| #[trigger] sprite_hit(c0, sx, sy, rows as int, w) && s0.pixels[w];
                assert(hit_before(c0, sx, sy, rows as int, w, row as int, 0));
            }
        }
        *self.cpu.vf() = if collided {
            1
        } else {
            0
        };
    }

    /// Clears the CPU and the framebuffer, and loads the last program again.
    pub fn restart_rom(&mut self)
        ensures
            ({
                let base = HardwareState {
                    cpu: CpuState::initial(),
                    pixels: Seq::new(2048, |p: int| false),
                    ..old(self)@
                };
                final(self)@ == match old(self)@.rom {
                    Some(b) => if b.len() <= 3584 {
                        loaded_state(base, b)
                    } else {
                        base
                    },
                    None => base,
                }
            }),
    {
        self.cpu.reset();
        self.screen.clear();
        match &self.rom {
            Some(b) => {
                let bytes = b.clone();
                let _ = self.load_rom(&bytes);
            },
            None => {},
        }
    }
}

/// Whether `inst` is a skip whose condition holds in `s`.
pub open spec fn skip_taken(s: HardwareState, inst: Instruction) -> bool {
    let c = s.cpu;
    match inst {
        Instruction::Skip(cond, x, v) => skip_holds(cond, c.registers[x@ as int] == v@),
        Instruction::SkipReg(cond, x, y) => skip_holds(
            cond,
            c.registers[x@ as int] == c.registers[y@ as int],
        ),
        Instruction::SkipKeyPress(cond, x) => skip_holds(
            cond,
            s.keys[c.registers[x@ as int] as int % 16],
        ),
        _ => false,
    }
}

/// Whether `inst` writes a flag into VF as a side effect.
pub open spec fn sets_flag(s: HardwareState, inst: Instruction) -> bool {
    match inst {
        Instruction::RegOp(op, _, _) => !(op is Assign || op is Or || op is And || op is Xor),
        Instruction::Draw(_, _, _) => true,
        Instruction::AddIndex(_) => s.config.add_index_sets_flag,
        _ => false,
    }
}

/// Whether `inst` stores a result in register `r`.
pub open spec fn writes_register(inst: Instruction, r: int) -> bool {
    match inst {
        Instruction::RegOp(_, x, _) => x@ == r,
        Instruction::SetRegImmediate(x, _) => x@ == r,
        Instruction::AddRegImmediate(x, _) => x@ == r,
        Instruction::Random(x, _) => x@ == r,
        Instruction::GetDelayTimer(x) => x@ == r,
        Instruction::LoadAddr(x) => r <= x@,
        _ => false,
    }
}

/// Every instruction but the jumps, CALL, RETURN, GET_KEY and `Invalid`
/// moves the program counter on by exactly two (wrapping at sixteen bits),
/// unless it is a skip whose condition holds.
pub proof fn lemma_pc_advances_by_two(s: HardwareState, inst: Instruction, random: u8)
    requires
        !(inst is Jump || inst is JumpWithOffset || inst is CallSubroutine || inst is Return
            || inst is GetKey || inst is Invalid),
        !skip_taken(s, inst),
    ensures
        step(s, inst, random) matches Ok(t) && t.cpu.pc == wrap16(s.cpu.pc + 2),
{
}

/// A skip whose condition holds moves the program counter on by four.
pub proof fn lemma_skip_advances_by_four(s: HardwareState, inst: Instruction, random: u8)
    requires
        skip_taken(s, inst),
    ensures
        step(s, inst, random) matches Ok(t) && t.cpu.pc == wrap16(s.cpu.pc + 4),
{
}

/// An instruction that writes no flag and does not store into VF leaves VF
/// as it was.
pub proof fn lemma_flag_unchanged(s: HardwareState, inst: Instruction, random: u8)
    requires
        s.cpu.registers.len() == 16,
        inst.wf(),
        !sets_flag(s, inst),
        !writes_register(inst, 15),
    ensures
        step(s, inst, random) matches Ok(t) ==> t.cpu.registers[15] == s.cpu.registers[15],
{
}

/// ADD Vx, Vy leaves (x + y) mod 256 in Vx and the carry in VF (for Vx
/// other than VF itself, where the flag wins).
pub proof fn lemma_add_with_carry(s: HardwareState, x: Register, y: Register, random: u8)
    requires
        s.cpu.registers.len() == 16,
        x@ < 15,
        y@ < 16,
    ensures
        ({
            let (vx, vy) = (s.cpu.registers[x@ as int], s.cpu.registers[y@ as int]);
            step(s, Instruction::RegOp(RegOperation::Add, x, y), random) matches Ok(t)
                && t.cpu.registers[x@ as int] == (vx + vy) % 256 && t.cpu.registers[15] == if vx
                + vy >= 256 {
                1int
            } else {
                0
            }
        }),
{
}

/// SUB Vx, Vy leaves (x - y) mod 256 in Vx and VF = 1 exactly when x > y
/// (for Vx other than VF itself, where the flag wins).
pub proof fn lemma_sub_without_borrow(s: HardwareState, x: Register, y: Register, random: u8)
    requires
        s.cpu.registers.len() == 16,
        x@ < 15,
        y@ < 16,
    ensures
        ({
            let (vx, vy) = (s.cpu.registers[x@ as int], s.cpu.registers[y@ as int]);
            step(s, Instruction::RegOp(RegOperation::Sub, x, y), random) matches Ok(t)
                && t.cpu.registers[x@ as int] == (vx - vy) % 256 && t.cpu.registers[15] == if vx
                > vy {
                1int
            } else {
                0
            }
        }),
{
    let (vx, vy) = (s.cpu.registers[x@ as int], s.cpu.registers[y@ as int]);
    assert((vx - vy + 256) % 256 == (vx - vy) % 256) by (nonlinear_arith)
        requires
            0 <= vx < 256,
            0 <= vy < 256,
    ;
}

/// SUBN Vx, Vy leaves (y - x) mod 256 in Vx and VF = 1 exactly when y > x
/// (for Vx other than VF itself, where the flag wins).
pub proof fn lemma_subn_without_borrow(s: HardwareState, x: Register, y: Register, random: u8)
    requires
        s.cpu.registers.len() == 16,
        x@ < 15,
        y@ < 16,
    ensures
        ({
            let (vx, vy) = (s.cpu.registers[x@ as int], s.cpu.registers[y@ as int]);
            step(s, Instruction::RegOp(RegOperation::SubInv, x, y), random) matches Ok(t)
                && t.cpu.registers[x@ as int] == (vy - vx) % 256 && t.cpu.registers[15] == if vy
                > vx {
                1int
            } else {
                0
            }
        }),
{
    let (vx, vy) = (s.cpu.registers[x@ as int], s.cpu.registers[y@ as int]);
    assert((vy - vx + 256) % 256 == (vy - vx) % 256) by (nonlinear_arith)
        requires
            0 <= vx < 256,
            0 <= vy < 256,
    ;
}

/// Drawing the same sprite at the same place twice gives the framebuffer
/// back, and the second draw sets VF exactly when some pixel of the sprite
/// was lit before it, that is, was dark before the first (for coordinate
/// registers other than VF, which the first draw overwrites).
pub proof fn lemma_draw_twice_restores(
    s: HardwareState,
    x: Register,
    y: Register,
    n: Immediate4,
    random: u8,
)
    requires
        s.cpu.registers.len() == 16,
        s.pixels.len() == 2048,
        x@ < 15,
        y@ < 15,
    ensures
        ({
            let inst = Instruction::Draw(x, y, n);
            let sx = s.cpu.registers[x@ as int] % 64;
            let sy = s.cpu.registers[y@ as int] % 32;
            &&& step(s, inst, random) matches Ok(t1)
            &&& step(t1, inst, random) matches Ok(t2)
            &&& t2.pixels == s.pixels
            &&& (t2.cpu.registers[15] == 1) == (exists|p: int|
                #[trigger] sprite_hit(s.cpu, sx as int, sy as int, n@ as int, p) && t1.pixels[p])
            &&& (t2.cpu.registers[15] == 1) == (exists|p: int|
                #[trigger] sprite_hit(s.cpu, sx as int, sy as int, n@ as int, p) && !s.pixels[p])
        }),
{
    let inst = Instruction::Draw(x, y, n);
    let sx = s.cpu.registers[x@ as int] % 64;
    let sy = s.cpu.registers[y@ as int] % 32;
    let rows = n@ as int;
    let t1 = step(s, inst, random)->Ok_0;
    let t2 = step(t1, inst, random)->Ok_0;
    assert(t1.cpu.registers[x@ as int] == s.cpu.registers[x@ as int]);
    assert(t1.cpu.registers[y@ as int] == s.cpu.registers[y@ as int]);
    assert forall|p: int|
        sprite_hit(t1.cpu, sx as int, sy as int, rows, p) == #[trigger] sprite_hit(
            s.cpu,
            sx as int,
            sy as int,
            rows,
            p,
        ) by {}
    assert(t2.pixels =~= s.pixels);
    if draw_collides(t1, sx as int, sy as int, rows) {
        let w = choose|w: int| #[trigger] sprite_hit(t1.cpu, sx as int, sy as int, rows, w) && t1.pixels[w];
        assert(sprite_hit(s.cpu, sx as int, sy as int, rows, w) && !s.pixels[w]);
    }
    if exists|p: int| #[trigger] sprite_hit(s.cpu, sx as int, sy as int, rows, p) && !s.pixels[p] {
        let w = choose|w: int| #[trigger] sprite_hit(s.cpu, sx as int, sy as int, rows, w) && !s.pixels[w];
        assert(sprite_hit(t1.cpu, sx as int, sy as int, rows, w) && t1.pixels[w]);
    }
}

/// BCD Vx writes the hundreds, tens and ones digits of Vx at I, I+1, I+2
/// (addresses masked to twelve bits), and they recompose to Vx.
pub proof fn lemma_bcd_recomposes(s: HardwareState, x: Register, random: u8)
    requires
        s.cpu.memory.len() == 4096,
        s.cpu.registers.len() == 16,
        x@ < 16,
    ensures
        ({
            let v = s.cpu.registers[x@ as int];
            step(s, Instruction::BinaryDecimalConv(x), random) matches Ok(t) && {
                let (d0, d1, d2) = (
                    t.cpu.byte_at(s.cpu.index as int),
                    t.cpu.byte_at(s.cpu.index + 1),
                    t.cpu.byte_at(s.cpu.index + 2),
                );
                &&& d0 < 10 && d1 < 10 && d2 < 10
                &&& d0 * 100 + d1 * 10 + d2 == v
            }
        }),
{
}

} // verus!
