// Text for people: hex and decimal numbers, instruction mnemonics, the lines
// of the debug overlay and of the disassembly listing.
use vstd::prelude::*;

use crate::chip8::{Chip8, Chip8Version};
use crate::decoder::{decode_spec, Decoder};
use crate::input::{lemma_key_state_len, Chip8KeyState, KeyboardLayout};
use crate::primitive::{
    group_primitive_lemmas, Address, Immediate4, Immediate8, Instruction, RawInstruction,
    RegOperation, Register, SkipIf,
};
use crate::scheduler::PlaybackMode;
use crate::screen::{DebugInfo, Screen};

verus! {

broadcast use group_primitive_lemmas, lemma_key_state_len;

/// The upper-case hex digit of `d` (0..15).
pub open spec fn hex_char(d: int) -> char {
    if d == 0 {
        '0'
    } else if d == 1 {
        '1'
    } else if d == 2 {
        '2'
    } else if d == 3 {
        '3'
    } else if d == 4 {
        '4'
    } else if d == 5 {
        '5'
    } else if d == 6 {
        '6'
    } else if d == 7 {
        '7'
    } else if d == 8 {
        '8'
    } else if d == 9 {
        '9'
    } else if d == 10 {
        'A'
    } else if d == 11 {
        'B'
    } else if d == 12 {
        'C'
    } else if d == 13 {
        'D'
    } else if d == 14 {
        'E'
    } else {
        'F'
    }
}

/// `v` in upper-case hex, padded with zeros to at least `width` digits.
pub open spec fn hex_text(v: nat, width: nat) -> Seq<char>
    decreases v + width,
{
    if v < 16 && width <= 1 {
        seq![hex_char(v as int)]
    } else {
        hex_text(
            v / 16,
            if width > 0 {
                (width - 1) as nat
            } else {
                0
            },
        ) + seq![hex_char(v as int % 16)]
    }
}

/// `v` in decimal.
pub open spec fn dec_text(v: nat) -> Seq<char>
    decreases v,
{
    if v < 10 {
        seq![hex_char(v as int)]
    } else {
        dec_text(v / 10) + seq![hex_char(v as int % 10)]
    }
}

/// The one-character string of hex digit `d`.
fn hex_digit(d: u64) -> (r: &'static str)
    requires
        d < 16,
    ensures
        r@ == seq![hex_char(d as int)],
{
    proof {
        reveal_strlit("0");
        reveal_strlit("1");
        reveal_strlit("2");
        reveal_strlit("3");
        reveal_strlit("4");
        reveal_strlit("5");
        reveal_strlit("6");
        reveal_strlit("7");
        reveal_strlit("8");
        reveal_strlit("9");
        reveal_strlit("A");
        reveal_strlit("B");
        reveal_strlit("C");
        reveal_strlit("D");
        reveal_strlit("E");
        reveal_strlit("F");
    }
    if d == 0 {
        "0"
    } else if d == 1 {
        "1"
    } else if d == 2 {
        "2"
    } else if d == 3 {
        "3"
    } else if d == 4 {
        "4"
    } else if d == 5 {
        "5"
    } else if d == 6 {
        "6"
    } else if d == 7 {
        "7"
    } else if d == 8 {
        "8"
    } else if d == 9 {
        "9"
    } else if d == 10 {
        "A"
    } else if d == 11 {
        "B"
    } else if d == 12 {
        "C"
    } else if d == 13 {
        "D"
    } else if d == 14 {
        "E"
    } else {
        "F"
    }
}

/// Appends `v` in upper-case hex, padded with zeros to `width` digits.
pub fn push_hex(s: &mut String, v: u64, width: u64)
    ensures
        final(s)@ == old(s)@ + hex_text(v as nat, width as nat),
    decreases v + width,
{
    if v < 16 && width <= 1 {
        s.append(hex_digit(v));
    } else {
        push_hex(
            s,
            v / 16,
            if width > 0 {
                width - 1
            } else {
                0
            },
        );
        s.append(hex_digit(v % 16));
        assert(s@ =~= old(s)@ + hex_text(v as nat, width as nat));
    }
}

/// Appends `v` in decimal.
pub fn push_dec(s: &mut String, v: u64)
    ensures
        final(s)@ == old(s)@ + dec_text(v as nat),
    decreases v,
{
    if v < 10 {
        s.append(hex_digit(v));
    } else {
        push_dec(s, v / 10);
        s.append(hex_digit(v % 10));
        assert(s@ =~= old(s)@ + dec_text(v as nat));
    }
}

/// `V` and the register's hex index.
pub open spec fn register_text(r: Register) -> Seq<char> {
    "V"@ + hex_text(r@ as nat, 1)
}

/// `Ax` and six hex digits.
pub open spec fn address_text(a: Address) -> Seq<char> {
    "Ax"@ + hex_text(a@ as nat, 6)
}

/// `0x` and two hex digits.
pub open spec fn immediate8_text(i: Immediate8) -> Seq<char> {
    "0x"@ + hex_text(i@ as nat, 2)
}

/// `0x` and one hex digit.
pub open spec fn immediate4_text(i: Immediate4) -> Seq<char> {
    "0x"@ + hex_text(i@ as nat, 1)
}

/// `0x` and four hex digits.
pub open spec fn raw_text(r: RawInstruction) -> Seq<char> {
    "0x"@ + hex_text(r@ as nat, 4)
}

pub open spec fn reg_op_text(op: RegOperation) -> Seq<char> {
    match op {
        RegOperation::Assign => "="@,
        RegOperation::Or => "|"@,
        RegOperation::And => "&"@,
        RegOperation::Xor => "^"@,
        RegOperation::Add => "+"@,
        RegOperation::Sub => "-"@,
        RegOperation::SubInv => "-"@,
        RegOperation::ShiftLeft => "<<"@,
        RegOperation::ShiftRight => ">>"@,
    }
}

pub open spec fn skip_if_text(c: SkipIf) -> Seq<char> {
    match c {
        SkipIf::Eq => "=="@,
        SkipIf::NotEq => "!="@,
    }
}

/// The mnemonic of an instruction.
pub open spec fn instruction_text(i: Instruction) -> Seq<char> {
    match i {
        Instruction::ClearScreen => "ClearScreen"@,
        Instruction::Draw(x, y, n) => "Draw "@ + register_text(x) + " "@ + register_text(y) + " "@
            + immediate4_text(n),
        Instruction::SetFont(x) => "SetFont "@ + register_text(x),
        Instruction::Jump(a) => "Jump to "@ + address_text(a),
        Instruction::JumpWithOffset(a) => "Jump With Offset "@ + address_text(a),
        Instruction::CallSubroutine(a) => "Call "@ + address_text(a),
        Instruction::Return => "Return"@,
        Instruction::Skip(c, x, v) => "Skip if "@ + register_text(x) + " "@ + skip_if_text(c) + " "@
            + immediate8_text(v),
        Instruction::SkipReg(c, x, y) => "Skip if "@ + register_text(x) + " "@ + skip_if_text(c)
            + " "@ + register_text(y),
        Instruction::SkipKeyPress(c, x) => "Skip if key "@ + skip_if_text(c) + " "@ + register_text(
            x,
        ),
        Instruction::GetKey(x) => "Key into "@ + register_text(x),
        Instruction::RegOp(op, x, y) => match op {
            RegOperation::Assign => register_text(x) + " "@ + reg_op_text(op) + " "@ + register_text(
                y,
            ),
            RegOperation::SubInv => register_text(x) + " = "@ + register_text(y) + " "@
                + reg_op_text(op) + " "@ + register_text(x),
            RegOperation::ShiftLeft => "Shift Left on "@ + register_text(x) + " "@ + register_text(
                y,
            ),
            RegOperation::ShiftRight => "Shift Right on "@ + register_text(x) + " "@
                + register_text(y),
            _ => register_text(x) + " = "@ + register_text(x) + " "@ + reg_op_text(op) + " "@
                + register_text(y),
        },
        Instruction::SetRegImmediate(x, v) => register_text(x) + " = "@ + immediate8_text(v),
        Instruction::AddRegImmediate(x, v) => register_text(x) + " = "@ + register_text(x) + " + "@
            + immediate8_text(v),
        Instruction::Random(x, v) => register_text(x) + " = RANDOM & "@ + immediate8_text(v),
        Instruction::StoreAddr(x) => "Store V0-"@ + register_text(x),
        Instruction::LoadAddr(x) => "Load V0-"@ + register_text(x),
        Instruction::SetSoundTimer(x) => "Set Sound "@ + register_text(x),
        Instruction::SetDelayTimer(x) => "Set Delay "@ + register_text(x),
        Instruction::GetDelayTimer(x) => "Get Delay "@ + register_text(x),
        Instruction::SetIndex(a) => "Set Index "@ + address_text(a),
        Instruction::AddIndex(x) => "Add Index "@ + register_text(x),
        Instruction::BinaryDecimalConv(x) => "BinaryDecimalConv "@ + register_text(x),
        Instruction::ExecuteMachineLangRoutine => "ExecMachineLangRoutine"@,
        Instruction::Invalid => "INVALID"@,
    }
}

impl Register {
    pub fn text(&self) -> (r: String)
        ensures
            r@ == register_text(*self),
    {
        let mut s = String::from_str("V");
        push_hex(&mut s, self.get() as u64, 1);
        s
    }
}

impl Address {
    pub fn text(&self) -> (r: String)
        ensures
            r@ == address_text(*self),
    {
        let mut s = String::from_str("Ax");
        push_hex(&mut s, self.get() as u64, 6);
        s
    }
}

impl Immediate8 {
    pub fn text(&self) -> (r: String)
        ensures
            r@ == immediate8_text(*self),
    {
        let mut s = String::from_str("0x");
        push_hex(&mut s, self.get() as u64, 2);
        s
    }
}

impl Immediate4 {
    pub fn text(&self) -> (r: String)
        ensures
            r@ == immediate4_text(*self),
    {
        let mut s = String::from_str("0x");
        push_hex(&mut s, self.get() as u64, 1);
        s
    }
}

impl RawInstruction {
    pub fn text(&self) -> (r: String)
        ensures
            r@ == raw_text(*self),
    {
        let mut s = String::from_str("0x");
        push_hex(&mut s, self.value() as u64, 4);
        s
    }
}

impl RegOperation {
    pub fn text(&self) -> (r: &'static str)
        ensures
            r@ == reg_op_text(*self),
    {
        match self {
            RegOperation::Assign => "=",
            RegOperation::Or => "|",
            RegOperation::And => "&",
            RegOperation::Xor => "^",
            RegOperation::Add => "+",
            RegOperation::Sub => "-",
            RegOperation::SubInv => "-",
            RegOperation::ShiftLeft => "<<",
            RegOperation::ShiftRight => ">>",
        }
    }
}

impl SkipIf {
    pub fn text(&self) -> (r: &'static str)
        ensures
            r@ == skip_if_text(*self),
    {
        match self {
            SkipIf::Eq => "==",
            SkipIf::NotEq => "!=",
        }
    }
}

impl Instruction {
    /// The mnemonic of the instruction.
    pub fn text(&self) -> (r: String)
        ensures
            r@ == instruction_text(*self),
    {
        match *self {
            Instruction::ClearScreen => String::from_str("ClearScreen"),
            Instruction::Draw(x, y, n) => {
                let mut s = String::from_str("Draw ");
                s.append(x.text().as_str());
                s.append(" ");
                s.append(y.text().as_str());
                s.append(" ");
                s.append(n.text().as_str());
                s
            },
            Instruction::SetFont(x) => String::from_str("SetFont ").concat(x.text().as_str()),
            Instruction::Jump(a) => String::from_str("Jump to ").concat(a.text().as_str()),
            Instruction::JumpWithOffset(a) => String::from_str("Jump With Offset ").concat(
                a.text().as_str(),
            ),
            Instruction::CallSubroutine(a) => String::from_str("Call ").concat(a.text().as_str()),
            Instruction::Return => String::from_str("Return"),
            Instruction::Skip(c, x, v) => {
                let mut s = String::from_str("Skip if ");
                s.append(x.text().as_str());
                s.append(" ");
                s.append(c.text());
                s.append(" ");
                s.append(v.text().as_str());
                s
            },
            Instruction::SkipReg(c, x, y) => {
                let mut s = String::from_str("Skip if ");
                s.append(x.text().as_str());
                s.append(" ");
                s.append(c.text());
                s.append(" ");
                s.append(y.text().as_str());
                s
            },
            Instruction::SkipKeyPress(c, x) => {
                let mut s = String::from_str("Skip if key ");
                s.append(c.text());
                s.append(" ");
                s.append(x.text().as_str());
                s
            },
            Instruction::GetKey(x) => String::from_str("Key into ").concat(x.text().as_str()),
            Instruction::RegOp(op, x, y) => {
                match op {
                    RegOperation::Assign => {
                        let mut s = x.text();
                        s.append(" ");
                        s.append(op.text());
                        s.append(" ");
                        s.append(y.text().as_str());
                        s
                    },
                    RegOperation::SubInv => {
                        let mut s = x.text();
                        s.append(" = ");
                        s.append(y.text().as_str());
                        s.append(" ");
                        s.append(op.text());
                        s.append(" ");
                        s.append(x.text().as_str());
                        s
                    },
                    RegOperation::ShiftLeft => {
                        let mut s = String::from_str("Shift Left on ");
                        s.append(x.text().as_str());
                        s.append(" ");
                        s.append(y.text().as_str());
                        s
                    },
                    RegOperation::ShiftRight => {
                        let mut s = String::from_str("Shift Right on ");
                        s.append(x.text().as_str());
                        s.append(" ");
                        s.append(y.text().as_str());
                        s
                    },
                    _ => {
                        let mut s = x.text();
                        s.append(" = ");
                        s.append(x.text().as_str());
                        s.append(" ");
                        s.append(op.text());
                        s.append(" ");
                        s.append(y.text().as_str());
                        s
                    },
                }
            },
            Instruction::SetRegImmediate(x, v) => {
                let mut s = x.text();
                s.append(" = ");
                s.append(v.text().as_str());
                s
            },
            Instruction::AddRegImmediate(x, v) => {
                let mut s = x.text();
                s.append(" = ");
                s.append(x.text().as_str());
                s.append(" + ");
                s.append(v.text().as_str());
                s
            },
            Instruction::Random(x, v) => {
                let mut s = x.text();
                s.append(" = RANDOM & ");
                s.append(v.text().as_str());
                s
            },
            Instruction::StoreAddr(x) => String::from_str("Store V0-").concat(x.text().as_str()),
            Instruction::LoadAddr(x) => String::from_str("Load V0-").concat(x.text().as_str()),
            Instruction::SetSoundTimer(x) => String::from_str("Set Sound ").concat(
                x.text().as_str(),
            ),
            Instruction::SetDelayTimer(x) => String::from_str("Set Delay ").concat(
                x.text().as_str(),
            ),
            Instruction::GetDelayTimer(x) => String::from_str("Get Delay ").concat(
                x.text().as_str(),
            ),
            Instruction::SetIndex(a) => String::from_str("Set Index ").concat(a.text().as_str()),
            Instruction::AddIndex(x) => String::from_str("Add Index ").concat(x.text().as_str()),
            Instruction::BinaryDecimalConv(x) => String::from_str("BinaryDecimalConv ").concat(
                x.text().as_str(),
            ),
            Instruction::ExecuteMachineLangRoutine => String::from_str("ExecMachineLangRoutine"),
            Instruction::Invalid => String::from_str("INVALID"),
        }
    }
}

pub open spec fn version_text(v: Chip8Version) -> Seq<char> {
    match v {
        Chip8Version::COSMAC => "cosmac"@,
        Chip8Version::CHIP48 => "chip48"@,
        Chip8Version::SUPERCHIP => "superchip"@,
    }
}

pub open spec fn layout_text(l: KeyboardLayout) -> Seq<char> {
    match l {
        KeyboardLayout::Qwerty => "qwerty"@,
        KeyboardLayout::Natural => "natural"@,
        KeyboardLayout::Sequential => "sequential"@,
    }
}

pub open spec fn playback_text(m: PlaybackMode) -> Seq<char> {
    match m {
        PlaybackMode::Running => "Running"@,
        PlaybackMode::Paused => "Paused"@,
        PlaybackMode::Stepping => "Stepping"@,
    }
}

impl Chip8Version {
    /// The name of the version on the command line.
    pub fn text(&self) -> (r: &'static str)
        ensures
            r@ == version_text(*self),
    {
        match self {
            Chip8Version::COSMAC => "cosmac",
            Chip8Version::CHIP48 => "chip48",
            Chip8Version::SUPERCHIP => "superchip",
        }
    }
}

impl KeyboardLayout {
    /// The name of the layout on the command line.
    pub fn text(&self) -> (r: &'static str)
        ensures
            r@ == layout_text(*self),
    {
        match self {
            KeyboardLayout::Qwerty => "qwerty",
            KeyboardLayout::Sequential => "sequential",
            KeyboardLayout::Natural => "natural",
        }
    }
}

/// The hex digits of the pressed keys among the first `n`, in order,
/// separated by commas.
pub open spec fn pressed_list(keys: Seq<bool>, n: nat) -> Seq<char>
    decreases n,
{
    if n == 0 {
        Seq::empty()
    } else {
        let prev = pressed_list(keys, (n - 1) as nat);
        if keys[n - 1] {
            if prev.len() == 0 {
                seq![hex_char(n - 1)]
            } else {
                prev + ","@ + seq![hex_char(n - 1)]
            }
        } else {
            prev
        }
    }
}

/// The first `n` bytes of `bytes` as two-digit hex numbers separated by
/// commas.
pub open spec fn hex_list(bytes: Seq<u8>, n: nat) -> Seq<char>
    decreases n,
{
    if n == 0 {
        Seq::empty()
    } else if n == 1 {
        hex_text(bytes[0] as nat, 2)
    } else {
        hex_list(bytes, (n - 1) as nat) + ","@ + hex_text(bytes[n - 1] as nat, 2)
    }
}

/// The CPU line of the debug overlay.
pub open spec fn cpu_state_text(d: DebugInfo) -> Seq<char> {
    "I: 0x"@ + hex_text(d.index_register as nat, 3) + " | DT: "@ + dec_text(d.delay_timer as nat)
        + " | ST: "@ + dec_text(d.sound_timer as nat) + " | V0-F: ["@ + hex_list(d.registers@, 16)
        + "]"@
}

/// The instruction line of the debug overlay.
pub open spec fn instruction_line_text(d: DebugInfo) -> Seq<char> {
    "PC: 0x"@ + hex_text(d.current_pc as nat, 3) + " | Raw: "@ + raw_text(d.raw_instruction)
        + " | "@ + instruction_text(d.decoded_instruction)
}

/// The line of the disassembly listing for the opcode `op` at `addr`.
pub open spec fn dump_line(addr: nat, op: u16) -> Seq<char> {
    "Ax"@ + hex_text(addr, 6) + ": Code 0x"@ + hex_text(op as nat, 4) + ", "@ + instruction_text(
        match decode_spec(op) {
            Some(i) => i,
            None => Instruction::Invalid,
        },
    )
}

impl Chip8KeyState {
    /// The pressed keys as a bracketed list of hex digits, e.g. `[1,A]`.
    pub fn format_pressed_keys(&self) -> (r: String)
        ensures
            r@ == "["@ + pressed_list(self@, 16) + "]"@,
    {
        let mut s = String::from_str("[");
        let mut first = true;
        let mut k: u8 = 0;
        while k < 16
            invariant
                k <= 16,
                self@.len() == 16,
                s@ == "["@ + pressed_list(self@, k as nat),
                first == (pressed_list(self@, k as nat).len() == 0),
            decreases 16 - k,
        {
            let ghost before = s@;
            if self.is_key_pressed(k) {
                if !first {
                    s.append(",");
                }
                s.append(hex_digit(k as u64));
                first = false;
            }
            k = k + 1;
            assert(s@ =~= "["@ + pressed_list(self@, k as nat));
        }
        s.append("]");
        s
    }
}

impl Screen {
    /// The input line of the debug overlay.
    pub fn format_key_state(&self, debug: &DebugInfo) -> (r: String)
        ensures
            r@ == "["@ + pressed_list(debug.key_state@, 16) + "]"@,
    {
        debug.key_state.format_pressed_keys()
    }

    /// The CPU line of the debug overlay.
    pub fn format_cpu_state(&self, debug: &DebugInfo) -> (r: String)
        ensures
            r@ == cpu_state_text(*debug),
    {
        let mut s = String::from_str("I: 0x");
        push_hex(&mut s, debug.index_register as u64, 3);
        s.append(" | DT: ");
        push_dec(&mut s, debug.delay_timer as u64);
        s.append(" | ST: ");
        push_dec(&mut s, debug.sound_timer as u64);
        s.append(" | V0-F: [");
        let ghost prefix = s@;
        let mut i: usize = 0;
        while i < 16
            invariant
                i <= 16,
                debug.registers@.len() == 16,
                s@ == prefix + hex_list(debug.registers@, i as nat),
            decreases 16 - i,
        {
            if i > 0 {
                s.append(",");
            }
            push_hex(&mut s, debug.registers[i] as u64, 2);
            i = i + 1;
            assert(s@ =~= prefix + hex_list(debug.registers@, i as nat));
        }
        s.append("]");
        s
    }

    /// The instruction line of the debug overlay.
    pub fn format_instruction(&self, debug: &DebugInfo) -> (r: String)
        ensures
            r@ == instruction_line_text(*debug),
    {
        let mut s = String::from_str("PC: 0x");
        push_hex(&mut s, debug.current_pc as u64, 3);
        s.append(" | Raw: ");
        s.append(debug.raw_instruction.text().as_str());
        s.append(" | ");
        s.append(debug.decoded_instruction.text().as_str());
        s
    }

    /// The mode line of the debug overlay.
    pub fn format_playback_mode(&self, debug: &DebugInfo) -> (r: String)
        ensures
            r@ == playback_text(debug.playback_mode),
    {
        String::from_str(
            match debug.playback_mode {
                PlaybackMode::Running => "Running",
                PlaybackMode::Paused => "Paused",
                PlaybackMode::Stepping => "Stepping",
            },
        )
    }
}

impl Chip8 {
    /// The disassembly listing of a program: one line per whole two-byte
    /// chunk, with its address from the entry point on, the opcode and the
    /// mnemonic.
    pub fn dump_inst_lines(bytes: &Vec<u8>) -> (r: Vec<String>)
        requires
            bytes@.len() <= u32::MAX,
        ensures
            r@.len() == bytes@.len() / 2,
            forall|i: int|
                0 <= i < r@.len() ==> (#[trigger] r@[i])@ == dump_line(
                    (0x200 + 2 * i) as nat,
                    (bytes@[2 * i] as int * 256 + bytes@[2 * i + 1] as int) as u16,
                ),
    {
        let mut lines: Vec<String> = Vec::new();
        let count = bytes.len() / 2;
        let mut index: usize = 0;
        while index < count
            invariant
                count == bytes@.len() / 2,
                bytes@.len() <= u32::MAX,
                index <= count,
                lines@.len() == index,
                forall|i: int|
                    0 <= i < index ==> (#[trigger] lines@[i])@ == dump_line(
                        (0x200 + 2 * i) as nat,
                        (bytes@[2 * i] as int * 256 + bytes@[2 * i + 1] as int) as u16,
                    ),
            decreases count - index,
        {
            assert(2 * index + 1 < bytes@.len()) by (nonlinear_arith)
                requires
                    index < count,
                    count == bytes@.len() / 2,
            ;
            let raw = RawInstruction::new(bytes[2 * index], bytes[2 * index + 1]);
            let inst = match Decoder::decode(&raw) {
                Some(inst) => inst,
                None => Instruction::Invalid,
            };
            let mut line = String::from_str("Ax");
            push_hex(&mut line, Chip8::ENTRY_POINT as u64 + 2 * index as u64, 6);
            line.append(": Code 0x");
            push_hex(&mut line, raw.value() as u64, 4);
            line.append(", ");
            line.append(inst.text().as_str());
            lines.push(line);
            index = index + 1;
        }
        lines
    }
}

} // verus!
