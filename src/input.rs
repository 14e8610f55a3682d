// Keypad state, keyboard layouts, and the translation of physical key events
// into CHIP-8 key events and commands.
use vstd::prelude::*;

use crate::chip8::Chip8;

verus! {

/// The pressed flags of the sixteen keys 0x0..0xF.
#[derive(Clone, Copy, Debug)]
pub struct Chip8KeyState {
    keys_pressed: [bool; 16],
}

impl View for Chip8KeyState {
    type V = Seq<bool>;

    closed spec fn view(&self) -> Seq<bool> {
        self.keys_pressed@
    }
}

/// A keypad always has sixteen keys.
pub broadcast proof fn lemma_key_state_len(ks: Chip8KeyState)
    ensures
        (#[trigger] ks@).len() == 16,
{
}

impl Default for Chip8KeyState {
    /// No key pressed.
    fn default() -> (r: Self)
        ensures
            r@ == Seq::new(16, |i: int| false),
    {
        let r = Chip8KeyState { keys_pressed: [false; 16] };
        assert(r@ =~= Seq::new(16, |i: int| false));
        r
    }
}

impl Chip8KeyState {
    const TOTAL_KEYS: usize = 16;

    /// Marks `key` pressed; a value that names no key changes nothing.
    pub fn press(&mut self, key: u8)
        ensures
            final(self)@ == if key < 16 {
                old(self)@.update(key as int, true)
            } else {
                old(self)@
            },
    {
        if (key as usize) < Self::TOTAL_KEYS {
            self.keys_pressed[key as usize] = true;
        }
    }

    /// Marks `key` released; a value that names no key changes nothing.
    pub fn release(&mut self, key: u8)
        ensures
            final(self)@ == if key < 16 {
                old(self)@.update(key as int, false)
            } else {
                old(self)@
            },
    {
        if (key as usize) < Self::TOTAL_KEYS {
            self.keys_pressed[key as usize] = false;
        }
    }

    /// Whether `key` is pressed; a value that names no key is not.
    pub fn is_key_pressed(&self, key: u8) -> (r: bool)
        ensures
            r == (key < 16 && self@[key as int]),
    {
        (key as usize) < Self::TOTAL_KEYS && self.keys_pressed[key as usize]
    }
}

/// Keyboard layout options for CHIP-8 input mapping
#[derive(Clone, Copy, Debug, PartialEq, Eq, Structural)]
pub enum KeyboardLayout {
    /// 1 2 3 4 / Q W E R / A S D F / Z X C V  =>  1 2 3 C / 4 5 6 D / 7 8 9 E / A 0 B F
    Qwerty,
    /// 1 2 3 4 / Q W E R / A S D F / Z X C V  =>  1 2 3 4 / 5 6 7 8 / 9 A B C / D E F 0
    Natural,
    /// 1 2 3 4 5 6 7 8 9 0 Q W E R T Y  =>  1 2 3 4 5 6 7 8 9 0 A B C D E F
    Sequential,
}

/// The physical keys of a layout and the hex key each one stands for.
pub open spec fn key_table(layout: KeyboardLayout) -> Seq<(char, u8)> {
    match layout {
        KeyboardLayout::Qwerty => seq![
            ('1', 0x1u8), ('2', 0x2u8), ('3', 0x3u8), ('4', 0xCu8),
            ('q', 0x4u8), ('w', 0x5u8), ('e', 0x6u8), ('r', 0xDu8),
            ('a', 0x7u8), ('s', 0x8u8), ('d', 0x9u8), ('f', 0xEu8),
            ('z', 0xAu8), ('x', 0x0u8), ('c', 0xBu8), ('v', 0xFu8),
        ],
        KeyboardLayout::Natural => seq![
            ('1', 0x1u8), ('2', 0x2u8), ('3', 0x3u8), ('4', 0x4u8),
            ('q', 0x5u8), ('w', 0x6u8), ('e', 0x7u8), ('r', 0x8u8),
            ('a', 0x9u8), ('s', 0xAu8), ('d', 0xBu8), ('f', 0xCu8),
            ('z', 0xDu8), ('x', 0xEu8), ('c', 0xFu8), ('v', 0x0u8),
        ],
        KeyboardLayout::Sequential => seq![
            ('1', 0x1u8), ('2', 0x2u8), ('3', 0x3u8), ('4', 0x4u8),
            ('5', 0x5u8), ('6', 0x6u8), ('7', 0x7u8), ('8', 0x8u8),
            ('9', 0x9u8), ('0', 0x0u8), ('q', 0xAu8), ('w', 0xBu8),
            ('e', 0xCu8), ('r', 0xDu8), ('t', 0xEu8), ('y', 0xFu8),
        ],
    }
}

/// The hex key that the first entry for `c` in `table` gives, if any.
pub open spec fn find_key(table: Seq<(char, u8)>, c: char) -> Option<u8>
    decreases table.len(),
{
    if table.len() == 0 {
        None
    } else if table[0].0 == c {
        Some(table[0].1)
    } else {
        find_key(table.skip(1), c)
    }
}

impl KeyboardLayout {
    /// The mapping from physical keys to hex keys of `layout`.
    pub fn get_key_map(layout: &Self) -> (r: Vec<(char, u8)>)
        ensures
            r@ == key_table(*layout),
    {
        match layout {
            KeyboardLayout::Qwerty => vec![
                ('1', 0x1), ('2', 0x2), ('3', 0x3), ('4', 0xC),
                ('q', 0x4), ('w', 0x5), ('e', 0x6), ('r', 0xD),
                ('a', 0x7), ('s', 0x8), ('d', 0x9), ('f', 0xE),
                ('z', 0xA), ('x', 0x0), ('c', 0xB), ('v', 0xF),
            ],
            KeyboardLayout::Natural => vec![
                ('1', 0x1), ('2', 0x2), ('3', 0x3), ('4', 0x4),
                ('q', 0x5), ('w', 0x6), ('e', 0x7), ('r', 0x8),
                ('a', 0x9), ('s', 0xA), ('d', 0xB), ('f', 0xC),
                ('z', 0xD), ('x', 0xE), ('c', 0xF), ('v', 0x0),
            ],
            KeyboardLayout::Sequential => vec![
                ('1', 0x1), ('2', 0x2), ('3', 0x3), ('4', 0x4),
                ('5', 0x5), ('6', 0x6), ('7', 0x7), ('8', 0x8),
                ('9', 0x9), ('0', 0x0), ('q', 0xA), ('w', 0xB),
                ('e', 0xC), ('r', 0xD), ('t', 0xE), ('y', 0xF),
            ],
        }
    }
}

/// Configuration for the keyboard input handler
#[derive(Clone, Copy, Debug)]
pub struct InputConfig {
    pub layout: KeyboardLayout,
    /// How long one poll for a terminal event waits, in milliseconds.
    pub poll_rate_ms: u64,
}

impl Default for InputConfig {
    fn default() -> (r: Self)
        ensures
            r.layout == KeyboardLayout::Qwerty,
            r.poll_rate_ms == 10,
    {
        Self { layout: KeyboardLayout::Qwerty, poll_rate_ms: Chip8::INPUT_POLL_RATE_MS }
    }
}

#[derive(Clone, Copy, Debug, PartialEq, Eq, Structural)]
pub enum Chip8KeyEventKind {
    Press,
    Release,
}

#[derive(Clone, Copy, Debug, PartialEq, Eq, Structural)]
pub enum Chip8Command {
    Quit,
    DebugStep,
    DebugPlayPause,
}

#[derive(Clone, Copy, Debug, PartialEq, Eq, Structural)]
pub struct Chip8KeyEvent {
    pub key: u8,
    pub kind: Chip8KeyEventKind,
}

#[derive(Clone, Copy, Debug, PartialEq, Eq, Structural)]
pub enum Chip8InputEvent {
    CommandEvent { command: Chip8Command, kind: Chip8KeyEventKind },
    Chip8KeyEvent(Chip8KeyEvent),
}

/// A key of the physical keyboard, as far as the emulator tells keys apart.
#[derive(Clone, Copy, Debug, PartialEq, Eq, Structural)]
pub enum PhysicalKey {
    Char(char),
    Esc,
    Enter,
    Other,
}

/// What happened to a physical key.
#[derive(Clone, Copy, Debug, PartialEq, Eq, Structural)]
pub enum PhysicalKeyKind {
    Press,
    Repeat,
    Release,
}

#[derive(Clone, Copy, Debug, PartialEq, Eq, Structural)]
pub struct PhysicalKeyEvent {
    pub code: PhysicalKey,
    pub kind: PhysicalKeyKind,
}

/// The logical event a physical key event gives under `layout`: a key of
/// the layout gives a keypad event; Esc, Space and Enter give the commands
/// Quit, play/pause and step; anything else, and any repeat, gives nothing.
pub open spec fn translate_key(layout: KeyboardLayout, ev: PhysicalKeyEvent) -> Option<
    Chip8InputEvent,
> {
    if ev.kind is Repeat {
        None
    } else {
        let kind = if ev.kind is Press {
            Chip8KeyEventKind::Press
        } else {
            Chip8KeyEventKind::Release
        };
        let mapped = match ev.code {
            PhysicalKey::Char(c) => find_key(key_table(layout), c),
            _ => None,
        };
        match mapped {
            Some(key) => Some(Chip8InputEvent::Chip8KeyEvent(Chip8KeyEvent { key, kind })),
            None => match ev.code {
                PhysicalKey::Esc => Some(
                    Chip8InputEvent::CommandEvent { command: Chip8Command::Quit, kind },
                ),
                PhysicalKey::Char(c) => if c == ' ' {
                    Some(
                        Chip8InputEvent::CommandEvent { command: Chip8Command::DebugPlayPause, kind },
                    )
                } else {
                    None
                },
                PhysicalKey::Enter => Some(
                    Chip8InputEvent::CommandEvent { command: Chip8Command::DebugStep, kind },
                ),
                PhysicalKey::Other => None,
            },
        }
    }
}

pub struct KeyEventHandler {
    config: InputConfig,
    key_mapping: Vec<(char, u8)>,
}

impl KeyEventHandler {
    #[verifier::type_invariant]
    spec fn inv(self) -> bool {
        self.key_mapping@ == key_table(self.config.layout)
    }

    pub closed spec fn layout(&self) -> KeyboardLayout {
        self.config.layout
    }

    pub closed spec fn poll_rate_ms(&self) -> u64 {
        self.config.poll_rate_ms
    }

    pub fn new(config: InputConfig) -> (r: Self)
        ensures
            r.layout() == config.layout,
            r.poll_rate_ms() == config.poll_rate_ms,
    {
        Self { config, key_mapping: KeyboardLayout::get_key_map(&config.layout) }
    }

    /// The configuration the handler was made with.
    pub fn config(&self) -> (r: InputConfig)
        ensures
            r.layout == self.layout(),
            r.poll_rate_ms == self.poll_rate_ms(),
    {
        self.config
    }

    /// The hex key that physical key `c` stands for in this handler's layout.
    fn lookup(&self, c: char) -> (r: Option<u8>)
        ensures
            r == find_key(key_table(self.layout()), c),
    {
        proof {
            use_type_invariant(self);
        }
        let ghost table = self.key_mapping@;
        let mut i: usize = 0;
        assert(table.subrange(0, table.len() as int) =~= table);
        while i < self.key_mapping.len()
            invariant
                table == self.key_mapping@,
                table == key_table(self.layout()),
                i <= table.len(),
                find_key(table, c) == find_key(table.subrange(i as int, table.len() as int), c),
            decreases table.len() - i,
        {
            let entry = self.key_mapping[i];
            let ghost rest = table.subrange(i as int, table.len() as int);
            assert(rest[0] == entry);
            assert(rest.skip(1) =~= table.subrange(i + 1, table.len() as int));
            if entry.0 == c {
                return Some(entry.1);
            }
            i = i + 1;
        }
        assert(table.subrange(i as int, table.len() as int).len() == 0);
        None
    }

    /// The logical event that a physical key event gives.
    pub fn handle_key_event(&self, key_event: &PhysicalKeyEvent) -> (r: Option<Chip8InputEvent>)
        ensures
            r == translate_key(self.layout(), *key_event),
    {
        let pressed = match key_event.kind {
            PhysicalKeyKind::Press => Chip8KeyEventKind::Press,
            PhysicalKeyKind::Release => Chip8KeyEventKind::Release,
            PhysicalKeyKind::Repeat => return None,
        };
        // Map physical key to CHIP-8 key
        let mapped = match key_event.code {
            PhysicalKey::Char(c) => self.lookup(c),
            _ => None,
        };
        if let Some(chip8_key) = mapped {
            Some(Chip8InputEvent::Chip8KeyEvent(Chip8KeyEvent { key: chip8_key, kind: pressed }))
        } else {
            // Physical key for debug/quit commands
            let command = match key_event.code {
                PhysicalKey::Esc => Chip8Command::Quit,
                PhysicalKey::Char(' ') => Chip8Command::DebugPlayPause,
                PhysicalKey::Enter => Chip8Command::DebugStep,
                _ => return None,
            };
            Some(Chip8InputEvent::CommandEvent { command, kind: pressed })
        }
    }
}

} // verus!
