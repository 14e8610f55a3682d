// Memory, registers, program counter, index register, stack, timers and the
// key-wait latch.
use vstd::prelude::*;

use crate::primitive::{group_primitive_lemmas, Address, RawInstruction, Register};

verus! {

broadcast use group_primitive_lemmas;

/// The value of `v` wrapped to sixteen bits.
pub open spec fn wrap16(v: int) -> u16 {
    (v % 65536) as u16
}

/// The mathematical state of a CPU.
pub struct CpuState {
    pub memory: Seq<u8>,
    pub pc: u16,
    pub index: u16,
    pub registers: Seq<u8>,
    pub stack: Seq<u16>,
    pub delay: u8,
    pub sound: u8,
    pub waiting: Option<Register>,
}

impl CpuState {
    /// The state right after construction: everything zero, nothing on the
    /// stack, not waiting for a key.
    pub open spec fn initial() -> CpuState {
        CpuState {
            memory: Seq::new(4096, |a: int| 0u8),
            pc: 0,
            index: 0,
            registers: Seq::new(16, |i: int| 0u8),
            stack: Seq::empty(),
            delay: 0,
            sound: 0,
            waiting: None,
        }
    }

    pub open spec fn with_register(self, i: int, value: u8) -> CpuState {
        CpuState { registers: self.registers.update(i, value), ..self }
    }

    pub open spec fn with_memory(self, a: int, value: u8) -> CpuState {
        CpuState { memory: self.memory.update(a, value), ..self }
    }

    /// The state with the program counter moved to the next instruction.
    pub open spec fn advanced(self) -> CpuState {
        CpuState { pc: wrap16(self.pc + 2), ..self }
    }

    /// The state after one 60 Hz timer tick: both timers count down by one,
    /// holding at zero.
    pub open spec fn ticked(self) -> CpuState {
        CpuState {
            delay: if self.delay > 0 {
                (self.delay - 1) as u8
            } else {
                0
            },
            sound: if self.sound > 0 {
                (self.sound - 1) as u8
            } else {
                0
            },
            ..self
        }
    }

    /// The state after `n` timer ticks.
    pub open spec fn ticked_times(self, n: nat) -> CpuState
        decreases n,
    {
        if n == 0 {
            self
        } else {
            self.ticked().ticked_times((n - 1) as nat)
        }
    }

    /// The opcode at the program counter.
    pub open spec fn current_opcode(self) -> int {
        self.byte_at(self.pc as int) as int * 256 + self.byte_at(self.pc + 1) as int
    }

    /// The byte at `addr`, masked to twelve bits.
    pub open spec fn byte_at(self, addr: int) -> u8 {
        self.memory[addr % 4096]
    }

    /// The memory with `bytes` written from `start` on.
    pub open spec fn memory_with_bytes(self, start: int, bytes: Seq<u8>) -> Seq<u8> {
        Seq::new(
            4096,
            |a: int|
                if start <= a < start + bytes.len() {
                    bytes[a - start]
                } else {
                    self.memory[a]
                },
        )
    }

    /// The registers after V0..Vx are loaded from memory at I.
    pub open spec fn loaded_registers(self, x: int) -> Seq<u8> {
        Seq::new(
            16,
            |j: int|
                if j <= x {
                    self.byte_at(self.index + j)
                } else {
                    self.registers[j]
                },
        )
    }

    /// The memory after V0..Vx are stored at I (addresses masked to twelve
    /// bits).
    pub open spec fn stored_memory(self, x: int) -> Seq<u8> {
        Seq::new(
            4096,
            |a: int|
                if (a - self.index) % 4096 <= x {
                    self.registers[(a - self.index) % 4096]
                } else {
                    self.memory[a]
                },
        )
    }

    /// The memory after the decimal digits of `v` are written at I, I+1, I+2.
    pub open spec fn bcd_memory(self, v: u8) -> Seq<u8> {
        self.memory.update(self.index as int % 4096, v / 100).update(
            (self.index + 1) % 4096,
            (v / 10) % 10,
        ).update((self.index + 2) % 4096, v % 10)
    }
}

pub struct CPU {
    memory: [u8; 4096],
    pc_r: u16,
    index_r: u16,
    gen_r: [u8; 16],
    stack: Vec<u16>,
    delay_timer: u8,
    sound_timer: u8,
    waiting_for_key: Option<Register>,
}

impl View for CPU {
    type V = CpuState;

    closed spec fn view(&self) -> CpuState {
        CpuState {
            memory: self.memory@,
            pc: self.pc_r,
            index: self.index_r,
            registers: self.gen_r@,
            stack: self.stack@,
            delay: self.delay_timer,
            sound: self.sound_timer,
            waiting: self.waiting_for_key,
        }
    }
}

/// A CPU always has 4096 bytes of memory and sixteen registers.
pub broadcast proof fn lemma_cpu_sizes(cpu: CPU)
    ensures
        (#[trigger] cpu@).memory.len() == 4096 && cpu@.registers.len() == 16,
{
}

proof fn lemma_mask(addr: u16)
    ensures
        addr & 0xFFF == addr % 4096,
{
    assert(addr & 0xFFF == addr % 4096) by (bit_vector);
}

impl CPU {
    pub const MEMORY_SIZE: usize = 4096;
    pub const REGISTER_COUNT: usize = 16;
    pub const INSTRUCTION_SIZE_B: u16 = 2;
    pub const STACK_CAPACITY: usize = 16;

    pub fn new() -> (r: Self)
        ensures
            r@ == CpuState::initial(),
    {
        let r = Self {
            memory: [0u8; 4096],
            index_r: 0,
            gen_r: [0u8; 16],
            stack: Vec::new(),
            delay_timer: 0,
            sound_timer: 0,
            pc_r: 0,
            waiting_for_key: None,
        };
        assert(r@.memory =~= CpuState::initial().memory);
        assert(r@.registers =~= CpuState::initial().registers);
        r
    }

    /// Brings the CPU back to the state it had at construction.
    pub fn reset(&mut self)
        ensures
            final(self)@ == CpuState::initial(),
    {
        *self = CPU::new();
    }

    /// A mutable reference to the flag register VF.
    pub fn vf(&mut self) -> (r: &mut u8)
        ensures
            *r == old(self)@.registers[15],
            final(self)@ == old(self)@.with_register(15, *final(r)),
    {
        &mut self.gen_r[15]
    }

    /// Value of a register.
    pub fn register_val(&self, reg: &Register) -> (r: u8)
        ensures
            r == self@.registers[reg@ as int],
    {
        self.gen_r[reg.get() as usize]
    }

    /// Sets the value of a register.
    pub fn register_set(&mut self, reg: &Register, value: u8)
        ensures
            final(self)@ == old(self)@.with_register(reg@ as int, value),
    {
        self.gen_r[reg.get() as usize] = value;
    }

    /// The values of all sixteen registers.
    pub fn all_register_val(&self) -> (r: [u8; 16])
        ensures
            r@ == self@.registers,
    {
        self.gen_r
    }

    /// The byte at `addr`, masked to twelve bits.
    pub fn load_from_addr(&self, addr: u16) -> (r: u8)
        ensures
            r == self@.byte_at(addr as int),
    {
        proof {
            lemma_mask(addr);
        }
        self.memory[(addr & 0xFFF) as usize]
    }

    /// Stores `value` at `addr`, masked to twelve bits.
    pub fn store_in_addr(&mut self, addr: u16, value: u8)
        ensures
            final(self)@ == old(self)@.with_memory(addr as int % 4096, value),
    {
        proof {
            lemma_mask(addr);
        }
        self.memory[(addr & 0xFFF) as usize] = value;
    }

    /// Copies `bytes` into memory from `start` on; fails, changing nothing,
    /// when they do not fit below 4096.
    pub fn store_memory_slice(&mut self, start: usize, bytes: &[u8]) -> (r: Result<(), ()>)
        ensures
            (r is Ok) <==> (start + bytes@.len() <= 4096),
            (r is Ok) ==> final(self)@ == (CpuState {
                memory: old(self)@.memory_with_bytes(start as int, bytes@),
                ..old(self)@
            }),
            (r is Err) ==> final(self)@ == old(self)@,
    {
        if start > 4096 || bytes.len() > 4096 - start {
            return Err(());
        }
        let ghost old_state = self@;
        let mut i: usize = 0;
        while i < bytes.len()
            invariant
                start + bytes@.len() <= 4096,
                i <= bytes@.len(),
                self@ == (CpuState { memory: self@.memory, ..old_state }),
                self@.memory.len() == 4096,
                forall|a: int|
                    0 <= a < 4096 ==> #[trigger] self@.memory[a] == if start <= a < start + i {
                        bytes@[a - start]
                    } else {
                        old_state.memory[a]
                    },
            decreases bytes@.len() - i,
        {
            self.memory[start + i] = bytes[i];
            i = i + 1;
        }
        assert(self@.memory =~= old_state.memory_with_bytes(start as int, bytes@));
        Ok(())
    }

    /// Moves the program counter to the next instruction.
    pub fn increment_pc(&mut self)
        ensures
            final(self)@ == old(self)@.advanced(),
    {
        self.pc_r = self.pc_r.wrapping_add(Self::INSTRUCTION_SIZE_B);
    }

    pub fn get_pc(&self) -> (r: u16)
        ensures
            r == self@.pc,
    {
        self.pc_r
    }

    pub fn jump_to(&mut self, addr: &Address)
        ensures
            final(self)@ == (CpuState { pc: addr@, ..old(self)@ }),
    {
        self.pc_r = addr.get();
    }

    /// Sets the program counter to any sixteen-bit value.
    pub fn set_pc(&mut self, pc: u16)
        ensures
            final(self)@ == (CpuState { pc, ..old(self)@ }),
    {
        self.pc_r = pc;
    }

    /// The opcode made of the two bytes at the program counter.
    pub fn fetch_current_instruction(&self) -> (r: RawInstruction)
        ensures
            r@ == self@.current_opcode(),
    {
        let pc = self.pc_r;
        let high = self.load_from_addr(pc);
        let low = self.load_from_addr(pc.wrapping_add(1));
        assert((pc + 1) % 65536 % 4096 == (pc + 1) % 4096);
        RawInstruction::new(high, low)
    }

    pub fn get_index(&self) -> (r: u16)
        ensures
            r == self@.index,
    {
        self.index_r
    }

    pub fn set_index(&mut self, value: u16)
        ensures
            final(self)@ == (CpuState { index: value, ..old(self)@ }),
    {
        self.index_r = value;
    }

    /// Counts the delay timer down by one, holding at zero.
    pub fn dec_delay(&mut self)
        ensures
            final(self)@ == (CpuState {
                delay: if old(self)@.delay > 0 { (old(self)@.delay - 1) as u8 } else { 0 },
                ..old(self)@
            }),
    {
        if self.delay_timer > 0 {
            self.delay_timer -= 1;
        }
    }

    /// Counts the sound timer down by one, holding at zero.
    pub fn dec_sound(&mut self)
        ensures
            final(self)@ == (CpuState {
                sound: if old(self)@.sound > 0 { (old(self)@.sound - 1) as u8 } else { 0 },
                ..old(self)@
            }),
    {
        if self.sound_timer > 0 {
            self.sound_timer -= 1;
        }
    }

    pub fn set_delay_timer(&mut self, value: u8)
        ensures
            final(self)@ == (CpuState { delay: value, ..old(self)@ }),
    {
        self.delay_timer = value;
    }

    pub fn get_delay_timer(&self) -> (r: u8)
        ensures
            r == self@.delay,
    {
        self.delay_timer
    }

    pub fn set_sound_timer(&mut self, value: u8)
        ensures
            final(self)@ == (CpuState { sound: value, ..old(self)@ }),
    {
        self.sound_timer = value;
    }

    pub fn get_sound_timer(&self) -> (r: u8)
        ensures
            r == self@.sound,
    {
        self.sound_timer
    }

    /// Pushes a return address.
    pub fn push_stack(&mut self, addr: u16)
        ensures
            final(self)@ == (CpuState { stack: old(self)@.stack.push(addr), ..old(self)@ }),
    {
        self.stack.push(addr);
    }

    /// Pops the latest return address, or `None` when the stack is empty.
    pub fn pop_stack(&mut self) -> (r: Option<u16>)
        ensures
            old(self)@.stack.len() == 0 ==> (r is None) && final(self)@ == old(self)@,
            old(self)@.stack.len() > 0 ==> r == Some(old(self)@.stack.last()) && final(self)@ == (
            CpuState { stack: old(self)@.stack.drop_last(), ..old(self)@ }),
    {
        self.stack.pop()
    }

    /// The number of return addresses on the stack.
    pub fn stack_depth(&self) -> (r: usize)
        ensures
            r == self@.stack.len(),
    {
        self.stack.len()
    }

    /// Adds `value` to a register, wrapping, with no flag.
    pub fn add_reg(&mut self, reg: &Register, value: u8)
        ensures
            final(self)@ == old(self)@.with_register(
                reg@ as int,
                ((old(self)@.registers[reg@ as int] + value) % 256) as u8,
            ),
    {
        let current = self.register_val(reg);
        let result = current.wrapping_add(value);
        self.register_set(reg, result);
    }

    /// Adds `value` to the index register, wrapping at sixteen bits.
    pub fn add_index(&mut self, value: u16)
        ensures
            final(self)@ == (CpuState { index: wrap16(old(self)@.index + value), ..old(self)@ }),
    {
        self.index_r = self.index_r.wrapping_add(value);
    }

    /// Writes the three decimal digits of a register at I, I+1 and I+2.
    pub fn binary_decimal_conv(&mut self, reg: &Register)
        ensures
            final(self)@ == (CpuState {
                memory: old(self)@.bcd_memory(old(self)@.registers[reg@ as int]),
                ..old(self)@
            }),
    {
        let value = self.register_val(reg);
        let first_digit = value / 100;
        let second_digit = (value % 100) / 10;
        let last_digit = value % 10;
        let index = self.index_r;
        self.store_in_addr(index, first_digit);
        self.store_in_addr(index.wrapping_add(1), second_digit);
        self.store_in_addr(index.wrapping_add(2), last_digit);
        assert((index + 1) % 65536 % 4096 == (index + 1) % 4096);
        assert((index + 2) % 65536 % 4096 == (index + 2) % 4096);
    }

    /// Loads V0..Vx from memory at I; I is unchanged.
    pub fn load_registers(&mut self, up_to_reg: &Register)
        ensures
            final(self)@ == (CpuState {
                registers: old(self)@.loaded_registers(up_to_reg@ as int),
                ..old(self)@
            }),
    {
        let ghost old_state = self@;
        let last = up_to_reg.get();
        let mut i: u8 = 0;
        while i <= last
            invariant
                last == up_to_reg@,
                last < 16,
                i <= last + 1,
                self@ == (CpuState { registers: self@.registers, ..old_state }),
                self@.registers.len() == 16,
                forall|j: int|
                    0 <= j < 16 ==> #[trigger] self@.registers[j] == if j < i {
                        old_state.byte_at(old_state.index + j)
                    } else {
                        old_state.registers[j]
                    },
            decreases last + 1 - i,
        {
            let value = self.load_from_addr(self.index_r.wrapping_add(i as u16));
            assert((old_state.index + i) % 65536 % 4096 == (old_state.index + i) % 4096);
            self.gen_r[i as usize] = value;
            i = i + 1;
        }
        assert(self@.registers =~= old_state.loaded_registers(last as int));
    }

    /// Stores V0..Vx into memory at I; I is unchanged.
    pub fn store_registers(&mut self, up_to_reg: &Register)
        ensures
            final(self)@ == (CpuState {
                memory: old(self)@.stored_memory(up_to_reg@ as int),
                ..old(self)@
            }),
    {
        let ghost old_state = self@;
        let last = up_to_reg.get();
        let mut i: u8 = 0;
        while i <= last
            invariant
                last == up_to_reg@,
                last < 16,
                i <= last + 1,
                self@ == (CpuState { memory: self@.memory, ..old_state }),
                self@.memory.len() == 4096,
                forall|a: int|
                    0 <= a < 4096 ==> #[trigger] self@.memory[a] == if (a - old_state.index) % 4096
                        < i {
                        old_state.registers[(a - old_state.index) % 4096]
                    } else {
                        old_state.memory[a]
                    },
            decreases last + 1 - i,
        {
            let value = self.gen_r[i as usize];
            let addr = self.index_r.wrapping_add(i as u16);
            self.store_in_addr(addr, value);
            proof {
                let t = (old_state.index + i) % 4096;
                assert(addr % 4096 == t);
                assert forall|a: int| 0 <= a < 4096 implies #[trigger] self@.memory[a] == if (a
                    - old_state.index) % 4096 < i + 1 {
                    old_state.registers[(a - old_state.index) % 4096]
                } else {
                    old_state.memory[a]
                } by {
                    lemma_offset(a, old_state.index as int, i as int);
                }
            }
            i = i + 1;
        }
        assert(self@.memory =~= old_state.stored_memory(last as int));
    }

    /// Loads V0..Vx from memory at I, then advances I past them.
    pub fn load_registers_cosmac(&mut self, up_to_reg: &Register)
        ensures
            final(self)@ == (CpuState {
                registers: old(self)@.loaded_registers(up_to_reg@ as int),
                index: wrap16(old(self)@.index + up_to_reg@ + 1),
                ..old(self)@
            }),
    {
        self.load_registers(up_to_reg);
        self.index_r = self.index_r.wrapping_add(up_to_reg.get() as u16 + 1);
    }

    /// Stores V0..Vx into memory at I, then advances I past them.
    pub fn store_registers_cosmac(&mut self, up_to_reg: &Register)
        ensures
            final(self)@ == (CpuState {
                memory: old(self)@.stored_memory(up_to_reg@ as int),
                index: wrap16(old(self)@.index + up_to_reg@ + 1),
                ..old(self)@
            }),
    {
        self.store_registers(up_to_reg);
        self.index_r = self.index_r.wrapping_add(up_to_reg.get() as u16 + 1);
    }

    pub fn is_waiting_for_key(&self) -> (r: bool)
        ensures
            r == (self@.waiting is Some),
    {
        self.waiting_for_key.is_some()
    }

    /// Arms the key-wait latch for register `reg`.
    pub fn start_waiting_for_key(&mut self, reg: Register)
        ensures
            final(self)@ == (CpuState { waiting: Some(reg), ..old(self)@ }),
    {
        self.waiting_for_key = Some(reg);
    }

    /// Clears the key-wait latch, returning the register it was armed for.
    pub fn stop_waiting_for_key(&mut self) -> (r: Option<Register>)
        ensures
            r == old(self)@.waiting,
            final(self)@ == (CpuState { waiting: None, ..old(self)@ }),
    {
        self.waiting_for_key.take()
    }
}

proof fn lemma_offset(a: int, base: int, i: int)
    requires
        0 <= a < 4096,
        0 <= base < 65536,
        0 <= i < 16,
    ensures
        (a - base) % 4096 == i <==> a == (base + i) % 4096,
{
    assert((a - base) % 4096 == i <==> a == (base + i) % 4096) by (nonlinear_arith)
        requires
            0 <= a < 4096,
            0 <= base < 65536,
            0 <= i < 16,
    ;
}

/// After `n` timer ticks each timer has counted down by `n`, or to zero if it
/// held less.
pub proof fn lemma_timer_ticks(c: CpuState, n: nat)
    ensures
        c.ticked_times(n).delay == c.delay - if n < c.delay { n as int } else { c.delay as int },
        c.ticked_times(n).sound == c.sound - if n < c.sound { n as int } else { c.sound as int },
    decreases n,
{
    if n > 0 {
        lemma_timer_ticks(c.ticked(), (n - 1) as nat);
    }
}

} // verus!
