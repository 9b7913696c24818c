//! The executable interpreter.  Every public method's contract relates the
//! machine, through its view, to the pure transitions of [`crate::state`].

use vstd::prelude::*;

verus! {

use vstd::pervasive::VecAdditionalExecFns;

use crate::font::font_data;
use crate::operation::{Chip8Error, Operation};
use crate::state::{
    advance_pc, apply_op, beep_due, draw_collision, draw_vram, fetch_instr, initial_ram,
    initial_state, lemma_pos_coords, spec_tick, sprite_covers, sprite_pixel, store_regs_ram,
    tick_timers, wrap_addr, VmState, PROGRAM_BASE, RAM_SIZE, STACK_CAPACITY, TIMER_PERIOD_MICROS,
};

/// Reads the wall clock for the timer subsystem.
///
/// Relies on `std::time::SystemTime::now`: the reading is converted to a
/// plain number of whole microseconds since the Unix epoch
/// (`duration_since(UNIX_EPOCH)` followed by `as_micros`); a clock set
/// before the epoch reads as 0.  Nothing is assumed of the value: the
/// timer logic is verified for every reading.
#[verifier::external_body]
fn clock_micros() -> u64 {
    match std::time::SystemTime::now().duration_since(std::time::UNIX_EPOCH) {
        Ok(elapsed) => elapsed.as_micros() as u64,
        Err(_) => 0,
    }
}

/// Draws the byte the random operation masks.
///
/// Relies on `rand::random` for the randomness.  Nothing is assumed of the
/// drawn value: the interpreter is verified for every byte.
#[verifier::external_body]
fn random_byte() -> u8 {
    rand::random()
}

/// The machine: memory, registers, call stack, timers, display and input
/// latch, created once from a program image and driven by [`Cpu::tick`].
pub struct Cpu {
    ram: Vec<u8>,
    pc: u16,
    i: u16,
    stack: Vec<u16>,
    v: Vec<u8>,
    vram: Vec<bool>,
    vram_changed: bool,
    delay: u8,
    sound: u8,
    key: Option<u8>,
    super_chip: bool,
    index_overflow_flag: bool,
    last_timer_micros: u64,
}

impl View for Cpu {
    type V = VmState;

    closed spec fn view(&self) -> VmState {
        VmState {
            ram: self.ram@,
            pc: self.pc,
            index: self.i,
            stack: self.stack@,
            regs: self.v@,
            vram: self.vram@,
            vram_changed: self.vram_changed,
            delay: self.delay,
            sound: self.sound,
            key: self.key,
            super_chip: self.super_chip,
            index_overflow_flag: self.index_overflow_flag,
            last_timer_micros: self.last_timer_micros,
        }
    }
}

impl Cpu {
    /// The machine is well formed exactly when its model is.
    pub open spec fn wf(self) -> bool {
        self@.wf()
    }

    /// Build a machine running under the legacy quirk interpretation when
    /// `super_chip` is false and the modern one when it is true, with the
    /// index-overflow flag quirk disabled.
    ///
    /// Succeeds exactly when the program image fits the addressable
    /// program region; a larger image is rejected and no machine is made.
    pub fn new(rom: Vec<u8>, super_chip: bool) -> (result: Result<Cpu, Chip8Error>)
        ensures
            (result matches Ok(cpu) ==> cpu.wf() && cpu@ == initial_state(
                rom@,
                super_chip,
                false,
            )),
            result is Ok <==> rom@.len() <= RAM_SIZE - PROGRAM_BASE,
            (result matches Err(e) ==> e == Chip8Error::OversizedProgram),
    {
        Self::new_with_quirks(rom, super_chip, false)
    }

    /// Build a machine, choosing both quirks: the legacy/modern mode and
    /// whether adding to the index register reports address-space overflow
    /// in the flag register.
    ///
    /// Succeeds exactly when the program image fits the addressable
    /// program region; a larger image is rejected and no machine is made.
    pub fn new_with_quirks(rom: Vec<u8>, super_chip: bool, index_overflow_flag: bool) -> (result:
        Result<Cpu, Chip8Error>)
        ensures
            (result matches Ok(cpu) ==> cpu.wf() && cpu@ == initial_state(
                rom@,
                super_chip,
                index_overflow_flag,
            )),
            result is Ok <==> rom@.len() <= RAM_SIZE - PROGRAM_BASE,
            (result matches Err(e) ==> e == Chip8Error::OversizedProgram),
    {
        if rom.len() > (RAM_SIZE - PROGRAM_BASE) as usize {
            return Err(Chip8Error::OversizedProgram);
        }
        let mut ram: Vec<u8> = vec![0u8; 4096];
        let font = font_data();
        let mut k: usize = 0;
        while k < 80
            invariant
                k <= 80,
                ram@.len() == 4096,
                font@ == crate::font::spec_font(),
                forall|a: int| 0 <= a < 4096 && !(0x50 <= a < 0x50 + k) ==> ram@[a] == 0u8,
                forall|a: int| 0x50 <= a < 0x50 + k ==> ram@[a] == font@[a - 0x50],
            decreases 80 - k,
        {
            ram.set(0x50 + k, font[k]);
            k += 1;
        }
        let mut k: usize = 0;
        while k < rom.len()
            invariant
                k <= rom@.len() <= 3584,
                ram@.len() == 4096,
                forall|a: int|
                    0 <= a < 4096 && !(0x50 <= a < 0x50 + 80) && !(0x200 <= a < 0x200 + k)
                        ==> ram@[a] == 0u8,
                forall|a: int| 0x50 <= a < 0x50 + 80 ==> ram@[a] == crate::font::spec_font()[a
                    - 0x50],
                forall|a: int| 0x200 <= a < 0x200 + k ==> ram@[a] == rom@[a - 0x200],
            decreases rom@.len() - k,
        {
            ram.set(0x200 + k, rom[k]);
            k += 1;
        }
        let cpu = Cpu {
            ram,
            pc: 0x200,
            i: 0,
            stack: Vec::new(),
            v: vec![0u8; 16],
            vram: vec![false; 2048],
            vram_changed: false,
            delay: 0,
            sound: 0,
            key: None,
            super_chip,
            index_overflow_flag,
            last_timer_micros: 0,
        };
        proof {
            assert(cpu@.ram =~= initial_ram(rom@));
            assert(cpu@.regs =~= initial_state(rom@, super_chip, index_overflow_flag).regs);
            assert(cpu@.vram =~= initial_state(rom@, super_chip, index_overflow_flag).vram);
            assert(cpu@.stack =~= initial_state(rom@, super_chip, index_overflow_flag).stack);
            assert(cpu@ =~= initial_state(rom@, super_chip, index_overflow_flag));
        }
        Ok(cpu)
    }

    /// The value of one general-purpose register.
    pub fn register(&self, x: u8) -> (r: u8)
        requires
            self.wf(),
            x < 16,
        ensures
            r == self@.regs[x as int],
    {
        self.v[x as usize]
    }

    /// The current program counter.
    pub fn program_counter(&self) -> (r: u16)
        ensures
            r == self@.pc,
    {
        self.pc
    }

    /// The current value of the index register.
    pub fn index_register(&self) -> (r: u16)
        ensures
            r == self@.index,
    {
        self.i
    }

    /// The current value of the delay timer.
    pub fn delay_timer(&self) -> (r: u8)
        ensures
            r == self@.delay,
    {
        self.delay
    }

    /// The current value of the sound timer.
    pub fn sound_timer(&self) -> (r: u8)
        ensures
            r == self@.sound,
    {
        self.sound
    }

    /// How many return addresses the call stack holds.
    pub fn stack_depth(&self) -> (r: usize)
        ensures
            r == self@.stack.len(),
    {
        self.stack.len()
    }

    /// One byte of memory.
    pub fn memory_byte(&self, address: u16) -> (r: u8)
        requires
            self.wf(),
            address < 4096,
        ensures
            r == self@.ram[address as int],
    {
        self.ram[address as usize]
    }

    /// Whether the pixel at column `x`, row `y` is lit.
    pub fn pixel(&self, x: u8, y: u8) -> (r: bool)
        requires
            self.wf(),
            x < 64,
            y < 32,
        ensures
            r == self@.vram[y as int * 64 + x as int],
    {
        self.vram[y as usize * 64 + x as usize]
    }

    /// Latch a pressed logical key, replacing any key pressed before.
    pub fn press_key(&mut self, key: u8)
        requires
            old(self).wf(),
            key < 16,
        ensures
            final(self).wf(),
            final(self)@ == (VmState { key: Some(key), ..old(self)@ }),
    {
        self.key = Some(key);
    }

    /// Clear the input latch when the pressed key is released.
    pub fn release_key(&mut self)
        requires
            old(self).wf(),
        ensures
            final(self).wf(),
            final(self)@ == (VmState { key: None, ..old(self)@ }),
    {
        self.key = None;
    }

    /// Advance the timer subsystem to real time `now`, and say whether a
    /// beep pulse is owed: both non-zero timers count down once when a full
    /// period has elapsed since they last did.
    fn step_timers(&mut self, now: u64) -> (beep: bool)
        requires
            old(self).wf(),
        ensures
            final(self).wf(),
            final(self)@ == tick_timers(old(self)@, now),
            beep == beep_due(old(self)@, now),
    {
        if now >= self.last_timer_micros && now - self.last_timer_micros >= TIMER_PERIOD_MICROS {
            let beep = self.sound > 0;
            if self.delay > 0 {
                self.delay = self.delay - 1;
            }
            if self.sound > 0 {
                self.sound = self.sound - 1;
            }
            self.last_timer_micros = now;
            beep
        } else {
            false
        }
    }

    /// The address `off` bytes past `base`, wrapped to the address space.
    fn wrapped(base: u16, off: u16) -> (r: u16)
        requires
            base < 4096,
            off <= 4096,
        ensures
            r as int == wrap_addr(base as int, off as int),
            r < 4096,
    {
        let sum = base + off;
        if sum >= 4096 {
            sum - 4096
        } else {
            sum
        }
    }

    /// Turn every display cell off and mark the display changed.
    fn exec_clear(&mut self)
        requires
            old(self).wf(),
        ensures
            final(self).wf(),
            apply_op(old(self)@, Operation::ClearScreen, 0) == Ok::<VmState, Chip8Error>(
                final(self)@,
            ),
    {
        let ghost s0 = self@;
        let mut p: usize = 0;
        while p < 2048
            invariant
                p <= 2048,
                self@.vram.len() == 2048,
                self@ == (VmState { vram: self@.vram, ..s0 }),
                forall|q: int| 0 <= q < p ==> !self@.vram[q],
            decreases 2048 - p,
        {
            self.vram.set(p, false);
            p += 1;
        }
        self.vram_changed = true;
        proof {
            assert(self@.vram =~= Seq::new(2048, |q: int| false));
        }
    }

    /// Write the three decimal digits of `VX` to memory at the index
    /// register.
    fn exec_bcd(&mut self, x: u8)
        requires
            old(self).wf(),
            x < 16,
        ensures
            final(self).wf(),
            apply_op(old(self)@, (Operation::StoreBinaryCodedDecimalOfVX { x }), 0) == Ok::<
                VmState,
                Chip8Error,
            >(final(self)@),
    {
        let n = self.v[x as usize];
        let i0 = self.i;
        self.ram.set(i0 as usize, n / 100);
        self.ram.set(Self::wrapped(i0, 1) as usize, (n % 100) / 10);
        self.ram.set(Self::wrapped(i0, 2) as usize, n % 10);
    }

    /// Store registers `V0 ..= VX` at consecutive memory addresses from the
    /// index register on; under the legacy quirk the index register ends up
    /// advanced past the block, under the modern one it keeps its value.
    fn exec_store(&mut self, x: u8)
        requires
            old(self).wf(),
            x < 16,
        ensures
            final(self).wf(),
            apply_op(old(self)@, (Operation::StoreFromV0ToVX { x }), 0) == Ok::<
                VmState,
                Chip8Error,
            >(final(self)@),
    {
        let ghost s0 = self@;
        let count: usize = x as usize + 1;
        let mut n: usize = 0;
        while n < count
            invariant
                s0.wf(),
                n <= count,
                count == x as int + 1,
                x < 16,
                self@.ram.len() == 4096,
                self@.ram == store_regs_ram(s0.ram, s0.regs, s0.index as int, n as int),
                self@ == (VmState { ram: self@.ram, ..s0 }),
            decreases count - n,
        {
            let addr = Self::wrapped(self.i, n as u16);
            let val = self.v[n];
            self.ram.set(addr as usize, val);
            n += 1;
        }
        if !self.super_chip {
            self.i = Self::wrapped(self.i, x as u16 + 1);
        }
    }

    /// Load registers `V0 ..= VX` from consecutive memory addresses from
    /// the index register on, with the same quirk as the block store.
    fn exec_fill(&mut self, x: u8)
        requires
            old(self).wf(),
            x < 16,
        ensures
            final(self).wf(),
            apply_op(old(self)@, (Operation::FillFromV0ToVX { x }), 0) == Ok::<VmState, Chip8Error>(
                final(self)@,
            ),
    {
        let ghost s0 = self@;
        let count: usize = x as usize + 1;
        let mut n: usize = 0;
        while n < count
            invariant
                s0.wf(),
                n <= count,
                count == x as int + 1,
                x < 16,
                self@.regs.len() == 16,
                forall|k: int|
                    0 <= k < 16 ==> self@.regs[k] == (if k < n {
                        s0.ram[wrap_addr(s0.index as int, k)]
                    } else {
                        s0.regs[k]
                    }),
                self@ == (VmState { regs: self@.regs, ..s0 }),
            decreases count - n,
        {
            let addr = Self::wrapped(self.i, n as u16);
            let val = self.ram[addr as usize];
            self.v.set(n, val);
            n += 1;
        }
        if !self.super_chip {
            self.i = Self::wrapped(self.i, x as u16 + 1);
        }
        proof {
            let target = Seq::new(
                16,
                |k: int|
                    if k <= x {
                        s0.ram[wrap_addr(s0.index as int, k)]
                    } else {
                        s0.regs[k]
                    },
            );
            assert(self@.regs =~= target);
        }
    }

    /// Draw the sprite of the given height whose rows sit in memory at the
    /// index register, at the screen position named by `VX` and `VY`: the
    /// start coordinates wrap, the sprite clips at the right and bottom
    /// edges, covered cells are toggled, and the flag register reports
    /// whether any lit cell was turned off.
    fn exec_draw(&mut self, x: u8, y: u8, height: u8)
        requires
            old(self).wf(),
            x < 16,
            y < 16,
            height < 16,
        ensures
            final(self).wf(),
            apply_op(old(self)@, (Operation::DrawSpriteAt { x, y, height }), 0) == Ok::<
                VmState,
                Chip8Error,
            >(final(self)@),
    {
        let ghost s0 = self@;
        let sx = self.v[x as usize] % 64;
        let sy = self.v[y as usize] % 32;
        let mut collided = false;
        let mut row: u8 = 0;
        while row < height && sy + row < 32
            invariant
                s0.wf(),
                height < 16,
                sx < 64,
                sy < 32,
                row <= height,
                sy + row <= 32,
                self@.vram.len() == 2048,
                self@ == (VmState { vram: self@.vram, ..s0 }),
                forall|p: int|
                    0 <= p < 2048 ==> self@.vram[p] == (if sprite_covers(
                        sx as int,
                        sy as int,
                        height as int,
                        p % 64,
                        p / 64,
                    ) && p / 64 - sy < row {
                        s0.vram[p] != sprite_pixel(s0, sx as int, sy as int, p % 64, p / 64)
                    } else {
                        s0.vram[p]
                    }),
                collided == (exists|px: int, py: int|
                    sprite_covers(sx as int, sy as int, height as int, px, py) && py - sy < row
                        && sprite_pixel(s0, sx as int, sy as int, px, py) && s0.vram[py * 64 + px]),
            decreases height - row,
        {
            let row_byte = self.ram[Self::wrapped(self.i, row as u16) as usize];
            let mut c: u8 = 0;
            while c < 8 && sx + c < 64
                invariant
                    s0.wf(),
                    height < 16,
                    sx < 64,
                    sy < 32,
                    row < height,
                    sy + row < 32,
                    c <= 8,
                    sx + c <= 64,
                    row_byte == s0.ram[wrap_addr(s0.index as int, row as int)],
                    self@.vram.len() == 2048,
                    self@ == (VmState { vram: self@.vram, ..s0 }),
                    forall|p: int|
                        0 <= p < 2048 ==> self@.vram[p] == (if sprite_covers(
                            sx as int,
                            sy as int,
                            height as int,
                            p % 64,
                            p / 64,
                        ) && (p / 64 - sy < row || (p / 64 - sy == row && p % 64 - sx < c)) {
                            s0.vram[p] != sprite_pixel(s0, sx as int, sy as int, p % 64, p / 64)
                        } else {
                            s0.vram[p]
                        }),
                    collided == (exists|px: int, py: int|
                        sprite_covers(sx as int, sy as int, height as int, px, py) && (py - sy < row
                            || (py - sy == row && px - sx < c)) && sprite_pixel(
                            s0,
                            sx as int,
                            sy as int,
                            px,
                            py,
                        ) && s0.vram[py * 64 + px]),
                decreases 8 - c,
            {
                let px = sx + c;
                let py = sy + row;
                let pos = py as usize * 64 + px as usize;
                proof {
                    lemma_pos_coords(px as int, py as int);
                }
                let pix = ((row_byte >> (7 - c)) & 1) == 1;
                let cell = self.vram[pos];
                let ghost collided_before = collided;
                if pix && cell {
                    collided = true;
                }
                self.vram.set(pos, cell != pix);
                proof {
                    assert(sprite_covers(sx as int, sy as int, height as int, px as int, py as int));
                    assert(pix == sprite_pixel(s0, sx as int, sy as int, px as int, py as int));
                    assert(cell == s0.vram[py as int * 64 + px as int]);
                    if collided {
                        if collided_before {
                            let (qx, qy) = choose|qx: int, qy: int|
                                sprite_covers(sx as int, sy as int, height as int, qx, qy) && (qy
                                    - sy < row || (qy - sy == row && qx - sx < c)) && sprite_pixel(
                                    s0,
                                    sx as int,
                                    sy as int,
                                    qx,
                                    qy,
                                ) && s0.vram[qy * 64 + qx];
                            assert(sprite_covers(sx as int, sy as int, height as int, qx, qy) && (qy
                                - sy < row || (qy - sy == row && qx - sx < c + 1)) && sprite_pixel(
                                s0,
                                sx as int,
                                sy as int,
                                qx,
                                qy,
                            ) && s0.vram[qy * 64 + qx]);
                        } else {
                            assert(sprite_covers(sx as int, sy as int, height as int, px as int, py as int)
                                && (py as int - sy < row || (py as int - sy == row && px as int - sx
                                < c + 1)) && sprite_pixel(s0, sx as int, sy as int, px as int, py as int)
                                && s0.vram[py as int * 64 + px as int]);
                        }
                    } else {
                        assert forall|qx: int, qy: int|
                            sprite_covers(sx as int, sy as int, height as int, qx, qy) && (qy - sy
                                < row || (qy - sy == row && qx - sx < c + 1)) && sprite_pixel(
                                s0,
                                sx as int,
                                sy as int,
                                qx,
                                qy,
                            ) implies !s0.vram[qy * 64 + qx] by {
                            if qy - sy == row && qx - sx == c {
                                assert(qx == px as int && qy == py as int);
                            }
                        }
                    }
                }
                c += 1;
            }
            row += 1;
        }
        self.v.set(15, if collided { 1 } else { 0 });
        self.vram_changed = true;
        proof {
            assert(self@.vram =~= draw_vram(s0, sx as int, sy as int, height as int));
            assert(collided == draw_collision(s0, sx as int, sy as int, height as int));
        }
    }

    /// Fetch the instruction word at the program counter and advance the
    /// counter past it.
    fn fetch(&mut self) -> (instr: u16)
        requires
            old(self).wf(),
        ensures
            final(self).wf(),
            instr == fetch_instr(old(self)@),
            final(self)@ == advance_pc(old(self)@),
    {
        let hi = self.ram[self.pc as usize];
        let lo = self.ram[Self::wrapped(self.pc, 1) as usize];
        self.pc = Self::wrapped(self.pc, 2);
        ((hi as u16) << 8) | (lo as u16)
    }

    /// Apply one decoded operation as an atomic state transition: the
    /// machine ends in the state the model prescribes, for some random byte
    /// that only the random operation consumes, and a stack error leaves
    /// the machine unchanged.
    fn execute(&mut self, op: Operation) -> (result: Result<(), Chip8Error>)
        requires
            old(self).wf(),
            op.wf(),
        ensures
            final(self).wf(),
            (match result {
                Ok(()) => exists|rnd: u8|
                    apply_op(old(self)@, op, rnd) == Ok::<VmState, Chip8Error>(final(self)@),
                Err(e) => apply_op(old(self)@, op, 0) == Err::<VmState, Chip8Error>(e)
                    && final(self)@ == old(self)@,
            }),
            (!(op is SetVXToVXAndRandomNumber) && result is Ok ==> apply_op(old(self)@, op, 0)
                == Ok::<VmState, Chip8Error>(final(self)@)),
    {
        proof {
            crate::state::lemma_apply_op_wf(old(self)@, op, 0);
        }
        match op {
            Operation::CallMachineCodeRoutineAt { address: _ } => Ok(()),
            Operation::ClearScreen => {
                self.exec_clear();
                Ok(())
            },
            Operation::ReturnFromSubroutine => {
                match self.stack.pop() {
                    Some(address) => {
                        self.pc = address;
                        Ok(())
                    },
                    None => Err(Chip8Error::StackUnderflow),
                }
            },
            Operation::JumpTo { address } => {
                self.pc = address;
                Ok(())
            },
            Operation::CallSubroutineAt { address } => {
                if self.stack.len() >= STACK_CAPACITY {
                    Err(Chip8Error::StackOverflow)
                } else {
                    self.stack.push(self.pc);
                    self.pc = address;
                    Ok(())
                }
            },
            Operation::SkipNextInstructionIfVXEquals { x, value } => {
                if self.v[x as usize] == value {
                    self.pc = Self::wrapped(self.pc, 2);
                }
                Ok(())
            },
            Operation::SkipNextInstructionIfVXNotEquals { x, value } => {
                if self.v[x as usize] != value {
                    self.pc = Self::wrapped(self.pc, 2);
                }
                Ok(())
            },
            Operation::SkipNextInstructionIfVXEqualsVY { x, y } => {
                if self.v[x as usize] == self.v[y as usize] {
                    self.pc = Self::wrapped(self.pc, 2);
                }
                Ok(())
            },
            Operation::SetVXTo { x, value } => {
                self.v.set(x as usize, value);
                Ok(())
            },
            Operation::AddToVX { x, value } => {
                let sum = self.v[x as usize] as u16 + value as u16;
                self.v.set(x as usize, (sum % 256) as u8);
                Ok(())
            },
            Operation::SetVXToVY { x, y } => {
                let vy = self.v[y as usize];
                self.v.set(x as usize, vy);
                Ok(())
            },
            Operation::SetVXToVXOrVY { x, y } => {
                let r = self.v[x as usize] | self.v[y as usize];
                self.v.set(x as usize, r);
                Ok(())
            },
            Operation::SetVXToVXAndVY { x, y } => {
                let r = self.v[x as usize] & self.v[y as usize];
                self.v.set(x as usize, r);
                Ok(())
            },
            Operation::SetVXToVXXorVY { x, y } => {
                let r = self.v[x as usize] ^ self.v[y as usize];
                self.v.set(x as usize, r);
                Ok(())
            },
            Operation::AddVYToVX { x, y } => {
                let sum = self.v[x as usize] as u16 + self.v[y as usize] as u16;
                self.v.set(x as usize, (sum % 256) as u8);
                self.v.set(15, if sum > 255 { 1 } else { 0 });
                Ok(())
            },
            Operation::SubtractVYFromVX { x, y } => {
                let vx = self.v[x as usize];
                let vy = self.v[y as usize];
                let diff = vx as u16 + 256 - vy as u16;
                self.v.set(x as usize, (diff % 256) as u8);
                self.v.set(15, if vx >= vy { 1 } else { 0 });
                Ok(())
            },
            Operation::RightShiftVX { x, y } => {
                let operand = if self.super_chip {
                    self.v[x as usize]
                } else {
                    self.v[y as usize]
                };
                self.v.set(x as usize, operand >> 1);
                self.v.set(15, operand & 1);
                Ok(())
            },
            Operation::SubtractVXFromVY { x, y } => {
                let vx = self.v[x as usize];
                let vy = self.v[y as usize];
                let diff = vy as u16 + 256 - vx as u16;
                self.v.set(x as usize, (diff % 256) as u8);
                self.v.set(15, if vy >= vx { 1 } else { 0 });
                Ok(())
            },
            Operation::LeftShiftVX { x, y } => {
                let operand = if self.super_chip {
                    self.v[x as usize]
                } else {
                    self.v[y as usize]
                };
                self.v.set(x as usize, operand << 1);
                self.v.set(15, (operand >> 7) & 1);
                Ok(())
            },
            Operation::SkipNextInstructionIfVXNotEqualsVY { x, y } => {
                if self.v[x as usize] != self.v[y as usize] {
                    self.pc = Self::wrapped(self.pc, 2);
                }
                Ok(())
            },
            Operation::SetITo { address } => {
                self.i = address;
                Ok(())
            },
            Operation::JumpToPlusV0 { address } => {
                self.pc = Self::wrapped(address, self.v[0] as u16);
                Ok(())
            },
            Operation::JumpToPlusVX { x, address } => {
                self.pc = Self::wrapped(address, self.v[x as usize] as u16);
                Ok(())
            },
            Operation::SetVXToVXAndRandomNumber { x, value } => {
                let drawn: u8 = random_byte();
                self.v.set(x as usize, drawn & value);
                proof {
                    crate::state::lemma_apply_op_wf(old(self)@, op, drawn);
                    assert(apply_op(old(self)@, op, drawn) == Ok::<VmState, Chip8Error>(self@));
                }
                Ok(())
            },
            Operation::DrawSpriteAt { x, y, height } => {
                self.exec_draw(x, y, height);
                Ok(())
            },
            Operation::SkipNextInstructionIfKeyInVXPressed { x } => {
                let target = self.v[x as usize] & 0x0F;
                let pressed = match self.key {
                    Some(k) => k == target,
                    None => false,
                };
                if pressed {
                    self.pc = Self::wrapped(self.pc, 2);
                }
                Ok(())
            },
            Operation::SkipNextInstructionIfKeyInVXNotPressed { x } => {
                let target = self.v[x as usize] & 0x0F;
                let pressed = match self.key {
                    Some(k) => k == target,
                    None => false,
                };
                if !pressed {
                    self.pc = Self::wrapped(self.pc, 2);
                }
                Ok(())
            },
            Operation::SetVXToDelayTimer { x } => {
                let t = self.delay;
                self.v.set(x as usize, t);
                Ok(())
            },
            Operation::AwaitKeyPress { x } => {
                match self.key {
                    Some(k) => {
                        self.v.set(x as usize, k);
                    },
                    None => {
                        self.pc = if self.pc >= 2 {
                            self.pc - 2
                        } else {
                            self.pc + 4094
                        };
                    },
                }
                Ok(())
            },
            Operation::SetDelayTimerToVX { x } => {
                self.delay = self.v[x as usize];
                Ok(())
            },
            Operation::SetSoundTimerToVX { x } => {
                self.sound = self.v[x as usize];
                Ok(())
            },
            Operation::AddVXToI { x } => {
                let sum = self.i + self.v[x as usize] as u16;
                if self.index_overflow_flag {
                    self.v.set(15, if sum > 4095 { 1 } else { 0 });
                }
                self.i = if sum >= 4096 {
                    sum - 4096
                } else {
                    sum
                };
                Ok(())
            },
            Operation::SetIToSpriteLocationForCharacterInVX { x } => {
                self.i = crate::state::FONT_BASE + crate::state::GLYPH_HEIGHT * ((self.v[x
                    as usize] & 0x0F) as u16);
                Ok(())
            },
            Operation::StoreBinaryCodedDecimalOfVX { x } => {
                self.exec_bcd(x);
                Ok(())
            },
            Operation::StoreFromV0ToVX { x } => {
                self.exec_store(x);
                Ok(())
            },
            Operation::FillFromV0ToVX { x } => {
                self.exec_fill(x);
                Ok(())
            },
        }
    }

    /// Run one whole execution step at real time `now_micros`: advance the
    /// timer subsystem, then fetch, decode and execute one instruction.
    ///
    /// Returns the two host signals — redraw needed, beep needed — or the
    /// error the step produced: an unknown instruction word, or a stack
    /// fault.  The step is the model's [`spec_tick`], for some random byte.
    pub fn tick_at(&mut self, now_micros: u64) -> (result: Result<(bool, bool), Chip8Error>)
        requires
            old(self).wf(),
        ensures
            final(self).wf(),
            (exists|rnd: u8|
                (final(self)@, result) == spec_tick(old(self)@, now_micros, rnd)),
    {
        let ghost s_start = self@;
        let beep = self.step_timers(now_micros);
        let ghost s_timed = self@;
        let instr = self.fetch();
        let ghost s_fetched = self@;
        match Operation::decode(instr, self.super_chip) {
            Err(e) => {
                proof {
                    assert((self@, Result::<(bool, bool), Chip8Error>::Err(e)) == spec_tick(
                        s_start,
                        now_micros,
                        0,
                    ));
                }
                Err(e)
            },
            Ok(op) => {
                match self.execute(op) {
                    Ok(()) => {
                        let redraw = self.vram_changed;
                        proof {
                            let rnd = choose|rnd: u8|
                                apply_op(s_fetched, op, rnd) == Ok::<VmState, Chip8Error>(self@);
                            assert((self@, Result::<(bool, bool), Chip8Error>::Ok((redraw, beep)))
                                == spec_tick(s_start, now_micros, rnd));
                        }
                        Ok((redraw, beep))
                    },
                    Err(e) => {
                        proof {
                            assert((self@, Result::<(bool, bool), Chip8Error>::Err(e)) == spec_tick(
                                s_start,
                                now_micros,
                                0,
                            ));
                        }
                        Err(e)
                    },
                }
            },
        }
    }

    /// Run one whole execution step against the wall clock: what
    /// [`Cpu::tick_at`] does, at the time the host calls it.
    pub fn tick(&mut self) -> (result: Result<(bool, bool), Chip8Error>)
        requires
            old(self).wf(),
        ensures
            final(self).wf(),
            (exists|now_micros: u64, rnd: u8|
                (final(self)@, result) == spec_tick(old(self)@, now_micros, rnd)),
    {
        let now = clock_micros();
        let result = self.tick_at(now);
        proof {
            let rnd = choose|rnd: u8| (self@, result) == spec_tick(old(self)@, now, rnd);
            assert((self@, result) == spec_tick(old(self)@, now, rnd));
        }
        result
    }

    /// Export the display into a caller-supplied pixel buffer of four bytes
    /// per cell: an opaque white pixel for a lit cell, an opaque black one
    /// for a dark cell.  Clears the dirty flag and changes nothing else.
    pub fn draw(&mut self, screen: &mut Vec<u8>)
        requires
            old(self).wf(),
            old(screen)@.len() == 8192,
        ensures
            final(self).wf(),
            final(self)@ == (VmState { vram_changed: false, ..old(self)@ }),
            final(screen)@.len() == 8192,
            forall|p: int|
                0 <= p < 2048 ==> final(screen)@[4 * p] == pixel_byte(old(self)@.vram[p])
                    && final(screen)@[4 * p + 1] == pixel_byte(old(self)@.vram[p])
                    && final(screen)@[4 * p + 2] == pixel_byte(old(self)@.vram[p])
                    && final(screen)@[4 * p + 3] == 0xFF,
    {
        let ghost s0 = self@;
        let mut p: usize = 0;
        while p < 2048
            invariant
                s0.wf(),
                p <= 2048,
                self@ == s0,
                screen@.len() == 8192,
                forall|q: int|
                    0 <= q < p ==> screen@[4 * q] == pixel_byte(s0.vram[q]) && screen@[4 * q + 1]
                        == pixel_byte(s0.vram[q]) && screen@[4 * q + 2] == pixel_byte(s0.vram[q])
                        && screen@[4 * q + 3] == 0xFF,
            decreases 2048 - p,
        {
            let c = if self.vram[p] {
                0xFFu8
            } else {
                0x00u8
            };
            screen.set(4 * p, c);
            screen.set(4 * p + 1, c);
            screen.set(4 * p + 2, c);
            screen.set(4 * p + 3, 0xFF);
            p += 1;
        }
        self.vram_changed = false;
    }
}

/// The byte written to each color channel of an exported pixel: full
/// intensity for a lit cell, none for a dark one.
pub open spec fn pixel_byte(lit: bool) -> u8 {
    if lit {
        0xFF
    } else {
        0x00
    }
}

} // verus!
