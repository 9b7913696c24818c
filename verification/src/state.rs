//! The mathematical model of the machine: its state as plain sequences and
//! scalars, and the meaning of every operation as a pure transition.

use vstd::prelude::*;

verus! {

use crate::font::spec_font;
use crate::operation::{Chip8Error, Operation};

/// Total memory, in bytes.
pub const RAM_SIZE: u16 = 4096;

/// First address of the program image; everything from here to the end of
/// memory is the addressable program region.
pub const PROGRAM_BASE: u16 = 0x200;

/// First address of the glyph table.
pub const FONT_BASE: u16 = 0x50;

/// Height of one glyph, in bytes.
pub const GLYPH_HEIGHT: u16 = 5;

/// Capacity of the call stack, in return addresses.
pub const STACK_CAPACITY: usize = 16;

/// The timer period: both timers count down once per 1/60 second, measured
/// in whole microseconds of real time.
pub const TIMER_PERIOD_MICROS: u64 = 16667;

/// The machine state, as mathematics: memory and the display as sequences,
/// registers and counters as fixed-width integers.  Every contract of the
/// executable interpreter speaks of values of this type.
#[verifier::ext_equal]
pub ghost struct VmState {
    /// All of memory: the glyph table, the program image, and scratch space.
    pub ram: Seq<u8>,
    /// The program counter, kept inside memory bounds.
    pub pc: u16,
    /// The 16-bit index register, kept inside memory bounds.
    pub index: u16,
    /// Return addresses of the subroutines currently entered, oldest first.
    pub stack: Seq<u16>,
    /// The 16 general-purpose registers; register 15 doubles as the flag.
    pub regs: Seq<u8>,
    /// The one-bit display cells, row-major, `true` for a lit pixel.
    pub vram: Seq<bool>,
    /// Whether the display changed since the last export.
    pub vram_changed: bool,
    /// The delay timer.
    pub delay: u8,
    /// The sound timer.
    pub sound: u8,
    /// The input latch: at most one currently-pressed logical key.
    pub key: Option<u8>,
    /// Quirk mode: `true` selects the modern interpretation of the shift,
    /// block store/load and jump-with-offset operations.
    pub super_chip: bool,
    /// Whether adding to the index register reports address-space overflow
    /// in the flag register.
    pub index_overflow_flag: bool,
    /// When the timers last counted down, in microseconds.
    pub last_timer_micros: u64,
}

impl VmState {
    /// Well-formedness: the sizes of the aggregates are fixed, the program
    /// counter and index register address memory, the stack is bounded and
    /// holds addresses, and the latch holds a logical key.
    pub open spec fn wf(self) -> bool {
        &&& self.ram.len() == 4096
        &&& self.regs.len() == 16
        &&& self.vram.len() == 2048
        &&& self.stack.len() <= 16
        &&& self.pc < 4096
        &&& self.index < 4096
        &&& (forall|k: int| 0 <= k < self.stack.len() ==> self.stack[k] < 4096)
        &&& (self.key matches Some(k) ==> k < 16)
    }
}

/// An address `off` bytes past `base`, wrapped to the 12-bit address space.
/// Meaningful for `0 <= base < 4096` and `0 <= off <= 4096`.
pub open spec fn wrap_addr(base: int, off: int) -> int {
    if base + off < 4096 {
        base + off
    } else {
        base + off - 4096
    }
}

/// 1 when the condition holds, 0 otherwise: the value arithmetic writes to
/// the flag register.
pub open spec fn flag_value(b: bool) -> u8 {
    if b {
        1
    } else {
        0
    }
}

/// The state after the program counter skips one further instruction.
pub open spec fn skip_next(s: VmState) -> VmState {
    VmState { pc: wrap_addr(s.pc as int, 2) as u16, ..s }
}

/// The program counter rewound by one instruction, as the blocking key-wait
/// does to re-execute itself.
pub open spec fn rewind_pc(pc: u16) -> u16 {
    if pc >= 2 {
        (pc - 2) as u16
    } else {
        (pc + 4094) as u16
    }
}

/// Memory after the registers `0 ..= count - 1` are stored at consecutive
/// addresses from `base` on, wrapped to the address space.
pub open spec fn store_regs_ram(ram: Seq<u8>, regs: Seq<u8>, base: int, count: int) -> Seq<u8>
    decreases count,
{
    if count <= 0 {
        ram
    } else {
        store_regs_ram(ram, regs, base, count - 1).update(
            wrap_addr(base, count - 1),
            regs[count - 1],
        )
    }
}

/// Whether the pixel at column `px`, row `py` lies under a sprite drawn
/// with its top-left corner at column `sx`, row `sy` and the given height:
/// sprites are 8 pixels wide, and clip at the right and bottom edges.
pub open spec fn sprite_covers(sx: int, sy: int, height: int, px: int, py: int) -> bool {
    &&& sx <= px < sx + 8
    &&& px < 64
    &&& sy <= py < sy + height
    &&& py < 32
}

/// Bit `c` of a sprite row, most significant first, as a pixel.
pub open spec fn sprite_row_bit(row_byte: u8, c: int) -> bool {
    (row_byte >> ((7 - c) as u8)) & 1 == 1
}

/// The sprite pixel that lands on column `px`, row `py`: bit `px - sx` of
/// the sprite row read from memory at the index register plus `py - sy`.
pub open spec fn sprite_pixel(s: VmState, sx: int, sy: int, px: int, py: int) -> bool {
    sprite_row_bit(s.ram[wrap_addr(s.index as int, py - sy)], px - sx)
}

/// The display after a sprite is drawn at column `sx`, row `sy`: every
/// covered cell is toggled by the sprite pixel that lands on it (XOR);
/// every other cell keeps its value.
pub open spec fn draw_vram(s: VmState, sx: int, sy: int, height: int) -> Seq<bool> {
    Seq::new(
        2048,
        |p: int|
            if sprite_covers(sx, sy, height, p % 64, p / 64) {
                s.vram[p] != sprite_pixel(s, sx, sy, p % 64, p / 64)
            } else {
                s.vram[p]
            },
    )
}

/// Whether the drawn sprite collides: some covered cell is lit and the
/// sprite pixel landing on it is set, so drawing turns it off.
pub open spec fn draw_collision(s: VmState, sx: int, sy: int, height: int) -> bool {
    exists|px: int, py: int|
        sprite_covers(sx, sy, height, px, py) && sprite_pixel(s, sx, sy, px, py) && s.vram[py * 64
            + px]
}

/// The state transition of one decoded operation, applied to a state whose
/// program counter has already advanced past the instruction.  `rnd` is the
/// random byte consumed by the random operation and ignored by every other;
/// the two stack errors are the only failures.
pub open spec fn apply_op(s: VmState, op: Operation, rnd: u8) -> Result<VmState, Chip8Error> {
    match op {
        Operation::CallMachineCodeRoutineAt { address } => Ok(s),
        Operation::ClearScreen => Ok(
            VmState { vram: Seq::new(2048, |p: int| false), vram_changed: true, ..s },
        ),
        Operation::ReturnFromSubroutine => {
            if s.stack.len() == 0 {
                Err(Chip8Error::StackUnderflow)
            } else {
                Ok(VmState { pc: s.stack.last(), stack: s.stack.drop_last(), ..s })
            }
        },
        Operation::JumpTo { address } => Ok(VmState { pc: address, ..s }),
        Operation::CallSubroutineAt { address } => {
            if s.stack.len() >= 16 {
                Err(Chip8Error::StackOverflow)
            } else {
                Ok(VmState { pc: address, stack: s.stack.push(s.pc), ..s })
            }
        },
        Operation::SkipNextInstructionIfVXEquals { x, value } => Ok(
            if s.regs[x as int] == value {
                skip_next(s)
            } else {
                s
            },
        ),
        Operation::SkipNextInstructionIfVXNotEquals { x, value } => Ok(
            if s.regs[x as int] != value {
                skip_next(s)
            } else {
                s
            },
        ),
        Operation::SkipNextInstructionIfVXEqualsVY { x, y } => Ok(
            if s.regs[x as int] == s.regs[y as int] {
                skip_next(s)
            } else {
                s
            },
        ),
        Operation::SetVXTo { x, value } => Ok(
            VmState { regs: s.regs.update(x as int, value), ..s },
        ),
        Operation::AddToVX { x, value } => Ok(
            VmState {
                regs: s.regs.update(x as int, ((s.regs[x as int] + value) % 256) as u8),
                ..s
            },
        ),
        Operation::SetVXToVY { x, y } => Ok(
            VmState { regs: s.regs.update(x as int, s.regs[y as int]), ..s },
        ),
        Operation::SetVXToVXOrVY { x, y } => Ok(
            VmState { regs: s.regs.update(x as int, s.regs[x as int] | s.regs[y as int]), ..s },
        ),
        Operation::SetVXToVXAndVY { x, y } => Ok(
            VmState { regs: s.regs.update(x as int, s.regs[x as int] & s.regs[y as int]), ..s },
        ),
        Operation::SetVXToVXXorVY { x, y } => Ok(
            VmState { regs: s.regs.update(x as int, s.regs[x as int] ^ s.regs[y as int]), ..s },
        ),
        Operation::AddVYToVX { x, y } => Ok(
            VmState {
                regs: s.regs.update(
                    x as int,
                    ((s.regs[x as int] + s.regs[y as int]) % 256) as u8,
                ).update(15, flag_value(s.regs[x as int] + s.regs[y as int] > 255)),
                ..s
            },
        ),
        Operation::SubtractVYFromVX { x, y } => Ok(
            VmState {
                regs: s.regs.update(
                    x as int,
                    ((s.regs[x as int] - s.regs[y as int] + 256) % 256) as u8,
                ).update(15, flag_value(s.regs[x as int] >= s.regs[y as int])),
                ..s
            },
        ),
        Operation::RightShiftVX { x, y } => {
            let operand = if s.super_chip {
                s.regs[x as int]
            } else {
                s.regs[y as int]
            };
            Ok(
                VmState {
                    regs: s.regs.update(x as int, operand >> 1).update(15, operand & 1),
                    ..s
                },
            )
        },
        Operation::SubtractVXFromVY { x, y } => Ok(
            VmState {
                regs: s.regs.update(
                    x as int,
                    ((s.regs[y as int] - s.regs[x as int] + 256) % 256) as u8,
                ).update(15, flag_value(s.regs[y as int] >= s.regs[x as int])),
                ..s
            },
        ),
        Operation::LeftShiftVX { x, y } => {
            let operand = if s.super_chip {
                s.regs[x as int]
            } else {
                s.regs[y as int]
            };
            Ok(
                VmState {
                    regs: s.regs.update(x as int, operand << 1).update(
                        15,
                        (operand >> 7) & 1,
                    ),
                    ..s
                },
            )
        },
        Operation::SkipNextInstructionIfVXNotEqualsVY { x, y } => Ok(
            if s.regs[x as int] != s.regs[y as int] {
                skip_next(s)
            } else {
                s
            },
        ),
        Operation::SetITo { address } => Ok(VmState { index: address, ..s }),
        Operation::JumpToPlusV0 { address } => Ok(
            VmState { pc: wrap_addr(address as int, s.regs[0] as int) as u16, ..s },
        ),
        Operation::JumpToPlusVX { x, address } => Ok(
            VmState { pc: wrap_addr(address as int, s.regs[x as int] as int) as u16, ..s },
        ),
        Operation::SetVXToVXAndRandomNumber { x, value } => Ok(
            VmState { regs: s.regs.update(x as int, rnd & value), ..s },
        ),
        Operation::DrawSpriteAt { x, y, height } => {
            let sx = (s.regs[x as int] % 64) as int;
            let sy = (s.regs[y as int] % 32) as int;
            Ok(
                VmState {
                    vram: draw_vram(s, sx, sy, height as int),
                    vram_changed: true,
                    regs: s.regs.update(
                        15,
                        flag_value(draw_collision(s, sx, sy, height as int)),
                    ),
                    ..s
                },
            )
        },
        // The low nibble of VX names the key to test, as it names the
        // character in the glyph-address operation.
        Operation::SkipNextInstructionIfKeyInVXPressed { x } => Ok(
            if s.key == Some((s.regs[x as int] & 0x0F) as u8) {
                skip_next(s)
            } else {
                s
            },
        ),
        Operation::SkipNextInstructionIfKeyInVXNotPressed { x } => Ok(
            if s.key != Some((s.regs[x as int] & 0x0F) as u8) {
                skip_next(s)
            } else {
                s
            },
        ),
        Operation::SetVXToDelayTimer { x } => Ok(
            VmState { regs: s.regs.update(x as int, s.delay), ..s },
        ),
        Operation::AwaitKeyPress { x } => Ok(
            match s.key {
                Some(k) => VmState { regs: s.regs.update(x as int, k), ..s },
                None => VmState { pc: rewind_pc(s.pc), ..s },
            },
        ),
        Operation::SetDelayTimerToVX { x } => Ok(VmState { delay: s.regs[x as int], ..s }),
        Operation::SetSoundTimerToVX { x } => Ok(VmState { sound: s.regs[x as int], ..s }),
        Operation::AddVXToI { x } => Ok(
            VmState {
                index: wrap_addr(s.index as int, s.regs[x as int] as int) as u16,
                regs: if s.index_overflow_flag {
                    s.regs.update(15, flag_value(s.index + s.regs[x as int] > 4095))
                } else {
                    s.regs
                },
                ..s
            },
        ),
        Operation::SetIToSpriteLocationForCharacterInVX { x } => Ok(
            VmState {
                index: (FONT_BASE + GLYPH_HEIGHT * ((s.regs[x as int] & 0x0F) as u16)) as u16,
                ..s
            },
        ),
        Operation::StoreBinaryCodedDecimalOfVX { x } => {
            let n = s.regs[x as int];
            Ok(
                VmState {
                    ram: s.ram.update(s.index as int, n / 100).update(
                        wrap_addr(s.index as int, 1),
                        (n % 100) / 10,
                    ).update(wrap_addr(s.index as int, 2), n % 10),
                    ..s
                },
            )
        },
        Operation::StoreFromV0ToVX { x } => Ok(
            VmState {
                ram: store_regs_ram(s.ram, s.regs, s.index as int, x as int + 1),
                index: if s.super_chip {
                    s.index
                } else {
                    wrap_addr(s.index as int, x as int + 1) as u16
                },
                ..s
            },
        ),
        Operation::FillFromV0ToVX { x } => Ok(
            VmState {
                regs: Seq::new(
                    16,
                    |n: int|
                        if n <= x {
                            s.ram[wrap_addr(s.index as int, n)]
                        } else {
                            s.regs[n]
                        },
                ),
                index: if s.super_chip {
                    s.index
                } else {
                    wrap_addr(s.index as int, x as int + 1) as u16
                },
                ..s
            },
        ),
    }
}

/// Whether a full timer period has elapsed since the timers last counted
/// down.
pub open spec fn timer_due(s: VmState, now: u64) -> bool {
    now >= s.last_timer_micros + TIMER_PERIOD_MICROS
}

/// One count down, stopping at zero.
pub open spec fn dec_timer(t: u8) -> u8 {
    if t > 0 {
        (t - 1) as u8
    } else {
        0
    }
}

/// The timer subsystem after one execution step at real time `now`: when a
/// period has elapsed, both non-zero timers count down once and the
/// reference time resets; otherwise nothing changes.
pub open spec fn tick_timers(s: VmState, now: u64) -> VmState {
    if timer_due(s, now) {
        VmState {
            delay: dec_timer(s.delay),
            sound: dec_timer(s.sound),
            last_timer_micros: now,
            ..s
        }
    } else {
        s
    }
}

/// Whether this step owes the host a beep pulse: the sound timer counts
/// down from a non-zero value in this step.
pub open spec fn beep_due(s: VmState, now: u64) -> bool {
    timer_due(s, now) && s.sound > 0
}

/// The instruction word at the program counter: two consecutive memory
/// bytes, big-endian, the second address wrapped to the address space.
pub open spec fn fetch_instr(s: VmState) -> u16 {
    ((s.ram[s.pc as int] as u16) << 8) | (s.ram[wrap_addr(s.pc as int, 1)] as u16)
}

/// The state after a fetch: the program counter has advanced past the
/// instruction word.
pub open spec fn advance_pc(s: VmState) -> VmState {
    VmState { pc: wrap_addr(s.pc as int, 2) as u16, ..s }
}

/// One whole execution step at real time `now` with random byte `rnd`:
/// the timers advance, one instruction is fetched, decoded and applied.
/// Yields the state after the step and what the step returns to the host:
/// the redraw and beep signals, or the error.  A decode or stack error
/// leaves everything but the timers and the program counter untouched.
pub open spec fn spec_tick(s: VmState, now: u64, rnd: u8) -> (VmState, Result<
    (bool, bool),
    Chip8Error,
>) {
    let t = tick_timers(s, now);
    let beep = beep_due(s, now);
    let fetched = advance_pc(t);
    match crate::operation::spec_decode(fetch_instr(t), s.super_chip) {
        None => (fetched, Err(Chip8Error::UnknownInstruction(fetch_instr(t)))),
        Some(op) => match apply_op(fetched, op, rnd) {
            Ok(s2) => (s2, Ok((s2.vram_changed, beep))),
            Err(e) => (fetched, Err(e)),
        },
    }
}

/// Memory as construction leaves it: the glyph table from `FONT_BASE` on,
/// the program image from `PROGRAM_BASE` on, zero everywhere else.
pub open spec fn initial_ram(rom: Seq<u8>) -> Seq<u8> {
    Seq::new(
        4096,
        |a: int|
            if FONT_BASE <= a < FONT_BASE + 80 {
                spec_font()[a - FONT_BASE]
            } else if PROGRAM_BASE <= a < PROGRAM_BASE + rom.len() {
                rom[a - PROGRAM_BASE]
            } else {
                0u8
            },
    )
}

/// The whole machine as construction leaves it: memory holds the glyph
/// table and the program, execution starts at the program base, and every
/// register, timer, display cell and the input latch is clear.
pub open spec fn initial_state(rom: Seq<u8>, super_chip: bool, index_overflow_flag: bool) -> VmState {
    VmState {
        ram: initial_ram(rom),
        pc: 0x200,
        index: 0,
        stack: Seq::empty(),
        regs: Seq::new(16, |n: int| 0u8),
        vram: Seq::new(2048, |p: int| false),
        vram_changed: false,
        delay: 0,
        sound: 0,
        key: None,
        super_chip,
        index_overflow_flag,
        last_timer_micros: 0,
    }
}

/// Every operation with in-range fields preserves well-formedness.
pub proof fn lemma_apply_op_wf(s: VmState, op: Operation, rnd: u8)
    requires
        s.wf(),
        op.wf(),
    ensures
        (apply_op(s, op, rnd) matches Ok(s2) ==> s2.wf()),
{
    if let Operation::StoreFromV0ToVX { x } = op {
        lemma_store_regs_ram_len(s.ram, s.regs, s.index as int, x as int + 1);
    }
}

/// Row-major coordinates round-trip: the cell index built from a column and
/// a row decomposes back into them.
pub proof fn lemma_pos_coords(px: int, py: int)
    requires
        0 <= px < 64,
        0 <= py < 32,
    ensures
        0 <= py * 64 + px < 2048,
        (py * 64 + px) % 64 == px,
        (py * 64 + px) / 64 == py,
{
    assert(0 <= py * 64 + px < 2048 && (py * 64 + px) % 64 == px && (py * 64 + px) / 64 == py)
        by (nonlinear_arith)
        requires
            0 <= px < 64,
            0 <= py < 32,
    ;
}

/// Storing registers into memory keeps its size.
pub proof fn lemma_store_regs_ram_len(ram: Seq<u8>, regs: Seq<u8>, base: int, count: int)
    requires
        ram.len() == 4096,
        0 <= base < 4096,
        0 <= count <= 16,
    ensures
        store_regs_ram(ram, regs, base, count).len() == 4096,
    decreases count,
{
    if count > 0 {
        lemma_store_regs_ram_len(ram, regs, base, count - 1);
    }
}

/// Looking a stored register back up: inside the stored window, memory
/// holds the registers.
pub proof fn lemma_store_regs_ram_lookup(
    ram: Seq<u8>,
    regs: Seq<u8>,
    base: int,
    count: int,
    k: int,
)
    requires
        ram.len() == 4096,
        0 <= base < 4096,
        0 <= k < count <= 16,
    ensures
        store_regs_ram(ram, regs, base, count)[wrap_addr(base, k)] == regs[k],
    decreases count,
{
    lemma_store_regs_ram_len(ram, regs, base, count - 1);
    if k < count - 1 {
        lemma_store_regs_ram_lookup(ram, regs, base, count - 1, k);
    }
}

/// Outside the stored window, memory keeps its bytes.
pub proof fn lemma_store_regs_ram_untouched(
    ram: Seq<u8>,
    regs: Seq<u8>,
    base: int,
    count: int,
    a: int,
)
    requires
        ram.len() == 4096,
        0 <= base < 4096,
        0 <= count <= 16,
        0 <= a < 4096,
        forall|k: int| 0 <= k < count ==> a != wrap_addr(base, k),
    ensures
        store_regs_ram(ram, regs, base, count)[a] == ram[a],
    decreases count,
{
    if count > 0 {
        lemma_store_regs_ram_untouched(ram, regs, base, count - 1, a);
        lemma_store_regs_ram_len(ram, regs, base, count - 1);
    }
}

/// Wrapped offsets compose, as long as the combined offset stays within one
/// wrap of the address space.
pub proof fn lemma_wrap_compose(base: int, a: int, b: int)
    requires
        0 <= base < 4096,
        0 <= a,
        0 <= b,
        a + b <= 4096,
    ensures
        wrap_addr(wrap_addr(base, a), b) == wrap_addr(base, a + b),
{
}

} // verus!
