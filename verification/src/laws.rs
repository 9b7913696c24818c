//! Laws of the machine: theorems that relate several operations, stated
//! over the model of [`crate::state`] and proved once and for all.

use vstd::prelude::*;

verus! {

use crate::operation::{Chip8Error, Operation};
use crate::state::{
    apply_op, draw_collision, flag_value, lemma_apply_op_wf, lemma_pos_coords,
    lemma_store_regs_ram_len, lemma_store_regs_ram_lookup, lemma_store_regs_ram_untouched,
    lemma_wrap_compose, sprite_covers, sprite_pixel, wrap_addr, VmState,
};

/// The state an operation leaves behind; meaningful for steps that do not
/// fail.
pub open spec fn applied(s: VmState, op: Operation) -> VmState {
    apply_op(s, op, 0)->Ok_0
}

/// The flag conventions of register arithmetic: adding `VY` to `VX` sets
/// the flag register to 1 exactly when the unsigned 8-bit sum overflows,
/// and subtracting `VY` from `VX` sets it to 1 exactly when no borrow
/// occurs, that is, when `VX >= VY`.
pub proof fn lemma_arithmetic_flag_conventions(s: VmState, x: u8, y: u8)
    requires
        s.wf(),
        x < 16,
        y < 16,
    ensures
        applied(s, (Operation::AddVYToVX { x, y })).regs[15] == flag_value(
            s.regs[x as int] + s.regs[y as int] > 255,
        ),
        applied(s, (Operation::SubtractVYFromVX { x, y })).regs[15] == flag_value(
            s.regs[x as int] >= s.regs[y as int],
        ),
{
}

/// The column where a sprite drawn at `VX` starts: the coordinate wraps.
pub open spec fn start_col(s: VmState, x: u8) -> int {
    (s.regs[x as int] % 64) as int
}

/// The row where a sprite drawn at `VY` starts: the coordinate wraps.
pub open spec fn start_row(s: VmState, y: u8) -> int {
    (s.regs[y as int] % 32) as int
}

/// Clearing the display and then drawing a sprite: the dirty flag is set,
/// every covered cell shows exactly the sprite's own pixel, and every other
/// cell stays dark.  Drawing the same sprite once more at the same place
/// restores the cleared display, and reports a collision exactly when the
/// sprite has some visible pixel set.
///
/// The sprite's position registers must not be the flag register itself:
/// the first draw overwrites the flag, which would move the second sprite.
pub proof fn lemma_draw_xor_involution(s: VmState, x: u8, y: u8, height: u8)
    requires
        s.wf(),
        x < 16,
        y < 16,
        height < 16,
        x != 15,
        y != 15,
    ensures
        applied(applied(s, Operation::ClearScreen), (Operation::DrawSpriteAt { x, y, height }))
            .vram_changed,
        forall|px: int, py: int|
            sprite_covers(start_col(s, x), start_row(s, y), height as int, px, py) ==> applied(
                applied(s, Operation::ClearScreen),
                (Operation::DrawSpriteAt { x, y, height }),
            ).vram[py * 64 + px] == sprite_pixel(
                applied(s, Operation::ClearScreen),
                start_col(s, x),
                start_row(s, y),
                px,
                py,
            ),
        forall|p: int|
            0 <= p < 2048 && !sprite_covers(start_col(s, x), start_row(s, y), height as int, p % 64, p / 64)
                ==> !applied(
                applied(s, Operation::ClearScreen),
                (Operation::DrawSpriteAt { x, y, height }),
            ).vram[p],
        forall|p: int|
            0 <= p < 2048 ==> !applied(
                applied(applied(s, Operation::ClearScreen), (Operation::DrawSpriteAt { x, y, height })),
                (Operation::DrawSpriteAt { x, y, height }),
            ).vram[p],
        applied(
            applied(applied(s, Operation::ClearScreen), (Operation::DrawSpriteAt { x, y, height })),
            (Operation::DrawSpriteAt { x, y, height }),
        ).regs[15] == flag_value(
            exists|px: int, py: int|
                sprite_covers(start_col(s, x), start_row(s, y), height as int, px, py)
                    && sprite_pixel(
                    applied(s, Operation::ClearScreen),
                    start_col(s, x),
                    start_row(s, y),
                    px,
                    py,
                ),
        ),
{
    let op = Operation::DrawSpriteAt { x, y, height };
    let c = applied(s, Operation::ClearScreen);
    let d1 = applied(c, op);
    let d2 = applied(d1, op);
    let scol = start_col(s, x);
    let srow = start_row(s, y);
    let h = height as int;
    assert(c.regs == s.regs);
    assert(d1.regs[x as int] == c.regs[x as int]);
    assert(d1.regs[y as int] == c.regs[y as int]);
    assert forall|px: int, py: int|
        sprite_covers(scol, srow, h, px, py) implies d1.vram[py * 64 + px] == sprite_pixel(
        c,
        scol,
        srow,
        px,
        py,
    ) by {
        lemma_pos_coords(px, py);
    }
    assert forall|p: int| 0 <= p < 2048 implies !d2.vram[p] by {
        let px = p % 64;
        let py = p / 64;
        if sprite_covers(scol, srow, h, px, py) {
            lemma_pos_coords(px, py);
            assert(p == py * 64 + px);
            assert(d1.vram[p] == sprite_pixel(c, scol, srow, px, py));
            assert(sprite_pixel(d1, scol, srow, px, py) == sprite_pixel(c, scol, srow, px, py));
        }
    }
    assert(draw_collision(d1, scol, srow, h) <==> (exists|px: int, py: int|
        sprite_covers(scol, srow, h, px, py) && sprite_pixel(c, scol, srow, px, py))) by {
        if draw_collision(d1, scol, srow, h) {
            let (px, py) = choose|px: int, py: int|
                sprite_covers(scol, srow, h, px, py) && sprite_pixel(d1, scol, srow, px, py)
                    && d1.vram[py * 64 + px];
            assert(sprite_covers(scol, srow, h, px, py) && sprite_pixel(c, scol, srow, px, py));
        }
        if exists|px: int, py: int|
            sprite_covers(scol, srow, h, px, py) && sprite_pixel(c, scol, srow, px, py) {
            let (px, py) = choose|px: int, py: int|
                sprite_covers(scol, srow, h, px, py) && sprite_pixel(c, scol, srow, px, py);
            lemma_pos_coords(px, py);
            assert(d1.vram[py * 64 + px] == sprite_pixel(c, scol, srow, px, py));
            assert(sprite_covers(scol, srow, h, px, py) && sprite_pixel(d1, scol, srow, px, py)
                && d1.vram[py * 64 + px]);
        }
    }
}

/// Storing `V0 ..= VX` and then filling `V0 ..= VX` right back, under the
/// modern quirk: every register keeps its value and the index register is
/// left unchanged by both steps.
pub proof fn lemma_store_then_fill_modern(s: VmState, x: u8)
    requires
        s.wf(),
        x < 16,
        s.super_chip,
    ensures
        applied(
            applied(s, (Operation::StoreFromV0ToVX { x })),
            (Operation::FillFromV0ToVX { x }),
        ).regs == s.regs,
        applied(
            applied(s, (Operation::StoreFromV0ToVX { x })),
            (Operation::FillFromV0ToVX { x }),
        ).index == s.index,
{
    let s1 = applied(s, (Operation::StoreFromV0ToVX { x }));
    let s2 = applied(s1, (Operation::FillFromV0ToVX { x }));
    let base = s.index as int;
    assert forall|n: int| 0 <= n <= x implies s1.ram[wrap_addr(base, n)] == s.regs[n] by {
        lemma_store_regs_ram_lookup(s.ram, s.regs, base, x as int + 1, n);
    }
    assert(s2.regs =~= s.regs);
}

/// Storing `V0 ..= VX` and then filling `V0 ..= VX` right back, under the
/// legacy quirk: each step advances the index register past the block, so
/// the fill reads the block after the stored one.  The registers are
/// restored exactly when that block already mirrored them, and the index
/// register ends up advanced by both steps together.
pub proof fn lemma_store_then_fill_legacy(s: VmState, x: u8)
    requires
        s.wf(),
        x < 16,
        !s.super_chip,
        forall|n: int|
            0 <= n <= x ==> s.ram[wrap_addr(s.index as int, x as int + 1 + n)] == s.regs[n],
    ensures
        applied(
            applied(s, (Operation::StoreFromV0ToVX { x })),
            (Operation::FillFromV0ToVX { x }),
        ).regs == s.regs,
        applied(
            applied(s, (Operation::StoreFromV0ToVX { x })),
            (Operation::FillFromV0ToVX { x }),
        ).index as int == wrap_addr(s.index as int, 2 * (x as int + 1)),
{
    let s1 = applied(s, (Operation::StoreFromV0ToVX { x }));
    let s2 = applied(s1, (Operation::FillFromV0ToVX { x }));
    let base = s.index as int;
    let count = x as int + 1;
    lemma_store_regs_ram_len(s.ram, s.regs, base, count);
    assert(s1.index as int == wrap_addr(base, count));
    assert forall|n: int| 0 <= n <= x implies s1.ram[wrap_addr(s1.index as int, n)]
        == s.regs[n] by {
        lemma_wrap_compose(base, count, n);
        assert(wrap_addr(s1.index as int, n) == wrap_addr(base, count + n));
        assert forall|k: int| 0 <= k < count implies wrap_addr(base, count + n) != #[trigger] wrap_addr(
            base,
            k,
        ) by {}
        lemma_store_regs_ram_untouched(s.ram, s.regs, base, count, wrap_addr(base, count + n));
    }
    assert(s2.regs =~= s.regs);
    lemma_wrap_compose(base, count, count);
}

/// The states reached by a chain of subroutine calls at the given
/// addresses, applied first to last.
pub open spec fn apply_calls(s: VmState, addresses: Seq<u16>) -> Result<VmState, Chip8Error>
    decreases addresses.len(),
{
    if addresses.len() == 0 {
        Ok(s)
    } else {
        match apply_op(s, (Operation::CallSubroutineAt { address: addresses[0] }), 0) {
            Ok(s1) => apply_calls(s1, addresses.drop_first()),
            Err(e) => Err(e),
        }
    }
}

/// The state reached by `count` returns in a row.
pub open spec fn apply_returns(s: VmState, count: int) -> Result<VmState, Chip8Error>
    decreases count,
{
    if count <= 0 {
        Ok(s)
    } else {
        match apply_returns(s, count - 1) {
            Ok(s1) => apply_op(s1, Operation::ReturnFromSubroutine, 0),
            Err(e) => Err(e),
        }
    }
}

/// Call and return are balanced: any chain of nested calls that fits the
/// stack, followed by as many returns, brings the machine back to exactly
/// the state it started from — the program counter included.
pub proof fn lemma_calls_then_returns_balance(s: VmState, addresses: Seq<u16>)
    requires
        s.wf(),
        s.stack.len() + addresses.len() <= 16,
        forall|k: int| 0 <= k < addresses.len() ==> addresses[k] < 4096,
    ensures
        (apply_calls(s, addresses) matches Ok(t) && apply_returns(t, addresses.len() as int)
            == Ok::<VmState, Chip8Error>(s)),
    decreases addresses.len(),
{
    if addresses.len() > 0 {
        let op = Operation::CallSubroutineAt { address: addresses[0] };
        let s1 = applied(s, op);
        lemma_apply_op_wf(s, op, 0);
        assert(forall|k: int| 0 <= k < addresses.drop_first().len() ==> addresses.drop_first()[k]
            < 4096);
        lemma_calls_then_returns_balance(s1, addresses.drop_first());
        let t = apply_calls(s1, addresses.drop_first())->Ok_0;
        assert(apply_returns(t, addresses.len() as int - 1) == Ok::<VmState, Chip8Error>(s1));
        assert(s1.stack.last() == s.pc);
        assert(s1.stack.drop_last() =~= s.stack);
        let back = applied(s1, Operation::ReturnFromSubroutine);
        assert(back =~= s);
    }
}

/// One return more than there were calls underflows: after a balanced
/// chain of calls and returns on a machine whose stack began empty, the
/// next return is a `StackUnderflow` error.
pub proof fn lemma_unbalanced_return_underflows(s: VmState, addresses: Seq<u16>)
    requires
        s.wf(),
        s.stack.len() == 0,
        addresses.len() <= 16,
        forall|k: int| 0 <= k < addresses.len() ==> addresses[k] < 4096,
    ensures
        (apply_calls(s, addresses) matches Ok(t) && apply_returns(t, addresses.len() as int + 1)
            == Err::<VmState, Chip8Error>(Chip8Error::StackUnderflow)),
{
    lemma_calls_then_returns_balance(s, addresses);
}

} // verus!
