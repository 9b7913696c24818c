// Whole-machine behavior: construction, arithmetic, control flow, memory
// and key handling, driven through small programs.

use chip8::cpu::Cpu;
use chip8::operation::Chip8Error;

fn rom(words: &[u16]) -> Vec<u8> {
    let mut bytes = Vec::new();
    for w in words {
        bytes.push((w >> 8) as u8);
        bytes.push((w & 0xFF) as u8);
    }
    bytes
}

fn boot(words: &[u16], super_chip: bool) -> Cpu {
    Cpu::new(rom(words), super_chip).expect("program fits")
}

fn run(cpu: &mut Cpu, steps: usize) {
    for _ in 0..steps {
        cpu.tick_at(0).expect("step succeeds");
    }
}

#[test]
fn construction_rejects_oversized_programs() {
    assert!(matches!(
        Cpu::new(vec![0u8; 3585], false),
        Err(Chip8Error::OversizedProgram)
    ));
    let cpu = Cpu::new(vec![0xA5u8; 3584], false).expect("largest image fits");
    assert_eq!(cpu.memory_byte(0x200), 0xA5);
    assert_eq!(cpu.memory_byte(0xFFF), 0xA5);
}

#[test]
fn construction_lays_out_memory() {
    let cpu = boot(&[0x1234], false);
    assert_eq!(cpu.program_counter(), 0x200);
    assert_eq!(cpu.index_register(), 0);
    assert_eq!(cpu.stack_depth(), 0);
    assert_eq!(cpu.delay_timer(), 0);
    assert_eq!(cpu.sound_timer(), 0);
    // Glyph table boundaries.
    assert_eq!(cpu.memory_byte(0x50), 0xF0);
    assert_eq!(cpu.memory_byte(0x9F), 0x80);
    assert_eq!(cpu.memory_byte(0x4F), 0x00);
    assert_eq!(cpu.memory_byte(0xA0), 0x00);
    // Program image.
    assert_eq!(cpu.memory_byte(0x200), 0x12);
    assert_eq!(cpu.memory_byte(0x201), 0x34);
    assert_eq!(cpu.memory_byte(0x202), 0x00);
    for x in 0..16 {
        assert_eq!(cpu.register(x), 0);
    }
}

#[test]
fn set_then_add_immediate() {
    // Set V0 to 5, add 5: V0 is 10 and the flag register stays untouched.
    let mut cpu = boot(&[0x6005, 0x7005], false);
    run(&mut cpu, 2);
    assert_eq!(cpu.register(0), 10);
    assert_eq!(cpu.register(0xF), 0);
    assert_eq!(cpu.program_counter(), 0x204);
}

#[test]
fn add_immediate_wraps_without_flag() {
    let mut cpu = boot(&[0x60FF, 0x7002], false);
    run(&mut cpu, 2);
    assert_eq!(cpu.register(0), 1);
    assert_eq!(cpu.register(0xF), 0);
}

#[test]
fn add_register_sets_flag_on_overflow() {
    let mut cpu = boot(&[0x60FF, 0x6101, 0x8014], false);
    run(&mut cpu, 3);
    assert_eq!(cpu.register(0), 0);
    assert_eq!(cpu.register(0xF), 1);

    let mut cpu = boot(&[0x6001, 0x6102, 0x8014], false);
    run(&mut cpu, 3);
    assert_eq!(cpu.register(0), 3);
    assert_eq!(cpu.register(0xF), 0);
}

#[test]
fn subtract_sets_flag_when_no_borrow() {
    let mut cpu = boot(&[0x6005, 0x6103, 0x8015], false);
    run(&mut cpu, 3);
    assert_eq!(cpu.register(0), 2);
    assert_eq!(cpu.register(0xF), 1);

    let mut cpu = boot(&[0x6003, 0x6105, 0x8015], false);
    run(&mut cpu, 3);
    assert_eq!(cpu.register(0), 254);
    assert_eq!(cpu.register(0xF), 0);
}

#[test]
fn reverse_subtract_uses_swapped_operands() {
    let mut cpu = boot(&[0x6003, 0x6105, 0x8017], false);
    run(&mut cpu, 3);
    assert_eq!(cpu.register(0), 2);
    assert_eq!(cpu.register(0xF), 1);
}

#[test]
fn bitwise_operations_leave_flag_alone() {
    let mut cpu = boot(&[0x60CC, 0x610A, 0x8011], false);
    run(&mut cpu, 3);
    assert_eq!(cpu.register(0), 0xCC | 0x0A);
    assert_eq!(cpu.register(0xF), 0);

    let mut cpu = boot(&[0x60CC, 0x610A, 0x8012], false);
    run(&mut cpu, 3);
    assert_eq!(cpu.register(0), 0xCC & 0x0A);

    let mut cpu = boot(&[0x60CC, 0x610A, 0x8013], false);
    run(&mut cpu, 3);
    assert_eq!(cpu.register(0), 0xCC ^ 0x0A);
}

#[test]
fn shifts_follow_the_quirk_mode() {
    // Modern: VX shifts in place, VY is ignored.
    let mut cpu = boot(&[0x6081, 0x6100, 0x8016], true);
    run(&mut cpu, 3);
    assert_eq!(cpu.register(0), 0x40);
    assert_eq!(cpu.register(0xF), 1);

    // Legacy: VX takes VY first.
    let mut cpu = boot(&[0x6081, 0x6106, 0x8016], false);
    run(&mut cpu, 3);
    assert_eq!(cpu.register(0), 3);
    assert_eq!(cpu.register(0xF), 0);

    // Left shift reports bit 7.
    let mut cpu = boot(&[0x6081, 0x801E], true);
    run(&mut cpu, 2);
    assert_eq!(cpu.register(0), 0x02);
    assert_eq!(cpu.register(0xF), 1);
}

#[test]
fn conditional_skips_advance_twice() {
    let mut cpu = boot(&[0x6007, 0x3007], false);
    run(&mut cpu, 2);
    assert_eq!(cpu.program_counter(), 0x206);

    let mut cpu = boot(&[0x6007, 0x3008], false);
    run(&mut cpu, 2);
    assert_eq!(cpu.program_counter(), 0x204);

    let mut cpu = boot(&[0x6007, 0x6107, 0x5010], false);
    run(&mut cpu, 3);
    assert_eq!(cpu.program_counter(), 0x208);

    let mut cpu = boot(&[0x6007, 0x6108, 0x9010], false);
    run(&mut cpu, 3);
    assert_eq!(cpu.program_counter(), 0x208);
}

#[test]
fn copy_register_and_not_equal_skip() {
    let mut cpu = boot(&[0x6137, 0x8010], false);
    run(&mut cpu, 2);
    assert_eq!(cpu.register(0), 0x37);

    let mut cpu = boot(&[0x6007, 0x4008], false);
    run(&mut cpu, 2);
    assert_eq!(cpu.program_counter(), 0x206);

    let mut cpu = boot(&[0x6007, 0x4007], false);
    run(&mut cpu, 2);
    assert_eq!(cpu.program_counter(), 0x204);
}

#[test]
fn key_skip_tests_the_low_nibble_of_vx() {
    let mut cpu = boot(&[0x6015, 0xE09E], false);
    cpu.tick_at(0).unwrap();
    cpu.press_key(5);
    cpu.tick_at(0).unwrap();
    assert_eq!(cpu.program_counter(), 0x206);
}

#[test]
fn jumps_follow_the_quirk_mode() {
    let mut cpu = boot(&[0x1234], false);
    run(&mut cpu, 1);
    assert_eq!(cpu.program_counter(), 0x234);

    // Legacy: jump to NNN plus V0.
    let mut cpu = boot(&[0x6001, 0x6205, 0xB210], false);
    run(&mut cpu, 3);
    assert_eq!(cpu.program_counter(), 0x211);

    // Modern: jump to NNN plus VX, here X = 2.
    let mut cpu = boot(&[0x6001, 0x6205, 0xB210], true);
    run(&mut cpu, 3);
    assert_eq!(cpu.program_counter(), 0x215);
}

#[test]
fn nested_calls_and_returns_balance() {
    let mut cpu = boot(
        &[
            0x2206, // 0x200: call 0x206
            0x1202, // 0x202: spin
            0x0000, // 0x204: padding
            0x220A, // 0x206: call 0x20A
            0x00EE, // 0x208: return to 0x202
            0x00EE, // 0x20A: return to 0x208
        ],
        false,
    );
    cpu.tick_at(0).unwrap();
    assert_eq!((cpu.program_counter(), cpu.stack_depth()), (0x206, 1));
    cpu.tick_at(0).unwrap();
    assert_eq!((cpu.program_counter(), cpu.stack_depth()), (0x20A, 2));
    cpu.tick_at(0).unwrap();
    assert_eq!((cpu.program_counter(), cpu.stack_depth()), (0x208, 1));
    cpu.tick_at(0).unwrap();
    assert_eq!((cpu.program_counter(), cpu.stack_depth()), (0x202, 0));
}

#[test]
fn return_on_empty_stack_underflows() {
    let mut cpu = boot(&[0x00EE], false);
    assert_eq!(cpu.tick_at(0), Err(Chip8Error::StackUnderflow));
}

#[test]
fn seventeenth_nested_call_overflows() {
    // The program calls its own address forever, growing the stack by one
    // per step until the capacity of 16 is exhausted.
    let mut cpu = boot(&[0x2200], false);
    for depth in 1..=16 {
        cpu.tick_at(0).expect("call fits the stack");
        assert_eq!(cpu.stack_depth(), depth);
    }
    assert_eq!(cpu.tick_at(0), Err(Chip8Error::StackOverflow));
    assert_eq!(cpu.stack_depth(), 16);
}

#[test]
fn unknown_instruction_is_reported_and_recoverable() {
    let mut cpu = boot(&[0xFFFF, 0x6009], false);
    assert_eq!(cpu.tick_at(0), Err(Chip8Error::UnknownInstruction(0xFFFF)));
    // The counter has moved past the bad word; the host may carry on.
    assert_eq!(cpu.program_counter(), 0x202);
    cpu.tick_at(0).unwrap();
    assert_eq!(cpu.register(0), 9);
}

#[test]
fn machine_code_routine_is_a_no_op() {
    let mut cpu = boot(&[0x0345], false);
    cpu.tick_at(0).unwrap();
    assert_eq!(cpu.program_counter(), 0x202);
    assert_eq!(cpu.index_register(), 0);
    assert_eq!(cpu.stack_depth(), 0);
    for x in 0..16 {
        assert_eq!(cpu.register(x), 0);
    }
}

#[test]
fn random_byte_is_masked_by_the_immediate() {
    let mut cpu = boot(&[0xC00F, 0xC100], false);
    run(&mut cpu, 2);
    assert_eq!(cpu.register(0) & 0xF0, 0);
    assert_eq!(cpu.register(1), 0);
}

#[test]
fn binary_coded_decimal_writes_three_digits() {
    let mut cpu = boot(&[0x607B, 0xA300, 0xF033], false);
    run(&mut cpu, 3);
    assert_eq!(cpu.memory_byte(0x300), 1);
    assert_eq!(cpu.memory_byte(0x301), 2);
    assert_eq!(cpu.memory_byte(0x302), 3);
}

#[test]
fn store_then_fill_restores_registers_in_modern_mode() {
    let mut cpu = boot(
        &[
            0xA300, // I = 0x300
            0x6011, // V0 = 0x11
            0x6122, // V1 = 0x22
            0xF155, // store V0..V1
            0x6000, // V0 = 0
            0x6100, // V1 = 0
            0xF165, // fill V0..V1
        ],
        true,
    );
    run(&mut cpu, 7);
    assert_eq!(cpu.memory_byte(0x300), 0x11);
    assert_eq!(cpu.memory_byte(0x301), 0x22);
    assert_eq!(cpu.register(0), 0x11);
    assert_eq!(cpu.register(1), 0x22);
    // Modern mode leaves the index register alone.
    assert_eq!(cpu.index_register(), 0x300);
}

#[test]
fn store_advances_index_in_legacy_mode() {
    let mut cpu = boot(&[0xA300, 0x6011, 0x6122, 0xF155], false);
    run(&mut cpu, 4);
    assert_eq!(cpu.memory_byte(0x300), 0x11);
    assert_eq!(cpu.memory_byte(0x301), 0x22);
    assert_eq!(cpu.index_register(), 0x302);
}

#[test]
fn store_then_fill_in_legacy_mode_reads_past_the_block() {
    // The store advances I past the block, so the fill reads the bytes
    // after it — here still zero — and the fill advances I once more.
    let mut cpu = boot(&[0xA300, 0x6011, 0x6122, 0xF155, 0xF165], false);
    run(&mut cpu, 5);
    assert_eq!(cpu.register(0), 0);
    assert_eq!(cpu.register(1), 0);
    assert_eq!(cpu.index_register(), 0x304);
}

#[test]
fn store_then_fill_restores_registers_in_legacy_mode_with_index_reset() {
    let mut cpu = boot(
        &[0xA300, 0x6011, 0x6122, 0xF155, 0x6000, 0x6100, 0xA300, 0xF165],
        false,
    );
    run(&mut cpu, 8);
    assert_eq!(cpu.register(0), 0x11);
    assert_eq!(cpu.register(1), 0x22);
    assert_eq!(cpu.index_register(), 0x302);
}

#[test]
fn add_register_to_index() {
    let mut cpu = boot(&[0x6005, 0xA100, 0xF01E], false);
    run(&mut cpu, 3);
    assert_eq!(cpu.index_register(), 0x105);
    assert_eq!(cpu.register(0xF), 0);
}

#[test]
fn index_overflow_quirk_reports_address_space_overflow() {
    let program = rom(&[0x60FF, 0xAFFF, 0xF01E]);
    let mut cpu = Cpu::new_with_quirks(program.clone(), false, true).unwrap();
    run(&mut cpu, 3);
    assert_eq!(cpu.index_register(), 0x0FE);
    assert_eq!(cpu.register(0xF), 1);

    // Without the quirk the flag register stays untouched.
    let mut cpu = Cpu::new_with_quirks(program, false, false).unwrap();
    run(&mut cpu, 3);
    assert_eq!(cpu.index_register(), 0x0FE);
    assert_eq!(cpu.register(0xF), 0);
}

#[test]
fn glyph_address_points_into_the_font() {
    let mut cpu = boot(&[0x600A, 0xF029], false);
    run(&mut cpu, 2);
    assert_eq!(cpu.index_register(), 0x50 + 5 * 0xA);
    // The low nibble selects the character.
    let mut cpu = boot(&[0x60A3, 0xF029], false);
    run(&mut cpu, 2);
    assert_eq!(cpu.index_register(), 0x50 + 5 * 3);
}

#[test]
fn key_skips_consult_the_latch() {
    let mut cpu = boot(&[0x6005, 0xE09E], false);
    cpu.tick_at(0).unwrap();
    cpu.press_key(5);
    cpu.tick_at(0).unwrap();
    assert_eq!(cpu.program_counter(), 0x206);

    let mut cpu = boot(&[0x6005, 0xE09E], false);
    cpu.tick_at(0).unwrap();
    cpu.press_key(6);
    cpu.tick_at(0).unwrap();
    assert_eq!(cpu.program_counter(), 0x204);

    let mut cpu = boot(&[0x6005, 0xE0A1], false);
    cpu.tick_at(0).unwrap();
    cpu.tick_at(0).unwrap();
    assert_eq!(cpu.program_counter(), 0x206);

    let mut cpu = boot(&[0x6005, 0xE0A1], false);
    cpu.tick_at(0).unwrap();
    cpu.press_key(5);
    cpu.release_key();
    cpu.tick_at(0).unwrap();
    assert_eq!(cpu.program_counter(), 0x206);
}

#[test]
fn await_key_rewinds_until_a_key_is_latched() {
    let mut cpu = boot(&[0xF00A, 0x6107], false);
    cpu.tick_at(0).unwrap();
    assert_eq!(cpu.program_counter(), 0x200);
    cpu.tick_at(0).unwrap();
    assert_eq!(cpu.program_counter(), 0x200);
    cpu.press_key(9);
    cpu.tick_at(0).unwrap();
    assert_eq!(cpu.register(0), 9);
    assert_eq!(cpu.program_counter(), 0x202);
    cpu.tick_at(0).unwrap();
    assert_eq!(cpu.register(1), 7);
}

#[test]
fn empty_program_runs_machine_code_no_ops() {
    // An empty image leaves memory zeroed, and 0x0000 is the legacy
    // machine-code routine: a no-op that still advances the counter.
    let mut cpu = Cpu::new(Vec::new(), false).expect("empty image fits");
    cpu.tick_at(0).unwrap();
    cpu.tick_at(0).unwrap();
    assert_eq!(cpu.program_counter(), 0x204);
}

#[test]
fn binary_coded_decimal_edge_values() {
    let mut cpu = boot(&[0x6000, 0xA300, 0xF033], false);
    run(&mut cpu, 3);
    assert_eq!(
        (cpu.memory_byte(0x300), cpu.memory_byte(0x301), cpu.memory_byte(0x302)),
        (0, 0, 0)
    );

    let mut cpu = boot(&[0x60FF, 0xA300, 0xF033], false);
    run(&mut cpu, 3);
    assert_eq!(
        (cpu.memory_byte(0x300), cpu.memory_byte(0x301), cpu.memory_byte(0x302)),
        (2, 5, 5)
    );
}

#[test]
fn timer_registers_copy_through_vx() {
    let mut cpu = boot(&[0x6030, 0xF015, 0xF207, 0x6140, 0xF118], false);
    run(&mut cpu, 5);
    assert_eq!(cpu.delay_timer(), 0x30);
    assert_eq!(cpu.register(2), 0x30);
    assert_eq!(cpu.sound_timer(), 0x40);
}
