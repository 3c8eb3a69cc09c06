use chip8::chip::{initialize_font, initialize_registers, Chip};
use chip8::error::ChipError;
use chip8::quirks::Quirks;
use chip8::state::{FONT, PROGRAM_START, RAM_SIZE, STACK_LIMIT};

#[test]
fn machine_constants() {
    assert_eq!(RAM_SIZE, 4096);
    assert_eq!(PROGRAM_START, 0x200);
    assert_eq!(STACK_LIMIT, 16);
    assert_eq!(FONT.len(), 80);
}

#[test]
fn fresh_machine_is_zeroed_but_for_the_font() {
    let chip = Chip::new();
    assert_eq!(chip.program_counter(), 0);
    assert_eq!(chip.index_register(), 0);
    assert_eq!(chip.delay_timer(), 0);
    assert_eq!(chip.sound_timer(), 0);
    assert_eq!(chip.stack_depth(), 0);
    assert_eq!(chip.current_key(), None);
    assert_eq!(chip.quirks(), Quirks::legacy());
    for x in 0u8..16 {
        assert_eq!(chip.register(x), 0);
    }
    for addr in 0..80 {
        assert_eq!(chip.memory_at(addr), FONT[addr]);
    }
    for addr in 80..4096 {
        assert_eq!(chip.memory_at(addr), 0);
    }
    assert!(chip.screen().data.iter().all(|cell| !*cell));
    assert!(chip.screen().redraw);
}

#[test]
fn default_machine_is_a_new_machine() {
    let chip = Chip::default();
    assert_eq!(chip.quirks(), Quirks::legacy());
    assert_eq!(chip.memory_at(0), 0xF0);
    assert_eq!(chip.program_counter(), 0);
}

#[test]
fn font_glyphs_are_five_bytes_each() {
    let memory = initialize_font();
    assert_eq!(&memory[0..5], &[0xF0, 0x90, 0x90, 0x90, 0xF0]);
    assert_eq!(&memory[5..10], &[0x20, 0x60, 0x20, 0x20, 0x70]);
    assert_eq!(&memory[50..55], &[0xF0, 0x90, 0xF0, 0x90, 0x90]);
    assert_eq!(&memory[75..80], &[0xF0, 0x80, 0xF0, 0x80, 0x80]);
    assert!(memory[80..].iter().all(|b| *b == 0));
    assert_eq!(initialize_registers(), [0u8; 16]);
}

#[test]
fn quirk_presets() {
    let legacy = Quirks::legacy();
    assert!(legacy.shift_uses_vy);
    assert!(!legacy.jump_uses_vx);
    assert!(legacy.memory_advances_index);
    assert!(legacy.index_overflow_flag);
    let modern = Quirks::modern();
    assert!(!modern.shift_uses_vy);
    assert!(modern.jump_uses_vx);
    assert!(!modern.memory_advances_index);
    assert!(!modern.index_overflow_flag);
}

#[test]
fn program_is_loaded_at_0x200() {
    let mut chip = Chip::new();
    assert_eq!(chip.load_program(&[0x12, 0x34, 0x56]), Ok(()));
    assert_eq!(chip.program_counter(), 0x200);
    assert_eq!(chip.memory_at(0x1FF), 0);
    assert_eq!(chip.memory_at(0x200), 0x12);
    assert_eq!(chip.memory_at(0x201), 0x34);
    assert_eq!(chip.memory_at(0x202), 0x56);
    assert_eq!(chip.memory_at(0x203), 0);
    assert_eq!(chip.memory_at(0), 0xF0);
}

#[test]
fn empty_program_loads() {
    let mut chip = Chip::new();
    assert_eq!(chip.load_program(&[]), Ok(()));
    assert_eq!(chip.program_counter(), 0x200);
    assert_eq!(chip.memory_at(0x200), 0);
}

#[test]
fn largest_program_fills_memory_to_the_end() {
    let mut chip = Chip::new();
    let program = vec![0xAB; 4096 - 512];
    assert_eq!(chip.load_program(&program), Ok(()));
    assert_eq!(chip.memory_at(0x200), 0xAB);
    assert_eq!(chip.memory_at(0xFFF), 0xAB);
    assert_eq!(chip.memory_at(0x1FF), 0);
}

#[test]
fn program_too_large_is_refused() {
    let mut chip = Chip::new();
    chip.jump(0x123);
    let program = vec![0xAB; 4096 - 512 + 1];
    assert_eq!(
        chip.load_program(&program),
        Err(ChipError::ProgramLoadError { size: 3585 })
    );
    assert_eq!(chip.program_counter(), 0x123);
    assert_eq!(chip.memory_at(0x200), 0);
    assert_eq!(chip.memory_at(0xFFF), 0);
}

#[test]
fn decimal_digits_of_234() {
    let mut chip = Chip::new();
    chip.set_value(5, 234);
    chip.set_index(0x300);
    chip.binary_coded_dec_conv(5);
    assert_eq!(chip.memory_at(0x300), 2);
    assert_eq!(chip.memory_at(0x301), 3);
    assert_eq!(chip.memory_at(0x302), 4);
    assert_eq!(chip.memory_at(0x2FF), 0);
    assert_eq!(chip.memory_at(0x303), 0);
    assert_eq!(chip.index_register(), 0x300);
}

#[test]
fn decimal_digits_of_small_and_large_values() {
    let mut chip = Chip::new();
    chip.set_index(0x300);
    chip.set_value(5, 7);
    chip.binary_coded_dec_conv(5);
    assert_eq!(
        (chip.memory_at(0x300), chip.memory_at(0x301), chip.memory_at(0x302)),
        (0, 0, 7)
    );
    chip.set_value(5, 255);
    chip.binary_coded_dec_conv(5);
    assert_eq!(
        (chip.memory_at(0x300), chip.memory_at(0x301), chip.memory_at(0x302)),
        (2, 5, 5)
    );
    chip.set_value(5, 100);
    chip.binary_coded_dec_conv(5);
    assert_eq!(
        (chip.memory_at(0x300), chip.memory_at(0x301), chip.memory_at(0x302)),
        (1, 0, 0)
    );
}

#[test]
fn decimal_digits_wrap_round_the_end_of_memory() {
    let mut chip = Chip::new();
    chip.set_index(0xFFF);
    chip.set_value(5, 123);
    chip.binary_coded_dec_conv(5);
    assert_eq!(chip.memory_at(0xFFF), 1);
    assert_eq!(chip.memory_at(0x000), 2);
    assert_eq!(chip.memory_at(0x001), 3);
}

#[test]
fn store_copies_registers_and_advances_index_under_legacy() {
    let mut chip = Chip::with_quirks(Quirks::legacy());
    for x in 0u8..16 {
        chip.set_value(x, 0xA0 + x);
    }
    chip.set_index(0x400);
    chip.store_memory(3);
    assert_eq!(chip.memory_at(0x400), 0xA0);
    assert_eq!(chip.memory_at(0x401), 0xA1);
    assert_eq!(chip.memory_at(0x402), 0xA2);
    assert_eq!(chip.memory_at(0x403), 0xA3);
    assert_eq!(chip.memory_at(0x404), 0);
    assert_eq!(chip.memory_at(0x3FF), 0);
    assert_eq!(chip.index_register(), 0x404);
}

#[test]
fn store_leaves_index_alone_under_modern() {
    let mut chip = Chip::with_quirks(Quirks::modern());
    chip.set_value(0, 0x11);
    chip.set_value(1, 0x22);
    chip.set_index(0x400);
    chip.store_memory(1);
    assert_eq!(chip.memory_at(0x400), 0x11);
    assert_eq!(chip.memory_at(0x401), 0x22);
    assert_eq!(chip.memory_at(0x402), 0);
    assert_eq!(chip.index_register(), 0x400);
}

#[test]
fn store_of_register_zero_alone() {
    let mut chip = Chip::new();
    chip.set_value(0, 0x7E);
    chip.set_value(1, 0x7F);
    chip.set_index(0x400);
    chip.store_memory(0);
    assert_eq!(chip.memory_at(0x400), 0x7E);
    assert_eq!(chip.memory_at(0x401), 0);
    assert_eq!(chip.index_register(), 0x401);
}

#[test]
fn load_fills_registers_from_memory() {
    let mut chip = Chip::with_quirks(Quirks::legacy());
    assert_eq!(chip.load_program(&[1, 2, 3, 4, 5]), Ok(()));
    chip.set_index(0x200);
    chip.set_value(3, 0x99);
    chip.load_memory(2);
    assert_eq!(chip.register(0), 1);
    assert_eq!(chip.register(1), 2);
    assert_eq!(chip.register(2), 3);
    assert_eq!(chip.register(3), 0x99);
    assert_eq!(chip.index_register(), 0x203);

    let mut modern = Chip::with_quirks(Quirks::modern());
    assert_eq!(modern.load_program(&[1, 2, 3, 4, 5]), Ok(()));
    modern.set_index(0x201);
    modern.load_memory(1);
    assert_eq!((modern.register(0), modern.register(1), modern.register(2)), (2, 3, 0));
    assert_eq!(modern.index_register(), 0x201);
}

#[test]
fn store_then_load_restores_all_registers() {
    let mut chip = Chip::with_quirks(Quirks::modern());
    for x in 0u8..16 {
        chip.set_value(x, 3 * x + 1);
    }
    chip.set_index(0x500);
    chip.store_memory(0xF);
    for x in 0u8..16 {
        chip.set_value(x, 0);
    }
    chip.load_memory(0xF);
    for x in 0u8..16 {
        assert_eq!(chip.register(x), 3 * x + 1);
    }
}

#[test]
fn store_wraps_round_the_end_of_memory() {
    let mut chip = Chip::with_quirks(Quirks::legacy());
    chip.set_value(0, 0x10);
    chip.set_value(1, 0x20);
    chip.set_value(2, 0x30);
    chip.set_index(0xFFE);
    chip.store_memory(2);
    assert_eq!(chip.memory_at(0xFFE), 0x10);
    assert_eq!(chip.memory_at(0xFFF), 0x20);
    assert_eq!(chip.memory_at(0x000), 0x30);
    assert_eq!(chip.index_register(), 0x001);
}

#[test]
fn set_index_keeps_twelve_bits() {
    let mut chip = Chip::new();
    chip.set_index(0x0ABC);
    assert_eq!(chip.index_register(), 0xABC);
    chip.set_index(0xFABC);
    assert_eq!(chip.index_register(), 0xABC);
}

#[test]
fn add_to_index_without_overflow() {
    let mut chip = Chip::with_quirks(Quirks::legacy());
    chip.set_index(0x100);
    chip.set_value(2, 0x20);
    chip.set_value(0xF, 9);
    chip.add_to_index(2);
    assert_eq!(chip.index_register(), 0x120);
    assert_eq!(chip.register(0xF), 0);
}

#[test]
fn add_to_index_flags_leaving_the_addressable_range() {
    let mut chip = Chip::with_quirks(Quirks::legacy());
    chip.set_index(0xFFF);
    chip.set_value(2, 1);
    chip.add_to_index(2);
    assert_eq!(chip.index_register(), 0x000);
    assert_eq!(chip.register(0xF), 1);

    chip.set_index(0xF01);
    chip.set_value(2, 0xFE);
    chip.add_to_index(2);
    assert_eq!(chip.index_register(), 0xFFF);
    assert_eq!(chip.register(0xF), 0);
}

#[test]
fn add_to_index_leaves_the_flag_alone_without_the_quirk() {
    let mut chip = Chip::with_quirks(Quirks::modern());
    chip.set_index(0xFFF);
    chip.set_value(2, 2);
    chip.set_value(0xF, 9);
    chip.add_to_index(2);
    assert_eq!(chip.index_register(), 0x001);
    assert_eq!(chip.register(0xF), 9);
}

#[test]
fn font_character_points_at_the_glyph() {
    let mut chip = Chip::new();
    chip.set_value(1, 0x0);
    chip.font_character(1);
    assert_eq!(chip.index_register(), 0);
    chip.set_value(1, 0xA);
    chip.font_character(1);
    assert_eq!(chip.index_register(), 50);
    chip.set_value(1, 0xF);
    chip.font_character(1);
    assert_eq!(chip.index_register(), 75);
    chip.set_value(1, 0x3A);
    chip.font_character(1);
    assert_eq!(chip.index_register(), 50);
}
