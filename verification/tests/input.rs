use chip8::chip::Chip;
use chip8::input::{keypad_code, HostKey, InputEvent, InputLatch, MetaInputs};

#[test]
fn keyboard_block_maps_onto_the_pad() {
    assert_eq!(keypad_code(HostKey::Num1), Some(0x1));
    assert_eq!(keypad_code(HostKey::Num2), Some(0x2));
    assert_eq!(keypad_code(HostKey::Num3), Some(0x3));
    assert_eq!(keypad_code(HostKey::Num4), Some(0xC));
    assert_eq!(keypad_code(HostKey::Q), Some(0x4));
    assert_eq!(keypad_code(HostKey::W), Some(0x5));
    assert_eq!(keypad_code(HostKey::E), Some(0x6));
    assert_eq!(keypad_code(HostKey::R), Some(0xD));
    assert_eq!(keypad_code(HostKey::A), Some(0x7));
    assert_eq!(keypad_code(HostKey::S), Some(0x8));
    assert_eq!(keypad_code(HostKey::D), Some(0x9));
    assert_eq!(keypad_code(HostKey::F), Some(0xE));
    assert_eq!(keypad_code(HostKey::Z), Some(0xA));
    assert_eq!(keypad_code(HostKey::X), Some(0x0));
    assert_eq!(keypad_code(HostKey::C), Some(0xB));
    assert_eq!(keypad_code(HostKey::V), Some(0xF));
}

#[test]
fn keys_outside_the_block_have_no_code() {
    assert_eq!(keypad_code(HostKey::Escape), None);
    assert_eq!(keypad_code(HostKey::Other), None);
}

#[test]
fn every_pad_code_has_exactly_one_key() {
    let keys = [
        HostKey::Num1,
        HostKey::Num2,
        HostKey::Num3,
        HostKey::Num4,
        HostKey::Q,
        HostKey::W,
        HostKey::E,
        HostKey::R,
        HostKey::A,
        HostKey::S,
        HostKey::D,
        HostKey::F,
        HostKey::Z,
        HostKey::X,
        HostKey::C,
        HostKey::V,
    ];
    let mut seen = [false; 16];
    for key in keys {
        let code = keypad_code(key).unwrap();
        assert!(code < 16);
        assert!(!seen[code as usize]);
        seen[code as usize] = true;
    }
    assert!(seen.iter().all(|s| *s));
}

#[test]
fn latch_holds_the_latest_key_down() {
    let mut latch = InputLatch::new();
    assert_eq!(latch.current_key(), None);
    latch.key_down(0x7);
    assert_eq!(latch.current_key(), Some(0x7));
    latch.key_down(0xB);
    assert_eq!(latch.current_key(), Some(0xB));
}

#[test]
fn latch_is_emptied_by_any_key_up() {
    let mut latch = InputLatch::new();
    latch.key_down(0x7);
    latch.key_up(0x7);
    assert_eq!(latch.current_key(), None);
    latch.key_down(0x7);
    latch.key_up(0x3);
    assert_eq!(latch.current_key(), None);
    latch.key_up(0x3);
    assert_eq!(latch.current_key(), None);
}

#[test]
fn machine_latch_follows_key_events() {
    let mut chip = Chip::new();
    chip.key_down(0xA);
    assert_eq!(chip.current_key(), Some(0xA));
    chip.key_up(0xA);
    assert_eq!(chip.current_key(), None);
}

#[test]
fn poll_latches_a_pad_key_going_down() {
    let mut chip = Chip::new();
    assert_eq!(
        chip.poll_inputs(Some(InputEvent::KeyDown(HostKey::R))),
        MetaInputs::PressedInput
    );
    assert_eq!(chip.current_key(), Some(0xD));
    assert_eq!(
        chip.poll_inputs(Some(InputEvent::KeyDown(HostKey::X))),
        MetaInputs::PressedInput
    );
    assert_eq!(chip.current_key(), Some(0x0));
}

#[test]
fn poll_empties_the_latch_on_a_pad_key_coming_up() {
    let mut chip = Chip::new();
    chip.key_down(0x5);
    assert_eq!(
        chip.poll_inputs(Some(InputEvent::KeyUp(HostKey::Q))),
        MetaInputs::PressedInput
    );
    assert_eq!(chip.current_key(), None);
}

#[test]
fn poll_passes_over_what_does_not_concern_the_pad() {
    let mut chip = Chip::new();
    chip.key_down(0x5);
    assert_eq!(chip.poll_inputs(None), MetaInputs::Pass);
    assert_eq!(chip.poll_inputs(Some(InputEvent::Other)), MetaInputs::Pass);
    assert_eq!(
        chip.poll_inputs(Some(InputEvent::KeyDown(HostKey::Other))),
        MetaInputs::Pass
    );
    assert_eq!(
        chip.poll_inputs(Some(InputEvent::KeyUp(HostKey::Other))),
        MetaInputs::Pass
    );
    assert_eq!(
        chip.poll_inputs(Some(InputEvent::KeyUp(HostKey::Escape))),
        MetaInputs::Pass
    );
    assert_eq!(chip.current_key(), Some(0x5));
}

#[test]
fn poll_asks_to_quit_on_quit_and_on_escape() {
    let mut chip = Chip::new();
    chip.key_down(0x5);
    assert_eq!(chip.poll_inputs(Some(InputEvent::Quit)), MetaInputs::Quit);
    assert_eq!(
        chip.poll_inputs(Some(InputEvent::KeyDown(HostKey::Escape))),
        MetaInputs::Quit
    );
    assert_eq!(chip.current_key(), Some(0x5));
}

#[test]
fn skip_if_key_pressed_compares_the_latch_with_vx() {
    let mut chip = Chip::new();
    chip.jump(0x200);
    chip.set_value(1, 0x7);
    chip.skip_if_key_pressed(1);
    assert_eq!(chip.program_counter(), 0x200);
    chip.key_down(0x6);
    chip.skip_if_key_pressed(1);
    assert_eq!(chip.program_counter(), 0x200);
    chip.key_down(0x7);
    chip.skip_if_key_pressed(1);
    assert_eq!(chip.program_counter(), 0x202);
}

#[test]
fn skip_if_key_not_pressed_skips_also_with_no_key() {
    let mut chip = Chip::new();
    chip.jump(0x200);
    chip.set_value(1, 0x7);
    chip.skip_if_key_not_pressed(1);
    assert_eq!(chip.program_counter(), 0x202);
    chip.key_down(0x6);
    chip.skip_if_key_not_pressed(1);
    assert_eq!(chip.program_counter(), 0x204);
    chip.key_down(0x7);
    chip.skip_if_key_not_pressed(1);
    assert_eq!(chip.program_counter(), 0x204);
}

#[test]
fn key_skips_never_match_a_register_beyond_the_pad() {
    let mut chip = Chip::new();
    chip.jump(0x200);
    chip.set_value(1, 0x17);
    chip.key_down(0x7);
    chip.skip_if_key_pressed(1);
    assert_eq!(chip.program_counter(), 0x200);
    chip.skip_if_key_not_pressed(1);
    assert_eq!(chip.program_counter(), 0x202);
}

#[test]
fn wait_for_key_stands_still_until_a_key_is_down() {
    let mut chip = Chip::new();
    assert_eq!(chip.load_program(&[0xF3, 0x0A, 0x63, 0x55]), Ok(()));
    for _ in 0..5 {
        assert_eq!(chip.instruction(), Ok(()));
        assert_eq!(chip.program_counter(), 0x200);
        assert_eq!(chip.register(3), 0);
    }
    assert_eq!(
        chip.poll_inputs(Some(InputEvent::KeyDown(HostKey::V))),
        MetaInputs::PressedInput
    );
    assert_eq!(chip.instruction(), Ok(()));
    assert_eq!(chip.program_counter(), 0x202);
    assert_eq!(chip.register(3), 0xF);
}

#[test]
fn wait_for_key_takes_a_key_that_is_already_down() {
    let mut chip = Chip::new();
    chip.jump(0x202);
    chip.key_down(0x0);
    chip.set_value(2, 0x99);
    chip.get_key(2);
    assert_eq!(chip.register(2), 0x0);
    assert_eq!(chip.program_counter(), 0x202);
}

#[test]
fn wait_for_key_steps_back_one_instruction() {
    let mut chip = Chip::new();
    chip.jump(0x202);
    chip.get_key(2);
    assert_eq!(chip.program_counter(), 0x200);
    chip.jump(0x000);
    chip.get_key(2);
    assert_eq!(chip.program_counter(), 0xFFE);
}
