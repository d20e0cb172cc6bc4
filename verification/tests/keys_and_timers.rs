use chip8_rust::emulator::{Emulator, EmulatorError, InstructionResult, OpcodeResult};
use chip8_rust::keypad::{
    find_key_edge, key_for_scancode, update_key_states, WaitState, KEY_SCANCODES,
};
use chip8_rust::opcode::Opcode;
use chip8_rust::timers::{compare_and_swap, decrement_target, tick, tick_after_read, tone_action, ToneAction};

#[test]
fn scancodes_map_to_the_pad() {
    let expected: [(u32, u8); 16] = [
        (0x02D, 0x0),
        (0x002, 0x1),
        (0x003, 0x2),
        (0x004, 0x3),
        (0x010, 0x4),
        (0x011, 0x5),
        (0x012, 0x6),
        (0x01E, 0x7),
        (0x01F, 0x8),
        (0x020, 0x9),
        (0x02C, 0xA),
        (0x02E, 0xB),
        (0x005, 0xC),
        (0x013, 0xD),
        (0x021, 0xE),
        (0x02F, 0xF),
    ];
    for (scancode, key) in expected {
        assert_eq!(key_for_scancode(scancode), Some(key));
        assert_eq!(KEY_SCANCODES[key as usize], scancode);
    }
    for scancode in [0x000u32, 0x001, 0x006, 0x014, 0x030, 0xFFFF_FFFF] {
        assert_eq!(key_for_scancode(scancode), None);
    }
}

#[test]
fn key_events_set_and_release_one_key() {
    let mut emu = Emulator::new_headless();
    update_key_states(0x010, true, &mut emu);
    update_key_states(0x02F, true, &mut emu);
    let mut expected = [false; 16];
    expected[0x4] = true;
    expected[0xF] = true;
    assert_eq!(emu.key_states, expected);
    update_key_states(0x001, true, &mut emu);
    assert_eq!(emu.key_states, expected);
    update_key_states(0x010, false, &mut emu);
    expected[0x4] = false;
    assert_eq!(emu.key_states, expected);
    assert_eq!(emu.previous_key_states, [false; 16]);
    assert_eq!(emu.program_counter, 0x200);
}

#[test]
fn the_lowest_key_with_an_edge_is_found() {
    let mut current = [false; 16];
    let mut previous = [false; 16];
    assert_eq!(find_key_edge(&current, &previous), None);
    current[9] = true;
    current[4] = true;
    assert_eq!(find_key_edge(&current, &previous), Some(4));
    previous[4] = true;
    assert_eq!(find_key_edge(&current, &previous), Some(9));
    previous[9] = true;
    assert_eq!(find_key_edge(&current, &previous), None);
    current[15] = true;
    assert_eq!(find_key_edge(&current, &previous), Some(15));
    current = [false; 16];
    assert_eq!(find_key_edge(&current, &previous), None);
    current[0] = true;
    assert_eq!(find_key_edge(&current, &previous), Some(0));
}

#[test]
fn skip_if_key_down_and_skip_if_key_up() {
    let mut emu = Emulator::new_headless();
    emu.registers[2] = 0xB;
    assert_eq!(emu.process_opcode(Opcode::new(0xE29E)), OpcodeResult::Continue);
    assert_eq!(emu.process_opcode(Opcode::new(0xE2A1)), OpcodeResult::SkipNext);
    emu.key_states[0xB] = true;
    assert_eq!(emu.process_opcode(Opcode::new(0xE29E)), OpcodeResult::SkipNext);
    assert_eq!(emu.process_opcode(Opcode::new(0xE2A1)), OpcodeResult::Continue);
    assert_eq!(emu.execute_instruction(Opcode::new(0xE29E)), Ok(InstructionResult::Working));
    assert_eq!(emu.program_counter, 0x204);
}

#[test]
fn a_register_value_that_names_no_key_is_a_key_that_is_up() {
    let mut emu = Emulator::new_headless();
    emu.key_states = [true; 16];
    for value in [16u8, 17, 0x1B, 255] {
        emu.registers[2] = value;
        assert_eq!(emu.process_opcode(Opcode::new(0xE29E)), OpcodeResult::Continue);
        assert_eq!(emu.process_opcode(Opcode::new(0xE2A1)), OpcodeResult::SkipNext);
    }
}

#[test]
fn unlisted_patterns_of_the_key_group_are_malformed() {
    for low in [0x00u16, 0x9D, 0x9F, 0xA0, 0xA2, 0xFF] {
        let mut emu = Emulator::new_headless();
        assert_eq!(
            emu.execute_instruction(Opcode::new(0xE100 | low)),
            Err(EmulatorError::InvalidOpcode)
        );
    }
}

#[test]
fn waiting_for_a_key_holds_the_program_counter_until_an_edge() {
    let mut emu = Emulator::new_headless();
    assert_eq!(emu.load_program(&[0xF3, 0x0A, 0x63, 0x01]), Ok(4));
    for _ in 0..5 {
        assert_eq!(emu.execute_next_instruction(), Ok(InstructionResult::Working));
        assert_eq!(emu.program_counter, 0x200);
        assert_eq!(emu.wait_state, WaitState::WaitingForKey(3));
    }
    emu.key_states[7] = true;
    emu.key_states[0xC] = true;
    assert_eq!(emu.execute_next_instruction(), Ok(InstructionResult::Working));
    assert_eq!(emu.registers[3], 7);
    assert_eq!(emu.program_counter, 0x202);
    assert_eq!(emu.wait_state, WaitState::Running);
    assert_eq!(emu.previous_key_states, emu.key_states);

    assert_eq!(emu.execute_next_instruction(), Ok(InstructionResult::Working));
    assert_eq!(emu.registers[3], 1);
    assert_eq!(emu.program_counter, 0x204);
}

#[test]
fn a_key_that_was_already_down_is_no_edge() {
    let mut emu = Emulator::new_headless();
    assert_eq!(emu.load_program(&[0x60, 0x00, 0xF5, 0x0A]), Ok(4));
    emu.key_states[2] = true;
    assert_eq!(emu.execute_next_instruction(), Ok(InstructionResult::Working));
    assert_eq!(emu.previous_key_states[2], true);
    assert_eq!(emu.execute_next_instruction(), Ok(InstructionResult::Working));
    assert_eq!(emu.wait_state, WaitState::WaitingForKey(5));
    assert_eq!(emu.execute_next_instruction(), Ok(InstructionResult::Working));
    assert_eq!(emu.wait_state, WaitState::WaitingForKey(5));
    assert_eq!(emu.program_counter, 0x202);
    emu.key_states[2] = false;
    assert_eq!(emu.execute_next_instruction(), Ok(InstructionResult::Working));
    assert_eq!(emu.wait_state, WaitState::WaitingForKey(5));
    emu.key_states[2] = true;
    assert_eq!(emu.execute_next_instruction(), Ok(InstructionResult::Working));
    assert_eq!(emu.wait_state, WaitState::Running);
    assert_eq!(emu.registers[5], 2);
    assert_eq!(emu.program_counter, 0x204);
}

#[test]
fn an_edge_seen_at_once_completes_the_wait_instruction() {
    let mut emu = Emulator::new_headless();
    emu.key_states[0xE] = true;
    assert_eq!(emu.process_opcode(Opcode::new(0xF80A)), OpcodeResult::Continue);
    assert_eq!(emu.registers[8], 0xE);
    assert_eq!(emu.wait_state, WaitState::Running);
    emu.snapshot_keys();
    assert_eq!(emu.process_opcode(Opcode::new(0xF80A)), OpcodeResult::WaitingForKey(8));
    assert_eq!(emu.execute_instruction(Opcode::new(0xF80A)), Ok(InstructionResult::Working));
    assert_eq!(emu.wait_state, WaitState::WaitingForKey(8));
    assert_eq!(emu.program_counter, 0x200);
}

#[test]
fn polling_stores_the_key_and_moves_past_the_instruction() {
    let mut emu = Emulator::new_headless();
    emu.wait_state = WaitState::WaitingForKey(0xA);
    assert_eq!(emu.poll_key(0xA), Ok(InstructionResult::Working));
    assert_eq!(emu.wait_state, WaitState::WaitingForKey(0xA));
    emu.key_states[3] = true;
    assert_eq!(emu.poll_key(0xA), Ok(InstructionResult::Working));
    assert_eq!(emu.registers[0xA], 3);
    assert_eq!(emu.wait_state, WaitState::Running);
    assert_eq!(emu.program_counter, 0x202);
}

#[test]
fn timers_fall_to_zero_and_stay_there() {
    let mut emu = Emulator::new_headless();
    emu.timer_counter = 2;
    emu.sound_counter = 1;
    emu.update_time_counters();
    assert_eq!((emu.timer_counter, emu.sound_counter), (1, 0));
    emu.update_time_counters();
    assert_eq!((emu.timer_counter, emu.sound_counter), (0, 0));
    emu.update_time_counters();
    assert_eq!((emu.timer_counter, emu.sound_counter), (0, 0));
    emu.timer_counter = 255;
    emu.update_time_counters();
    assert_eq!(emu.timer_counter, 254);
}

#[test]
fn a_tick_is_a_read_and_a_swap() {
    assert_eq!(decrement_target(0), None);
    assert_eq!(decrement_target(1), Some(0));
    assert_eq!(decrement_target(255), Some(254));

    let mut counter = 5u8;
    assert!(compare_and_swap(&mut counter, 5, 9));
    assert_eq!(counter, 9);
    assert!(!compare_and_swap(&mut counter, 5, 1));
    assert_eq!(counter, 9);

    let mut counter = 3u8;
    tick(&mut counter);
    assert_eq!(counter, 2);
    let mut counter = 0u8;
    tick(&mut counter);
    assert_eq!(counter, 0);
}

#[test]
fn a_write_between_read_and_swap_wins_over_the_decrement() {
    let mut counter = 5u8;
    let observed = counter;
    counter = 60;
    assert!(!tick_after_read(&mut counter, observed));
    assert_eq!(counter, 60);

    let mut counter = 5u8;
    assert!(tick_after_read(&mut counter, 5));
    assert_eq!(counter, 4);

    let mut counter = 0u8;
    assert!(!tick_after_read(&mut counter, 0));
    assert_eq!(counter, 0);

    let mut counter = 7u8;
    assert!(!tick_after_read(&mut counter, 0));
    assert_eq!(counter, 7);
}

#[test]
fn the_tone_follows_the_sound_timer() {
    assert_eq!(tone_action(false, 0), ToneAction::Keep);
    assert_eq!(tone_action(false, 1), ToneAction::Start);
    assert_eq!(tone_action(false, 255), ToneAction::Start);
    assert_eq!(tone_action(true, 1), ToneAction::Keep);
    assert_eq!(tone_action(true, 0), ToneAction::Stop);
}
