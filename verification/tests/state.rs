use xrve::state::State;

#[test]
fn create_state() {
    let _ = State::new();
}

#[test]
fn retires_correctly() {
    let mut state = State::new();

    for i in 0..100 {
        assert_eq!(state.retired_insts(), i);
        state.retire_inst();
    }
}

#[test]
fn gp_registers_working() {
    let mut state = State::new();

    for i in 0..32 {
        state.set_r(i, (i as u32) * 123 + 456);
    }

    assert_eq!(state.get_r(0), 0);
    for i in 1..32 {
        assert_eq!(state.get_r(i), (i as u32) * 123 + 456);
    }
}

#[test]
fn fresh_state_is_all_zero() {
    let state = State::new();
    assert_eq!(state.pc(), 0);
    assert_eq!(state.retired_insts(), 0);
    for r in 0..32 {
        assert_eq!(state.get_r(r), 0);
    }
}

#[test]
fn register_zero_ignores_every_write() {
    let mut state = State::new();
    for value in [1u32, 0xdead_beef, u32::MAX, 0] {
        state.set_r(0, value);
        assert_eq!(state.get_r(0), 0);
    }
    for r in 1..32 {
        assert_eq!(state.get_r(r), 0);
    }
}

#[test]
fn register_write_touches_one_register() {
    let mut state = State::new();
    state.set_r(7, 0x1234_5678);
    state.set_r(31, 0xffff_ffff);
    for r in 0..32u8 {
        let expected = match r {
            7 => 0x1234_5678,
            31 => 0xffff_ffff,
            _ => 0,
        };
        assert_eq!(state.get_r(r), expected);
    }
    assert_eq!(state.pc(), 0);
    assert_eq!(state.retired_insts(), 0);
}

#[test]
fn set_pc_moves_only_the_program_counter() {
    let mut state = State::new();
    state.set_r(5, 55);
    state.retire_inst();
    state.set_pc(0x8000_0004);
    assert_eq!(state.pc(), 0x8000_0004);
    assert_eq!(state.get_r(5), 55);
    assert_eq!(state.retired_insts(), 1);
}

#[test]
fn retirement_leaves_registers_and_pc() {
    let mut state = State::new();
    state.set_pc(12);
    state.set_r(3, 33);
    for _ in 0..1000 {
        state.retire_inst();
    }
    assert_eq!(state.retired_insts(), 1000);
    assert_eq!(state.pc(), 12);
    assert_eq!(state.get_r(3), 33);
}

#[test]
fn time_since_boot_does_not_go_backwards() {
    let state = State::new();
    let earlier = state.time_since_boot();
    let later = state.time_since_boot();
    assert!(later >= earlier);
}
