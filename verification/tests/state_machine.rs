use mode_control::state::{State, StateManager};

#[test]
fn a_fresh_manager_is_off() {
    assert_eq!(StateManager::new().state, State::Off);
    assert_eq!(StateManager::default().state, State::Off);
    assert_eq!(State::default(), State::Off);
}

#[test]
fn the_forward_cycle_visits_every_level_once() {
    let mut m = StateManager::new();
    m.next();
    assert_eq!(m.state, State::Low);
    m.next();
    assert_eq!(m.state, State::Mid);
    m.next();
    assert_eq!(m.state, State::High);
    m.next();
    assert_eq!(m.state, State::Auto);
    m.next();
    assert_eq!(m.state, State::Low);
}

#[test]
fn four_steps_return_a_lit_mode_to_itself() {
    for start in [State::Low, State::Mid, State::High, State::Auto] {
        let mut m = StateManager { state: start };
        for _ in 0..4 {
            m.next();
            assert_ne!(m.state, State::Off);
        }
        assert_eq!(m.state, start);
    }
}

#[test]
fn set_off_forces_off_from_any_state() {
    for start in [State::Off, State::Low, State::Mid, State::High, State::Auto] {
        let mut m = StateManager { state: start };
        m.set_off();
        assert_eq!(m.state, State::Off);
    }
}

#[test]
fn out_of_range_bytes_decode_to_off() {
    assert_eq!(State::decode(5), State::Off);
    assert_eq!(State::decode(200), State::Off);
    assert_eq!(State::decode(255), State::Off);
}

#[test]
fn valid_bytes_round_trip_through_decode_and_encode() {
    for v in 0u8..=4u8 {
        assert_eq!(State::decode(v).encode(), v);
    }
}

#[test]
fn every_mode_round_trips_through_encode_and_decode() {
    for m in [State::Off, State::Low, State::Mid, State::High, State::Auto] {
        assert_eq!(State::decode(m.encode()), m);
    }
}

#[test]
fn each_mode_prints_its_own_name() {
    assert_eq!(State::Off.label(), "Off");
    assert_eq!(State::Low.label(), "Low");
    assert_eq!(State::Mid.label(), "Mid");
    assert_eq!(State::High.label(), "High");
    assert_eq!(State::Auto.label(), "Auto");
}

#[test]
fn the_encoding_is_the_documented_table() {
    assert_eq!(State::Off.encode(), 0);
    assert_eq!(State::Low.encode(), 1);
    assert_eq!(State::Mid.encode(), 2);
    assert_eq!(State::High.encode(), 3);
    assert_eq!(State::Auto.encode(), 4);
}
