use mode_control::button::{DebouncedButton, Event, Level, Observation, DEBOUNCE_MILLIS};

fn obs(before: Level, after: Level) -> Observation {
    Observation { before_edge: before, after_window: after }
}

#[test]
fn new_keeps_the_window() {
    let b = DebouncedButton::new(DEBOUNCE_MILLIS);
    assert_eq!(b.debounce_millis, 50);
}

#[test]
fn bounces_are_rejected() {
    // Two edges that settled back within the window, then a genuine press.
    let b = DebouncedButton::new(50);
    let trace = vec![
        obs(Level::High, Level::High),
        obs(Level::High, Level::High),
        obs(Level::High, Level::Low),
    ];
    assert_eq!(b.debounce(&trace), Some(Level::Low));
}

#[test]
fn only_bounces_yields_nothing() {
    let b = DebouncedButton::new(50);
    let trace = vec![
        obs(Level::High, Level::High),
        obs(Level::Low, Level::Low),
        obs(Level::High, Level::High),
    ];
    assert_eq!(b.debounce(&trace), None);
}

#[test]
fn first_settled_level_is_returned() {
    let b = DebouncedButton::new(50);
    let trace = vec![obs(Level::Low, Level::High), obs(Level::High, Level::Low)];
    assert_eq!(b.debounce(&trace), Some(Level::High));
}

#[test]
fn empty_trace_yields_nothing() {
    let b = DebouncedButton::new(50);
    let trace: Vec<Observation> = vec![];
    assert_eq!(b.debounce(&trace), None);
}

#[test]
fn step_rejects_a_settled_back_edge() {
    let b = DebouncedButton::new(50);
    assert_eq!(b.debounce_step(obs(Level::High, Level::High)), None);
    assert_eq!(b.debounce_step(obs(Level::Low, Level::Low)), None);
}

#[test]
fn step_accepts_a_held_transition() {
    let b = DebouncedButton::new(50);
    assert_eq!(b.debounce_step(obs(Level::High, Level::Low)), Some(Level::Low));
    assert_eq!(b.debounce_step(obs(Level::Low, Level::High)), Some(Level::High));
}

#[test]
fn press_event_exists() {
    let e = Event::ButtonPressed;
    assert!(matches!(e, Event::ButtonPressed));
}
