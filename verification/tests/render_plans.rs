use mode_control::button::Level;
use mode_control::render::{lamp_plan, power_plan, LampStep, PowerStep};
use mode_control::state::State;

fn lamp(led1: Level, led2: Level, led3: Level, hold_millis: u64) -> LampStep {
    LampStep { led1, led2, led3, hold_millis }
}

fn active_lamps(s: &LampStep) -> usize {
    [s.led1, s.led2, s.led3].iter().filter(|l| **l == Level::High).count()
}

#[test]
fn lamp_plans_hold_the_fixed_patterns() {
    assert_eq!(lamp_plan(State::Off), vec![lamp(Level::Low, Level::Low, Level::Low, 100)]);
    assert_eq!(lamp_plan(State::Low), vec![lamp(Level::High, Level::Low, Level::Low, 100)]);
    assert_eq!(lamp_plan(State::Mid), vec![lamp(Level::High, Level::High, Level::Low, 100)]);
    assert_eq!(lamp_plan(State::High), vec![lamp(Level::High, Level::High, Level::High, 100)]);
}

#[test]
fn auto_is_a_two_stage_timed_animation() {
    let plan = lamp_plan(State::Auto);
    assert_eq!(
        plan,
        vec![
            lamp(Level::High, Level::Low, Level::High, 500),
            lamp(Level::Low, Level::Low, Level::High, 500),
        ]
    );
    let total: u64 = plan.iter().map(|s| s.hold_millis).sum();
    assert_eq!(total, 1000);
}

#[test]
fn lit_modes_light_strictly_more_lamps_in_turn() {
    assert_eq!(active_lamps(&lamp_plan(State::Off)[0]), 0);
    assert_eq!(active_lamps(&lamp_plan(State::Low)[0]), 1);
    assert_eq!(active_lamps(&lamp_plan(State::Mid)[0]), 2);
    assert_eq!(active_lamps(&lamp_plan(State::High)[0]), 3);
}

#[test]
fn power_plans_hold_the_fixed_patterns() {
    assert_eq!(
        power_plan(State::Off),
        vec![PowerStep { level: Level::Low, hold_millis: 100 }]
    );
    assert_eq!(
        power_plan(State::Low),
        vec![
            PowerStep { level: Level::High, hold_millis: 500 },
            PowerStep { level: Level::Low, hold_millis: 1000 },
            PowerStep { level: Level::Low, hold_millis: 100 },
        ]
    );
    assert_eq!(
        power_plan(State::Mid),
        vec![
            PowerStep { level: Level::High, hold_millis: 700 },
            PowerStep { level: Level::Low, hold_millis: 300 },
            PowerStep { level: Level::Low, hold_millis: 100 },
        ]
    );
    assert_eq!(
        power_plan(State::High),
        vec![PowerStep { level: Level::High, hold_millis: 100 }]
    );
    assert_eq!(
        power_plan(State::Auto),
        vec![PowerStep { level: Level::Low, hold_millis: 100 }]
    );
}
