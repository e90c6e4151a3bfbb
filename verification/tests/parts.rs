use button_dispatch::arm::ArmState;
use button_dispatch::dispatch::Inputs;
use button_dispatch::level::Level;
use button_dispatch::output::{DigitalOutput, Leds};
use button_dispatch::pair::{select, Direction};
use button_dispatch::report::{A2_FIRED, DOWN, UP, USER_FIRED};

#[test]
fn it_works() {
    assert!(true)
}

#[test]
fn led_toggles() {
    let mut led = DigitalOutput::new();
    led.set_high();
    assert!(led.is_set_high());
    led.set_low();
    assert!(led.is_set_low());
}

#[test]
fn button_press() {
    let idle = Inputs::sampled(false, false, false, false);
    assert!(idle.a3.is_low());
    assert!(idle.a1.is_low());
}

#[test]
fn level_from_pin_read() {
    assert_eq!(Level::from_bool(true), Level::High);
    assert_eq!(Level::from_bool(false), Level::Low);
}

#[test]
fn level_queries() {
    assert!(Level::High.is_high());
    assert!(!Level::High.is_low());
    assert!(Level::Low.is_low());
    assert!(!Level::Low.is_high());
}

#[test]
fn level_toggled_inverts() {
    assert_eq!(Level::Low.toggled(), Level::High);
    assert_eq!(Level::High.toggled(), Level::Low);
    assert_eq!(Level::High.toggled().toggled(), Level::High);
}

#[test]
fn inputs_keep_each_pin_apart() {
    let inputs = Inputs::sampled(true, false, false, false);
    assert_eq!((inputs.a1, inputs.a2, inputs.a3, inputs.user), (Level::High, Level::Low, Level::Low, Level::Low));
    let inputs = Inputs::sampled(false, true, false, false);
    assert_eq!((inputs.a1, inputs.a2, inputs.a3, inputs.user), (Level::Low, Level::High, Level::Low, Level::Low));
    let inputs = Inputs::sampled(false, false, true, false);
    assert_eq!((inputs.a1, inputs.a2, inputs.a3, inputs.user), (Level::Low, Level::Low, Level::High, Level::Low));
    let inputs = Inputs::sampled(false, false, false, true);
    assert_eq!((inputs.a1, inputs.a2, inputs.a3, inputs.user), (Level::Low, Level::Low, Level::Low, Level::High));
}

#[test]
fn arm_starts_disarmed() {
    assert_eq!(ArmState::new(), ArmState::Disarmed);
    assert!(!ArmState::new().is_armed());
    assert!(ArmState::Armed.is_armed());
}

#[test]
fn arm_step_table() {
    assert_eq!(ArmState::Disarmed.step(Level::Low), (ArmState::Armed, false));
    assert_eq!(ArmState::Disarmed.step(Level::High), (ArmState::Disarmed, false));
    assert_eq!(ArmState::Armed.step(Level::Low), (ArmState::Armed, false));
    assert_eq!(ArmState::Armed.step(Level::High), (ArmState::Disarmed, true));
}

#[test]
fn arm_first_high_sample_does_not_fire() {
    let (state, fired) = ArmState::new().step(Level::High);
    assert!(!fired);
    assert_eq!(state, ArmState::Disarmed);
}

#[test]
fn arm_fires_once_per_press() {
    let mut state = ArmState::new();
    let mut fires = Vec::new();
    for high in [false, true, true, true, false, false, true, false, true] {
        let (next, fired) = state.step(Level::from_bool(high));
        fires.push(fired);
        state = next;
    }
    assert_eq!(fires, vec![false, true, false, false, false, false, true, false, true]);
}

#[test]
fn output_starts_low() {
    let led = DigitalOutput::new();
    assert_eq!(led.level, Level::Low);
    assert!(led.is_set_low());
    assert!(!led.is_set_high());
}

#[test]
fn output_toggle_inverts_last_level() {
    let mut led = DigitalOutput::new();
    led.toggle();
    assert!(led.is_set_high());
    led.toggle();
    assert!(led.is_set_low());
    led.set_high();
    led.toggle();
    assert!(led.is_set_low());
}

#[test]
fn output_set_level() {
    let mut led = DigitalOutput::new();
    led.set_level(Level::High);
    assert_eq!(led.level, Level::High);
    led.set_level(Level::Low);
    assert_eq!(led.level, Level::Low);
}

#[test]
fn leds_start_out() {
    let leds = Leds::new();
    assert!(leds.red.is_set_low());
    assert!(leds.green.is_set_low());
    assert!(leds.yellow.is_set_low());
}

#[test]
fn reset_puts_red_and_green_out_and_keeps_yellow() {
    let high = DigitalOutput { level: Level::High };
    let low = DigitalOutput { level: Level::Low };
    for yellow in [low, high] {
        for red in [low, high] {
            for green in [low, high] {
                let mut leds = Leds { red, green, yellow };
                leds.reset_directional();
                assert_eq!(leds, Leds { red: low, green: low, yellow });
            }
        }
    }
}

#[test]
fn pair_table() {
    assert_eq!(select(Level::Low, Level::Low), None);
    assert_eq!(select(Level::Low, Level::High), Some(Direction::Down));
    assert_eq!(select(Level::High, Level::Low), Some(Direction::Up));
    assert_eq!(select(Level::High, Level::High), None);
}

#[test]
fn report_codes_are_the_four_letters() {
    assert_eq!(A2_FIRED, b'p');
    assert_eq!(USER_FIRED, b'h');
    assert_eq!(DOWN, b'd');
    assert_eq!(UP, b'u');
}

#[test]
fn direction_report_bytes() {
    assert_eq!(Direction::Down.report_byte(), b'd');
    assert_eq!(Direction::Up.report_byte(), b'u');
}
