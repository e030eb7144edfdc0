use led_counter::config::{max_tick_for, ticks_per_increment, COUNT_DURATION_MS};
use led_counter::display::{line_level, shown};
use led_counter::transition::{step_on_edge, step_on_tick};
use led_counter::{SignalChannel, State};

#[test]
fn ticks_per_increment_divides_step_by_period() {
    assert_eq!(COUNT_DURATION_MS, 500);
    assert_eq!(ticks_per_increment(COUNT_DURATION_MS, 500), Some(1));
    assert_eq!(ticks_per_increment(500, 250), Some(2));
    assert_eq!(ticks_per_increment(500, 100), Some(5));
    // a remainder is dropped
    assert_eq!(ticks_per_increment(500, 300), Some(1));
    assert_eq!(ticks_per_increment(500, 2), Some(250));
}

#[test]
fn ticks_per_increment_rejects_what_cannot_be_counted() {
    assert_eq!(ticks_per_increment(500, 0), None);
    // period longer than the step
    assert_eq!(ticks_per_increment(500, 501), None);
    assert_eq!(ticks_per_increment(0, 10), None);
    // more than a byte holds
    assert_eq!(ticks_per_increment(500, 1), None);
    assert_eq!(ticks_per_increment(255, 1), Some(255));
    assert_eq!(ticks_per_increment(256, 1), None);
    assert_eq!(ticks_per_increment(u32::MAX, u32::MAX), Some(1));
}

#[test]
fn max_tick_is_a_full_cycle_less_one() {
    assert_eq!(max_tick_for(3, 1), Some(7));
    assert_eq!(max_tick_for(3, 2), Some(15));
    assert_eq!(max_tick_for(1, 1), Some(1));
    assert_eq!(max_tick_for(2, 3), Some(11));
    assert_eq!(max_tick_for(8, 1), Some(255));
    assert_eq!(max_tick_for(7, 2), Some(255));
    assert_eq!(max_tick_for(1, 128), Some(255));
    assert_eq!(max_tick_for(4, 16), Some(255));
}

#[test]
fn max_tick_rejects_unusable_configurations() {
    assert_eq!(max_tick_for(0, 1), None);
    assert_eq!(max_tick_for(3, 0), None);
    assert_eq!(max_tick_for(8, 2), None);
    assert_eq!(max_tick_for(9, 1), None);
    assert_eq!(max_tick_for(4, 17), None);
    assert_eq!(max_tick_for(1, 129), None);
    assert_eq!(max_tick_for(usize::MAX, 1), None);
}

#[test]
fn line_level_is_the_bit_of_the_value() {
    for value in 0..=255u8 {
        for line in 0..8usize {
            assert_eq!(line_level(value, line), (value >> line) & 1 == 1);
        }
    }
    assert!(line_level(0b100, 2));
    assert!(!line_level(0b100, 1));
}

#[test]
fn shown_value_is_counter_over_ticks() {
    assert_eq!(shown(0, 2), 0);
    assert_eq!(shown(1, 2), 0);
    assert_eq!(shown(2, 2), 1);
    assert_eq!(shown(15, 2), 7);
    assert_eq!(shown(255, 1), 255);
    assert_eq!(shown(11, 3), 3);
}

#[test]
fn step_on_tick_table() {
    assert_eq!(step_on_tick(State::Paused, 4, true, 7), (State::Paused, 4));
    assert_eq!(step_on_tick(State::Paused, 4, false, 7), (State::Running, 4));
    assert_eq!(step_on_tick(State::Running, 4, true, 7), (State::Paused, 4));
    assert_eq!(step_on_tick(State::Running, 4, false, 7), (State::Running, 5));
    assert_eq!(step_on_tick(State::Running, 7, false, 7), (State::Running, 0));
    assert_eq!(step_on_tick(State::Running, 255, false, 255), (State::Running, 0));
    assert_eq!(step_on_tick(State::Paused, 7, false, 7), (State::Running, 7));
}

#[test]
fn step_on_edge_table() {
    assert_eq!(step_on_edge(State::Paused, true), State::Paused);
    assert_eq!(step_on_edge(State::Running, true), State::Paused);
    assert_eq!(step_on_edge(State::Paused, false), State::Running);
    assert_eq!(step_on_edge(State::Running, false), State::Running);
}

#[test]
fn signal_channel_starts_idle() {
    let mut channel = SignalChannel::new();
    assert!(!channel.is_pending());
    assert!(!channel.consume_if_pending());
    assert!(!channel.is_pending());
}

#[test]
fn signal_channel_hands_over_one_tick() {
    let mut channel = SignalChannel::new();
    channel.signal();
    assert!(channel.is_pending());
    assert!(channel.consume_if_pending());
    assert!(!channel.is_pending());
    assert!(!channel.consume_if_pending());
}

#[test]
fn signal_channel_takes_two_signals_as_one() {
    let mut channel = SignalChannel::new();
    channel.signal();
    channel.signal();
    assert!(channel.consume_if_pending());
    assert!(!channel.consume_if_pending());
}
