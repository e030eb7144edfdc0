use led_counter::console::{decimal, diagnostic_line, fatal_line, padded};
use led_counter::State;

#[test]
fn diagnostic_line_has_fixed_columns() {
    assert_eq!(
        diagnostic_line(true, 7, State::Paused),
        "btn: true  | cnt: 7  | state: Paused  \r\n"
    );
    assert_eq!(
        diagnostic_line(false, 15, State::Running),
        "btn: false | cnt: 15 | state: Running \r\n"
    );
}

#[test]
fn diagnostic_line_agrees_with_std_formatting() {
    for pressed in [false, true] {
        for counter in [0u8, 1, 9, 10, 11, 99, 100, 101, 199, 200, 255] {
            for (state, name) in [(State::Paused, "Paused"), (State::Running, "Running")] {
                let expected = format!(
                    "btn: {:<5} | cnt: {:<2} | state: {:<8}\r\n",
                    pressed, counter, name
                );
                assert_eq!(diagnostic_line(pressed, counter, state), expected);
            }
        }
    }
}

#[test]
fn wide_counter_is_not_cut() {
    assert_eq!(
        diagnostic_line(false, 255, State::Paused),
        "btn: false | cnt: 255 | state: Paused  \r\n"
    );
}

#[test]
fn decimal_writes_every_byte() {
    for n in 0..=255u8 {
        assert_eq!(decimal(n), n.to_string());
    }
}

#[test]
fn padded_fills_on_the_right() {
    assert_eq!(padded("ab", 5), "ab   ");
    assert_eq!(padded("abcde", 5), "abcde");
    assert_eq!(padded("abcdef", 5), "abcdef");
    assert_eq!(padded("", 2), "  ");
    assert_eq!(padded("x", 0), "x");
    // width counts characters, not bytes
    assert_eq!(padded("é", 3), "é  ");
}

#[test]
fn state_names() {
    assert_eq!(State::Paused.name(), "Paused");
    assert_eq!(State::Running.name(), "Running");
}

#[test]
fn fatal_line_starts_with_panic() {
    assert_eq!(fatal_line("write failed"), "PANIC: write failed");
    assert_eq!(fatal_line(""), "PANIC: ");
}
