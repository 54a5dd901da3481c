use virtstack::decimal::append_decimal;
use virtstack::frame::{Location, StackFrame};

#[test]
fn frame_renders_message_then_location() {
    let frame = StackFrame::new(Location::new("src/x.rs", 10, 5), "boom".to_string());
    assert_eq!(frame.render(), "boom at src/x.rs:10:5");
}

#[test]
fn frame_keeps_what_it_was_given() {
    let location = Location::new("src/config.rs", 42, 15);
    let frame = StackFrame::new(location, "Failed to read configuration file".to_string());
    assert_eq!(frame.location, location);
    assert_eq!(frame.location.file, "src/config.rs");
    assert_eq!(frame.location.line, 42);
    assert_eq!(frame.location.column, 15);
    assert_eq!(frame.message, "Failed to read configuration file");
    assert_eq!(
        frame.render(),
        "Failed to read configuration file at src/config.rs:42:15"
    );
}

#[test]
fn location_renders_file_line_column() {
    assert_eq!(Location::new("src/main.rs", 15, 23).render(), "src/main.rs:15:23");
}

#[test]
fn location_renders_zero_and_largest_numbers() {
    assert_eq!(Location::new("a", 0, 0).render(), "a:0:0");
    assert_eq!(
        Location::new("a", u32::MAX, u32::MAX).render(),
        "a:4294967295:4294967295"
    );
}

#[test]
fn location_renders_round_numbers_with_their_zeros() {
    assert_eq!(Location::new("lib.rs", 100, 1000).render(), "lib.rs:100:1000");
    assert_eq!(Location::new("lib.rs", 9, 10).render(), "lib.rs:9:10");
    assert_eq!(Location::new("lib.rs", 101, 90).render(), "lib.rs:101:90");
}

#[test]
fn frame_with_empty_message_and_file_still_has_the_separators() {
    let frame = StackFrame::new(Location::new("", 1, 1), String::new());
    assert_eq!(frame.render(), " at :1:1");
}

#[test]
fn frame_message_is_not_quoted_or_escaped() {
    let frame = StackFrame::new(
        Location::new("src/dir with space/ü.rs", 7, 3),
        "bad \"value\" at line: 3\nsecond line".to_string(),
    );
    assert_eq!(
        frame.render(),
        "bad \"value\" at line: 3\nsecond line at src/dir with space/ü.rs:7:3"
    );
}

#[test]
fn frame_rendering_is_what_std_formats() {
    let frame = StackFrame::new(Location::new("src/lib.rs", 120, 9), "disk full".to_string());
    let expected = format!(
        "{} at {}:{}:{}",
        frame.message, frame.location.file, frame.location.line, frame.location.column
    );
    assert_eq!(frame.render(), expected);
}

#[test]
fn cloned_frame_equals_the_frame() {
    let frame = StackFrame::new(Location::new("src/x.rs", 10, 5), "boom".to_string());
    let copy = frame.clone();
    assert_eq!(copy, frame);
    assert_eq!(copy.render(), frame.render());
}

#[test]
fn decimal_is_appended_behind_what_is_there() {
    let mut text = "n=".to_string();
    append_decimal(&mut text, 0);
    assert_eq!(text, "n=0");
    append_decimal(&mut text, 7);
    assert_eq!(text, "n=07");
    append_decimal(&mut text, 1234567890);
    assert_eq!(text, "n=071234567890");
}

#[test]
fn decimal_of_the_largest_number() {
    let mut text = String::new();
    append_decimal(&mut text, u64::MAX);
    assert_eq!(text, "18446744073709551615");
}

#[test]
fn decimal_agrees_with_std_around_powers_of_ten() {
    let mut power: u64 = 1;
    for _ in 0..19 {
        for n in [power - 1, power, power + 1] {
            let mut text = String::new();
            append_decimal(&mut text, n);
            assert_eq!(text, n.to_string());
        }
        power *= 10;
    }
}
