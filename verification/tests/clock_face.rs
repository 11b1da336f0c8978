use vapour::animation::next_frame;
use vapour::clock::{clock_label, strip_leading_char};

#[test]
fn clock_label_examples() {
    assert_eq!(clock_label(0, 5), "12:05 AM");
    assert_eq!(clock_label(9, 5), "9:05 AM");
    assert_eq!(clock_label(12, 0), "12:00 PM");
    assert_eq!(clock_label(13, 30), "1:30 PM");
    assert_eq!(clock_label(23, 59), "11:59 PM");
    assert_eq!(clock_label(10, 0), "10:00 AM");
}

#[test]
fn clock_label_never_starts_with_zero() {
    for hour in 0..24 {
        for minute in [0, 7, 59] {
            let label = clock_label(hour, minute);
            let first = label.chars().next().unwrap();
            assert!(('1'..='9').contains(&first), "{}", label);
        }
    }
}

#[test]
fn strip_leading_char_examples() {
    assert_eq!(strip_leading_char("009", '0'), "9");
    assert_eq!(strip_leading_char("000", '0'), "");
    assert_eq!(strip_leading_char("10", '0'), "10");
}

#[test]
fn next_frame_wraps() {
    assert_eq!(next_frame(0, 3), 1);
    assert_eq!(next_frame(2, 3), 0);
    assert_eq!(next_frame(0, 1), 0);
}

#[test]
fn animation_visits_every_frame() {
    let count = 5;
    let mut seen = vec![false; count];
    let mut i = 3;
    for _ in 0..count {
        i = next_frame(i, count);
        seen[i] = true;
    }
    assert!(seen.iter().all(|s| *s));
    assert_eq!(i, 3);
}
