use game_timers::ColorTag;
use game_timers::Status;
use game_timers::render;
use game_timers::render::countdown_text;
use game_timers::render::decimal_str;
use game_timers::render::padded_decimal;

const NOW: i64 = 1_700_000_000;

#[test]
fn countdown_with_unwrapped_hours() {
    // 25h 3m 9s: the hour field is not wrapped at twenty-four.
    let deadline = NOW + 25 * 3600 + 3 * 60 + 9;
    let (text, _) = render(Status::Good, Some(deadline), NOW);
    assert_eq!(text, "25:03:09");
}

#[test]
fn elapsed_deadline_shows_ready() {
    // A deadline five minutes gone renders the readiness indicator, never
    // a negative countdown.
    let (text, _) = render(Status::Completed, Some(NOW - 300), NOW);
    assert_eq!(text, "Ready");
}

#[test]
fn deadline_exactly_now_shows_ready() {
    let (text, _) = render(Status::Completed, Some(NOW), NOW);
    assert_eq!(text, "Ready");
}

#[test]
fn absent_deadline_shows_nothing() {
    let (text, _) = render(Status::Dead, None, NOW);
    assert_eq!(text, "");
}

#[test]
fn countdown_pads_small_fields() {
    let (text, _) = render(Status::Okay, Some(NOW + 3600 + 2 * 60 + 3), NOW);
    assert_eq!(text, "01:02:03");
}

#[test]
fn countdown_of_seconds_only() {
    let (text, _) = render(Status::Okay, Some(NOW + 59), NOW);
    assert_eq!(text, "00:00:59");
}

#[test]
fn countdown_text_wraps_minutes_and_seconds() {
    assert_eq!(countdown_text(100 * 3600), "100:00:00");
    assert_eq!(countdown_text(3599), "00:59:59");
    assert_eq!(countdown_text(0), "00:00:00");
}

#[test]
fn decimal_rendering() {
    assert_eq!(decimal_str(0), "0");
    assert_eq!(decimal_str(7), "7");
    assert_eq!(decimal_str(10), "10");
    assert_eq!(decimal_str(90061), "90061");
    assert_eq!(padded_decimal(5), "05");
    assert_eq!(padded_decimal(42), "42");
    assert_eq!(padded_decimal(123), "123");
}

#[test]
fn color_tags_follow_status_alone() {
    assert_eq!(render(Status::Good, None, NOW).1, ColorTag::Cyan);
    assert_eq!(render(Status::Okay, None, NOW).1, ColorTag::Yellow);
    assert_eq!(render(Status::Wilting, None, NOW).1, ColorTag::Magenta);
    assert_eq!(render(Status::Completed, None, NOW).1, ColorTag::Green);
    assert_eq!(render(Status::Dead, None, NOW).1, ColorTag::Red);
    assert_eq!(render(Status::Unassigned, None, NOW).1, ColorTag::Magenta);
    // The tag does not depend on the deadline.
    assert_eq!(render(Status::Good, Some(NOW + 5), NOW).1, ColorTag::Cyan);
}

#[test]
fn severity_order_is_explicit() {
    let order = [
        Status::Unassigned,
        Status::Okay,
        Status::Good,
        Status::Wilting,
        Status::Completed,
        Status::Dead,
    ];
    for (i, s) in order.iter().enumerate() {
        assert_eq!(s.severity() as usize, i);
    }
    assert_eq!(Status::Okay.worse(Status::Good), Status::Good);
    assert_eq!(Status::Dead.worse(Status::Okay), Status::Dead);
    assert_eq!(Status::Wilting.worse(Status::Wilting), Status::Wilting);
}
