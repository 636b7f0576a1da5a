use eliprompt::{start_timer_duration, stop_timer_duration, CmdDuration, Span};

#[test]
fn starting_records_the_clock_reading() {
    assert_eq!(
        start_timer_duration(Span::from_millis(42)),
        CmdDuration::StartedAt(Span::from_millis(42))
    );
}

#[test]
fn stopping_a_running_timer_measures_the_elapsed_time() {
    let started = CmdDuration::StartedAt(Span::from_millis(1000));
    assert_eq!(
        stop_timer_duration(started, Span::from_millis(3500)),
        CmdDuration::Elapsed(Span::from_millis(2500))
    );
}

#[test]
fn stopping_clamps_a_backwards_clock_to_zero() {
    let started = CmdDuration::StartedAt(Span::from_millis(5000));
    assert_eq!(
        stop_timer_duration(started, Span::from_millis(4000)),
        CmdDuration::Elapsed(Span::from_millis(0))
    );
}

#[test]
fn stopping_without_a_running_timer_is_unknown() {
    assert_eq!(
        stop_timer_duration(CmdDuration::Unknown, Span::from_millis(7)),
        CmdDuration::Unknown
    );
    assert_eq!(
        stop_timer_duration(
            CmdDuration::Elapsed(Span::from_millis(3)),
            Span::from_millis(7)
        ),
        CmdDuration::Unknown
    );
}

#[test]
fn from_secs_saturates() {
    assert_eq!(Span::from_secs(2).as_millis(), 2000);
    assert_eq!(Span::from_secs(u64::MAX).as_millis(), u64::MAX);
}
