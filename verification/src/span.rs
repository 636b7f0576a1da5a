use vstd::prelude::*;

verus! {

/// A non-negative time span with millisecond precision.
///
/// The prompt only ever needs durations for threshold comparisons and a
/// human-readable rendering, both of which work on whole milliseconds.
#[derive(Clone, Copy, Debug, PartialEq, Eq, Structural)]
pub struct Span {
    pub millis: u64,
}

impl Span {
    pub fn from_millis(millis: u64) -> (r: Span)
        ensures
            r.millis == millis,
    {
        Span { millis }
    }

    /// Converts whole seconds, saturating at the largest representable span.
    pub fn from_secs(secs: u64) -> (r: Span)
        ensures
            r.millis == if secs <= u64::MAX / 1000 {
                (secs * 1000) as int
            } else {
                u64::MAX as int
            },
    {
        if secs <= u64::MAX / 1000 {
            Span { millis: secs * 1000 }
        } else {
            Span { millis: u64::MAX }
        }
    }

    pub fn as_millis(&self) -> (r: u64)
        ensures
            r == self.millis,
    {
        self.millis
    }
}

/// What is known about the previous command's duration, as carried across
/// invocations by the shell hooks: nothing, a timer that was started at some
/// instant of a monotonic clock, or a finished measurement.
#[derive(Clone, Copy, Debug, PartialEq, Eq, Structural)]
pub enum CmdDuration {
    Unknown,
    StartedAt(Span),
    Elapsed(Span),
}

impl Default for CmdDuration {
    fn default() -> (r: CmdDuration)
        ensures
            r == CmdDuration::Unknown,
    {
        CmdDuration::Unknown
    }
}

/// The state transition of starting the command timer: whatever was recorded
/// before is replaced by the current reading of the monotonic clock.
pub fn start_timer_duration(now: Span) -> (r: CmdDuration)
    ensures
        r == CmdDuration::StartedAt(now),
{
    CmdDuration::StartedAt(now)
}

/// The state transition of stopping the command timer. A running timer turns
/// into the elapsed time since it was started (clamped to zero if the clock
/// reading went backwards); anything else means no measurement is available.
pub fn stop_timer_duration(prev: CmdDuration, now: Span) -> (r: CmdDuration)
    ensures
        r == match prev {
            CmdDuration::StartedAt(start) => CmdDuration::Elapsed(
                Span {
                    millis: if now.millis >= start.millis {
                        (now.millis - start.millis) as u64
                    } else {
                        0
                    },
                },
            ),
            CmdDuration::Unknown => CmdDuration::Unknown,
            CmdDuration::Elapsed(_) => CmdDuration::Unknown,
        },
{
    match prev {
        CmdDuration::StartedAt(start) => {
            let elapsed: u64 = if now.millis >= start.millis {
                now.millis - start.millis
            } else {
                0
            };
            CmdDuration::Elapsed(Span { millis: elapsed })
        },
        CmdDuration::Unknown => CmdDuration::Unknown,
        CmdDuration::Elapsed(_) => CmdDuration::Unknown,
    }
}

} // verus!
