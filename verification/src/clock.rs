//! Points in time, and what is derived from the current one.
use vstd::prelude::*;

use crate::call::value_of;
use crate::text::decimal;
use crate::text::decimal_text;
use crate::text::join;

verus! {

/// A point in time: whole seconds since the start of 1970 in UTC, and nanoseconds behind them.
#[derive(Clone, Copy, PartialEq, Eq, Structural)]
pub struct Timestamp {
    pub seconds: i64,
    pub nanos: u32,
}

/// How far back a listing of updated rows reaches when the client does not say.
pub const DEFAULT_UPDATED_WINDOW: i64 = 3600;

/// `chrono::Utc::now`, taken apart by `timestamp` and `timestamp_subsec_nanos`.
///
/// Trusted: the time is not before 1970, and never inside a leap second. Which time it is, is left
/// unsaid. There is no time to return while the system's clock stands before 1970.
#[verifier::external_body]
fn now() -> (now: Timestamp)
    ensures
        clock_time(now),
{
    let now = chrono::Utc::now();
    Timestamp { seconds: now.timestamp(), nanos: now.timestamp_subsec_nanos() }
}

/// The time was read from the clock.
pub closed spec fn was_read(time: Timestamp) -> bool {
    call_ensures(now, (), time)
}

/// The name of a workspace that was created at `seconds` without a name of its own.
pub open spec fn default_workspace_name(seconds: int) -> Seq<char> {
    "workspace_"@ + decimal(seconds)
}

/// The name for a workspace that is created at `seconds`: the one asked for, else one that is made
/// of the time.
pub fn workspace_name_at(asked: Option<String>, seconds: i64) -> (name: String)
    ensures
        match asked {
            Some(asked) => name == asked,
            None => name@ == default_workspace_name(seconds as int),
        },
{
    match asked {
        Some(name) => name,
        None => join("workspace_", decimal_text(seconds).as_str()),
    }
}

/// The name for a workspace that is created now.
pub fn workspace_name(asked: Option<String>) -> (name: String)
    ensures
        match asked {
            Some(asked) => name == asked,
            None => exists|now: Timestamp| #[trigger]
                was_read(now) && clock_time(now) && name@ == default_workspace_name(
                    now.seconds as int,
                ),
        },
{
    match asked {
        Some(name) => name,
        None => {
            let time = value_of(now);
            assert(was_read(time));
            workspace_name_at(None, time.seconds)
        },
    }
}

/// The start of the default listing of updated rows when it is `now`.
pub open spec fn window_start(now: Timestamp) -> Timestamp {
    Timestamp { seconds: (now.seconds - DEFAULT_UPDATED_WINDOW) as i64, nanos: now.nanos }
}

/// The clock can show this time.
pub open spec fn clock_time(time: Timestamp) -> bool {
    &&& 0 <= time.seconds
    &&& time.nanos < 1_000_000_000
}

/// The time from which updated rows are listed, when it is `now`: the one asked for, else an hour
/// ago.
pub fn updated_after_at(asked: Option<Timestamp>, now: Timestamp) -> (after: Timestamp)
    requires
        now.seconds >= i64::MIN + DEFAULT_UPDATED_WINDOW,
    ensures
        match asked {
            Some(asked) => after == asked,
            None => after == window_start(now) && after.seconds == now.seconds
                - DEFAULT_UPDATED_WINDOW && after.seconds == now.seconds - 3600 && after.nanos
                == now.nanos,
        },
{
    match asked {
        Some(after) => after,
        None => Timestamp { seconds: now.seconds - DEFAULT_UPDATED_WINDOW, nanos: now.nanos },
    }
}

/// The time from which updated rows are listed.
pub fn updated_after(asked: Option<Timestamp>) -> (after: Timestamp)
    ensures
        match asked {
            Some(asked) => after == asked,
            None => exists|now: Timestamp| #[trigger]
                was_read(now) && clock_time(now) && after == window_start(now) && after.seconds
                    == now.seconds - 3600 && after.nanos == now.nanos,
        },
{
    match asked {
        Some(after) => after,
        None => {
            let time = value_of(now);
            assert(was_read(time));
            updated_after_at(None, time)
        },
    }
}

/// A reading of the clock is what asking the clock gave, and nothing else.
proof fn readings_come_from_the_clock(time: Timestamp)
    requires
        was_read(time),
    ensures
        call_ensures(now, (), time),
        0 <= time.seconds,
        time.nanos < 1_000_000_000,
{
}

/// The listing of updated rows starts an hour before the time at which it is asked for: as much
/// later as that time is, and at the same fraction of a second.
pub proof fn window_is_an_hour(now: Timestamp, later: Timestamp)
    requires
        now.seconds >= i64::MIN + 3600,
        later.seconds >= i64::MIN + 3600,
    ensures
        now.seconds - window_start(now).seconds == 3600,
        window_start(now).nanos == now.nanos,
        window_start(later).seconds - window_start(now).seconds == later.seconds - now.seconds,
{
}

/// The name of a workspace without a name tells the time of its creation, in decimal notation
/// behind a fixed word.
pub proof fn default_names_tell_the_time(seconds: int)
    ensures
        default_workspace_name(seconds) == "workspace_"@ + decimal(seconds),
{
}

} // verus!
