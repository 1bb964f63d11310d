//! How long the commands wait.

use crate::config::read_seconds;
use crate::number::{parse_number, decimal, numbers_are_read, read_number, zeros};
use crate::paths::text_view;
use vstd::prelude::*;

verus! {

/// What the variables say that override the delays.
#[derive(Debug, PartialEq, Eq)]
pub struct DelayEnvironment {
    /// After the first wake packet of a screen restore.
    pub screen_on_initial_wake: Option<String>,
    /// After a later wake packet of a screen restore.
    pub screen_on_retry: Option<String>,
    /// After the first wake packet of a start.
    pub startup_initial_wake: Option<String>,
    /// After a later wake packet of a start.
    pub startup_retry: Option<String>,
    /// Between attempts before a sleep.
    pub sleep_retry: Option<String>,
}

/// The delays that are overridden, in seconds.
#[derive(Debug, Clone, Copy, PartialEq, Eq, Structural)]
pub struct Delays {
    /// After the first wake packet of a screen restore.
    pub screen_on_initial_wake: Option<u64>,
    /// After a later wake packet of a screen restore.
    pub screen_on_retry: Option<u64>,
    /// After the first wake packet of a start.
    pub startup_initial_wake: Option<u64>,
    /// After a later wake packet of a start.
    pub startup_retry: Option<u64>,
    /// Between attempts before a sleep.
    pub sleep_retry: Option<u64>,
}

/// The seconds that a variable sets: none where it is not set or is no number.
pub open spec fn override_of(value: Option<Seq<char>>) -> Option<u64> {
    match value {
        Some(text) => read_seconds(text),
        None => None,
    }
}

/// The overriding seconds, or the usual ones.
pub open spec fn seconds_or(overriding: Option<u64>, usual: u64) -> u64 {
    match overriding {
        Some(seconds) => seconds,
        None => usual,
    }
}

/// The usual seconds to wait after the attempt with the given number: twice the number, at
/// most half a minute.
pub open spec fn usual_retry_delay(attempt: u32) -> u64 {
    if attempt * 2 < 30 {
        (attempt * 2) as u64
    } else {
        30
    }
}

impl Delays {
    /// No delay is overridden.
    pub open spec fn none() -> Delays {
        Delays {
            screen_on_initial_wake: None,
            screen_on_retry: None,
            startup_initial_wake: None,
            startup_retry: None,
            sleep_retry: None,
        }
    }

    /// Seconds after the first wake packet of a screen restore.
    pub open spec fn screen_on_initial(self) -> u64 {
        seconds_or(self.screen_on_initial_wake, 6)
    }

    /// Seconds after the first wake packet of a start.
    pub open spec fn startup_initial(self) -> u64 {
        seconds_or(self.startup_initial_wake, 6)
    }

    /// Seconds after the given attempt of a screen restore.
    pub open spec fn screen_on_after(self, attempt: u32) -> u64 {
        seconds_or(self.screen_on_retry, usual_retry_delay(attempt))
    }

    /// Seconds after the given attempt of a start.
    pub open spec fn startup_after(self, attempt: u32) -> u64 {
        seconds_or(self.startup_retry, usual_retry_delay(attempt))
    }

    /// Seconds between attempts before a sleep.
    pub open spec fn before_sleep(self) -> u64 {
        seconds_or(self.sleep_retry, 1)
    }

    /// No delay is overridden.
    pub fn usual() -> (delays: Delays)
        ensures
            delays == Delays::none(),
    {
        Delays {
            screen_on_initial_wake: None,
            screen_on_retry: None,
            startup_initial_wake: None,
            startup_retry: None,
            sleep_retry: None,
        }
    }

    /// The delays that the variables override.
    pub fn from_env(env: &DelayEnvironment) -> (delays: Delays)
        ensures
            delays == (Delays {
                screen_on_initial_wake: override_of(text_view(env.screen_on_initial_wake)),
                screen_on_retry: override_of(text_view(env.screen_on_retry)),
                startup_initial_wake: override_of(text_view(env.startup_initial_wake)),
                startup_retry: override_of(text_view(env.startup_retry)),
                sleep_retry: override_of(text_view(env.sleep_retry)),
            }),
    {
        Delays {
            screen_on_initial_wake: parse_override(&env.screen_on_initial_wake),
            screen_on_retry: parse_override(&env.screen_on_retry),
            startup_initial_wake: parse_override(&env.startup_initial_wake),
            startup_retry: parse_override(&env.startup_retry),
            sleep_retry: parse_override(&env.sleep_retry),
        }
    }
}

/// The seconds that a variable sets.
fn parse_override(value: &Option<String>) -> (seconds: Option<u64>)
    ensures
        seconds == override_of(text_view(*value)),
{
    match value {
        Some(text) => match parse_number(text.as_str(), u64::MAX) {
            Ok(seconds) => Some(seconds),
            Err(_) => None,
        },
        None => None,
    }
}

/// The overriding seconds, or the usual ones.
pub fn duration_override_secs(overriding: Option<u64>, usual: u64) -> (seconds: u64)
    ensures
        seconds == seconds_or(overriding, usual),
{
    match overriding {
        Some(seconds) => seconds,
        None => usual,
    }
}

/// The usual seconds to wait after the attempt with the given number.
fn retry_delay(attempt: u32) -> (seconds: u64)
    requires
        attempt <= 0x7fff_ffff,
    ensures
        seconds == usual_retry_delay(attempt),
{
    let doubled: u32 = attempt * 2;
    if doubled < 30 {
        doubled as u64
    } else {
        30
    }
}

/// Seconds after the first wake packet of a screen restore.
pub fn screen_on_initial_wake_delay(delays: &Delays) -> (seconds: u64)
    ensures
        seconds == delays.screen_on_initial(),
{
    duration_override_secs(delays.screen_on_initial_wake, 6)
}

/// Seconds after the first wake packet of a start.
pub fn startup_initial_wake_delay(delays: &Delays) -> (seconds: u64)
    ensures
        seconds == delays.startup_initial(),
{
    duration_override_secs(delays.startup_initial_wake, 6)
}

/// Seconds after the given attempt of a screen restore.
pub fn screen_on_retry_delay(delays: &Delays, attempt: u32) -> (seconds: u64)
    requires
        attempt <= 0x7fff_ffff,
    ensures
        seconds == delays.screen_on_after(attempt),
{
    duration_override_secs(delays.screen_on_retry, retry_delay(attempt))
}

/// Seconds after the given attempt of a start.
pub fn startup_retry_delay(delays: &Delays, attempt: u32) -> (seconds: u64)
    requires
        attempt <= 0x7fff_ffff,
    ensures
        seconds == delays.startup_after(attempt),
{
    duration_override_secs(delays.startup_retry, retry_delay(attempt))
}

/// Seconds between attempts before a sleep.
pub fn system_sleep_retry_delay(delays: &Delays) -> (seconds: u64)
    ensures
        seconds == delays.before_sleep(),
{
    duration_override_secs(delays.sleep_retry, 1)
}

/// An overriding delay is kept to whatever it is. Otherwise the first pause of a wake takes six
/// seconds, the pause before another attempt before a sleep one, and the pause after an attempt
/// of a wake twice as many as its number, up to thirty.
pub proof fn delays_are_kept_to(delays: Delays, attempt: u32, seconds: u64)
    ensures
        delays.screen_on_initial_wake == Some(seconds) ==> delays.screen_on_initial() == seconds,
        delays.screen_on_initial_wake is None ==> delays.screen_on_initial() == 6,
        delays.startup_initial_wake == Some(seconds) ==> delays.startup_initial() == seconds,
        delays.startup_initial_wake is None ==> delays.startup_initial() == 6,
        delays.sleep_retry == Some(seconds) ==> delays.before_sleep() == seconds,
        delays.sleep_retry is None ==> delays.before_sleep() == 1,
        delays.screen_on_retry == Some(seconds) ==> delays.screen_on_after(attempt) == seconds,
        delays.startup_retry == Some(seconds) ==> delays.startup_after(attempt) == seconds,
        delays.screen_on_retry is None && attempt <= 15 ==> delays.screen_on_after(attempt) == 2
            * attempt,
        delays.screen_on_retry is None && attempt >= 15 ==> delays.screen_on_after(attempt) == 30,
        delays.startup_retry is None && attempt <= 15 ==> delays.startup_after(attempt) == 2
            * attempt,
        delays.startup_retry is None && attempt >= 15 ==> delays.startup_after(attempt) == 30,
{
}

/// A variable overrides a delay where it is a number of seconds, with or without zeros or a
/// plus sign before it, and not where it is anything else, or not set.
pub proof fn overrides_are_numbers(sign: bool, count: nat, seconds: u64, text: Seq<char>)
    ensures
        override_of(
            Some(
                if sign {
                    seq!['+'] + (zeros(count) + decimal(seconds as nat))
                } else {
                    zeros(count) + decimal(seconds as nat)
                },
            ),
        ) == Some(seconds),
        override_of(Some(text)) is Some <==> read_number(text, u64::MAX as nat) is Ok,
        override_of(None) is None,
{
    numbers_are_read(sign, count, seconds as nat, u64::MAX as nat);
}

} // verus!
