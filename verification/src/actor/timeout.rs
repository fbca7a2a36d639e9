//! The per-command timeout of the browser actor.
use vstd::prelude::*;

use crate::text::{decimal, lemma_parse_decimal, parse_unsigned, parse_unsigned_str};

verus! {

/// Timeout of a tool call when the environment names none.
pub const DEFAULT_TOOL_TIMEOUT_MS: u64 = 60_000;

/// Shortest tool-call timeout.
pub const MIN_TOOL_TIMEOUT_MS: u64 = 1_000;

/// Longest tool-call timeout.
pub const MAX_TOOL_TIMEOUT_MS: u64 = 600_000;

/// `v` clamped to `lo..=hi`.
pub open spec fn clamp(v: nat, lo: nat, hi: nat) -> nat {
    if v < lo {
        lo
    } else if v > hi {
        hi
    } else {
        v
    }
}

/// The tool-call timeout, in milliseconds, for a setting `value`: the number it holds,
/// or the default when it is absent or not a number, clamped to the allowed range.
pub open spec fn tool_timeout_ms(value: Option<Seq<char>>) -> nat {
    let v = match value {
        Some(text) => match parse_unsigned(text, u64::MAX as nat) {
            Some(n) => n,
            None => DEFAULT_TOOL_TIMEOUT_MS as nat,
        },
        None => DEFAULT_TOOL_TIMEOUT_MS as nat,
    };
    clamp(v, MIN_TOOL_TIMEOUT_MS as nat, MAX_TOOL_TIMEOUT_MS as nat)
}

/// The tool-call timeout in milliseconds for the setting `value` (see [`tool_timeout_ms`]).
pub fn tool_timeout_from_value(value: Option<&str>) -> (ms: u64)
    ensures
        ms == tool_timeout_ms(
            match value {
                Some(t) => Some(t@),
                None => None,
            },
        ),
        MIN_TOOL_TIMEOUT_MS <= ms <= MAX_TOOL_TIMEOUT_MS,
{
    let v = match value {
        Some(text) => match parse_unsigned_str(text, u64::MAX) {
            Some(n) => n,
            None => DEFAULT_TOOL_TIMEOUT_MS,
        },
        None => DEFAULT_TOOL_TIMEOUT_MS,
    };
    if v < MIN_TOOL_TIMEOUT_MS {
        MIN_TOOL_TIMEOUT_MS
    } else if v > MAX_TOOL_TIMEOUT_MS {
        MAX_TOOL_TIMEOUT_MS
    } else {
        v
    }
}

/// A duration of `millis` milliseconds as a `u64` count, saturating at `u64::MAX`.
pub fn duration_millis(millis: u128) -> (ms: u64)
    ensures
        ms == (if millis > u64::MAX as u128 {
            u64::MAX as u128
        } else {
            millis
        }),
{
    if millis > u64::MAX as u128 {
        u64::MAX
    } else {
        millis as u64
    }
}

/// A setting that spells a timeout of the allowed range in decimal gives that timeout;
/// no setting gives one outside the range.
pub proof fn law_timeout_setting_round_trip(n: nat, value: Option<Seq<char>>)
    requires
        MIN_TOOL_TIMEOUT_MS <= n <= MAX_TOOL_TIMEOUT_MS,
    ensures
        tool_timeout_ms(Some(decimal(n))) == n,
        MIN_TOOL_TIMEOUT_MS <= tool_timeout_ms(value) <= MAX_TOOL_TIMEOUT_MS,
{
    lemma_parse_decimal(n, u64::MAX as nat);
}

} // verus!
