//! Cancellation of one browser command.
use vstd::prelude::*;

use super::error::{BrowserError, ErrorView};

verus! {

/// Why a command stopped early, if it did.
#[derive(Clone, Copy, Debug, PartialEq, Eq, Structural)]
pub enum CancellationReason {
    Active,
    Cancelled,
    Deadline,
}

/// The error that a command ends with for `reason`.
pub open spec fn reason_error(reason: CancellationReason, timeout_ms: u64) -> Option<ErrorView> {
    match reason {
        CancellationReason::Active => None,
        CancellationReason::Cancelled => Some(ErrorView::Cancelled),
        CancellationReason::Deadline => Some(ErrorView::Timeout(timeout_ms)),
    }
}

/// The byte that stores each reason.
pub open spec fn reason_code(reason: CancellationReason) -> u8 {
    match reason {
        CancellationReason::Active => 0,
        CancellationReason::Cancelled => 1,
        CancellationReason::Deadline => 2,
    }
}

pub open spec fn optional_error_view(e: Option<BrowserError>) -> Option<ErrorView> {
    match e {
        Some(x) => Some(x@),
        None => None,
    }
}

impl CancellationReason {
    /// The byte that stores this reason.
    pub fn code(self) -> (c: u8)
        ensures
            c == reason_code(self),
    {
        match self {
            CancellationReason::Active => 0,
            CancellationReason::Cancelled => 1,
            CancellationReason::Deadline => 2,
        }
    }

    /// The reason stored as `value`; unknown bytes read as active.
    pub fn from_u8(value: u8) -> (r: CancellationReason)
        ensures
            r == reason_from_code(value),
    {
        match value {
            1 => CancellationReason::Cancelled,
            2 => CancellationReason::Deadline,
            _ => CancellationReason::Active,
        }
    }

    /// The error a command ends with for this reason: none while active, `Cancelled`
    /// when cancelled, and a timeout of `timeout_ms` when its deadline passed.
    pub fn error(self, timeout_ms: u64) -> (e: Option<BrowserError>)
        ensures
            optional_error_view(e) == reason_error(self, timeout_ms),
    {
        match self {
            CancellationReason::Active => None,
            CancellationReason::Cancelled => Some(BrowserError::Cancelled),
            CancellationReason::Deadline => Some(BrowserError::Timeout(timeout_ms)),
        }
    }
}

/// The reason that the byte `value` stores: unknown bytes read as active.
pub open spec fn reason_from_code(value: u8) -> CancellationReason {
    if value == 1 {
        CancellationReason::Cancelled
    } else if value == 2 {
        CancellationReason::Deadline
    } else {
        CancellationReason::Active
    }
}

/// Reading back the stored byte of a reason gives the reason.
pub proof fn law_reason_code_round_trip(reason: CancellationReason)
    ensures
        reason_from_code(reason_code(reason)) == reason,
{
}

/// The cancellation state of one command.
///
/// A command is cancelled at most once: the first successful cancellation fixes the
/// reason. Cancellation is refused once the engine has committed a physical action (a
/// pressed mouse button must be released), or when the engine itself refuses it.
pub struct CommandCancellation {
    pub reason: CancellationReason,
}

impl CommandCancellation {
    /// A command that has not been cancelled.
    pub fn new() -> (c: CommandCancellation)
        ensures
            c.reason == CancellationReason::Active,
    {
        CommandCancellation { reason: CancellationReason::Active }
    }

    /// The reason this command stopped early, if it did.
    pub fn reason(&self) -> (r: CancellationReason)
        ensures
            r == self.reason,
    {
        self.reason
    }

    /// Cancels the command for `reason`, unless it is already cancelled or the engine
    /// has committed a physical action (`committed`). Only then is the engine asked to
    /// stop (`stop_engine`), and the cancellation takes effect only if it agrees.
    pub fn cancel<F: FnOnce() -> bool>(
        &mut self,
        reason: CancellationReason,
        committed: bool,
        stop_engine: F,
    ) -> (r: bool)
        requires
            stop_engine.requires(()),
        ensures
            r ==> old(self).reason == CancellationReason::Active && !committed
                && stop_engine.ensures((), true) && final(self).reason == reason,
            !r ==> final(self).reason == old(self).reason,
            !r && old(self).reason == CancellationReason::Active && !committed ==> stop_engine.ensures(
                (),
                false,
            ),
    {
        if self.reason != CancellationReason::Active || committed {
            return false;
        }
        if !stop_engine() {
            return false;
        }
        self.reason = reason;
        true
    }
}

} // verus!
