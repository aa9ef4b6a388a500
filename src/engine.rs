//! Bookkeeping that both charging engines share: the pause notice, the interruption
//! counters, and the test on a PD node's contents.
use vstd::prelude::*;
use crate::text::same_text;

verus! {

/// How long interruption counts are gathered before one summary is reported.
pub const INTERRUPT_REPORT_INTERVAL_MS: u64 = 36_000_000;

/// What an engine should log when it looks at the `free_enabled` flag.
#[derive(Clone, Copy, Debug, PartialEq, Eq, Structural)]
pub enum PauseNotice {
    Nothing,
    Paused,
    Resumed,
}

/// Remembers whether the engine has already logged that it is paused, so that the
/// notice comes once per pause.
#[derive(Clone, Copy, Debug, PartialEq, Eq, Structural)]
pub struct PauseGate {
    pub paused_logged: bool,
}

impl PauseGate {
    pub fn new() -> (r: PauseGate)
        ensures
            !r.paused_logged,
    {
        PauseGate { paused_logged: false }
    }

    /// Looks at the flag: the first look while disabled says `Paused`, the first look
    /// after that while enabled says `Resumed`, and every other look says nothing.
    pub fn observe(&mut self, enabled: bool) -> (r: PauseNotice)
        ensures
            final(self).paused_logged == !enabled,
            r == (if !enabled && !old(self).paused_logged {
                PauseNotice::Paused
            } else if enabled && old(self).paused_logged {
                PauseNotice::Resumed
            } else {
                PauseNotice::Nothing
            }),
    {
        let r = if !enabled && !self.paused_logged {
            PauseNotice::Paused
        } else if enabled && self.paused_logged {
            PauseNotice::Resumed
        } else {
            PauseNotice::Nothing
        };
        self.paused_logged = !enabled;
        r
    }
}

/// The kind of a transient failure of the wait for events.
#[derive(Clone, Copy, Debug, PartialEq, Eq, Structural)]
pub enum Interruption {
    /// The wait was interrupted by a signal.
    Interrupted,
    /// The wait asked to be tried again.
    TryAgain,
}

/// Counts transient failures of the wait, to be reported in one summary at most once
/// every reporting interval.
#[derive(Clone, Copy, Debug, PartialEq, Eq, Structural)]
pub struct InterruptStats {
    pub interrupted: u64,
    pub try_again: u64,
    /// Clock reading, in milliseconds, of the last report (or of the start).
    pub last_report_ms: u64,
}

pub open spec fn bump(n: u64) -> u64 {
    if n == u64::MAX { n } else { (n + 1) as u64 }
}

pub open spec fn elapsed_ms(from: u64, now: u64) -> u64 {
    if now >= from { (now - from) as u64 } else { 0 }
}

impl InterruptStats {
    pub fn new(now_ms: u64) -> (r: InterruptStats)
        ensures
            r == (InterruptStats { interrupted: 0, try_again: 0, last_report_ms: now_ms }),
    {
        InterruptStats { interrupted: 0, try_again: 0, last_report_ms: now_ms }
    }

    /// Counts one failure. When a whole interval has passed since the last report, returns
    /// the two counts to report and starts a new interval with both counts at zero.
    pub fn record(&mut self, kind: Interruption, now_ms: u64) -> (r: Option<(u64, u64)>)
        ensures
            ({
                let i = if kind == Interruption::Interrupted {
                    bump(old(self).interrupted)
                } else {
                    old(self).interrupted
                };
                let a = if kind == Interruption::TryAgain {
                    bump(old(self).try_again)
                } else {
                    old(self).try_again
                };
                if elapsed_ms(old(self).last_report_ms, now_ms) >= INTERRUPT_REPORT_INTERVAL_MS {
                    &&& r == Some((i, a))
                    &&& *final(self) == (InterruptStats {
                        interrupted: 0,
                        try_again: 0,
                        last_report_ms: now_ms,
                    })
                } else {
                    &&& r is None
                    &&& *final(self) == (InterruptStats {
                        interrupted: i,
                        try_again: a,
                        last_report_ms: old(self).last_report_ms,
                    })
                }
            }),
    {
        match kind {
            Interruption::Interrupted => self.interrupted = self.interrupted.saturating_add(1),
            Interruption::TryAgain => self.try_again = self.try_again.saturating_add(1),
        }
        let since = now_ms.saturating_sub(self.last_report_ms);
        if since >= INTERRUPT_REPORT_INTERVAL_MS {
            let counts = (self.interrupted, self.try_again);
            self.interrupted = 0;
            self.try_again = 0;
            self.last_report_ms = now_ms;
            Some(counts)
        } else {
            None
        }
    }

    /// The counts still to report when the engine stops, if any is not zero.
    pub fn pending(&self) -> (r: Option<(u64, u64)>)
        ensures
            r == (if self.interrupted > 0 || self.try_again > 0 {
                Some((self.interrupted, self.try_again))
            } else {
                None
            }),
    {
        if self.interrupted > 0 || self.try_again > 0 {
            Some((self.interrupted, self.try_again))
        } else {
            None
        }
    }
}

/// Whether a PD node that reads `content` (trimmed) must be set back to "1".
pub fn node_needs_reassert(content: &str) -> (r: bool)
    ensures
        r == (content@ == "0"@),
{
    same_text(content, "0")
}

} // verus!
