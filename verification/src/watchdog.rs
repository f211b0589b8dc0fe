//! The watchdog that keeps a video or audio stream alive: it polls the
//! stream, restarts it when it has ended or failed, and backs off between
//! failed restarts.
use vstd::prelude::*;
use vstd::arithmetic::power2::{pow2, lemma_pow2_unfold};

use crate::errors::{AppError, error_text};
use crate::settings::opt_view;

verus! {

/// How long the watchdog sleeps between two polls of the stream.
pub const POLL_INTERVAL_MS: u64 = 500u64;

/// The base wait: the wait before any restart has failed, and the value
/// it returns to once a stream runs again. Each failure doubles it.
pub const INITIAL_BACKOFF_MS: u64 = 1000u64;

/// The longest wait between two restarts.
pub const MAX_BACKOFF_MS: u64 = 10000u64;

/// Which stream a watchdog looks after.
#[derive(Debug, Clone, Copy, PartialEq, Eq, Structural)]
pub enum StreamKind {
    Video,
    Audio,
}

/// What the supervising thread observed.
#[derive(Debug, Clone, Copy, PartialEq, Eq, Structural)]
pub enum WatchdogEvent {
    /// A poll: whether the supervisor is being dropped, and whether the
    /// stream is gone or has failed.
    Tick { stop_requested: bool, needs_restart: bool },
    /// The stream was started again.
    Restarted,
    /// Starting the stream again failed with this error.
    RestartFailed { error: AppError },
}

/// What the supervising thread has to do next.
#[derive(Debug)]
pub enum WatchdogAction {
    /// Leave the loop.
    Exit,
    /// The stream is fine: poll again.
    KeepWatching,
    /// Drop the current stream and start a new one.
    Restart,
    /// The new stream runs: publish the notice, if any, and poll again.
    Resume { notice: Option<String> },
    /// Publish the notice, if any, then wait this long before the next poll.
    RetryAfter { delay_ms: u64, notice: Option<String> },
}

/// The wait that follows one more failed restart after a wait of `b`.
pub open spec fn next_backoff(b: int) -> int {
    if 2 * b < MAX_BACKOFF_MS {
        2 * b
    } else {
        MAX_BACKOFF_MS as int
    }
}

/// The wait after `k` consecutive failed restarts: the initial wait
/// doubled `k` times, capped at the maximum.
pub open spec fn backoff_after(k: nat) -> int {
    if INITIAL_BACKOFF_MS * pow2(k) < MAX_BACKOFF_MS {
        INITIAL_BACKOFF_MS * pow2(k)
    } else {
        MAX_BACKOFF_MS as int
    }
}

/// The notice published after a stream was started again.
pub open spec fn reconnect_notice(kind: StreamKind) -> Option<Seq<char>> {
    match kind {
        StreamKind::Video => Some("Video reconnected automatically."@),
        StreamKind::Audio => Some("Audio reconnected automatically."@),
    }
}

/// The notice published after a restart failed with `e`.
pub open spec fn failure_notice(kind: StreamKind, e: AppError) -> Option<Seq<char>> {
    match kind {
        StreamKind::Video => Some("Video reconnect failed: "@ + error_text(e) + ". Retrying..."@),
        StreamKind::Audio => None,
    }
}

/// The watchdog of one stream.
pub struct Watchdog {
    kind: StreamKind,
    backoff_ms: u64,
    /// Consecutive failed restarts since the watchdog began or a stream was
    /// last found healthy or restarted.
    failures: Ghost<nat>,
}

impl Watchdog {
    #[verifier::type_invariant]
    spec fn inv(self) -> bool {
        &&& INITIAL_BACKOFF_MS <= self.backoff_ms <= MAX_BACKOFF_MS
        &&& self.backoff_ms == backoff_after(self.failures@)
    }

    /// Consecutive failed restarts since the watchdog began or the stream
    /// was last found healthy or started again.
    pub closed spec fn failures(self) -> nat {
        self.failures@
    }

    /// The current wait between failed restarts.
    pub closed spec fn backoff(self) -> u64 {
        self.backoff_ms
    }

    /// The stream looked after.
    pub closed spec fn stream(self) -> StreamKind {
        self.kind
    }

    /// A watchdog for `kind` with the initial wait.
    pub fn new(kind: StreamKind) -> (r: Self)
        ensures
            r.stream() == kind,
            r.backoff() == INITIAL_BACKOFF_MS,
            r.failures() == 0,
    {
        proof {
            law_backoff_doubles_to_cap(0);
        }
        Watchdog { kind, backoff_ms: INITIAL_BACKOFF_MS, failures: Ghost(0nat) }
    }

    /// The current wait between failed restarts.
    pub fn backoff_ms(&self) -> (r: u64)
        ensures
            r == self.backoff(),
            r == backoff_after(self.failures()),
            INITIAL_BACKOFF_MS <= r <= MAX_BACKOFF_MS,
    {
        proof {
            use_type_invariant(self);
        }
        self.backoff_ms
    }

    /// Decides what to do on `event`.
    pub fn step(&mut self, event: WatchdogEvent) -> (r: WatchdogAction)
        ensures
            final(self).stream() == old(self).stream(),
            INITIAL_BACKOFF_MS <= final(self).backoff() <= MAX_BACKOFF_MS,
            final(self).backoff() == backoff_after(final(self).failures()),
            match event {
                WatchdogEvent::Tick { stop_requested, needs_restart } => {
                    if stop_requested {
                        &&& r is Exit
                        &&& final(self).backoff() == old(self).backoff()
                        &&& final(self).failures() == old(self).failures()
                    } else if !needs_restart {
                        &&& r is KeepWatching
                        &&& final(self).backoff() == INITIAL_BACKOFF_MS
                        &&& final(self).failures() == 0
                    } else {
                        &&& r is Restart
                        &&& final(self).backoff() == old(self).backoff()
                        &&& final(self).failures() == old(self).failures()
                    }
                },
                WatchdogEvent::Restarted => {
                    &&& final(self).backoff() == INITIAL_BACKOFF_MS
                    &&& final(self).failures() == 0
                    &&& r matches WatchdogAction::Resume { notice }
                    &&& opt_view(notice) == reconnect_notice(old(self).stream())
                },
                WatchdogEvent::RestartFailed { error } => {
                    &&& final(self).failures() == old(self).failures() + 1
                    &&& final(self).backoff() == next_backoff(old(self).backoff() as int)
                    &&& r matches WatchdogAction::RetryAfter { delay_ms, notice }
                    &&& delay_ms == final(self).backoff()
                    &&& delay_ms == backoff_after(old(self).failures() + 1)
                    &&& opt_view(notice) == failure_notice(old(self).stream(), error)
                },
            },
    {
        proof {
            use_type_invariant(&*self);
        }
        match event {
            WatchdogEvent::Tick { stop_requested, needs_restart } => {
                if stop_requested {
                    WatchdogAction::Exit
                } else if !needs_restart {
                    proof {
                        law_backoff_doubles_to_cap(0);
                    }
                    *self = Watchdog {
                        kind: self.kind,
                        backoff_ms: INITIAL_BACKOFF_MS,
                        failures: Ghost(0nat),
                    };
                    WatchdogAction::KeepWatching
                } else {
                    WatchdogAction::Restart
                }
            },
            WatchdogEvent::Restarted => {
                proof {
                    law_backoff_doubles_to_cap(0);
                }
                *self = Watchdog {
                    kind: self.kind,
                    backoff_ms: INITIAL_BACKOFF_MS,
                    failures: Ghost(0nat),
                };
                let notice = match self.kind {
                    StreamKind::Video => String::from_str("Video reconnected automatically."),
                    StreamKind::Audio => String::from_str("Audio reconnected automatically."),
                };
                WatchdogAction::Resume { notice: Some(notice) }
            },
            WatchdogEvent::RestartFailed { error } => {
                proof {
                    law_backoff_doubles_to_cap(self.failures@);
                }
                let doubled = self.backoff_ms * 2;
                let next = if doubled < MAX_BACKOFF_MS {
                    doubled
                } else {
                    MAX_BACKOFF_MS
                };
                *self = Watchdog {
                    kind: self.kind,
                    backoff_ms: next,
                    failures: Ghost(self.failures@ + 1),
                };
                let notice = match self.kind {
                    StreamKind::Video => {
                        let text = String::from_str("Video reconnect failed: ");
                        let text = text.concat(error.message());
                        Some(text.concat(". Retrying..."))
                    },
                    StreamKind::Audio => None,
                };
                WatchdogAction::RetryAfter { delay_ms: self.backoff_ms, notice }
            },
        }
    }
}

/// Each failed restart doubles the wait until it reaches the maximum:
/// without failures the watchdog waits the initial 1 s, and after the
/// `k + 1`-th consecutive failure it waits `min(2^(k+1) s, 10 s)`, which is
/// the doubled wait after the `k`-th, capped.
pub proof fn law_backoff_doubles_to_cap(k: nat)
    ensures
        backoff_after(0) == INITIAL_BACKOFF_MS,
        next_backoff(backoff_after(k)) == backoff_after(k + 1),
{
    vstd::arithmetic::power2::lemma2_to64();
    assert(pow2(0) == 1);
    lemma_pow2_unfold(k + 1);
    assert(pow2(k + 1) == 2 * pow2(k));
}

/// The wait never leaves the bounds `[1 s, 10 s]`, however many failures
/// come in a row.
pub proof fn law_backoff_bounded(k: nat)
    ensures
        INITIAL_BACKOFF_MS <= backoff_after(k) <= MAX_BACKOFF_MS,
{
    vstd::arithmetic::power2::lemma_pow2_pos(k);
}

} // verus!
