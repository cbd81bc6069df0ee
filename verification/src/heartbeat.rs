//! The heartbeat liveness monitor.
//!
//! The background heartbeat task alternates sleeping with two
//! decisions: when to send the next beat, and whether the previous
//! beat went unacknowledged for too long. Both decisions live here, as
//! a pure state machine over millisecond clock readings; the task that
//! owns the transport sleeps and sends as instructed. A beat opens a
//! fixed grace window; if the session still reports no acknowledgement
//! when the window closes, the connection is declared dead and the
//! driver must treat it like a close.

use vstd::prelude::*;

verus! {

/// How long after a beat an acknowledgement may take before the
/// connection counts as zombied, in milliseconds.
pub const ACK_GRACE_MS: u64 = 5000;

#[derive(Debug, Clone, Copy, PartialEq, Eq, Structural)]
pub struct HeartbeatMonitor {
    /// The server-announced beat interval.
    pub interval_ms: u64,
    /// When the next beat is due (absolute clock reading).
    pub next_beat_at_ms: u64,
    /// When the open grace window closes, if a beat is unacknowledged.
    pub ack_deadline_ms: Option<u64>,
    /// Whether the connection has been declared dead.
    pub dead: bool,
}

/// What the heartbeat task must do next.
#[derive(Debug, Clone, Copy, PartialEq, Eq, Structural)]
pub enum HeartbeatStep {
    /// Sleep until the given clock reading, then step again.
    Sleep { until_ms: u64 },
    /// Send a heartbeat frame now, mark the session unacknowledged,
    /// and step again no later than the given deadline.
    Beat { ack_deadline_ms: u64 },
    /// The grace window closed without an acknowledgement: stop the
    /// task and treat the connection as closed.
    Dead,
}

pub open spec fn spec_monitor_new(now_ms: u64, interval_ms: u64) -> HeartbeatMonitor {
    HeartbeatMonitor {
        interval_ms,
        next_beat_at_ms: sat_add(now_ms, interval_ms),
        ack_deadline_ms: Option::None,
        dead: false,
    }
}

/// Saturating addition on the millisecond clock: a deadline past the
/// end of the representable range never comes.
pub open spec fn sat_add(a: u64, b: u64) -> u64 {
    if a + b > u64::MAX {
        u64::MAX
    } else {
        (a + b) as u64
    }
}

/// One decision of the monitor, given the clock and whether the
/// session has seen an acknowledgement since the last beat.
pub open spec fn spec_monitor_step(m: HeartbeatMonitor, now_ms: u64, ack_received: bool) -> (
    HeartbeatMonitor,
    HeartbeatStep,
) {
    if m.dead {
        (m, HeartbeatStep::Dead)
    } else if m.ack_deadline_ms is Some && !ack_received {
        if now_ms >= m.ack_deadline_ms->0 {
            (HeartbeatMonitor { dead: true, ..m }, HeartbeatStep::Dead)
        } else {
            (m, HeartbeatStep::Sleep { until_ms: m.ack_deadline_ms->0 })
        }
    } else {
        // acknowledged (or nothing outstanding): the window is closed
        let cleared = HeartbeatMonitor { ack_deadline_ms: Option::None, ..m };
        if now_ms >= m.next_beat_at_ms {
            let deadline = sat_add(now_ms, ACK_GRACE_MS);
            (
                HeartbeatMonitor {
                    next_beat_at_ms: sat_add(now_ms, m.interval_ms),
                    ack_deadline_ms: Some(deadline),
                    ..cleared
                },
                HeartbeatStep::Beat { ack_deadline_ms: deadline },
            )
        } else {
            (cleared, HeartbeatStep::Sleep { until_ms: m.next_beat_at_ms })
        }
    }
}

impl HeartbeatMonitor {
    /// Starts the clock: the first beat is due one interval from now.
    pub fn new(now_ms: u64, interval_ms: u64) -> (r: Self)
        ensures
            r == spec_monitor_new(now_ms, interval_ms),
    {
        HeartbeatMonitor {
            interval_ms,
            next_beat_at_ms: now_ms.saturating_add(interval_ms),
            ack_deadline_ms: None,
            dead: false,
        }
    }

    /// Takes the monitor's next decision. `ack_received` is the
    /// session's acknowledged flag: true when no beat is outstanding.
    pub fn step(&mut self, now_ms: u64, ack_received: bool) -> (s: HeartbeatStep)
        ensures
            (*final(self), s) == spec_monitor_step(*old(self), now_ms, ack_received),
    {
        if self.dead {
            return HeartbeatStep::Dead;
        }
        let outstanding = match self.ack_deadline_ms {
            Some(d) => if ack_received {
                None
            } else {
                Some(d)
            },
            None => None,
        };
        match outstanding {
            Some(deadline) => {
                if now_ms >= deadline {
                    self.dead = true;
                    HeartbeatStep::Dead
                } else {
                    HeartbeatStep::Sleep { until_ms: deadline }
                }
            },
            None => {
                self.ack_deadline_ms = None;
                if now_ms >= self.next_beat_at_ms {
                    let deadline = now_ms.saturating_add(ACK_GRACE_MS);
                    self.next_beat_at_ms = now_ms.saturating_add(self.interval_ms);
                    self.ack_deadline_ms = Some(deadline);
                    HeartbeatStep::Beat { ack_deadline_ms: deadline }
                } else {
                    HeartbeatStep::Sleep { until_ms: self.next_beat_at_ms }
                }
            },
        }
    }
}

/// A silent peer is caught within one interval plus the grace window:
/// starting the monitor at `t0`, beating when the beat comes due, and
/// checking when the grace window closes with no acknowledgement in
/// between, the monitor declares the connection dead — and the window
/// closes exactly `interval + grace` after `t0`.
pub proof fn law_missed_ack_detected(t0: u64, interval_ms: u64)
    ensures
        ({
            let m0 = spec_monitor_new(t0, interval_ms);
            let (m1, s1) = spec_monitor_step(m0, m0.next_beat_at_ms, false);
            let (m2, s2) = spec_monitor_step(m1, m1.ack_deadline_ms->0, false);
            &&& s1 == HeartbeatStep::Beat {
                ack_deadline_ms: sat_add(sat_add(t0, interval_ms), ACK_GRACE_MS),
            }
            &&& s2 is Dead
            &&& m2.dead
        }),
{
}

} // verus!
