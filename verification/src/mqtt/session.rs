//! The connection to the broker: what to subscribe to, and how long to wait after a failure.

use vstd::prelude::*;

use crate::text::cat2;

verus! {

/// The shortest wait before reconnecting (seconds).
pub const RECONNECT_DELAY_MIN: u64 = 1;

/// The longest wait before reconnecting (seconds).
pub const RECONNECT_DELAY_MAX: u64 = 60;

/// The topics that bridge and device state arrive on.
pub open spec fn topics(base: Seq<char>) -> Seq<Seq<char>> {
    seq![
        base + "/bridge/devices"@,
        base + "/bridge/groups"@,
        base + "/bridge/state"@,
        base + "/+"@,
        base + "/+/availability"@,
    ]
}

/// The topics to subscribe to, in order.
pub fn subscriptions(base_topic: &str) -> (r: Vec<String>)
    ensures
        r@.map_values(|s: String| s@) == topics(base_topic@),
{
    let mut out: Vec<String> = Vec::new();
    out.push(cat2(base_topic, "/bridge/devices"));
    out.push(cat2(base_topic, "/bridge/groups"));
    out.push(cat2(base_topic, "/bridge/state"));
    out.push(cat2(base_topic, "/+"));
    out.push(cat2(base_topic, "/+/availability"));
    assert(out@.map_values(|s: String| s@) =~= topics(base_topic@));
    out
}

/// What came of waiting for the broker.
#[derive(Clone, Copy, Debug, PartialEq, Eq, Structural)]
pub enum PollOutcome {
    /// A message arrived.
    Message,
    /// The broker accepted the connection.
    Connected,
    /// Something else went on.
    Other,
    Failed,
}

/// What follows from it.
#[derive(Clone, Copy, Debug, PartialEq, Eq, Structural)]
pub enum SessionStep {
    /// Take the message in.
    HandleMessage,
    /// Tell that the broker is there, and subscribe.
    Announce,
    Nothing,
    /// Tell that the broker is gone, and wait before trying again.
    Wait { secs: u64 },
}

/// Keeps track of how long to wait after the next failure.
#[derive(Clone, Copy, Debug, PartialEq, Eq, Structural)]
pub struct Session {
    pub reconnect_delay_secs: u64,
}

impl Session {
    /// The wait lies in its range.
    pub open spec fn wf(self) -> bool {
        RECONNECT_DELAY_MIN <= self.reconnect_delay_secs <= RECONNECT_DELAY_MAX
    }

    pub fn new() -> (r: Self)
        ensures
            r.wf(),
            r.reconnect_delay_secs == RECONNECT_DELAY_MIN,
    {
        Session { reconnect_delay_secs: RECONNECT_DELAY_MIN }
    }

    /// The step that follows from an outcome.
    pub open spec fn step(self, outcome: PollOutcome) -> SessionStep {
        match outcome {
            PollOutcome::Message => SessionStep::HandleMessage,
            PollOutcome::Connected => SessionStep::Announce,
            PollOutcome::Other => SessionStep::Nothing,
            PollOutcome::Failed => SessionStep::Wait { secs: self.reconnect_delay_secs },
        }
    }

    /// Every failure in a row doubles the wait, up to its limit; anything else resets it.
    pub open spec fn after(self, outcome: PollOutcome) -> Session {
        Session {
            reconnect_delay_secs: if outcome != PollOutcome::Failed {
                RECONNECT_DELAY_MIN
            } else if self.reconnect_delay_secs * 2 > RECONNECT_DELAY_MAX {
                RECONNECT_DELAY_MAX
            } else {
                (self.reconnect_delay_secs * 2) as u64
            },
        }
    }

    pub fn advance(&mut self, outcome: PollOutcome) -> (r: SessionStep)
        requires
            old(self).wf(),
        ensures
            r == old(self).step(outcome),
            *final(self) == old(self).after(outcome),
            final(self).wf(),
    {
        match outcome {
            PollOutcome::Message => {
                self.reconnect_delay_secs = RECONNECT_DELAY_MIN;
                SessionStep::HandleMessage
            },
            PollOutcome::Connected => {
                self.reconnect_delay_secs = RECONNECT_DELAY_MIN;
                SessionStep::Announce
            },
            PollOutcome::Other => {
                self.reconnect_delay_secs = RECONNECT_DELAY_MIN;
                SessionStep::Nothing
            },
            PollOutcome::Failed => {
                let secs: u64 = self.reconnect_delay_secs;
                self.reconnect_delay_secs = if secs * 2 > RECONNECT_DELAY_MAX {
                    RECONNECT_DELAY_MAX
                } else {
                    secs * 2
                };
                SessionStep::Wait { secs }
            },
        }
    }
}

/// The session after `n` failures in a row.
pub open spec fn after_failures(s: Session, n: nat) -> Session
    decreases n,
{
    if n == 0 {
        s
    } else {
        after_failures(s, (n - 1) as nat).after(PollOutcome::Failed)
    }
}

/// However many failures come in a row, the wait stays within its range, never shrinks, and from
/// the sixth failure on it is the longest.
pub proof fn law_waits_grow_to_the_limit(s: Session, n: nat)
    requires
        s.wf(),
    ensures
        after_failures(s, n).wf(),
        after_failures(s, n).reconnect_delay_secs <= after_failures(
            s,
            n + 1,
        ).reconnect_delay_secs,
        n >= 6 ==> after_failures(s, n).reconnect_delay_secs == RECONNECT_DELAY_MAX,
    decreases n,
{
    reveal_with_fuel(after_failures, 8);
    if n > 0 {
        law_waits_grow_to_the_limit(s, (n - 1) as nat);
    }
    if n == 6 {
        assert(after_failures(s, 1).reconnect_delay_secs >= 2);
        assert(after_failures(s, 2).reconnect_delay_secs >= 4);
        assert(after_failures(s, 3).reconnect_delay_secs >= 8);
        assert(after_failures(s, 4).reconnect_delay_secs >= 16);
        assert(after_failures(s, 5).reconnect_delay_secs >= 32);
    }
}

/// A failure is waited for as long as the session says, and doubles the next wait, up to a minute;
/// anything else ends the waiting, and the next failure is waited for a second.
pub proof fn law_waits_double(s: Session, outcome: PollOutcome)
    requires
        1 <= s.reconnect_delay_secs <= 60,
    ensures
        s.step(PollOutcome::Failed) == (SessionStep::Wait { secs: s.reconnect_delay_secs }),
        s.reconnect_delay_secs <= 30 ==> s.after(PollOutcome::Failed).reconnect_delay_secs == 2
            * s.reconnect_delay_secs,
        s.reconnect_delay_secs > 30 ==> s.after(PollOutcome::Failed).reconnect_delay_secs == 60,
        outcome != PollOutcome::Failed ==> s.after(outcome).reconnect_delay_secs == 1,
        s.step(outcome) is HandleMessage <==> outcome == PollOutcome::Message,
        s.step(outcome) is Announce <==> outcome == PollOutcome::Connected,
{
}

} // verus!
