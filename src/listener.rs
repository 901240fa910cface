use vstd::prelude::*;

verus! {

/// The database notification channel that carries reservation changes.
pub const CHANGE_CHANNEL: &'static str = "reservation_update";

/// First delay before reconnecting the change listener, in milliseconds.
pub const BACKOFF_BASE_MS: u64 = 100;

/// Longest delay before reconnecting the change listener, in milliseconds.
pub const BACKOFF_CAP_MS: u64 = 5000;

/// Delay before the reconnection after `attempt` failed ones: doubling from
/// the base, never past the cap.
pub open spec fn backoff_ms(attempt: nat) -> nat
    decreases attempt,
{
    if attempt == 0 {
        BACKOFF_BASE_MS as nat
    } else {
        let d = 2 * backoff_ms((attempt - 1) as nat);
        if d > BACKOFF_CAP_MS {
            BACKOFF_CAP_MS as nat
        } else {
            d
        }
    }
}

/// The delay before the reconnection that follows `attempt` failed ones.
pub fn reconnect_delay_ms(attempt: u32) -> (r: u64)
    ensures
        r == backoff_ms(attempt as nat),
        BACKOFF_BASE_MS <= r <= BACKOFF_CAP_MS,
{
    let mut delay: u64 = BACKOFF_BASE_MS;
    let mut i: u32 = 0;
    while i < attempt && delay < BACKOFF_CAP_MS
        invariant
            i <= attempt,
            delay == backoff_ms(i as nat),
            BACKOFF_BASE_MS <= delay <= BACKOFF_CAP_MS,
        decreases attempt - i,
    {
        delay = if delay * 2 > BACKOFF_CAP_MS {
            BACKOFF_CAP_MS
        } else {
            delay * 2
        };
        i = i + 1;
    }
    proof {
        lemma_backoff_capped(i as nat, attempt as nat);
    }
    delay
}

/// Once the delay has reached the cap it stays there.
proof fn lemma_backoff_capped(i: nat, n: nat)
    requires
        i <= n,
        backoff_ms(i) == BACKOFF_CAP_MS || i == n,
    ensures
        backoff_ms(n) == backoff_ms(i),
    decreases n - i,
{
    if i < n {
        lemma_backoff_capped(i, (n - 1) as nat);
        assert(backoff_ms(n) == BACKOFF_CAP_MS);
    }
}

/// The reconnection state of the change listener: how many connection
/// attempts in a row have failed.
#[derive(Clone, Copy, Debug, PartialEq, Eq, Structural)]
pub struct Reconnect {
    pub failures: u32,
}

impl Reconnect {
    pub fn new() -> (r: Reconnect)
        ensures
            r.failures == 0,
    {
        Reconnect { failures: 0 }
    }

    /// A connection attempt failed: the delay to wait before the next one.
    pub fn on_failure(&mut self) -> (r: u64)
        ensures
            r == backoff_ms(old(self).failures as nat),
            final(self).failures == if old(self).failures == u32::MAX {
                u32::MAX
            } else {
                (old(self).failures + 1) as u32
            },
    {
        let d = reconnect_delay_ms(self.failures);
        if self.failures < u32::MAX {
            self.failures = self.failures + 1;
        }
        d
    }

    /// The listener is connected again: the next failure starts from the base delay.
    pub fn on_connected(&mut self)
        ensures
            final(self).failures == 0,
    {
        self.failures = 0;
    }
}

} // verus!
