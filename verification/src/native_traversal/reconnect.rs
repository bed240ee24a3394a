//! When to try again, and when to keep an idle path alive. No clock and no timer: callers say what
//! time it is.
use vstd::prelude::*;

verus! {

/// Delays before each attempt; the last repeats.
pub const ANDROID_RECONNECT_DELAYS_MILLIS: [u64; 7] = [
    0,
    1_000,
    2_000,
    5_000,
    10_000,
    30_000,
    60_000,
];

/// Idle time after which an authenticated active path is kept alive.
pub const ACTIVE_PATH_IDLE_THRESHOLD_MILLIS: u64 = 25_000;

/// Reconnect-backoff state. It owns no timer or wake-lock: a platform scheduler consumes the
/// returned delay.
#[derive(Clone, Copy, PartialEq, Eq, Structural, Debug)]
pub struct AndroidReconnectBackoff {
    failed_attempts: usize,
}

/// The delay after a number of failures.
pub open spec fn delay_after(failures: nat) -> u64 {
    if failures < 6 {
        ANDROID_RECONNECT_DELAYS_MILLIS@[failures as int]
    } else {
        60_000
    }
}

impl View for AndroidReconnectBackoff {
    type V = nat;

    /// The failures since the last reset, as far as they can be counted.
    closed spec fn view(&self) -> nat {
        self.failed_attempts as nat
    }
}

impl Default for AndroidReconnectBackoff {
    fn default() -> (backoff: AndroidReconnectBackoff)
        ensures
            backoff@ == 0,
    {
        AndroidReconnectBackoff::new()
    }
}

impl AndroidReconnectBackoff {
    /// Creates the initial immediate-attempt state.
    pub fn new() -> (backoff: AndroidReconnectBackoff)
        ensures
            backoff@ == 0,
    {
        AndroidReconnectBackoff { failed_attempts: 0 }
    }

    /// Returns the delay before the next attempt.
    pub fn next_delay_millis(self) -> (delay: u64)
        ensures
            delay == delay_after(self@),
    {
        let last_index: usize = 6;
        let index: usize = if self.failed_attempts > last_index {
            last_index
        } else {
            self.failed_attempts
        };
        ANDROID_RECONNECT_DELAYS_MILLIS[index]
    }

    /// Advances after one failed bounded connection attempt.
    pub fn record_failure(&mut self)
        ensures
            final(self)@ == if old(self)@ < usize::MAX {
                old(self)@ + 1
            } else {
                old(self)@
            },
    {
        self.failed_attempts = self.failed_attempts.saturating_add(1);
    }

    /// Relevant network change resets to an immediate attempt.
    pub fn reset_for_network_change(&mut self)
        ensures
            final(self)@ == 0,
    {
        self.failed_attempts = 0;
    }

    /// Explicit user action requiring the peer resets to an immediate attempt.
    pub fn reset_for_user_action(&mut self)
        ensures
            final(self)@ == 0,
    {
        self.failed_attempts = 0;
    }

    /// Successful authenticated reconnect clears backoff state.
    pub fn reset_after_success(&mut self)
        ensures
            final(self)@ == 0,
    {
        self.failed_attempts = 0;
    }
}

/// Delays never shrink as failures mount, never exceed a minute, and start at none.
pub proof fn delays_grow_to_a_minute(failures: nat, more: nat)
    requires
        failures <= more,
    ensures
        delay_after(0) == 0,
        delay_after(failures) <= delay_after(more) <= 60_000,
        more >= 6 ==> delay_after(more) == 60_000,
{
}

/// Active-path idle tracker for the authenticated keepalive policy. The caller must use this only
/// for an authenticated active path.
#[derive(Clone, Copy, PartialEq, Eq, Structural, Debug)]
pub struct ActivePathIdlePolicy {
    last_valid_traffic_millis: u64,
    last_keepalive_emitted_millis: u64,
}

/// What an [`ActivePathIdlePolicy`] holds.
pub struct IdleView {
    pub last_traffic: u64,
    pub last_keepalive: u64,
}

impl IdleView {
    /// The later of the two.
    pub open spec fn last_activity(self) -> u64 {
        if self.last_traffic > self.last_keepalive {
            self.last_traffic
        } else {
            self.last_keepalive
        }
    }

    /// A keepalive is due once nothing happened for the whole threshold.
    pub open spec fn is_due(self, now_millis: u64) -> bool {
        now_millis >= self.last_activity() + ACTIVE_PATH_IDLE_THRESHOLD_MILLIS
    }
}

impl View for ActivePathIdlePolicy {
    type V = IdleView;

    closed spec fn view(&self) -> IdleView {
        IdleView {
            last_traffic: self.last_valid_traffic_millis,
            last_keepalive: self.last_keepalive_emitted_millis,
        }
    }
}

impl ActivePathIdlePolicy {
    /// Starts an active-path idle window at the supplied caller time.
    pub fn new(now_millis: u64) -> (policy: ActivePathIdlePolicy)
        ensures
            policy@ == (IdleView { last_traffic: now_millis, last_keepalive: now_millis }),
    {
        ActivePathIdlePolicy {
            last_valid_traffic_millis: now_millis,
            last_keepalive_emitted_millis: now_millis,
        }
    }

    /// Records ordinary valid traffic and suppresses unnecessary keepalive.
    pub fn record_valid_traffic(&mut self, now_millis: u64)
        ensures
            final(self)@ == (IdleView { last_traffic: now_millis, ..old(self)@ }),
    {
        self.last_valid_traffic_millis = now_millis;
    }

    /// Records one bounded authenticated keepalive emission.
    pub fn record_keepalive_emitted(&mut self, now_millis: u64)
        ensures
            final(self)@ == (IdleView { last_keepalive: now_millis, ..old(self)@ }),
    {
        self.last_keepalive_emitted_millis = now_millis;
    }

    /// Returns whether the active authenticated path has been idle long enough for keepalive.
    pub fn should_emit_keepalive(self, now_millis: u64) -> (due: bool)
        ensures
            due == self@.is_due(now_millis),
    {
        let last_activity: u64 = if self.last_valid_traffic_millis
            > self.last_keepalive_emitted_millis {
            self.last_valid_traffic_millis
        } else {
            self.last_keepalive_emitted_millis
        };
        now_millis.saturating_sub(last_activity) >= ACTIVE_PATH_IDLE_THRESHOLD_MILLIS
    }
}

/// Traffic and keepalives alike put the next keepalive off by the whole threshold.
pub proof fn activity_puts_keepalive_off(view: IdleView, moment: u64, now_millis: u64)
    requires
        now_millis < moment + ACTIVE_PATH_IDLE_THRESHOLD_MILLIS,
    ensures
        !(IdleView { last_traffic: moment, ..view }).is_due(now_millis),
        !(IdleView { last_keepalive: moment, ..view }).is_due(now_millis),
{
}

} // verus!
