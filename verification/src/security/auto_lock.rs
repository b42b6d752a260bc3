//! Automatic locking after a time without activity.
//!
//! The manager keeps the moment of the last activity. Whether the wallet is
//! due for locking is decided from the seconds that have passed since, which
//! the clock gives; the decision itself is a function of that number.

use std::time::SystemTime;
use vstd::prelude::*;

verus! {

/// `std::time::SystemTime`, a moment on the system clock. The library only
/// keeps such a value and hands it back to the clock.
#[verifier::external_type_specification]
#[verifier::external_body]
pub struct ExSystemTime(SystemTime);

/// When to lock.
#[derive(Debug, Clone, Copy)]
pub struct AutoLockConfig {
    pub enabled: bool,
    /// Seconds without activity after which the wallet locks; zero for
    /// never.
    pub timeout_seconds: u64,
    pub lock_on_background: bool,
}

impl Default for AutoLockConfig {
    /// Enabled, five minutes, and locking in the background.
    fn default() -> (config: AutoLockConfig)
        ensures
            config.enabled,
            config.timeout_seconds == 300,
            config.lock_on_background,
    {
        AutoLockConfig { enabled: true, timeout_seconds: 300, lock_on_background: true }
    }
}

/// Keeps track of activity and of the locked state.
pub struct AutoLockManager {
    config: AutoLockConfig,
    last_activity: Option<SystemTime>,
    is_locked: bool,
}

/// The current time.
///
/// Trusted: wraps `std::time::SystemTime::now`. Nothing is claimed of the
/// result.
#[verifier::external_body]
fn now() -> SystemTime {
    SystemTime::now()
}

/// Whole seconds that have passed since `since`, or `None` where the clock
/// has gone back behind it.
///
/// Trusted: wraps `std::time::SystemTime::elapsed` and `Duration::as_secs`.
/// Nothing is claimed of the result, which depends on the clock.
#[verifier::external_body]
fn elapsed_seconds(since: &SystemTime) -> Option<u64> {
    since.elapsed().ok().map(|d| d.as_secs())
}

/// Whether a wallet is due for locking: locking is enabled with a timeout,
/// there has been activity, and at least the timeout has passed since.
pub open spec fn lock_due(config: AutoLockConfig, active: bool, elapsed: Option<u64>) -> bool {
    config.enabled && active && config.timeout_seconds > 0 && elapsed is Some && elapsed->Some_0
        >= config.timeout_seconds
}

/// The seconds left until a wallet locks: the rest of the timeout where
/// locking is enabled with a timeout, there has been activity and less than
/// the timeout has passed since; `None` otherwise.
pub open spec fn seconds_left(config: AutoLockConfig, active: bool, elapsed: Option<u64>)
    -> Option<u64> {
    if config.enabled && config.timeout_seconds > 0 && active && elapsed is Some
        && elapsed->Some_0 < config.timeout_seconds {
        Some((config.timeout_seconds - elapsed->Some_0) as u64)
    } else {
        None
    }
}

impl AutoLockManager {
    /// The configuration in use.
    pub closed spec fn spec_config(&self) -> AutoLockConfig {
        self.config
    }

    /// The moment of the last activity, where any has been recorded.
    pub closed spec fn last(&self) -> Option<SystemTime> {
        self.last_activity
    }

    /// Whether any activity has been recorded.
    pub open spec fn active(&self) -> bool {
        self.last() is Some
    }

    /// Whether the wallet is locked.
    pub closed spec fn locked(&self) -> bool {
        self.is_locked
    }

    /// A manager with the given configuration: unlocked, no activity yet.
    pub fn new(config: AutoLockConfig) -> (m: AutoLockManager)
        ensures
            m.spec_config() == config,
            m.last() is None,
            !m.locked(),
    {
        AutoLockManager { config, last_activity: None, is_locked: false }
    }

    /// Records activity at the moment `at`, in place of what was recorded
    /// before.
    pub fn update_activity_at(&mut self, at: SystemTime)
        ensures
            final(self).last() == Some(at),
            final(self).spec_config() == old(self).spec_config(),
            final(self).locked() == old(self).locked(),
    {
        self.last_activity = Some(at);
    }

    /// Records activity at the current time: [`Self::update_activity_at`]
    /// with the moment that the clock gives.
    pub fn update_activity(&mut self)
        ensures
            final(self).last() is Some,
            final(self).spec_config() == old(self).spec_config(),
            final(self).locked() == old(self).locked(),
    {
        let at = now();
        self.update_activity_at(at);
    }

    /// Whether the wallet is due for locking when `elapsed` seconds have
    /// passed since the last activity.
    pub fn should_lock_after(&self, elapsed: Option<u64>) -> (r: bool)
        ensures
            r == lock_due(self.spec_config(), self.active(), elapsed),
    {
        if !self.config.enabled {
            return false;
        }
        if self.last_activity.is_none() || self.config.timeout_seconds == 0 {
            return false;
        }
        match elapsed {
            Some(e) => e >= self.config.timeout_seconds,
            None => false,
        }
    }

    /// Whether the wallet is due for locking now. That takes locking to be
    /// enabled with a timeout, and activity to have been recorded.
    pub fn should_lock(&self) -> (r: bool)
        ensures
            r ==> self.spec_config().enabled && self.spec_config().timeout_seconds > 0
                && self.active(),
            exists|elapsed: Option<u64>|
                r == #[trigger] lock_due(self.spec_config(), self.active(), elapsed),
    {
        match &self.last_activity {
            None => {
                assert(!lock_due(self.spec_config(), self.active(), None));
                false
            },
            Some(last) => {
                let elapsed = elapsed_seconds(last);
                self.should_lock_after(elapsed)
            },
        }
    }

    /// Locks the wallet. The configuration and the recorded activity stay
    /// as they are.
    pub fn lock(&mut self)
        ensures
            final(self).locked(),
            final(self).spec_config() == old(self).spec_config(),
            final(self).last() == old(self).last(),
    {
        self.is_locked = true;
    }

    /// Unlocks the wallet and records activity at the moment `at`.
    pub fn unlock_at(&mut self, at: SystemTime)
        ensures
            !final(self).locked(),
            final(self).last() == Some(at),
            final(self).spec_config() == old(self).spec_config(),
    {
        self.is_locked = false;
        self.update_activity_at(at);
    }

    /// Unlocks the wallet and records activity at the current time:
    /// [`Self::unlock_at`] with the moment that the clock gives.
    pub fn unlock(&mut self)
        ensures
            !final(self).locked(),
            final(self).last() is Some,
            final(self).spec_config() == old(self).spec_config(),
    {
        let at = now();
        self.unlock_at(at);
    }

    /// Whether the wallet is locked.
    pub fn is_locked(&self) -> (r: bool)
        ensures
            r == self.locked(),
    {
        self.is_locked
    }

    /// Replaces the configuration. The locked state and the recorded
    /// activity stay as they are.
    pub fn update_config(&mut self, config: AutoLockConfig)
        ensures
            final(self).spec_config() == config,
            final(self).locked() == old(self).locked(),
            final(self).last() == old(self).last(),
    {
        self.config = config;
    }

    /// The configuration in use.
    pub fn get_config(&self) -> (config: AutoLockConfig)
        ensures
            config == self.spec_config(),
    {
        self.config
    }

    /// The seconds left until the wallet locks when `elapsed` seconds have
    /// passed since the last activity.
    pub fn remaining_after(&self, elapsed: Option<u64>) -> (r: Option<u64>)
        ensures
            r == seconds_left(self.spec_config(), self.active(), elapsed),
    {
        if !self.config.enabled || self.config.timeout_seconds == 0 {
            return None;
        }
        if self.last_activity.is_none() {
            return None;
        }
        match elapsed {
            Some(e) => if e < self.config.timeout_seconds {
                Some(self.config.timeout_seconds - e)
            } else {
                None
            },
            None => None,
        }
    }

    /// The seconds left until the wallet locks, where it is going to: at
    /// least one and at most the timeout.
    pub fn get_remaining_seconds(&self) -> (r: Option<u64>)
        ensures
            r is Some ==> self.spec_config().enabled && self.active() && 0 < r->Some_0
                <= self.spec_config().timeout_seconds,
            exists|elapsed: Option<u64>|
                r == #[trigger] seconds_left(self.spec_config(), self.active(), elapsed),
    {
        match &self.last_activity {
            None => {
                assert(seconds_left(self.spec_config(), self.active(), None) is None);
                None
            },
            Some(last) => {
                let elapsed = elapsed_seconds(last);
                self.remaining_after(elapsed)
            },
        }
    }
}

} // verus!
