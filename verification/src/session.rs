//! Session state: the open vault and its password.
//!
//! Each save draws a new salt and so needs a new derivation, which needs the
//! password: it is kept for the session, on this side only, and wiped on
//! lock. The session locks itself after ten minutes without activity.
//!
//! Time comes from the caller, as milliseconds on a monotonic clock: the
//! decisions made here hold whatever clock readings are handed in.
use std::path::PathBuf;

use vstd::prelude::*;

use crate::primitives::wipe_text;

verus! {

/// Inactivity delay after which the session locks, in milliseconds (ten
/// minutes).
pub const IDLE_TIMEOUT_MS: u64 = 600000;

/// Clones a path with `<PathBuf as Clone>::clone`.
///
/// Claimed: the clone is the same path.
#[verifier::external_body]
pub(crate) fn clone_path(path: &PathBuf) -> (res: PathBuf)
    ensures
        res == *path,
{
    path.clone()
}

/// Abstract value of an unlocked session.
pub struct UnlockedView {
    /// Path of the open vault.
    pub path: PathBuf,
    /// Password of the open vault.
    pub password: Seq<char>,
    /// Clock reading of the last activity, in milliseconds.
    pub last_activity: u64,
}

/// An unlocked vault.
struct Unlocked {
    path: PathBuf,
    password: String,
    last_activity: u64,
}

/// The application session, shared by all commands.
pub struct Session {
    inner: Option<Unlocked>,
}

/// Time elapsed between two clock readings; a reading earlier than the start
/// counts as no time at all, as `Instant::elapsed` does.
pub open spec fn elapsed(since: u64, now: u64) -> nat {
    if now >= since {
        (now - since) as nat
    } else {
        0
    }
}

/// Whether an activity at `since` is too old at `now`.
pub open spec fn expired(since: u64, now: u64) -> bool {
    elapsed(since, now) >= IDLE_TIMEOUT_MS
}

/// The session after the inactivity delay has been applied at `now`.
pub open spec fn after_timeout(state: Option<UnlockedView>, now: u64) -> Option<UnlockedView> {
    match state {
        Some(u) => if expired(u.last_activity, now) {
            None
        } else {
            state
        },
        None => None,
    }
}

impl View for Session {
    type V = Option<UnlockedView>;

    closed spec fn view(&self) -> Option<UnlockedView> {
        match self.inner {
            Some(u) => Some(
                UnlockedView { path: u.path, password: u.password@, last_activity: u.last_activity },
            ),
            None => None,
        }
    }
}

impl Default for Session {
    /// A new session is locked.
    fn default() -> (s: Session)
        ensures
            s@ is None,
    {
        Session { inner: None }
    }
}

impl Session {
    /// Records an opened vault and its password, with `now` as last activity.
    pub fn unlock(&mut self, path: PathBuf, password: String, now: u64)
        ensures
            final(self)@ == Some(UnlockedView { path, password: password@, last_activity: now }),
    {
        self.lock();
        self.inner = Some(Unlocked { path, password, last_activity: now });
    }

    /// Locks the session and wipes the password.
    pub fn lock(&mut self)
        ensures
            final(self)@ is None,
    {
        if let Some(mut unlocked) = self.inner.take() {
            wipe_text(&mut unlocked.password);
        }
    }

    /// Path of the open vault, without extending the session.
    pub fn path(&self) -> (res: Option<PathBuf>)
        ensures
            res == (match self@ {
                Some(u) => Some(u.path),
                None => None::<PathBuf>,
            }),
    {
        match &self.inner {
            Some(u) => Some(clone_path(&u.path)),
            None => None,
        }
    }

    /// Locks if the inactivity delay has passed at `now`.
    fn enforce_idle_timeout(&mut self, now: u64)
        ensures
            final(self)@ == after_timeout(old(self)@, now),
    {
        let expired = match &self.inner {
            Some(u) => now >= u.last_activity && now - u.last_activity >= IDLE_TIMEOUT_MS,
            None => false,
        };
        if expired {
            self.lock();
        }
    }

    /// Tells whether the session is unlocked at `now`, after applying the
    /// inactivity delay.
    pub fn is_unlocked(&mut self, now: u64) -> (res: bool)
        ensures
            final(self)@ == after_timeout(old(self)@, now),
            res == final(self)@ is Some,
    {
        self.enforce_idle_timeout(now);
        self.inner.is_some()
    }

    /// Seconds left at `now` before the session locks itself.
    pub fn remaining_secs(&mut self, now: u64) -> (res: Option<u64>)
        ensures
            final(self)@ == after_timeout(old(self)@, now),
            res == (match final(self)@ {
                Some(u) => Some(
                    ((IDLE_TIMEOUT_MS - elapsed(u.last_activity, now)) / 1000) as u64,
                ),
                None => None::<u64>,
            }),
    {
        self.enforce_idle_timeout(now);
        match &self.inner {
            Some(u) => {
                let spent = if now >= u.last_activity {
                    now - u.last_activity
                } else {
                    0
                };
                Some((IDLE_TIMEOUT_MS - spent) / 1000)
            },
            None => None,
        }
    }

    /// Records an activity at `now`, which pushes the deadline back.
    pub fn touch(&mut self, now: u64)
        ensures
            final(self)@ == (match old(self)@ {
                Some(u) => Some(UnlockedView { last_activity: now, ..u }),
                None => None::<UnlockedView>,
            }),
    {
        if let Some(u) = &mut self.inner {
            u.last_activity = now;
        }
    }

    /// Copies the path and the password, and records an activity at `now`.
    ///
    /// Returns `None` when the session is locked, including when the delay
    /// has just expired, checked at the same instant.
    pub fn credentials(&mut self, now: u64) -> (res: Option<(PathBuf, String)>)
        ensures
            final(self)@ == (match after_timeout(old(self)@, now) {
                Some(u) => Some(UnlockedView { last_activity: now, ..u }),
                None => None::<UnlockedView>,
            }),
            match after_timeout(old(self)@, now) {
                Some(u) => res matches Some(c) && c.0 == u.path && c.1@ == u.password,
                None => res is None,
            },
    {
        self.enforce_idle_timeout(now);
        match &mut self.inner {
            Some(u) => {
                u.last_activity = now;
                Some((clone_path(&u.path), u.password.clone()))
            },
            None => None,
        }
    }
}

/// Activity only ever pushes the deadline back: right after an activity at
/// `now`, the seconds left are at least those left before it.
pub proof fn lemma_activity_postpones_deadline(last: u64, now: u64)
    requires
        !expired(last, now),
    ensures
        !expired(now, now),
        (IDLE_TIMEOUT_MS - elapsed(now, now)) / 1000 >= (IDLE_TIMEOUT_MS - elapsed(last, now))
            / 1000,
{
    let a = (IDLE_TIMEOUT_MS - elapsed(now, now)) as int;
    let b = (IDLE_TIMEOUT_MS - elapsed(last, now)) as int;
    assert(a / 1000 >= b / 1000) by (nonlinear_arith)
        requires
            a >= b,
            b >= 0,
    {
    }
}

/// A session whose last activity is ten minutes old or more is locked, and
/// stays locked at any later reading of the clock.
pub proof fn lemma_expired_session_is_locked(state: Option<UnlockedView>, now: u64, later: u64)
    requires
        state matches Some(u) && expired(u.last_activity, now),
        now <= later,
    ensures
        after_timeout(state, now) is None,
        after_timeout(after_timeout(state, now), later) is None,
{
}

/// A session unlocked at `start` hands back the path and password it was
/// unlocked with at any reading within ten minutes.
pub proof fn lemma_unlock_then_credentials(path: PathBuf, password: Seq<char>, start: u64, now: u64)
    requires
        start <= now,
        now - start < IDLE_TIMEOUT_MS,
    ensures
        after_timeout(Some(UnlockedView { path, password, last_activity: start }), now) == Some(
            UnlockedView { path, password, last_activity: start },
        ),
{
}

} // verus!
