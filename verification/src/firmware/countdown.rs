//! The unattended-boot countdown shared by the boot screen and the setup menu.
//!
//! While nobody has touched the keyboard, each idle poll adds one poll interval
//! to the time waited, and once the window has been waited out the boot goes
//! on by itself. The first keystroke stops the countdown for good: a person
//! reading by ear is never raced by an automatic boot.

use vstd::prelude::*;

verus! {

/// Milliseconds between two polls of the keyboard.
pub const POLL_INTERVAL_MS: u64 = 50;

/// An idle countdown measured in milliseconds.
#[derive(Clone, Copy, Debug, PartialEq, Eq, Structural)]
pub struct Countdown {
    pub window_ms: u64,
    pub poll_ms: u64,
    pub waited_ms: u64,
    pub interacted: bool,
}

impl Countdown {
    /// The counter stays representable: it never passes the window by more
    /// than one poll.
    pub open spec fn wf(self) -> bool {
        &&& self.window_ms + self.poll_ms <= u64::MAX
        &&& self.waited_ms <= self.window_ms + self.poll_ms
    }

    /// Whether an idle poll now ends the wait: nobody has interacted and the
    /// window has been waited out.
    pub open spec fn expires(self) -> bool {
        !self.interacted && self.waited_ms >= self.window_ms
    }

    /// A fresh countdown of `window_ms`, polled every `poll_ms`.
    pub fn new(window_ms: u64, poll_ms: u64) -> (r: Countdown)
        requires
            window_ms + poll_ms <= u64::MAX,
        ensures
            r.wf(),
            r == (Countdown { window_ms, poll_ms, waited_ms: 0, interacted: false }),
    {
        Countdown { window_ms, poll_ms, waited_ms: 0, interacted: false }
    }

    /// A key was read: the countdown stops for good.
    pub fn key_pressed(&mut self)
        requires
            old(self).wf(),
        ensures
            final(self).wf(),
            *final(self) == (Countdown { interacted: true, ..*old(self) }),
    {
        self.interacted = true;
    }

    /// No key was waiting. Returns true when the unattended window has been
    /// waited out and the boot should go on; otherwise one more poll interval
    /// has been waited (unless someone has interacted).
    pub fn idle_poll(&mut self) -> (expired: bool)
        requires
            old(self).wf(),
        ensures
            final(self).wf(),
            expired == old(self).expires(),
            *final(self) == if !old(self).interacted && !expired {
                Countdown { waited_ms: (old(self).waited_ms + old(self).poll_ms) as u64, ..*old(self) }
            } else {
                *old(self)
            },
    {
        if self.interacted {
            return false;
        }
        if self.waited_ms >= self.window_ms {
            return true;
        }
        self.waited_ms = self.waited_ms + self.poll_ms;
        false
    }
}

/// The countdown after `k` idle polls that did not expire, from `c`.
pub open spec fn after_idle_polls(c: Countdown, k: nat) -> Countdown {
    if c.interacted {
        c
    } else {
        Countdown { waited_ms: (c.waited_ms + k * c.poll_ms) as u64, ..c }
    }
}

/// Once someone has pressed a key, no idle poll ever ends the wait and the
/// countdown no longer moves.
pub proof fn lemma_interaction_disables_timeout(c: Countdown)
    requires
        c.wf(),
        c.interacted,
    ensures
        forall|k: nat| #[trigger] after_idle_polls(c, k) == c && !after_idle_polls(c, k).expires(),
{
}

/// Unattended, with a nonzero poll interval `p`, a fresh countdown of `w`
/// has waited `n * p` milliseconds after `n` idle polls that did not end the
/// wait, and the wait is over exactly when `n` reaches `ceil(w / p)`: the
/// boot goes on at idle poll number `ceil(w / p) + 1`.
pub proof fn lemma_unattended_countdown_expires(w: u64, p: u64, n: nat)
    requires
        w + p <= u64::MAX,
        p > 0,
        n * p < w + p,
    ensures
        after_idle_polls(Countdown { window_ms: w, poll_ms: p, waited_ms: 0, interacted: false }, n).waited_ms
            == n * p,
        (n * p >= w) <==> (n == (w + p - 1) / p as int),
{
    let q = (w + p - 1) / p as int;
    assert(q * p <= w + p - 1 < q * p + p) by (nonlinear_arith)
        requires q == (w + p - 1) / p as int, p > 0, w + p - 1 >= 0;
    if n * p >= w {
        assert(n == q) by (nonlinear_arith)
            requires n * p >= w, n * p < w + p, q * p <= w + p - 1, w + p - 1 < q * p + p, p > 0;
    }
    if n == q {
        assert(n * p >= w) by (nonlinear_arith)
            requires n == q, w + p - 1 < q * p + p;
    }
}

} // verus!
