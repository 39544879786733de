//! One run of the setup, poll by poll: a key read drives the menu and stops
//! the unattended countdown for good; a poll that finds no key advances the
//! countdown, and once the window has been waited out the boot goes on.
//!
//! The firmware polls the keyboard, performs the effect each poll decides and
//! stalls one poll interval after each `Wait`.

use vstd::prelude::*;
use crate::firmware::countdown::{Countdown, POLL_INTERVAL_MS};
use crate::firmware::keys::MenuKey;
use crate::firmware::setup_menu::{ContinueReason, SetupEffect, SetupState, SetupView};

verus! {

/// How long the setup waits for a first key before booting on by itself.
pub const SETUP_IDLE_WINDOW_MS: u64 = 3000;

/// What one poll of the keyboard asks of the firmware.
#[derive(Clone, Copy, Debug, PartialEq, Eq, Structural)]
pub enum PollOutcome {
    /// Perform this effect of the menu.
    Effect(SetupEffect),
    /// Nothing happened: stall one poll interval and poll again.
    Wait,
}

/// The countdown the setup opens with.
pub fn setup_countdown() -> (r: Countdown)
    ensures
        r.wf(),
        r == (Countdown {
            window_ms: SETUP_IDLE_WINDOW_MS,
            poll_ms: POLL_INTERVAL_MS,
            waited_ms: 0,
            interacted: false,
        }),
{
    Countdown::new(SETUP_IDLE_WINDOW_MS, POLL_INTERVAL_MS)
}

/// One poll: the menu state, the countdown and what the firmware must do,
/// given the key read, if any.
pub open spec fn spec_poll(v: SetupView, c: Countdown, key: Option<MenuKey>) -> (SetupView, Countdown, PollOutcome) {
    match key {
        Some(k) => (v.stepped(k).0, Countdown { interacted: true, ..c }, PollOutcome::Effect(v.stepped(k).1)),
        None => if c.expires() {
            (v, c, PollOutcome::Effect(SetupEffect::Continue(ContinueReason::Timeout)))
        } else if c.interacted {
            (v, c, PollOutcome::Wait)
        } else {
            (v, Countdown { waited_ms: (c.waited_ms + c.poll_ms) as u64, ..c }, PollOutcome::Wait)
        },
    }
}

/// Handles one poll of the keyboard.
pub fn poll(state: &mut SetupState, countdown: &mut Countdown, key: Option<MenuKey>) -> (r: PollOutcome)
    requires
        old(state)@.wf(),
        old(countdown).wf(),
    ensures
        (final(state)@, *final(countdown), r) == spec_poll(old(state)@, *old(countdown), key),
        final(state)@.wf(),
        final(countdown).wf(),
{
    match key {
        Some(k) => {
            countdown.key_pressed();
            PollOutcome::Effect(state.handle_key(k))
        },
        None => {
            if countdown.idle_poll() {
                PollOutcome::Effect(SetupEffect::Continue(ContinueReason::Timeout))
            } else {
                PollOutcome::Wait
            }
        },
    }
}

/// What successive polls ask of the firmware, one per key read or missed.
pub open spec fn spec_outcomes(v: SetupView, c: Countdown, keys: Seq<Option<MenuKey>>) -> Seq<PollOutcome>
    decreases keys.len(),
{
    if keys.len() == 0 {
        Seq::empty()
    } else {
        let (v2, c2, o) = spec_poll(v, c, keys[0]);
        seq![o] + spec_outcomes(v2, c2, keys.drop_first())
    }
}

/// What a poll that read `key` may ask: a menu effect, never the timeout,
/// and the setup is left only by Escape on the root page or by activating
/// "Boot normally".
pub open spec fn key_outcome(key: MenuKey, o: PollOutcome) -> bool {
    &&& o matches PollOutcome::Effect(e)
    &&& e != SetupEffect::Continue(ContinueReason::Timeout)
    &&& e == SetupEffect::Continue(ContinueReason::EscapeAtRoot) ==> key == MenuKey::Escape
    &&& e == SetupEffect::Continue(ContinueReason::User) ==> key == MenuKey::Enter
}

/// Whether some key was read before poll `i`.
pub open spec fn key_before(keys: Seq<Option<MenuKey>>, i: int) -> bool {
    exists|j: int| 0 <= j < i && #[trigger] keys[j] is Some
}

/// A key's poll never times out and leaves the setup only by Escape at the
/// root or by "Boot normally"; once a key has been read, a poll that finds no
/// key only waits: the timeout is disabled for the rest of the run.
pub proof fn lemma_keys_disable_timeout(v: SetupView, c: Countdown, keys: Seq<Option<MenuKey>>)
    requires
        c.wf(),
    ensures
        ({
            let outs = spec_outcomes(v, c, keys);
            &&& outs.len() == keys.len()
            &&& forall|i: int| 0 <= i < keys.len() && keys[i] is Some ==> key_outcome(keys[i]->Some_0, #[trigger] outs[i])
            &&& forall|i: int|
                0 <= i < keys.len() && keys[i] is None && (c.interacted || key_before(keys, i))
                    ==> #[trigger] outs[i] == PollOutcome::Wait
        }),
    decreases keys.len(),
{
    if keys.len() > 0 {
        let (v2, c2, o) = spec_poll(v, c, keys[0]);
        let rest = keys.drop_first();
        lemma_keys_disable_timeout(v2, c2, rest);
        let outs = spec_outcomes(v, c, keys);
        assert forall|i: int| 0 <= i < keys.len() && keys[i] is Some implies key_outcome(
            keys[i]->Some_0,
            #[trigger] outs[i],
        ) by {
            if i > 0 {
                assert(keys[i] == rest[i - 1]);
            }
        }
        assert forall|i: int|
            0 <= i < keys.len() && keys[i] is None && (c.interacted || key_before(keys, i)) implies #[trigger] outs[i]
            == PollOutcome::Wait by {
            if i > 0 {
                assert(keys[i] == rest[i - 1]);
                if !c2.interacted {
                    let j = choose|j: int| 0 <= j < i && #[trigger] keys[j] is Some;
                    assert(j > 0);
                    assert(rest[j - 1] == keys[j]);
                    assert(key_before(rest, i - 1));
                }
            }
        }
    }
}

/// Unattended, the polls only wait until the window has been waited out: with
/// no key read, poll `i` ends the wait exactly when `waited + i * poll`
/// reaches the window.
pub proof fn lemma_idle_outcomes(v: SetupView, c: Countdown, keys: Seq<Option<MenuKey>>)
    requires
        c.wf(),
        !c.interacted,
        forall|i: int| 0 <= i < keys.len() ==> #[trigger] keys[i] is None,
    ensures
        ({
            let outs = spec_outcomes(v, c, keys);
            &&& outs.len() == keys.len()
            &&& forall|i: int|
                0 <= i < keys.len() ==> #[trigger] outs[i] == if c.waited_ms + i * c.poll_ms >= c.window_ms {
                    PollOutcome::Effect(SetupEffect::Continue(ContinueReason::Timeout))
                } else {
                    PollOutcome::Wait
                }
        }),
    decreases keys.len(),
{
    if keys.len() > 0 {
        let (v2, c2, o) = spec_poll(v, c, keys[0]);
        let rest = keys.drop_first();
        assert forall|i: int| 0 <= i < rest.len() implies #[trigger] rest[i] is None by {
            assert(rest[i] == keys[i + 1]);
        }
        lemma_idle_outcomes(v2, c2, rest);
        let outs = spec_outcomes(v, c, keys);
        assert forall|i: int| 0 < i < keys.len() implies #[trigger] outs[i] == if c.waited_ms + i * c.poll_ms
            >= c.window_ms {
            PollOutcome::Effect(SetupEffect::Continue(ContinueReason::Timeout))
        } else {
            PollOutcome::Wait
        } by {
            assert(outs[i] == spec_outcomes(v2, c2, rest)[i - 1]);
            assert(i * c.poll_ms == (i - 1) * c.poll_ms + c.poll_ms) by (nonlinear_arith);
            if c.expires() {
                assert(c.waited_ms + i * c.poll_ms >= c.window_ms) by (nonlinear_arith)
                    requires
                        c.waited_ms >= c.window_ms,
                        i > 0,
                ;
                assert(c2.waited_ms + (i - 1) * c2.poll_ms >= c2.window_ms) by (nonlinear_arith)
                    requires
                        c2.waited_ms >= c2.window_ms,
                        i > 0,
                ;
            }
        }
    }
}

/// With nobody at the keyboard the setup waits out its window and then boots
/// on: the first sixty polls only wait, and the sixty-first ends the wait.
pub proof fn lemma_unattended_setup_boots_on(v: SetupView, keys: Seq<Option<MenuKey>>)
    requires
        forall|i: int| 0 <= i < keys.len() ==> #[trigger] keys[i] is None,
    ensures
        ({
            let c = Countdown {
                window_ms: SETUP_IDLE_WINDOW_MS,
                poll_ms: POLL_INTERVAL_MS,
                waited_ms: 0,
                interacted: false,
            };
            let outs = spec_outcomes(v, c, keys);
            &&& forall|i: int| 0 <= i < keys.len() && i < 60 ==> #[trigger] outs[i] == PollOutcome::Wait
            &&& keys.len() > 60 ==> outs[60] == PollOutcome::Effect(SetupEffect::Continue(ContinueReason::Timeout))
        }),
{
    let c = Countdown { window_ms: SETUP_IDLE_WINDOW_MS, poll_ms: POLL_INTERVAL_MS, waited_ms: 0, interacted: false };
    lemma_idle_outcomes(v, c, keys);
    let outs = spec_outcomes(v, c, keys);
    assert forall|i: int| 0 <= i < keys.len() && i < 60 implies #[trigger] outs[i] == PollOutcome::Wait by {
        assert(0 + i * 50 < 3000) by (nonlinear_arith)
            requires
                0 <= i < 60,
        ;
    }
}

} // verus!
