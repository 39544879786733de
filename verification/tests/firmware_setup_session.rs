use awos::firmware::keys::MenuKey;
use awos::firmware::setup_menu::{ContinueReason, Page, SetupEffect, SetupState};
use awos::firmware::setup_session::{poll, setup_countdown, PollOutcome, SETUP_IDLE_WINDOW_MS};

#[test]
fn unattended_setup_waits_sixty_polls_then_boots_on() {
    let mut state = SetupState::new(vec![1, 2]);
    let mut countdown = setup_countdown();
    assert_eq!(SETUP_IDLE_WINDOW_MS, 3000);
    for _ in 0..60 {
        assert_eq!(poll(&mut state, &mut countdown, None), PollOutcome::Wait);
    }
    assert_eq!(
        poll(&mut state, &mut countdown, None),
        PollOutcome::Effect(SetupEffect::Continue(ContinueReason::Timeout))
    );
}

#[test]
fn a_key_disables_the_timeout_for_the_rest_of_the_run() {
    let mut state = SetupState::new(vec![1, 2]);
    let mut countdown = setup_countdown();
    for _ in 0..59 {
        assert_eq!(poll(&mut state, &mut countdown, None), PollOutcome::Wait);
    }
    assert_eq!(
        poll(&mut state, &mut countdown, Some(MenuKey::Next)),
        PollOutcome::Effect(SetupEffect::Moved)
    );
    for _ in 0..1000 {
        assert_eq!(poll(&mut state, &mut countdown, None), PollOutcome::Wait);
    }
}

#[test]
fn escape_on_the_root_page_leaves_the_setup() {
    let mut state = SetupState::new(vec![1]);
    let mut countdown = setup_countdown();
    assert_eq!(state.page, Page::Root);
    assert_eq!(
        poll(&mut state, &mut countdown, Some(MenuKey::Escape)),
        PollOutcome::Effect(SetupEffect::Continue(ContinueReason::EscapeAtRoot))
    );
}
