use nothing::activity::{ActivityState, FailureFlags, InputEvent};

fn no_flags() -> FailureFlags {
    FailureFlags { keyboard: false, mouse_button: false, mouse_move: false, mouse_wheel: false }
}

#[test]
fn keydown_starts_tracking_and_echo_is_ignored() {
    let mut s = ActivityState::new();
    let quit = s.handle_event(InputEvent::KeyDown { escape: false }, 100);
    assert!(!quit);
    assert_eq!(s, ActivityState::Tracking { started_at: 100, ignore_next_input: true });

    // the queued echo of the activation input must not set any failure flag
    let quit = s.handle_event(InputEvent::KeyDown { escape: false }, 150);
    assert!(!quit);
    assert_eq!(s, ActivityState::Tracking { started_at: 100, ignore_next_input: false });
}

#[test]
fn mouse_button_also_starts_tracking() {
    let mut s = ActivityState::new();
    s.handle_event(InputEvent::MouseButtonDown, 42);
    assert_eq!(s, ActivityState::Tracking { started_at: 42, ignore_next_input: true });
}

#[test]
fn mouse_motion_does_not_start_tracking() {
    let mut s = ActivityState::new();
    s.handle_event(InputEvent::MouseMotion, 7);
    assert_eq!(s, ActivityState::Idle);
    s.handle_event(InputEvent::MouseWheel, 8);
    assert_eq!(s, ActivityState::Idle);
}

#[test]
fn mouse_motion_fails_tracking_and_since_is_stable() {
    let mut s = ActivityState::Tracking { started_at: 100, ignore_next_input: false };
    s.handle_event(InputEvent::MouseMotion, 2_000_000_000);
    assert_eq!(
        s,
        ActivityState::Failed {
            started_at: 100,
            since: 2_000_000_000,
            flags: FailureFlags { mouse_move: true, ..no_flags() },
        }
    );

    // a second disallowed input one second later keeps `since` where it was
    s.handle_event(InputEvent::MouseMotion, 3_000_000_000);
    assert_eq!(
        s,
        ActivityState::Failed {
            started_at: 100,
            since: 2_000_000_000,
            flags: FailureFlags { mouse_move: true, ..no_flags() },
        }
    );
}

#[test]
fn failure_flags_accumulate_as_a_union() {
    let mut s = ActivityState::Tracking { started_at: 0, ignore_next_input: false };
    s.handle_event(InputEvent::MouseWheel, 1_000);
    s.handle_event(InputEvent::KeyDown { escape: false }, 2_000);
    s.handle_event(InputEvent::MouseButtonDown, 3_000);
    assert_eq!(
        s,
        ActivityState::Failed {
            started_at: 0,
            since: 1_000,
            flags: FailureFlags {
                keyboard: true,
                mouse_button: true,
                mouse_move: false,
                mouse_wheel: true,
            },
        }
    );
}

#[test]
fn key_up_and_button_up_have_no_effect() {
    let mut s = ActivityState::Tracking { started_at: 5, ignore_next_input: false };
    s.handle_event(InputEvent::KeyUp, 6);
    s.handle_event(InputEvent::MouseButtonUp, 7);
    assert_eq!(s, ActivityState::Tracking { started_at: 5, ignore_next_input: false });
}

#[test]
fn quit_and_escape_stop_from_any_state() {
    let mut s = ActivityState::Idle;
    assert!(s.handle_event(InputEvent::Quit, 0));
    assert!(s.handle_event(InputEvent::KeyDown { escape: true }, 0));
    assert_eq!(s, ActivityState::Idle);

    // escape wins even while the activation echo is still to be ignored
    let mut s = ActivityState::Tracking { started_at: 1, ignore_next_input: true };
    assert!(s.handle_event(InputEvent::KeyDown { escape: true }, 2));
    assert_eq!(s, ActivityState::Tracking { started_at: 1, ignore_next_input: true });

    let mut s = ActivityState::Failed {
        started_at: 1,
        since: 2,
        flags: FailureFlags { keyboard: true, ..no_flags() },
    };
    assert!(s.handle_event(InputEvent::Quit, 3));
}

#[test]
fn watchdog_resets_only_after_grace() {
    let flags = FailureFlags { mouse_move: true, ..no_flags() };
    let mut s = ActivityState::Failed { started_at: 0, since: 1_000_000_000, flags };

    // one nanosecond before the five-second mark: nothing happens
    let reset = s.maybe_reset(5_999_999_999);
    assert!(!reset);
    assert_eq!(s, ActivityState::Failed { started_at: 0, since: 1_000_000_000, flags });

    // exactly at the mark: back to idle, the session is discarded
    let reset = s.maybe_reset(6_000_000_000);
    assert!(reset);
    assert_eq!(s, ActivityState::Idle);
}

#[test]
fn watchdog_leaves_other_states_alone() {
    let mut s = ActivityState::Idle;
    assert!(!s.maybe_reset(99_000_000_000));
    assert_eq!(s, ActivityState::Idle);

    let mut s = ActivityState::Tracking { started_at: 0, ignore_next_input: false };
    assert!(!s.maybe_reset(99_000_000_000));
    assert_eq!(s, ActivityState::Tracking { started_at: 0, ignore_next_input: false });
}

#[test]
fn idle_status_shows_the_intro_prompt() {
    let s = ActivityState::Idle;
    let r = s.render_status(0);
    assert_eq!(
        r.headline,
        "Click any keys or left/right click on your mouse to start tracking."
    );
    assert!(r.detail.is_none());
    assert!(!r.should_continue_tracking);
}

#[test]
fn tracking_status_shows_the_session_length() {
    let s = ActivityState::Tracking { started_at: 1_000_000_000, ignore_next_input: false };
    let r = s.render_status(91_000_000_000);
    assert_eq!(r.headline, "Have been inactive for 1 minutes, 30 seconds. Keep going!");
    assert!(r.detail.is_none());
    assert!(r.should_continue_tracking);
}

#[test]
fn failed_status_shows_length_at_failure_and_reasons_in_stable_order() {
    let mut s = ActivityState::Tracking { started_at: 0, ignore_next_input: false };
    // the wheel fails the session first, the keyboard only joins later:
    // the reason list still names the keyboard first
    s.handle_event(InputEvent::MouseWheel, 10_000_000_000);
    s.handle_event(InputEvent::KeyDown { escape: false }, 11_000_000_000);
    let r = s.render_status(12_000_000_000);
    assert_eq!(r.headline, "Inactive for 10 seconds.");
    assert_eq!(
        r.detail.unwrap(),
        "Keyboard presses detected, Mouse wheel movement detected."
    );
    assert!(!r.should_continue_tracking);
}

#[test]
fn single_reason_has_no_separator() {
    let s = ActivityState::Failed {
        started_at: 0,
        since: 1_000_000_000,
        flags: FailureFlags { mouse_button: true, ..no_flags() },
    };
    let r = s.render_status(2_000_000_000);
    assert_eq!(r.detail.unwrap(), "Mouse button presses detected.");
}

#[test]
fn all_four_reasons_joined() {
    let s = ActivityState::Failed {
        started_at: 0,
        since: 1_000_000_000,
        flags: FailureFlags {
            keyboard: true,
            mouse_button: true,
            mouse_move: true,
            mouse_wheel: true,
        },
    };
    let r = s.render_status(2_000_000_000);
    assert_eq!(
        r.detail.unwrap(),
        "Keyboard presses detected, Mouse button presses detected, \
         Mouse movement detected, Mouse wheel movement detected."
    );
}
