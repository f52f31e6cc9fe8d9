use vstd::prelude::*;
use crate::duration_fmt::{format_duration, spec_format_duration};
use crate::fps_capper::NANOS_PER_SEC;

verus! {

/// How long a failed period lasts before the watchdog returns to idle.
pub const FAILURE_GRACE_NS: u64 = 5_000_000_000;

/// One discrete input event drained from the event queue.
#[derive(Clone, Copy, PartialEq, Eq, Structural, Debug)]
pub enum InputEvent {
    Quit,
    KeyDown { escape: bool },
    KeyUp,
    MouseButtonDown,
    MouseButtonUp,
    MouseMotion,
    MouseWheel,
}

/// Which classes of disallowed input have occurred during a failed period.
/// Once set, a flag stays set until the state returns to idle.
#[derive(Clone, Copy, PartialEq, Eq, Structural, Debug)]
pub struct FailureFlags {
    pub keyboard: bool,
    pub mouse_button: bool,
    pub mouse_move: bool,
    pub mouse_wheel: bool,
}

/// The activity tracker's state. All timestamps are nanoseconds on a
/// monotonic clock.
#[derive(Clone, Copy, PartialEq, Eq, Structural, Debug)]
pub enum ActivityState {
    /// Waiting for the first qualifying input to start a session.
    Idle,
    /// A session runs since `started_at` with no disallowed input so far;
    /// `ignore_next_input` suppresses the queued echo of the input that
    /// started the session.
    Tracking { started_at: u64, ignore_next_input: bool },
    /// Disallowed input occurred during the session that began at
    /// `started_at`; the first such input happened at `since`, and `flags`
    /// records every class seen since then.
    Failed { started_at: u64, since: u64, flags: FailureFlags },
}

/// An event that terminates the program from any state: a quit request or
/// the escape key.
pub open spec fn is_quit_event(e: InputEvent) -> bool {
    e == InputEvent::Quit || e == (InputEvent::KeyDown { escape: true })
}

/// An event that starts a session while idle.
pub open spec fn is_activation_event(e: InputEvent) -> bool {
    (e matches InputEvent::KeyDown { .. }) || e == InputEvent::MouseButtonDown
}

/// An event that disqualifies a running session.
pub open spec fn is_disallowed_event(e: InputEvent) -> bool {
    ||| e matches InputEvent::KeyDown { .. }
    ||| e == InputEvent::MouseButtonDown
    ||| e == InputEvent::MouseMotion
    ||| e == InputEvent::MouseWheel
}

/// No failure class recorded.
pub open spec fn spec_no_flags() -> FailureFlags {
    FailureFlags { keyboard: false, mouse_button: false, mouse_move: false, mouse_wheel: false }
}

/// `f` with the class of event `e` added; events of an allowed class add
/// nothing.
pub open spec fn spec_with_flag(f: FailureFlags, e: InputEvent) -> FailureFlags {
    match e {
        InputEvent::KeyDown { .. } => FailureFlags { keyboard: true, ..f },
        InputEvent::MouseButtonDown => FailureFlags { mouse_button: true, ..f },
        InputEvent::MouseMotion => FailureFlags { mouse_move: true, ..f },
        InputEvent::MouseWheel => FailureFlags { mouse_wheel: true, ..f },
        _ => f,
    }
}

/// At least one failure class recorded.
pub open spec fn spec_any_flag(f: FailureFlags) -> bool {
    f.keyboard || f.mouse_button || f.mouse_move || f.mouse_wheel
}

/// The state after event `e` arrives at time `now`. A quit event leaves the
/// state untouched (the caller stops the loop instead). While idle, a
/// key-down or mouse-button-down starts a session at `now` with the echo of
/// that very input still to be ignored. While tracking, the first disallowed
/// event only consumes the echo suppression; the next one enters the failed
/// state with `since == now` and the event's class recorded. While failed,
/// further disallowed events add their class but never move `since`.
pub open spec fn spec_step(s: ActivityState, e: InputEvent, now: u64) -> ActivityState {
    if is_quit_event(e) {
        s
    } else {
        match s {
            ActivityState::Idle => if is_activation_event(e) {
                ActivityState::Tracking { started_at: now, ignore_next_input: true }
            } else {
                s
            },
            ActivityState::Tracking { started_at, ignore_next_input } => if is_disallowed_event(
                e,
            ) {
                if ignore_next_input {
                    ActivityState::Tracking { started_at, ignore_next_input: false }
                } else {
                    ActivityState::Failed {
                        started_at,
                        since: now,
                        flags: spec_with_flag(spec_no_flags(), e),
                    }
                }
            } else {
                s
            },
            ActivityState::Failed { started_at, since, flags } => if is_disallowed_event(e) {
                ActivityState::Failed { started_at, since, flags: spec_with_flag(flags, e) }
            } else {
                s
            },
        }
    }
}

/// The state after the watchdog looks at the clock: a failed period that has
/// lasted the full grace period ends the session and returns to idle;
/// anything else is left alone.
pub open spec fn spec_watchdog(s: ActivityState, now: u64) -> ActivityState {
    match s {
        ActivityState::Failed { since, .. } => if now >= since + FAILURE_GRACE_NS {
            ActivityState::Idle
        } else {
            s
        },
        _ => s,
    }
}

impl ActivityState {
    /// States the transitions produce: a session never fails before it
    /// started, and a failed state records at least one input class.
    pub open spec fn wf(self) -> bool {
        match self {
            ActivityState::Failed { started_at, since, flags } => started_at <= since
                && spec_any_flag(flags),
            _ => true,
        }
    }

    /// When the current session started; meaningful outside idle.
    pub open spec fn spec_started_at(self) -> u64
        recommends
            !(self is Idle),
    {
        match self {
            ActivityState::Idle => 0,
            ActivityState::Tracking { started_at, .. } => started_at,
            ActivityState::Failed { started_at, .. } => started_at,
        }
    }

    /// The latest timestamp the state holds; the monotonic clock never hands
    /// the tracker a time before it.
    pub open spec fn spec_latest(self) -> u64 {
        match self {
            ActivityState::Idle => 0,
            ActivityState::Tracking { started_at, .. } => started_at,
            ActivityState::Failed { since, .. } => since,
        }
    }

    /// The idle state, where every session begins and ends.
    pub fn new() -> (r: ActivityState)
        ensures
            r == ActivityState::Idle,
    {
        ActivityState::Idle
    }

    /// Feeds one input event at time `now` through the transition rules of
    /// `spec_step`, and reports whether the event asks the program to quit
    /// (a quit request or the escape key, honoured in every state).
    pub fn handle_event(&mut self, e: InputEvent, now: u64) -> (quit: bool)
        requires
            old(self).wf(),
            now >= old(self).spec_latest(),
        ensures
            quit == is_quit_event(e),
            *final(self) == spec_step(*old(self), e, now),
            final(self).wf(),
            final(self).spec_latest() <= now,
    {
        match e {
            InputEvent::Quit => {
                return true;
            },
            InputEvent::KeyDown { escape: true } => {
                return true;
            },
            _ => {},
        }
        let disallowed = match e {
            InputEvent::KeyDown { .. } => true,
            InputEvent::MouseButtonDown => true,
            InputEvent::MouseMotion => true,
            InputEvent::MouseWheel => true,
            _ => false,
        };
        match *self {
            ActivityState::Idle => {
                let activates = match e {
                    InputEvent::KeyDown { .. } => true,
                    InputEvent::MouseButtonDown => true,
                    _ => false,
                };
                if activates {
                    *self = ActivityState::Tracking { started_at: now, ignore_next_input: true };
                }
            },
            ActivityState::Tracking { started_at, ignore_next_input } => {
                if disallowed {
                    if ignore_next_input {
                        *self = ActivityState::Tracking { started_at, ignore_next_input: false };
                    } else {
                        let flags = FailureFlags {
                            keyboard: matches!(e, InputEvent::KeyDown { .. }),
                            mouse_button: e == InputEvent::MouseButtonDown,
                            mouse_move: e == InputEvent::MouseMotion,
                            mouse_wheel: e == InputEvent::MouseWheel,
                        };
                        *self = ActivityState::Failed { started_at, since: now, flags };
                    }
                }
            },
            ActivityState::Failed { started_at, since, flags } => {
                if disallowed {
                    let flags = FailureFlags {
                        keyboard: flags.keyboard || matches!(e, InputEvent::KeyDown { .. }),
                        mouse_button: flags.mouse_button || e == InputEvent::MouseButtonDown,
                        mouse_move: flags.mouse_move || e == InputEvent::MouseMotion,
                        mouse_wheel: flags.mouse_wheel || e == InputEvent::MouseWheel,
                    };
                    *self = ActivityState::Failed { started_at, since, flags };
                }
            },
        }
        false
    }

    /// Applies the five-second watchdog at time `now`, as `spec_watchdog`
    /// describes, and reports whether a failed session was just discarded.
    pub fn maybe_reset(&mut self, now: u64) -> (reset: bool)
        requires
            old(self).wf(),
            now >= old(self).spec_latest(),
        ensures
            *final(self) == spec_watchdog(*old(self), now),
            reset == (*old(self) != *final(self)),
            final(self).wf(),
            final(self).spec_latest() <= now,
    {
        match *self {
            ActivityState::Failed { since, .. } => {
                if now - since >= FAILURE_GRACE_NS {
                    *self = ActivityState::Idle;
                    true
                } else {
                    false
                }
            },
            _ => false,
        }
    }
}

/// What the tracker asks the renderer to show.
pub struct StatusReport {
    /// The status line.
    pub headline: String,
    /// The reasons a session failed, present exactly while failed.
    pub detail: Option<String>,
    /// True exactly while a clean session is running.
    pub should_continue_tracking: bool,
}

/// Joins one more part onto `acc`: nothing when `set` is false, otherwise
/// `name`, separated by ", " from anything already joined.
pub open spec fn spec_join_part(acc: Seq<char>, name: Seq<char>, set: bool) -> Seq<char> {
    if !set {
        acc
    } else if acc.len() == 0 {
        name
    } else {
        acc + ", "@ + name
    }
}

/// The human-readable reason a session failed: the names of the recorded
/// input classes, in the fixed order keyboard, mouse button, mouse movement,
/// mouse wheel, joined with ", " and closed with a period.
pub open spec fn spec_reason_text(f: FailureFlags) -> Seq<char> {
    spec_join_part(
        spec_join_part(
            spec_join_part(
                spec_join_part(Seq::<char>::empty(), "Keyboard presses detected"@, f.keyboard),
                "Mouse button presses detected"@,
                f.mouse_button,
            ),
            "Mouse movement detected"@,
            f.mouse_move,
        ),
        "Mouse wheel movement detected"@,
        f.mouse_wheel,
    ) + "."@
}

/// The status line for state `s` at time `now`: the intro prompt while idle,
/// the running session's length while tracking, and the length the session
/// had reached when it failed while failed.
pub open spec fn spec_headline(s: ActivityState, now: u64) -> Seq<char>
    recommends
        s.wf(),
        now >= s.spec_latest(),
{
    match s {
        ActivityState::Idle => "Click any keys or left/right click on your mouse to start tracking."@,
        ActivityState::Tracking { started_at, .. } => "Have been inactive for "@
            + spec_format_duration(((now - started_at) / NANOS_PER_SEC as int) as nat)
            + " Keep going!"@,
        ActivityState::Failed { started_at, since, .. } => "Inactive for "@
            + spec_format_duration(((since - started_at) / NANOS_PER_SEC as int) as nat),
    }
}

/// Builds the failure reason text for `f`, as `spec_reason_text` describes.
pub fn reason_text(f: &FailureFlags) -> (r: String)
    ensures
        r@ == spec_reason_text(*f),
{
    proof {
        reveal_strlit("Keyboard presses detected");
        reveal_strlit("Mouse button presses detected");
        reveal_strlit("Mouse movement detected");
        reveal_strlit("Mouse wheel movement detected");
    }
    let mut r = String::new();
    let mut first = true;
    if f.keyboard {
        r.append("Keyboard presses detected");
        first = false;
    }
    if f.mouse_button {
        if !first {
            r.append(", ");
        }
        r.append("Mouse button presses detected");
        first = false;
    }
    if f.mouse_move {
        if !first {
            r.append(", ");
        }
        r.append("Mouse movement detected");
        first = false;
    }
    if f.mouse_wheel {
        if !first {
            r.append(", ");
        }
        r.append("Mouse wheel movement detected");
    }
    r.append(".");
    r
}

impl ActivityState {
    /// Produces what the renderer should show at time `now`: the headline of
    /// `spec_headline`, the failure reasons of `spec_reason_text` exactly
    /// while failed, and whether a clean session is still running.
    pub fn render_status(&self, now: u64) -> (r: StatusReport)
        requires
            self.wf(),
            now >= self.spec_latest(),
        ensures
            r.headline@ == spec_headline(*self, now),
            *self matches ActivityState::Failed { flags, .. } ==> r.detail matches Some(d)
                && d@ == spec_reason_text(flags),
            !(*self is Failed) ==> r.detail is None,
            r.should_continue_tracking == (*self is Tracking),
    {
        match *self {
            ActivityState::Idle => StatusReport {
                headline: String::from_str(
                    "Click any keys or left/right click on your mouse to start tracking.",
                ),
                detail: None,
                should_continue_tracking: false,
            },
            ActivityState::Tracking { started_at, .. } => {
                let mut headline = String::from_str("Have been inactive for ");
                let elapsed = format_duration((now - started_at) / NANOS_PER_SEC);
                headline.append(elapsed.as_str());
                headline.append(" Keep going!");
                StatusReport { headline, detail: None, should_continue_tracking: true }
            },
            ActivityState::Failed { started_at, since, flags } => {
                let mut headline = String::from_str("Inactive for ");
                let elapsed = format_duration((since - started_at) / NANOS_PER_SEC);
                headline.append(elapsed.as_str());
                StatusReport {
                    headline,
                    detail: Some(reason_text(&flags)),
                    should_continue_tracking: false,
                }
            },
        }
    }
}

/// Law: input events never end a session. Once a session has started, its
/// start time is fixed until the watchdog returns the tracker to idle, and a
/// failed period's `since` never moves while the period lasts.
pub proof fn lemma_session_timestamps_stable(s: ActivityState, e: InputEvent, now: u64)
    requires
        !(s is Idle),
    ensures
        !(spec_step(s, e, now) is Idle),
        spec_step(s, e, now).spec_started_at() == s.spec_started_at(),
        s is Failed ==> spec_step(s, e, now) is Failed,
        s matches ActivityState::Failed { since, .. } ==> spec_step(s, e, now)
            matches ActivityState::Failed { since: since2, .. } && since2 == since,
{
}

/// Law: a failed period that began at `since` reverts to idle exactly when
/// the full grace period has elapsed, and not a nanosecond before.
pub proof fn lemma_failed_watchdog(started_at: u64, since: u64, flags: FailureFlags, now: u64)
    ensures
        now >= since + FAILURE_GRACE_NS ==> spec_watchdog(
            ActivityState::Failed { started_at, since, flags },
            now,
        ) == ActivityState::Idle,
        now < since + FAILURE_GRACE_NS ==> spec_watchdog(
            ActivityState::Failed { started_at, since, flags },
            now,
        ) == (ActivityState::Failed { started_at, since, flags }),
{
}

} // verus!
