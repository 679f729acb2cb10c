//! The UI's state and the decisions its message loop takes.
//!
//! The surrounding loop (a single-threaded consumer of a message queue)
//! performs the waiting and the channel traffic; what it decides on each
//! message — which timeline grows, where the cursor moves, whether the
//! next tick redraws — is pure and lives here.

use vstd::prelude::*;

use crate::tweet::Tweet;

verus! {

/// Which timeline is being looked at.
#[derive(Clone, Copy, Debug, PartialEq, Eq, Structural)]
pub enum Timeline {
    Home,
    /// Just this instance.
    Local,
    /// Everywhere.
    Public,
}

/// Where the UI is: a timeline and the cursor position in it.
#[derive(Clone, Copy, Debug, PartialEq, Eq, Structural)]
pub enum State {
    Timeline(Timeline, usize),
}

/// The fetched statuses, one list per timeline.
pub struct Timelines {
    pub home: Vec<Tweet>,
    pub local: Vec<Tweet>,
    pub public: Vec<Tweet>,
}

/// A key press, reduced to what the timeline view reacts to.
#[derive(Clone, Copy, Debug, PartialEq, Eq, Structural)]
pub enum InputKey {
    Up,
    Down,
    Quit,
    Other,
}

impl Timelines {
    pub fn new() -> (r: Timelines)
        ensures
            r.home@ == Seq::<Tweet>::empty(),
            r.local@ == Seq::<Tweet>::empty(),
            r.public@ == Seq::<Tweet>::empty(),
    {
        Timelines { home: Vec::new(), local: Vec::new(), public: Vec::new() }
    }

    /// How many statuses the given timeline holds.
    pub open spec fn spec_len_of(self, t: Timeline) -> nat {
        match t {
            Timeline::Home => self.home@.len(),
            Timeline::Local => self.local@.len(),
            Timeline::Public => self.public@.len(),
        }
    }

    /// How many statuses the given timeline holds.
    pub fn len_of(&self, t: Timeline) -> (r: usize)
        ensures
            r == self.spec_len_of(t),
    {
        match t {
            Timeline::Home => self.home.len(),
            Timeline::Local => self.local.len(),
            Timeline::Public => self.public.len(),
        }
    }
}

/// Where the cursor moves on a key press: down stops at the last entry,
/// up at the first, and an empty timeline pins it at zero.
pub open spec fn scrolled(i: nat, len: nat, key: InputKey) -> nat {
    match key {
        InputKey::Down => if len > 0 && i < len - 1 {
            i + 1
        } else {
            i
        },
        InputKey::Up => if i > 0 {
            (i - 1) as nat
        } else {
            i
        },
        _ => i,
    }
}

/// Moves the cursor of the current timeline for one key press; any key
/// the timeline view does not react to leaves the state untouched.
pub fn handle_timeline(state: &mut State, timelines: &Timelines, key: InputKey)
    ensures
        *final(state) == (match *old(state) {
            State::Timeline(t, i) => State::Timeline(
                t,
                scrolled(i as nat, timelines.spec_len_of(t), key) as usize,
            ),
        }),
{
    match *state {
        State::Timeline(t, i) => {
            let len = timelines.len_of(t);
            let next: usize = match key {
                InputKey::Down => if len > 0 && i < len - 1 {
                    i + 1
                } else {
                    i
                },
                InputKey::Up => if i > 0 {
                    i - 1
                } else {
                    i
                },
                _ => i,
            };
            *state = State::Timeline(t, next);
        },
    }
}

/// What the message loop receives, reduced to plain values: fetched
/// statuses, a failed fetch, the render tick, or a key press.
pub enum AppEvent {
    HomeTimeline(Vec<Tweet>),
    LocalTimeline(Vec<Tweet>),
    PublicTimeline(Vec<Tweet>),
    FetchFailed,
    Tick,
    Key(InputKey),
}

/// What the loop does after a step: carry on, redraw now, or shut down.
#[derive(Clone, Copy, Debug, PartialEq, Eq, Structural)]
pub enum AppAction {
    Carry,
    Redraw,
    Quit,
}

/// One step of the message loop's decisions. Fetched statuses extend
/// their timeline at the end, in order; a tick redraws exactly when the
/// previous message was not itself a tick; a key press moves the cursor,
/// or shuts the loop down on the quit key. Returns the action and
/// whether a following tick should redraw.
pub fn app_step(timelines: &mut Timelines, state: &mut State, should_render: bool, ev: AppEvent)
    -> (r: (AppAction, bool))
    ensures
        r.1 == !(ev is Tick),
        match ev {
            AppEvent::HomeTimeline(ts) => final(timelines).home@ == old(timelines).home@ + ts@
                && final(timelines).local@ == old(timelines).local@ && final(timelines).public@
                == old(timelines).public@ && *final(state) == *old(state) && r.0 == AppAction::Carry,
            AppEvent::LocalTimeline(ts) => final(timelines).local@ == old(timelines).local@ + ts@
                && final(timelines).home@ == old(timelines).home@ && final(timelines).public@
                == old(timelines).public@ && *final(state) == *old(state) && r.0 == AppAction::Carry,
            AppEvent::PublicTimeline(ts) => final(timelines).public@ == old(timelines).public@
                + ts@ && final(timelines).home@ == old(timelines).home@ && final(timelines).local@
                == old(timelines).local@ && *final(state) == *old(state) && r.0 == AppAction::Carry,
            AppEvent::FetchFailed => *final(timelines) == *old(timelines) && *final(state) == *old(
                state,
            ) && r.0 == AppAction::Carry,
            AppEvent::Tick => *final(timelines) == *old(timelines) && *final(state) == *old(state)
                && r.0 == (if should_render {
                AppAction::Redraw
            } else {
                AppAction::Carry
            }),
            AppEvent::Key(k) => *final(timelines) == *old(timelines) && r.0 == (if k
                == InputKey::Quit {
                AppAction::Quit
            } else {
                AppAction::Carry
            }) && *final(state) == (if k == InputKey::Quit {
                *old(state)
            } else {
                match *old(state) {
                    State::Timeline(t, i) => State::Timeline(
                        t,
                        scrolled(i as nat, old(timelines).spec_len_of(t), k) as usize,
                    ),
                }
            }),
        },
{
    match ev {
        AppEvent::HomeTimeline(ts) => {
            let mut ts = ts;
            timelines.home.append(&mut ts);
            (AppAction::Carry, true)
        },
        AppEvent::LocalTimeline(ts) => {
            let mut ts = ts;
            timelines.local.append(&mut ts);
            (AppAction::Carry, true)
        },
        AppEvent::PublicTimeline(ts) => {
            let mut ts = ts;
            timelines.public.append(&mut ts);
            (AppAction::Carry, true)
        },
        AppEvent::FetchFailed => (AppAction::Carry, true),
        AppEvent::Tick => (
            if should_render {
                AppAction::Redraw
            } else {
                AppAction::Carry
            },
            false,
        ),
        AppEvent::Key(k) => {
            if k == InputKey::Quit {
                (AppAction::Quit, true)
            } else {
                handle_timeline(state, timelines, k);
                (AppAction::Carry, true)
            }
        },
    }
}

} // verus!
