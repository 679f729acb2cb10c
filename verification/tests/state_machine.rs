//! The UI state machine: cursor movement and the message-loop steps.

use plerustax::account::Account;
use plerustax::state::{
    app_step, handle_timeline, AppAction, AppEvent, InputKey, State, Timeline, Timelines,
};
use plerustax::tweet::Tweet;

fn sample_tweet(id: &str) -> Tweet {
    Tweet {
        id: id.to_string(),
        created_at: "2024-05-01T10:00:00Z".to_string(),
        in_response_to_id: None,
        in_reply_to_account_id: None,
        sensitive: false,
        spoiler_text: String::new(),
        visibility: "public".to_string(),
        uri: format!("https://a.example/objects/{id}"),
        replies_count: 0,
        reblogs_count: 0,
        favourites_count: 0,
        favourited: false,
        reblogged: false,
        muted: false,
        content: "hello".to_string(),
        reblog: None,
        account: Account {
            id: "1".to_string(),
            acct: "bob".to_string(),
            display_name: "Bob".to_string(),
            bot: false,
            note: String::new(),
            url: "https://a.example/users/bob".to_string(),
            followers_count: 1,
            following_count: 2,
            statuses_count: 3,
            fields: Vec::new(),
        },
        media_attachments: Vec::new(),
        mentions: Vec::new(),
        tags: Vec::new(),
        poll: None,
    }
}

fn timelines_with_home(n: usize) -> Timelines {
    let mut t = Timelines::new();
    for k in 0..n {
        t.home.push(sample_tweet(&k.to_string()));
    }
    t
}

#[test]
fn cursor_moves_down_and_stops_at_end() {
    let tl = timelines_with_home(3);
    let mut st = State::Timeline(Timeline::Home, 0);
    handle_timeline(&mut st, &tl, InputKey::Down);
    assert_eq!(st, State::Timeline(Timeline::Home, 1));
    handle_timeline(&mut st, &tl, InputKey::Down);
    assert_eq!(st, State::Timeline(Timeline::Home, 2));
    handle_timeline(&mut st, &tl, InputKey::Down);
    assert_eq!(st, State::Timeline(Timeline::Home, 2));
}

#[test]
fn cursor_moves_up_and_stops_at_start() {
    let tl = timelines_with_home(3);
    let mut st = State::Timeline(Timeline::Home, 2);
    handle_timeline(&mut st, &tl, InputKey::Up);
    assert_eq!(st, State::Timeline(Timeline::Home, 1));
    handle_timeline(&mut st, &tl, InputKey::Up);
    assert_eq!(st, State::Timeline(Timeline::Home, 0));
    handle_timeline(&mut st, &tl, InputKey::Up);
    assert_eq!(st, State::Timeline(Timeline::Home, 0));
}

#[test]
fn cursor_pinned_on_empty_timeline() {
    let tl = Timelines::new();
    let mut st = State::Timeline(Timeline::Public, 0);
    handle_timeline(&mut st, &tl, InputKey::Down);
    assert_eq!(st, State::Timeline(Timeline::Public, 0));
    handle_timeline(&mut st, &tl, InputKey::Up);
    assert_eq!(st, State::Timeline(Timeline::Public, 0));
}

#[test]
fn other_keys_leave_state_alone() {
    let tl = timelines_with_home(2);
    let mut st = State::Timeline(Timeline::Home, 1);
    handle_timeline(&mut st, &tl, InputKey::Other);
    assert_eq!(st, State::Timeline(Timeline::Home, 1));
}

#[test]
fn responses_extend_their_timeline_in_order() {
    let mut tl = timelines_with_home(1);
    let mut st = State::Timeline(Timeline::Home, 0);
    let incoming = vec![sample_tweet("a"), sample_tweet("b")];
    let (act, render_next) = app_step(&mut tl, &mut st, true, AppEvent::HomeTimeline(incoming));
    assert_eq!(act, AppAction::Carry);
    assert!(render_next);
    assert_eq!(tl.home.len(), 3);
    assert_eq!(tl.home[1].id, "a");
    assert_eq!(tl.home[2].id, "b");
    assert!(tl.local.is_empty());
    assert!(tl.public.is_empty());

    let (act, _) = app_step(&mut tl, &mut st, true, AppEvent::PublicTimeline(vec![sample_tweet("p")]));
    assert_eq!(act, AppAction::Carry);
    assert_eq!(tl.public.len(), 1);
}

#[test]
fn tick_redraws_only_after_other_messages() {
    let mut tl = Timelines::new();
    let mut st = State::Timeline(Timeline::Home, 0);
    // After a non-tick message the next tick redraws ...
    let (act, render_next) = app_step(&mut tl, &mut st, true, AppEvent::Tick);
    assert_eq!(act, AppAction::Redraw);
    assert!(!render_next);
    // ... and a tick right after a tick does not.
    let (act, render_next) = app_step(&mut tl, &mut st, false, AppEvent::Tick);
    assert_eq!(act, AppAction::Carry);
    assert!(!render_next);
}

#[test]
fn quit_key_shuts_down() {
    let mut tl = timelines_with_home(2);
    let mut st = State::Timeline(Timeline::Home, 1);
    let (act, _) = app_step(&mut tl, &mut st, true, AppEvent::Key(InputKey::Quit));
    assert_eq!(act, AppAction::Quit);
    assert_eq!(st, State::Timeline(Timeline::Home, 1));
}

#[test]
fn key_steps_move_cursor() {
    let mut tl = timelines_with_home(2);
    let mut st = State::Timeline(Timeline::Home, 0);
    let (act, render_next) = app_step(&mut tl, &mut st, false, AppEvent::Key(InputKey::Down));
    assert_eq!(act, AppAction::Carry);
    assert!(render_next);
    assert_eq!(st, State::Timeline(Timeline::Home, 1));
}

#[test]
fn failed_fetch_changes_nothing() {
    let mut tl = timelines_with_home(1);
    let mut st = State::Timeline(Timeline::Home, 0);
    let (act, render_next) = app_step(&mut tl, &mut st, false, AppEvent::FetchFailed);
    assert_eq!(act, AppAction::Carry);
    assert!(render_next);
    assert_eq!(tl.home.len(), 1);
    assert_eq!(st, State::Timeline(Timeline::Home, 0));
}
