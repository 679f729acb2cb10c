//! The timeline widgets, rendered into a frame and read back through
//! row reconstruction.

use plerustax::account::Account;
use plerustax::cell::Area;
use plerustax::color::Color;
use plerustax::digits::decimal_string;
use plerustax::frame::Frame;
use plerustax::rows::{reconstruct, Row};
use plerustax::timeline::{TimelineTweetWidget, TimelineWidget};
use plerustax::tweet::Tweet;

fn tweet(acct: &str, content: &str, replies: u32, reblogs: u32, favs: u32) -> Tweet {
    Tweet {
        id: "1".to_string(),
        created_at: "2024-05-01T10:00:00Z".to_string(),
        in_response_to_id: None,
        in_reply_to_account_id: None,
        sensitive: false,
        spoiler_text: String::new(),
        visibility: "public".to_string(),
        uri: "https://a.example/objects/1".to_string(),
        replies_count: replies,
        reblogs_count: reblogs,
        favourites_count: favs,
        favourited: false,
        reblogged: false,
        muted: false,
        content: content.to_string(),
        reblog: None,
        account: Account {
            id: "1".to_string(),
            acct: acct.to_string(),
            display_name: acct.to_string(),
            bot: false,
            note: String::new(),
            url: "https://a.example/users/x".to_string(),
            followers_count: 0,
            following_count: 0,
            statuses_count: 0,
            fields: Vec::new(),
        },
        media_attachments: Vec::new(),
        mentions: Vec::new(),
        tags: Vec::new(),
        poll: None,
    }
}

fn row_text(row: &Row) -> String {
    row.cells.iter().map(|p| p.char).collect()
}

#[test]
fn decimal_formatting() {
    assert_eq!(decimal_string(0), "0");
    assert_eq!(decimal_string(7), "7");
    assert_eq!(decimal_string(40), "40");
    assert_eq!(decimal_string(12345), "12345");
    assert_eq!(decimal_string(u32::MAX), "4294967295");
}

#[test]
fn tweet_widget_three_rows() {
    // Width 11 gives one space of padding before each counter.
    let t = tweet("bob", "hello", 1, 2, 3);
    let mut f = Frame::new(40, 10);
    let w = TimelineTweetWidget::from(&t);
    w.render(&mut f, Area { x: 0, y: 0, width: 11, height: 3 });
    let rows = reconstruct(f.cells());
    assert_eq!(rows.len(), 3);
    assert_eq!(row_text(&rows[0]), "bob");
    assert_eq!(row_text(&rows[1]), "hello");
    assert_eq!(row_text(&rows[2]), " \u{21b5}1 \u{21ba}2 \u{2606}3");
}

#[test]
fn tweet_widget_truncates_to_width() {
    let t = tweet("someverylongname", "a content line that is far wider than the area", 0, 0, 0);
    let mut f = Frame::new(40, 10);
    TimelineTweetWidget::from(&t).render(&mut f, Area { x: 0, y: 0, width: 11, height: 3 });
    let rows = reconstruct(f.cells());
    // The handle is cut three short of the width, the content at the width.
    assert_eq!(row_text(&rows[0]), "somevery");
    assert_eq!(row_text(&rows[1]), "a content l");
}

#[test]
fn tweet_widget_colors_marked_interactions() {
    let mut t = tweet("bob", "x", 0, 5, 9);
    t.reblogged = true;
    t.favourited = true;
    let mut f = Frame::new(40, 10);
    TimelineTweetWidget::from(&t).render(&mut f, Area { x: 0, y: 0, width: 11, height: 3 });
    let rows = reconstruct(f.cells());
    let buttons = &rows[2];
    // A favourited status shows the filled star.
    assert_eq!(row_text(buttons), " \u{21b5}0 \u{21ba}5 \u{2605}9");
    let reblog_cell = buttons.cells[4];
    assert_eq!(reblog_cell.char, '\u{21ba}');
    assert_eq!(reblog_cell.fg, Color::Green);
    let fav_cell = buttons.cells[7];
    assert_eq!(fav_cell.char, '\u{2605}');
    assert_eq!(fav_cell.fg, Color::Yellow);
}

#[test]
fn timeline_widget_stacks_and_rules() {
    let a = tweet("ann", "first", 0, 0, 0);
    let b = tweet("ben", "second", 0, 0, 0);
    let list = vec![&a, &b];
    let mut f = Frame::new(40, 12);
    TimelineWidget::new(0, list).render(&mut f, Area { x: 0, y: 0, width: 11, height: 8 });
    let rows = reconstruct(f.cells());
    // Two statuses of three rows each, a dashed rule under either.
    assert_eq!(row_text(&rows[0]), "ann");
    assert_eq!(row_text(&rows[1]), "first");
    assert_eq!(rows[3].y, 3);
    assert_eq!(row_text(&rows[3]), "-----------");
    assert_eq!(row_text(&rows[4]), "ben");
    assert_eq!(row_text(&rows[5]), "second");
    assert_eq!(rows[7].y, 7);
    assert_eq!(row_text(&rows[7]), "-----------");
}

#[test]
fn timeline_widget_scrolls_from_cursor() {
    let a = tweet("ann", "first", 0, 0, 0);
    let b = tweet("ben", "second", 0, 0, 0);
    let list = vec![&a, &b];
    let mut f = Frame::new(40, 12);
    // Cursor at 1: only the second status fits the listing.
    TimelineWidget::new(1, list).render(&mut f, Area { x: 0, y: 0, width: 11, height: 8 });
    let rows = reconstruct(f.cells());
    assert_eq!(row_text(&rows[0]), "ben");
}
