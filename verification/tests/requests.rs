//! The request builders and the attachment classification.

use plerustax::requests::{
    bearer_value, delete_status_request, login_request, post_status_request, register_app_request,
    search_request, status_is_success, timeline_request, Method,
};
use plerustax::state::Timeline;
use plerustax::tweet::{MediaAttatchment, MediaAttatchmentRaw};

fn raw(kind: &str) -> MediaAttatchmentRaw {
    MediaAttatchmentRaw {
        id: "17".to_string(),
        type_: kind.to_string(),
        url: "https://example.net/m/17".to_string(),
        preview_url: "https://example.net/m/17/small".to_string(),
        description: Some("a picture".to_string()),
    }
}

#[test]
fn media_image() {
    match MediaAttatchment::try_from(raw("image")) {
        Ok(MediaAttatchment::Image { id, url, preview_url, description }) => {
            assert_eq!(id, "17");
            assert_eq!(url, "https://example.net/m/17");
            assert_eq!(preview_url, "https://example.net/m/17/small");
            assert_eq!(description.as_deref(), Some("a picture"));
        }
        _ => panic!("expected an image attachment"),
    }
}

#[test]
fn media_video_gifv_audio() {
    assert!(matches!(
        MediaAttatchment::try_from(raw("video")),
        Ok(MediaAttatchment::Video { .. })
    ));
    assert!(matches!(
        MediaAttatchment::try_from(raw("gifv")),
        Ok(MediaAttatchment::Gifv { .. })
    ));
    assert!(matches!(
        MediaAttatchment::try_from(raw("audio")),
        Ok(MediaAttatchment::Audio { .. })
    ));
}

#[test]
fn media_unknown_kind_rejected() {
    match MediaAttatchment::try_from(raw("sticker")) {
        Err(kind) => assert_eq!(kind, "sticker"),
        Ok(_) => panic!("an unknown kind must be rejected"),
    }
}

#[test]
fn register_app() {
    let r = register_app_request("https://cawfee.club");
    assert_eq!(r.method, Method::Post);
    assert_eq!(r.url, "https://cawfee.club/api/v1/apps");
    assert!(r.query.is_empty());
    assert!(r.bearer.is_none());
    assert_eq!(r.json.len(), 3);
    assert_eq!(r.json[0], ("client_name".to_string(), "plerustax".to_string()));
    assert_eq!(r.json[1], ("scopes".to_string(), "read write".to_string()));
    assert_eq!(
        r.json[2],
        ("redirect_uris".to_string(), "urn:ietf:wg:oauth:2.0:oob".to_string())
    );
}

#[test]
fn login() {
    let r = login_request("https://cawfee.club", "cid", "csec", "bob", "hunter2");
    assert_eq!(r.method, Method::Post);
    assert_eq!(r.url, "https://cawfee.club/oauth/token");
    assert_eq!(r.json.len(), 7);
    assert_eq!(r.json[0], ("client_id".to_string(), "cid".to_string()));
    assert_eq!(r.json[1], ("client_secret".to_string(), "csec".to_string()));
    assert_eq!(
        r.json[2],
        ("redirect_uri".to_string(), "urn:ietf:wg:oauth:2.0:oob".to_string())
    );
    assert_eq!(r.json[3], ("grant_type".to_string(), "password".to_string()));
    assert_eq!(r.json[4], ("username".to_string(), "bob".to_string()));
    assert_eq!(r.json[5], ("password".to_string(), "hunter2".to_string()));
    assert_eq!(r.json[6], ("scope".to_string(), "read write".to_string()));
}

#[test]
fn timelines() {
    let r = timeline_request("https://a.example", Timeline::Home, None, "tok");
    assert_eq!(r.method, Method::Get);
    assert_eq!(r.url, "https://a.example/api/v1/timelines/home");
    assert!(r.query.is_empty());
    assert_eq!(r.bearer.as_deref(), Some("Bearer tok"));

    let r = timeline_request("https://a.example", Timeline::Public, Some("42"), "tok");
    assert_eq!(r.url, "https://a.example/api/v1/timelines/public");
    assert_eq!(r.query, vec![("since_id".to_string(), "42".to_string())]);

    let r = timeline_request("https://a.example", Timeline::Local, None, "tok");
    assert_eq!(r.url, "https://a.example/api/v1/timelines/public");
}

#[test]
fn search() {
    let r = search_request("https://a.example", "verus", None, "tok");
    assert_eq!(r.method, Method::Get);
    assert_eq!(r.url, "https://a.example/api/v2/search");
    assert_eq!(r.query, vec![("q".to_string(), "verus".to_string())]);

    let r = search_request("https://a.example", "verus", Some(40), "tok");
    assert_eq!(
        r.query,
        vec![
            ("q".to_string(), "verus".to_string()),
            ("offset".to_string(), "40".to_string()),
        ]
    );
}

#[test]
fn post_and_delete() {
    let r = post_status_request("https://a.example", "hi fedi", "public", "tok");
    assert_eq!(r.method, Method::Post);
    assert_eq!(r.url, "https://a.example/api/v1/statuses");
    assert_eq!(r.json.len(), 4);
    assert_eq!(r.json[0], ("status".to_string(), "hi fedi".to_string()));
    assert_eq!(r.json[1], ("content_type".to_string(), "text/plain".to_string()));
    assert_eq!(r.json[2], ("source".to_string(), "plerustax".to_string()));
    assert_eq!(r.json[3], ("visibility".to_string(), "public".to_string()));
    assert_eq!(r.bearer.as_deref(), Some("Bearer tok"));

    let r = delete_status_request("https://a.example", "99", "tok");
    assert_eq!(r.method, Method::Delete);
    assert_eq!(r.url, "https://a.example/api/v1/statuses/99");
    assert!(r.json.is_empty());
}

#[test]
fn bearer_and_status() {
    assert_eq!(bearer_value("abc"), "Bearer abc");
    assert!(!status_is_success(199));
    assert!(status_is_success(200));
    assert!(status_is_success(299));
    assert!(!status_is_success(300));
    assert!(!status_is_success(404));
}
