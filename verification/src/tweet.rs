//! The status ("tweet") records a timeline is made of, and the media
//! attachment classification.

use vstd::prelude::*;

use crate::account::Account;

verus! {

/// A media attachment as the service reports it: the kind is a plain
/// string until classified.
#[derive(Debug)]
pub struct MediaAttatchmentRaw {
    pub id: String,
    pub type_: String,
    pub url: String,
    pub preview_url: String,
    pub description: Option<String>,
}

/// A classified media attachment.
#[derive(Debug)]
pub enum MediaAttatchment {
    Image { id: String, url: String, preview_url: String, description: Option<String> },
    Video { id: String, url: String, preview_url: String, description: Option<String> },
    Gifv { id: String, url: String, preview_url: String, description: Option<String> },
    Audio { id: String, url: String, preview_url: String, description: Option<String> },
}

impl MediaAttatchment {
    /// Classifies a raw attachment by its kind string. Exactly the kinds
    /// `image`, `video`, `gifv` and `audio` are accepted; any other kind
    /// is rejected, handing the offending string back.
    pub fn try_from(value: MediaAttatchmentRaw) -> (r: Result<MediaAttatchment, String>)
        ensures
            value.type_@ == "image"@ ==> r == Ok::<MediaAttatchment, String>(
                MediaAttatchment::Image {
                    id: value.id,
                    url: value.url,
                    preview_url: value.preview_url,
                    description: value.description,
                },
            ),
            value.type_@ == "video"@ ==> r == Ok::<MediaAttatchment, String>(
                MediaAttatchment::Video {
                    id: value.id,
                    url: value.url,
                    preview_url: value.preview_url,
                    description: value.description,
                },
            ),
            value.type_@ == "gifv"@ ==> r == Ok::<MediaAttatchment, String>(
                MediaAttatchment::Gifv {
                    id: value.id,
                    url: value.url,
                    preview_url: value.preview_url,
                    description: value.description,
                },
            ),
            value.type_@ == "audio"@ ==> r == Ok::<MediaAttatchment, String>(
                MediaAttatchment::Audio {
                    id: value.id,
                    url: value.url,
                    preview_url: value.preview_url,
                    description: value.description,
                },
            ),
            r is Ok <==> (value.type_@ == "image"@ || value.type_@ == "video"@ || value.type_@
                == "gifv"@ || value.type_@ == "audio"@),
            r is Err ==> r->Err_0@ == value.type_@,
    {
        proof {
            reveal_strlit("image");
            reveal_strlit("video");
            reveal_strlit("gifv");
            reveal_strlit("audio");
            assert("image"@[0] == 'i' && "video"@[0] == 'v' && "gifv"@[0] == 'g' && "audio"@[0]
                == 'a');
            assert("image"@ != "video"@ && "image"@ != "gifv"@ && "image"@ != "audio"@);
            assert("video"@ != "gifv"@ && "video"@ != "audio"@);
            assert("gifv"@ != "audio"@);
        }
        let image = String::from_str("image");
        let video = String::from_str("video");
        let gifv = String::from_str("gifv");
        let audio = String::from_str("audio");
        if value.type_ == image {
            Ok(
                MediaAttatchment::Image {
                    id: value.id,
                    url: value.url,
                    preview_url: value.preview_url,
                    description: value.description,
                },
            )
        } else if value.type_ == video {
            Ok(
                MediaAttatchment::Video {
                    id: value.id,
                    url: value.url,
                    preview_url: value.preview_url,
                    description: value.description,
                },
            )
        } else if value.type_ == gifv {
            Ok(
                MediaAttatchment::Gifv {
                    id: value.id,
                    url: value.url,
                    preview_url: value.preview_url,
                    description: value.description,
                },
            )
        } else if value.type_ == audio {
            Ok(
                MediaAttatchment::Audio {
                    id: value.id,
                    url: value.url,
                    preview_url: value.preview_url,
                    description: value.description,
                },
            )
        } else {
            Err(value.type_)
        }
    }
}

/// A mention of another account inside a status.
#[derive(Debug)]
pub struct TweetMention {
    pub id: String,
    pub acct: String,
    pub url: String,
}

/// A hashtag attached to a status.
#[derive(Debug)]
pub struct TweetTag {
    pub name: String,
}

/// One option of a poll.
#[derive(Debug)]
pub struct PollOption {
    pub title: String,
    pub votes_count: u32,
}

/// A poll attached to a status.
#[derive(Debug)]
pub struct Poll {
    pub id: String,
    pub expires_at: String,
    pub expired: bool,
    pub multiple: bool,
    pub votes_count: u32,
    pub voters_count: Option<u32>,
}

/// One status of a timeline.
#[derive(Debug)]
pub struct Tweet {
    pub id: String,
    pub created_at: String,
    pub in_response_to_id: Option<String>,
    pub in_reply_to_account_id: Option<String>,
    pub sensitive: bool,
    pub spoiler_text: String,
    pub visibility: String,
    pub uri: String,
    pub replies_count: u32,
    pub reblogs_count: u32,
    pub favourites_count: u32,
    pub favourited: bool,
    pub reblogged: bool,
    pub muted: bool,
    pub content: String,
    pub reblog: Option<Box<Tweet>>,
    pub account: Account,
    pub media_attachments: Vec<MediaAttatchmentRaw>,
    pub mentions: Vec<TweetMention>,
    pub tags: Vec<TweetTag>,
    pub poll: Option<Poll>,
}

} // verus!
