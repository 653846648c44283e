//! The canonical post, as stored and indexed.

use vstd::prelude::*;
use vstd::string::*;
use crate::decimal::{decimal, push_decimal};

verus! {

/// A point in time together with the fixed UTC offset it was written in.
#[derive(Clone, Copy, Debug, PartialEq, Eq, Structural)]
pub struct FixedOffsetTime {
    /// Seconds since 1970-01-01T00:00:00Z.
    pub unix_secs: i64,
    /// Local time minus UTC, in seconds.
    pub utc_offset_secs: i32,
}

/// The author of a post.
#[derive(Clone, Debug, PartialEq, Default)]
pub struct User {
    pub id: i64,
    pub screen_name: String,
}

pub struct UserView {
    pub id: i64,
    pub screen_name: Seq<char>,
}

impl View for User {
    type V = UserView;

    open spec fn view(&self) -> UserView {
        UserView { id: self.id, screen_name: self.screen_name@ }
    }
}

/// The author that a post without author data is given.
pub open spec fn anonymous_user() -> UserView {
    UserView { id: 0, screen_name: Seq::empty() }
}

/// The address of an author's profile for a given author id.
pub open spec fn profile_url_of(id: i64) -> Seq<char> {
    "https://weibo.com/u/"@ + decimal(id as int)
}

/// The canonical address of a post, from its author id and short post id.
pub open spec fn post_url_of(user_id: i64, mblogid: Seq<char>) -> Seq<char> {
    "https://weibo.com/"@ + decimal(user_id as int) + "/"@ + mblogid
}

impl User {
    /// The address of this author's profile page.
    pub fn profile_url(&self) -> (r: String)
        ensures
            r@ == profile_url_of(self.id),
    {
        let mut s = String::from_str("https://weibo.com/u/");
        push_decimal(&mut s, self.id);
        s
    }
}

/// The kind of media a post carries.
#[derive(Clone, Copy, Debug, PartialEq, Eq, Structural)]
pub enum MediaType {
    Text,
    Picture,
    Video,
}

impl MediaType {
    /// The numeric code of the media type, as the search index stores it.
    pub open spec fn spec_code(self) -> u8 {
        match self {
            MediaType::Text => 0,
            MediaType::Picture => 1,
            MediaType::Video => 2,
        }
    }

    /// The numeric code of the media type: 0 for text, 1 for pictures, 2 for video.
    pub fn code(&self) -> (r: u8)
        ensures
            r == self.spec_code(),
    {
        match self {
            MediaType::Text => 0,
            MediaType::Picture => 1,
            MediaType::Video => 2,
        }
    }
}

/// A video attached to a post.
#[derive(Clone, Debug, PartialEq)]
pub struct VideoEntry {
    pub url: String,
    pub duration_secs: u32,
    pub cover_picture_url: String,
}

pub struct VideoEntryView {
    pub url: Seq<char>,
    pub duration_secs: u32,
    pub cover_picture_url: Seq<char>,
}

impl View for VideoEntry {
    type V = VideoEntryView;

    open spec fn view(&self) -> VideoEntryView {
        VideoEntryView {
            url: self.url@,
            duration_secs: self.duration_secs,
            cover_picture_url: self.cover_picture_url@,
        }
    }
}

/// The view of an optional video.
pub open spec fn video_view(v: Option<VideoEntry>) -> Option<VideoEntryView> {
    match v {
        Some(e) => Some(e@),
        None => None,
    }
}

/// The media attached to a post: nothing, an ordered list of picture addresses, or a video.
#[derive(Clone, Debug, PartialEq)]
pub enum MediaAsset {
    NoMedia,
    Pictures(Vec<String>),
    Video(VideoEntry),
}

pub enum MediaAssetView {
    NoMedia,
    Pictures(Seq<Seq<char>>),
    Video(VideoEntryView),
}

/// The texts of a sequence of strings.
pub open spec fn strings_view(v: Seq<String>) -> Seq<Seq<char>> {
    v.map_values(|s: String| s@)
}

impl View for MediaAsset {
    type V = MediaAssetView;

    open spec fn view(&self) -> MediaAssetView {
        match self {
            MediaAsset::NoMedia => MediaAssetView::NoMedia,
            MediaAsset::Pictures(urls) => MediaAssetView::Pictures(strings_view(urls@)),
            MediaAsset::Video(v) => MediaAssetView::Video(v@),
        }
    }
}

impl MediaAsset {
    pub open spec fn spec_media_type(self) -> MediaType {
        match self {
            MediaAsset::NoMedia => MediaType::Text,
            MediaAsset::Pictures(_) => MediaType::Picture,
            MediaAsset::Video(_) => MediaType::Video,
        }
    }

    /// The media type of this asset alone.
    pub fn media_type(&self) -> (r: MediaType)
        ensures
            r == self.spec_media_type(),
    {
        match self {
            MediaAsset::NoMedia => MediaType::Text,
            MediaAsset::Pictures(_) => MediaType::Picture,
            MediaAsset::Video(_) => MediaType::Video,
        }
    }
}

/// A canonical post; a retweet holds the post it embeds.
#[derive(Debug, PartialEq)]
pub struct Post {
    pub id: i64,
    pub mblogid: String,
    pub user: User,
    pub text_raw: String,
    pub is_long_text: bool,
    pub media_asset: MediaAsset,
    pub created_at: FixedOffsetTime,
    pub retweeted_post: Option<Box<Post>>,
}

impl Clone for Post {
    fn clone(&self) -> (r: Post)
        ensures
            r.id == self.id,
            r.mblogid@ == self.mblogid@,
            r.text_raw@ == self.text_raw@,
            r.is_long_text == self.is_long_text,
            r.created_at == self.created_at,
            r.retweeted_post is Some == self.retweeted_post is Some,
        decreases self,
    {
        let retweeted_post = match &self.retweeted_post {
            Some(p) => Some(Box::new((**p).clone())),
            None => None,
        };
        Post {
            id: self.id,
            mblogid: self.mblogid.clone(),
            user: self.user.clone(),
            text_raw: self.text_raw.clone(),
            is_long_text: self.is_long_text,
            media_asset: self.media_asset.clone(),
            created_at: self.created_at,
            retweeted_post,
        }
    }
}

impl Post {
    /// The media type that counts for the post: the embedded post's when there is one.
    pub open spec fn spec_media_type(self) -> MediaType
        decreases self,
    {
        match self.retweeted_post {
            Some(p) => (*p).spec_media_type(),
            None => self.media_asset.spec_media_type(),
        }
    }

    /// A post is valid when it and every post it embeds have a non-zero author id.
    pub open spec fn spec_is_valid(self) -> bool
        decreases self,
    {
        self.user.id != 0 && match self.retweeted_post {
            Some(p) => (*p).spec_is_valid(),
            None => true,
        }
    }

    /// The canonical address of the post.
    pub fn url(&self) -> (r: String)
        ensures
            r@ == post_url_of(self.user.id, self.mblogid@),
    {
        let mut s = String::from_str("https://weibo.com/");
        push_decimal(&mut s, self.user.id);
        s.append("/");
        s.append(self.mblogid.as_str());
        s
    }

    pub fn media_type(&self) -> (r: MediaType)
        ensures
            r == self.spec_media_type(),
        decreases self,
    {
        match &self.retweeted_post {
            Some(p) => p.media_type(),
            None => self.media_asset.media_type(),
        }
    }

    pub fn is_retweet(&self) -> (r: bool)
        ensures
            r == self.retweeted_post is Some,
    {
        self.retweeted_post.is_some()
    }

    pub fn is_valid(&self) -> (r: bool)
        ensures
            r == self.spec_is_valid(),
        decreases self,
    {
        if self.user.id == 0 {
            return false;
        }
        if let Some(retweeted_post) = &self.retweeted_post {
            if !retweeted_post.is_valid() {
                return false;
            }
        }
        true
    }
}

} // verus!
