//! Raw posts as the provider delivers them, and their normalization.

use vstd::prelude::*;
use vstd::string::*;
use crate::link::{
    first_short_link_at, lemma_resolve_no_link, lemma_video_link_found, lookup_short_url,
    no_short_link, replace_short_urls, resolve_links, MAX_LINK_ROUNDS, SHORT_LINK_LEN,
};
use crate::post::{
    anonymous_user, video_view, strings_view, FixedOffsetTime, MediaAsset, MediaAssetView, Post, User,
    VideoEntry, VideoEntryView,
};

verus! {

/// One entry of a post's link substitution table.
#[derive(Clone, Debug, PartialEq)]
pub struct UrlStruct {
    pub short_url: String,
    pub long_url: String,
    /// The key of the page metadata block the link refers to, for rich content such as video.
    pub page_id: Option<String>,
}

/// The page metadata block of a post.
#[derive(Clone, Debug, PartialEq)]
pub struct PageInfo {
    pub page_id: String,
    pub object_type: String,
    pub page_pic: String,
    /// The `duration` of the embedded media info, when it is a non-negative integer.
    pub media_duration: Option<u64>,
}

/// The duration of the video a page metadata block describes, if it describes one.
pub open spec fn video_duration(p: PageInfo) -> Option<u64> {
    if p.object_type@ == "video"@ {
        p.media_duration
    } else {
        None
    }
}

impl PageInfo {
    /// The video's duration in seconds, when the block is of kind `video` and has one.
    pub fn get_video_duration_secs(&self) -> (r: Option<u64>)
        ensures
            r == video_duration(*self),
    {
        if self.object_type == String::from_str("video") {
            self.media_duration
        } else {
            None
        }
    }
}

/// The format the provider writes creation times in, as in `Sun Jan 09 11:50:55 +0800 2022`.
pub const WEIBO_DATETIME_FORMAT: &'static str = "%a %b %d %H:%M:%S %z %Y";

/// The instant (seconds since the epoch) and UTC offset (seconds) that a text denotes when read
/// with a `strftime`-style format, or none when the text does not follow it.
pub uninterp spec fn parsed_datetime(text: Seq<char>, format: Seq<char>) -> Option<(i64, i32)>;

#[verifier::external_type_specification]
#[verifier::external_body]
pub struct ExChronoParseError(chrono::format::ParseError);

/// Relies on `chrono::DateTime::parse_from_str`: it reads the text with the format, and the
/// outcome depends on the two strings alone.
#[verifier::external_body]
fn parse_from_str(text: &str, format: &str) -> (r: Result<(i64, i32), chrono::format::ParseError>)
    ensures
        r matches Ok(v) ==> parsed_datetime(text@, format@) == Some(v),
        r is Err ==> parsed_datetime(text@, format@) is None,
{
    chrono::DateTime::parse_from_str(text, format).map(|d| (d.timestamp(), d.offset().local_minus_utc()))
}

/// A creation time that does not follow the provider's format.
#[derive(Clone, Copy, Debug, PartialEq, Eq, Structural)]
pub enum DateTimeError {
    NotInFormat,
}

/// Reads a creation time written in the provider's format.
pub fn parse_weibo_datetime(text: &str) -> (r: Result<FixedOffsetTime, DateTimeError>)
    ensures
        match parsed_datetime(text@, WEIBO_DATETIME_FORMAT@) {
            Some((secs, offset)) => r == Ok::<FixedOffsetTime, DateTimeError>(
                FixedOffsetTime { unix_secs: secs, utc_offset_secs: offset },
            ),
            None => r == Err::<FixedOffsetTime, DateTimeError>(DateTimeError::NotInFormat),
        },
{
    match parse_from_str(text, WEIBO_DATETIME_FORMAT) {
        Ok((secs, offset)) => Ok(FixedOffsetTime { unix_secs: secs, utc_offset_secs: offset }),
        Err(_) => Err(DateTimeError::NotInFormat),
    }
}

/// The full-size address of one picture.
#[derive(Clone, Debug, PartialEq)]
pub struct PicInfo {
    pub id: String,
    pub url: String,
}

/// A post as the provider delivers it.
#[derive(Clone, Debug, PartialEq)]
pub struct RawPost {
    pub id: i64,
    pub mblogid: String,
    pub user: User,
    pub text_raw: String,
    pub is_long_text: bool,
    pub pic_ids: Vec<String>,
    pub pic_infos: Vec<PicInfo>,
    pub url_structs: Vec<UrlStruct>,
    pub page_info: Option<PageInfo>,
    pub created_at: FixedOffsetTime,
    pub retweeted_post: Option<RawRetweetedPost>,
}

/// The post that a raw post embeds: it has no link table and no page metadata of its own,
/// and its author may be missing.
#[derive(Clone, Debug, PartialEq)]
pub struct RawRetweetedPost {
    pub id: i64,
    pub mblogid: String,
    pub user: Option<User>,
    pub text_raw: String,
    pub is_long_text: bool,
    pub pic_ids: Vec<String>,
    pub pic_infos: Vec<PicInfo>,
    pub created_at: FixedOffsetTime,
}

/// The address recorded for a picture id; a later entry overrides an earlier one.
pub open spec fn lookup_picture(infos: Seq<PicInfo>, id: Seq<char>) -> Option<Seq<char>>
    decreases infos.len(),
{
    if infos.len() == 0 {
        None
    } else if infos.last().id@ == id {
        Some(infos.last().url@)
    } else {
        lookup_picture(infos.drop_last(), id)
    }
}

/// Whether `id` is among `ids`.
pub open spec fn occurs(ids: Seq<String>, id: Seq<char>) -> bool {
    exists|k: int| 0 <= k < ids.len() && (#[trigger] ids[k])@ == id
}

/// The picture addresses of a post, in the order of its picture ids: ids without an entry are
/// skipped, and each id counts once.
pub open spec fn picture_urls(ids: Seq<String>, infos: Seq<PicInfo>) -> Seq<Seq<char>>
    decreases ids.len(),
{
    if ids.len() == 0 {
        Seq::empty()
    } else {
        let prev = picture_urls(ids.drop_last(), infos);
        let id = ids.last()@;
        if occurs(ids.drop_last(), id) {
            prev
        } else {
            match lookup_picture(infos, id) {
                Some(url) => prev.push(url),
                None => prev,
            }
        }
    }
}

/// The media of a post: its video if one was found, else its pictures if any, else nothing.
pub open spec fn media_of(
    video: Option<VideoEntryView>,
    ids: Seq<String>,
    infos: Seq<PicInfo>,
) -> MediaAssetView {
    match video {
        Some(v) => MediaAssetView::Video(v),
        None => if picture_urls(ids, infos).len() > 0 {
            MediaAssetView::Pictures(picture_urls(ids, infos))
        } else {
            MediaAssetView::NoMedia
        },
    }
}

fn find_picture(infos: &Vec<PicInfo>, id: &String) -> (r: Option<String>)
    ensures
        r matches Some(u) ==> lookup_picture(infos@, id@) == Some(u@),
        r is None ==> lookup_picture(infos@, id@) is None,
{
    let mut i: usize = infos.len();
    assert(infos@.take(i as int) =~= infos@);
    while i > 0
        invariant
            i <= infos@.len(),
            lookup_picture(infos@, id@) == lookup_picture(infos@.take(i as int), id@),
        decreases i,
    {
        assert(infos@.take(i as int).drop_last() =~= infos@.take(i - 1));
        i = i - 1;
        if infos[i].id == *id {
            return Some(infos[i].url.clone());
        }
    }
    None
}

fn occurs_before(ids: &Vec<String>, i: usize) -> (r: bool)
    requires
        i < ids@.len(),
    ensures
        r == occurs(ids@.take(i as int), ids@[i as int]@),
{
    let mut j: usize = 0;
    while j < i
        invariant
            i < ids@.len(),
            j <= i,
            forall|k: int| 0 <= k < j ==> ids@[k]@ != ids@[i as int]@,
        decreases i - j,
    {
        if ids[j] == ids[i] {
            assert(ids@.take(i as int)[j as int] == ids@[j as int]);
            return true;
        }
        j = j + 1;
    }
    assert forall|k: int| 0 <= k < i implies (#[trigger] ids@.take(i as int)[k])@ != ids@[i as int]@ by {
        assert(ids@.take(i as int)[k] == ids@[k]);
    }
    false
}

/// The picture asset of a post: its picture addresses, if at least one id has an entry.
pub fn collect_picture_asset(pic_ids: Vec<String>, pic_infos: Vec<PicInfo>) -> (r: Option<MediaAsset>)
    ensures
        picture_urls(pic_ids@, pic_infos@).len() > 0 ==> (r matches Some(a) && a@
            == MediaAssetView::Pictures(picture_urls(pic_ids@, pic_infos@))),
        picture_urls(pic_ids@, pic_infos@).len() == 0 ==> r is None,
{
    let mut urls: Vec<String> = Vec::new();
    let mut i: usize = 0;
    while i < pic_ids.len()
        invariant
            i <= pic_ids@.len(),
            strings_view(urls@) == picture_urls(pic_ids@.take(i as int), pic_infos@),
        decreases pic_ids@.len() - i,
    {
        let ghost before = urls@;
        assert(pic_ids@.take(i + 1).drop_last() =~= pic_ids@.take(i as int));
        if !occurs_before(&pic_ids, i) {
            if let Some(url) = find_picture(&pic_infos, &pic_ids[i]) {
                urls.push(url);
                assert(strings_view(urls@) =~= strings_view(before).push(url@));
            }
        }
        i = i + 1;
    }
    assert(pic_ids@.take(i as int) =~= pic_ids@);
    if urls.len() > 0 {
        Some(MediaAsset::Pictures(urls))
    } else {
        None
    }
}

/// Whether `p` is the canonical form of the embedded raw post `raw`, whose links are resolved
/// against the link table and page metadata of the post that embeds it.
pub open spec fn is_normalized_retweet(
    p: Post,
    raw: RawRetweetedPost,
    table: Seq<UrlStruct>,
    page: Option<PageInfo>,
) -> bool {
    let resolved = resolve_links(raw.text_raw@, table, page);
    &&& p.id == raw.id
    &&& p.mblogid@ == raw.mblogid@
    &&& p.user@ == match raw.user {
        Some(u) => u@,
        None => anonymous_user(),
    }
    &&& p.text_raw@ == resolved.0
    &&& p.is_long_text == raw.is_long_text
    &&& p.media_asset@ == media_of(resolved.1, raw.pic_ids@, raw.pic_infos@)
    &&& p.created_at == raw.created_at
    &&& p.retweeted_post is None
}

/// Whether `p` is the canonical form of the raw post `raw`.
pub open spec fn is_normalized(p: Post, raw: RawPost) -> bool {
    let resolved = resolve_links(raw.text_raw@, raw.url_structs@, raw.page_info);
    &&& p.id == raw.id
    &&& p.mblogid@ == raw.mblogid@
    &&& p.user@ == raw.user@
    &&& p.text_raw@ == resolved.0
    &&& p.is_long_text == raw.is_long_text
    &&& p.media_asset@ == media_of(resolved.1, raw.pic_ids@, raw.pic_infos@)
    &&& p.created_at == raw.created_at
    &&& match raw.retweeted_post {
        None => p.retweeted_post is None,
        Some(r) => p.retweeted_post matches Some(b) && is_normalized_retweet(
            *b,
            r,
            raw.url_structs@,
            raw.page_info,
        ),
    }
}

fn media_asset_of(
    video: Option<VideoEntry>,
    pic_ids: Vec<String>,
    pic_infos: Vec<PicInfo>,
) -> (r: MediaAsset)
    ensures
        r@ == media_of(video_view(video), pic_ids@, pic_infos@),
{
    if let Some(video_entry) = video {
        MediaAsset::Video(video_entry)
    } else if let Some(picture_asset) = collect_picture_asset(pic_ids, pic_infos) {
        picture_asset
    } else {
        MediaAsset::NoMedia
    }
}

fn normalize_raw_retweeted_post(
    retweeted_post: RawRetweetedPost,
    url_structs: &[UrlStruct],
    page_info: &Option<PageInfo>,
) -> (r: Post)
    ensures
        is_normalized_retweet(r, retweeted_post, url_structs@, *page_info),
{
    let RawRetweetedPost { id, mblogid, user, mut text_raw, is_long_text, pic_ids, pic_infos, created_at } =
        retweeted_post;
    let video_entry = replace_short_urls(&mut text_raw, url_structs, page_info);
    let user = match user {
        Some(u) => u,
        None => User { id: 0, screen_name: String::new() },
    };
    Post {
        id,
        mblogid,
        user,
        text_raw,
        is_long_text,
        media_asset: media_asset_of(video_entry, pic_ids, pic_infos),
        created_at,
        retweeted_post: None,
    }
}

fn normalize_raw_post(raw_post: RawPost) -> (r: Post)
    ensures
        is_normalized(r, raw_post),
{
    let RawPost {
        id,
        mblogid,
        user,
        mut text_raw,
        is_long_text,
        pic_ids,
        pic_infos,
        url_structs,
        page_info,
        created_at,
        retweeted_post,
    } = raw_post;
    let video_entry = replace_short_urls(&mut text_raw, url_structs.as_slice(), &page_info);
    let retweeted_post = match retweeted_post {
        Some(rp) => Some(
            Box::new(normalize_raw_retweeted_post(rp, url_structs.as_slice(), &page_info)),
        ),
        None => None,
    };
    Post {
        id,
        mblogid,
        user,
        text_raw,
        is_long_text,
        media_asset: media_asset_of(video_entry, pic_ids, pic_infos),
        created_at,
        retweeted_post,
    }
}

impl RawPost {
    /// The canonical post: links resolved, media classified, and the embedded post, if any,
    /// normalized with this post's link table and page metadata.
    pub fn normalize(self) -> (r: Post)
        ensures
            is_normalized(r, self),
    {
        normalize_raw_post(self)
    }
}

/// Picture ids none of which has an entry give no picture.
pub proof fn lemma_no_picture_entries(ids: Seq<String>, infos: Seq<PicInfo>)
    requires
        forall|k: int| 0 <= k < ids.len() ==> lookup_picture(infos, (#[trigger] ids[k])@) is None,
    ensures
        picture_urls(ids, infos).len() == 0,
    decreases ids.len(),
{
    if ids.len() > 0 {
        let init = ids.drop_last();
        assert forall|k: int| 0 <= k < init.len() implies lookup_picture(
            infos,
            (#[trigger] init[k])@,
        ) is None by {
            assert(init[k] == ids[k]);
        }
        lemma_no_picture_entries(init, infos);
        assert(lookup_picture(infos, ids[ids.len() - 1]@) is None);
    }
}

/// A post whose text holds no shortened link keeps its text, and when none of its picture ids
/// has an entry it has no media.
pub proof fn lemma_plain_post(p: Post, raw: RawPost)
    requires
        is_normalized(p, raw),
        no_short_link(raw.text_raw@),
        forall|k: int|
            0 <= k < raw.pic_ids@.len() ==> lookup_picture(
                raw.pic_infos@,
                (#[trigger] raw.pic_ids@[k])@,
            ) is None,
    ensures
        p.text_raw@ == raw.text_raw@,
        p.media_asset@ == MediaAssetView::NoMedia,
{
    lemma_resolve_no_link(raw.text_raw@, raw.url_structs@, raw.page_info, MAX_LINK_ROUNDS as nat);
    lemma_no_picture_entries(raw.pic_ids@, raw.pic_infos@);
}

/// An embedded post without author data gets author id 0 and an empty name, embeds nothing,
/// and makes the embedding post invalid, whatever its own author.
pub proof fn lemma_retweet_without_author_invalid(p: Post, raw: RawPost)
    requires
        is_normalized(p, raw),
        raw.retweeted_post matches Some(r) && r.user is None,
    ensures
        p.retweeted_post matches Some(b) && b.user@ == anonymous_user() && b.user.id == 0
            && b.retweeted_post is None,
        !p.spec_is_valid(),
{
    let b = p.retweeted_post->Some_0;
    assert(!(*b).spec_is_valid());
}

/// A post whose only link refers to its video page block, and whose long form makes no link,
/// has that video as its media, whatever its pictures, and the link resolved in its text.
pub proof fn lemma_video_post(
    p: Post,
    raw: RawPost,
    pre: Seq<char>,
    tok: Seq<char>,
    post: Seq<char>,
)
    requires
        is_normalized(p, raw),
        raw.text_raw@ == pre + tok + post,
        tok.len() == SHORT_LINK_LEN,
        first_short_link_at(pre + tok + post, pre.len() as int),
        raw.page_info is Some,
        video_duration(raw.page_info->Some_0) is Some,
        lookup_short_url(raw.url_structs@, tok) matches Some(e) && e.long_url@ != tok
            && no_short_link(pre + e.long_url@ + post) && (e.page_id matches Some(key) && key@
            == raw.page_info->Some_0.page_id@),
    ensures
        ({
            let e = lookup_short_url(raw.url_structs@, tok)->Some_0;
            let page = raw.page_info->Some_0;
            &&& p.text_raw@ == pre + e.long_url@ + post
            &&& p.media_asset@ == MediaAssetView::Video(
                VideoEntryView {
                    url: e.long_url@,
                    duration_secs: video_duration(page)->Some_0 as u32,
                    cover_picture_url: page.page_pic@,
                },
            )
        }),
{
    lemma_video_link_found(pre, tok, post, raw.url_structs@, raw.page_info->Some_0);
}

/// An embedded post whose only link refers to the video page block of the post that embeds it
/// has that video as its media and the link resolved in its text, through the embedding post's
/// link table.
pub proof fn lemma_retweet_video_from_outer(
    p: Post,
    raw: RawPost,
    pre: Seq<char>,
    tok: Seq<char>,
    post: Seq<char>,
)
    requires
        is_normalized(p, raw),
        raw.retweeted_post matches Some(r) && r.text_raw@ == pre + tok + post,
        tok.len() == SHORT_LINK_LEN,
        first_short_link_at(pre + tok + post, pre.len() as int),
        raw.page_info is Some,
        video_duration(raw.page_info->Some_0) is Some,
        lookup_short_url(raw.url_structs@, tok) matches Some(e) && e.long_url@ != tok
            && no_short_link(pre + e.long_url@ + post) && (e.page_id matches Some(key) && key@
            == raw.page_info->Some_0.page_id@),
    ensures
        ({
            let e = lookup_short_url(raw.url_structs@, tok)->Some_0;
            let page = raw.page_info->Some_0;
            p.retweeted_post matches Some(b) && b.text_raw@ == pre + e.long_url@ + post
                && b.media_asset@ == MediaAssetView::Video(
                VideoEntryView {
                    url: e.long_url@,
                    duration_secs: video_duration(page)->Some_0 as u32,
                    cover_picture_url: page.page_pic@,
                },
            )
        }),
{
    lemma_video_link_found(pre, tok, post, raw.url_structs@, raw.page_info->Some_0);
}

/// The embedded post's text and media come from the link table and page metadata of the post
/// that embeds it.
pub proof fn lemma_retweet_uses_outer_tables(p: Post, raw: RawPost)
    requires
        is_normalized(p, raw),
        raw.retweeted_post is Some,
    ensures
        ({
            let r = raw.retweeted_post->Some_0;
            let resolved = resolve_links(r.text_raw@, raw.url_structs@, raw.page_info);
            p.retweeted_post matches Some(b) && b.text_raw@ == resolved.0 && b.media_asset@
                == media_of(resolved.1, r.pic_ids@, r.pic_infos@)
        }),
{
}

/// Of three distinct picture ids, the middle one without an entry is skipped and the order of
/// the other two is kept.
pub proof fn lemma_missing_picture_skipped(ids: Seq<String>, infos: Seq<PicInfo>)
    requires
        ids.len() == 3,
        ids[0]@ != ids[1]@,
        ids[0]@ != ids[2]@,
        ids[1]@ != ids[2]@,
        lookup_picture(infos, ids[0]@) is Some,
        lookup_picture(infos, ids[1]@) is None,
        lookup_picture(infos, ids[2]@) is Some,
    ensures
        picture_urls(ids, infos) == seq![
            lookup_picture(infos, ids[0]@)->Some_0,
            lookup_picture(infos, ids[2]@)->Some_0,
        ],
{
    let one = ids.take(1);
    let two = ids.take(2);
    assert(ids.drop_last() =~= two);
    assert(two.drop_last() =~= one);
    assert(one.drop_last() =~= Seq::<String>::empty());
    assert(!occurs(Seq::<String>::empty(), ids[0]@));
    assert(!occurs(one, ids[1]@)) by {
        assert(one[0] == ids[0]);
    }
    assert(!occurs(two, ids[2]@)) by {
        assert(two[0] == ids[0] && two[1] == ids[1]);
    }
    assert(picture_urls(Seq::<String>::empty(), infos) == Seq::<Seq<char>>::empty());
    assert(picture_urls(one, infos) =~= seq![lookup_picture(infos, ids[0]@)->Some_0]);
    assert(picture_urls(two, infos) =~= seq![lookup_picture(infos, ids[0]@)->Some_0]);
    assert(picture_urls(ids, infos) =~= seq![
        lookup_picture(infos, ids[0]@)->Some_0,
        lookup_picture(infos, ids[2]@)->Some_0,
    ]);
}

} // verus!
