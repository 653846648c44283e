use chrono::TimeZone;
use weise::post::{FixedOffsetTime, MediaAsset, MediaType, Post, User, VideoEntry};
use weise::raw::{
    parse_weibo_datetime, DateTimeError, PageInfo, PicInfo, RawPost, RawRetweetedPost, UrlStruct,
};

// 2022-01-09 11:50:55 +08:00
const CREATED_AT: FixedOffsetTime = FixedOffsetTime { unix_secs: 1641700255, utc_offset_secs: 8 * 3600 };

const PICTURE_URLS: [&str; 9] = [
    "https://wx4.sinaimg.cn/orj1080/663aa05aly1gy4bls1n7zj20zk0npgo2.jpg",
    "https://wx4.sinaimg.cn/orj1080/663aa05aly1gy4bls1c4mg20k00j61kx.gif",
    "https://wx3.sinaimg.cn/orj1080/663aa05aly1gy4bls1f3zj20hr0chgm4.jpg",
    "https://wx3.sinaimg.cn/orj1080/663aa05aly1gy4bls3v67j20hr0chgmf.jpg",
    "https://wx3.sinaimg.cn/orj1080/663aa05aly1gy4bls1zq7j20hr0chglu.jpg",
    "https://wx4.sinaimg.cn/orj1080/663aa05aly1gy4bls4r0kj20hr0chdgc.jpg",
    "https://wx3.sinaimg.cn/orj1080/663aa05aly1gy4bls69eij20hr0chq30.jpg",
    "https://wx1.sinaimg.cn/orj1080/663aa05aly1gy4bls9eu2j20hr0ch74c.jpg",
    "https://wx1.sinaimg.cn/orj1080/663aa05aly1gy4blsbr3sj20hr0chgmh.jpg",
];

fn user(id: i64, name: &str) -> User {
    User { id, screen_name: name.to_string() }
}

fn raw_post(text: &str) -> RawPost {
    RawPost {
        id: 4723695598438753,
        mblogid: "L9WqHzpiV".to_string(),
        user: user(1773116334, "zhh-4096"),
        text_raw: text.to_string(),
        is_long_text: false,
        pic_ids: vec![],
        pic_infos: vec![],
        url_structs: vec![],
        page_info: None,
        created_at: CREATED_AT,
        retweeted_post: None,
    }
}

fn raw_retweet(text: &str, author: Option<User>) -> RawRetweetedPost {
    RawRetweetedPost {
        id: 4723000000000001,
        mblogid: "L9Aaaaaaa".to_string(),
        user: author,
        text_raw: text.to_string(),
        is_long_text: false,
        pic_ids: vec![],
        pic_infos: vec![],
        created_at: CREATED_AT,
    }
}

fn url_struct(short: &str, long: &str, page_id: Option<&str>) -> UrlStruct {
    UrlStruct {
        short_url: short.to_string(),
        long_url: long.to_string(),
        page_id: page_id.map(|p| p.to_string()),
    }
}

fn video_page(page_id: &str, pic: &str, duration: Option<u64>) -> PageInfo {
    PageInfo {
        page_id: page_id.to_string(),
        object_type: "video".to_string(),
        page_pic: pic.to_string(),
        media_duration: duration,
    }
}

/// Eighteen picture ids, of which only the first nine carry metadata.
fn eighteen_pictures() -> (Vec<String>, Vec<PicInfo>) {
    let mut ids = vec![];
    let mut infos = vec![];
    for (k, url) in PICTURE_URLS.iter().enumerate() {
        let id = format!("663aa05aly1gy4pic{:02}", k);
        infos.push(PicInfo { id: id.clone(), url: url.to_string() });
        ids.push(id);
    }
    for k in 9..18 {
        ids.push(format!("663aa05aly1gy4pic{:02}", k));
    }
    (ids, infos)
}

fn expected_pictures() -> MediaAsset {
    MediaAsset::Pictures(PICTURE_URLS.iter().map(|u| u.to_string()).collect())
}

#[test]
fn test_parse_weibo_datetime() {
    let dt = parse_weibo_datetime("Sun Jan 09 09:40:29 +0800 2022").unwrap();
    let expected = chrono::FixedOffset::east_opt(8 * 3600)
        .unwrap()
        .with_ymd_and_hms(2022, 1, 9, 9, 40, 29)
        .unwrap();
    assert_eq!(dt.unix_secs, chrono::DateTime::timestamp(&expected));
    assert_eq!(dt.utc_offset_secs, 3600 * 8);
}

#[test]
fn datetime_in_another_format_is_refused() {
    assert_eq!(parse_weibo_datetime("2022-01-09 09:40:29"), Err(DateTimeError::NotInFormat));
    assert_eq!(parse_weibo_datetime(""), Err(DateTimeError::NotInFormat));
}

#[test]
fn datetime_keeps_its_offset() {
    let dt = parse_weibo_datetime("Sun Jan 09 11:50:55 +0800 2022").unwrap();
    assert_eq!(dt, CREATED_AT);
    let utc = parse_weibo_datetime("Sun Jan 09 03:50:55 +0000 2022").unwrap();
    assert_eq!(utc.unix_secs, CREATED_AT.unix_secs);
    assert_eq!(utc.utc_offset_secs, 0);
}

#[test]
fn test_parse_text_weibo_post() {
    let raw = raw_post("今年我一定会开一家新公司以 GraalVM 为工具研发几个产品");
    let post = raw.normalize();
    assert_eq!(post.media_asset, MediaAsset::NoMedia);
    assert_eq!(post.created_at, CREATED_AT);
    assert!(!post.is_retweet());
}

#[test]
fn test_parse_retweeted_text_weibo_post() {
    let mut raw = raw_post("转发微博");
    raw.retweeted_post = Some(raw_retweet("原微博的文字", Some(user(2131170823, "penny"))));
    let post = raw.normalize();
    assert_eq!(post.media_asset, MediaAsset::NoMedia);
    assert!(post.is_retweet());
}

#[test]
fn test_parse_picture_weibo_post() {
    let mut raw = raw_post("十八张图");
    let (ids, infos) = eighteen_pictures();
    raw.pic_ids = ids;
    raw.pic_infos = infos;
    let post = raw.normalize();
    assert_eq!(post.media_asset, expected_pictures());
    assert!(!post.is_retweet());
}

#[test]
fn test_parse_retweeted_picture_weibo_post() {
    let mut raw = raw_post("转发图片");
    let mut inner = raw_retweet("十八张图", Some(user(1715118170, "photos")));
    let (ids, infos) = eighteen_pictures();
    inner.pic_ids = ids;
    inner.pic_infos = infos;
    raw.retweeted_post = Some(inner);
    let post = raw.normalize();
    assert!(post.is_retweet());
    assert_eq!(post.retweeted_post.unwrap().media_asset, expected_pictures());
}

#[test]
fn test_parse_video_weibo_post() {
    let mut raw = raw_post("看视频 http://t.cn/A6JMdBYy 好看");
    raw.url_structs = vec![url_struct(
        "http://t.cn/A6JMdBYy",
        "https://video.weibo.com/show?fid=1034:4723662272790630",
        Some("1034:4723662272790630"),
    )];
    raw.page_info = Some(video_page(
        "1034:4723662272790630",
        "http://wx4.sinaimg.cn/orj480/7f071607ly1gy769tzli4j20k00zkq4g.jpg",
        Some(69),
    ));
    let post = raw.normalize();
    assert!(!post.is_retweet());
    assert_eq!(
        post.media_asset,
        MediaAsset::Video(VideoEntry {
            url: "https://video.weibo.com/show?fid=1034:4723662272790630".to_string(),
            duration_secs: 69,
            cover_picture_url: "http://wx4.sinaimg.cn/orj480/7f071607ly1gy769tzli4j20k00zkq4g.jpg"
                .to_string(),
        })
    );
    assert_eq!(
        post.text_raw,
        "看视频 https://video.weibo.com/show?fid=1034:4723662272790630 好看"
    );
}

#[test]
fn test_parse_retweeted_video_weibo_post() {
    let mut raw = raw_post("转发");
    raw.url_structs = vec![url_struct(
        "http://t.cn/A6JZLq4s",
        "https://video.weibo.com/show?fid=1034:4725900089163796",
        Some("1034:4725900089163796"),
    )];
    raw.page_info = Some(video_page(
        "1034:4725900089163796",
        "http://wx2.sinaimg.cn/orj480/537f5932gy1gyeb8psxhvj21hc0u0422.jpg",
        Some(63),
    ));
    raw.retweeted_post =
        Some(raw_retweet("视频 http://t.cn/A6JZLq4s", Some(user(1400854834, "video author"))));
    let post = raw.normalize();
    assert!(post.is_retweet());
    assert_eq!(post.media_asset, MediaAsset::NoMedia);
    assert_eq!(post.text_raw, "转发");
    let inner = post.retweeted_post.unwrap();
    assert_eq!(
        inner.media_asset,
        MediaAsset::Video(VideoEntry {
            url: "https://video.weibo.com/show?fid=1034:4725900089163796".to_string(),
            duration_secs: 63,
            cover_picture_url: "http://wx2.sinaimg.cn/orj480/537f5932gy1gyeb8psxhvj21hc0u0422.jpg"
                .to_string(),
        })
    );
    assert_eq!(inner.text_raw, "视频 https://video.weibo.com/show?fid=1034:4725900089163796");
}

#[test]
fn plain_post_keeps_text_and_has_no_media() {
    let text = "no links here, only http://example.com/x and t.cn";
    let post = raw_post(text).normalize();
    assert_eq!(post.text_raw, text);
    assert_eq!(post.media_asset, MediaAsset::NoMedia);
    assert_eq!(post.id, 4723695598438753);
    assert_eq!(post.mblogid, "L9WqHzpiV");
    assert_eq!(post.user, user(1773116334, "zhh-4096"));
}

#[test]
fn pictures_skip_ids_without_metadata() {
    let mut raw = raw_post("三张图");
    raw.pic_ids = vec!["a".to_string(), "b".to_string(), "c".to_string()];
    raw.pic_infos = vec![
        PicInfo { id: "c".to_string(), url: "https://img/c.jpg".to_string() },
        PicInfo { id: "a".to_string(), url: "https://img/a.jpg".to_string() },
    ];
    let post = raw.normalize();
    assert_eq!(
        post.media_asset,
        MediaAsset::Pictures(vec!["https://img/a.jpg".to_string(), "https://img/c.jpg".to_string()])
    );
}

#[test]
fn repeated_picture_id_counts_once() {
    let mut raw = raw_post("重复");
    raw.pic_ids = vec!["a".to_string(), "b".to_string(), "a".to_string()];
    raw.pic_infos = vec![
        PicInfo { id: "a".to_string(), url: "https://img/a.jpg".to_string() },
        PicInfo { id: "b".to_string(), url: "https://img/b.jpg".to_string() },
    ];
    let post = raw.normalize();
    assert_eq!(
        post.media_asset,
        MediaAsset::Pictures(vec!["https://img/a.jpg".to_string(), "https://img/b.jpg".to_string()])
    );
}

#[test]
fn pictures_without_any_metadata_give_no_media() {
    let mut raw = raw_post("图没了");
    raw.pic_ids = vec!["a".to_string(), "b".to_string()];
    let post = raw.normalize();
    assert_eq!(post.media_asset, MediaAsset::NoMedia);
}

#[test]
fn video_takes_precedence_over_pictures() {
    let mut raw = raw_post("http://t.cn/A6JMdBYy");
    raw.pic_ids = vec!["a".to_string()];
    raw.pic_infos = vec![PicInfo { id: "a".to_string(), url: "https://img/a.jpg".to_string() }];
    raw.url_structs = vec![url_struct("http://t.cn/A6JMdBYy", "https://video/1", Some("page-a"))];
    raw.page_info = Some(video_page("page-a", "https://cover/1.jpg", Some(69)));
    let post = raw.normalize();
    assert_eq!(
        post.media_asset,
        MediaAsset::Video(VideoEntry {
            url: "https://video/1".to_string(),
            duration_secs: 69,
            cover_picture_url: "https://cover/1.jpg".to_string(),
        })
    );
    assert_eq!(post.text_raw, "https://video/1");
}

#[test]
fn two_mapped_links_are_resolved_left_to_right() {
    let mut raw = raw_post("first http://t.cn/AAAAAAAA then http://t.cn/BBBBBBBB end");
    raw.url_structs = vec![
        url_struct("http://t.cn/BBBBBBBB", "https://b.example/2", None),
        url_struct("http://t.cn/AAAAAAAA", "https://a.example/1", None),
    ];
    let post = raw.normalize();
    assert_eq!(post.text_raw, "first https://a.example/1 then https://b.example/2 end");
    assert_eq!(post.media_asset, MediaAsset::NoMedia);
}

#[test]
fn unmapped_link_stops_resolution() {
    let text = "see http://t.cn/XXXXXXXX and http://t.cn/AAAAAAAA";
    let mut raw = raw_post(text);
    raw.url_structs = vec![url_struct("http://t.cn/AAAAAAAA", "https://a.example/1", None)];
    let post = raw.normalize();
    assert_eq!(post.text_raw, text);
}

#[test]
fn links_before_an_unmapped_one_are_resolved() {
    let mut raw = raw_post("http://t.cn/AAAAAAAA http://t.cn/XXXXXXXX http://t.cn/AAAAAAAA");
    raw.url_structs = vec![url_struct("http://t.cn/AAAAAAAA", "https://a.example/1", None)];
    let post = raw.normalize();
    assert_eq!(post.text_raw, "https://a.example/1 http://t.cn/XXXXXXXX http://t.cn/AAAAAAAA");
}

#[test]
fn link_resolving_to_itself_stops_resolution() {
    let mut raw = raw_post("http://t.cn/AAAAAAAA http://t.cn/BBBBBBBB");
    raw.url_structs = vec![
        url_struct("http://t.cn/AAAAAAAA", "http://t.cn/AAAAAAAA", None),
        url_struct("http://t.cn/BBBBBBBB", "https://b.example/2", None),
    ];
    let post = raw.normalize();
    assert_eq!(post.text_raw, "http://t.cn/AAAAAAAA http://t.cn/BBBBBBBB");
}

#[test]
fn later_table_entry_overrides_earlier() {
    let mut raw = raw_post("x http://t.cn/AAAAAAAA");
    raw.url_structs = vec![
        url_struct("http://t.cn/AAAAAAAA", "https://old.example", None),
        url_struct("http://t.cn/AAAAAAAA", "https://new.example", None),
    ];
    assert_eq!(raw.normalize().text_raw, "x https://new.example");
}

#[test]
fn short_token_of_seven_characters_is_no_link() {
    let mut raw = raw_post("http://t.cn/AAAAAAA!");
    raw.url_structs = vec![url_struct("http://t.cn/AAAAAAA!", "https://a.example/1", None)];
    assert_eq!(raw.normalize().text_raw, "http://t.cn/AAAAAAA!");
}

#[test]
fn video_needs_matching_page_key_kind_and_duration() {
    let cases = vec![
        video_page("other", "https://cover", Some(5)),
        video_page("page-a", "https://cover", None),
        PageInfo {
            page_id: "page-a".to_string(),
            object_type: "article".to_string(),
            page_pic: "https://cover".to_string(),
            media_duration: Some(5),
        },
    ];
    for page in cases {
        let mut raw = raw_post("http://t.cn/AAAAAAAA");
        raw.url_structs = vec![url_struct("http://t.cn/AAAAAAAA", "https://v/1", Some("page-a"))];
        raw.page_info = Some(page);
        let post = raw.normalize();
        assert_eq!(post.media_asset, MediaAsset::NoMedia);
        assert_eq!(post.text_raw, "https://v/1");
    }
}

#[test]
fn video_duration_is_read_only_for_video_pages() {
    let page = video_page("p", "c", Some(69));
    assert_eq!(page.get_video_duration_secs(), Some(69));
    let article = PageInfo { object_type: "article".to_string(), ..page.clone() };
    assert_eq!(article.get_video_duration_secs(), None);
}

#[test]
fn retweet_without_author_makes_post_invalid() {
    let mut raw = raw_post("转发");
    raw.retweeted_post = Some(raw_retweet("原文", None));
    let post = raw.normalize();
    assert_eq!(post.user.id, 1773116334);
    let inner = post.retweeted_post.as_ref().unwrap();
    assert_eq!(inner.user, User { id: 0, screen_name: String::new() });
    assert!(!post.is_valid());
}

#[test]
fn retweet_uses_outer_link_table_and_page() {
    let mut raw = raw_post("outer text");
    raw.url_structs = vec![url_struct("http://t.cn/VVVVVVVV", "https://video/9", Some("page-b"))];
    raw.page_info = Some(video_page("page-b", "https://cover/9", Some(12)));
    raw.retweeted_post = Some(raw_retweet("inner http://t.cn/VVVVVVVV", Some(user(7, "inner"))));
    let post = raw.normalize();
    assert_eq!(post.text_raw, "outer text");
    assert_eq!(post.media_asset, MediaAsset::NoMedia);
    let inner = post.retweeted_post.as_ref().unwrap();
    assert_eq!(inner.text_raw, "inner https://video/9");
    assert_eq!(
        inner.media_asset,
        MediaAsset::Video(VideoEntry {
            url: "https://video/9".to_string(),
            duration_secs: 12,
            cover_picture_url: "https://cover/9".to_string(),
        })
    );
    assert_eq!(post.media_type(), MediaType::Video);
    assert!(post.is_valid());
}

#[test]
fn post_fields_and_validity() {
    let post = Post {
        id: 1,
        mblogid: "L9WqHzpiV".to_string(),
        user: user(1773116334, "zhh-4096"),
        text_raw: "t".to_string(),
        is_long_text: true,
        media_asset: MediaAsset::Pictures(vec!["u".to_string()]),
        created_at: CREATED_AT,
        retweeted_post: None,
    };
    assert_eq!(post.url(), "https://weibo.com/1773116334/L9WqHzpiV");
    assert_eq!(post.media_type(), MediaType::Picture);
    assert!(post.is_valid());
    assert!(!post.is_retweet());
    let anonymous = Post { user: User::default(), ..post };
    assert!(!anonymous.is_valid());
    assert_eq!(anonymous.url(), "https://weibo.com/0/L9WqHzpiV");
}

#[test]
fn profile_url_of_user() {
    let u = user(2131170823, "梁博penny");
    assert_eq!(u.profile_url(), "https://weibo.com/u/2131170823");
    assert_eq!(user(-42, "").profile_url(), "https://weibo.com/u/-42");
    assert_eq!(user(i64::MIN, "").profile_url(), "https://weibo.com/u/-9223372036854775808");
    assert_eq!(user(i64::MAX, "").profile_url(), "https://weibo.com/u/9223372036854775807");
}

#[test]
fn media_type_codes() {
    assert_eq!(MediaType::Text.code(), 0);
    assert_eq!(MediaType::Picture.code(), 1);
    assert_eq!(MediaType::Video.code(), 2);
    assert_eq!(MediaAsset::NoMedia.media_type(), MediaType::Text);
}

#[test]
fn long_form_that_is_a_mapped_link_is_resolved_again() {
    let mut raw = raw_post("http://t.cn/AAAAAAAA");
    raw.url_structs = vec![
        url_struct("http://t.cn/AAAAAAAA", "http://t.cn/BBBBBBBB", None),
        url_struct("http://t.cn/BBBBBBBB", "xyz", None),
    ];
    assert_eq!(raw.normalize().text_raw, "xyz");
}

#[test]
fn long_form_that_is_an_unmapped_link_stops_resolution() {
    let mut raw = raw_post("http://t.cn/AAAAAAAA and http://t.cn/CCCCCCCC");
    raw.url_structs = vec![
        url_struct("http://t.cn/AAAAAAAA", "http://t.cn/XXXXXXXX", None),
        url_struct("http://t.cn/CCCCCCCC", "https://c.example", None),
    ];
    assert_eq!(raw.normalize().text_raw, "http://t.cn/XXXXXXXX and http://t.cn/CCCCCCCC");
}

#[test]
fn cyclic_links_stop_after_the_round_limit() {
    let mut raw = raw_post("http://t.cn/AAAAAAAA");
    raw.url_structs = vec![
        url_struct("http://t.cn/AAAAAAAA", "http://t.cn/BBBBBBBB", None),
        url_struct("http://t.cn/BBBBBBBB", "http://t.cn/AAAAAAAA", None),
    ];
    // An even number of rounds brings the text back to where it started.
    assert_eq!(weise::link::MAX_LINK_ROUNDS % 2, 0);
    assert_eq!(raw.normalize().text_raw, "http://t.cn/AAAAAAAA");
}

#[test]
fn posts_clone_with_their_retweet() {
    let mut raw = raw_post("转发");
    raw.retweeted_post = Some(raw_retweet("原文", Some(user(9, "nine"))));
    let post = raw.normalize();
    assert_eq!(post.clone(), post);
}
