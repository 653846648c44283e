//! Resolution of shortened links in post text.

use vstd::prelude::*;
use vstd::string::*;
use regex::Regex;
use crate::post::{video_view, VideoEntry, VideoEntryView};
use crate::raw::{video_duration, PageInfo, UrlStruct};

verus! {

/// The number of characters in a shortened link.
pub const SHORT_LINK_LEN: usize = 20;

/// Whether `c` belongs to the Unicode word class `\w` of the `regex` crate
/// (alphabetic, marks, decimal digits, connector punctuation, join controls).
pub uninterp spec fn regex_word_char(c: char) -> bool;

/// Whether a shortened link `http://t.cn/` plus eight word characters starts at `i`;
/// the dot of the host matches any character but a line feed.
pub open spec fn short_link_at(s: Seq<char>, i: int) -> bool {
    &&& 0 <= i
    &&& i + SHORT_LINK_LEN <= s.len()
    &&& s.subrange(i, i + 8) == seq!['h', 't', 't', 'p', ':', '/', '/', 't']
    &&& s[i + 8] != '\n'
    &&& s.subrange(i + 9, i + 12) == seq!['c', 'n', '/']
    &&& forall|k: int| i + 12 <= k < i + SHORT_LINK_LEN ==> regex_word_char(#[trigger] s[k])
}

/// Whether `i` is where the leftmost shortened link of `s` starts.
pub open spec fn first_short_link_at(s: Seq<char>, i: int) -> bool {
    short_link_at(s, i) && forall|j: int| 0 <= j < i ==> !short_link_at(s, j)
}

/// Whether `s` holds no shortened link.
pub open spec fn no_short_link(s: Seq<char>) -> bool {
    forall|i: int| !short_link_at(s, i)
}

#[verifier::external_type_specification]
#[verifier::external_body]
pub struct ExRegex(Regex);

/// The compiled pattern of shortened links; `new` is the only way to build one.
struct ShortLinkMatcher {
    regex: Regex,
}

/// Relies on `regex::Regex::new`: the one pattern admitted is valid, so compiling it succeeds.
#[verifier::external_body]
fn compile_short_link_pattern(pattern: &str) -> (r: Regex)
    requires
        pattern@ == "http://t.cn/\\w{8}"@,
{
    Regex::new(pattern).unwrap()
}

impl ShortLinkMatcher {
    fn new() -> ShortLinkMatcher {
        ShortLinkMatcher { regex: compile_short_link_pattern("http://t.cn/\\w{8}") }
    }

    /// Relies on `regex::Regex::find`, on the pattern that `new` compiles (the only way to
    /// build a matcher): it returns the leftmost match, here the text before it, the match and
    /// the text after it.
    #[verifier::external_body]
    fn first_match(&self, text: &str) -> (r: Option<(String, String, String)>)
        ensures
            r is None ==> no_short_link(text@),
            r matches Some((pre, tok, post)) ==> {
                &&& text@ == pre@ + tok@ + post@
                &&& tok@.len() == SHORT_LINK_LEN
                &&& forall|k: int| 12 <= k < SHORT_LINK_LEN ==> regex_word_char(#[trigger] tok@[k])
                &&& first_short_link_at(text@, pre@.len() as int)
            },
    {
        self.regex.find(text).map(
            |m| (text[..m.start()].to_string(), m.as_str().to_string(), text[m.end()..].to_string()),
        )
    }
}

/// The entry that a substitution table holds for a short link; a later entry overrides an
/// earlier one.
pub open spec fn lookup_short_url(table: Seq<UrlStruct>, short: Seq<char>) -> Option<UrlStruct>
    decreases table.len(),
{
    if table.len() == 0 {
        None
    } else if table.last().short_url@ == short {
        Some(table.last())
    } else {
        lookup_short_url(table.drop_last(), short)
    }
}

/// The video a link entry describes, through the page metadata block.
pub open spec fn linked_video(e: UrlStruct, page: Option<PageInfo>) -> Option<VideoEntryView> {
    match (e.page_id, page) {
        (Some(key), Some(p)) => if p.page_id@ == key@ && video_duration(p) is Some {
            Some(
                VideoEntryView {
                    url: e.long_url@,
                    duration_secs: video_duration(p)->Some_0 as u32,
                    cover_picture_url: p.page_pic@,
                },
            )
        } else {
            None
        },
        _ => None,
    }
}

/// The later of two recorded videos.
pub open spec fn later_video(
    later: Option<VideoEntryView>,
    earlier: Option<VideoEntryView>,
) -> Option<VideoEntryView> {
    if later is Some {
        later
    } else {
        earlier
    }
}

/// The most rounds of link resolution made on one text.
pub const MAX_LINK_ROUNDS: usize = 4096;

/// At most `rounds` rounds of link resolution on `s`, and the last video found on the way.
/// Each round looks for the leftmost shortened link of the whole text as it stands and puts
/// the link's long form in its place. Resolution stops at a text without links, at a link
/// that the table does not hold, at a replacement that changes nothing, or when no round is
/// left; the text is then returned as it stands.
#[verifier::opaque]
pub open spec fn resolve_rounds(
    s: Seq<char>,
    table: Seq<UrlStruct>,
    page: Option<PageInfo>,
    rounds: nat,
) -> (Seq<char>, Option<VideoEntryView>)
    decreases rounds,
{
    if rounds == 0 {
        (s, None)
    } else if exists|i: int| first_short_link_at(s, i) {
        let i = choose|i: int| first_short_link_at(s, i);
        let tok = s.subrange(i, i + SHORT_LINK_LEN);
        match lookup_short_url(table, tok) {
            None => (s, None),
            Some(e) => {
                let v = linked_video(e, page);
                let next = s.subrange(0, i) + e.long_url@ + s.subrange(
                    i + SHORT_LINK_LEN,
                    s.len() as int,
                );
                if next == s {
                    (s, v)
                } else {
                    let rest = resolve_rounds(next, table, page, (rounds - 1) as nat);
                    (rest.0, later_video(rest.1, v))
                }
            },
        }
    } else {
        (s, None)
    }
}

/// The text with its shortened links resolved, in at most `MAX_LINK_ROUNDS` rounds, and the
/// last video found on the way.
pub open spec fn resolve_links(s: Seq<char>, table: Seq<UrlStruct>, page: Option<PageInfo>) -> (
    Seq<char>,
    Option<VideoEntryView>,
) {
    resolve_rounds(s, table, page, MAX_LINK_ROUNDS as nat)
}

/// The leftmost shortened link starts at one place only.
pub proof fn lemma_first_short_link_unique(s: Seq<char>, i: int, j: int)
    requires
        first_short_link_at(s, i),
        first_short_link_at(s, j),
    ensures
        i == j,
{
}

/// A text without shortened links resolves to itself, with no video.
pub proof fn lemma_resolve_no_link(
    s: Seq<char>,
    table: Seq<UrlStruct>,
    page: Option<PageInfo>,
    rounds: nat,
)
    requires
        no_short_link(s),
    ensures
        resolve_rounds(s, table, page, rounds) == (s, None::<VideoEntryView>),
{
    reveal(resolve_rounds);
}

/// With no round left, the text stays as it is.
pub proof fn lemma_resolve_no_round(s: Seq<char>, table: Seq<UrlStruct>, page: Option<PageInfo>)
    ensures
        resolve_rounds(s, table, page, 0) == (s, None::<VideoEntryView>),
{
    reveal(resolve_rounds);
}

/// One round of resolution: the leftmost link, split out of the text.
pub proof fn lemma_resolve_step(
    pre: Seq<char>,
    tok: Seq<char>,
    post: Seq<char>,
    table: Seq<UrlStruct>,
    page: Option<PageInfo>,
    rounds: nat,
)
    requires
        rounds > 0,
        tok.len() == SHORT_LINK_LEN,
        first_short_link_at(pre + tok + post, pre.len() as int),
    ensures
        resolve_rounds(pre + tok + post, table, page, rounds) == match lookup_short_url(
            table,
            tok,
        ) {
            None => (pre + tok + post, None),
            Some(e) => if pre + e.long_url@ + post == pre + tok + post {
                (pre + tok + post, linked_video(e, page))
            } else {
                let rest = resolve_rounds(pre + e.long_url@ + post, table, page, (rounds - 1) as nat);
                (rest.0, later_video(rest.1, linked_video(e, page)))
            },
        },
{
    reveal(resolve_rounds);
    let s = pre + tok + post;
    let i = pre.len() as int;
    let j = choose|j: int| first_short_link_at(s, j);
    lemma_first_short_link_unique(s, i, j);
    assert(s.subrange(i, i + SHORT_LINK_LEN) =~= tok);
    assert(s.subrange(0, i) =~= pre);
    assert(s.subrange(i + SHORT_LINK_LEN, s.len() as int) =~= post);
}

/// Putting a different long form in place of a link changes the text.
pub proof fn lemma_replacement_changes(
    pre: Seq<char>,
    tok: Seq<char>,
    post: Seq<char>,
    long: Seq<char>,
)
    requires
        long != tok,
    ensures
        pre + long + post != pre + tok + post,
{
    if pre + long + post == pre + tok + post {
        let i = pre.len() as int;
        assert((pre + long + post).len() == (pre + tok + post).len());
        assert(long.len() == tok.len());
        assert((pre + long + post).subrange(i, i + long.len()) =~= long);
        assert((pre + tok + post).subrange(i, i + tok.len()) =~= tok);
    }
}

/// Two mapped links in a text are both resolved, the left one first, when the first long form
/// makes no link of its own and the second link stays the leftmost one.
pub proof fn lemma_two_links_resolved(
    a: Seq<char>,
    t1: Seq<char>,
    b: Seq<char>,
    t2: Seq<char>,
    c: Seq<char>,
    table: Seq<UrlStruct>,
    page: Option<PageInfo>,
)
    requires
        t1.len() == SHORT_LINK_LEN,
        t2.len() == SHORT_LINK_LEN,
        first_short_link_at(a + t1 + b + t2 + c, a.len() as int),
        lookup_short_url(table, t1) matches Some(e1) && e1.long_url@ != t1 && first_short_link_at(
            a + e1.long_url@ + b + t2 + c,
            (a.len() + e1.long_url@.len() + b.len()) as int,
        ),
        lookup_short_url(table, t2) matches Some(e2) && e2.long_url@ != t2,
        no_short_link(
            a + lookup_short_url(table, t1)->Some_0.long_url@ + b + lookup_short_url(
                table,
                t2,
            )->Some_0.long_url@ + c,
        ),
    ensures
        resolve_links(a + t1 + b + t2 + c, table, page).0 == a + lookup_short_url(
            table,
            t1,
        )->Some_0.long_url@ + b + lookup_short_url(table, t2)->Some_0.long_url@ + c,
{
    let l1 = lookup_short_url(table, t1)->Some_0.long_url@;
    let l2 = lookup_short_url(table, t2)->Some_0.long_url@;
    let n = MAX_LINK_ROUNDS as nat;
    assert(a + t1 + b + t2 + c =~= a + t1 + (b + t2 + c));
    assert(a + l1 + b + t2 + c =~= a + l1 + (b + t2 + c));
    assert(a + l1 + b + t2 + c =~= (a + l1 + b) + t2 + c);
    assert(a + l1 + b + l2 + c =~= (a + l1 + b) + l2 + c);
    lemma_replacement_changes(a, t1, b + t2 + c, l1);
    lemma_resolve_step(a, t1, b + t2 + c, table, page, n);
    lemma_replacement_changes(a + l1 + b, t2, c, l2);
    lemma_resolve_step(a + l1 + b, t2, c, table, page, (n - 1) as nat);
    lemma_resolve_no_link(a + l1 + b + l2 + c, table, page, (n - 2) as nat);
}

/// Resolution stops at a leading link that the table does not hold: the whole text stays as
/// it is, later links included, and no video is found.
pub proof fn lemma_unmapped_link_stops(
    a: Seq<char>,
    t: Seq<char>,
    rest: Seq<char>,
    table: Seq<UrlStruct>,
    page: Option<PageInfo>,
)
    requires
        t.len() == SHORT_LINK_LEN,
        first_short_link_at(a + t + rest, a.len() as int),
        lookup_short_url(table, t) is None,
    ensures
        resolve_links(a + t + rest, table, page) == (a + t + rest, None::<VideoEntryView>),
{
    lemma_resolve_step(a, t, rest, table, page, MAX_LINK_ROUNDS as nat);
}

/// Whether one round of resolution turns `x` into a different text `y`, replacing the leftmost
/// link, which starts at `i`, by its long form.
pub open spec fn resolution_round(x: Seq<char>, y: Seq<char>, i: int, table: Seq<UrlStruct>) -> bool {
    &&& first_short_link_at(x, i)
    &&& lookup_short_url(table, x.subrange(i, i + SHORT_LINK_LEN)) matches Some(e) && y == x.subrange(
        0,
        i,
    ) + e.long_url@ + x.subrange(i + SHORT_LINK_LEN, x.len() as int)
    &&& y != x
}

/// Whether the texts `steps[k] + tail` follow one another by rounds of resolution.
pub open spec fn resolution_chain(steps: Seq<Seq<char>>, tail: Seq<char>, table: Seq<UrlStruct>) -> bool {
    &&& steps.len() >= 1
    &&& forall|k: int|
        #![trigger steps[k]]
        0 <= k < steps.len() - 1 ==> exists|i: int|
            #[trigger] resolution_round(steps[k] + tail, steps[k + 1] + tail, i, table)
}

proof fn lemma_chain_stops(
    steps: Seq<Seq<char>>,
    k: int,
    u: Seq<char>,
    r: Seq<char>,
    table: Seq<UrlStruct>,
    page: Option<PageInfo>,
    rounds: nat,
)
    requires
        resolution_chain(steps, u + r, table),
        0 <= k < steps.len(),
        rounds >= steps.len() - k,
        u.len() == SHORT_LINK_LEN,
        first_short_link_at(steps.last() + u + r, steps.last().len() as int),
        lookup_short_url(table, u) is None,
    ensures
        resolve_rounds(steps[k] + (u + r), table, page, rounds).0 == steps.last() + u + r,
    decreases steps.len() - k,
{
    let tail = u + r;
    if k == steps.len() - 1 {
        assert(steps[k] + tail =~= steps.last() + u + r);
        lemma_resolve_step(steps[k], u, r, table, page, rounds);
    } else {
        let x = steps[k] + tail;
        let y = steps[k + 1] + tail;
        let i = choose|i: int| resolution_round(x, y, i, table);
        let pre = x.subrange(0, i);
        let tok = x.subrange(i, i + SHORT_LINK_LEN);
        let post = x.subrange(i + SHORT_LINK_LEN, x.len() as int);
        assert(x =~= pre + tok + post);
        lemma_resolve_step(pre, tok, post, table, page, rounds);
        lemma_chain_stops(steps, k + 1, u, r, table, page, (rounds - 1) as nat);
    }
}

/// Rounds of resolution that leave a link the table does not hold as the leftmost one stop
/// there: everything from that link onward, later mappable links included, stays as it was.
pub proof fn lemma_resolution_stops_at_unmapped(
    steps: Seq<Seq<char>>,
    u: Seq<char>,
    r: Seq<char>,
    table: Seq<UrlStruct>,
    page: Option<PageInfo>,
)
    requires
        resolution_chain(steps, u + r, table),
        steps.len() <= MAX_LINK_ROUNDS,
        u.len() == SHORT_LINK_LEN,
        first_short_link_at(steps.last() + u + r, steps.last().len() as int),
        lookup_short_url(table, u) is None,
    ensures
        resolve_links(steps[0] + u + r, table, page).0 == steps.last() + u + r,
{
    assert(steps[0] + u + r =~= steps[0] + (u + r));
    lemma_chain_stops(steps, 0, u, r, table, page, MAX_LINK_ROUNDS as nat);
}

/// A text whose only link refers to a video page block, and whose long form makes no link,
/// gets the link resolved, and the video is found with the link's long form, the block's
/// duration and its cover picture.
pub proof fn lemma_video_link_found(
    pre: Seq<char>,
    tok: Seq<char>,
    post: Seq<char>,
    table: Seq<UrlStruct>,
    page: PageInfo,
)
    requires
        tok.len() == SHORT_LINK_LEN,
        first_short_link_at(pre + tok + post, pre.len() as int),
        lookup_short_url(table, tok) matches Some(e) && e.long_url@ != tok && no_short_link(
            pre + e.long_url@ + post,
        ) && (e.page_id matches Some(key) && key@ == page.page_id@),
        video_duration(page) is Some,
    ensures
        ({
            let e = lookup_short_url(table, tok)->Some_0;
            resolve_links(pre + tok + post, table, Some(page)) == (
                pre + e.long_url@ + post,
                Some(
                    VideoEntryView {
                        url: e.long_url@,
                        duration_secs: video_duration(page)->Some_0 as u32,
                        cover_picture_url: page.page_pic@,
                    },
                ),
            )
        }),
{
    let e = lookup_short_url(table, tok)->Some_0;
    let n = MAX_LINK_ROUNDS as nat;
    lemma_replacement_changes(pre, tok, post, e.long_url@);
    lemma_resolve_step(pre, tok, post, table, Some(page), n);
    lemma_resolve_no_link(pre + e.long_url@ + post, table, Some(page), (n - 1) as nat);
}

fn find_url_struct(table: &[UrlStruct], short: &String) -> (r: Option<usize>)
    ensures
        r matches Some(k) ==> k < table@.len() && lookup_short_url(table@, short@) == Some(table@[k as int]),
        r is None ==> lookup_short_url(table@, short@) is None,
{
    let mut i: usize = table.len();
    assert(table@.take(i as int) =~= table@);
    while i > 0
        invariant
            i <= table@.len(),
            lookup_short_url(table@, short@) == lookup_short_url(table@.take(i as int), short@),
        decreases i,
    {
        assert(table@.take(i as int).drop_last() =~= table@.take(i - 1));
        i = i - 1;
        if table[i].short_url == *short {
            return Some(i);
        }
    }
    None
}

fn linked_video_entry(e: &UrlStruct, page_info: &Option<PageInfo>) -> (r: Option<VideoEntry>)
    ensures
        video_view(r) == linked_video(*e, *page_info),
{
    if let Some(key) = &e.page_id {
        if let Some(p) = page_info {
            if p.page_id == *key {
                if let Some(duration_secs) = p.get_video_duration_secs() {
                    return Some(
                        VideoEntry {
                            url: e.long_url.clone(),
                            duration_secs: duration_secs as u32,
                            cover_picture_url: p.page_pic.clone(),
                        },
                    );
                }
            }
        }
    }
    None
}

/// Rewrites the shortened links of `text_raw` into their long form, one leftmost link per
/// round over the whole text, and returns the video that the last resolved video link
/// describes.
pub fn replace_short_urls(
    text_raw: &mut String,
    url_structs: &[UrlStruct],
    page_info: &Option<PageInfo>,
) -> (r: Option<VideoEntry>)
    ensures
        final(text_raw)@ == resolve_links(old(text_raw)@, url_structs@, *page_info).0,
        video_view(r) == resolve_links(old(text_raw)@, url_structs@, *page_info).1,
{
    let ghost table = url_structs@;
    let ghost whole = resolve_links(text_raw@, table, *page_info);
    let matcher = ShortLinkMatcher::new();
    let mut text = text_raw.clone();
    let mut res: Option<VideoEntry> = None;
    let mut rounds: usize = MAX_LINK_ROUNDS;
    loop
        invariant_except_break
            whole.0 == resolve_rounds(text@, table, *page_info, rounds as nat).0,
            whole.1 == later_video(
                resolve_rounds(text@, table, *page_info, rounds as nat).1,
                video_view(res),
            ),
        invariant
            table == url_structs@,
            whole == resolve_links(old(text_raw)@, table, *page_info),
        ensures
            whole.0 == text@,
            whole.1 == video_view(res),
        decreases rounds,
    {
        if rounds == 0 {
            proof {
                lemma_resolve_no_round(text@, table, *page_info);
            }
            break;
        }
        match matcher.first_match(text.as_str()) {
            None => {
                proof {
                    lemma_resolve_no_link(text@, table, *page_info, rounds as nat);
                }
                break;
            },
            Some((pre, tok, post)) => {
                proof {
                    lemma_resolve_step(pre@, tok@, post@, table, *page_info, rounds as nat);
                }
                match find_url_struct(url_structs, &tok) {
                    None => {
                        break;
                    },
                    Some(k) => {
                        let e = &url_structs[k];
                        let v = linked_video_entry(e, page_info);
                        if v.is_some() {
                            res = v;
                        }
                        let mut next = pre;
                        next.append(e.long_url.as_str());
                        next.append(post.as_str());
                        if next == text {
                            break;
                        }
                        text = next;
                        rounds = rounds - 1;
                    },
                }
            },
        }
    }
    *text_raw = text;
    res
}

} // verus!
