//! The fields a search index keeps of a post, the query it is searched with, and the text
//! a search hit is shown as.

use vstd::prelude::*;
use vstd::string::*;
use crate::decimal::{decimal, push_decimal};
use crate::post::{post_url_of, Post};

verus! {

/// What the search index stores of one post.
#[derive(Clone, Debug, PartialEq)]
pub struct IndexDocument {
    pub url: String,
    pub user: String,
    pub text: String,
    pub media_type: u64,
    pub retweeted_user: Option<String>,
    pub retweeted_text: Option<String>,
}

/// The text of an optional string.
pub open spec fn opt_text(s: Option<String>) -> Option<Seq<char>> {
    match s {
        Some(t) => Some(t@),
        None => None,
    }
}

impl IndexDocument {
    /// The fields of a post that are indexed: its address, author name, text and media type
    /// code, and for a retweet the embedded post's author name and text.
    pub fn from_post(post: &Post) -> (r: IndexDocument)
        ensures
            r.url@ == post_url_of(post.user.id, post.mblogid@),
            r.user@ == post.user.screen_name@,
            r.text@ == post.text_raw@,
            r.media_type == post.spec_media_type().spec_code() as u64,
            opt_text(r.retweeted_user) == match post.retweeted_post {
                Some(p) => Some(p.user.screen_name@),
                None => None::<Seq<char>>,
            },
            opt_text(r.retweeted_text) == match post.retweeted_post {
                Some(p) => Some(p.text_raw@),
                None => None::<Seq<char>>,
            },
    {
        let (retweeted_user, retweeted_text) = match &post.retweeted_post {
            Some(p) => (Some(p.user.screen_name.clone()), Some(p.text_raw.clone())),
            None => (None, None),
        };
        IndexDocument {
            url: post.url(),
            user: post.user.screen_name.clone(),
            text: post.text_raw.clone(),
            media_type: post.media_type().code() as u64,
            retweeted_user,
            retweeted_text,
        }
    }
}

/// What a search asks for: words of the text, a media type code, or both.
#[derive(Clone, Debug, PartialEq)]
pub struct WeiboSearchParams {
    pub media_type: Option<u8>,
    pub query: Option<String>,
}

/// The query text of a search: `text:` and the words, then `media_type:` and the code.
pub open spec fn search_query(query: Option<Seq<char>>, media_type: Option<u8>) -> Seq<char> {
    let text_part = match query {
        Some(q) => "text:"@ + q,
        None => Seq::empty(),
    };
    let media_part = match media_type {
        Some(m) => "media_type:"@ + decimal(m as int),
        None => Seq::empty(),
    };
    text_part + media_part
}

impl WeiboSearchParams {
    /// The query text the search index is asked with.
    pub fn query_string(&self) -> (r: String)
        ensures
            r@ == search_query(opt_text(self.query), self.media_type),
    {
        let mut s = String::new();
        if let Some(query) = &self.query {
            s.append("text:");
            s.append(query.as_str());
        }
        let ghost text_part = s@;
        if let Some(media_type) = self.media_type {
            s.append("media_type:");
            push_decimal(&mut s, media_type as i64);
            assert(s@ =~= text_part + ("media_type:"@ + decimal(media_type as int)));
        } else {
            assert(s@ =~= text_part + Seq::<char>::empty());
        }
        s
    }
}

/// A post as a search returns it.
#[derive(Clone, Debug, PartialEq)]
pub struct SearchedWeiboPost {
    pub url: String,
    pub user: String,
    pub text: String,
    pub retweeted_user: Option<String>,
    pub retweeted_text: Option<String>,
}

/// The text with each line feed turned into a space.
pub open spec fn one_line(s: Seq<char>) -> Seq<char> {
    s.map_values(|c: char| if c == '\n' { ' ' } else { c })
}

fn push_one_line(out: &mut String, s: &str)
    ensures
        final(out)@ == old(out)@ + one_line(s@),
{
    let n = s.unicode_len();
    let mut i: usize = 0;
    while i < n
        invariant
            n == s@.len(),
            i <= n,
            out@ == old(out)@ + one_line(s@.take(i as int)),
        decreases n - i,
    {
        let c = s.get_char(i);
        let ghost before = out@;
        if c == '\n' {
            out.push(' ');
        } else {
            out.push(c);
        }
        assert(one_line(s@.take(i + 1)) =~= one_line(s@.take(i as int)).push(
            if c == '\n' { ' ' } else { c },
        ));
        i = i + 1;
    }
    assert(s@.take(n as int) =~= s@);
}

/// How a search hit is shown: its address on one line, then `@author: text` with line feeds
/// turned into spaces, followed for a retweet by `  @author: ` and the embedded text.
pub open spec fn hit_text(
    url: Seq<char>,
    user: Seq<char>,
    text: Seq<char>,
    retweeted_user: Option<Seq<char>>,
    retweeted_text: Option<Seq<char>>,
) -> Seq<char> {
    let head = url + "\n@"@ + user + ": "@ + one_line(text);
    let ru = match retweeted_user {
        Some(u) => "  @"@ + u + ": "@,
        None => Seq::empty(),
    };
    let rt = match retweeted_text {
        Some(t) => one_line(t),
        None => Seq::empty(),
    };
    head + ru + rt
}

impl SearchedWeiboPost {
    /// The text a search hit is shown as.
    pub fn render(&self) -> (r: String)
        ensures
            r@ == hit_text(
                self.url@,
                self.user@,
                self.text@,
                opt_text(self.retweeted_user),
                opt_text(self.retweeted_text),
            ),
    {
        let mut s = self.url.clone();
        s.append("\n@");
        s.append(self.user.as_str());
        s.append(": ");
        push_one_line(&mut s, self.text.as_str());
        let ghost head = s@;
        if let Some(retweeted_user) = &self.retweeted_user {
            s.append("  @");
            s.append(retweeted_user.as_str());
            s.append(": ");
        }
        let ghost with_user = s@;
        if let Some(retweeted_text) = &self.retweeted_text {
            push_one_line(&mut s, retweeted_text.as_str());
        }
        proof {
            let ru = match opt_text(self.retweeted_user) {
                Some(u) => "  @"@ + u + ": "@,
                None => Seq::<char>::empty(),
            };
            let rt = match opt_text(self.retweeted_text) {
                Some(t) => one_line(t),
                None => Seq::<char>::empty(),
            };
            assert(with_user =~= head + ru);
            assert(s@ =~= head + ru + rt);
        }
        s
    }
}

} // verus!
