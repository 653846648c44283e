//! The decisions of the command-line tool: where data lives, how settings and tombstone items
//! are read, when a page fetch is retried, and which posts are stored and indexed.

use std::collections::HashSet;
use vstd::prelude::*;
use vstd::string::*;
use crate::post::Post;
use crate::text::{parse_i64, parse_i64_spec, parse_u32, parse_u32_spec, single_eq_at, split_at_single_eq, trim, trimmed};

verus! {

broadcast use vstd::std_specs::hash::group_hash_axioms;

/// A path with a file or directory name appended, `/`-separated.
pub open spec fn joined_path(dir: Seq<char>, name: Seq<char>) -> Seq<char> {
    if dir.len() == 0 {
        name
    } else if dir.last() == '/' {
        dir + name
    } else {
        dir + seq!['/'] + name
    }
}

fn join_path(dir: &str, name: &str) -> (r: String)
    ensures
        r@ == joined_path(dir@, name@),
{
    let n = dir.unicode_len();
    if n == 0 {
        return String::from_str(name);
    }
    let mut s = String::from_str(dir);
    if dir.get_char(n - 1) != '/' {
        s.append("/");
        proof {
            reveal_strlit("/");
        }
    }
    s.append(name);
    s
}

/// The directory that holds the post database and the search index.
#[derive(Clone, Debug, PartialEq)]
pub struct DataDirConfig {
    pub data_dir: String,
}

impl DataDirConfig {
    /// The path of the post database, `db.db` in the data directory.
    pub fn storage_path(&self) -> (r: String)
        ensures
            r@ == joined_path(self.data_dir@, "db.db"@),
    {
        join_path(self.data_dir.as_str(), "db.db")
    }

    /// The path of the search index directory, `index` in the data directory.
    pub fn index_dir(&self) -> (r: String)
        ensures
            r@ == joined_path(self.data_dir@, "index"@),
    {
        join_path(self.data_dir.as_str(), "index")
    }
}

/// Settings to store, each written `<name>=<value>`.
#[derive(Clone, Debug, PartialEq)]
pub struct SetConfig {
    pub items: Vec<String>,
}

/// Posts to keep out of the search index, each given by its address or its id.
#[derive(Clone, Debug, PartialEq)]
pub struct AddConfig {
    pub items: Vec<String>,
}

/// What one `<name>=<value>` item asks for.
#[derive(Clone, Debug, PartialEq)]
pub enum SettingItem {
    /// The item does not hold exactly one `=`; it is skipped.
    Malformed,
    /// Store the last page to crawl.
    MaxPage(u32),
    /// `max_page` with a value that is not a `u32`.
    InvalidMaxPage(String),
    /// A setting name that is not known.
    Unsupported(String),
}

/// What a setting item asks for, from its trimmed name and value.
pub open spec fn setting_from_parts(r: SettingItem, name: Seq<char>, value: Seq<char>) -> bool {
    if name == "max_page"@ {
        match parse_u32_spec(value) {
            Some(v) => r == SettingItem::MaxPage(v),
            None => r matches SettingItem::InvalidMaxPage(t) && t@ == value,
        }
    } else {
        r matches SettingItem::Unsupported(n) && n@ == name
    }
}

/// Reads one `<name>=<value>` setting item; name and value are trimmed.
pub fn parse_setting(item: &str) -> (r: SettingItem)
    ensures
        (forall|p: int| !single_eq_at(item@, p)) ==> r is Malformed,
        forall|p: int|
            single_eq_at(item@, p) ==> setting_from_parts(
                r,
                trimmed(item@.take(p)),
                trimmed(item@.skip(p + 1)),
            ),
{
    match split_at_single_eq(item) {
        None => SettingItem::Malformed,
        Some((before, after)) => {
            let ghost k = choose|k: int|
                single_eq_at(item@, k) && before@ == item@.take(k) && after@ == item@.skip(k + 1);
            let name = trim(before.as_str());
            let value = trim(after.as_str());
            let r = if name == String::from_str("max_page") {
                match parse_u32(value.as_str()) {
                    Some(v) => SettingItem::MaxPage(v),
                    None => SettingItem::InvalidMaxPage(value),
                }
            } else {
                SettingItem::Unsupported(name)
            };
            assert forall|p: int| single_eq_at(item@, p) implies p == k by {
                assert(item@[p] == '=' && item@[k] == '=');
            }
            r
        },
    }
}

/// What a tombstone item names.
#[derive(Clone, Debug, PartialEq)]
pub enum TombstoneTarget {
    /// A post address, `https://weibo.com...`.
    Url(String),
    /// A post id.
    Id(i64),
    /// Neither an address nor an id.
    Invalid,
}

/// Whether `s` begins with `prefix`.
pub open spec fn starts_with(s: Seq<char>, prefix: Seq<char>) -> bool {
    s.len() >= prefix.len() && s.take(prefix.len() as int) == prefix
}

/// Reads a tombstone item: an address when it begins with `https://weibo.com`, else a post id.
pub fn tombstone_target(item: &str) -> (r: TombstoneTarget)
    ensures
        starts_with(item@, "https://weibo.com"@) ==> (r matches TombstoneTarget::Url(u) && u@
            == item@),
        !starts_with(item@, "https://weibo.com"@) ==> match parse_i64_spec(item@) {
            Some(id) => r == TombstoneTarget::Id(id),
            None => r is Invalid,
        },
{
    let prefix = "https://weibo.com";
    let k = prefix.unicode_len();
    let n = item.unicode_len();
    if n >= k && String::from_str(item.substring_char(0, k)) == String::from_str(prefix) {
        return TombstoneTarget::Url(String::from_str(item));
    }
    match parse_i64(item) {
        Some(id) => TombstoneTarget::Id(id),
        None => TombstoneTarget::Invalid,
    }
}

/// Whether a page fetch that failed at attempt `attempt` (counted from 0) is tried again when
/// `retries` attempts are allowed.
pub fn retry_after_failure(attempt: u32, retries: u32) -> (r: bool)
    ensures
        r == (attempt as int + 1 < retries as int),
{
    attempt < retries && retries - attempt > 1
}

/// The valid posts of a sequence, in order.
pub open spec fn valid_posts(s: Seq<Post>) -> Seq<Post>
    decreases s.len(),
{
    if s.len() == 0 {
        Seq::empty()
    } else if s.last().spec_is_valid() {
        valid_posts(s.drop_last()).push(s.last())
    } else {
        valid_posts(s.drop_last())
    }
}

/// The invalid posts of a sequence, in order.
pub open spec fn invalid_posts(s: Seq<Post>) -> Seq<Post>
    decreases s.len(),
{
    if s.len() == 0 {
        Seq::empty()
    } else if !s.last().spec_is_valid() {
        invalid_posts(s.drop_last()).push(s.last())
    } else {
        invalid_posts(s.drop_last())
    }
}

/// Splits posts into the valid ones, which are stored, and the invalid ones, which are
/// reported; each keeps its order.
pub fn split_valid_posts(posts: Vec<Post>) -> (r: (Vec<Post>, Vec<Post>))
    ensures
        r.0@ == valid_posts(posts@),
        r.1@ == invalid_posts(posts@),
{
    let ghost all = posts@;
    let mut rest = posts;
    let mut valid: Vec<Post> = Vec::new();
    let mut invalid: Vec<Post> = Vec::new();
    assert(all.take(0) =~= Seq::<Post>::empty());
    while rest.len() > 0
        invariant
            rest@.len() <= all.len(),
            rest@ == all.skip(all.len() - rest@.len()),
            valid@ == valid_posts(all.take(all.len() - rest@.len())),
            invalid@ == invalid_posts(all.take(all.len() - rest@.len())),
        decreases rest@.len(),
    {
        let ghost i = all.len() - rest@.len();
        let p = rest.remove(0);
        assert(p == all[i]);
        assert(all.take(i + 1).drop_last() =~= all.take(i));
        assert(rest@ =~= all.skip(i + 1));
        if p.is_valid() {
            valid.push(p);
        } else {
            invalid.push(p);
        }
    }
    assert(all.take(all.len() as int) =~= all);
    (valid, invalid)
}

/// The posts whose ids are not tombstoned, in order.
pub open spec fn untombstoned(s: Seq<Post>, tombstones: Set<i64>) -> Seq<Post>
    decreases s.len(),
{
    if s.len() == 0 {
        Seq::empty()
    } else if !tombstones.contains(s.last().id) {
        untombstoned(s.drop_last(), tombstones).push(s.last())
    } else {
        untombstoned(s.drop_last(), tombstones)
    }
}

/// Drops the posts whose ids are tombstoned, keeping the order of the others.
pub fn drop_tombstoned(posts: Vec<Post>, tombstones: &HashSet<i64>) -> (r: Vec<Post>)
    ensures
        r@ == untombstoned(posts@, tombstones@),
{
    let ghost all = posts@;
    let mut rest = posts;
    let mut kept: Vec<Post> = Vec::new();
    assert(all.take(0) =~= Seq::<Post>::empty());
    while rest.len() > 0
        invariant
            rest@.len() <= all.len(),
            rest@ == all.skip(all.len() - rest@.len()),
            kept@ == untombstoned(all.take(all.len() - rest@.len()), tombstones@),
        decreases rest@.len(),
    {
        let ghost i = all.len() - rest@.len();
        let p = rest.remove(0);
        assert(p == all[i]);
        assert(all.take(i + 1).drop_last() =~= all.take(i));
        assert(rest@ =~= all.skip(i + 1));
        if !tombstones.contains(&p.id) {
            kept.push(p);
        }
    }
    assert(all.take(all.len() as int) =~= all);
    kept
}

/// Where the next page of stored posts starts: after the last post of a full page, and
/// nowhere after a short one.
pub fn next_page_start(posts: &Vec<Post>, limit: usize) -> (r: Option<i64>)
    ensures
        posts@.len() == limit && limit > 0 ==> r == Some(posts@.last().id),
        !(posts@.len() == limit && limit > 0) ==> r is None,
{
    if posts.len() == limit && limit > 0 {
        Some(posts[posts.len() - 1].id)
    } else {
        None
    }
}

/// The ids of a sequence of posts.
pub open spec fn post_ids(s: Seq<Post>) -> Set<i64> {
    Set::new(|id: i64| exists|k: int| 0 <= k < s.len() && (#[trigger] s[k]).id == id)
}

/// The valid posts of a sequence whose ids are neither in `seen` nor taken by an earlier post
/// of the sequence, in order.
pub open spec fn new_valid_posts(s: Seq<Post>, seen: Set<i64>) -> Seq<Post>
    decreases s.len(),
{
    if s.len() == 0 {
        Seq::empty()
    } else {
        let prev = new_valid_posts(s.drop_last(), seen);
        let p = s.last();
        if p.spec_is_valid() && !seen.contains(p.id) && !post_ids(prev).contains(p.id) {
            prev.push(p)
        } else {
            prev
        }
    }
}

/// Keeps the valid posts whose ids have not been seen yet, and records their ids as seen.
pub fn take_new_valid_posts(posts: Vec<Post>, seen: &mut HashSet<i64>) -> (r: Vec<Post>)
    ensures
        r@ == new_valid_posts(posts@, old(seen)@),
        final(seen)@ == old(seen)@.union(post_ids(r@)),
{
    let ghost all = posts@;
    let ghost seen0 = seen@;
    let mut rest = posts;
    let mut kept: Vec<Post> = Vec::new();
    assert(all.take(0) =~= Seq::<Post>::empty());
    assert(seen0.union(post_ids(kept@)) =~= seen0);
    while rest.len() > 0
        invariant
            rest@.len() <= all.len(),
            rest@ == all.skip(all.len() - rest@.len()),
            kept@ == new_valid_posts(all.take(all.len() - rest@.len()), seen0),
            seen@ == seen0.union(post_ids(kept@)),
        decreases rest@.len(),
    {
        let ghost i = all.len() - rest@.len();
        let ghost before = kept@;
        let p = rest.remove(0);
        assert(p == all[i]);
        assert(all.take(i + 1).drop_last() =~= all.take(i));
        assert(rest@ =~= all.skip(i + 1));
        if p.is_valid() && !seen.contains(&p.id) {
            seen.insert(p.id);
            kept.push(p);
            assert(post_ids(kept@) =~= post_ids(before).insert(kept@.last().id)) by {
                assert forall|id: i64| post_ids(kept@).contains(id) implies post_ids(before).insert(
                    kept@.last().id,
                ).contains(id) by {
                    let k = choose|k: int| 0 <= k < kept@.len() && (#[trigger] kept@[k]).id == id;
                    if k < before.len() {
                        assert(before[k] == kept@[k]);
                    }
                }
                assert forall|id: i64| post_ids(before).contains(id) implies post_ids(kept@).contains(
                    id,
                ) by {
                    let k = choose|k: int| 0 <= k < before.len() && (#[trigger] before[k]).id == id;
                    assert(kept@[k] == before[k]);
                }
                assert(kept@[before.len() as int] == kept@.last());
            }
            assert(seen@ =~= seen0.union(post_ids(kept@)));
        }
    }
    assert(all.take(all.len() as int) =~= all);
    kept
}

} // verus!
