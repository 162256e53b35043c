//! Deduplication of feed entries against a remote timeline.
//!
//! Both the feed and the timeline are newest-first snapshots taken at the
//! start of a run. An entry counts as already posted when some remote post
//! authored by the account itself carries a link-card embed whose target URL
//! equals the entry's identifier exactly. The scan stops at the first such
//! entry: everything strictly newer than it is new, everything at or past it
//! is taken as already published (the single-boundary heuristic; it relies on
//! both inputs being newest-first).

use vstd::prelude::*;

verus! {

/// One feed entry as the external feed parser hands it over.
#[derive(Debug, Clone, PartialEq, Eq)]
pub struct FeedEntry {
    /// Stable entry identifier, typically the entry's URL.
    pub id: String,
    /// Entry title; a feed may omit it.
    pub title: Option<String>,
    /// Publication time as Unix seconds, if the feed gives one. The dedup
    /// boundary goes by feed order, not by this field.
    pub published_at: Option<i64>,
}

/// One post of the remote timeline, reduced to what dedup reads.
#[derive(Debug, Clone, PartialEq, Eq)]
pub struct RemotePost {
    /// Identity of the post's author.
    pub author_id: String,
    /// Target URL of the post's link-card embed, if it has one.
    pub embedded_link_uri: Option<String>,
}

/// The post was authored by `self_id` and embeds a link card whose target
/// URL equals `entry_id` exactly (string equality, no normalization).
/// Posts by other identities, such as reposts, never match.
pub open spec fn post_matches_entry(post: RemotePost, self_id: Seq<char>, entry_id: Seq<char>) -> bool {
    &&& post.author_id@ == self_id
    &&& match post.embedded_link_uri {
        Some(uri) => uri@ == entry_id,
        None => false,
    }
}

/// Some remote post marks the entry as already published.
pub open spec fn entry_already_posted(
    entry: FeedEntry,
    self_id: Seq<char>,
    posts: Seq<RemotePost>,
) -> bool {
    exists|j: int| 0 <= j < posts.len() && post_matches_entry(#[trigger] posts[j], self_id, entry.id@)
}

/// Scans the timeline for a post of `self_identity` embedding `entry`'s id.
fn is_already_posted(entry: &FeedEntry, self_identity: &String, posts: &Vec<RemotePost>) -> (r:
    bool)
    ensures
        r == entry_already_posted(*entry, self_identity@, posts@),
{
    let mut j: usize = 0;
    while j < posts.len()
        invariant
            j <= posts@.len(),
            forall|k: int|
                0 <= k < j ==> !post_matches_entry(#[trigger] posts@[k], self_identity@, entry.id@),
        decreases posts@.len() - j,
    {
        let post = &posts[j];
        if post.author_id == *self_identity {
            match &post.embedded_link_uri {
                Some(uri) => {
                    if *uri == entry.id {
                        assert(post_matches_entry(posts@[j as int], self_identity@, entry.id@));
                        return true;
                    }
                },
                None => {},
            }
        }
        j += 1;
    }
    false
}

/// Finds the feed entries not yet posted by `self_identity`.
///
/// `entries` and `posts` are both expected newest-first. The result is the
/// longest prefix of `entries` in which no entry is already posted: on the
/// first entry some remote post matches, the scan stops entirely and only the
/// strictly newer entries come back, in their original order. If no entry
/// matches, all entries come back unchanged.
pub fn find_new_entries(
    self_identity: &String,
    entries: Vec<FeedEntry>,
    posts: &Vec<RemotePost>,
) -> (r: Vec<FeedEntry>)
    ensures
        r@.len() <= entries@.len(),
        r@ == entries@.take(r@.len() as int),
        forall|i: int|
            0 <= i < r@.len() ==> !entry_already_posted(#[trigger] r@[i], self_identity@, posts@),
        r@.len() < entries@.len() ==> entry_already_posted(
            entries@[r@.len() as int],
            self_identity@,
            posts@,
        ),
{
    let ghost orig = entries@;
    let mut boundary: usize = 0;
    let mut found = false;
    while boundary < entries.len() && !found
        invariant
            boundary <= entries@.len(),
            forall|i: int|
                0 <= i < boundary ==> !entry_already_posted(
                    #[trigger] entries@[i],
                    self_identity@,
                    posts@,
                ),
            found ==> boundary < entries@.len() && entry_already_posted(
                entries@[boundary as int],
                self_identity@,
                posts@,
            ),
        decreases entries@.len() - boundary, (if found { 0int } else { 1int }),
    {
        if is_already_posted(&entries[boundary], self_identity, posts) {
            found = true;
        } else {
            boundary += 1;
        }
    }
    let mut new_entries = entries;
    new_entries.truncate(boundary);
    assert(new_entries@ =~= orig.take(boundary as int));
    new_entries
}

} // verus!
