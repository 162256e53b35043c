use bluesky_rss_bot::dedup::{find_new_entries, FeedEntry, RemotePost};

fn entry(id: &str, title: &str) -> FeedEntry {
    FeedEntry { id: id.to_string(), title: Some(title.to_string()), published_at: None }
}

fn post(author: &str, uri: Option<&str>) -> RemotePost {
    RemotePost { author_id: author.to_string(), embedded_link_uri: uri.map(|u| u.to_string()) }
}

#[test]
fn dedup_stops_at_first_matching_entry() {
    let entries = vec![entry("https://a/3", "E3"), entry("https://a/2", "E2"), entry("https://a/1", "E1")];
    let posts = vec![post("did:self", Some("https://a/2"))];
    let me = "did:self".to_string();

    let new = find_new_entries(&me, entries, &posts);
    assert_eq!(new.len(), 1);
    assert_eq!(new[0].id, "https://a/3");
}

#[test]
fn dedup_ignores_posts_by_other_authors() {
    let entries = vec![entry("https://a/3", "E3"), entry("https://a/2", "E2"), entry("https://a/1", "E1")];
    let posts = vec![post("did:other", Some("https://a/2"))];
    let me = "did:self".to_string();

    let new = find_new_entries(&me, entries, &posts);
    assert_eq!(new.len(), 3);
    assert_eq!(new[0].id, "https://a/3");
    assert_eq!(new[1].id, "https://a/2");
    assert_eq!(new[2].id, "https://a/1");
}

#[test]
fn dedup_returns_all_entries_when_nothing_matches() {
    let entries = vec![entry("https://a/2", "E2"), entry("https://a/1", "E1")];
    let posts = vec![post("did:self", Some("https://elsewhere/")), post("did:self", None)];
    let me = "did:self".to_string();

    let new = find_new_entries(&me, entries, &posts);
    assert_eq!(new.len(), 2);
    assert_eq!(new[0].id, "https://a/2");
    assert_eq!(new[1].id, "https://a/1");
}

#[test]
fn dedup_match_on_newest_entry_returns_nothing() {
    let entries = vec![entry("https://a/2", "E2"), entry("https://a/1", "E1")];
    let posts = vec![post("did:self", Some("https://a/2"))];
    let me = "did:self".to_string();

    let new = find_new_entries(&me, entries, &posts);
    assert_eq!(new.len(), 0);
}

#[test]
fn dedup_requires_exact_url_equality() {
    let entries = vec![entry("https://a/1", "E1")];
    // Trailing slash difference: no normalization, no match.
    let posts = vec![post("did:self", Some("https://a/1/"))];
    let me = "did:self".to_string();

    let new = find_new_entries(&me, entries, &posts);
    assert_eq!(new.len(), 1);
}
