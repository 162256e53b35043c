use bluesky_rss_bot::dedup::{find_new_entries, FeedEntry};
use bluesky_rss_bot::ogp::Ogp;
use bluesky_rss_bot::pipeline::{
    compose_post_text, embed_fields, enrich_entry, fetch_body, needs_retry, plan_posts,
    EmbedError, FetchError, FetchOutcome,
};

fn entry(id: &str, title: &str) -> FeedEntry {
    FeedEntry { id: id.to_string(), title: Some(title.to_string()), published_at: None }
}

#[test]
fn plan_posts_cap_admits_one_extra_post() {
    // The loop bound is strict, so maxPosts = 1 admits 2 submissions.
    let entries = vec![entry("https://a/3", "E3"), entry("https://a/2", "E2"), entry("https://a/1", "E1")];
    let plan = plan_posts(entries, 1);
    assert_eq!(plan.len(), 2);
    // Oldest first.
    assert_eq!(plan[0].id, "https://a/1");
    assert_eq!(plan[1].id, "https://a/2");
}

#[test]
fn plan_posts_zero_cap_admits_one() {
    let entries = vec![entry("https://a/2", "E2"), entry("https://a/1", "E1")];
    let plan = plan_posts(entries, 0);
    assert_eq!(plan.len(), 1);
    assert_eq!(plan[0].id, "https://a/1");
}

#[test]
fn plan_posts_negative_cap_admits_none() {
    let entries = vec![entry("https://a/1", "E1")];
    let plan = plan_posts(entries, -1);
    assert_eq!(plan.len(), 0);
}

#[test]
fn plan_posts_large_cap_posts_everything_oldest_first() {
    let entries = vec![entry("https://a/3", "E3"), entry("https://a/2", "E2"), entry("https://a/1", "E1")];
    let plan = plan_posts(entries, 10);
    assert_eq!(plan.len(), 3);
    assert_eq!(plan[0].id, "https://a/1");
    assert_eq!(plan[1].id, "https://a/2");
    assert_eq!(plan[2].id, "https://a/3");
}

#[test]
fn retry_policy_retries_on_failure_and_server_error_only() {
    assert!(needs_retry(&FetchOutcome::Failed));
    assert!(needs_retry(&FetchOutcome::ServerError));
    assert!(!needs_retry(&FetchOutcome::Success("body".to_string())));
}

#[test]
fn fetch_body_scrapes_only_a_successful_response() {
    assert_eq!(fetch_body(FetchOutcome::Success("a".to_string())), Ok("a".to_string()));
    assert_eq!(fetch_body(FetchOutcome::ServerError), Err(FetchError::ServerStatus));
    assert_eq!(fetch_body(FetchOutcome::Failed), Err(FetchError::Network));
}

#[test]
fn enrich_entry_degrades_on_fetch_failure() {
    let url = "https://a/1".to_string();
    assert_eq!(enrich_entry(&url, Err(FetchError::Network)), None);
    assert_eq!(enrich_entry(&url, Err(FetchError::ServerStatus)), None);
}

#[test]
fn enrich_entry_degrades_without_preview_image() {
    let url = "https://a/1".to_string();
    let page = r#"<meta property="og:title" content="T">"#;
    assert_eq!(enrich_entry(&url, Ok(page.to_string())), None);
}

#[test]
fn enrich_entry_builds_card_when_image_is_scraped() {
    let url = "https://a/1".to_string();
    let page = r#"<meta property="og:title" content="T"><meta property="og:image" content="https://a/hero.png">"#;
    let fields = enrich_entry(&url, Ok(page.to_string())).unwrap();
    assert_eq!(fields.uri, "https://a/1");
    assert_eq!(fields.title, "T");
    assert_eq!(fields.description, "");
    assert_eq!(fields.image_url, "https://a/hero.png");
}

#[test]
fn compose_post_text_places_link_after_title_and_blank_line() {
    let (text, facets) = compose_post_text("A", "https://a/1");
    assert_eq!(text, "A\n\nhttps://a/1");
    assert_eq!(facets.len(), 1);
    assert_eq!(facets[0].byte_start, 3);
    assert_eq!(facets[0].byte_end, 14);
}

#[test]
fn compose_post_text_normalizes_title_to_nfc() {
    // "e" followed by a combining acute accent (3 bytes) composes to a
    // single 2-byte character, so the link span starts at byte 4.
    let (text, facets) = compose_post_text("e\u{301}", "https://a/");
    assert_eq!(text, "\u{e9}\n\nhttps://a/");
    assert_eq!(facets[0].byte_start, 4);
    assert_eq!(facets[0].byte_end, 14);
}

#[test]
fn embed_fields_requires_a_preview_image() {
    let ogp = Ogp {
        og_image: None,
        og_title: Some("T".to_string()),
        og_description: Some("D".to_string()),
        og_url: None,
    };
    let url = "https://a/1".to_string();
    assert_eq!(embed_fields(&url, ogp), Err(EmbedError::NoPreviewImage));
}

#[test]
fn embed_fields_builds_card_from_scraped_metadata() {
    let ogp = Ogp {
        og_image: Some("https://a/hero.png".to_string()),
        og_title: Some("T".to_string()),
        og_description: None,
        og_url: None,
    };
    let url = "https://a/1".to_string();
    let fields = embed_fields(&url, ogp).unwrap();
    assert_eq!(fields.uri, "https://a/1");
    assert_eq!(fields.title, "T");
    assert_eq!(fields.description, "");
    assert_eq!(fields.image_url, "https://a/hero.png");
}

#[test]
fn end_to_end_one_new_entry_becomes_one_post() {
    // Feed with one entry, empty remote timeline: exactly one post, its text
    // carrying the title and the URL.
    let me = "did:self".to_string();
    let entries = vec![entry("https://a/1", "A")];
    let new = find_new_entries(&me, entries, &vec![]);
    assert_eq!(new.len(), 1);

    let plan = plan_posts(new, 10);
    assert_eq!(plan.len(), 1);

    let title = plan[0].title.clone().unwrap();
    let (text, facets) = compose_post_text(&title, &plan[0].id);
    assert!(text.contains("A"));
    assert!(text.contains("https://a/1"));
    assert_eq!(facets.len(), 1);

    // Enrichment succeeds: the scraped page carries an image, so the post
    // gets a link-card embed.
    let page = r#"<meta property="og:image" content="https://a/hero.png">"#;
    let outcome = FetchOutcome::Success(page.to_string());
    assert!(!needs_retry(&outcome));
    let fields = enrich_entry(&plan[0].id, fetch_body(outcome)).unwrap();
    assert_eq!(fields.image_url, "https://a/hero.png");

    // Enrichment fails twice: no response either time, so the entry degrades
    // to a plain post with no embed.
    let first = FetchOutcome::Failed;
    assert!(needs_retry(&first));
    let second = FetchOutcome::Failed;
    assert_eq!(enrich_entry(&plan[0].id, fetch_body(second)), None);
}
