//! The publish pipeline's decisions.
//!
//! The pipeline posts the new entries oldest-first, up to a bounded count per
//! run. For each entry it composes the post body as rich text and chooses the
//! link-card embed from the scraped preview metadata; a missing preview image
//! or a failed scrape degrades the entry to a plain post and never aborts the
//! run. The network calls themselves (fetching pages, uploading the preview
//! image, submitting the post) happen outside the library, which only decides
//! what each outcome leads to.

use unicode_normalization::UnicodeNormalization;
use vstd::prelude::*;
use vstd::utf8::encode_utf8;

use crate::dedup::FeedEntry;
use crate::rich_text::Facet;
use crate::rich_text::RichTextBuilder;
use crate::rich_text::spans_wf;
use crate::ogp::Ogp;
use crate::ogp::get_ogp;
use crate::ogp::scrape_model;

verus! {

/// What one attempt to fetch a page came back with, reduced to what the
/// retry and scrape policies read: a successful response (non-5xx status)
/// with its body, a response with a 5xx status, or no response at all.
#[derive(Debug, Clone, PartialEq, Eq)]
pub enum FetchOutcome {
    Success(String),
    ServerError,
    Failed,
}

/// A fetch failure that survived the retry policy: no response at all, or a
/// response with a 5xx status.
#[derive(Debug, Clone, PartialEq, Eq)]
pub enum FetchError {
    Network,
    ServerStatus,
}

/// The retry policy for preview-metadata fetches: one extra attempt, and only
/// when the first attempt failed outright or came back with a 5xx status.
pub fn needs_retry(outcome: &FetchOutcome) -> (r: bool)
    ensures
        r == !(outcome is Success),
{
    match outcome {
        FetchOutcome::Success(_) => false,
        FetchOutcome::ServerError => true,
        FetchOutcome::Failed => true,
    }
}

/// The body to scrape, out of the attempt the retry policy settled on: only a
/// successful response's body is scraped; no response at all, or a response
/// that still carries a 5xx status, is a fetch error.
pub fn fetch_body(outcome: FetchOutcome) -> (r: Result<String, FetchError>)
    ensures
        match outcome {
            FetchOutcome::Success(body) => r == Ok::<String, FetchError>(body),
            FetchOutcome::ServerError => r == Err::<String, FetchError>(FetchError::ServerStatus),
            FetchOutcome::Failed => r == Err::<String, FetchError>(FetchError::Network),
        },
{
    match outcome {
        FetchOutcome::Success(body) => Ok(body),
        FetchOutcome::ServerError => Err(FetchError::ServerStatus),
        FetchOutcome::Failed => Err(FetchError::Network),
    }
}

/// Unicode NFC normalization of a character sequence.
pub uninterp spec fn nfc_of(s: Seq<char>) -> Seq<char>;

/// Relies on unicode_normalization's `nfc` iterator adapter: the normalized
/// form depends on the characters alone, and an empty string normalizes to
/// itself.
#[verifier::external_body]
fn nfc_normalize(s: &str) -> (r: String)
    ensures
        r@ == nfc_of(s@),
        s@.len() == 0 ==> r@.len() == 0,
{
    s.nfc().collect()
}

/// Composes the body of one post: the NFC-normalized title, a blank line,
/// then the entry URL, the URL covered by a single link span whose byte
/// offsets sit exactly over it.
pub fn compose_post_text(title: &str, url: &str) -> (r: (String, Vec<Facet>))
    ensures
        r.0@ == nfc_of(title@) + "\n\n"@ + url@,
        r.1@.len() == 1,
        r.1@[0].uri() == url@,
        r.1@[0].byte_start as int == encode_utf8(nfc_of(title@) + "\n\n"@).len(),
        r.1@[0].byte_end as int == r.1@[0].byte_start + encode_utf8(url@).len(),
        spans_wf(r.1@, encode_utf8(r.0@)),
{
    let title_nfc = nfc_normalize(title);
    let builder = RichTextBuilder::new().text(title_nfc.as_str()).text("\n\n").link(url);
    proof {
        assert(Seq::<char>::empty() + title_nfc@ =~= title_nfc@);
        assert(builder.text_model() =~= nfc_of(title@) + "\n\n"@ + url@);
    }
    let r = builder.build();
    r
}

/// The fields of a link-card embed, ready for submission once the preview
/// image at `image_url` has been fetched and uploaded.
#[derive(Debug, Clone, PartialEq, Eq)]
pub struct EmbedFields {
    /// The entry URL the card points at.
    pub uri: String,
    /// Card title: the NFC-normalized `og:title`, or empty when absent.
    pub title: String,
    /// Card description: `og:description`, or empty when absent.
    pub description: String,
    /// The preview image to fetch and upload.
    pub image_url: String,
}

/// Why no link-card embed could be built from the scraped metadata.
#[derive(Debug, Clone, PartialEq, Eq)]
pub enum EmbedError {
    /// The page carried no `og:image`; distinguishable from a network error,
    /// and the caller falls back to a post with no embed.
    NoPreviewImage,
}

/// Chooses the link-card embed for a post from the scraped metadata: it
/// exists exactly when a preview image was scraped; its title and
/// description degrade to empty when absent.
pub fn embed_fields(source_url: &String, ogp: Ogp) -> (r: Result<EmbedFields, EmbedError>)
    ensures
        ogp.og_image is None ==> r == Err::<EmbedFields, EmbedError>(EmbedError::NoPreviewImage),
        ogp.og_image is Some ==> r is Ok && (match r {
            Ok(f) => {
                &&& f.uri@ == source_url@
                &&& f.image_url@ == ogp.og_image->0@
                &&& f.title@ == nfc_of(
                    match ogp.og_title {
                        Some(t) => t@,
                        None => Seq::<char>::empty(),
                    },
                )
                &&& f.description@ == match ogp.og_description {
                    Some(d) => d@,
                    None => Seq::<char>::empty(),
                }
            },
            Err(_) => false,
        }),
{
    let image_url = match ogp.og_image {
        Some(img) => img,
        None => {
            return Err(EmbedError::NoPreviewImage);
        },
    };
    let raw_title = match ogp.og_title {
        Some(t) => t,
        None => String::new(),
    };
    let title = nfc_normalize(raw_title.as_str());
    let description = match ogp.og_description {
        Some(d) => d,
        None => String::new(),
    };
    Ok(EmbedFields { uri: source_url.clone(), title, description, image_url })
}

/// Metadata enrichment for one entry, with the per-entry degrade policy: the
/// link-card fields come back exactly when the page was fetched successfully
/// and carried a preview image; every enrichment failure — no usable
/// response, or no `og:image` — yields `None`, so the caller posts the entry
/// plain instead of aborting the run.
pub fn enrich_entry(source_url: &String, fetched: Result<String, FetchError>) -> (r: Option<
    EmbedFields,
>)
    ensures
        match fetched {
            Err(_) => r is None,
            Ok(body) => {
                let scraped = scrape_model(body@);
                match scraped.og_image {
                    None => r is None,
                    Some(img) => r is Some && {
                        let f = r->0;
                        &&& f.uri@ == source_url@
                        &&& f.image_url@ == img
                        &&& f.title@ == nfc_of(
                            match scraped.og_title {
                                Some(t) => t,
                                None => Seq::<char>::empty(),
                            },
                        )
                        &&& f.description@ == match scraped.og_description {
                            Some(d) => d,
                            None => Seq::<char>::empty(),
                        }
                    },
                }
            },
        },
{
    match fetched {
        Ok(body) => match embed_fields(source_url, get_ogp(body)) {
            Ok(f) => Some(f),
            Err(_) => None,
        },
        Err(_) => None,
    }
}

/// How many submissions the per-run cap admits. The loop bound is strict, so
/// one entry beyond the configured maximum goes through (a preserved quirk of
/// the cap's semantics); a negative maximum admits none.
pub open spec fn admitted_posts(max_posts: i32) -> int {
    if max_posts < 0 {
        0
    } else {
        max_posts + 1
    }
}

/// Turns the dedup output (newest-first) into the posting plan: the entries
/// reversed into chronological order, truncated to the admitted count.
pub fn plan_posts(entries: Vec<FeedEntry>, max_posts: i32) -> (r: Vec<FeedEntry>)
    ensures
        r@.len() == if entries@.len() <= admitted_posts(max_posts) {
            entries@.len() as int
        } else {
            admitted_posts(max_posts)
        },
        forall|i: int|
            0 <= i < r@.len() ==> r@[i] == entries@[entries@.len() - 1 - i],
{
    let mut remaining = entries;
    let ghost orig = remaining@;
    let mut plan: Vec<FeedEntry> = Vec::new();
    if max_posts < 0 {
        return plan;
    }
    loop
        invariant
            max_posts >= 0,
            plan@.len() <= admitted_posts(max_posts),
            remaining@.len() + plan@.len() == orig.len(),
            remaining@ == orig.take(remaining@.len() as int),
            forall|i: int| 0 <= i < plan@.len() ==> plan@[i] == orig[orig.len() - 1 - i],
        ensures
            plan@.len() == admitted_posts(max_posts) || remaining@.len() == 0,
        decreases remaining@.len(),
    {
        if plan.len() > max_posts as usize {
            break;
        }
        match remaining.pop() {
            Some(entry) => {
                plan.push(entry);
            },
            None => {
                break;
            },
        }
    }
    plan
}

} // verus!
