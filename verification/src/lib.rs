//! Mirrors an RSS/Atom feed onto a social-network account.
//!
//! The library holds the three algorithms with real correctness pitfalls:
//! deduplication of feed entries against a remote timeline, streaming
//! extraction of Open Graph metadata from possibly malformed HTML, and
//! construction of rich text with byte-accurate link spans over UTF-8 text.
//! Network transport, authentication and process configuration live outside
//! the library.

use vstd::prelude::*;

pub mod dedup;
pub mod ogp;
pub mod pipeline;
pub mod rich_text;

verus! {

} // verus!
