//! A small read-it-later link store: submitted links are validated,
//! deduplicated, timestamped and kept in an append-only table, and the most
//! recent ones are rendered as an RSS feed.
pub mod config;
pub mod document;
pub mod feed;
pub mod ingest;
pub mod record;
pub mod store;
pub mod time;
pub mod xml;

pub use config::Config;
pub use document::{entry, feed_document, render, rows_valid, store_feed, FeedDocument, FeedEntry};
pub use feed::{recent, FEED_SIZE};
pub use ingest::{check_submission, classify_insert, is_valid_url, prepare, InsertOutcome, SubmitError};
pub use record::{LinkRecord, NewRecord, Submission};
pub use store::{submit, submit_now, LinkStore};
pub use time::{now_utc, Timestamp};
pub use xml::{feed_xml, to_rss};
