use vstd::prelude::*;
use crate::document::{document_of, FeedDocument, FeedEntry};
use crate::feed::is_recent;
use crate::document::store_feed;
use crate::record::LinkRecord;
use crate::store::LinkStore;

verus! {

/// The RSS 2.0 text that the `rss` crate writes for a channel with this
/// title, link and description, an icon with this title and URL linking to
/// the channel's link, and these items, each a title, a link and a
/// publication date.
pub uninterp spec fn rss_text_of(
    title: Seq<char>,
    link: Seq<char>,
    description: Seq<char>,
    image_title: Seq<char>,
    image_url: Seq<char>,
    items: Seq<(Seq<char>, Seq<char>, Seq<char>)>,
) -> Seq<char>;

/// The entries as plain text triples.
pub open spec fn entry_texts(entries: Seq<FeedEntry>) -> Seq<(Seq<char>, Seq<char>, Seq<char>)> {
    entries.map_values(|e: FeedEntry| (e.title@, e.link@, e.pub_date@))
}

/// The RSS text of `doc`.
pub open spec fn rss_of(doc: FeedDocument) -> Seq<char> {
    rss_text_of(
        doc.title@,
        doc.link@,
        doc.description@,
        doc.image_title@,
        doc.image_url@,
        entry_texts(doc.entries@),
    )
}

/// Relies on `rss::Channel`'s `Display`, which writes the channel as RSS 2.0
/// XML; the channel is built from the document's fields with `rss::Image`'s
/// setters, `rss::ItemBuilder` and `rss::ChannelBuilder`.
#[verifier::external_body]
fn channel_text(doc: &FeedDocument) -> (r: String)
    ensures
        r@ == rss_text_of(
            doc.title@,
            doc.link@,
            doc.description@,
            doc.image_title@,
            doc.image_url@,
            entry_texts(doc.entries@),
        ),
{
    let mut image = rss::Image::default();
    image.set_link(doc.link.as_str());
    image.set_title(doc.image_title.as_str());
    image.set_url(doc.image_url.as_str());
    let items: Vec<rss::Item> = doc.entries.iter().map(|e| {
        rss::ItemBuilder::default().title(e.title.clone()).link(e.link.clone())
            .pub_date(e.pub_date.clone()).build()
    }).collect();
    rss::ChannelBuilder::default().title(doc.title.as_str()).link(doc.link.as_str())
        .description(doc.description.as_str()).image(Some(image)).items(items).build().to_string()
}

/// The document as RSS 2.0 XML.
pub fn to_rss(doc: &FeedDocument) -> (r: String)
    ensures
        r@ == rss_of(*doc),
{
    channel_text(doc)
}

/// The RSS feed of `domain` over the rows of `store`: the text of a document
/// that lists their most recent, newest first.
pub fn feed_xml(store: &LinkStore, domain: &str) -> (r: String)
    requires
        store.wf(),
    ensures
        exists|doc: FeedDocument, s: Seq<LinkRecord>|
            is_recent(store.rows(), s) && document_of(doc, domain@, s) && r@ == rss_of(doc),
{
    let doc = store_feed(store, domain);
    to_rss(&doc)
}

} // verus!
