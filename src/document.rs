use vstd::prelude::*;
use crate::feed::{is_recent, recent};
use crate::record::LinkRecord;
use crate::store::{ids_unique, LinkStore};
use crate::time::rfc2822_of;

verus! {

/// One entry of the feed: a record's title and link, and its publication
/// instant in RFC 2822 form.
#[derive(Debug)]
pub struct FeedEntry {
    pub title: String,
    pub link: String,
    pub pub_date: String,
}

/// The feed as values: its channel's title, link and description, its icon,
/// and one entry per listed record.
#[derive(Debug)]
pub struct FeedDocument {
    pub title: String,
    pub link: String,
    pub description: String,
    pub image_title: String,
    pub image_url: String,
    pub entries: Vec<FeedEntry>,
}

/// Every record's publication instant is valid.
pub open spec fn dates_valid(records: Seq<LinkRecord>) -> bool {
    forall|i: int| 0 <= i < records.len() ==> #[trigger] records[i].pub_date.wf()
}

/// `e` is the entry of `rec`.
pub open spec fn entry_of(e: FeedEntry, rec: LinkRecord) -> bool {
    &&& e.title == rec.title
    &&& e.link == rec.link
    &&& e.pub_date@ == rfc2822_of(rec.pub_date.secs as int, rec.pub_date.nanos as int)
}

/// `doc` is the feed of `domain` that lists `listed`, in that order.
pub open spec fn document_of(doc: FeedDocument, domain: Seq<char>, listed: Seq<LinkRecord>) -> bool {
    &&& doc.title@ == "Aldur's ZapIt \u{26a1}"@
    &&& doc.link@ == domain
    &&& doc.description@ == "Web link to an RSS feed."@
    &&& doc.image_title@ == "Link icon"@
    &&& doc.image_url@ == domain + "/assets/link-solid.png"@
    &&& doc.entries@.len() == listed.len()
    &&& forall|i: int| 0 <= i < listed.len() ==> entry_of(#[trigger] doc.entries@[i], listed[i])
}

/// The entry of `rec`.
pub fn entry(rec: &LinkRecord) -> (r: FeedEntry)
    requires
        rec.pub_date.wf(),
    ensures
        entry_of(r, *rec),
{
    FeedEntry { title: rec.title.clone(), link: rec.link.clone(), pub_date: rec.pub_date.to_rfc2822() }
}

/// The feed of `domain` that lists `listed`, in the order given.
pub fn feed_document(domain: &str, listed: &Vec<LinkRecord>) -> (r: FeedDocument)
    requires
        dates_valid(listed@),
    ensures
        document_of(r, domain@, listed@),
{
    let mut entries: Vec<FeedEntry> = Vec::new();
    let mut i: usize = 0;
    while i < listed.len()
        invariant
            dates_valid(listed@),
            0 <= i <= listed@.len(),
            entries@.len() == i,
            forall|k: int| 0 <= k < i ==> entry_of(#[trigger] entries@[k], listed@[k]),
        decreases listed@.len() - i,
    {
        let e = entry(&listed[i]);
        entries.push(e);
        i = i + 1;
    }
    let mut image_url = domain.to_owned();
    image_url.append("/assets/link-solid.png");
    FeedDocument {
        title: "Aldur's ZapIt \u{26a1}".to_owned(),
        link: domain.to_owned(),
        description: "Web link to an RSS feed.".to_owned(),
        image_title: "Link icon".to_owned(),
        image_url,
        entries,
    }
}

/// The feed of `domain` over `records`: their most recent, newest first.
pub fn render(domain: &str, records: &Vec<LinkRecord>) -> (r: FeedDocument)
    requires
        ids_unique(records@),
        dates_valid(records@),
    ensures
        exists|s: Seq<LinkRecord>| is_recent(records@, s) && document_of(r, domain@, s),
{
    let listed = recent(records);
    assert forall|i: int| 0 <= i < listed@.len() implies #[trigger] listed@[i].pub_date.wf() by {
        let j = choose|j: int| 0 <= j < records@.len() && listed@[i] == records@[j];
    }
    feed_document(domain, &listed)
}

/// Checks what `render` needs of rows read from elsewhere: unique ids and
/// valid instants.
pub fn rows_valid(records: &Vec<LinkRecord>) -> (r: bool)
    ensures
        r == (ids_unique(records@) && dates_valid(records@)),
{
    let n = records.len();
    let mut i: usize = 0;
    while i < n
        invariant
            n == records@.len(),
            0 <= i <= n,
            forall|a: int| 0 <= a < i ==> #[trigger] records@[a].pub_date.wf(),
            forall|a: int, b: int|
                0 <= a < i && 0 <= b < n && a != b ==> records@[a].id != records@[b].id,
        decreases n - i,
    {
        if !records[i].pub_date.valid() {
            return false;
        }
        let mut j: usize = 0;
        while j < n
            invariant
                n == records@.len(),
                0 <= i < n,
                0 <= j <= n,
                forall|b: int| 0 <= b < j && b != i ==> records@[i as int].id != records@[b].id,
            decreases n - j,
        {
            if j != i && records[i].id == records[j].id {
                return false;
            }
            j = j + 1;
        }
        i = i + 1;
    }
    true
}

/// A well-formed table has unique ids and valid instants.
pub proof fn lemma_table_renderable(store: &LinkStore)
    requires
        store.wf(),
    ensures
        ids_unique(store.rows()),
        dates_valid(store.rows()),
{
    let rows = store.rows();
    assert forall|i: int, j: int|
        0 <= i < rows.len() && 0 <= j < rows.len() && rows[i].id == rows[j].id implies i == j by {
        if i < j {
            assert(rows[i].id < rows[j].id);
        } else if j < i {
            assert(rows[j].id < rows[i].id);
        }
    }
}

/// The feed of `domain` over the rows of `store`.
pub fn store_feed(store: &LinkStore, domain: &str) -> (r: FeedDocument)
    requires
        store.wf(),
    ensures
        exists|s: Seq<LinkRecord>| is_recent(store.rows(), s) && document_of(r, domain@, s),
{
    proof {
        lemma_table_renderable(store);
    }
    render(domain, store.records())
}

} // verus!
