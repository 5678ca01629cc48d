use zapit::{
    feed_document, feed_xml, recent, render, rows_valid, store_feed, submit, to_rss, LinkRecord,
    LinkStore, Submission, Timestamp, FEED_SIZE,
};

fn at(secs: i64) -> Timestamp {
    Timestamp::new(secs, 0).unwrap()
}

fn record(id: i64, secs: i64) -> LinkRecord {
    LinkRecord {
        id,
        title: format!("t{id}"),
        link: format!("https://example.com/{id}"),
        pub_date: at(secs),
    }
}

fn add(store: &mut LinkStore, title: &str, link: &str, secs: i64) -> i64 {
    let s = Submission { title: title.to_string(), link: link.to_string(), pub_date: Some(at(secs)) };
    submit(store, s, at(0)).unwrap()
}

#[test]
fn newest_first() {
    let mut store = LinkStore::new();
    add(&mut store, "one", "https://example.com/1", 100);
    add(&mut store, "two", "https://example.com/2", 200);
    add(&mut store, "three", "https://example.com/3", 300);
    let doc = store_feed(&store, "https://links.example");
    let titles: Vec<&str> = doc.entries.iter().map(|e| e.title.as_str()).collect();
    assert_eq!(titles, vec!["three", "two", "one"]);
}

#[test]
fn newest_first_whatever_the_insert_order() {
    let records = vec![record(1, 300), record(2, 100), record(3, 200)];
    let ids: Vec<i64> = recent(&records).iter().map(|r| r.id).collect();
    assert_eq!(ids, vec![1, 3, 2]);
}

#[test]
fn equal_dates_order_by_id() {
    let records = vec![record(4, 100), record(9, 100), record(2, 100)];
    let ids: Vec<i64> = recent(&records).iter().map(|r| r.id).collect();
    assert_eq!(ids, vec![9, 4, 2]);
}

#[test]
fn sixty_records_give_fifty() {
    let mut store = LinkStore::new();
    for i in 0..60i64 {
        add(&mut store, &format!("t{i}"), &format!("https://example.com/{i}"), 1000 + i);
    }
    let doc = store_feed(&store, "localhost");
    assert_eq!(doc.entries.len(), 50);
    assert_eq!(FEED_SIZE, 50);
    for (k, e) in doc.entries.iter().enumerate() {
        assert_eq!(e.link, format!("https://example.com/{}", 59 - k as i64));
    }
}

#[test]
fn empty_store_gives_empty_feed() {
    let store = LinkStore::new();
    let doc = store_feed(&store, "localhost");
    assert!(doc.entries.is_empty());
    assert_eq!(doc.link, "localhost");
}

#[test]
fn round_trip() {
    let mut store = LinkStore::new();
    let t = at(1_700_000_000);
    add(&mut store, "A", "https://example.com/x", t.secs);
    let doc = store_feed(&store, "https://links.example");
    assert_eq!(doc.entries.len(), 1);
    let e = &doc.entries[0];
    assert_eq!(e.title, "A");
    assert_eq!(e.link, "https://example.com/x");
    let parsed = chrono::DateTime::parse_from_rfc2822(&e.pub_date).unwrap();
    assert_eq!(parsed.timestamp(), t.secs);
    assert_eq!(parsed.timestamp_subsec_nanos(), t.nanos);
    let xml = feed_xml(&store, "https://links.example");
    assert!(xml.contains("<title>A</title>"));
    assert!(xml.contains("<link>https://example.com/x</link>"));
    assert!(xml.contains(&e.pub_date));
}

#[test]
fn rfc2822_dates() {
    assert_eq!(at(0).to_rfc2822(), "Thu, 1 Jan 1970 00:00:00 +0000");
    assert_eq!(
        at(1_700_000_000).to_rfc2822(),
        chrono::DateTime::from_timestamp(1_700_000_000, 0).unwrap().to_rfc2822()
    );
}

#[test]
fn document_fields() {
    let doc = feed_document("https://links.example", &vec![record(1, 5)]);
    assert_eq!(doc.title, "Aldur's ZapIt \u{26a1}");
    assert_eq!(doc.link, "https://links.example");
    assert_eq!(doc.description, "Web link to an RSS feed.");
    assert_eq!(doc.image_title, "Link icon");
    assert_eq!(doc.image_url, "https://links.example/assets/link-solid.png");
    assert_eq!(doc.entries[0].title, "t1");
}

#[test]
fn rss_text_holds_the_channel() {
    let doc = render("https://links.example", &vec![record(1, 5), record(2, 6)]);
    let xml = to_rss(&doc);
    assert!(xml.contains("<rss") && xml.contains("<channel>"));
    assert!(xml.contains("<description>Web link to an RSS feed.</description>"));
    assert!(xml.contains("<url>https://links.example/assets/link-solid.png</url>"));
    assert!(xml.find("https://example.com/2").unwrap() < xml.find("https://example.com/1").unwrap());
}

#[test]
fn row_checks() {
    assert!(rows_valid(&vec![record(1, 5), record(2, 5)]));
    assert!(!rows_valid(&vec![record(1, 5), record(1, 6)]));
    let mut bad = record(3, 5);
    bad.pub_date = Timestamp { secs: 253402300800, nanos: 0 };
    assert!(!rows_valid(&vec![bad]));
    assert!(rows_valid(&vec![]));
}
