//! End-to-end and scenario tests for the feed parser.

use flam::context::Context;
use flam::event::Event;
use flam::item::Item;
use flam::parser::{parse_events, parse_feed, RssError};
use flam::timestamp::Timestamp;

fn start(local: &str, namespace: Option<&str>) -> Event {
    Event::Start(local.to_owned(), namespace.map(|s| s.to_owned()))
}

fn end(local: &str, namespace: Option<&str>) -> Event {
    Event::End(local.to_owned(), namespace.map(|s| s.to_owned()), 0, 0)
}

fn text(content: &str) -> Event {
    Event::Text(content.to_owned())
}

const DC: &str = "http://purl.org/dc/elements/1.1/";

#[test]
fn empty_document_yields_no_items() {
    let items = parse_feed("<rss></rss>").unwrap();
    assert_eq!(items.len(), 0);
}

#[test]
fn empty_self_closing_document_yields_no_items() {
    let items = parse_feed("<feed/>").unwrap();
    assert_eq!(items.len(), 0);
}

#[test]
fn single_item_end_to_end() {
    let doc = "<rss xmlns:dc=\"http://purl.org/dc/elements/1.1/\"><item><title>Foo</title><link>http://x</link><dc:date>2021-01-15T17:24:00Z</dc:date><dc:creator>Jane</dc:creator><description>Bar</description></item></rss>";
    let items = parse_feed(doc).unwrap();
    assert_eq!(items.len(), 1);
    let item = &items[0];
    assert_eq!(item.title, "Foo");
    assert_eq!(item.link, "http://x");
    assert_eq!(item.author, "Jane");
    assert_eq!(item.description, "Bar");
    let expected = chrono::DateTime::parse_from_rfc3339("2021-01-15T17:24:00Z").unwrap();
    assert_eq!(item.created.secs, expected.timestamp());
    assert_eq!(item.created.secs, 1610731440);
    assert_eq!(item.created.nanos, 0);
}

#[test]
fn items_come_in_document_order() {
    let doc = "<rss><channel><item><title>first</title></item><item><title>second</title></item></channel></rss>";
    let items = parse_feed(doc).unwrap();
    assert_eq!(items.len(), 2);
    assert_eq!(items[0].title, "first");
    assert_eq!(items[1].title, "second");
}

#[test]
fn fragments_are_trimmed_then_concatenated() {
    let events = vec![
        start("item", None),
        start("title", None),
        text(" Hello "),
        text(" World "),
        end("title", None),
        end("item", None),
        Event::EndDocument,
    ];
    let items = parse_events(&events).unwrap();
    assert_eq!(items.len(), 1);
    assert_eq!(items[0].title, "HelloWorld");
}

#[test]
fn unrecognized_markup_does_not_break_accumulation() {
    let doc = "<rss><item><description>Hello <b>World</b></description></item></rss>";
    let items = parse_feed(doc).unwrap();
    assert_eq!(items.len(), 1);
    assert_eq!(items[0].description, "HelloWorld");
}

#[test]
fn rfc3339_date_sets_created() {
    let doc = "<rss xmlns:dc=\"http://purl.org/dc/elements/1.1/\"><item><dc:date>1996-12-19T16:39:57-08:00</dc:date></item></rss>";
    let items = parse_feed(doc).unwrap();
    let expected = chrono::DateTime::parse_from_rfc3339("1996-12-19T16:39:57-08:00").unwrap();
    assert_eq!(items[0].created.secs, expected.timestamp());
    assert_eq!(items[0].created.nanos, 0);
}

#[test]
fn unparsable_date_keeps_previous_value() {
    let doc = "<rss xmlns:dc=\"http://purl.org/dc/elements/1.1/\"><item><dc:date>not a date</dc:date></item></rss>";
    let items = parse_feed(doc).unwrap();
    assert_eq!(items[0].created, Timestamp { secs: 0, nanos: 0 });
}

#[test]
fn unparsable_date_does_not_clobber_earlier_value() {
    let doc = "<rss xmlns:dc=\"http://purl.org/dc/elements/1.1/\"><item><dc:date>2021-01-15T17:24:00Z</dc:date><dc:date>not a date</dc:date></item></rss>";
    let items = parse_feed(doc).unwrap();
    assert_eq!(items[0].created.secs, 1610731440);
}

#[test]
fn out_of_order_close_is_a_context_mismatch() {
    let events = vec![
        start("title", None),
        start("link", None),
        end("title", None),
        Event::EndDocument,
    ];
    let err = parse_events(&events).unwrap_err();
    assert!(matches!(
        err,
        RssError::ContextMismatch(_, _, Context::Link, Context::Title)
    ));
}

#[test]
fn close_without_open_is_reported() {
    let events = vec![end("item", None), Event::EndDocument];
    let err = parse_events(&events).unwrap_err();
    assert!(matches!(err, RssError::UnexpectedClose(_, _, Context::Item)));
}

#[test]
fn tokenizer_fault_aborts_the_parse() {
    let err = parse_feed("<rss><item><title>Foo</title>").unwrap_err();
    assert!(matches!(err, RssError::Tokenizer(_)));
}

#[test]
fn tokenizer_fault_discards_partial_output() {
    let doc = "<rss><item><title>Foo</title></item><oops";
    assert!(parse_feed(doc).is_err());
}

#[test]
fn unterminated_recognized_elements_are_tolerated() {
    let events = vec![
        start("item", None),
        start("title", None),
        text("draft"),
        Event::EndDocument,
    ];
    let items = parse_events(&events).unwrap();
    assert_eq!(items.len(), 0);
}

#[test]
fn dublin_core_names_resolve_only_under_their_namespace() {
    let events = vec![
        start("item", None),
        start("date", None),
        text("2021-01-15T17:24:00Z"),
        end("date", None),
        start("creator", Some(DC)),
        text("Jane"),
        end("creator", Some(DC)),
        end("item", None),
        Event::EndDocument,
    ];
    let items = parse_events(&events).unwrap();
    assert_eq!(items.len(), 1);
    // A namespace-less "date" is unrecognized, so created stays at the epoch.
    assert_eq!(items[0].created, Timestamp { secs: 0, nanos: 0 });
    assert_eq!(items[0].author, "Jane");
}

#[test]
fn item_under_dublin_core_is_unrecognized() {
    let events = vec![
        start("item", Some(DC)),
        end("item", Some(DC)),
        Event::EndDocument,
    ];
    let items = parse_events(&events).unwrap();
    assert_eq!(items.len(), 0);
}

#[test]
fn fresh_draft_after_each_item() {
    let events = vec![
        start("item", None),
        start("title", None),
        text("one"),
        end("title", None),
        end("item", None),
        start("item", None),
        end("item", None),
        Event::EndDocument,
    ];
    let items = parse_events(&events).unwrap();
    assert_eq!(items.len(), 2);
    assert_eq!(items[0].title, "one");
    assert_eq!(items[1].title, "");
}

#[test]
fn default_item_is_empty_at_the_epoch() {
    let item = Item::default();
    assert_eq!(item.title, "");
    assert_eq!(item.link, "");
    assert_eq!(item.author, "");
    assert_eq!(item.description, "");
    assert_eq!(item.created, Timestamp { secs: 0, nanos: 0 });
}
