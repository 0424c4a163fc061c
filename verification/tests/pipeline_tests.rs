use feed_ingest::dates::{Date, Timestamp};
use feed_ingest::feed::channel::{filter_by_cutoff, get_rss_items, ChannelItem};
use feed_ingest::feed::feed_item::FeedItem;
use feed_ingest::feed::pipeline::{
    collect_feed_items, entry_properties, feed_links, map_page_to_links, plan_writes, NewEntry,
};
use feed_ingest::feed::source::{resolve_sources, Source};
use feed_ingest::notion::database::{DatabaseFilter, FilterKind, PageCollector, Pages};
use feed_ingest::notion::models::{Page, PropertyValue, RichText, Text};

fn ymd(year: i32, month: u32, day: u32) -> Date {
    Date { year, month, day }
}

fn noon(date: Date) -> Timestamp {
    Timestamp { date, hour: 12, minute: 30, second: 0 }
}

fn page(props: Option<Vec<(String, PropertyValue)>>) -> Page {
    Page { id: "record".to_string(), archived: false, parent: None, properties: props }
}

fn url_prop(name: &str, url: &str) -> (String, PropertyValue) {
    (name.to_string(), PropertyValue::Url { url: Some(url.to_string()) })
}

fn text_prop(name: &str, content: &str) -> (String, PropertyValue) {
    (
        name.to_string(),
        PropertyValue::Text {
            rich_text: vec![RichText::Text {
                rich_text: None,
                text: Text { content: content.to_string(), link: None },
            }],
        },
    )
}

fn item(title: Option<&str>, link: Option<&str>, pub_date: Option<&str>) -> ChannelItem {
    ChannelItem {
        title: title.map(|s| s.to_string()),
        link: link.map(|s| s.to_string()),
        pub_date: pub_date.map(|s| s.to_string()),
    }
}

#[test]
fn resolves_a_source_with_a_one_month_cutoff() {
    let p = page(Some(vec![
        url_prop("Link", "https://example.org/feed.xml"),
        text_prop("Offset date", "1 month"),
    ]));
    let src = Source::new(&p, ymd(2024, 3, 15)).unwrap();
    assert_eq!(src.link, "https://example.org/feed.xml");
    assert_eq!(src.offset_date, Some(ymd(2024, 2, 15)));
}

#[test]
fn the_cutoff_clamps_into_a_shorter_month() {
    let p = page(Some(vec![
        url_prop("Link", "https://example.org/feed.xml"),
        text_prop("Offset date", "1 month"),
    ]));
    let src = Source::new(&p, ymd(2024, 3, 31)).unwrap();
    assert_eq!(src.offset_date, Some(ymd(2024, 2, 29)));
}

#[test]
fn resolves_a_twelve_month_cutoff() {
    let p = page(Some(vec![
        url_prop("Link", "https://example.org/feed.xml"),
        text_prop("Offset date", "12 months"),
    ]));
    let src = Source::new(&p, ymd(2024, 3, 15)).unwrap();
    assert_eq!(src.offset_date, Some(ymd(2023, 3, 15)));
}

#[test]
fn resolves_a_source_without_an_offset_label() {
    let p = page(Some(vec![url_prop("Link", "https://example.org/feed.xml")]));
    let src = Source::new(&p, ymd(2024, 3, 15)).unwrap();
    assert_eq!(src.offset_date, None);
}

#[test]
fn an_unparseable_offset_label_means_no_cutoff() {
    let p = page(Some(vec![
        url_prop("Link", "https://example.org/feed.xml"),
        text_prop("Offset date", "soon"),
    ]));
    let src = Source::new(&p, ymd(2024, 3, 15)).unwrap();
    assert_eq!(src.offset_date, None);
}

#[test]
fn a_record_without_a_link_yields_no_source() {
    assert!(Source::new(&page(Some(vec![text_prop("Offset date", "1 month")])), ymd(2024, 3, 15))
        .is_none());
    assert!(Source::new(&page(None), ymd(2024, 3, 15)).is_none());
}

#[test]
fn resolves_only_records_with_links_each_with_its_own_cutoff() {
    let pages = vec![
        page(Some(vec![
            url_prop("Link", "https://example.org/a.xml"),
            text_prop("Offset date", "1 month"),
        ])),
        page(Some(vec![text_prop("Offset date", "1 month")])),
        page(Some(vec![url_prop("Link", "https://example.org/b.xml")])),
    ];
    let sources = resolve_sources(&pages, ymd(2024, 3, 15));
    assert_eq!(sources.len(), 2);
    assert_eq!(sources[0].link, "https://example.org/a.xml");
    assert_eq!(sources[0].offset_date, Some(ymd(2024, 2, 15)));
    assert_eq!(sources[1].link, "https://example.org/b.xml");
    assert_eq!(sources[1].offset_date, None);
}

#[test]
fn a_record_without_a_link_yields_no_feed_item() {
    assert!(FeedItem::new(&page(Some(vec![text_prop("Title", "x")]))).is_none());
    let item = FeedItem::new(&page(Some(vec![url_prop("Link", "https://example.org/a")])));
    assert_eq!(item.unwrap().link, "https://example.org/a");
}

#[test]
fn property_lookup_takes_the_first_match_and_ignores_unknown_names() {
    let p = page(Some(vec![
        text_prop("Unknown", "ignored"),
        url_prop("Link", "https://example.org/first"),
        url_prop("Link", "https://example.org/second"),
    ]));
    let links = map_page_to_links(&vec![p]);
    assert_eq!(links, vec!["https://example.org/first".to_string()]);
}

#[test]
fn collects_links_over_many_records() {
    let mut pages: Vec<Page> = Vec::new();
    for i in 0..3000 {
        pages.push(page(Some(vec![url_prop("Link", &format!("https://example.org/item{}", i))])));
    }
    pages.push(page(None));
    let links = map_page_to_links(&pages);
    assert_eq!(links.len(), 3000);
    assert_eq!(links[2500], "https://example.org/item2500");

    let items = collect_feed_items(&pages);
    assert_eq!(items.len(), 3000);
    let links2 = feed_links(&items);
    assert_eq!(links, links2);
}

#[test]
fn cutoff_drops_older_items_and_keeps_undated_and_unparseable_ones() {
    let cutoff = Some(ymd(2024, 2, 15));
    let items = vec![
        item(Some("old"), Some("https://example.org/old"), Some("2024-02-10")),
        item(Some("new"), Some("https://example.org/new"), Some("2024-02-20")),
        item(Some("edge"), Some("https://example.org/edge"), Some("2024-02-15")),
        item(Some("undated"), Some("https://example.org/undated"), None),
        item(Some("garbled"), Some("https://example.org/garbled"), Some("yesterday-ish")),
    ];
    let kept = filter_by_cutoff(items, &cutoff);
    let titles: Vec<String> = kept.iter().map(|i| i.title.clone().unwrap()).collect();
    assert_eq!(titles, vec!["new", "edge", "undated", "garbled"]);
}

#[test]
fn no_cutoff_keeps_everything() {
    let items = vec![
        item(Some("old"), Some("https://example.org/old"), Some("1999-01-01")),
        item(None, None, None),
    ];
    let kept = filter_by_cutoff(items, &None);
    assert_eq!(kept.len(), 2);
}

fn sample_feed() -> Vec<u8> {
    let mut doc = String::new();
    doc.push_str("<?xml version=\"1.0\"?><rss version=\"2.0\"><channel>");
    doc.push_str("<title>Sample</title><link>https://example.org</link>");
    doc.push_str("<description>sample</description>");
    doc.push_str("<item><title>First</title><link>https://example.org/a</link>");
    doc.push_str("<pubDate>Tue, 20 Feb 2024 10:00:00 GMT</pubDate></item>");
    doc.push_str("<item><title>Second</title></item>");
    doc.push_str("</channel></rss>");
    doc.into_bytes()
}

#[test]
fn parses_a_feed_document_into_its_entries() {
    let src = Source { link: "https://example.org/feed.xml".to_string(), offset_date: None };
    let items = get_rss_items(&src, &sample_feed()).unwrap();
    assert_eq!(items.len(), 2);
    assert_eq!(items[0].title.as_deref(), Some("First"));
    assert_eq!(items[0].link.as_deref(), Some("https://example.org/a"));
    assert_eq!(items[0].pub_date.as_deref(), Some("Tue, 20 Feb 2024 10:00:00 GMT"));
    assert_eq!(items[1].title.as_deref(), Some("Second"));
    assert_eq!(items[1].link, None);
}

#[test]
fn applies_the_source_cutoff_while_parsing() {
    let src = Source {
        link: "https://example.org/feed.xml".to_string(),
        offset_date: Some(ymd(2024, 3, 1)),
    };
    let items = get_rss_items(&src, &sample_feed()).unwrap();
    // The dated entry is before the cutoff; the undated one passes fail-open.
    assert_eq!(items.len(), 1);
    assert_eq!(items[0].title.as_deref(), Some("Second"));
}

#[test]
fn a_document_that_is_no_feed_yields_nothing() {
    let src = Source { link: "https://example.org/feed.xml".to_string(), offset_date: None };
    assert!(get_rss_items(&src, &b"this is not xml".to_vec()).is_none());
}

#[test]
fn plans_exactly_one_write_for_one_eligible_entry() {
    // One enabled source, no offset label: two entries, one lacking a link.
    let fetched = vec![Some(vec![
        item(Some("First"), Some("https://example.org/a"), None),
        item(Some("Second"), None, None),
    ])];
    let existing: Vec<String> = Vec::new();
    let plan = plan_writes(&fetched, &existing, noon(ymd(2024, 3, 15)));
    assert_eq!(plan.len(), 1);
    assert_eq!(plan[0].title, "First");
    assert_eq!(plan[0].link, "https://example.org/a");
}

#[test]
fn an_entry_without_a_title_is_not_written() {
    let fetched = vec![Some(vec![item(None, Some("https://example.org/a"), None)])];
    let plan = plan_writes(&fetched, &Vec::new(), noon(ymd(2024, 3, 15)));
    assert_eq!(plan.len(), 0);
}

#[test]
fn a_link_already_in_the_sink_is_never_written() {
    let mut existing: Vec<String> = Vec::new();
    for i in 0..3000 {
        existing.push(format!("https://example.org/item{}", i));
    }
    let fetched = vec![Some(vec![
        item(Some("Different title, same link"), Some("https://example.org/item2500"), None),
        item(Some("Genuinely new"), Some("https://example.org/fresh"), None),
    ])];
    let plan = plan_writes(&fetched, &existing, noon(ymd(2024, 3, 15)));
    assert_eq!(plan.len(), 1);
    assert_eq!(plan[0].link, "https://example.org/fresh");
}

#[test]
fn a_second_run_with_no_new_entries_writes_nothing() {
    let fetched = vec![
        Some(vec![
            item(Some("A"), Some("https://example.org/a"), Some("2024-02-20")),
            item(Some("B"), Some("https://example.org/b"), None),
        ]),
        Some(vec![item(Some("C"), Some("https://example.org/c"), None)]),
    ];
    let mut existing: Vec<String> = vec!["https://example.org/old".to_string()];
    let first = plan_writes(&fetched, &existing, noon(ymd(2024, 3, 15)));
    assert_eq!(first.len(), 3);
    for entry in &first {
        existing.push(entry.link.clone());
    }
    let second = plan_writes(&fetched, &existing, noon(ymd(2024, 3, 16)));
    assert_eq!(second.len(), 0);
}

#[test]
fn a_failed_fetch_does_not_disturb_the_other_sources() {
    let fetched = vec![
        None,
        Some(vec![item(Some("B"), Some("https://example.org/b"), None)]),
    ];
    let plan = plan_writes(&fetched, &Vec::new(), noon(ymd(2024, 3, 15)));
    assert_eq!(plan.len(), 1);
    assert_eq!(plan[0].link, "https://example.org/b");
}

#[test]
fn records_the_parsed_publish_date_at_midnight_or_the_processing_moment() {
    let now = noon(ymd(2024, 3, 15));
    let fetched = vec![Some(vec![
        item(Some("dated"), Some("https://example.org/d"), Some("Tue, 20 Feb 2024 10:00:00 GMT")),
        item(Some("undated"), Some("https://example.org/u"), None),
        item(Some("garbled"), Some("https://example.org/g"), Some("around noon")),
    ])];
    let plan = plan_writes(&fetched, &Vec::new(), now);
    assert_eq!(plan.len(), 3);
    assert_eq!(
        plan[0].published,
        Timestamp { date: ymd(2024, 2, 20), hour: 0, minute: 0, second: 0 },
    );
    assert_eq!(plan[1].published, now);
    assert_eq!(plan[2].published, now);
}

#[test]
fn builds_the_record_properties_for_a_new_entry() {
    let entry = NewEntry {
        title: "A title".to_string(),
        link: "https://example.org/a".to_string(),
        published: Timestamp { date: ymd(2024, 2, 20), hour: 0, minute: 0, second: 0 },
    };
    let props = entry_properties(entry.title.clone(), entry.link.clone(), entry.published);
    assert_eq!(props.len(), 5);
    assert_eq!(props[0].0, "Title");
    match &props[0].1 {
        PropertyValue::Title { title } => match &title[0] {
            RichText::Text { rich_text, text } => {
                assert!(rich_text.is_none());
                assert_eq!(text.content, "A title");
                assert!(text.link.is_none());
            },
        },
        other => panic!("unexpected property: {:?}", other),
    }
    assert_eq!(props[1].0, "Link");
    match &props[1].1 {
        PropertyValue::Url { url } => assert_eq!(url.as_deref(), Some("https://example.org/a")),
        other => panic!("unexpected property: {:?}", other),
    }
    assert_eq!(props[2].0, "Read");
    assert_eq!(props[2].1, PropertyValue::Checkbox { checkbox: false });
    assert_eq!(props[3].0, "Starred");
    assert_eq!(props[3].1, PropertyValue::Checkbox { checkbox: false });
    assert_eq!(props[4].0, "Published At");
    match &props[4].1 {
        PropertyValue::Date { date } => {
            let date = date.unwrap();
            assert_eq!(date.start, Some(entry.published));
            assert_eq!(date.end, None);
        },
        other => panic!("unexpected property: {:?}", other),
    }
}

#[test]
fn enumerates_every_page_before_finishing() {
    let mut collector = PageCollector::new();
    assert!(!collector.done);
    let q = collector.next_query();
    assert_eq!(q.start_cursor, None);

    collector.absorb(Pages {
        object: "list".to_string(),
        next_cursor: Some("cursor-1".to_string()),
        has_more: true,
        results: vec![page(Some(vec![url_prop("Link", "https://example.org/1")]))],
    });
    assert!(!collector.done);
    let q = collector.next_query();
    assert_eq!(q.start_cursor.as_deref(), Some("cursor-1"));

    collector.absorb(Pages {
        object: "list".to_string(),
        next_cursor: None,
        has_more: false,
        results: vec![page(Some(vec![url_prop("Link", "https://example.org/2")]))],
    });
    assert!(collector.done);
    let links = map_page_to_links(&collector.pages);
    assert_eq!(
        links,
        vec!["https://example.org/1".to_string(), "https://example.org/2".to_string()],
    );
}

#[test]
fn the_source_query_filters_on_the_enabled_flag() {
    let q = feed_ingest::notion::database::source_query();
    assert_eq!(q.start_cursor, None);
    assert_eq!(q.page_size, None);
    assert!(q.sorts.is_none());
    match q.filter.unwrap() {
        DatabaseFilter::Compound { filter } => {
            assert_eq!(filter.len(), 1);
            assert_eq!(filter[0].0, "or");
            assert_eq!(filter[0].1.len(), 1);
            assert_eq!(filter[0].1[0].property, "Enabled");
            assert_eq!(filter[0].1[0].kind, FilterKind::Checkbox { equals: true });
        },
        other => panic!("unexpected filter: {:?}", other),
    }
}
