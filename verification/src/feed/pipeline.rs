use vstd::prelude::*;
use crate::dates::{parse_date, spec_parse_date, Date, Timestamp};
use crate::feed::channel::{ChannelItem, ItemModel};
use crate::feed::feed_item::FeedItem;
use crate::notion::models::{
    page_link, spec_page_link, DateValue, Page, PropertyValue, RichText, Text,
};

verus! {

/// A create-record call the pipeline has planned: the entry's title and
/// link, and the publish timestamp to record.
#[derive(Clone, Debug)]
pub struct NewEntry {
    pub title: String,
    pub link: String,
    pub published: Timestamp,
}

/// The model of a planned entry: the views of its title and link, and its
/// publish timestamp.
pub type EntryModel = (Seq<char>, Seq<char>, Timestamp);

impl DeepView for NewEntry {
    type V = EntryModel;

    open spec fn deep_view(&self) -> EntryModel {
        (self.title@, self.link@, self.published)
    }
}

/// The element-wise model of a sequence of modelled values.
pub open spec fn deep_of<T: DeepView>(s: Seq<T>) -> Seq<T::V> {
    Seq::new(s.len(), |i: int| s[i].deep_view())
}

pub proof fn lemma_deep_of_vec<T: DeepView>(v: &Vec<T>)
    ensures
        v.deep_view() =~= deep_of(v@),
{
}

pub proof fn lemma_deep_of_push<T: DeepView>(s: Seq<T>, x: T)
    ensures
        deep_of(s.push(x)) =~= deep_of(s).push(x.deep_view()),
{
}

/// The links the given sink records resolve to, in record order; records
/// without a resolvable link are dropped.
pub open spec fn spec_page_links(pages: Seq<Page>) -> Seq<Seq<char>>
    decreases pages.len(),
{
    if pages.len() == 0 {
        Seq::empty()
    } else {
        let rest = spec_page_links(pages.drop_last());
        match spec_page_link(pages.last()) {
            Some(l) => rest.push(l),
            None => rest,
        }
    }
}

pub fn map_page_to_links(pages: &Vec<Page>) -> (r: Vec<String>)
    ensures
        r.deep_view() =~= spec_page_links(pages@),
{
    let mut out: Vec<String> = Vec::new();
    let mut i: usize = 0;
    proof {
        assert(pages@.take(0) =~= Seq::<Page>::empty());
    }
    while i < pages.len()
        invariant
            i <= pages@.len(),
            out.deep_view() =~= spec_page_links(pages@.take(i as int)),
        decreases pages@.len() - i,
    {
        let ghost pre = out@;
        proof {
            assert(pages@.take(i as int + 1).drop_last() =~= pages@.take(i as int));
            assert(pages@.take(i as int + 1).last() == pages@[i as int]);
        }
        if let Some(link) = page_link(&pages[i]) {
            out.push(link);
            proof {
                lemma_deep_of_vec(&out);
                lemma_deep_of_push(pre, out@.last());
                assert(out.deep_view() =~= spec_page_links(pages@.take(i as int + 1)));
            }
        }
        i = i + 1;
    }
    proof {
        assert(pages@.take(pages@.len() as int) =~= pages@);
    }
    out
}

/// Resolves the given sink records to their identities, in record order;
/// records without a resolvable link are dropped.
pub fn collect_feed_items(pages: &Vec<Page>) -> (r: Vec<FeedItem>)
    ensures
        r.deep_view() =~= spec_page_links(pages@),
{
    let mut out: Vec<FeedItem> = Vec::new();
    let mut i: usize = 0;
    proof {
        assert(pages@.take(0) =~= Seq::<Page>::empty());
    }
    while i < pages.len()
        invariant
            i <= pages@.len(),
            out.deep_view() =~= spec_page_links(pages@.take(i as int)),
        decreases pages@.len() - i,
    {
        let ghost pre = out@;
        proof {
            assert(pages@.take(i as int + 1).drop_last() =~= pages@.take(i as int));
            assert(pages@.take(i as int + 1).last() == pages@[i as int]);
        }
        if let Some(item) = FeedItem::new(&pages[i]) {
            out.push(item);
            proof {
                lemma_deep_of_vec(&out);
                lemma_deep_of_push(pre, out@.last());
                assert(out.deep_view() =~= spec_page_links(pages@.take(i as int + 1)));
            }
        }
        i = i + 1;
    }
    proof {
        assert(pages@.take(pages@.len() as int) =~= pages@);
    }
    out
}

/// The links of the given sink entries, in order.
pub fn feed_links(items: &Vec<FeedItem>) -> (r: Vec<String>)
    ensures
        r.deep_view() =~= items.deep_view(),
{
    let mut out: Vec<String> = Vec::new();
    let mut i: usize = 0;
    while i < items.len()
        invariant
            i <= items@.len(),
            out.deep_view() =~= items.deep_view().take(i as int),
        decreases items@.len() - i,
    {
        let ghost pre = out@;
        out.push(items[i].link.clone());
        proof {
            lemma_deep_of_vec(&out);
            lemma_deep_of_push(pre, out@.last());
            assert(out.deep_view() =~= items.deep_view().take(i as int + 1));
        }
        i = i + 1;
    }
    proof {
        assert(items.deep_view().take(items@.len() as int) =~= items.deep_view());
    }
    out
}

fn link_in(existing: &Vec<String>, link: &String) -> (r: bool)
    ensures
        r == existing.deep_view().contains(link@),
{
    let mut i: usize = 0;
    while i < existing.len()
        invariant
            i <= existing@.len(),
            forall|j: int| 0 <= j < i ==> existing.deep_view()[j] != link@,
        decreases existing@.len() - i,
    {
        if existing[i] == *link {
            proof {
                assert(existing.deep_view()[i as int] == link@);
            }
            return true;
        }
        proof {
            assert(existing.deep_view()[i as int] == existing@[i as int]@);
        }
        i = i + 1;
    }
    false
}

/// The timestamp recorded for an entry: its normalized publish date at
/// midnight where the raw timestamp parses, else the moment of processing.
pub open spec fn spec_published(pd: Option<Seq<char>>, now: Timestamp) -> Timestamp {
    match pd {
        None => now,
        Some(s) => match spec_parse_date(s) {
            Some(d) => Timestamp {
                date: Date { year: d.0 as i32, month: d.1 as u32, day: d.2 as u32 },
                hour: 0,
                minute: 0,
                second: 0,
            },
            None => now,
        },
    }
}

fn published_of(pd: &Option<String>, now: Timestamp) -> (r: Timestamp)
    ensures
        r == spec_published(pd.deep_view(), now),
{
    match pd {
        None => now,
        Some(s) => match parse_date(s) {
            Some(d) => Timestamp { date: d, hour: 0, minute: 0, second: 0 },
            None => now,
        },
    }
}

/// The record an entry gives rise to: its title and link where it has both
/// and its link is not already recorded, and nothing otherwise.
pub open spec fn spec_item_entry(
    item: ItemModel,
    existing: Seq<Seq<char>>,
    now: Timestamp,
) -> Option<EntryModel> {
    match item.0 {
        Some(t) => match item.1 {
            Some(l) => if !existing.contains(l) {
                Some((t, l, spec_published(item.2, now)))
            } else {
                None
            },
            None => None,
        },
        None => None,
    }
}

fn item_entry(item: &ChannelItem, existing: &Vec<String>, now: Timestamp) -> (r: Option<NewEntry>)
    ensures
        match r {
            Some(e) => spec_item_entry(item.deep_view(), existing.deep_view(), now) == Some(
                e.deep_view(),
            ),
            None => spec_item_entry(item.deep_view(), existing.deep_view(), now) is None,
        },
{
    match &item.title {
        Some(t) => match &item.link {
            Some(l) => {
                if !link_in(existing, l) {
                    let published = published_of(&item.pub_date, now);
                    Some(NewEntry { title: t.clone(), link: l.clone(), published })
                } else {
                    None
                }
            },
            None => None,
        },
        None => None,
    }
}

/// The records one feed's entries give rise to, in entry order.
pub open spec fn spec_entries_of(
    items: Seq<ItemModel>,
    existing: Seq<Seq<char>>,
    now: Timestamp,
) -> Seq<EntryModel>
    decreases items.len(),
{
    if items.len() == 0 {
        Seq::empty()
    } else {
        let rest = spec_entries_of(items.drop_last(), existing, now);
        match spec_item_entry(items.last(), existing, now) {
            Some(e) => rest.push(e),
            None => rest,
        }
    }
}

/// The records one source's fetch gives rise to: none at all where the
/// fetch failed.
pub open spec fn spec_source_entries(
    fetch: Option<Seq<ItemModel>>,
    existing: Seq<Seq<char>>,
    now: Timestamp,
) -> Seq<EntryModel> {
    match fetch {
        None => Seq::empty(),
        Some(items) => spec_entries_of(items, existing, now),
    }
}

/// The whole run's planned records: each source's in turn, in source order.
pub open spec fn spec_plan(
    fetches: Seq<Option<Seq<ItemModel>>>,
    existing: Seq<Seq<char>>,
    now: Timestamp,
) -> Seq<EntryModel>
    decreases fetches.len(),
{
    if fetches.len() == 0 {
        Seq::empty()
    } else {
        spec_plan(fetches.drop_last(), existing, now) + spec_source_entries(
            fetches.last(),
            existing,
            now,
        )
    }
}

/// Merges every source's surviving entries, in source order and original
/// entry order, and keeps exactly those with both a title and a link whose
/// link is absent from the existing identities; a failed fetch contributes
/// nothing. No planned record's link is among the existing identities.
pub fn plan_writes(
    fetches: &Vec<Option<Vec<ChannelItem>>>,
    existing_links: &Vec<String>,
    now: Timestamp,
) -> (r: Vec<NewEntry>)
    ensures
        r.deep_view() =~= spec_plan(fetches.deep_view(), existing_links.deep_view(), now),
        forall|j: int|
            0 <= j < r.deep_view().len() ==> !existing_links.deep_view().contains(
                #[trigger] r.deep_view()[j].1,
            ),
{
    let ghost fv = fetches.deep_view();
    let ghost ev = existing_links.deep_view();
    let mut out: Vec<NewEntry> = Vec::new();
    let mut i: usize = 0;
    proof {
        assert(fv.take(0) =~= Seq::<Option<Seq<ItemModel>>>::empty());
    }
    while i < fetches.len()
        invariant
            i <= fetches@.len(),
            fv == fetches.deep_view(),
            ev == existing_links.deep_view(),
            fv.len() == fetches@.len(),
            out.deep_view() =~= spec_plan(fv.take(i as int), ev, now),
            forall|j: int|
                0 <= j < out.deep_view().len() ==> !ev.contains(#[trigger] out.deep_view()[j].1),
        decreases fetches@.len() - i,
    {
        proof {
            assert(fv.take(i as int + 1).drop_last() =~= fv.take(i as int));
            assert(fv.take(i as int + 1).last() == fv[i as int]);
            assert(fv[i as int] == fetches@[i as int].deep_view());
        }
        match &fetches[i] {
            None => {
                proof {
                    assert(out.deep_view() =~= spec_plan(fv.take(i as int + 1), ev, now));
                }
            },
            Some(items) => {
                let ghost iv = items.deep_view();
                let mut j: usize = 0;
                proof {
                    assert(iv.take(0) =~= Seq::<ItemModel>::empty());
                    assert(spec_entries_of(iv.take(0), ev, now) =~= Seq::<EntryModel>::empty());
                }
                while j < items.len()
                    invariant
                        j <= items@.len(),
                        iv == items.deep_view(),
                        ev == existing_links.deep_view(),
                        iv.len() == items@.len(),
                        out.deep_view() =~= spec_plan(fv.take(i as int), ev, now)
                            + spec_entries_of(iv.take(j as int), ev, now),
                        forall|q: int|
                            0 <= q < out.deep_view().len() ==> !ev.contains(
                                #[trigger] out.deep_view()[q].1,
                            ),
                    decreases items@.len() - j,
                {
                    let ghost pre = out@;
                    proof {
                        assert(iv.take(j as int + 1).drop_last() =~= iv.take(j as int));
                        assert(iv.take(j as int + 1).last() == iv[j as int]);
                        assert(iv[j as int] == items@[j as int].deep_view());
                    }
                    if let Some(e) = item_entry(&items[j], existing_links, now) {
                        out.push(e);
                        proof {
                            lemma_deep_of_vec(&out);
                            lemma_deep_of_push(pre, out@.last());
                        }
                    }
                    proof {
                        assert(out.deep_view() =~= spec_plan(fv.take(i as int), ev, now)
                            + spec_entries_of(iv.take(j as int + 1), ev, now));
                    }
                    j = j + 1;
                }
                proof {
                    assert(iv.take(items@.len() as int) =~= iv);
                    assert(out.deep_view() =~= spec_plan(fv.take(i as int + 1), ev, now));
                }
            },
        }
        i = i + 1;
    }
    proof {
        assert(fv.take(fetches@.len() as int) =~= fv);
    }
    out
}

/// The properties of the record created for one new entry: its title as a
/// single styled-text run, its link as a URL, unread and unstarred flags,
/// and the publish timestamp.
pub fn entry_properties(title: String, link: String, published: Timestamp) -> (r: Vec<
    (String, PropertyValue),
>)
    ensures
        r@.len() == 5,
        r@[0].0@ == "Title"@,
        match r@[0].1 {
            PropertyValue::Title { title: runs } => runs@.len() == 1 && match runs@[0] {
                RichText::Text { rich_text, text } => rich_text is None && text.content@ == title@
                    && text.link is None,
            },
            _ => false,
        },
        r@[1].0@ == "Link"@,
        match r@[1].1 {
            PropertyValue::Url { url } => url is Some && url->Some_0@ == link@,
            _ => false,
        },
        r@[2].0@ == "Read"@,
        r@[2].1 == (PropertyValue::Checkbox { checkbox: false }),
        r@[3].0@ == "Starred"@,
        r@[3].1 == (PropertyValue::Checkbox { checkbox: false }),
        r@[4].0@ == "Published At"@,
        r@[4].1 == (PropertyValue::Date {
            date: Some(DateValue { start: Some(published), end: None }),
        }),
{
    let run = RichText::Text {
        rich_text: None,
        text: Text { content: title, link: None },
    };
    let mut runs: Vec<RichText> = Vec::new();
    runs.push(run);
    let mut props: Vec<(String, PropertyValue)> = Vec::new();
    props.push(("Title".to_owned(), PropertyValue::Title { title: runs }));
    props.push(("Link".to_owned(), PropertyValue::Url { url: Some(link) }));
    props.push(("Read".to_owned(), PropertyValue::Checkbox { checkbox: false }));
    props.push(("Starred".to_owned(), PropertyValue::Checkbox { checkbox: false }));
    props.push(
        (
            "Published At".to_owned(),
            PropertyValue::Date { date: Some(DateValue { start: Some(published), end: None }) },
        ),
    );
    props
}

proof fn lemma_entry_in_entries(
    items: Seq<ItemModel>,
    existing: Seq<Seq<char>>,
    now: Timestamp,
    i: int,
)
    requires
        0 <= i < items.len(),
        spec_item_entry(items[i], existing, now) is Some,
    ensures
        spec_entries_of(items, existing, now).contains(
            spec_item_entry(items[i], existing, now)->Some_0,
        ),
    decreases items.len(),
{
    let e = spec_item_entry(items[i], existing, now)->Some_0;
    if i == items.len() - 1 {
        assert(spec_entries_of(items, existing, now).last() == e);
    } else {
        assert(items.drop_last()[i] == items[i]);
        lemma_entry_in_entries(items.drop_last(), existing, now, i);
        let rest = spec_entries_of(items.drop_last(), existing, now);
        let k = choose|k: int| 0 <= k < rest.len() && rest[k] == e;
        assert(spec_entries_of(items, existing, now)[k] == e);
    }
}

proof fn lemma_entries_second_run(
    items: Seq<ItemModel>,
    existing1: Seq<Seq<char>>,
    existing2: Seq<Seq<char>>,
    now1: Timestamp,
    now2: Timestamp,
)
    requires
        forall|l: Seq<char>| existing1.contains(l) ==> existing2.contains(l),
        forall|e: EntryModel|
            spec_entries_of(items, existing1, now1).contains(e) ==> existing2.contains(e.1),
    ensures
        spec_entries_of(items, existing2, now2).len() == 0,
    decreases items.len(),
{
    if items.len() > 0 {
        let prior = spec_entries_of(items.drop_last(), existing1, now1);
        assert forall|e: EntryModel| prior.contains(e) implies existing2.contains(e.1) by {
            let k = choose|k: int| 0 <= k < prior.len() && prior[k] == e;
            assert(spec_entries_of(items, existing1, now1)[k] == e);
            assert(spec_entries_of(items, existing1, now1).contains(e));
        }
        lemma_entries_second_run(items.drop_last(), existing1, existing2, now1, now2);
        let it = items.last();
        if spec_item_entry(it, existing2, now2) is Some {
            let l = it.1->Some_0;
            assert(!existing2.contains(l));
            assert(!existing1.contains(l));
            lemma_entry_in_entries(items, existing1, now1, items.len() - 1);
            assert(existing2.contains(l));
        }
    }
}

/// Running the pipeline a second time writes nothing: where the second
/// run's existing identities include the first run's identities and the
/// links of everything the first run planned, and the fetches are
/// unchanged, the second plan is empty.
pub proof fn lemma_second_run_empty(
    fetches: Seq<Option<Seq<ItemModel>>>,
    existing1: Seq<Seq<char>>,
    existing2: Seq<Seq<char>>,
    now1: Timestamp,
    now2: Timestamp,
)
    requires
        forall|l: Seq<char>| existing1.contains(l) ==> existing2.contains(l),
        forall|e: EntryModel|
            spec_plan(fetches, existing1, now1).contains(e) ==> existing2.contains(e.1),
    ensures
        spec_plan(fetches, existing2, now2).len() == 0,
    decreases fetches.len(),
{
    if fetches.len() > 0 {
        let whole = spec_plan(fetches, existing1, now1);
        let prior = spec_plan(fetches.drop_last(), existing1, now1);
        let last1 = spec_source_entries(fetches.last(), existing1, now1);
        assert forall|e: EntryModel| prior.contains(e) implies existing2.contains(e.1) by {
            let k = choose|k: int| 0 <= k < prior.len() && prior[k] == e;
            assert(whole[k] == e);
            assert(whole.contains(e));
        }
        lemma_second_run_empty(fetches.drop_last(), existing1, existing2, now1, now2);
        match fetches.last() {
            None => {},
            Some(items) => {
                assert forall|e: EntryModel| spec_entries_of(items, existing1, now1).contains(
                    e,
                ) implies existing2.contains(e.1) by {
                    let k = choose|k: int|
                        0 <= k < last1.len() && last1[k] == e;
                    assert(whole[prior.len() + k] == e);
                    assert(whole.contains(e));
                }
                lemma_entries_second_run(items, existing1, existing2, now1, now2);
            },
        }
    }
}

/// A failed fetch is isolated: it contributes exactly what an empty feed
/// would, and every other source's contribution to the plan is untouched.
pub proof fn lemma_fetch_failure_isolated(
    fetches: Seq<Option<Seq<ItemModel>>>,
    existing: Seq<Seq<char>>,
    now: Timestamp,
    a: int,
)
    requires
        0 <= a < fetches.len(),
        fetches[a] is None,
    ensures
        spec_plan(fetches, existing, now) =~= spec_plan(
            fetches.update(a, Some(Seq::empty())),
            existing,
            now,
        ),
    decreases fetches.len(),
{
    let f2 = fetches.update(a, Some(Seq::empty()));
    assert(spec_entries_of(Seq::empty(), existing, now) =~= Seq::<EntryModel>::empty());
    if a == fetches.len() - 1 {
        assert(f2.drop_last() =~= fetches.drop_last());
    } else {
        assert(f2.drop_last() =~= fetches.drop_last().update(a, Some(Seq::empty())));
        assert(fetches.drop_last()[a] == fetches[a]);
        lemma_fetch_failure_isolated(fetches.drop_last(), existing, now, a);
        assert(f2.last() == fetches.last());
    }
}

} // verus!
