use vstd::prelude::*;
use crate::dates::{date_le, date_model, parse_date, spec_date_le, spec_parse_date, Date};
use crate::feed::source::Source;

verus! {

/// One entry parsed out of a feed document, fields raw as the document
/// carried them.
#[derive(Clone, Debug)]
pub struct ChannelItem {
    pub title: Option<String>,
    pub link: Option<String>,
    pub pub_date: Option<String>,
}

/// The model of a feed entry: the views of its raw title, link and publish
/// timestamp.
pub type ItemModel = (Option<Seq<char>>, Option<Seq<char>>, Option<Seq<char>>);

impl DeepView for ChannelItem {
    type V = ItemModel;

    open spec fn deep_view(&self) -> ItemModel {
        (self.title.deep_view(), self.link.deep_view(), self.pub_date.deep_view())
    }
}

/// What the feed-document parser yields on a byte stream: the ordered list
/// of entries with their raw title, link and publish timestamp, or nothing
/// where the bytes are not a well-formed feed document.
pub uninterp spec fn channel_entries(bytes: Seq<u8>) -> Option<Seq<ItemModel>>;

/// Relies on rss's `Channel::read_from`: the parse result is a function of
/// the bytes alone, and each entry's title, link and publish date are
/// carried over unchanged.
#[verifier::external_body]
fn read_channel(bytes: &Vec<u8>) -> (r: Option<Vec<ChannelItem>>)
    ensures
        match r {
            Some(v) => channel_entries(bytes@) == Some(v.deep_view()),
            None => channel_entries(bytes@) is None,
        },
{
    match rss::Channel::read_from(&bytes[..]) {
        Ok(channel) => Some(
            channel.items.into_iter().map(
                |i| ChannelItem { title: i.title, link: i.link, pub_date: i.pub_date },
            ).collect(),
        ),
        Err(_) => None,
    }
}

/// An entry passes a cutoff when there is no cutoff, when it carries no raw
/// timestamp, when its timestamp normalizes to a date on or after the
/// cutoff, or when its timestamp does not normalize at all: undated and
/// unparseable entries are treated as current (fail-open).
pub open spec fn spec_keeps_cutoff(pd: Option<Seq<char>>, cutoff: Option<Date>) -> bool {
    match cutoff {
        None => true,
        Some(c) => match pd {
            None => true,
            Some(s) => match spec_parse_date(s) {
                Some(d) => spec_ymd_le(date_model(c), d),
                None => true,
            },
        },
    }
}

/// `a` is on or before `b` in calendar order, over bare year-month-day
/// triples.
pub open spec fn spec_ymd_le(a: (int, int, int), b: (int, int, int)) -> bool {
    ||| a.0 < b.0
    ||| (a.0 == b.0 && a.1 < b.1)
    ||| (a.0 == b.0 && a.1 == b.1 && a.2 <= b.2)
}

pub fn keeps_cutoff(pd: &Option<String>, cutoff: &Option<Date>) -> (r: bool)
    ensures
        r == spec_keeps_cutoff(pd.deep_view(), *cutoff),
{
    match cutoff {
        None => true,
        Some(c) => match pd {
            None => true,
            Some(s) => match parse_date(s) {
                Some(d) => date_le(c, &d),
                None => true,
            },
        },
    }
}

/// The entries of one feed document that pass the cutoff, in their original
/// order.
pub open spec fn spec_cutoff_filter(items: Seq<ItemModel>, cutoff: Option<Date>) -> Seq<ItemModel>
    decreases items.len(),
{
    if items.len() == 0 {
        Seq::empty()
    } else {
        let rest = spec_cutoff_filter(items.drop_last(), cutoff);
        if spec_keeps_cutoff(items.last().2, cutoff) {
            rest.push(items.last())
        } else {
            rest
        }
    }
}

pub fn filter_by_cutoff(items: Vec<ChannelItem>, cutoff: &Option<Date>) -> (r: Vec<ChannelItem>)
    ensures
        r.deep_view() =~= spec_cutoff_filter(items.deep_view(), *cutoff),
{
    let ghost orig = items.deep_view();
    let mut items = items;
    let mut out: Vec<ChannelItem> = Vec::new();
    let ghost mut done: int = 0;
    proof {
        assert(orig.take(0) =~= Seq::<ItemModel>::empty());
        assert(items.deep_view() =~= orig.skip(0));
    }
    while items.len() > 0
        invariant
            0 <= done <= orig.len(),
            items.deep_view() =~= orig.skip(done),
            out.deep_view() =~= spec_cutoff_filter(orig.take(done), *cutoff),
        decreases items@.len(),
    {
        proof {
            assert(items@.len() > 0);
            assert(items.deep_view().len() == items@.len());
            assert(orig.skip(done).len() == items.deep_view().len());
            assert(done < orig.len());
        }
        let ghost pre = items@;
        let ghost pre_deep = items.deep_view();
        let it = items.remove(0);
        let keep = keeps_cutoff(&it.pub_date, cutoff);
        proof {
            assert(it.deep_view() == orig.skip(done)[0]);
            assert(orig.skip(done)[0] == orig[done]);
            assert forall|j: int| 0 <= j < items.deep_view().len() implies items.deep_view()[j]
                == orig.skip(done + 1)[j] by {
                assert(items@[j] == pre[j + 1]);
                assert(items.deep_view()[j] == items@[j].deep_view());
                assert(pre_deep[j + 1] == pre[j + 1].deep_view());
                assert(pre_deep[j + 1] == orig.skip(done)[j + 1]);
                assert(orig.skip(done)[j + 1] == orig[done + 1 + j]);
                assert(orig.skip(done + 1)[j] == orig[done + 1 + j]);
            }
            assert(items.deep_view().len() == orig.skip(done + 1).len());
            assert(items.deep_view() =~= orig.skip(done + 1));
            assert(orig.take(done + 1).drop_last() =~= orig.take(done));
            assert(orig.take(done + 1).last() == orig[done]);
        }
        if keep {
            out.push(it);
        }
        proof {
            done = done + 1;
        }
    }
    proof {
        assert(done == orig.len());
        assert(orig.take(done) =~= orig);
    }
    out
}

/// Parses a fetched feed document and applies the source's own cutoff to
/// its entries; nothing where the document does not parse.
pub fn get_rss_items(source: &Source, body: &Vec<u8>) -> (r: Option<Vec<ChannelItem>>)
    ensures
        match r {
            Some(v) => channel_entries(body@) is Some && v.deep_view() =~= spec_cutoff_filter(
                channel_entries(body@)->Some_0,
                source.offset_date,
            ),
            None => channel_entries(body@) is None,
        },
{
    match read_channel(body) {
        Some(items) => Some(filter_by_cutoff(items, &source.offset_date)),
        None => None,
    }
}

} // verus!
