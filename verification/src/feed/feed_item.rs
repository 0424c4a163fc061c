use vstd::prelude::*;
use crate::notion::models::{page_link, spec_page_link, Page};

verus! {

/// An existing sink entry, relevant only for its identity: its link.
#[derive(Clone, Debug)]
pub struct FeedItem {
    pub link: String,
}

impl DeepView for FeedItem {
    type V = Seq<char>;

    open spec fn deep_view(&self) -> Seq<char> {
        self.link@
    }
}

impl FeedItem {
    /// Resolves a sink record to its identity; a record without a
    /// resolvable link yields no entry.
    pub fn new(page: &Page) -> (r: Option<FeedItem>)
        ensures
            match r {
                Some(item) => spec_page_link(*page) == Some(item.link@),
                None => spec_page_link(*page) is None,
            },
    {
        match page_link(page) {
            Some(link) => Some(FeedItem { link }),
            None => None,
        }
    }
}

} // verus!
