use vstd::prelude::*;
use crate::notion::models::Page;

verus! {

/// Which of the two sink collections a query addresses: the configured feed
/// sources or the recorded feed entries.
#[derive(Clone, Copy, PartialEq, Eq, Structural, Debug)]
pub enum DatabaseKind {
    Source,
    Feed,
}

#[derive(Clone, Debug, PartialEq, Eq)]
pub struct DatabaseSort {
    pub property: Option<String>,
    /// created_time or last_edited_time
    pub timestamp: Option<String>,
    /// ascending or descending
    pub direction: String,
}

#[derive(Clone, Debug, PartialEq, Eq)]
pub enum FilterKind {
    Text { equals: String },
    Checkbox { equals: bool },
}

#[derive(Clone, Debug, PartialEq, Eq)]
pub struct Filter {
    pub property: String,
    pub kind: FilterKind,
}

/// Either a single predicate or a named group of predicates (the group name
/// being the logical connective, such as "or").
#[derive(Clone, Debug, PartialEq, Eq)]
pub enum DatabaseFilter {
    Property { filter: Filter },
    Compound { filter: Vec<(String, Vec<Filter>)> },
}

#[derive(Clone, Debug, PartialEq, Eq)]
pub struct DatabaseQuery {
    pub start_cursor: Option<String>,
    pub page_size: Option<i32>,
    pub filter: Option<DatabaseFilter>,
    pub sorts: Option<Vec<DatabaseSort>>,
}

/// One page of query results, with the provider's opaque cursor to the next
/// page and its word on whether more pages remain.
#[derive(Clone, Debug, PartialEq, Eq)]
pub struct Pages {
    pub object: String,
    pub next_cursor: Option<String>,
    pub has_more: bool,
    pub results: Vec<Page>,
}

/// The query that resolves the active sources: records whose `Enabled`
/// checkbox is set, phrased as an OR group of one equals-true condition so
/// that further conditions can be OR'd in.
pub fn source_query() -> (q: DatabaseQuery)
    ensures
        q.start_cursor is None,
        q.page_size is None,
        q.sorts is None,
        match q.filter {
            Some(DatabaseFilter::Compound { filter }) => {
                &&& filter@.len() == 1
                &&& filter@[0].0@ == "or"@
                &&& filter@[0].1@.len() == 1
                &&& filter@[0].1@[0].property@ == "Enabled"@
                &&& filter@[0].1@[0].kind == (FilterKind::Checkbox { equals: true })
            },
            _ => false,
        },
{
    let condition = Filter {
        property: "Enabled".to_owned(),
        kind: FilterKind::Checkbox { equals: true },
    };
    let mut group: Vec<Filter> = Vec::new();
    group.push(condition);
    let mut compound: Vec<(String, Vec<Filter>)> = Vec::new();
    compound.push(("or".to_owned(), group));
    DatabaseQuery {
        start_cursor: None,
        page_size: None,
        filter: Some(DatabaseFilter::Compound { filter: compound }),
        sorts: None,
    }
}

/// The query for one page of the full enumeration of a collection: no
/// filter, the provider's default page size, and the given cursor.
pub fn feed_query(cursor: &Option<String>) -> (q: DatabaseQuery)
    ensures
        q.page_size is None,
        q.filter is None,
        q.sorts is None,
        match *cursor {
            Some(c) => q.start_cursor is Some && q.start_cursor->0@ == c@,
            None => q.start_cursor is None,
        },
{
    DatabaseQuery {
        start_cursor: match cursor {
            Some(c) => Some(c.clone()),
            None => None,
        },
        page_size: None,
        filter: None,
        sorts: None,
    }
}

/// The state of a paginated enumeration: the records gathered so far, the
/// cursor to hand to the next query, and whether the provider has said that
/// no pages remain.
pub struct PageCollector {
    pub pages: Vec<Page>,
    pub cursor: Option<String>,
    pub done: bool,
}

impl PageCollector {
    pub fn new() -> (r: PageCollector)
        ensures
            r.pages@ =~= Seq::<Page>::empty(),
            r.cursor is None,
            !r.done,
    {
        PageCollector { pages: Vec::new(), cursor: None, done: false }
    }

    /// The query that fetches the next page of the enumeration.
    pub fn next_query(&self) -> (q: DatabaseQuery)
        ensures
            q.page_size is None,
            q.filter is None,
            q.sorts is None,
            match self.cursor {
                Some(c) => q.start_cursor is Some && q.start_cursor->0@ == c@,
                None => q.start_cursor is None,
            },
    {
        feed_query(&self.cursor)
    }

    /// Folds one page of results into the enumeration: the records are
    /// appended, the cursor replaced by the provider's next-cursor value,
    /// and the enumeration is done exactly when the provider reports that
    /// no more pages remain.
    pub fn absorb(&mut self, batch: Pages)
        ensures
            final(self).pages@ =~= old(self).pages@ + batch.results@,
            final(self).cursor == batch.next_cursor,
            final(self).done == !batch.has_more,
    {
        let mut results = batch.results;
        self.pages.append(&mut results);
        self.cursor = batch.next_cursor;
        self.done = !batch.has_more;
    }
}

} // verus!
