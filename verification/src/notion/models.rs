use vstd::prelude::*;
use crate::dates::Timestamp;

verus! {

/// Styling and link metadata a rich-text run may carry.
#[derive(Clone, Debug, PartialEq, Eq)]
pub struct RichTextProperties {
    pub plain_text: String,
    pub href: Option<String>,
}

#[derive(Clone, Debug, PartialEq, Eq)]
pub struct Link {
    pub url: String,
}

#[derive(Clone, Debug, PartialEq, Eq)]
pub struct Text {
    pub content: String,
    pub link: Option<Link>,
}

/// One styled-text run of a rich-text property.
#[derive(Clone, Debug, PartialEq, Eq)]
pub enum RichText {
    Text { rich_text: Option<RichTextProperties>, text: Text },
}

/// A date property payload: a start timestamp and an optional end.
#[derive(Clone, Copy, Debug, PartialEq, Eq)]
pub struct DateValue {
    pub start: Option<Timestamp>,
    pub end: Option<Timestamp>,
}

/// The closed set of property kinds the pipeline reads and writes; records
/// may carry further kinds, which the pipeline ignores.
#[derive(Clone, Debug, PartialEq, Eq)]
pub enum PropertyValue {
    Title { title: Vec<RichText> },
    Text { rich_text: Vec<RichText> },
    Url { url: Option<String> },
    Checkbox { checkbox: bool },
    Formula { expression: Option<String> },
    CreatedTime { created_time: Timestamp },
    Date { date: Option<DateValue> },
}

#[derive(Clone, Debug, PartialEq, Eq)]
pub struct Parent {
    pub parent_type: String,
    pub database_id: Option<String>,
}

/// One record of the sink, its properties an ordered list of named values;
/// unknown property names are carried along and ignored.
#[derive(Clone, Debug, PartialEq, Eq)]
pub struct Page {
    pub id: String,
    pub archived: bool,
    pub parent: Option<Parent>,
    pub properties: Option<Vec<(String, PropertyValue)>>,
}

/// The first property of the list carrying the given name, if any.
pub open spec fn spec_find_property(
    props: Seq<(String, PropertyValue)>,
    name: Seq<char>,
) -> Option<PropertyValue>
    decreases props.len(),
{
    if props.len() == 0 {
        None
    } else if props[0].0@ == name {
        Some(props[0].1)
    } else {
        spec_find_property(props.drop_first(), name)
    }
}

pub fn find_property<'a>(props: &'a Vec<(String, PropertyValue)>, name: &String) -> (r: Option<
    &'a PropertyValue,
>)
    ensures
        match r {
            Some(v) => spec_find_property(props@, name@) == Some(*v),
            None => spec_find_property(props@, name@) is None,
        },
{
    let mut i: usize = 0;
    proof {
        assert(props@.skip(0) =~= props@);
    }
    while i < props.len()
        invariant
            i <= props@.len(),
            spec_find_property(props@, name@) == spec_find_property(
                props@.skip(i as int),
                name@,
            ),
        decreases props@.len() - i,
    {
        if props[i].0 == *name {
            proof {
                assert(props@.skip(i as int)[0] == props@[i as int]);
            }
            return Some(&props[i].1);
        }
        proof {
            assert(props@.skip(i as int).drop_first() =~= props@.skip(i as int + 1));
        }
        i = i + 1;
    }
    proof {
        assert(props@.skip(i as int).len() == 0);
    }
    None
}

/// The link a record resolves to: its `Link` property, where that is a URL
/// property holding a value.
pub open spec fn spec_page_link(page: Page) -> Option<Seq<char>> {
    match page.properties {
        Some(props) => match spec_find_property(props@, "Link"@) {
            Some(PropertyValue::Url { url }) => match url {
                Some(u) => Some(u@),
                None => None,
            },
            _ => None,
        },
        None => None,
    }
}

pub fn page_link(page: &Page) -> (r: Option<String>)
    ensures
        match r {
            Some(l) => spec_page_link(*page) == Some(l@),
            None => spec_page_link(*page) is None,
        },
{
    match &page.properties {
        Some(props) => {
            let name: String = "Link".to_owned();
            match find_property(props, &name) {
                Some(PropertyValue::Url { url }) => match url {
                    Some(u) => Some(u.clone()),
                    None => None,
                },
                _ => None,
            }
        },
        None => None,
    }
}

} // verus!
