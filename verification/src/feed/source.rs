use vstd::prelude::*;
use vstd::string::StrSliceExecFns;
use crate::dates::{date_valid, spec_sub_months, sub_months, Date};
use crate::notion::models::{
    find_property, page_link, spec_find_property, spec_page_link, Page, PropertyValue, RichText,
};

verus! {

/// A feed to ingest: its document URL and, where a recency offset is
/// configured, the earliest publish date its items may carry.
#[derive(Clone, Debug)]
pub struct Source {
    pub link: String,
    pub offset_date: Option<Date>,
}

pub open spec fn spec_digit(c: char) -> bool {
    '0' as u32 <= c as u32 && c as u32 <= '9' as u32
}

pub open spec fn spec_digit_val(c: char) -> int {
    c as u32 - '0' as u32
}

pub open spec fn all_digits(s: Seq<char>) -> bool {
    forall|i: int| 0 <= i < s.len() ==> spec_digit(s[i])
}

/// The number a run of decimal digits denotes.
pub open spec fn digits_val(s: Seq<char>) -> int
    decreases s.len(),
{
    if s.len() == 0 {
        0
    } else {
        digits_val(s.drop_last()) * 10 + spec_digit_val(s.last())
    }
}

pub open spec fn singular_label() -> Seq<char> {
    seq!['1', ' ', 'm', 'o', 'n', 't', 'h']
}

pub open spec fn plural_suffix() -> Seq<char> {
    seq![' ', 'm', 'o', 'n', 't', 'h', 's']
}

/// The digit run in front of the ` months` suffix.
pub open spec fn plural_count(s: Seq<char>) -> Seq<char> {
    s.take(s.len() - 7)
}

/// A plural offset label: a decimal count of at least two months, without a
/// leading zero, followed by the ` months` suffix.
pub open spec fn is_plural_label(s: Seq<char>) -> bool {
    &&& s.len() >= 8
    &&& s.skip(s.len() - 7) == plural_suffix()
    &&& all_digits(plural_count(s))
    &&& s[0] != '0'
    &&& digits_val(plural_count(s)) >= 2
}

/// The month offset a free-text label yields: `1 month` (exactly, singular)
/// names one month; `N months` (N at least two, plural) names N, except that
/// a count beyond `u32` is out of range and names zero; any other phrasing,
/// including a mismatched singular or plural, is no offset at all.
pub open spec fn spec_extract_offset(s: Seq<char>) -> Option<u32> {
    if s == singular_label() {
        Some(1u32)
    } else if is_plural_label(s) {
        if digits_val(plural_count(s)) <= u32::MAX {
            Some(digits_val(plural_count(s)) as u32)
        } else {
            Some(0u32)
        }
    } else {
        None
    }
}

pub fn extract_offset(input: &String) -> (r: Option<u32>)
    ensures
        r == spec_extract_offset(input@),
{
    let s = input.as_str();
    let n = s.unicode_len();
    if n == 7 {
        if s.get_char(0) == '1' && s.get_char(1) == ' ' && s.get_char(2) == 'm' && s.get_char(3)
            == 'o' && s.get_char(4) == 'n' && s.get_char(5) == 't' && s.get_char(6) == 'h' {
            proof {
                assert(s@ =~= singular_label());
            }
            return Some(1);
        }
        return None;
    }
    if n < 8 {
        return None;
    }
    let k = n - 7;
    if !(s.get_char(k) == ' ' && s.get_char(k + 1) == 'm' && s.get_char(k + 2) == 'o' && s.get_char(
        k + 3,
    ) == 'n' && s.get_char(k + 4) == 't' && s.get_char(k + 5) == 'h' && s.get_char(k + 6) == 's') {
        proof {
            assert(s@.skip(k as int) != plural_suffix());
        }
        return None;
    }
    proof {
        assert(s@.skip(k as int) =~= plural_suffix());
    }
    if s.get_char(0) == '0' {
        return None;
    }
    let mut acc: u64 = 0;
    let mut over = false;
    let mut i: usize = 0;
    while i < k
        invariant
            input@ == s@,
            s@.len() == n,
            8 <= n,
            k == n - 7,
            i <= k,
            s@.skip(k as int) == plural_suffix(),
            s@[0] != '0',
            all_digits(s@.take(i as int)),
            !over ==> acc == digits_val(s@.take(i as int)) && acc <= u32::MAX,
            over ==> digits_val(s@.take(i as int)) > u32::MAX,
        decreases k - i,
    {
        let c = s.get_char(i);
        let cu = c as u32;
        if cu < '0' as u32 || cu > '9' as u32 {
            proof {
                assert(!spec_digit(s@[i as int]));
                assert(plural_count(s@)[i as int] == s@[i as int]);
            }
            return None;
        }
        proof {
            assert(s@.take(i as int + 1).drop_last() =~= s@.take(i as int));
            assert(s@.take(i as int + 1).last() == s@[i as int]);
        }
        if !over {
            acc = acc * 10 + ((cu - '0' as u32) as u64);
            if acc > 0xFFFF_FFFF {
                over = true;
            }
        }
        i = i + 1;
    }
    proof {
        assert(s@.take(k as int) =~= plural_count(s@));
    }
    if over {
        return Some(0);
    }
    if acc < 2 {
        return None;
    }
    Some(acc as u32)
}

/// The offset label a source record carries: the content of the first
/// styled-text run of its `Offset date` text property.
pub open spec fn spec_offset_label(page: Page) -> Option<Seq<char>> {
    match page.properties {
        Some(props) => match spec_find_property(props@, "Offset date"@) {
            Some(PropertyValue::Text { rich_text }) => if rich_text@.len() > 0 {
                match rich_text@[0] {
                    RichText::Text { rich_text: _, text } => Some(text.content@),
                }
            } else {
                None
            },
            _ => None,
        },
        None => None,
    }
}

/// The month offset a source record resolves to: what its offset label
/// yields, or zero where there is no label or the label yields nothing.
pub open spec fn spec_offset_months(page: Page) -> u32 {
    match spec_offset_label(page) {
        Some(lbl) => match spec_extract_offset(lbl) {
            Some(m) => m,
            None => 0u32,
        },
        None => 0u32,
    }
}

/// The recency cutoff a source record resolves to: its offset in calendar
/// months before `today`, and none where the offset is zero or the
/// subtraction leaves the supported year range.
pub open spec fn spec_cutoff(page: Page, today: Date) -> Option<Date> {
    if spec_offset_months(page) > 0 {
        spec_sub_months(today, spec_offset_months(page) as int)
    } else {
        None
    }
}

fn offset_label(page: &Page) -> (r: Option<String>)
    ensures
        match r {
            Some(l) => spec_offset_label(*page) == Some(l@),
            None => spec_offset_label(*page) is None,
        },
{
    match &page.properties {
        Some(props) => {
            let name: String = "Offset date".to_owned();
            match find_property(props, &name) {
                Some(PropertyValue::Text { rich_text }) => {
                    if rich_text.len() > 0 {
                        match &rich_text[0] {
                            RichText::Text { rich_text: _, text } => Some(text.content.clone()),
                        }
                    } else {
                        None
                    }
                },
                _ => None,
            }
        },
        None => None,
    }
}

impl DeepView for Source {
    type V = (Seq<char>, Option<Date>);

    open spec fn deep_view(&self) -> (Seq<char>, Option<Date>) {
        (self.link@, self.offset_date)
    }
}

/// The sources the given sink records resolve to, in record order: each
/// record's link paired with its own cutoff; records without a resolvable
/// link are dropped.
pub open spec fn spec_resolve_sources(pages: Seq<Page>, today: Date) -> Seq<
    (Seq<char>, Option<Date>),
>
    decreases pages.len(),
{
    if pages.len() == 0 {
        Seq::empty()
    } else {
        let rest = spec_resolve_sources(pages.drop_last(), today);
        match spec_page_link(pages.last()) {
            Some(l) => rest.push((l, spec_cutoff(pages.last(), today))),
            None => rest,
        }
    }
}

pub fn resolve_sources(pages: &Vec<Page>, today: Date) -> (r: Vec<Source>)
    requires
        date_valid(today),
    ensures
        r.deep_view() =~= spec_resolve_sources(pages@, today),
{
    let mut out: Vec<Source> = Vec::new();
    let mut i: usize = 0;
    proof {
        assert(pages@.take(0) =~= Seq::<Page>::empty());
    }
    while i < pages.len()
        invariant
            date_valid(today),
            i <= pages@.len(),
            out.deep_view() =~= spec_resolve_sources(pages@.take(i as int), today),
        decreases pages@.len() - i,
    {
        let ghost pre = out@;
        proof {
            assert(pages@.take(i as int + 1).drop_last() =~= pages@.take(i as int));
            assert(pages@.take(i as int + 1).last() == pages@[i as int]);
        }
        if let Some(src) = Source::new(&pages[i], today) {
            out.push(src);
            proof {
                crate::feed::pipeline::lemma_deep_of_vec(&out);
                crate::feed::pipeline::lemma_deep_of_push(pre, out@.last());
                assert(out.deep_view() =~= spec_resolve_sources(pages@.take(i as int + 1), today));
            }
        }
        i = i + 1;
    }
    proof {
        assert(pages@.take(pages@.len() as int) =~= pages@);
    }
    out
}

impl Source {
    /// Resolves a sink record to a source: its link, with the cutoff derived
    /// from its offset label and `today`; a record without a resolvable link
    /// yields no source.
    pub fn new(page: &Page, today: Date) -> (r: Option<Source>)
        requires
            date_valid(today),
        ensures
            match r {
                Some(src) => {
                    &&& spec_page_link(*page) == Some(src.link@)
                    &&& src.offset_date == spec_cutoff(*page, today)
                    &&& src.offset_date is Some ==> date_valid(src.offset_date->Some_0)
                },
                None => spec_page_link(*page) is None,
            },
    {
        let link = page_link(page);
        let label = offset_label(page);
        let offset: u32 = match &label {
            Some(l) => match extract_offset(l) {
                Some(m) => m,
                None => 0,
            },
            None => 0,
        };
        let offset_date: Option<Date> = if offset > 0 {
            sub_months(&today, offset)
        } else {
            None
        };
        match link {
            Some(link) => Some(Source { link, offset_date }),
            None => None,
        }
    }
}

} // verus!
