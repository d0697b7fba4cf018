//! The Albert Heijn product catalogue: paging of the stored catalogue, when
//! it is refreshed, and the walk over the API that refreshes it.

use vstd::prelude::*;

use crate::time::{decode_timestamp, elapsed_at_least, has_elapsed, parsed_utc_datetime, Timestamp};

pub mod error;

verus! {

/// Products on one page of the stored catalogue.
pub const PAGE_SIZE: i64 = 50;

/// The cache key of the time of the last refresh.
pub const LAST_REFRESH_KEY: &'static str = "ah:last_refresh";

/// Hours after which the catalogue is refreshed when the server starts.
pub const REFRESH_AFTER_HOURS: i64 = 24;

/// Products asked for per page of a search.
pub const SEARCH_PAGE_LIMIT: usize = 500;

/// The offset of a page of the stored catalogue.
pub fn page_offset(page: usize) -> (r: i64)
    requires
        (page as i64) * PAGE_SIZE <= i64::MAX,
        (page as i64) * PAGE_SIZE >= i64::MIN,
    ensures
        r == (page as i64) * PAGE_SIZE,
{
    (page as i64) * PAGE_SIZE
}

/// `page_offset` for any page: `None` where the offset does not fit.
pub fn checked_page_offset(page: usize) -> (r: Option<i64>)
    ensures
        r matches Some(o) ==> o == (page as i64) * PAGE_SIZE,
        r is None <==> !(i64::MIN <= (page as i64) * PAGE_SIZE <= i64::MAX),
{
    let p = page as i64;
    if p > i64::MAX / PAGE_SIZE || p < i64::MIN / PAGE_SIZE {
        None
    } else {
        Some(page_offset(page))
    }
}

/// Whether the catalogue must be refreshed now: it never was, or the last
/// refresh is at least a day old.
pub fn needs_refresh(last: Option<Timestamp>, now: Timestamp) -> (b: bool)
    requires
        now.wf(),
        last matches Some(t) ==> t.wf(),
    ensures
        b == elapsed_at_least(last, now, REFRESH_AFTER_HOURS as int),
{
    has_elapsed(last, now, REFRESH_AFTER_HOURS)
}

/// Reads back the time of the last refresh; stored text that is not a time
/// is an operation failure.
pub fn decode_last_refresh(stored: Option<&str>) -> (r: Result<Option<Timestamp>, error::Error>)
    ensures
        stored is None ==> (r matches Ok(None)),
        stored matches Some(s) ==> match parsed_utc_datetime(s@) {
            Some(t) => r matches Ok(Some(u)) && u == t,
            None => r matches Err(error::Error::OperationFailed { msg }) && msg@ == "parse date time"@,
        },
{
    match decode_timestamp(stored) {
        Ok(t) => Ok(t),
        Err(_) => Err(error::Error::OperationFailed { msg: "parse date time" }),
    }
}

/// Categories that hold no food; the refresh skips them.
pub open spec fn is_skipped_category(id: int) -> bool {
    id == 20603 || id == 1057 || id == 18519 || id == 18521 || id == 1165 || id == 11717 || id
        == 1045
}

pub fn skips_category(id: i64) -> (b: bool)
    ensures
        b == is_skipped_category(id as int),
{
    id == 20603 || id == 1057 || id == 18519 || id == 18521 || id == 1165 || id == 11717 || id
        == 1045
}

/// Whether a refresh searches a category.
pub open spec fn walked() -> spec_fn(i64) -> bool {
    |id: i64| !is_skipped_category(id as int)
}

/// The categories a refresh walks, in the order given.
pub open spec fn walked_categories(ids: Seq<i64>) -> Seq<i64> {
    ids.filter(walked())
}

/// The categories a refresh skips are exactly the seven that hold no food
/// (20603, 1057, 18519, 18521, 1165, 11717 and 1045): of the categories it
/// is given, the walk keeps every other one and none of these.
pub proof fn lemma_walk_skips_non_food(ids: Seq<i64>, x: i64)
    ensures
        is_skipped_category(x as int) <==> (x == 20603 || x == 1057 || x == 18519 || x == 18521
            || x == 1165 || x == 11717 || x == 1045),
        walked_categories(ids).contains(x) <==> (ids.contains(x) && !(x == 20603 || x == 1057 || x
            == 18519 || x == 18521 || x == 1165 || x == 11717 || x == 1045)),
{
    let f = walked_categories(ids);
    if f.contains(x) {
        ids.lemma_filter_contains_rev(walked(), x);
        let k = choose|k: int| 0 <= k < f.len() && f[k] == x;
        ids.lemma_filter_pred(walked(), k);
        assert(walked()(f[k]));
    }
    if ids.contains(x) && !is_skipped_category(x as int) {
        let k = choose|k: int| 0 <= k < ids.len() && ids[k] == x;
        ids.lemma_filter_contains(walked(), k);
    }
}

/// Where a refresh of the catalogue stands: which category it searches, on
/// which page, and how many pages the API last said that category has.
pub struct RefreshWalk {
    categories: Vec<i64>,
    index: usize,
    page: usize,
    page_count: usize,
}

impl RefreshWalk {
    pub closed spec fn spec_categories(&self) -> Seq<i64> {
        self.categories@
    }

    pub closed spec fn spec_index(&self) -> nat {
        self.index as nat
    }

    pub closed spec fn spec_page(&self) -> nat {
        self.page as nat
    }

    pub closed spec fn spec_page_count(&self) -> nat {
        self.page_count as nat
    }

    /// The walk is before the end, or at it, and on a page it still has to
    /// fetch.
    pub closed spec fn wf(&self) -> bool {
        &&& self.index <= self.categories@.len()
        &&& self.page < self.page_count
    }

    /// A walk over the food categories among `ids`, at the first page of the
    /// first one.
    pub fn new(ids: &Vec<i64>) -> (w: RefreshWalk)
        ensures
            w.wf(),
            w.spec_categories() == walked_categories(ids@),
            w.spec_index() == 0,
            w.spec_page() == 0,
            w.spec_page_count() == 1,
    {
        let mut categories: Vec<i64> = Vec::new();
        let mut i: usize = 0;
        while i < ids.len()
            invariant
                i <= ids@.len(),
                categories@ == walked_categories(ids@.take(i as int)),
            decreases ids@.len() - i,
        {
            let id = ids[i];
            proof {
                assert(ids@.take(i + 1) =~= ids@.take(i as int).push(id));
                ids@.take(i as int).lemma_filter_push(id, walked());
            }
            if !skips_category(id) {
                categories.push(id);
            }
            i = i + 1;
        }
        proof {
            assert(ids@.take(ids@.len() as int) =~= ids@);
        }
        RefreshWalk { categories, index: 0, page: 0, page_count: 1 }
    }

    /// The next search: the category and the page, or `None` when the walk
    /// is over.
    pub fn next_search(&self) -> (r: Option<(i64, usize)>)
        requires
            self.wf(),
        ensures
            self.spec_index() < self.spec_categories().len() ==> r == Some(
                (self.spec_categories()[self.spec_index() as int], self.spec_page() as usize),
            ),
            self.spec_index() >= self.spec_categories().len() ==> r is None,
    {
        if self.index < self.categories.len() {
            Some((self.categories[self.index], self.page))
        } else {
            None
        }
    }

    /// Records the answer to the search of the current page: the number of
    /// pages the API reports for the category. The walk moves to the next
    /// page, or, past the last page, to the first page of the next
    /// category.
    pub fn record_page(&mut self, total_pages: i64)
        requires
            old(self).wf(),
            old(self).spec_index() < old(self).spec_categories().len(),
        ensures
            final(self).wf(),
            final(self).spec_categories() == old(self).spec_categories(),
            ({
                let next = old(self).spec_page() + 1;
                let count = (total_pages as usize) as nat;
                if next < count {
                    &&& final(self).spec_index() == old(self).spec_index()
                    &&& final(self).spec_page() == next
                    &&& final(self).spec_page_count() == count
                } else {
                    &&& final(self).spec_index() == old(self).spec_index() + 1
                    &&& final(self).spec_page() == 0
                    &&& final(self).spec_page_count() == 1
                }
            }),
    {
        let count = total_pages as usize;
        // The length of a vector fits in a usize, so the next index does too.
        let n = self.categories.len();
        assert(self.index < n);
        let next = self.page + 1;
        if next < count {
            self.page = next;
            self.page_count = count;
        } else {
            self.index = self.index + 1;
            self.page = 0;
            self.page_count = 1;
        }
    }
}

} // verus!
