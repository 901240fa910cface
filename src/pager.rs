use vstd::prelude::*;

use crate::model::{FilterPager, Reservation, ReservationFilter, MAX_PAGE_SIZE, MIN_PAGE_SIZE};
use crate::sql::fetch_limit;

verus! {

/// Where the page starts in the fetched rows: past the first row when it
/// is the cursor's own row.
pub open spec fn page_start(f: ReservationFilter, rows: Seq<Reservation>) -> int {
    if f.cursor is Some && rows.len() > 0 && rows[0].id == f.cursor->Some_0 {
        1
    } else {
        0
    }
}

/// More rows were fetched past the page than it holds.
pub open spec fn has_next_page(f: ReservationFilter, rows: Seq<Reservation>) -> bool {
    rows.len() - page_start(f, rows) > f.page_size
}

/// Where the page ends in the fetched rows.
pub open spec fn page_end(f: ReservationFilter, rows: Seq<Reservation>) -> int {
    if has_next_page(f, rows) {
        page_start(f, rows) + f.page_size
    } else {
        rows.len() as int
    }
}

/// The pager of a page: `prev` is present when the cursor's own row was
/// scanned first, and is the id of the page's first row, or the cursor's
/// when the page is empty; `next` is the id of its last row when more rows
/// follow it.
pub open spec fn pager_of(f: ReservationFilter, rows: Seq<Reservation>) -> FilterPager {
    let s = page_start(f, rows);
    let e = page_end(f, rows);
    FilterPager {
        prev: if s == 1 {
            if e > s {
                Some(rows[s].id)
            } else {
                Some(rows[0].id)
            }
        } else {
            None
        },
        next: if has_next_page(f, rows) {
            Some(rows[e - 1].id)
        } else {
            None
        },
        total: None,
    }
}

impl ReservationFilter {
    /// Splits the rows fetched for this filter into its page and the pager
    /// that places it.
    pub fn get_pager(&self, rows: Vec<Reservation>) -> (r: (FilterPager, Vec<Reservation>))
        requires
            MIN_PAGE_SIZE <= self.page_size <= MAX_PAGE_SIZE,
        ensures
            r.0 == pager_of(*self, rows@),
            r.1@ == rows@.subrange(page_start(*self, rows@), page_end(*self, rows@)),
            r.1@.len() <= self.page_size,
    {
        let mut data = rows;
        let cursor = match self.cursor {
            Some(c) => c,
            None => 0,
        };
        let has_prev = match self.cursor {
            Some(c) => data.len() > 0 && data[0].id == c,
            None => false,
        };
        if has_prev {
            data.remove(0);
        }
        assert(data@ =~= rows@.subrange(page_start(*self, rows@), rows@.len() as int));
        let page_size = self.page_size as usize;
        let has_next = data.len() > page_size;
        if has_next {
            data.truncate(page_size);
        }
        assert(data@ =~= rows@.subrange(page_start(*self, rows@), page_end(*self, rows@)));
        let prev = if !has_prev {
            None
        } else if data.len() > 0 {
            Some(data[0].id)
        } else {
            Some(cursor)
        };
        let next = if has_next {
            Some(data[page_size - 1].id)
        } else {
            None
        };
        (FilterPager { prev, next, total: None }, data)
    }

    /// The filter for the page after the one that `pager` places, if there is one.
    pub fn next_page(&self, pager: &FilterPager) -> (r: Option<ReservationFilter>)
        ensures
            match pager.next {
                Some(c) => r is Some && r->Some_0.cursor == Some(c) && r->Some_0.user_id@ == self.user_id@
                    && r->Some_0.resource_id@ == self.resource_id@ && r->Some_0.status == self.status
                    && r->Some_0.page_size == self.page_size && r->Some_0.desc == self.desc,
                None => r is None,
            },
    {
        match pager.next {
            Some(c) => Some(
                ReservationFilter {
                    user_id: self.user_id.clone(),
                    resource_id: self.resource_id.clone(),
                    status: self.status,
                    cursor: Some(c),
                    page_size: self.page_size,
                    desc: self.desc,
                },
            ),
            None => None,
        }
    }
}

/// The page holds at most `page_size` rows; `prev` is present exactly when
/// a cursor was given and the first fetched row is the cursor's own; `next`
/// is present exactly when rows beyond the page were fetched.
pub proof fn lemma_pager_shape(f: ReservationFilter, rows: Seq<Reservation>)
    requires
        MIN_PAGE_SIZE <= f.page_size <= MAX_PAGE_SIZE,
    ensures
        page_end(f, rows) - page_start(f, rows) <= f.page_size,
        pager_of(f, rows).prev is Some <==> (f.cursor is Some && rows.len() > 0 && rows[0].id
            == f.cursor->Some_0),
        pager_of(f, rows).next is Some <==> rows.len() - page_start(f, rows) > f.page_size,
{
}

/// `id` is at or past the cursor `c` in scan order.
pub open spec fn at_or_beyond(desc: bool, id: i64, c: i64) -> bool {
    if desc {
        id <= c
    } else {
        id >= c
    }
}

/// `id` is strictly past the cursor `c` in scan order.
pub open spec fn strictly_beyond(desc: bool, id: i64, c: i64) -> bool {
    if desc {
        id < c
    } else {
        id > c
    }
}

/// The matching rows in scan order: ids strictly increasing, or strictly
/// decreasing for a descending filter.
pub open spec fn scan_ordered(all: Seq<Reservation>, desc: bool) -> bool {
    forall|i: int, j: int|
        0 <= i < j < all.len() ==> if desc {
            all[i].id > all[j].id
        } else {
            all[i].id < all[j].id
        }
}

/// The first position at or after `k` whose row is at or past `c`.
pub open spec fn scan_from(all: Seq<Reservation>, desc: bool, c: i64, k: int) -> int
    decreases all.len() - k,
{
    if k < 0 || k >= all.len() {
        all.len() as int
    } else if at_or_beyond(desc, all[k].id, c) {
        k
    } else {
        scan_from(all, desc, c, k + 1)
    }
}

/// Where the stored filter starts its scan of the matching rows `all`: at
/// the first row at or past the cursor, at the start without one.
pub open spec fn scan_start(all: Seq<Reservation>, f: ReservationFilter) -> int {
    match f.cursor {
        Some(c) => scan_from(all, f.desc, c, 0),
        None => 0,
    }
}

/// The rows the stored filter returns for `f`: `fetch_limit(f)` rows of
/// `all` from where its scan starts.
pub open spec fn store_fetch(all: Seq<Reservation>, f: ReservationFilter) -> Seq<Reservation> {
    let s = scan_start(all, f);
    all.subrange(s, if s + fetch_limit(f) < all.len() {
        s + fetch_limit(f)
    } else {
        all.len() as int
    })
}

/// The first position of `all` past the cursor: the matching rows the
/// filter has not yet shown start there.
pub open spec fn past_cursor(all: Seq<Reservation>, f: ReservationFilter) -> int {
    let s = scan_start(all, f);
    if f.cursor is Some && s < all.len() && all[s].id == f.cursor->Some_0 {
        s + 1
    } else {
        s
    }
}

/// The page that `get_pager` cuts from what the store returned.
pub open spec fn page_of(f: ReservationFilter, rows: Seq<Reservation>) -> Seq<Reservation> {
    rows.subrange(page_start(f, rows), page_end(f, rows))
}

proof fn lemma_scan_from(all: Seq<Reservation>, desc: bool, c: i64, k: int)
    requires
        0 <= k <= all.len(),
    ensures
        k <= scan_from(all, desc, c, k) <= all.len(),
        scan_from(all, desc, c, k) < all.len() ==> at_or_beyond(desc, all[scan_from(all, desc, c, k)].id, c),
        forall|i: int| k <= i < scan_from(all, desc, c, k) ==> !at_or_beyond(desc, #[trigger] all[i].id, c),
    decreases all.len() - k,
{
    if k < all.len() && !at_or_beyond(desc, all[k].id, c) {
        lemma_scan_from(all, desc, c, k + 1);
    }
}

/// Each filter call shows the matching rows just past its cursor, whether
/// or not the cursor's own row still exists: at most `page_size` of them,
/// with `next` present exactly when more follow, naming the page's last
/// row, and `prev` present exactly when the cursor's row was scanned first.
/// In scan order, the rows from `past_cursor` on are exactly those strictly
/// past the cursor.
pub proof fn lemma_filter_page(all: Seq<Reservation>, f: ReservationFilter)
    requires
        MIN_PAGE_SIZE <= f.page_size <= MAX_PAGE_SIZE,
    ensures
        ({
            let rows = store_fetch(all, f);
            let b = past_cursor(all, f);
            let e = if b + f.page_size < all.len() {
                b + f.page_size
            } else {
                all.len() as int
            };
            &&& 0 <= b <= all.len()
            &&& page_of(f, rows) == all.subrange(b, e)
            &&& (pager_of(f, rows).next is Some <==> all.len() - b > f.page_size)
            &&& all.len() - b > f.page_size ==> pager_of(f, rows).next == Some(all[e - 1].id)
            &&& (pager_of(f, rows).prev is Some <==> b == scan_start(all, f) + 1)
        }),
        f.cursor is Some && scan_ordered(all, f.desc) ==> forall|k: int|
            0 <= k < all.len() ==> (strictly_beyond(f.desc, #[trigger] all[k].id, f.cursor->Some_0) <==> k
                >= past_cursor(all, f)),
{
    let rows = store_fetch(all, f);
    let s = scan_start(all, f);
    let b = past_cursor(all, f);
    if let Some(c) = f.cursor {
        lemma_scan_from(all, f.desc, c, 0);
        if scan_ordered(all, f.desc) {
            assert forall|k: int| 0 <= k < all.len() implies (strictly_beyond(f.desc, #[trigger] all[k].id, c)
                <==> k >= b) by {
                if k >= s && s < all.len() {
                    if k > s {
                        assert(if f.desc {
                            all[s].id > all[k].id
                        } else {
                            all[s].id < all[k].id
                        });
                    }
                }
            }
        }
    }
    if s < all.len() {
        assert(rows[0] == all[s]);
    }
    assert(page_start(f, rows) == b - s);
    let e = if b + f.page_size < all.len() {
        b + f.page_size
    } else {
        all.len() as int
    };
    assert(page_of(f, rows) =~= all.subrange(b, e));
}

/// The pages that a walk over the filter's `next` cursors shows, joined in
/// order, for at most `fuel` further calls.
pub open spec fn walk(all: Seq<Reservation>, f: ReservationFilter, fuel: nat) -> Seq<Reservation>
    decreases fuel,
{
    let rows = store_fetch(all, f);
    match pager_of(f, rows).next {
        Some(n) => if fuel > 0 {
            page_of(f, rows) + walk(all, ReservationFilter { cursor: Some(n), ..f }, (fuel - 1) as nat)
        } else {
            page_of(f, rows)
        },
        None => page_of(f, rows),
    }
}

proof fn lemma_scan_finds_row(all: Seq<Reservation>, desc: bool, m: int, k: int)
    requires
        scan_ordered(all, desc),
        0 <= k <= m < all.len(),
    ensures
        scan_from(all, desc, all[m].id, k) == m,
    decreases m - k,
{
    if k < m {
        assert(if desc {
            all[k].id > all[m].id
        } else {
            all[k].id < all[m].id
        });
        lemma_scan_finds_row(all, desc, m, k + 1);
    }
}

proof fn lemma_walk_from(all: Seq<Reservation>, f: ReservationFilter, m: int, fuel: nat)
    requires
        MIN_PAGE_SIZE <= f.page_size <= MAX_PAGE_SIZE,
        scan_ordered(all, f.desc),
        -1 <= m < all.len(),
        m == -1 ==> f.cursor is None,
        m >= 0 ==> f.cursor == Some(all[m].id),
        fuel >= all.len() - m - 1,
    ensures
        walk(all, f, fuel) == all.subrange(m + 1, all.len() as int),
    decreases fuel,
{
    if m >= 0 {
        lemma_scan_finds_row(all, f.desc, m, 0);
    }
    lemma_filter_page(all, f);
    assert(past_cursor(all, f) == m + 1);
    let rows = store_fetch(all, f);
    if all.len() - (m + 1) > f.page_size {
        let n = m + f.page_size;
        let g = ReservationFilter { cursor: Some(all[n].id), ..f };
        lemma_walk_from(all, g, n, (fuel - 1) as nat);
        assert(walk(all, f, fuel) =~= all.subrange(m + 1, all.len() as int));
    }
}

/// Following `next` from the first page until a page has none shows every
/// matching row exactly once, in scan order: the pages are disjoint, and
/// joined they are all the matching rows.
pub proof fn lemma_pages_cover(all: Seq<Reservation>, f: ReservationFilter)
    requires
        MIN_PAGE_SIZE <= f.page_size <= MAX_PAGE_SIZE,
        scan_ordered(all, f.desc),
        f.cursor is None,
    ensures
        walk(all, f, all.len() as nat) == all,
{
    lemma_walk_from(all, f, -1, all.len() as nat);
    assert(all.subrange(0, all.len() as int) =~= all);
}

} // verus!
