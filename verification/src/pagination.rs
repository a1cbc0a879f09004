//! Pagination: page/page-size clamping, offsets, total-page counts, and the
//! query parameters accepted by list endpoints.

use vstd::prelude::*;

use crate::text::str_eq;

verus! {

/// Total pages for a listing: the ceiling of `total_items / page_size`,
/// floored at 1 so an empty listing still has one (empty) page.
pub open spec fn spec_total_pages(total_items: int, page_size: int) -> int
    recommends
        page_size >= 1,
{
    let pages = (total_items + page_size - 1) / page_size;
    if pages < 1 {
        1
    } else {
        pages
    }
}

/// Pagination metadata attached to a listing response.
#[derive(Debug, Clone)]
pub struct PaginationMetadata {
    /// Current page number
    pub page: u32,
    /// Number of items per page
    pub page_size: u32,
    /// Total number of items
    pub total_items: i64,
    /// Total number of pages
    pub total_pages: u32,
}

impl PaginationMetadata {
    pub fn new(page: u32, page_size: u32, total_items: i64) -> (meta: Self)
        requires
            page_size >= 1,
            total_items >= 0,
            spec_total_pages(total_items as int, page_size as int) <= u32::MAX,
        ensures
            meta.page == page,
            meta.page_size == page_size,
            meta.total_items == total_items,
            meta.total_pages == spec_total_pages(total_items as int, page_size as int),
    {
        let whole: i64 = total_items / (page_size as i64);
        let remainder: i64 = total_items % (page_size as i64);
        proof {
            vstd::arithmetic::div_mod::lemma_fundamental_div_mod(total_items as int, page_size as int);
            vstd::arithmetic::div_mod::lemma_div_pos_is_pos(total_items as int, page_size as int);
            if remainder > 0 {
                assert(whole < total_items) by (nonlinear_arith)
                    requires
                        total_items as int == (page_size as int) * (whole as int) + (remainder as int),
                        remainder >= 1,
                        page_size >= 1,
                        whole >= 0,
                {}
            }
        }
        let pages: i64 = if remainder > 0 {
            whole + 1
        } else {
            whole
        };
        let total_pages: i64 = if pages < 1 {
            1
        } else {
            pages
        };
        proof {
            lemma_ceil_by_div_mod(total_items as int, page_size as int);
        }
        Self { page, page_size, total_items, total_pages: total_pages as u32 }
    }
}

/// A page of items together with its pagination metadata.
#[derive(Debug, Clone)]
pub struct PaginatedResponse<T> {
    /// The data items
    pub data: Vec<T>,
    /// Pagination metadata
    pub pagination: PaginationMetadata,
}

impl<T> PaginatedResponse<T> {
    pub fn new(data: Vec<T>, page: u32, page_size: u32, total_items: i64) -> (r: Self)
        requires
            page_size >= 1,
            total_items >= 0,
            spec_total_pages(total_items as int, page_size as int) <= u32::MAX,
        ensures
            r.data == data,
            r.pagination.page == page,
            r.pagination.page_size == page_size,
            r.pagination.total_items == total_items,
            r.pagination.total_pages == spec_total_pages(total_items as int, page_size as int),
    {
        Self { data, pagination: PaginationMetadata::new(page, page_size, total_items) }
    }
}

/// Query parameters accepted by the project list endpoint, all optional.
#[derive(Debug, Clone)]
pub struct ListQueryParams {
    /// Search text in name and description
    pub search: Option<String>,
    /// Filter by technology name
    pub technology: Option<String>,
    /// Filter by user ID
    pub user_id: Option<String>,
    /// Minimum rating filter, in hundredths (0 ..= 500)
    pub min_rating: Option<u16>,
    /// Maximum rating filter, in hundredths (0 ..= 500)
    pub max_rating: Option<u16>,
    /// Filter by language
    pub language: Option<String>,
    /// Field to sort by (name, created_at, updated_at, rating)
    pub sort: Option<String>,
    /// Sort order (asc, desc)
    pub order: Option<String>,
    /// Page number (default: 1)
    pub page: Option<u32>,
    /// Items per page (default: 10, max: 100)
    pub page_size: Option<u32>,
}

/// The effective page: defaults to 1, and non-positive input clamps up to 1.
pub open spec fn spec_page(p: &ListQueryParams) -> u32 {
    match p.page {
        Some(n) => if n < 1 {
            1
        } else {
            n
        },
        None => 1,
    }
}

/// The effective page size: defaults to 10, clamped into 1 ..= 100.
pub open spec fn spec_page_size(p: &ListQueryParams) -> u32 {
    match p.page_size {
        Some(n) => if n < 1 {
            1
        } else if n > 100 {
            100
        } else {
            n
        },
        None => 10,
    }
}

/// The effective sort column, drawn from a fixed allow-list; anything else
/// falls back to `created_at`.
pub open spec fn spec_sort_field(p: &ListQueryParams) -> Seq<char> {
    match p.sort {
        Some(s) => if s@ == "name"@ {
            "name"@
        } else if s@ == "created_at"@ {
            "created_at"@
        } else if s@ == "updated_at"@ {
            "updated_at"@
        } else if s@ == "rating"@ {
            "rating"@
        } else {
            "created_at"@
        },
        None => "created_at"@,
    }
}

/// The effective sort direction; anything but `asc` or `desc` falls back to
/// descending.
pub open spec fn spec_sort_order(p: &ListQueryParams) -> Seq<char> {
    match p.order {
        Some(s) => if s@ == "asc"@ {
            "ASC"@
        } else if s@ == "desc"@ {
            "DESC"@
        } else {
            "DESC"@
        },
        None => "DESC"@,
    }
}

impl ListQueryParams {
    /// The page number used, floored at 1.
    pub fn page(&self) -> (r: u32)
        ensures
            r == spec_page(self),
            r >= 1,
    {
        match self.page {
            Some(n) => if n < 1 {
                1
            } else {
                n
            },
            None => 1,
        }
    }

    /// The page size used: any request above 100 is cut to 100, any request
    /// below 1 is raised to 1, and an absent one is 10.
    pub fn page_size(&self) -> (r: u32)
        ensures
            r == spec_page_size(self),
            1 <= r <= 100,
    {
        match self.page_size {
            Some(n) => if n < 1 {
                1
            } else if n > 100 {
                100
            } else {
                n
            },
            None => 10,
        }
    }

    /// The row offset of the requested page.
    pub fn offset(&self) -> (r: u32)
        requires
            (spec_page(self) - 1) * spec_page_size(self) <= u32::MAX,
        ensures
            r == (spec_page(self) - 1) * spec_page_size(self),
    {
        (self.page() - 1) * self.page_size()
    }

    /// The sort column emitted into statements: only allow-listed literals,
    /// never caller text.
    pub fn sort_field(&self) -> (r: &'static str)
        ensures
            r@ == spec_sort_field(self),
    {
        match &self.sort {
            Some(s) => {
                if str_eq(s.as_str(), "name") {
                    "name"
                } else if str_eq(s.as_str(), "created_at") {
                    "created_at"
                } else if str_eq(s.as_str(), "updated_at") {
                    "updated_at"
                } else if str_eq(s.as_str(), "rating") {
                    "rating"
                } else {
                    "created_at"
                }
            },
            None => "created_at",
        }
    }

    /// The sort direction emitted into statements.
    pub fn sort_order(&self) -> (r: &'static str)
        ensures
            r@ == spec_sort_order(self),
    {
        match &self.order {
            Some(s) => {
                if str_eq(s.as_str(), "asc") {
                    "ASC"
                } else if str_eq(s.as_str(), "desc") {
                    "DESC"
                } else {
                    "DESC"
                }
            },
            None => "DESC",
        }
    }
}

/// `spec_total_pages` is `max(1, ceil(total_items / page_size))`: it is at
/// least 1, its pages cover every item, and with more than one page, one
/// page fewer would leave items uncovered.
pub proof fn lemma_total_pages_is_ceiling(total_items: int, page_size: int)
    requires
        page_size >= 1,
        total_items >= 0,
    ensures
        ({
            let tp = spec_total_pages(total_items, page_size);
            &&& 1 <= tp
            &&& total_items <= tp * page_size
            &&& (tp > 1 ==> (tp - 1) * page_size < total_items)
        }),
{
    let q = total_items / page_size;
    let r = total_items % page_size;
    vstd::arithmetic::div_mod::lemma_fundamental_div_mod(total_items, page_size);
    vstd::arithmetic::div_mod::lemma_mod_bound(total_items, page_size);
    vstd::arithmetic::div_mod::lemma_div_pos_is_pos(total_items, page_size);
    lemma_ceil_by_div_mod(total_items, page_size);
    let tp = spec_total_pages(total_items, page_size);
    if r > 0 {
        assert(tp == q + 1);
        assert(total_items <= (q + 1) * page_size && q * page_size < total_items)
            by (nonlinear_arith)
            requires
                total_items == page_size * q + r,
                0 < r < page_size,
        {}
    } else {
        assert(total_items == q * page_size) by (nonlinear_arith)
            requires
                total_items == page_size * q + r,
                r == 0,
        {}
        if q < 1 {
            assert(tp == 1);
            assert(total_items <= 1 * page_size) by (nonlinear_arith)
                requires
                    total_items == q * page_size,
                    q <= 0,
                    total_items >= 0,
                    page_size >= 1,
            {}
        } else {
            assert(tp == q);
            assert((q - 1) * page_size < q * page_size) by (nonlinear_arith)
                requires
                    page_size >= 1,
            {}
        }
    }
}

/// Rounding up by truncating division plus a remainder test agrees with the
/// ceiling expressed as `(n + d - 1) / d`.
proof fn lemma_ceil_by_div_mod(n: int, d: int)
    requires
        n >= 0,
        d >= 1,
    ensures
        (if n % d > 0 {
            n / d + 1
        } else {
            n / d
        }) == (n + d - 1) / d,
{
    let q = n / d;
    let r = n % d;
    vstd::arithmetic::div_mod::lemma_fundamental_div_mod(n, d);
    assert(n == d * q + r);
    if r > 0 {
        assert(n + d - 1 == (q + 1) * d + (r - 1)) by (nonlinear_arith)
            requires
                n == d * q + r,
        {}
        vstd::arithmetic::div_mod::lemma_fundamental_div_mod_converse(n + d - 1, d, q + 1, r - 1);
    } else {
        assert(n + d - 1 == q * d + (d - 1)) by (nonlinear_arith)
            requires
                n == d * q + r,
                r == 0,
        {}
        vstd::arithmetic::div_mod::lemma_fundamental_div_mod_converse(n + d - 1, d, q, d - 1);
    }
}

} // verus!
