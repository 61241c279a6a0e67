//! Request parameters of list endpoints — a page range, an optional
//! item count, an optional sort — and the planner that turns them into
//! a bounded, sorted query plan against an allow-listed set of columns.
//!
//! The combination policy: sorting takes effect only when both `sort`
//! and `order` are supplied (a lone one is silently ignored), and
//! pagination only when an item count is supplied and the range is not
//! `All` — `All` always returns the unbounded result set, whatever item
//! count came with it.
use vstd::prelude::*;
use vstd::string::StrSliceExecFns;
use crate::error::{Error, QueryValidationError, ValidationError};
use crate::text::{
    find_char, first_index_of, parse_i64, parse_i64_spec, parse_u64, parse_u64_spec, str_eq,
};

verus! {

/// How many items one page holds.
#[derive(Debug, Clone, Copy, PartialEq, Eq, Structural)]
pub struct ItemCount(pub i64);

impl Default for ItemCount {
    fn default() -> (r: Self)
        ensures
            r.0 == 20,
    {
        ItemCount(20)
    }
}

/// What the `items` parameter accepts: a non-negative decimal integer.
pub open spec fn parse_item_count_spec(s: Seq<char>) -> Option<i64> {
    match parse_u64_spec(s) {
        Some(v) => if v <= i64::MAX {
            Some(v as i64)
        } else {
            None
        },
        None => None,
    }
}

impl ItemCount {
    pub fn from_value(s: &str) -> (r: Result<ItemCount, Error>)
        ensures
            match parse_item_count_spec(s@) {
                Some(v) => r matches Ok(c) && c.0 == v,
                None => r matches Err(e) && e == Error::ValidationError(
                    ValidationError::Query(QueryValidationError::InvalidItemCount),
                ),
            },
    {
        match parse_u64(s) {
            Some(v) => if v <= i64::MAX as u64 {
                Ok(ItemCount(v as i64))
            } else {
                Err(Error::ValidationError(
                    ValidationError::Query(QueryValidationError::InvalidItemCount),
                ))
            },
            None => Err(Error::ValidationError(
                ValidationError::Query(QueryValidationError::InvalidItemCount),
            )),
        }
    }
}

#[derive(Debug, Clone, Copy, PartialEq, Eq, Structural)]
pub enum SortOrder {
    Asc,
    Desc,
}

pub open spec fn asc_lit() -> Seq<char> {
    seq!['a', 's', 'c']
}

pub open spec fn desc_lit() -> Seq<char> {
    seq!['d', 'e', 's', 'c']
}

/// Only the exact literals `asc` and `desc` are accepted.
pub open spec fn parse_sort_order_spec(s: Seq<char>) -> Option<SortOrder> {
    if s == asc_lit() {
        Some(SortOrder::Asc)
    } else if s == desc_lit() {
        Some(SortOrder::Desc)
    } else {
        None
    }
}

impl SortOrder {
    /// The literal this direction is written as in a query.
    pub fn name(&self) -> (r: String)
        ensures
            self is Asc ==> r@ == asc_lit(),
            self is Desc ==> r@ == desc_lit(),
    {
        match self {
            SortOrder::Asc => {
                let s = "asc".to_owned();
                proof {
                    reveal_strlit("asc");
                    assert(s@ =~= asc_lit());
                }
                s
            },
            SortOrder::Desc => {
                let s = "desc".to_owned();
                proof {
                    reveal_strlit("desc");
                    assert(s@ =~= desc_lit());
                }
                s
            },
        }
    }

    pub fn from_value(s: &str) -> (r: Result<SortOrder, Error>)
        ensures
            match parse_sort_order_spec(s@) {
                Some(o) => r matches Ok(x) && x == o,
                None => r matches Err(e) && e == Error::ValidationError(
                    ValidationError::Query(QueryValidationError::InvalidSortOrder),
                ),
            },
    {
        proof {
            reveal_strlit("asc");
            reveal_strlit("desc");
            assert("asc"@ =~= asc_lit());
            assert("desc"@ =~= desc_lit());
        }
        if str_eq(s, "asc") {
            Ok(SortOrder::Asc)
        } else if str_eq(s, "desc") {
            Ok(SortOrder::Desc)
        } else {
            Err(Error::ValidationError(
                ValidationError::Query(QueryValidationError::InvalidSortOrder),
            ))
        }
    }
}

/// The caller's requested slice of a result set.
#[derive(Debug, Clone, Copy, PartialEq, Eq, Structural)]
pub enum PageRange {
    All,
    Single(i64),
    Range(i64, i64),
}

pub open spec fn all_lit() -> Seq<char> {
    seq!['a', 'l', 'l']
}

/// The page-range grammar: the literal `all`; else, split at the first
/// `'-'` and read both sides as integers; else the whole text as one
/// integer. Because the first `'-'` is also a sign character, a bare
/// negative single index (such as `-3`) reads as a range with an empty
/// left side and is rejected; that is this grammar's documented shape.
pub open spec fn parse_page_range_spec(s: Seq<char>) -> Option<PageRange> {
    if s == all_lit() {
        Some(PageRange::All)
    } else {
        let i = first_index_of(s, '-');
        if i >= s.len() {
            match parse_i64_spec(s) {
                Some(v) => Some(PageRange::Single(v)),
                None => None,
            }
        } else {
            match (parse_i64_spec(s.take(i)), parse_i64_spec(s.skip(i + 1))) {
                (Some(a), Some(b)) => Some(PageRange::Range(a, b)),
                _ => None,
            }
        }
    }
}

impl PageRange {
    pub fn from_value(s: &str) -> (r: Result<PageRange, Error>)
        ensures
            match parse_page_range_spec(s@) {
                Some(p) => r matches Ok(x) && x == p,
                None => r matches Err(e) && e == Error::ValidationError(
                    ValidationError::Query(QueryValidationError::InvalidPageRangeFormat),
                ),
            },
    {
        proof {
            reveal_strlit("all");
            assert("all"@ =~= all_lit());
        }
        if str_eq(s, "all") {
            return Ok(PageRange::All);
        }
        let len = s.unicode_len();
        let i = find_char(s, '-');
        if i >= len {
            match parse_i64(s) {
                Some(v) => Ok(PageRange::Single(v)),
                None => Err(Error::ValidationError(
                    ValidationError::Query(QueryValidationError::InvalidPageRangeFormat),
                )),
            }
        } else {
            let before = s.substring_char(0, i);
            let after = s.substring_char(i + 1, len);
            proof {
                assert(s@.subrange(0, i as int) =~= s@.take(i as int));
                assert(s@.subrange(i + 1, len as int) =~= s@.skip(i + 1));
            }
            match (parse_i64(before), parse_i64(after)) {
                (Some(a), Some(b)) => Ok(PageRange::Range(a, b)),
                _ => Err(Error::ValidationError(
                    ValidationError::Query(QueryValidationError::InvalidPageRangeFormat),
                )),
            }
        }
    }
}

/// The four independently-optional request parameters of a list query.
#[derive(Debug, Clone)]
pub struct QueryConfig {
    pub range: PageRange,
    pub items: Option<ItemCount>,
    pub sort: Option<String>,
    pub order: Option<SortOrder>,
}

/// The plan a list query executes: an optional resolved sort column
/// with its direction, and optional LIMIT/OFFSET values. `None` means
/// the clause is absent; an offset of zero and an absent offset read
/// the same rows. The executor applies ORDER BY before LIMIT/OFFSET
/// when both are present.
#[derive(Debug, Clone, Copy, PartialEq)]
pub struct QueryPlan<C> {
    pub order_by: Option<(C, SortOrder)>,
    pub limit: Option<i64>,
    pub offset: Option<i64>,
}

/// The allow-list from public column names to sortable column handles;
/// built at startup, never mutated.
#[derive(Debug, Clone)]
pub struct ColumnRegistry<C> {
    pub entries: Vec<(String, C)>,
}

/// The mathematical shadow of a registry's entries.
pub open spec fn columns_view<C>(v: Seq<(String, C)>) -> Seq<(Seq<char>, C)> {
    Seq::new(v.len(), |i: int| (v[i].0@, v[i].1))
}

/// First handle under the given public name, if any.
pub open spec fn spec_lookup_column<C>(entries: Seq<(Seq<char>, C)>, name: Seq<char>) -> Option<C>
    decreases entries.len(),
{
    if entries.len() == 0 {
        None
    } else if entries[0].0 == name {
        Some(entries[0].1)
    } else {
        spec_lookup_column(entries.drop_first(), name)
    }
}

impl<C: Copy> ColumnRegistry<C> {
    pub fn lookup(&self, name: &str) -> (r: Option<C>)
        ensures
            r == spec_lookup_column(columns_view(self.entries@), name@),
    {
        let ghost whole = columns_view(self.entries@);
        proof {
            assert(whole.skip(0) =~= whole);
        }
        let n = self.entries.len();
        let mut i: usize = 0;
        while i < n
            invariant
                i <= n,
                n == self.entries@.len(),
                whole == columns_view(self.entries@),
                spec_lookup_column(whole, name@) == spec_lookup_column(
                    whole.skip(i as int),
                    name@,
                ),
            decreases n - i,
        {
            proof {
                assert(whole.skip(i as int)[0] == (
                    self.entries@[i as int].0@,
                    self.entries@[i as int].1,
                ));
            }
            if str_eq(self.entries[i].0.as_str(), name) {
                return Some(self.entries[i].1);
            }
            proof {
                assert(whole.skip(i as int).drop_first() =~= whole.skip(i + 1));
            }
            i = i + 1;
        }
        proof {
            assert(whole.skip(n as int) =~= Seq::<(Seq<char>, C)>::empty());
        }
        None
    }
}

/// Sorting takes effect only when both parameters were supplied.
pub open spec fn sort_active(cfg: QueryConfig) -> bool {
    cfg.sort is Some && cfg.order is Some
}

/// Pagination takes effect only with an item count and a bounded range.
pub open spec fn paginate_active(cfg: QueryConfig) -> bool {
    cfg.items is Some && !(cfg.range is All)
}

/// How many pages an inclusive page-index range spans; an empty or
/// backwards range still reads one page.
pub open spec fn spec_pages(start: int, end: int) -> int {
    if end - start > 0 {
        end - start + 1
    } else {
        1
    }
}

/// The LIMIT of an active pagination.
pub open spec fn spec_limit(cfg: QueryConfig) -> int {
    let n = (cfg.items->0).0 as int;
    match cfg.range {
        PageRange::All => 0,
        PageRange::Single(_) => n,
        PageRange::Range(s, e) => n * spec_pages(s as int, e as int),
    }
}

/// The OFFSET of an active pagination: page index zero and every
/// negative index collapse to the first page.
pub open spec fn spec_offset(cfg: QueryConfig) -> int {
    let n = (cfg.items->0).0 as int;
    match cfg.range {
        PageRange::All => 0,
        PageRange::Single(i) => if i <= 0 {
            0
        } else {
            n * i
        },
        PageRange::Range(s, _) => if s <= 0 {
            0
        } else {
            n * s
        },
    }
}

/// The machine bounds the planner's multiplications need. Real requests
/// keep these comfortably; they only rule out products that leave `i64`.
pub open spec fn plan_arith_ok(cfg: QueryConfig) -> bool {
    paginate_active(cfg) ==> {
        let n = (cfg.items->0).0 as int;
        match cfg.range {
            PageRange::All => true,
            PageRange::Single(i) => i > 0 ==> i64::MIN <= n * i <= i64::MAX,
            PageRange::Range(s, e) => {
                &&& (e > s ==> e - s + 1 <= i64::MAX)
                &&& i64::MIN <= n * spec_pages(s as int, e as int) <= i64::MAX
                &&& (s > 0 ==> i64::MIN <= n * s <= i64::MAX)
            },
        }
    }
}

impl QueryConfig {
    /// Decides which of sorting and pagination apply and produces the
    /// final plan; an active sort whose column is not in the allow-list
    /// fails with `InvalidColumn`.
    pub fn get_query<C: Copy>(&self, registry: &ColumnRegistry<C>) -> (r: Result<
        QueryPlan<C>,
        Error,
    >)
        requires
            plan_arith_ok(*self),
        ensures
            ({
                let resolved = spec_lookup_column(
                    columns_view(registry.entries@),
                    self.sort->0@,
                );
                if sort_active(*self) && resolved is None {
                    r matches Err(e) && (e matches Error::ValidationError(
                        ValidationError::Query(QueryValidationError::InvalidColumn(n)),
                    ) && n@ == self.sort->0@)
                } else {
                    r matches Ok(p) && {
                        &&& p.order_by == if sort_active(*self) {
                            Some((resolved->0, self.order->0))
                        } else {
                            None::<(C, SortOrder)>
                        }
                        &&& (p.limit is Some) == paginate_active(*self)
                        &&& (p.offset is Some) == paginate_active(*self)
                        &&& paginate_active(*self) ==> p.limit->0 == spec_limit(*self)
                            && p.offset->0 == spec_offset(*self)
                    }
                }
            }),
    {
        let order_by: Option<(C, SortOrder)> = match (&self.sort, &self.order) {
            (Some(name), Some(order)) => match registry.lookup(name.as_str()) {
                Some(c) => Some((c, *order)),
                None => {
                    return Err(Error::ValidationError(
                        ValidationError::Query(QueryValidationError::InvalidColumn(name.clone())),
                    ));
                },
            },
            _ => None,
        };
        let (limit, offset): (Option<i64>, Option<i64>) = match &self.items {
            None => (None, None),
            Some(count) => {
                let n = count.0;
                match &self.range {
                    PageRange::All => (None, None),
                    PageRange::Single(i) => if *i <= 0 {
                        (Some(n), Some(0))
                    } else {
                        (Some(n), Some(n * *i))
                    },
                    PageRange::Range(s, e) => {
                        let pages: i64 = if *e > *s {
                            (*e - *s) + 1
                        } else {
                            1
                        };
                        let l = n * pages;
                        if *s <= 0 {
                            (Some(l), Some(0))
                        } else {
                            (Some(l), Some(n * *s))
                        }
                    },
                }
            },
        };
        Ok(QueryPlan { order_by, limit, offset })
    }
}

} // verus!
