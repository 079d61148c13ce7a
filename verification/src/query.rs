//! Query builder for product search: case-insensitive substring
//! matching, the pagination window, and the parameterized SQL
//! statement the search maps to.
//!
//! The statement is composed from typed predicate-plus-parameter
//! pairs; user input only ever lands in the parameter list, never in
//! the statement text. Page and limit are 1-based; a page or limit of
//! zero is clamped to 1, an absent page defaults to 1 and an absent
//! limit to 10.

use vstd::prelude::*;
use vstd::string::{StrSliceExecFns, StringExecFns};

verus! {

broadcast use vstd::string::group_string_axioms;

/// The lower-case form of a string. This names the outcome of
/// `str::to_lowercase`, which depends on the characters alone.
pub uninterp spec fn lower_of(s: Seq<char>) -> Seq<char>;

/// Relies on `str::to_lowercase` of std.
#[verifier::external_body]
pub(crate) fn lowercase(s: &str) -> (r: String)
    ensures
        r@ == lower_of(s@),
{
    s.to_lowercase()
}

/// Whether `needle` occurs in `hay` starting at position `i`.
pub open spec fn contains_at(hay: Seq<char>, needle: Seq<char>, i: int) -> bool {
    0 <= i && i + needle.len() <= hay.len() && hay.subrange(i, i + needle.len()) == needle
}

/// Whether `needle` occurs anywhere in `hay`.
pub open spec fn contains_sub(hay: Seq<char>, needle: Seq<char>) -> bool {
    exists|i: int| contains_at(hay, needle, i)
}

/// The search's free-text predicate: the query occurs in the name,
/// both taken in lower case.
pub open spec fn name_matches(name: Seq<char>, query: Seq<char>) -> bool {
    contains_sub(lower_of(name), lower_of(query))
}

fn matches_at(hay: &str, needle: &str, i: usize) -> (r: bool)
    requires
        i + needle@.len() <= hay@.len(),
        hay@.len() <= usize::MAX,
    ensures
        r == contains_at(hay@, needle@, i as int),
{
    let nl = needle.unicode_len();
    let mut k: usize = 0;
    while k < nl
        invariant
            i + nl <= hay@.len(),
            hay@.len() <= usize::MAX,
            nl == needle@.len(),
            k <= nl,
            forall|m: int| 0 <= m < k ==> hay@[i + m] == needle@[m],
        decreases nl - k,
    {
        if hay.get_char(i + k) != needle.get_char(k) {
            proof {
                if contains_at(hay@, needle@, i as int) {
                    let ks = k as int;
                    assert(hay@.subrange(i as int, i + needle@.len())[ks] == needle@[ks]);
                }
            }
            return false;
        }
        k += 1;
    }
    proof {
        assert(hay@.subrange(i as int, i + needle@.len()) =~= needle@);
    }
    true
}

/// Substring search, exact against the containment predicate.
pub fn str_contains(hay: &str, needle: &str) -> (r: bool)
    ensures
        r == contains_sub(hay@, needle@),
{
    let hl = hay.unicode_len();
    let nl = needle.unicode_len();
    if nl > hl {
        return false;
    }
    if nl == 0 {
        proof {
            assert(hay@.subrange(0, 0) =~= needle@);
            assert(contains_at(hay@, needle@, 0));
        }
        return true;
    }
    let mut i: usize = 0;
    while i <= hl - nl
        invariant
            1 <= nl <= hl,
            i <= hl - nl + 1,
            hl == hay@.len(),
            nl == needle@.len(),
            forall|j: int| 0 <= j < i ==> !contains_at(hay@, needle@, j),
        decreases hl - i,
    {
        if matches_at(hay, needle, i) {
            return true;
        }
        i += 1;
    }
    false
}

/// Case-insensitive containment of the query in the name.
pub fn name_matches_ci(name: &str, query: &str) -> (r: bool)
    ensures
        r == name_matches(name@, query@),
{
    let hay = lowercase(name);
    let needle = lowercase(query);
    str_contains(hay.as_str(), needle.as_str())
}

/// The page actually used: 1-based, absent defaults to 1, zero is
/// clamped to 1.
pub open spec fn spec_page(page: Option<u32>) -> u32 {
    match page {
        Some(p) => if p == 0 {
            1
        } else {
            p
        },
        None => 1,
    }
}

/// The page size actually used: absent defaults to 10, zero is
/// clamped to 1.
pub open spec fn spec_limit(limit: Option<u32>) -> u32 {
    match limit {
        Some(l) => if l == 0 {
            1
        } else {
            l
        },
        None => 10,
    }
}

/// How many rows the window skips: (page - 1) * limit.
pub open spec fn spec_offset(page: Option<u32>, limit: Option<u32>) -> int {
    (spec_page(page) - 1) * spec_limit(limit)
}

/// The effective page.
pub fn effective_page(page: Option<u32>) -> (r: u32)
    ensures
        r == spec_page(page),
        r >= 1,
{
    match page {
        Some(p) => if p == 0 {
            1
        } else {
            p
        },
        None => 1,
    }
}

/// The effective page size.
pub fn effective_limit(limit: Option<u32>) -> (r: u32)
    ensures
        r == spec_limit(limit),
        r >= 1,
{
    match limit {
        Some(l) => if l == 0 {
            1
        } else {
            l
        },
        None => 10,
    }
}

/// A value bound into the statement's parameter list, in place of its
/// `$n` placeholder.
pub enum SqlParam {
    Text(String),
    Id(u128),
    Price(u64),
    Int(i64),
}

/// The spec-level form of a bound parameter.
pub enum SqlParamView {
    Text(Seq<char>),
    Id(u128),
    Price(u64),
    Int(i64),
}

impl View for SqlParam {
    type V = SqlParamView;

    open spec fn view(&self) -> SqlParamView {
        match self {
            SqlParam::Text(s) => SqlParamView::Text(s@),
            SqlParam::Id(v) => SqlParamView::Id(*v),
            SqlParam::Price(v) => SqlParamView::Price(*v),
            SqlParam::Int(v) => SqlParamView::Int(*v),
        }
    }
}

/// The views of a parameter list.
pub open spec fn param_views(params: Seq<SqlParam>) -> Seq<SqlParamView> {
    Seq::new(params.len(), |i: int| params[i]@)
}

/// The `$n` placeholder for the n-th bound parameter; the search
/// binds at most six.
pub open spec fn spec_placeholder(n: int) -> Seq<char> {
    if n == 1 {
        "$1"@
    } else if n == 2 {
        "$2"@
    } else if n == 3 {
        "$3"@
    } else if n == 4 {
        "$4"@
    } else if n == 5 {
        "$5"@
    } else {
        "$6"@
    }
}

fn placeholder(n: usize) -> (r: &'static str)
    requires
        1 <= n <= 6,
    ensures
        r@ == spec_placeholder(n as int),
{
    if n == 1 {
        "$1"
    } else if n == 2 {
        "$2"
    } else if n == 3 {
        "$3"
    } else if n == 4 {
        "$4"
    } else if n == 5 {
        "$5"
    } else {
        "$6"
    }
}

/// The ILIKE pattern for a free-text query: the query between two
/// wildcards.
pub open spec fn spec_like_pattern(q: Seq<char>) -> Seq<char> {
    "%"@ + q + "%"@
}

/// The search statement for a parameter set: the fixed selection,
/// one predicate per given filter, a stable ordering, and the
/// pagination window, with `$n` placeholders where values are bound.
pub open spec fn spec_search_sql(p: crate::product::ProductQueryParams) -> Seq<char> {
    let c_q: int = if p.query is Some {
        1
    } else {
        0
    };
    let c_c: int = if p.category_id is Some {
        1
    } else {
        0
    };
    let c_min: int = if p.min_price is Some {
        1
    } else {
        0
    };
    let c_max: int = if p.max_price is Some {
        1
    } else {
        0
    };
    let s = "SELECT * FROM products WHERE deleted_at IS NULL"@;
    let s = if p.query is Some {
        s + " AND name ILIKE "@ + spec_placeholder(1)
    } else {
        s
    };
    let s = if p.category_id is Some {
        s + " AND category_id = "@ + spec_placeholder(c_q + 1)
    } else {
        s
    };
    let s = if p.min_price is Some {
        s + " AND price >= "@ + spec_placeholder(c_q + c_c + 1)
    } else {
        s
    };
    let s = if p.max_price is Some {
        s + " AND price <= "@ + spec_placeholder(c_q + c_c + c_min + 1)
    } else {
        s
    };
    let s = if p.in_stock == Some(true) {
        s + " AND stock_quantity > 0"@
    } else {
        s
    };
    let s = s + " ORDER BY created_at"@;
    let s = s + " LIMIT "@ + spec_placeholder(c_q + c_c + c_min + c_max + 1);
    s + " OFFSET "@ + spec_placeholder(c_q + c_c + c_min + c_max + 2)
}

/// The parameter list bound beside the statement, in placeholder
/// order: the ILIKE pattern, the given filter values, then the
/// effective limit and offset.
pub open spec fn spec_search_binds(p: crate::product::ProductQueryParams) -> Seq<SqlParamView> {
    let s = Seq::<SqlParamView>::empty();
    let s = match p.query {
        Some(q) => s + seq![SqlParamView::Text(spec_like_pattern(q@))],
        None => s,
    };
    let s = match p.category_id {
        Some(c) => s + seq![SqlParamView::Id(c)],
        None => s,
    };
    let s = match p.min_price {
        Some(m) => s + seq![SqlParamView::Price(m)],
        None => s,
    };
    let s = match p.max_price {
        Some(m) => s + seq![SqlParamView::Price(m)],
        None => s,
    };
    s + seq![
        SqlParamView::Int(spec_limit(p.limit) as i64),
        SqlParamView::Int(spec_offset(p.page, p.limit) as i64),
    ]
}

/// Compose the search statement and its parameter list. User input
/// never reaches the statement text: every value is bound through a
/// placeholder.
pub fn build_search_sql(params: &crate::product::ProductQueryParams) -> (r: (String, Vec<SqlParam>))
    ensures
        r.0@ == spec_search_sql(*params),
        param_views(r.1@) == spec_search_binds(*params),
{
    let mut sql = String::from_str("SELECT * FROM products WHERE deleted_at IS NULL");
    let mut binds: Vec<SqlParam> = Vec::new();
    let mut n: usize = 0;
    match &params.query {
        Some(q) => {
            sql.append(" AND name ILIKE ");
            sql.append(placeholder(n + 1));
            let mut pat = String::from_str("%");
            pat.append(q.as_str());
            pat.append("%");
            binds.push(SqlParam::Text(pat));
            n += 1;
        },
        None => {},
    }
    match params.category_id {
        Some(c) => {
            sql.append(" AND category_id = ");
            sql.append(placeholder(n + 1));
            binds.push(SqlParam::Id(c));
            n += 1;
        },
        None => {},
    }
    match params.min_price {
        Some(m) => {
            sql.append(" AND price >= ");
            sql.append(placeholder(n + 1));
            binds.push(SqlParam::Price(m));
            n += 1;
        },
        None => {},
    }
    match params.max_price {
        Some(m) => {
            sql.append(" AND price <= ");
            sql.append(placeholder(n + 1));
            binds.push(SqlParam::Price(m));
            n += 1;
        },
        None => {},
    }
    match params.in_stock {
        Some(true) => {
            sql.append(" AND stock_quantity > 0");
        },
        _ => {},
    }
    sql.append(" ORDER BY created_at");
    sql.append(" LIMIT ");
    sql.append(placeholder(n + 1));
    sql.append(" OFFSET ");
    sql.append(placeholder(n + 2));
    let page = effective_page(params.page);
    let limit = effective_limit(params.limit);
    proof {
        assert((page as int - 1) * (limit as int) <= 0xFFFF_FFFE * 0xFFFF_FFFF) by (nonlinear_arith)
            requires
                1 <= page <= 0xFFFF_FFFFu32,
                limit <= 0xFFFF_FFFFu32,
        ;
    }
    let offset = (page as u64 - 1) * (limit as u64);
    binds.push(SqlParam::Int(limit as i64));
    binds.push(SqlParam::Int(offset as i64));
    proof {
        assert(param_views(binds@) =~= spec_search_binds(*params));
    }
    (sql, binds)
}

} // verus!
