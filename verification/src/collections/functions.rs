//! Listing and querying the functions of a database.
use vstd::prelude::*;

use crate::address::count_to_u32;
use crate::text::str_starts_with;
use crate::types::function::{FunctionInfo, JsFunction};

verus! {

/// A half-open range `[start, end)` of signed addresses.
#[derive(Debug, Clone, Copy, PartialEq, Eq, Structural)]
pub struct AddressRange {
    pub start: i64,
    pub end: i64,
}

/// Which functions a query selects: a name prefix, an address range, and a page given
/// by an offset and a limit.
#[derive(Debug)]
pub struct FunctionQuery {
    pub prefix: Option<String>,
    pub address_range: Option<AddressRange>,
    pub limit: Option<u32>,
    pub offset: Option<u32>,
}

/// Whether a function passes the filters of the query. A function without a name passes
/// the prefix filter; the range filter compares the start address as a signed number.
pub open spec fn matches_query(f: FunctionInfo, q: FunctionQuery) -> bool {
    &&& match q.prefix {
        Some(p) => match f.name {
            Some(n) => p@.is_prefix_of(n@),
            None => true,
        },
        None => true,
    }
    &&& match q.address_range {
        Some(r) => r.start <= (f.start_address as i64) && (f.start_address as i64) < r.end,
        None => true,
    }
}

/// The filters of a query, as a predicate.
pub open spec fn query_filter(q: FunctionQuery) -> spec_fn(FunctionInfo) -> bool {
    |f: FunctionInfo| matches_query(f, q)
}

/// The page of `m` that starts after `offset` items and holds at most `limit` items.
pub open spec fn page<T>(m: Seq<T>, offset: nat, limit: Option<nat>) -> Seq<T> {
    let rest = if offset <= m.len() {
        m.skip(offset as int)
    } else {
        Seq::<T>::empty()
    };
    match limit {
        Some(l) => if l < rest.len() {
            rest.take(l as int)
        } else {
            rest
        },
        None => rest,
    }
}

pub open spec fn query_offset(q: FunctionQuery) -> nat {
    match q.offset {
        Some(o) => o as nat,
        None => 0,
    }
}

pub open spec fn query_limit(q: FunctionQuery) -> Option<nat> {
    match q.limit {
        Some(l) => Some(l as nat),
        None => None,
    }
}

/// The functions a query selects, in the database's order.
pub open spec fn query_spec(functions: Seq<FunctionInfo>, q: FunctionQuery) -> Seq<FunctionInfo> {
    page(functions.filter(query_filter(q)), query_offset(q), query_limit(q))
}

/// Whether one function passes the filters of the query.
fn function_matches(f: &FunctionInfo, q: &FunctionQuery) -> (r: bool)
    ensures
        r == matches_query(*f, *q),
{
    match &q.prefix {
        Some(p) => match &f.name {
            Some(n) => {
                if !str_starts_with(n.as_str(), p.as_str()) {
                    return false;
                }
            },
            None => {},
        },
        None => {},
    }
    match &q.address_range {
        Some(range) => {
            let ea = f.start_address as i64;
            if ea < range.start || ea >= range.end {
                return false;
            }
        },
        None => {},
    }
    true
}

/// Adding items at the end of a sequence does not change a page that is already full.
proof fn lemma_full_page_stable<T>(m: Seq<T>, extra: Seq<T>, offset: nat, l: nat)
    requires
        page(m, offset, Some(l)).len() == l,
    ensures
        page(m + extra, offset, Some(l)) == page(m, offset, Some(l)),
{
    let full = m + extra;
    if l > 0 {
        assert(offset <= m.len());
    }
    if offset <= m.len() {
        assert(full.skip(offset as int).take(l as int) =~= m.skip(offset as int).take(l as int));
        assert(m.skip(offset as int).len() >= l);
        if l < m.skip(offset as int).len() {
        } else {
            assert(m.skip(offset as int) =~= m.skip(offset as int).take(l as int));
        }
        if l < full.skip(offset as int).len() {
        } else {
            assert(full.skip(offset as int) =~= m.skip(offset as int));
        }
    } else {
        assert(page(full, offset, Some(l)) =~= Seq::<T>::empty());
    }
}

/// Appending an item that the page skips (the offset is not reached yet) leaves the page empty.
proof fn lemma_page_push_skipped<T>(m: Seq<T>, x: T, offset: nat, limit: Option<nat>)
    requires
        m.len() < offset,
    ensures
        page(m.push(x), offset, limit) =~= Seq::<T>::empty(),
        page(m, offset, limit) =~= Seq::<T>::empty(),
{
    if offset <= m.push(x).len() {
        assert(m.push(x).skip(offset as int) =~= Seq::<T>::empty());
    }
}

/// Appending an item once the offset is reached extends a page that still has room.
proof fn lemma_page_push_taken<T>(m: Seq<T>, x: T, offset: nat, limit: Option<nat>)
    requires
        offset <= m.len(),
        limit matches Some(l) ==> page(m, offset, limit).len() < l,
    ensures
        page(m.push(x), offset, limit) =~= page(m, offset, limit).push(x),
{
    assert(m.push(x).skip(offset as int) =~= m.skip(offset as int).push(x));
}

/// Two consecutive pages, the first of `a` items, together are the page of `a + b` items
/// (or the unlimited page) from the same offset.
proof fn lemma_page_concat<T>(m: Seq<T>, offset: nat, a: nat, limit: Option<nat>)
    ensures
        page(m, offset, Some(a)) + page(m, offset + a, limit) =~= page(
            m,
            offset,
            match limit {
                Some(b) => Some(a + b),
                None => None,
            },
        ),
{
    if offset <= m.len() {
        let rest = m.skip(offset as int);
        if offset + a <= m.len() {
            assert(m.skip((offset + a) as int) =~= rest.skip(a as int));
        }
    }
}

/// Filtering with a predicate that every item passes keeps the whole sequence.
proof fn lemma_filter_keeps_all<T>(s: Seq<T>, pred: spec_fn(T) -> bool)
    requires
        forall|x: T| #[trigger] pred(x),
    ensures
        s.filter(pred) == s,
    decreases s.len(),
{
    reveal(Seq::filter);
    if s.len() > 0 {
        lemma_filter_keeps_all(s.drop_last(), pred);
        assert(s.drop_last().push(s.last()) =~= s);
    }
}

/// Paging through a query: the page of `a` functions from offset `o`, followed by the page
/// from offset `o + a`, is the page from offset `o` that is `a` longer (or unlimited when
/// the second page is), provided the three queries filter alike.
pub proof fn lemma_query_pages_concatenate(
    functions: Seq<FunctionInfo>,
    first: FunctionQuery,
    second: FunctionQuery,
    both: FunctionQuery,
)
    requires
        first.prefix == second.prefix,
        first.prefix == both.prefix,
        first.address_range == second.address_range,
        first.address_range == both.address_range,
        query_limit(first) is Some,
        query_offset(second) == query_offset(first) + query_limit(first)->Some_0,
        query_offset(both) == query_offset(first),
        query_limit(both) == match query_limit(second) {
            Some(b) => Some(query_limit(first)->Some_0 + b),
            None => None,
        },
    ensures
        query_spec(functions, first) + query_spec(functions, second) == query_spec(
            functions,
            both,
        ),
{
    assert(query_filter(first) =~= query_filter(second));
    assert(query_filter(first) =~= query_filter(both));
    lemma_page_concat(
        functions.filter(query_filter(first)),
        query_offset(first),
        query_limit(first)->Some_0,
        query_limit(second),
    );
}

/// A query without filters, offset or limit selects every function, in order.
pub proof fn lemma_query_unfiltered_is_list(functions: Seq<FunctionInfo>, q: FunctionQuery)
    requires
        q.prefix is None,
        q.address_range is None,
        query_offset(q) == 0,
        q.limit is None,
    ensures
        query_spec(functions, q) == functions,
{
    lemma_filter_keeps_all(functions, query_filter(q));
    assert(functions.skip(0) =~= functions);
}

/// Every function a query selects passes its filters, and at most `limit` are selected.
pub proof fn lemma_query_results_match(functions: Seq<FunctionInfo>, q: FunctionQuery)
    ensures
        forall|i: int|
            0 <= i < query_spec(functions, q).len() ==> matches_query(
                #[trigger] query_spec(functions, q)[i],
                q,
            ),
        query_limit(q) matches Some(l) ==> query_spec(functions, q).len() <= l,
{
    let m = functions.filter(query_filter(q));
    let off = query_offset(q);
    assert forall|i: int| 0 <= i < query_spec(functions, q).len() implies matches_query(
        #[trigger] query_spec(functions, q)[i],
        q,
    ) by {
        if off > m.len() {
            assert(query_spec(functions, q).len() == 0);
        }
        assert(off + i < m.len());
        assert(query_spec(functions, q)[i] == m[off + i]);
        functions.lemma_filter_pred(query_filter(q), off + i);
    }
}

/// The prefix filter compares whole prefixes, character by character: a named function whose
/// start passes the range filter passes the query exactly when the query's prefix is a
/// prefix of its name; a function without a name passes the prefix filter.
pub proof fn lemma_prefix_filter_compares_whole_prefix(f: FunctionInfo, q: FunctionQuery)
    requires
        q.address_range is None,
    ensures
        q.prefix matches Some(p) ==> (f.name matches Some(n) ==> (matches_query(f, q) <==> (p@.len()
            <= n@.len() && forall|k: int| 0 <= k < p@.len() ==> #[trigger] n@[k] == p@[k]))),
        q.prefix matches Some(p) ==> (f.name is None ==> matches_query(f, q)),
        q.prefix is None ==> matches_query(f, q),
{
    if let Some(p) = q.prefix {
        if let Some(n) = f.name {
            if p@.len() <= n@.len() && forall|k: int| 0 <= k < p@.len() ==> #[trigger] n@[k]
                == p@[k] {
                assert(p@ =~= n@.subrange(0, p@.len() as int));
            }
            if matches_query(f, q) {
                assert forall|k: int| 0 <= k < p@.len() implies #[trigger] n@[k] == p@[k] by {
                    assert(n@.subrange(0, p@.len() as int)[k] == n@[k]);
                }
            }
        }
    }
}

/// Every named function a query with a prefix selects has a name that starts with the
/// prefix, character by character.
pub proof fn lemma_query_results_have_prefix(functions: Seq<FunctionInfo>, q: FunctionQuery)
    ensures
        forall|i: int|
            0 <= i < query_spec(functions, q).len() ==> (q.prefix matches Some(p) ==> (
            #[trigger] query_spec(functions, q)[i].name matches Some(n) ==> (p@.len() <= n@.len()
                && forall|k: int| 0 <= k < p@.len() ==> n@[k] == p@[k]))),
{
    lemma_query_results_match(functions, q);
    assert forall|i: int| 0 <= i < query_spec(functions, q).len() implies (q.prefix matches Some(
        p,
    ) ==> (#[trigger] query_spec(functions, q)[i].name matches Some(n) ==> (p@.len() <= n@.len()
        && forall|k: int| 0 <= k < p@.len() ==> n@[k] == p@[k]))) by {
        let f = query_spec(functions, q)[i];
        assert(matches_query(f, q));
        if let Some(p) = q.prefix {
            if let Some(n) = f.name {
                assert(p@.is_prefix_of(n@));
                assert forall|k: int| 0 <= k < p@.len() implies n@[k] == p@[k] by {
                    assert(n@.subrange(0, p@.len() as int)[k] == n@[k]);
                }
            }
        }
    }
}

/// The range filter keeps exactly the functions whose start, read as a signed address, lies
/// in `[start, end)`.
pub proof fn lemma_range_filter(f: FunctionInfo, q: FunctionQuery)
    requires
        q.prefix is None,
    ensures
        q.address_range matches Some(r) ==> (matches_query(f, q) <==> (r.start <= (
        f.start_address as i64) && (f.start_address as i64) < r.end)),
{
}

/// The `k`-th function a query selects is the `(offset + k)`-th function that passes its
/// filters (offset zero when none is given), and a query selects every passing function
/// after the offset, up to the limit when one is given.
pub proof fn lemma_query_result_positions(functions: Seq<FunctionInfo>, q: FunctionQuery)
    ensures
        ({
            let passing = functions.filter(query_filter(q));
            let offset: int = match q.offset {
                Some(o) => o as int,
                None => 0,
            };
            let after = if offset <= passing.len() {
                passing.len() - offset
            } else {
                0
            };
            &&& forall|k: int|
                0 <= k < query_spec(functions, q).len() ==> #[trigger] query_spec(functions, q)[k]
                    == passing[offset + k]
            &&& query_spec(functions, q).len() == match q.limit {
                Some(l) => if (l as int) < after {
                    l as int
                } else {
                    after
                },
                None => after,
            }
        }),
{
    let passing = functions.filter(query_filter(q));
    let offset: int = match q.offset {
        Some(o) => o as int,
        None => 0,
    };
    assert forall|k: int| 0 <= k < query_spec(functions, q).len() implies #[trigger] query_spec(
        functions,
        q,
    )[k] == passing[offset + k] by {
        if offset > passing.len() {
            assert(query_spec(functions, q).len() == 0);
        }
    }
}

/// The functions of the library's list, converted in order.
pub struct FunctionsCollection;

impl FunctionsCollection {
    /// All functions, in the library's order.
    pub fn list(functions: &Vec<FunctionInfo>) -> (r: Vec<JsFunction>)
        ensures
            r@ == functions@.map_values(|f: FunctionInfo| JsFunction::spec_from(f)),
    {
        let mut out: Vec<JsFunction> = Vec::new();
        let mut i: usize = 0;
        while i < functions.len()
            invariant
                i <= functions@.len(),
                out@ == functions@.take(i as int).map_values(
                    |f: FunctionInfo| JsFunction::spec_from(f),
                ),
            decreases functions@.len() - i,
        {
            out.push(JsFunction::from_func(&functions[i]));
            i += 1;
            assert(functions@.take(i as int) =~= functions@.take(i - 1).push(
                functions@[i - 1],
            ));
            assert(out@ =~= functions@.take(i as int).map_values(
                |f: FunctionInfo| JsFunction::spec_from(f),
            ));
        }
        assert(functions@.take(i as int) =~= functions@);
        out
    }

    /// The number of functions, as the SDK reports it.
    pub fn count(function_count: usize) -> (r: u32)
        ensures
            r == function_count as u32,
    {
        count_to_u32(function_count)
    }

    /// The functions that pass the query's filters, skipping `offset` of them and keeping at
    /// most `limit`, in the library's order.
    pub fn query(functions: &Vec<FunctionInfo>, options: &FunctionQuery) -> (r: Vec<JsFunction>)
        ensures
            r@ == query_spec(functions@, *options).map_values(
                |f: FunctionInfo| JsFunction::spec_from(f),
            ),
    {
        let ghost q = *options;
        let ghost pred = query_filter(q);
        let ghost off = query_offset(q);
        let ghost lim = query_limit(q);
        let mut results: Vec<JsFunction> = Vec::new();
        let offset: usize = match options.offset {
            Some(o) => o as usize,
            None => 0,
        };
        let limit: Option<usize> = match options.limit {
            Some(l) => Some(l as usize),
            None => None,
        };
        let mut skipped: usize = 0;
        let mut full = false;
        let n = functions.len();
        let mut i: usize = 0;
        while i < n && !full
            invariant
                n == functions@.len(),
                i <= n,
                q == *options,
                pred == query_filter(q),
                off == query_offset(q),
                lim == query_limit(q),
                offset == off,
                limit matches Some(l) ==> lim == Some(l as nat),
                limit is None ==> lim is None,
                skipped as nat == if functions@.take(i as int).filter(pred).len() < off {
                    functions@.take(i as int).filter(pred).len()
                } else {
                    off
                },
                results@ == page(functions@.take(i as int).filter(pred), off, lim).map_values(
                    |f: FunctionInfo| JsFunction::spec_from(f),
                ),
                full ==> (lim matches Some(l) && page(
                    functions@.take(i as int).filter(pred),
                    off,
                    lim,
                ).len() == l),
            decreases n - i, if full { 0int } else { 1int },
        {
            let ghost before = functions@.take(i as int).filter(pred);
            let f = &functions[i];
            proof {
                assert(functions@.take(i + 1) =~= functions@.take(i as int).push(*f));
                functions@.take(i as int).lemma_filter_push(*f, pred);
            }
            if !function_matches(f, options) {
                i += 1;
            } else if skipped < offset {
                proof {
                    lemma_page_push_skipped(before, *f, off, lim);
                    assert(results@ =~= page(before.push(*f), off, lim).map_values(
                        |f: FunctionInfo| JsFunction::spec_from(f),
                    ));
                }
                skipped += 1;
                i += 1;
            } else {
                let at_limit = match limit {
                    Some(l) => results.len() >= l,
                    None => false,
                };
                if at_limit {
                    full = true;
                } else {
                    proof {
                        lemma_page_push_taken(before, *f, off, lim);
                    }
                    results.push(JsFunction::from_func(f));
                    proof {
                        assert(results@ =~= page(before.push(*f), off, lim).map_values(
                            |f: FunctionInfo| JsFunction::spec_from(f),
                        ));
                    }
                    i += 1;
                }
            }
        }
        proof {
            let whole = functions@.filter(pred);
            let prefix = functions@.take(i as int);
            assert(functions@ =~= prefix + functions@.skip(i as int));
            Seq::filter_distributes_over_add(prefix, functions@.skip(i as int), pred);
            if full {
                let l = lim->Some_0;
                lemma_full_page_stable(prefix.filter(pred), functions@.skip(i as int).filter(pred), off, l);
            } else {
                assert(prefix =~= functions@);
            }
        }
        results
    }
}

} // verus!
