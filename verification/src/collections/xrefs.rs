//! Looking up the cross-references to and from an address.
use vstd::prelude::*;

use crate::text::str_equals;
use crate::types::xref::{is_snapshot_of, JsXRef, XRefInfo};

verus! {

/// Options of a cross-reference lookup: `type_` may be `"code"` or `"data"`.
#[derive(Debug)]
pub struct XRefQueryOpt {
    pub type_: Option<String>,
}

/// Which cross-references the library is asked to walk.
#[derive(Debug, Clone, Copy, PartialEq, Eq, Structural)]
pub enum XRefQueryKind {
    /// All cross-references.
    All,
    /// Data cross-references only.
    Data,
}

/// Whether the options name the given type.
pub open spec fn query_type_is(opts: Option<XRefQueryOpt>, name: Seq<char>) -> bool {
    opts matches Some(o) && o.type_ matches Some(t) && t@ == name
}

fn query_type_equals(opts: Option<&XRefQueryOpt>, name: &str) -> (r: bool)
    ensures
        r == (opts matches Some(o) && o.type_ matches Some(t) && t@ == name@),
{
    match opts {
        Some(o) => match &o.type_ {
            Some(t) => str_equals(t.as_str(), name),
            None => false,
        },
        None => false,
    }
}

/// The library query for the options: data cross-references when the type is `"data"`,
/// all of them otherwise.
pub fn xref_query_from_opts(opts: Option<&XRefQueryOpt>) -> (r: XRefQueryKind)
    ensures
        (r == XRefQueryKind::Data) == (opts matches Some(o) && o.type_ matches Some(t) && t@
            == "data"@),
{
    if query_type_equals(opts, "data") {
        XRefQueryKind::Data
    } else {
        XRefQueryKind::All
    }
}

/// Whether only code cross-references are accepted: when the type is `"code"`.
pub fn xref_code_only(opts: Option<&XRefQueryOpt>) -> (r: bool)
    ensures
        r == (opts matches Some(o) && o.type_ matches Some(t) && t@ == "code"@),
{
    query_type_equals(opts, "code")
}

/// The next move of a lookup that walks the library's chain of cross-references.
#[derive(Debug)]
pub enum XRefScanStep {
    /// The lookup is over, with this answer.
    Done(Option<JsXRef>),
    /// Fetch the next cross-reference of the chain and decide again.
    Next,
}

/// Whether a lookup accepts the cross-reference `x`.
pub open spec fn scan_accepts(code_only: bool, x: XRefInfo) -> bool {
    !code_only || x.is_code
}

/// The cross-reference a lookup answers with, walking `chain` from its start: the first one
/// it accepts, or none.
pub open spec fn scan_answer(code_only: bool, chain: Seq<XRefInfo>) -> Option<XRefInfo>
    decreases chain.len(),
{
    if chain.len() == 0 {
        None
    } else if scan_accepts(code_only, chain[0]) {
        Some(chain[0])
    } else {
        scan_answer(code_only, chain.drop_first())
    }
}

/// The lookups `to` and `from` of the original collection, as decisions: the caller walks
/// the library's chain (the first cross-reference, then each next one) and hands each to
/// [`XRefsCollection::scan_step`].
pub struct XRefsCollection;

impl XRefsCollection {
    /// Decide on `current`, the cross-reference just fetched (`None` once the chain is
    /// exhausted): answer with it when the lookup accepts it, otherwise fetch the next one.
    pub fn scan_step(code_only: bool, current: Option<&XRefInfo>) -> (r: XRefScanStep)
        ensures
            current is None ==> r matches XRefScanStep::Done(None),
            current matches Some(x) ==> if scan_accepts(code_only, *x) {
                r matches XRefScanStep::Done(Some(j)) && is_snapshot_of(j, *x)
            } else {
                r is Next
            },
    {
        match current {
            None => XRefScanStep::Done(None),
            Some(x) => {
                if !code_only || x.is_code {
                    XRefScanStep::Done(Some(JsXRef::new(x)))
                } else {
                    XRefScanStep::Next
                }
            },
        }
    }
}

/// A lookup answers with the first cross-reference of the chain that it accepts: the first
/// code cross-reference when only code is wanted, the very first one otherwise; and with
/// none when it accepts none.
pub proof fn lemma_scan_answer_is_first_accepted(code_only: bool, chain: Seq<XRefInfo>)
    ensures
        (forall|i: int| 0 <= i < chain.len() ==> !scan_accepts(code_only, #[trigger] chain[i]))
            ==> scan_answer(code_only, chain) is None,
        forall|i: int|
            0 <= i < chain.len() && scan_accepts(code_only, #[trigger] chain[i]) && (forall|
                k: int,
            |
                0 <= k < i ==> !scan_accepts(code_only, #[trigger] chain[k])) ==> scan_answer(
                code_only,
                chain,
            ) == Some(chain[i]),
        !code_only && chain.len() > 0 ==> scan_answer(code_only, chain) == Some(chain[0]),
    decreases chain.len(),
{
    if chain.len() > 0 {
        let rest = chain.drop_first();
        lemma_scan_answer_is_first_accepted(code_only, rest);
        if !scan_accepts(code_only, chain[0]) {
            assert forall|i: int|
                0 <= i < chain.len() && scan_accepts(code_only, #[trigger] chain[i]) && (forall|
                    k: int,
                |
                    0 <= k < i ==> !scan_accepts(code_only, #[trigger] chain[k])) implies scan_answer(
                code_only,
                chain,
            ) == Some(chain[i]) by {
                assert(i > 0);
                assert(rest[i - 1] == chain[i]);
                assert forall|k: int| 0 <= k < i - 1 implies !scan_accepts(
                    code_only,
                    #[trigger] rest[k],
                ) by {
                    assert(rest[k] == chain[k + 1]);
                }
            }
            if forall|i: int| 0 <= i < chain.len() ==> !scan_accepts(code_only, #[trigger] chain[i]) {
                assert forall|i: int| 0 <= i < rest.len() implies !scan_accepts(
                    code_only,
                    #[trigger] rest[i],
                ) by {
                    assert(rest[i] == chain[i + 1]);
                }
            }
        }
    }
}

/// A lookup for code answers with the first code cross-reference of the chain, and with none
/// when the chain has no code cross-reference; any other lookup answers with the chain's
/// first cross-reference, or none for an empty chain.
pub proof fn lemma_lookup_answers(chain: Seq<XRefInfo>)
    ensures
        (forall|i: int| 0 <= i < chain.len() ==> !(#[trigger] chain[i]).is_code) ==> scan_answer(
            true,
            chain,
        ) is None,
        forall|i: int|
            0 <= i < chain.len() && (#[trigger] chain[i]).is_code && (forall|k: int|
                0 <= k < i ==> !(#[trigger] chain[k]).is_code) ==> scan_answer(true, chain) == Some(
                chain[i],
            ),
        chain.len() > 0 ==> scan_answer(false, chain) == Some(chain[0]),
        chain.len() == 0 ==> scan_answer(false, chain) is None && scan_answer(true, chain) is None,
{
    lemma_scan_answer_is_first_accepted(true, chain);
    lemma_scan_answer_is_first_accepted(false, chain);
    assert forall|i: int|
        0 <= i < chain.len() && (#[trigger] chain[i]).is_code && (forall|k: int|
            0 <= k < i ==> !(#[trigger] chain[k]).is_code) implies scan_answer(true, chain) == Some(
        chain[i],
    ) by {
        assert(scan_accepts(true, chain[i]));
        assert forall|k: int| 0 <= k < i implies !scan_accepts(true, #[trigger] chain[k]) by {
            assert(!chain[k].is_code);
        }
    }
    if forall|i: int| 0 <= i < chain.len() ==> !(#[trigger] chain[i]).is_code {
        assert forall|i: int| 0 <= i < chain.len() implies !scan_accepts(true, #[trigger] chain[i]) by {
            assert(!chain[i].is_code);
        }
    }
}

} // verus!
