//! Address arguments as they arrive from JavaScript, and the small casts applied to
//! what the IDA library returns.
use vstd::prelude::*;

use crate::error::Error;

verus! {

/// What a JavaScript `bigint` argument yields: its sign and its lowest 64-bit word.
#[derive(Debug, Clone, Copy, PartialEq, Eq, Structural)]
pub struct AddressArg {
    pub negative: bool,
    pub value: u64,
}

impl AddressArg {
    /// The address, or `NegativeAddress` for a negative number.
    pub fn to_address(&self) -> (r: Result<u64, Error>)
        ensures
            self.negative ==> r matches Err(Error::NegativeAddress),
            !self.negative ==> r == Ok::<u64, Error>(self.value),
    {
        if self.negative {
            Err(Error::NegativeAddress)
        } else {
            Ok(self.value)
        }
    }

    /// The address used as a search bound, or `NegativeBound` for a negative number.
    pub fn to_bound(&self) -> (r: Result<u64, Error>)
        ensures
            self.negative ==> r matches Err(Error::NegativeBound),
            !self.negative ==> r == Ok::<u64, Error>(self.value),
    {
        if self.negative {
            Err(Error::NegativeBound)
        } else {
            Ok(self.value)
        }
    }
}

/// An address stored in a signed field, as the JavaScript objects carry it.
pub open spec fn signed_address(ea: u64) -> i64 {
    ea as i64
}

/// Reading a stored signed address back as unsigned gives the original address.
pub proof fn lemma_signed_address_roundtrip(ea: u64)
    ensures
        (signed_address(ea) as u64) == ea,
{
    assert((ea as i64) as u64 == ea) by (bit_vector);
}

/// Instruction alignment as the SDK reports it (the library's `usize`, cut to 32 bits).
pub fn alignment_to_u32(alignment: Option<usize>) -> (r: Option<u32>)
    ensures
        r == match alignment {
            Some(a) => Some(a as u32),
            None => None::<u32>,
        },
{
    match alignment {
        Some(a) => Some(a as u32),
        None => None,
    }
}

/// The number of functions as the SDK reports it (cut to 32 bits).
pub fn count_to_u32(count: usize) -> (r: u32)
    ensures
        r == count as u32,
{
    count as u32
}

/// How a head search is bounded.
#[derive(Debug, Clone, Copy, PartialEq, Eq, Structural)]
pub enum HeadSearch {
    /// Search from the address with the library's default bound.
    Unbounded(u64),
    /// Search from the address up (or down) to the bound.
    Bounded(u64, u64),
}

/// The bound part of a head search: a start address that was already accepted, and the
/// optional bound argument.
pub fn plan_head_search(ea: u64, bound: Option<AddressArg>) -> (r: Result<HeadSearch, Error>)
    ensures
        bound is None ==> r == Ok::<HeadSearch, Error>(HeadSearch::Unbounded(ea)),
        bound matches Some(b) ==> if b.negative {
            r matches Err(Error::NegativeBound)
        } else {
            r == Ok::<HeadSearch, Error>(HeadSearch::Bounded(ea, b.value))
        },
{
    match bound {
        Some(b) => {
            let limit = b.to_bound()?;
            Ok(HeadSearch::Bounded(ea, limit))
        },
        None => Ok(HeadSearch::Unbounded(ea)),
    }
}

} // verus!
