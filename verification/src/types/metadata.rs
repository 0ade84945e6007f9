//! Facts about a database as a whole, and its entry points.
use vstd::prelude::*;

use crate::address::signed_address;
use crate::text::{alt_hex_string, alt_hex_text};

verus! {

/// What the library reports about a database as a whole. `compiler` and `file_type` are
/// the names of the library's compiler and file-type values.
#[derive(Debug)]
pub struct MetadataInfo {
    pub procname: String,
    pub abibits: u32,
    pub analysis_flags: u32,
    pub compiler: String,
    pub file_type: String,
    pub base_address: Option<u64>,
}

/// Facts about a database as the SDK hands them out.
#[derive(Debug)]
pub struct JsMetadata {
    pub abi: String,
    pub abi_features: String,
    pub analysis_flags: u32,
    pub compiler: String,
    pub file_type: String,
    pub image_base: i64,
}

impl JsMetadata {
    /// The SDK's report: the processor name as the ABI, the ABI bits in `0x` hexadecimal,
    /// and the image base (zero when the library has none) stored signed.
    pub fn from_info(info: MetadataInfo) -> (r: JsMetadata)
        ensures
            r.abi == info.procname,
            r.abi_features@ == alt_hex_text(info.abibits as nat),
            r.analysis_flags == info.analysis_flags,
            r.compiler == info.compiler,
            r.file_type == info.file_type,
            r.image_base == signed_address(
                match info.base_address {
                    Some(b) => b,
                    None => 0,
                },
            ),
    {
        let base: u64 = match info.base_address {
            Some(b) => b,
            None => 0,
        };
        JsMetadata {
            abi: info.procname,
            abi_features: alt_hex_string(info.abibits as u64),
            analysis_flags: info.analysis_flags,
            compiler: info.compiler,
            file_type: info.file_type,
            image_base: base as i64,
        }
    }
}

/// An entry point of the program, with its position among the entry points.
#[derive(Debug, Clone, Copy, PartialEq, Eq, Structural)]
pub struct JsEntryPoint {
    pub ordinal: u32,
    pub address: i64,
}

/// The entry points in the library's order; each one's ordinal is its position.
pub fn entry_points(addresses: &Vec<u64>) -> (r: Vec<JsEntryPoint>)
    ensures
        r@.len() == addresses@.len(),
        forall|i: int|
            0 <= i < addresses@.len() ==> (#[trigger] r@[i] == (JsEntryPoint {
                ordinal: i as u32,
                address: signed_address(addresses@[i]),
            })),
{
    let mut result: Vec<JsEntryPoint> = Vec::new();
    let mut i: usize = 0;
    while i < addresses.len()
        invariant
            i <= addresses@.len(),
            result@.len() == i,
            forall|k: int|
                0 <= k < i ==> (#[trigger] result@[k] == (JsEntryPoint {
                    ordinal: k as u32,
                    address: signed_address(addresses@[k]),
                })),
        decreases addresses@.len() - i,
    {
        let address: u64 = addresses[i];
        result.push(JsEntryPoint { ordinal: i as u32, address: address as i64 });
        i += 1;
    }
    result
}

} // verus!
