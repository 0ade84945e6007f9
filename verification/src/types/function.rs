//! Functions of a database and their control-flow graphs.
use vstd::prelude::*;

use crate::address::{signed_address, AddressArg};
use crate::error::Error;

verus! {

/// What the IDA library reports about one function.
#[derive(Debug)]
pub struct FunctionInfo {
    pub start_address: u64,
    pub end_address: u64,
    pub name: Option<String>,
    pub comment: Option<String>,
    pub flags: u64,
    pub is_far: bool,
    pub does_return: bool,
    pub analyzed_sp: bool,
    pub len: usize,
    pub is_empty: bool,
}

/// A copy of an optional text.
pub fn clone_text(text: &Option<String>) -> (r: Option<String>)
    ensures
        r == *text,
{
    match text {
        Some(s) => Some(s.clone()),
        None => None,
    }
}

/// A basic block of a function's flow chart.
#[derive(Debug, Clone, Copy)]
pub struct JsBasicBlock {
    pub start_ea: i64,
    pub end_ea: i64,
}

impl JsBasicBlock {
    pub open spec fn spec_new(start: u64, end: u64) -> JsBasicBlock {
        JsBasicBlock { start_ea: signed_address(start), end_ea: signed_address(end) }
    }

    /// The block `[start, end)`.
    pub fn new(start: u64, end: u64) -> (r: JsBasicBlock)
        ensures
            r == Self::spec_new(start, end),
    {
        JsBasicBlock { start_ea: start as i64, end_ea: end as i64 }
    }

    pub fn get_start_ea(&self) -> (r: u64)
        ensures
            r == self.start_ea as u64,
    {
        self.start_ea as u64
    }

    pub fn get_end_ea(&self) -> (r: u64)
        ensures
            r == self.end_ea as u64,
    {
        self.end_ea as u64
    }
}

/// The flow chart of a function: its basic blocks in the library's order.
#[derive(Debug)]
pub struct JsFunctionCfg {
    basic_blocks_inner: Vec<JsBasicBlock>,
}

impl JsFunctionCfg {
    pub closed spec fn view(&self) -> Seq<JsBasicBlock> {
        self.basic_blocks_inner@
    }

    /// The flow chart made of the blocks `[start, end)` in the given order.
    pub fn from_cfg(blocks: &Vec<(u64, u64)>) -> (r: JsFunctionCfg)
        ensures
            r.view().len() == blocks@.len(),
            forall|i: int|
                0 <= i < blocks@.len() ==> r.view()[i] == JsBasicBlock::spec_new(
                    blocks@[i].0,
                    blocks@[i].1,
                ),
    {
        let mut basic_blocks: Vec<JsBasicBlock> = Vec::new();
        let mut i: usize = 0;
        while i < blocks.len()
            invariant
                i <= blocks@.len(),
                basic_blocks@.len() == i,
                forall|k: int|
                    0 <= k < i ==> basic_blocks@[k] == JsBasicBlock::spec_new(
                        blocks@[k].0,
                        blocks@[k].1,
                    ),
            decreases blocks@.len() - i,
        {
            let (start, end) = blocks[i];
            basic_blocks.push(JsBasicBlock::new(start, end));
            i += 1;
        }
        JsFunctionCfg { basic_blocks_inner: basic_blocks }
    }

    /// The basic blocks, in order.
    pub fn basic_blocks(&self) -> (r: Vec<JsBasicBlock>)
        ensures
            r@ == self.view(),
    {
        let mut out: Vec<JsBasicBlock> = Vec::new();
        let mut i: usize = 0;
        while i < self.basic_blocks_inner.len()
            invariant
                i <= self.basic_blocks_inner@.len(),
                out@ == self.basic_blocks_inner@.take(i as int),
            decreases self.basic_blocks_inner@.len() - i,
        {
            out.push(self.basic_blocks_inner[i]);
            i += 1;
            assert(out@ =~= self.basic_blocks_inner@.take(i as int));
        }
        assert(out@ =~= self.basic_blocks_inner@);
        out
    }
}

/// A function of the database, as the SDK hands it out.
#[derive(Debug)]
pub struct JsFunction {
    pub start_ea: i64,
    pub end_ea: i64,
    pub name: Option<String>,
    pub comment: Option<String>,
    pub flags: i64,
    pub is_far: bool,
    pub does_return: bool,
    pub analyzed_sp: bool,
    pub len: u32,
    pub is_empty: bool,
}

impl JsFunction {
    /// The function as the SDK hands out the library's report `info`.
    pub open spec fn spec_from(info: FunctionInfo) -> JsFunction {
        JsFunction {
            start_ea: signed_address(info.start_address),
            end_ea: signed_address(info.end_address),
            name: info.name,
            comment: info.comment,
            flags: info.flags as i64,
            is_far: info.is_far,
            does_return: info.does_return,
            analyzed_sp: info.analyzed_sp,
            len: info.len as u32,
            is_empty: info.is_empty,
        }
    }

    /// The function as the SDK hands out the library's report `info`.
    pub fn from_func(info: &FunctionInfo) -> (r: JsFunction)
        ensures
            r == Self::spec_from(*info),
    {
        JsFunction {
            start_ea: info.start_address as i64,
            end_ea: info.end_address as i64,
            name: clone_text(&info.name),
            comment: clone_text(&info.comment),
            flags: info.flags as i64,
            is_far: info.is_far,
            does_return: info.does_return,
            analyzed_sp: info.analyzed_sp,
            len: info.len as u32,
            is_empty: info.is_empty,
        }
    }

    pub fn get_start_ea(&self) -> (r: u64)
        ensures
            r == self.start_ea as u64,
    {
        self.start_ea as u64
    }

    pub fn get_end_ea(&self) -> (r: u64)
        ensures
            r == self.end_ea as u64,
    {
        self.end_ea as u64
    }

    pub fn get_name(&self) -> (r: Option<&str>)
        ensures
            r matches Some(n) ==> self.name matches Some(s) && n@ == s@,
            r is None <==> self.name is None,
    {
        match &self.name {
            Some(s) => Some(s.as_str()),
            None => None,
        }
    }

    pub fn get_comment(&self) -> (r: Option<&str>)
        ensures
            r matches Some(n) ==> self.comment matches Some(s) && n@ == s@,
            r is None <==> self.comment is None,
    {
        match &self.comment {
            Some(s) => Some(s.as_str()),
            None => None,
        }
    }

    pub fn get_flags(&self) -> (r: u64)
        ensures
            r == self.flags as u64,
    {
        self.flags as u64
    }

    pub fn get_is_far(&self) -> (r: bool)
        ensures
            r == self.is_far,
    {
        self.is_far
    }

    pub fn get_does_return(&self) -> (r: bool)
        ensures
            r == self.does_return,
    {
        self.does_return
    }

    pub fn get_analyzed_sp(&self) -> (r: bool)
        ensures
            r == self.analyzed_sp,
    {
        self.analyzed_sp
    }

    pub fn get_len(&self) -> (r: u32)
        ensures
            r == self.len,
    {
        self.len
    }

    pub fn get_is_empty(&self) -> (r: bool)
        ensures
            r == self.is_empty,
    {
        self.is_empty
    }

    /// Whether `ea` lies in `[start, end)` of the function; a negative `ea` is refused.
    pub fn contains_address(&self, ea: AddressArg) -> (r: Result<bool, Error>)
        ensures
            ea.negative ==> r matches Err(Error::NegativeAddress),
            !ea.negative ==> r == Ok::<bool, Error>(
                self.start_ea as u64 <= ea.value && ea.value < self.end_ea as u64,
            ),
    {
        let ea = ea.to_address()?;
        Ok(ea >= self.start_ea as u64 && ea < self.end_ea as u64)
    }
}

/// The snapshot of a function gives back, through its getters, every field the library
/// reported (the length cut to 32 bits), and it contains exactly the addresses of
/// `[start, end)`.
pub proof fn lemma_function_snapshot_roundtrip(info: FunctionInfo, ea: u64)
    ensures
        JsFunction::spec_from(info).start_ea as u64 == info.start_address,
        JsFunction::spec_from(info).end_ea as u64 == info.end_address,
        JsFunction::spec_from(info).flags as u64 == info.flags,
        JsFunction::spec_from(info).name == info.name,
        JsFunction::spec_from(info).comment == info.comment,
        JsFunction::spec_from(info).is_far == info.is_far,
        JsFunction::spec_from(info).does_return == info.does_return,
        JsFunction::spec_from(info).analyzed_sp == info.analyzed_sp,
        JsFunction::spec_from(info).len as int == info.len as int % 0x1_0000_0000,
        JsFunction::spec_from(info).is_empty == info.is_empty,
        (JsFunction::spec_from(info).start_ea as u64 <= ea && ea < JsFunction::spec_from(
            info,
        ).end_ea as u64) == (info.start_address <= ea && ea < info.end_address),
{
    crate::address::lemma_signed_address_roundtrip(info.start_address);
    crate::address::lemma_signed_address_roundtrip(info.end_address);
    let flags = info.flags;
    assert((flags as i64) as u64 == flags) by (bit_vector);
    let len = info.len;
    assert((len as u32) as int == (len as int) % 0x1_0000_0000) by (bit_vector);
}

/// A basic block gives back, through its getters, the addresses it was made from.
pub proof fn lemma_basic_block_roundtrip(start: u64, end: u64)
    ensures
        JsBasicBlock::spec_new(start, end).start_ea as u64 == start,
        JsBasicBlock::spec_new(start, end).end_ea as u64 == end,
{
    crate::address::lemma_signed_address_roundtrip(start);
    crate::address::lemma_signed_address_roundtrip(end);
}

} // verus!
