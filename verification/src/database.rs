//! The decisions of the database object: how a database is opened, and how the outcomes
//! of flow-chart and decompiler requests are reported.
use vstd::prelude::*;

use crate::address::signed_address;
use crate::error::Error;
use crate::text::{signed_decimal_string, signed_decimal_text};
use crate::types::decompiler::{node_blocks, snapshot_cfunc, DecompiledFunction, JsCFunction};
use crate::types::function::{JsBasicBlock, JsFunctionCfg};
use vstd::string::StringExecFns;

verus! {

/// Options for opening a database.
#[derive(Debug)]
pub struct OpenOptions {
    pub ida_dir: Option<String>,
    pub auto_analyze: Option<bool>,
    pub save: Option<bool>,
    pub file_type: Option<String>,
    pub idb_path: Option<String>,
}

impl Default for OpenOptions {
    fn default() -> (r: Self)
        ensures
            r.ida_dir is None,
            r.auto_analyze is None,
            r.save is None,
            r.file_type is None,
            r.idb_path is None,
    {
        OpenOptions { ida_dir: None, auto_analyze: None, save: None, file_type: None, idb_path: None }
    }
}

/// The loader settings that need the library's option builder.
#[derive(Debug)]
pub struct CustomOpen {
    pub file_type: Option<String>,
    pub idb_path: Option<String>,
}

/// How to open a database: where the IDA installation is (when given), whether to run the
/// auto-analysis and to save on close, and the loader settings when there are any.
#[derive(Debug)]
pub struct OpenPlan {
    pub ida_dir: Option<String>,
    pub auto_analyse: bool,
    pub save: bool,
    pub custom: Option<CustomOpen>,
}

/// The plan for opening a database with the given options (all defaults when none): the
/// auto-analysis runs unless turned off, nothing is saved unless asked, and the option
/// builder is used exactly when a file type or a database path is given.
pub fn plan_open(options: Option<OpenOptions>) -> (r: OpenPlan)
    ensures
        options is None ==> r.ida_dir is None && r.auto_analyse && !r.save && r.custom is None,
        options matches Some(o) ==> {
            &&& r.ida_dir == o.ida_dir
            &&& r.auto_analyse == match o.auto_analyze {
                Some(a) => a,
                None => true,
            }
            &&& r.save == match o.save {
                Some(s) => s,
                None => false,
            }
            &&& (r.custom is Some) == (o.file_type is Some || o.idb_path is Some)
            &&& r.custom matches Some(c) ==> c.file_type == o.file_type && c.idb_path
                == o.idb_path
        },
{
    let opts = match options {
        Some(o) => o,
        None => OpenOptions::default(),
    };
    let auto_analyse = match opts.auto_analyze {
        Some(a) => a,
        None => true,
    };
    let save = match opts.save {
        Some(s) => s,
        None => false,
    };
    let needs_custom_options = opts.file_type.is_some() || opts.idb_path.is_some();
    let custom = if needs_custom_options {
        Some(CustomOpen { file_type: opts.file_type, idb_path: opts.idb_path })
    } else {
        None
    };
    OpenPlan { ida_dir: opts.ida_dir, auto_analyse, save, custom }
}

/// Options for decompiling a function.
#[derive(Debug, Clone, Copy, PartialEq, Eq, Structural)]
pub struct DecompileOptions {
    pub all_blocks: bool,
}

/// Whether all blocks are decompiled: yes unless the options say otherwise.
pub fn decompile_all_blocks(options: Option<DecompileOptions>) -> (r: bool)
    ensures
        r == match options {
            Some(o) => o.all_blocks,
            None => true,
        },
{
    match options {
        Some(o) => o.all_blocks,
        None => true,
    }
}

/// A decompile request goes ahead only when the decompiler is available.
pub fn require_decompiler(available: bool) -> (r: Result<(), Error>)
    ensures
        available ==> r is Ok,
        !available ==> r matches Err(Error::DecompilerUnavailable),
{
    if available {
        Ok(())
    } else {
        Err(Error::DecompilerUnavailable)
    }
}

/// What a decompile request yielded from the library.
#[derive(Debug)]
pub enum DecompileAttempt {
    /// No function contains the address.
    NoFunction,
    /// The decompiler failed, for this reason.
    Failed(String),
    /// The decompiler produced a result, possibly without a function inside.
    Decompiled(Option<DecompiledFunction>),
}

/// The answer to a decompile request.
pub fn decompile_result(attempt: DecompileAttempt) -> (r: Result<JsCFunction, Error>)
    ensures
        attempt is NoFunction ==> r matches Err(Error::NoFunctionAtAddress),
        attempt matches DecompileAttempt::Failed(reason) ==> r matches Err(Error::Decompile(m))
            && m == reason,
        attempt matches DecompileAttempt::Decompiled(Some(d)) ==> r matches Ok(f) && f@.entry_point
            == signed_address(d.entry_ea) && f@.blocks == node_blocks(d.body, 0) && f@.pseudo_code
            == d.pseudo_code@ && f@.error is None,
        attempt matches DecompileAttempt::Decompiled(None) ==> r matches Ok(f) && f@.entry_point
            == 0 && f@.blocks.len() == 0 && f@.error == Some("Null cfunc_inner from cfuncptr_t"@),
{
    match attempt {
        DecompileAttempt::NoFunction => Err(Error::NoFunctionAtAddress),
        DecompileAttempt::Failed(reason) => Err(Error::Decompile(reason)),
        DecompileAttempt::Decompiled(d) => Ok(snapshot_cfunc(d)),
    }
}

/// What a flow-chart request yielded from the library.
#[derive(Debug)]
pub enum CfgAttempt {
    /// No function starts at the address.
    NoFunction,
    /// The flow chart could not be built, for this reason.
    Failed(String),
    /// The basic blocks `[start, end)` of the flow chart, in order.
    Blocks(Vec<(u64, u64)>),
}

/// The answer to a flow-chart request.
pub fn function_cfg_result(attempt: CfgAttempt) -> (r: Result<JsFunctionCfg, Error>)
    ensures
        attempt is NoFunction ==> r matches Err(Error::FunctionNotFound),
        attempt matches CfgAttempt::Failed(reason) ==> r matches Err(Error::Cfg(m)) && m
            == reason,
        attempt matches CfgAttempt::Blocks(blocks) ==> r matches Ok(cfg) && cfg.view().len()
            == blocks@.len() && forall|i: int|
            0 <= i < blocks@.len() ==> cfg.view()[i] == JsBasicBlock::spec_new(
                blocks@[i].0,
                blocks@[i].1,
            ),
{
    match attempt {
        CfgAttempt::NoFunction => Err(Error::FunctionNotFound),
        CfgAttempt::Failed(reason) => Err(Error::Cfg(reason)),
        CfgAttempt::Blocks(blocks) => Ok(JsFunctionCfg::from_cfg(&blocks)),
    }
}

/// The library version as text: `major.minor.build`.
pub open spec fn version_text(major: i32, minor: i32, build: i32) -> Seq<char> {
    signed_decimal_text(major as int) + "."@ + signed_decimal_text(minor as int) + "."@
        + signed_decimal_text(build as int)
}

/// The library version as text: `major.minor.build`.
pub fn format_version(major: i32, minor: i32, build: i32) -> (r: String)
    ensures
        r@ == version_text(major, minor, build),
{
    let mut s = signed_decimal_string(major as i64);
    s.append(".");
    let minor_text = signed_decimal_string(minor as i64);
    s.append(minor_text.as_str());
    s.append(".");
    let build_text = signed_decimal_string(build as i64);
    s.append(build_text.as_str());
    s
}

/// The version text is the three numbers in signed decimal, separated by single dots.
pub proof fn lemma_version_text(major: i32, minor: i32, build: i32)
    ensures
        version_text(major, minor, build) == signed_decimal_text(major as int) + seq!['.']
            + signed_decimal_text(minor as int) + seq!['.'] + signed_decimal_text(build as int),
{
    reveal_strlit(".");
    assert("."@ =~= seq!['.']);
}

} // verus!
