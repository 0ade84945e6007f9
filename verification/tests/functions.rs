use idalib_ts::address::AddressArg;
use idalib_ts::collections::functions::{AddressRange, FunctionQuery, FunctionsCollection};
use idalib_ts::error::Error;
use idalib_ts::types::function::{FunctionInfo, JsBasicBlock, JsFunction, JsFunctionCfg};

fn info(start: u64, end: u64, name: Option<&str>) -> FunctionInfo {
    FunctionInfo {
        start_address: start,
        end_address: end,
        name: name.map(|n| n.to_string()),
        comment: None,
        flags: 0x400,
        is_far: false,
        does_return: true,
        analyzed_sp: true,
        len: (end - start) as usize,
        is_empty: end == start,
    }
}

fn sample() -> Vec<FunctionInfo> {
    vec![
        info(0x1000, 0x1010, Some("sub_1000")),
        info(0x2000, 0x2040, Some("main")),
        info(0x3000, 0x3004, None),
        info(0x4000, 0x4100, Some("sub_4000")),
        info(0x5000, 0x5008, Some("sub_5000")),
    ]
}

fn starts(fs: &[JsFunction]) -> Vec<u64> {
    fs.iter().map(|f| f.get_start_ea()).collect()
}

fn query(prefix: Option<&str>, range: Option<(i64, i64)>, limit: Option<u32>, offset: Option<u32>) -> FunctionQuery {
    FunctionQuery {
        prefix: prefix.map(|p| p.to_string()),
        address_range: range.map(|(start, end)| AddressRange { start, end }),
        limit,
        offset,
    }
}

#[test]
fn function_snapshot_getters() {
    let mut i = info(0x1000, 0x1010, Some("f"));
    i.comment = Some("note".to_string());
    i.flags = u64::MAX;
    let f = JsFunction::from_func(&i);
    assert_eq!(f.get_start_ea(), 0x1000);
    assert_eq!(f.get_end_ea(), 0x1010);
    assert_eq!(f.get_name(), Some("f"));
    assert_eq!(f.get_comment(), Some("note"));
    assert_eq!(f.get_flags(), u64::MAX);
    assert_eq!(f.flags, -1);
    assert!(!f.get_is_far());
    assert!(f.get_does_return());
    assert!(f.get_analyzed_sp());
    assert_eq!(f.get_len(), 16);
    assert!(!f.get_is_empty());
}

#[test]
fn high_addresses_roundtrip() {
    let i = info(0xffff_ffff_ffff_0000, 0xffff_ffff_ffff_fff0, None);
    let f = JsFunction::from_func(&i);
    assert!(f.start_ea < 0);
    assert_eq!(f.get_start_ea(), 0xffff_ffff_ffff_0000);
    assert_eq!(f.get_end_ea(), 0xffff_ffff_ffff_fff0);
    assert_eq!(f.get_name(), None);
}

#[test]
fn contains_address_checks_range_and_sign() {
    let f = JsFunction::from_func(&info(0x1000, 0x1010, None));
    assert!(f.contains_address(AddressArg { negative: false, value: 0x1000 }).unwrap());
    assert!(f.contains_address(AddressArg { negative: false, value: 0x100f }).unwrap());
    assert!(!f.contains_address(AddressArg { negative: false, value: 0x1010 }).unwrap());
    assert!(!f.contains_address(AddressArg { negative: false, value: 0xfff }).unwrap());
    assert!(matches!(
        f.contains_address(AddressArg { negative: true, value: 0x1000 }),
        Err(Error::NegativeAddress)
    ));
}

#[test]
fn function_length_is_cut_to_32_bits() {
    let mut i = info(0, 0x10, None);
    if usize::BITS == 64 {
        i.len = ((1u64 << 32) + 3) as usize;
        assert_eq!(JsFunction::from_func(&i).get_len(), 3);
    }
}

#[test]
fn list_keeps_order() {
    let fs = sample();
    let out = FunctionsCollection::list(&fs);
    assert_eq!(starts(&out), vec![0x1000, 0x2000, 0x3000, 0x4000, 0x5000]);
    assert_eq!(FunctionsCollection::count(fs.len()), 5);
}

#[test]
fn query_by_prefix_keeps_unnamed() {
    let fs = sample();
    let out = FunctionsCollection::query(&fs, &query(Some("sub_"), None, None, None));
    assert_eq!(starts(&out), vec![0x1000, 0x3000, 0x4000, 0x5000]);
}

#[test]
fn query_by_range() {
    let fs = sample();
    let out = FunctionsCollection::query(&fs, &query(None, Some((0x2000, 0x4000)), None, None));
    assert_eq!(starts(&out), vec![0x2000, 0x3000]);
}

#[test]
fn query_range_compares_signed() {
    let fs = vec![info(0xffff_ffff_ffff_0000, 0xffff_ffff_ffff_0010, None), info(0x10, 0x20, None)];
    let out = FunctionsCollection::query(&fs, &query(None, Some((i64::MIN, 0)), None, None));
    assert_eq!(starts(&out), vec![0xffff_ffff_ffff_0000]);
}

#[test]
fn query_offset_and_limit() {
    let fs = sample();
    let out = FunctionsCollection::query(&fs, &query(None, None, Some(2), Some(1)));
    assert_eq!(starts(&out), vec![0x2000, 0x3000]);
    let out = FunctionsCollection::query(&fs, &query(None, None, Some(0), None));
    assert!(out.is_empty());
    let out = FunctionsCollection::query(&fs, &query(None, None, None, Some(10)));
    assert!(out.is_empty());
    let out = FunctionsCollection::query(&fs, &query(Some("sub_"), None, Some(10), Some(2)));
    assert_eq!(starts(&out), vec![0x4000, 0x5000]);
}

#[test]
fn query_pages_concatenate() {
    let fs = sample();
    let first = FunctionsCollection::query(&fs, &query(Some("sub_"), None, Some(2), Some(1)));
    let second = FunctionsCollection::query(&fs, &query(Some("sub_"), None, Some(5), Some(3)));
    let both = FunctionsCollection::query(&fs, &query(Some("sub_"), None, Some(7), Some(1)));
    let mut joined = starts(&first);
    joined.extend(starts(&second));
    assert_eq!(joined, starts(&both));
}

#[test]
fn unfiltered_query_is_list() {
    let fs = sample();
    let out = FunctionsCollection::query(&fs, &query(None, None, None, None));
    assert_eq!(starts(&out), starts(&FunctionsCollection::list(&fs)));
    let out = FunctionsCollection::query(&fs, &query(None, None, None, Some(0)));
    assert_eq!(starts(&out), starts(&FunctionsCollection::list(&fs)));
}

#[test]
fn flow_chart_blocks() {
    let cfg = JsFunctionCfg::from_cfg(&vec![(0x1000, 0x1008), (0x1008, 0x1010)]);
    let blocks: Vec<JsBasicBlock> = cfg.basic_blocks();
    assert_eq!(blocks.len(), 2);
    assert_eq!(blocks[0].get_start_ea(), 0x1000);
    assert_eq!(blocks[0].get_end_ea(), 0x1008);
    assert_eq!(blocks[1].get_start_ea(), 0x1008);
    assert_eq!(blocks[1].get_end_ea(), 0x1010);
    let b = JsBasicBlock::new(u64::MAX, u64::MAX - 1);
    assert_eq!(b.get_start_ea(), u64::MAX);
    assert_eq!(b.get_end_ea(), u64::MAX - 1);
}
