use idalib_ts::collections::bookmarks::{BookmarkSlot, BookmarksCollection};
use idalib_ts::collections::names::{NameInfo, NamesCollection};
use idalib_ts::collections::segments::SegmentsCollection;
use idalib_ts::collections::strings::{StringSlot, StringsCollection};
use idalib_ts::collections::xrefs::{xref_code_only, xref_query_from_opts, XRefQueryKind, XRefQueryOpt, XRefScanStep, XRefsCollection};
use idalib_ts::types::name::JsNameProperties;
use idalib_ts::types::segment::{
    alignment_name, segment_type_name, snapshot_from_segment, JsSegmentPermissions, SegmentAlignment,
    SegmentInfo, SegmentType,
};
use idalib_ts::types::xref::{format_type, CodeRef, DataRef, JsXRef, XRefInfo, XRefType};

#[test]
fn bookmarks_skip_empty_slots() {
    let slots = vec![
        BookmarkSlot { address: Some(0x10), description: Some("entry".to_string()) },
        BookmarkSlot { address: None, description: Some("ignored".to_string()) },
        BookmarkSlot { address: Some(0xffff_ffff_ffff_fff0), description: None },
    ];
    let out = BookmarksCollection::list(&slots);
    assert_eq!(out.len(), 2);
    assert_eq!(out[0].address, 0x10);
    assert_eq!(out[0].description, "entry");
    assert!(out[0].is_enabled);
    assert_eq!(out[1].address, -16);
    assert_eq!(out[1].description, "");
    assert!(out[1].is_enabled);
}

#[test]
fn names_keep_their_list_index() {
    let slots = vec![
        None,
        Some(NameInfo { address: 0x401000, name: "main".to_string(), is_public: true, is_weak: false }),
        None,
        Some(NameInfo { address: 0x402000, name: "helper".to_string(), is_public: false, is_weak: true }),
    ];
    let out = NamesCollection::list(&slots);
    assert_eq!(out.len(), 2);
    assert_eq!(out[0].get_index(), 1);
    assert_eq!(out[0].get_address(), 0x401000);
    assert_eq!(out[0].get_name(), "main");
    assert_eq!(out[0].get_properties(), JsNameProperties { is_public: true, is_weak: false });
    assert_eq!(out[1].get_index(), 3);
    assert_eq!(out[1].get_properties(), JsNameProperties { is_public: false, is_weak: true });
}

#[test]
fn strings_need_address_and_text() {
    let slots = vec![
        StringSlot { address: Some(0x10), value: Some("hello".to_string()), length: 6 },
        StringSlot { address: None, value: Some("lost".to_string()), length: 5 },
        StringSlot { address: Some(0x30), value: None, length: 3 },
        StringSlot { address: Some(0x40), value: Some("x".to_string()), length: 2 },
    ];
    let out = StringsCollection::list(&slots);
    assert_eq!(out.len(), 2);
    assert_eq!(out[0].get_index(), 0);
    assert_eq!(out[0].get_address(), 0x10);
    assert_eq!(out[0].get_value(), "hello");
    assert_eq!(out[0].get_length(), 6);
    assert_eq!(out[0].get_str_type(), 0);
    assert_eq!(out[1].get_index(), 3);
    assert_eq!(out[1].get_value(), "x");
}

fn seg(bitness: usize, name: Option<&str>) -> SegmentInfo {
    SegmentInfo {
        start_address: 0x1000,
        end_address: 0x2000,
        name: name.map(|n| n.to_string()),
        permissions: JsSegmentPermissions { read: true, write: false, execute: true },
        alignment: SegmentAlignment::RelPara,
        seg_type: SegmentType::CODE,
        bitness,
    }
}

#[test]
fn segment_snapshots() {
    let s = snapshot_from_segment(&seg(1, Some(".text")));
    assert_eq!(s.start_address, 0x1000);
    assert_eq!(s.end_address, 0x2000);
    assert_eq!(s.name, ".text");
    assert_eq!(s.permissions, JsSegmentPermissions { read: true, write: false, execute: true });
    assert_eq!(s.alignment, "RelPara");
    assert_eq!(s.seg_type, "CODE");
    assert_eq!(s.color, 0);
    assert_eq!(s.bit_size, 32);
    assert_eq!(snapshot_from_segment(&seg(0, None)).bit_size, 16);
    assert_eq!(snapshot_from_segment(&seg(0, None)).name, "");
    assert_eq!(snapshot_from_segment(&seg(2, None)).bit_size, 64);
    let all = SegmentsCollection::list(&vec![seg(0, Some("a")), seg(2, Some("b"))]);
    assert_eq!(all.len(), 2);
    assert_eq!(all[1].name, "b");
}

#[test]
fn segment_names() {
    assert_eq!(alignment_name(SegmentAlignment::Abs), "Abs");
    assert_eq!(alignment_name(SegmentAlignment::Rel4K), "Rel4K");
    assert_eq!(alignment_name(SegmentAlignment::Rel2048Bytes), "Rel2048Bytes");
    assert_eq!(segment_type_name(SegmentType::NORM), "NORM");
    assert_eq!(segment_type_name(SegmentType::ABSSYM), "ABSSYM");
    assert_eq!(segment_type_name(SegmentType::IMEM), "IMEM");
}

#[test]
fn xref_kind_names() {
    assert_eq!(format_type(&XRefType::Code(CodeRef::NearCall)), "near_call");
    assert_eq!(format_type(&XRefType::Code(CodeRef::Flow)), "flow");
    assert_eq!(format_type(&XRefType::Code(CodeRef::Unknown)), "unknown");
    assert_eq!(format_type(&XRefType::Data(DataRef::Unknown)), "unknown");
    assert_eq!(format_type(&XRefType::Data(DataRef::EnumMember)), "enum_member");
    assert_eq!(format_type(&XRefType::Data(DataRef::Informational)), "informational");
}

fn xref(from: u64, is_code: bool) -> XRefInfo {
    XRefInfo {
        from,
        to: 0x5000,
        is_code,
        kind: if is_code { XRefType::Code(CodeRef::NearJump) } else { XRefType::Data(DataRef::Read) },
        flags: 0x20,
    }
}

#[test]
fn xref_snapshot_getters() {
    let j = JsXRef::new(&xref(0xffff_ffff_0000_0000, false));
    assert_eq!(j.get_from(), 0xffff_ffff_0000_0000);
    assert_eq!(j.get_to(), 0x5000);
    assert!(!j.get_is_code());
    assert!(j.get_is_data());
    assert_eq!(j.get_type(), "read");
    assert_eq!(j.get_flags(), 0x20);
}

#[test]
fn xref_query_options() {
    let opt = |t: Option<&str>| XRefQueryOpt { type_: t.map(|s| s.to_string()) };
    assert_eq!(xref_query_from_opts(None), XRefQueryKind::All);
    assert_eq!(xref_query_from_opts(Some(&opt(None))), XRefQueryKind::All);
    assert_eq!(xref_query_from_opts(Some(&opt(Some("data")))), XRefQueryKind::Data);
    assert_eq!(xref_query_from_opts(Some(&opt(Some("code")))), XRefQueryKind::All);
    assert!(xref_code_only(Some(&opt(Some("code")))));
    assert!(!xref_code_only(Some(&opt(Some("data")))));
    assert!(!xref_code_only(None));
}

fn walk(code_only: bool, chain: &[XRefInfo]) -> Option<u64> {
    let mut k = 0;
    loop {
        match XRefsCollection::scan_step(code_only, chain.get(k)) {
            XRefScanStep::Done(found) => return found.map(|j| j.get_from()),
            XRefScanStep::Next => k += 1,
        }
    }
}

#[test]
fn xref_lookup_answers_first_accepted() {
    let chain = vec![xref(1, false), xref(2, false), xref(3, true), xref(4, true)];
    assert_eq!(walk(true, &chain), Some(3));
    assert_eq!(walk(false, &chain), Some(1));
    assert_eq!(walk(true, &chain[..2]), None);
    assert_eq!(walk(false, &[]), None);
}
