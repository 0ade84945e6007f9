//! Segments of a database.
use vstd::prelude::*;

use crate::address::signed_address;
use crate::types::function::clone_text;
use vstd::string::StringExecFns;

verus! {

/// How a segment is aligned.
#[derive(Debug, Clone, Copy, PartialEq, Eq, Structural)]
pub enum SegmentAlignment {
    Abs,
    RelByte,
    RelWord,
    RelPara,
    RelPage,
    RelDble,
    Rel4K,
    Group,
    Rel32Bytes,
    Rel64Bytes,
    RelQword,
    Rel128Bytes,
    Rel512Bytes,
    Rel1024Bytes,
    Rel2048Bytes,
}

/// What a segment holds.
#[allow(non_camel_case_types)]
#[derive(Debug, Clone, Copy, PartialEq, Eq, Structural)]
pub enum SegmentType {
    NORM,
    XTRN,
    CODE,
    DATA,
    IMP,
    GRP,
    NULL,
    UNDF,
    BSS,
    ABSSYM,
    COMM,
    IMEM,
}

/// The name of an alignment: the variant's own name.
pub open spec fn alignment_text(a: SegmentAlignment) -> Seq<char> {
    match a {
        SegmentAlignment::Abs => "Abs"@,
        SegmentAlignment::RelByte => "RelByte"@,
        SegmentAlignment::RelWord => "RelWord"@,
        SegmentAlignment::RelPara => "RelPara"@,
        SegmentAlignment::RelPage => "RelPage"@,
        SegmentAlignment::RelDble => "RelDble"@,
        SegmentAlignment::Rel4K => "Rel4K"@,
        SegmentAlignment::Group => "Group"@,
        SegmentAlignment::Rel32Bytes => "Rel32Bytes"@,
        SegmentAlignment::Rel64Bytes => "Rel64Bytes"@,
        SegmentAlignment::RelQword => "RelQword"@,
        SegmentAlignment::Rel128Bytes => "Rel128Bytes"@,
        SegmentAlignment::Rel512Bytes => "Rel512Bytes"@,
        SegmentAlignment::Rel1024Bytes => "Rel1024Bytes"@,
        SegmentAlignment::Rel2048Bytes => "Rel2048Bytes"@,
    }
}

/// The name of a segment type: the variant's own name.
pub open spec fn type_text(t: SegmentType) -> Seq<char> {
    match t {
        SegmentType::NORM => "NORM"@,
        SegmentType::XTRN => "XTRN"@,
        SegmentType::CODE => "CODE"@,
        SegmentType::DATA => "DATA"@,
        SegmentType::IMP => "IMP"@,
        SegmentType::GRP => "GRP"@,
        SegmentType::NULL => "NULL"@,
        SegmentType::UNDF => "UNDF"@,
        SegmentType::BSS => "BSS"@,
        SegmentType::ABSSYM => "ABSSYM"@,
        SegmentType::COMM => "COMM"@,
        SegmentType::IMEM => "IMEM"@,
    }
}

/// The name of an alignment.
pub fn alignment_name(alignment: SegmentAlignment) -> (r: String)
    ensures
        r@ == alignment_text(alignment),
{
    let name = match alignment {
        SegmentAlignment::Abs => "Abs",
        SegmentAlignment::RelByte => "RelByte",
        SegmentAlignment::RelWord => "RelWord",
        SegmentAlignment::RelPara => "RelPara",
        SegmentAlignment::RelPage => "RelPage",
        SegmentAlignment::RelDble => "RelDble",
        SegmentAlignment::Rel4K => "Rel4K",
        SegmentAlignment::Group => "Group",
        SegmentAlignment::Rel32Bytes => "Rel32Bytes",
        SegmentAlignment::Rel64Bytes => "Rel64Bytes",
        SegmentAlignment::RelQword => "RelQword",
        SegmentAlignment::Rel128Bytes => "Rel128Bytes",
        SegmentAlignment::Rel512Bytes => "Rel512Bytes",
        SegmentAlignment::Rel1024Bytes => "Rel1024Bytes",
        SegmentAlignment::Rel2048Bytes => "Rel2048Bytes",
    };
    String::from_str(name)
}

/// The name of a segment type.
pub fn segment_type_name(seg_type: SegmentType) -> (r: String)
    ensures
        r@ == type_text(seg_type),
{
    let name = match seg_type {
        SegmentType::NORM => "NORM",
        SegmentType::XTRN => "XTRN",
        SegmentType::CODE => "CODE",
        SegmentType::DATA => "DATA",
        SegmentType::IMP => "IMP",
        SegmentType::GRP => "GRP",
        SegmentType::NULL => "NULL",
        SegmentType::UNDF => "UNDF",
        SegmentType::BSS => "BSS",
        SegmentType::ABSSYM => "ABSSYM",
        SegmentType::COMM => "COMM",
        SegmentType::IMEM => "IMEM",
    };
    String::from_str(name)
}

/// Access rights of a segment.
#[derive(Debug, Clone, Copy, PartialEq, Eq, Structural)]
pub struct JsSegmentPermissions {
    pub read: bool,
    pub write: bool,
    pub execute: bool,
}

/// What the library reports about one segment.
#[derive(Debug)]
pub struct SegmentInfo {
    pub start_address: u64,
    pub end_address: u64,
    pub name: Option<String>,
    pub permissions: JsSegmentPermissions,
    pub alignment: SegmentAlignment,
    pub seg_type: SegmentType,
    pub bitness: usize,
}

/// A segment as the SDK hands it out.
#[derive(Debug)]
pub struct JsSegment {
    pub start_address: i64,
    pub end_address: i64,
    pub name: String,
    pub permissions: JsSegmentPermissions,
    pub alignment: String,
    pub seg_type: String,
    pub color: u32,
    pub bit_size: u32,
}

/// Whether `s` is the SDK's snapshot of the library's report `info`: addresses stored
/// signed, an absent name empty, alignment and type by name, no color, and a width of
/// 16 bits doubled `bitness` times.
pub open spec fn is_segment_snapshot(s: JsSegment, info: SegmentInfo) -> bool {
    &&& s.start_address == signed_address(info.start_address)
    &&& s.end_address == signed_address(info.end_address)
    &&& s.name@ == match info.name {
        Some(n) => n@,
        None => Seq::<char>::empty(),
    }
    &&& s.permissions == info.permissions
    &&& s.alignment@ == alignment_text(info.alignment)
    &&& s.seg_type@ == type_text(info.seg_type)
    &&& s.color == 0
    &&& s.bit_size == (16u32 << (info.bitness as u32))
}

/// The SDK's snapshot of a segment. The width is `16 << bitness`, so `bitness` must be
/// below 32.
pub fn snapshot_from_segment(info: &SegmentInfo) -> (r: JsSegment)
    requires
        info.bitness < 32,
    ensures
        is_segment_snapshot(r, *info),
        info.bitness == 0 ==> r.bit_size == 16,
        info.bitness == 1 ==> r.bit_size == 32,
        info.bitness == 2 ==> r.bit_size == 64,
{
    let name = match clone_text(&info.name) {
        Some(n) => n,
        None => String::new(),
    };
    let shift = info.bitness as u32;
    let bit_size = 16u32 << shift;
    proof {
        if shift == 0 {
            assert(16u32 << 0u32 == 16) by (bit_vector);
        } else if shift == 1 {
            assert(16u32 << 1u32 == 32) by (bit_vector);
        } else if shift == 2 {
            assert(16u32 << 2u32 == 64) by (bit_vector);
        }
    }
    JsSegment {
        start_address: info.start_address as i64,
        end_address: info.end_address as i64,
        name,
        permissions: info.permissions,
        alignment: alignment_name(info.alignment),
        seg_type: segment_type_name(info.seg_type),
        color: 0,
        bit_size,
    }
}

/// A segment's snapshot gives back the reported addresses, its name (empty when it has
/// none), the same three access rights, the alignment and type by their names, no color, and
/// a width of 16, 32 or 64 bits for bitness 0, 1 or 2, doubling with each step.
pub proof fn lemma_segment_snapshot_fields(s: JsSegment, info: SegmentInfo)
    requires
        is_segment_snapshot(s, info),
        info.bitness < 32,
    ensures
        s.start_address as u64 == info.start_address,
        s.end_address as u64 == info.end_address,
        info.name matches Some(n) ==> s.name@ == n@,
        info.name is None ==> s.name@.len() == 0,
        s.permissions.read == info.permissions.read,
        s.permissions.write == info.permissions.write,
        s.permissions.execute == info.permissions.execute,
        s.alignment@ == alignment_text(info.alignment),
        s.seg_type@ == type_text(info.seg_type),
        s.color == 0,
        info.bitness == 0 ==> s.bit_size == 16,
        info.bitness == 1 ==> s.bit_size == 32,
        info.bitness == 2 ==> s.bit_size == 64,
        1 <= info.bitness < 28 ==> s.bit_size == 2 * (16u32 << ((info.bitness - 1) as u32)),
{
    crate::address::lemma_signed_address_roundtrip(info.start_address);
    crate::address::lemma_signed_address_roundtrip(info.end_address);
    let b = info.bitness as u32;
    assert(b == 0 ==> 16u32 << b == 16) by (bit_vector);
    assert(b == 1 ==> 16u32 << b == 32) by (bit_vector);
    assert(b == 2 ==> 16u32 << b == 64) by (bit_vector);
    assert(1 <= b < 28 ==> 16u32 << b == 2 * (16u32 << ((b - 1) as u32))) by (bit_vector);
}

/// Which segment type a name stands for, told apart by a few of its characters.
spec fn segment_type_of_name(t: Seq<char>) -> SegmentType {
    if t[0] == 'N' {
        if t[1] == 'O' {
            SegmentType::NORM
        } else {
            SegmentType::NULL
        }
    } else if t[0] == 'X' {
        SegmentType::XTRN
    } else if t[0] == 'C' {
        if t[2] == 'D' {
            SegmentType::CODE
        } else {
            SegmentType::COMM
        }
    } else if t[0] == 'D' {
        SegmentType::DATA
    } else if t[0] == 'I' {
        if t[2] == 'P' {
            SegmentType::IMP
        } else {
            SegmentType::IMEM
        }
    } else if t[0] == 'G' {
        SegmentType::GRP
    } else if t[0] == 'U' {
        SegmentType::UNDF
    } else if t[0] == 'B' {
        SegmentType::BSS
    } else {
        SegmentType::ABSSYM
    }
}

/// Which alignment a name stands for, told apart by a few of its characters.
spec fn alignment_of_name(t: Seq<char>) -> SegmentAlignment {
    if t[0] == 'A' {
        SegmentAlignment::Abs
    } else if t[0] == 'G' {
        SegmentAlignment::Group
    } else if t[3] == 'B' {
        SegmentAlignment::RelByte
    } else if t[3] == 'W' {
        SegmentAlignment::RelWord
    } else if t[3] == 'P' {
        if t[5] == 'r' {
            SegmentAlignment::RelPara
        } else {
            SegmentAlignment::RelPage
        }
    } else if t[3] == 'D' {
        SegmentAlignment::RelDble
    } else if t[3] == 'Q' {
        SegmentAlignment::RelQword
    } else if t[3] == '4' {
        SegmentAlignment::Rel4K
    } else if t[3] == '3' {
        SegmentAlignment::Rel32Bytes
    } else if t[3] == '6' {
        SegmentAlignment::Rel64Bytes
    } else if t[3] == '5' {
        SegmentAlignment::Rel512Bytes
    } else if t[3] == '2' {
        SegmentAlignment::Rel2048Bytes
    } else if t[4] == '2' {
        SegmentAlignment::Rel128Bytes
    } else {
        SegmentAlignment::Rel1024Bytes
    }
}

/// Each segment type is reported by its own variant name, and distinct types by distinct
/// names.
pub proof fn lemma_segment_type_names()
    ensures
        type_text(SegmentType::NORM) == "NORM"@,
        type_text(SegmentType::XTRN) == "XTRN"@,
        type_text(SegmentType::CODE) == "CODE"@,
        type_text(SegmentType::DATA) == "DATA"@,
        type_text(SegmentType::IMP) == "IMP"@,
        type_text(SegmentType::GRP) == "GRP"@,
        type_text(SegmentType::NULL) == "NULL"@,
        type_text(SegmentType::UNDF) == "UNDF"@,
        type_text(SegmentType::BSS) == "BSS"@,
        type_text(SegmentType::ABSSYM) == "ABSSYM"@,
        type_text(SegmentType::COMM) == "COMM"@,
        type_text(SegmentType::IMEM) == "IMEM"@,
        forall|a: SegmentType, b: SegmentType|
            a != b ==> #[trigger] type_text(a) != #[trigger] type_text(b),
{
    reveal_strlit("NORM");
    reveal_strlit("XTRN");
    reveal_strlit("CODE");
    reveal_strlit("DATA");
    reveal_strlit("IMP");
    reveal_strlit("GRP");
    reveal_strlit("NULL");
    reveal_strlit("UNDF");
    reveal_strlit("BSS");
    reveal_strlit("ABSSYM");
    reveal_strlit("COMM");
    reveal_strlit("IMEM");
    assert forall|a: SegmentType| #[trigger] segment_type_of_name(type_text(a)) == a by {
        match a {
            SegmentType::NORM => {},
            SegmentType::XTRN => {},
            SegmentType::CODE => {},
            SegmentType::DATA => {},
            SegmentType::IMP => {},
            SegmentType::GRP => {},
            SegmentType::NULL => {},
            SegmentType::UNDF => {},
            SegmentType::BSS => {},
            SegmentType::ABSSYM => {},
            SegmentType::COMM => {},
            SegmentType::IMEM => {},
        }
    }
    assert forall|a: SegmentType, b: SegmentType| a != b implies #[trigger] type_text(a)
        != #[trigger] type_text(b) by {
        assert(segment_type_of_name(type_text(a)) == a);
        assert(segment_type_of_name(type_text(b)) == b);
    }
}

/// Each alignment is reported by its own variant name, and distinct alignments by distinct
/// names.
pub proof fn lemma_alignment_names()
    ensures
        alignment_text(SegmentAlignment::Abs) == "Abs"@,
        alignment_text(SegmentAlignment::RelByte) == "RelByte"@,
        alignment_text(SegmentAlignment::RelWord) == "RelWord"@,
        alignment_text(SegmentAlignment::RelPara) == "RelPara"@,
        alignment_text(SegmentAlignment::RelPage) == "RelPage"@,
        alignment_text(SegmentAlignment::RelDble) == "RelDble"@,
        alignment_text(SegmentAlignment::Rel4K) == "Rel4K"@,
        alignment_text(SegmentAlignment::Group) == "Group"@,
        alignment_text(SegmentAlignment::Rel32Bytes) == "Rel32Bytes"@,
        alignment_text(SegmentAlignment::Rel64Bytes) == "Rel64Bytes"@,
        alignment_text(SegmentAlignment::RelQword) == "RelQword"@,
        alignment_text(SegmentAlignment::Rel128Bytes) == "Rel128Bytes"@,
        alignment_text(SegmentAlignment::Rel512Bytes) == "Rel512Bytes"@,
        alignment_text(SegmentAlignment::Rel1024Bytes) == "Rel1024Bytes"@,
        alignment_text(SegmentAlignment::Rel2048Bytes) == "Rel2048Bytes"@,
        forall|a: SegmentAlignment, b: SegmentAlignment|
            a != b ==> #[trigger] alignment_text(a) != #[trigger] alignment_text(b),
{
    reveal_strlit("Abs");
    reveal_strlit("RelByte");
    reveal_strlit("RelWord");
    reveal_strlit("RelPara");
    reveal_strlit("RelPage");
    reveal_strlit("RelDble");
    reveal_strlit("Rel4K");
    reveal_strlit("Group");
    reveal_strlit("Rel32Bytes");
    reveal_strlit("Rel64Bytes");
    reveal_strlit("RelQword");
    reveal_strlit("Rel128Bytes");
    reveal_strlit("Rel512Bytes");
    reveal_strlit("Rel1024Bytes");
    reveal_strlit("Rel2048Bytes");
    assert forall|a: SegmentAlignment| #[trigger] alignment_of_name(alignment_text(a)) == a by {
        match a {
            SegmentAlignment::Abs => {},
            SegmentAlignment::RelByte => {},
            SegmentAlignment::RelWord => {},
            SegmentAlignment::RelPara => {},
            SegmentAlignment::RelPage => {},
            SegmentAlignment::RelDble => {},
            SegmentAlignment::Rel4K => {},
            SegmentAlignment::Group => {},
            SegmentAlignment::Rel32Bytes => {},
            SegmentAlignment::Rel64Bytes => {},
            SegmentAlignment::RelQword => {},
            SegmentAlignment::Rel128Bytes => {},
            SegmentAlignment::Rel512Bytes => {},
            SegmentAlignment::Rel1024Bytes => {},
            SegmentAlignment::Rel2048Bytes => {},
        }
    }
    assert forall|a: SegmentAlignment, b: SegmentAlignment| a != b implies #[trigger] alignment_text(
        a,
    ) != #[trigger] alignment_text(b) by {
        assert(alignment_of_name(alignment_text(a)) == a);
        assert(alignment_of_name(alignment_text(b)) == b);
    }
}

} // verus!
