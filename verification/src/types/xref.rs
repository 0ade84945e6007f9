//! Cross-references between addresses.
use vstd::prelude::*;

use crate::address::signed_address;
use vstd::string::StringExecFns;

verus! {

/// The kinds of code cross-references.
#[derive(Debug, Clone, Copy, PartialEq, Eq, Structural)]
pub enum CodeRef {
    Unknown,
    FarCall,
    NearCall,
    FarJump,
    NearJump,
    Obsolete,
    Flow,
}

/// The kinds of data cross-references.
#[derive(Debug, Clone, Copy, PartialEq, Eq, Structural)]
pub enum DataRef {
    Unknown,
    Offset,
    Write,
    Read,
    Text,
    Informational,
    EnumMember,
}

/// The kind of a cross-reference.
#[derive(Debug, Clone, Copy, PartialEq, Eq, Structural)]
pub enum XRefType {
    Code(CodeRef),
    Data(DataRef),
}

/// What the library reports about one cross-reference.
#[derive(Debug, Clone, Copy, PartialEq, Eq, Structural)]
pub struct XRefInfo {
    pub from: u64,
    pub to: u64,
    pub is_code: bool,
    pub kind: XRefType,
    pub flags: u8,
}

/// The name of a cross-reference kind.
pub open spec fn type_text(t: XRefType) -> Seq<char> {
    match t {
        XRefType::Code(c) => match c {
            CodeRef::Unknown => "unknown"@,
            CodeRef::FarCall => "far_call"@,
            CodeRef::NearCall => "near_call"@,
            CodeRef::FarJump => "far_jump"@,
            CodeRef::NearJump => "near_jump"@,
            CodeRef::Obsolete => "obsolete"@,
            CodeRef::Flow => "flow"@,
        },
        XRefType::Data(d) => match d {
            DataRef::Unknown => "unknown"@,
            DataRef::Offset => "offset"@,
            DataRef::Write => "write"@,
            DataRef::Read => "read"@,
            DataRef::Text => "text"@,
            DataRef::Informational => "informational"@,
            DataRef::EnumMember => "enum_member"@,
        },
    }
}

/// The name of a cross-reference kind.
pub fn format_type(t: &XRefType) -> (r: String)
    ensures
        r@ == type_text(*t),
{
    let name = match t {
        XRefType::Code(c) => match c {
            CodeRef::Unknown => "unknown",
            CodeRef::FarCall => "far_call",
            CodeRef::NearCall => "near_call",
            CodeRef::FarJump => "far_jump",
            CodeRef::NearJump => "near_jump",
            CodeRef::Obsolete => "obsolete",
            CodeRef::Flow => "flow",
        },
        XRefType::Data(d) => match d {
            DataRef::Unknown => "unknown",
            DataRef::Offset => "offset",
            DataRef::Write => "write",
            DataRef::Read => "read",
            DataRef::Text => "text",
            DataRef::Informational => "informational",
            DataRef::EnumMember => "enum_member",
        },
    };
    String::from_str(name)
}

/// A cross-reference as the SDK hands it out.
#[derive(Debug)]
pub struct JsXRef {
    pub from: i64,
    pub to: i64,
    pub is_code: bool,
    pub type_: String,
    pub flags: u8,
}

/// Whether `j` is the SDK's snapshot of the library's report `x`.
pub open spec fn is_snapshot_of(j: JsXRef, x: XRefInfo) -> bool {
    &&& j.from == signed_address(x.from)
    &&& j.to == signed_address(x.to)
    &&& j.is_code == x.is_code
    &&& j.type_@ == type_text(x.kind)
    &&& j.flags == x.flags
}

impl JsXRef {
    /// The SDK's snapshot of the library's report `xref`.
    pub fn new(xref: &XRefInfo) -> (r: JsXRef)
        ensures
            is_snapshot_of(r, *xref),
    {
        JsXRef {
            from: xref.from as i64,
            to: xref.to as i64,
            is_code: xref.is_code,
            type_: format_type(&xref.kind),
            flags: xref.flags,
        }
    }

    pub fn get_from(&self) -> (r: u64)
        ensures
            r == self.from as u64,
    {
        self.from as u64
    }

    pub fn get_to(&self) -> (r: u64)
        ensures
            r == self.to as u64,
    {
        self.to as u64
    }

    pub fn get_is_code(&self) -> (r: bool)
        ensures
            r == self.is_code,
    {
        self.is_code
    }

    pub fn get_type(&self) -> (r: &str)
        ensures
            r@ == self.type_@,
    {
        self.type_.as_str()
    }

    pub fn get_is_data(&self) -> (r: bool)
        ensures
            r == !self.is_code,
    {
        !self.is_code
    }

    pub fn get_flags(&self) -> (r: u8)
        ensures
            r == self.flags,
    {
        self.flags
    }
}

/// The snapshot's getters give back the addresses, the code flag, the kind's name and the
/// flags it was made from.
pub proof fn lemma_xref_snapshot_roundtrip(j: JsXRef, x: XRefInfo)
    requires
        is_snapshot_of(j, x),
    ensures
        j.from as u64 == x.from,
        j.to as u64 == x.to,
        j.is_code == x.is_code,
        j.type_@ == type_text(x.kind),
        j.flags == x.flags,
{
    crate::address::lemma_signed_address_roundtrip(x.from);
    crate::address::lemma_signed_address_roundtrip(x.to);
}

/// Which code kind a name stands for, told apart by a few of its characters.
spec fn code_kind_of_name(t: Seq<char>) -> CodeRef {
    if t[0] == 'u' {
        CodeRef::Unknown
    } else if t[0] == 'o' {
        CodeRef::Obsolete
    } else if t[0] == 'n' {
        if t[5] == 'c' {
            CodeRef::NearCall
        } else {
            CodeRef::NearJump
        }
    } else if t.len() == 4 {
        CodeRef::Flow
    } else if t[4] == 'c' {
        CodeRef::FarCall
    } else {
        CodeRef::FarJump
    }
}

/// Which data kind a name stands for, told apart by its first character.
spec fn data_kind_of_name(t: Seq<char>) -> DataRef {
    if t[0] == 'u' {
        DataRef::Unknown
    } else if t[0] == 'o' {
        DataRef::Offset
    } else if t[0] == 'w' {
        DataRef::Write
    } else if t[0] == 'r' {
        DataRef::Read
    } else if t[0] == 't' {
        DataRef::Text
    } else if t[0] == 'i' {
        DataRef::Informational
    } else {
        DataRef::EnumMember
    }
}

/// Each cross-reference kind is reported by its own name, and within each family (code or
/// data) distinct kinds are reported by distinct names.
pub proof fn lemma_xref_kind_names()
    ensures
        type_text(XRefType::Code(CodeRef::Unknown)) == "unknown"@,
        type_text(XRefType::Code(CodeRef::FarCall)) == "far_call"@,
        type_text(XRefType::Code(CodeRef::NearCall)) == "near_call"@,
        type_text(XRefType::Code(CodeRef::FarJump)) == "far_jump"@,
        type_text(XRefType::Code(CodeRef::NearJump)) == "near_jump"@,
        type_text(XRefType::Code(CodeRef::Obsolete)) == "obsolete"@,
        type_text(XRefType::Code(CodeRef::Flow)) == "flow"@,
        type_text(XRefType::Data(DataRef::Unknown)) == "unknown"@,
        type_text(XRefType::Data(DataRef::Offset)) == "offset"@,
        type_text(XRefType::Data(DataRef::Write)) == "write"@,
        type_text(XRefType::Data(DataRef::Read)) == "read"@,
        type_text(XRefType::Data(DataRef::Text)) == "text"@,
        type_text(XRefType::Data(DataRef::Informational)) == "informational"@,
        type_text(XRefType::Data(DataRef::EnumMember)) == "enum_member"@,
        forall|a: CodeRef, b: CodeRef|
            a != b ==> #[trigger] type_text(XRefType::Code(a)) != #[trigger] type_text(
                XRefType::Code(b),
            ),
        forall|a: DataRef, b: DataRef|
            a != b ==> #[trigger] type_text(XRefType::Data(a)) != #[trigger] type_text(
                XRefType::Data(b),
            ),
{
    reveal_strlit("unknown");
    reveal_strlit("far_call");
    reveal_strlit("near_call");
    reveal_strlit("far_jump");
    reveal_strlit("near_jump");
    reveal_strlit("obsolete");
    reveal_strlit("flow");
    reveal_strlit("offset");
    reveal_strlit("write");
    reveal_strlit("read");
    reveal_strlit("text");
    reveal_strlit("informational");
    reveal_strlit("enum_member");
    assert forall|a: CodeRef| #[trigger] code_kind_of_name(type_text(XRefType::Code(a))) == a by {
        match a {
            CodeRef::Unknown => {},
            CodeRef::FarCall => {},
            CodeRef::NearCall => {},
            CodeRef::FarJump => {},
            CodeRef::NearJump => {},
            CodeRef::Obsolete => {},
            CodeRef::Flow => {},
        }
    }
    assert forall|a: DataRef| #[trigger] data_kind_of_name(type_text(XRefType::Data(a))) == a by {
        match a {
            DataRef::Unknown => {},
            DataRef::Offset => {},
            DataRef::Write => {},
            DataRef::Read => {},
            DataRef::Text => {},
            DataRef::Informational => {},
            DataRef::EnumMember => {},
        }
    }
    assert forall|a: CodeRef, b: CodeRef| a != b implies #[trigger] type_text(XRefType::Code(a))
        != #[trigger] type_text(XRefType::Code(b)) by {
        assert(code_kind_of_name(type_text(XRefType::Code(a))) == a);
        assert(code_kind_of_name(type_text(XRefType::Code(b))) == b);
    }
    assert forall|a: DataRef, b: DataRef| a != b implies #[trigger] type_text(XRefType::Data(a))
        != #[trigger] type_text(XRefType::Data(b)) by {
        assert(data_kind_of_name(type_text(XRefType::Data(a))) == a);
        assert(data_kind_of_name(type_text(XRefType::Data(b))) == b);
    }
}

} // verus!
