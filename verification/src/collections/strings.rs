//! Listing the string literals of a database.
use vstd::prelude::*;

use crate::collections::entries::{
    lemma_present_entries_origin, lemma_present_entries_step, present_entries,
};
use crate::types::string_entry::{JsStringEntry, StringEntryView};

verus! {

/// What the library gives for one index of its string list: the address, the text, and
/// the length in bytes of the item.
#[derive(Debug)]
pub struct StringSlot {
    pub address: Option<u64>,
    pub value: Option<String>,
    pub length: usize,
}

/// The entry for index `index` of the string list: present when the library gives both an
/// address and a text there; the type is always zero.
pub open spec fn string_entry(index: int, slot: StringSlot) -> Option<StringEntryView> {
    match (slot.address, slot.value) {
        (Some(a), Some(v)) => Some(
            StringEntryView {
                index: index as u32,
                address: a,
                value: v@,
                length: slot.length as u32,
                str_type: 0,
            },
        ),
        _ => None,
    }
}

pub open spec fn string_maker() -> spec_fn(int, StringSlot) -> Option<StringEntryView> {
    |index: int, slot: StringSlot| string_entry(index, slot)
}

/// Every listed string comes from the slot at its index, which has both an address and a
/// text; it carries them, the slot's length (cut to 32 bits) and type zero. Every index with
/// both an address and a text is listed.
pub proof fn lemma_strings_come_from_their_slots(slots: Seq<StringSlot>)
    requires
        slots.len() <= 0x1_0000_0000,
    ensures
        forall|k: int|
            0 <= k < present_entries(slots, string_maker()).len() ==> {
                let e = #[trigger] present_entries(slots, string_maker())[k];
                &&& (e.index as int) < slots.len()
                &&& slots[e.index as int].address == Some(e.address)
                &&& slots[e.index as int].value matches Some(v) && v@ == e.value
                &&& e.length == slots[e.index as int].length as u32
                &&& e.str_type == 0
            },
        forall|i: int|
            0 <= i < slots.len() && (#[trigger] slots[i]).address is Some && slots[i].value is Some
                ==> exists|k: int|
                0 <= k < present_entries(slots, string_maker()).len() && present_entries(
                    slots,
                    string_maker(),
                )[k].index == i,
{
    let es = present_entries(slots, string_maker());
    lemma_present_entries_origin(slots, string_maker());
    assert forall|k: int| 0 <= k < es.len() implies {
        let e = #[trigger] es[k];
        &&& (e.index as int) < slots.len()
        &&& slots[e.index as int].address == Some(e.address)
        &&& slots[e.index as int].value matches Some(v) && v@ == e.value
        &&& e.length == slots[e.index as int].length as u32
        &&& e.str_type == 0
    } by {
        let i = choose|i: int|
            0 <= i < slots.len() && #[trigger] string_maker()(i, slots[i]) == Some(#[trigger] es[k]);
        assert(string_entry(i, slots[i]) == Some(es[k]));
    }
    assert forall|i: int|
        0 <= i < slots.len() && (#[trigger] slots[i]).address is Some && slots[i].value is Some
            implies exists|k: int| 0 <= k < es.len() && es[k].index == i by {
        assert(string_maker()(i, slots[i]) == string_entry(i, slots[i]));
        assert(string_maker()(i, slots[i]) is Some);
        let k = choose|k: int| 0 <= k < es.len() && Some(#[trigger] es[k]) == string_maker()(i, slots[i]);
        assert(es[k].index == i);
    }
}

/// The string literals of the library's list.
pub struct StringsCollection;

impl StringsCollection {
    /// One entry for each index of the library's list with an address and a text, in index
    /// order; `slots[i]` is what the library gives for index `i`.
    pub fn list(slots: &Vec<StringSlot>) -> (r: Vec<JsStringEntry>)
        ensures
            r@.map_values(|e: JsStringEntry| e@) == present_entries(slots@, string_maker()),
    {
        let mut entries: Vec<JsStringEntry> = Vec::new();
        let mut idx: usize = 0;
        while idx < slots.len()
            invariant
                idx <= slots@.len(),
                entries@.map_values(|e: JsStringEntry| e@) == present_entries(
                    slots@.take(idx as int),
                    string_maker(),
                ),
            decreases slots@.len() - idx,
        {
            proof {
                lemma_present_entries_step(slots@, idx as int, string_maker());
            }
            let slot = &slots[idx];
            match (&slot.address, &slot.value) {
                (Some(addr), Some(val)) => {
                    let entry = JsStringEntry {
                        index: idx as u32,
                        address: *addr,
                        value: val.clone(),
                        length: slot.length as u32,
                        str_type: 0,
                    };
                    let ghost before = entries@;
                    entries.push(entry);
                    proof {
                        assert(entries@.map_values(|e: JsStringEntry| e@) =~= before.map_values(
                            |e: JsStringEntry| e@,
                        ).push(entry@));
                    }
                },
                _ => {},
            }
            idx += 1;
        }
        proof {
            assert(slots@.take(idx as int) =~= slots@);
        }
        entries
    }
}

} // verus!
