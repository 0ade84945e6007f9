//! Listing the names of a database.
use vstd::prelude::*;

use crate::collections::entries::{
    lemma_present_entries_origin, lemma_present_entries_step, present_entries,
};
use crate::types::name::{JsNameEntry, JsNameProperties, NameEntryView};

verus! {

/// What the library reports about one name.
#[derive(Debug)]
pub struct NameInfo {
    pub address: u64,
    pub name: String,
    pub is_public: bool,
    pub is_weak: bool,
}

/// The entry for the name at `index` of the library's list, when the library has one there.
pub open spec fn name_entry(index: int, slot: Option<NameInfo>) -> Option<NameEntryView> {
    match slot {
        Some(n) => Some(
            NameEntryView {
                index: index as u32,
                address: n.address,
                name: n.name@,
                properties: JsNameProperties { is_public: n.is_public, is_weak: n.is_weak },
            },
        ),
        None => None,
    }
}

pub open spec fn name_maker() -> spec_fn(int, Option<NameInfo>) -> Option<NameEntryView> {
    |index: int, slot: Option<NameInfo>| name_entry(index, slot)
}

/// Every listed name comes from the slot at its index and carries that slot's address, text
/// and properties; every index that holds a name is listed.
pub proof fn lemma_names_come_from_their_slots(slots: Seq<Option<NameInfo>>)
    requires
        slots.len() <= 0x1_0000_0000,
    ensures
        forall|k: int|
            0 <= k < present_entries(slots, name_maker()).len() ==> {
                let e = #[trigger] present_entries(slots, name_maker())[k];
                &&& (e.index as int) < slots.len()
                &&& slots[e.index as int] matches Some(n) && e.address == n.address && e.name
                    == n.name@ && e.properties.is_public == n.is_public && e.properties.is_weak
                    == n.is_weak
            },
        forall|i: int|
            0 <= i < slots.len() && (#[trigger] slots[i]) is Some ==> exists|k: int|
                0 <= k < present_entries(slots, name_maker()).len() && present_entries(
                    slots,
                    name_maker(),
                )[k].index == i,
{
    let es = present_entries(slots, name_maker());
    lemma_present_entries_origin(slots, name_maker());
    assert forall|k: int| 0 <= k < es.len() implies {
        let e = #[trigger] es[k];
        &&& (e.index as int) < slots.len()
        &&& slots[e.index as int] matches Some(n) && e.address == n.address && e.name == n.name@
            && e.properties.is_public == n.is_public && e.properties.is_weak == n.is_weak
    } by {
        let i = choose|i: int| 0 <= i < slots.len() && #[trigger] name_maker()(i, slots[i]) == Some(
            #[trigger] es[k],
        );
        assert(name_entry(i, slots[i]) == Some(es[k]));
    }
    assert forall|i: int| 0 <= i < slots.len() && (#[trigger] slots[i]) is Some implies exists|k: int|
        0 <= k < es.len() && es[k].index == i by {
        assert(name_maker()(i, slots[i]) == name_entry(i, slots[i]));
        assert(name_maker()(i, slots[i]) is Some);
        let k = choose|k: int| 0 <= k < es.len() && Some(#[trigger] es[k]) == name_maker()(i, slots[i]);
        assert(es[k].index == i);
    }
}

/// The names of the library's list.
pub struct NamesCollection;

impl NamesCollection {
    /// One entry for each index of the library's list that holds a name, in index order;
    /// `slots[i]` is what the library gives for index `i`.
    pub fn list(slots: &Vec<Option<NameInfo>>) -> (r: Vec<JsNameEntry>)
        ensures
            r@.map_values(|e: JsNameEntry| e@) == present_entries(slots@, name_maker()),
    {
        let mut entries: Vec<JsNameEntry> = Vec::new();
        let mut idx: usize = 0;
        while idx < slots.len()
            invariant
                idx <= slots@.len(),
                entries@.map_values(|e: JsNameEntry| e@) == present_entries(
                    slots@.take(idx as int),
                    name_maker(),
                ),
            decreases slots@.len() - idx,
        {
            proof {
                lemma_present_entries_step(slots@, idx as int, name_maker());
            }
            match &slots[idx] {
                Some(name) => {
                    let entry = JsNameEntry {
                        index: idx as u32,
                        address: name.address,
                        name: name.name.clone(),
                        properties: JsNameProperties {
                            is_public: name.is_public,
                            is_weak: name.is_weak,
                        },
                    };
                    let ghost before = entries@;
                    entries.push(entry);
                    proof {
                        assert(entries@.map_values(|e: JsNameEntry| e@) =~= before.map_values(
                            |e: JsNameEntry| e@,
                        ).push(entry@));
                    }
                },
                None => {},
            }
            idx += 1;
        }
        proof {
            assert(slots@.take(idx as int) =~= slots@);
        }
        entries
    }
}

} // verus!
