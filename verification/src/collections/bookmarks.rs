//! Listing the bookmarks of a database.
use vstd::prelude::*;

use crate::address::signed_address;
use crate::collections::entries::{
    lemma_present_entries_origin, lemma_present_entries_step, present_entries,
};
use crate::types::bookmark::{BookmarkView, JsBookmark};

verus! {

/// What the library gives for one index of its bookmark list.
#[derive(Debug)]
pub struct BookmarkSlot {
    pub address: Option<u64>,
    pub description: Option<String>,
}

/// The bookmark at an index: present when the library gives an address there; a missing
/// description is empty, and every listed bookmark is enabled.
pub open spec fn bookmark_entry(index: int, slot: BookmarkSlot) -> Option<BookmarkView> {
    match slot.address {
        Some(a) => Some(
            BookmarkView {
                address: signed_address(a),
                description: match slot.description {
                    Some(d) => d@,
                    None => Seq::<char>::empty(),
                },
                is_enabled: true,
            },
        ),
        None => None,
    }
}

pub open spec fn bookmark_maker() -> spec_fn(int, BookmarkSlot) -> Option<BookmarkView> {
    |index: int, slot: BookmarkSlot| bookmark_entry(index, slot)
}

/// The bookmark carries the slot's address, the slot's description (empty when there is
/// none), and is enabled.
pub open spec fn bookmark_from_slot(b: BookmarkView, slot: BookmarkSlot) -> bool {
    &&& slot.address == Some(b.address as u64)
    &&& b.description == match slot.description {
        Some(d) => d@,
        None => Seq::<char>::empty(),
    }
    &&& b.is_enabled
}

/// Every listed bookmark comes from a slot with an address: it carries that address, the
/// slot's description (empty when there is none), and is enabled. Every slot with an
/// address gives a bookmark at that address.
pub proof fn lemma_bookmarks_come_from_their_slots(slots: Seq<BookmarkSlot>)
    ensures
        forall|k: int|
            0 <= k < present_entries(slots, bookmark_maker()).len() ==> exists|i: int|
                0 <= i < slots.len() && bookmark_from_slot(
                    #[trigger] present_entries(slots, bookmark_maker())[k],
                    #[trigger] slots[i],
                ),
        forall|i: int|
            0 <= i < slots.len() && (#[trigger] slots[i]).address is Some ==> exists|k: int|
                0 <= k < present_entries(slots, bookmark_maker()).len() && present_entries(
                    slots,
                    bookmark_maker(),
                )[k].address as u64 == slots[i].address->Some_0,
{
    let bs = present_entries(slots, bookmark_maker());
    lemma_present_entries_origin(slots, bookmark_maker());
    assert forall|k: int| 0 <= k < bs.len() implies exists|i: int|
        0 <= i < slots.len() && bookmark_from_slot(#[trigger] bs[k], #[trigger] slots[i]) by {
        let i = choose|i: int|
            0 <= i < slots.len() && #[trigger] bookmark_maker()(i, slots[i]) == Some(#[trigger] bs[k]);
        assert(bookmark_entry(i, slots[i]) == Some(bs[k]));
        crate::address::lemma_signed_address_roundtrip(slots[i].address->Some_0);
        assert(bookmark_from_slot(bs[k], slots[i]));
    }
    assert forall|i: int| 0 <= i < slots.len() && (#[trigger] slots[i]).address is Some implies exists|
        k: int,
    | 0 <= k < bs.len() && bs[k].address as u64 == slots[i].address->Some_0 by {
        assert(bookmark_maker()(i, slots[i]) == bookmark_entry(i, slots[i]));
        assert(bookmark_maker()(i, slots[i]) is Some);
        let k = choose|k: int| 0 <= k < bs.len() && Some(#[trigger] bs[k]) == bookmark_maker()(i, slots[i]);
        crate::address::lemma_signed_address_roundtrip(slots[i].address->Some_0);
    }
}

/// The bookmarks of the library's list.
pub struct BookmarksCollection;

impl BookmarksCollection {
    /// One bookmark for each index of the library's list that holds an address, in index
    /// order; `slots[i]` is what the library gives for index `i`.
    pub fn list(slots: &Vec<BookmarkSlot>) -> (r: Vec<JsBookmark>)
        ensures
            r@.map_values(|b: JsBookmark| b@) == present_entries(slots@, bookmark_maker()),
    {
        let mut result: Vec<JsBookmark> = Vec::new();
        let mut idx: usize = 0;
        while idx < slots.len()
            invariant
                idx <= slots@.len(),
                result@.map_values(|b: JsBookmark| b@) == present_entries(
                    slots@.take(idx as int),
                    bookmark_maker(),
                ),
            decreases slots@.len() - idx,
        {
            proof {
                lemma_present_entries_step(slots@, idx as int, bookmark_maker());
            }
            let slot = &slots[idx];
            match slot.address {
                Some(address) => {
                    let description = match &slot.description {
                        Some(d) => d.clone(),
                        None => String::new(),
                    };
                    let bookmark = JsBookmark {
                        address: address as i64,
                        description,
                        is_enabled: true,
                    };
                    let ghost before = result@;
                    result.push(bookmark);
                    proof {
                        assert(result@.map_values(|b: JsBookmark| b@) =~= before.map_values(
                            |b: JsBookmark| b@,
                        ).push(bookmark@));
                    }
                },
                None => {},
            }
            idx += 1;
        }
        proof {
            assert(slots@.take(idx as int) =~= slots@);
        }
        result
    }
}

} // verus!
