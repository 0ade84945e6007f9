//! Entries made from the slots of the library's indexed lists.
use vstd::prelude::*;

verus! {

/// The entries made from those slots of an indexed list that `make` turns into one, in
/// index order; `make` gets each slot with its index.
pub open spec fn present_entries<S, E>(slots: Seq<S>, make: spec_fn(int, S) -> Option<E>) -> Seq<E>
    decreases slots.len(),
{
    if slots.len() == 0 {
        Seq::empty()
    } else {
        let prev = present_entries(slots.drop_last(), make);
        match make(slots.len() - 1, slots.last()) {
            Some(e) => prev.push(e),
            None => prev,
        }
    }
}

/// One more slot adds its entry, if it makes one, at the end.
pub proof fn lemma_present_entries_step<S, E>(
    slots: Seq<S>,
    i: int,
    make: spec_fn(int, S) -> Option<E>,
)
    requires
        0 <= i < slots.len(),
    ensures
        present_entries(slots.take(i + 1), make) == match make(i, slots[i]) {
            Some(e) => present_entries(slots.take(i), make).push(e),
            None => present_entries(slots.take(i), make),
        },
{
    assert(slots.take(i + 1).drop_last() =~= slots.take(i));
    assert(slots.take(i + 1).last() == slots[i]);
}

/// Every entry comes from a slot, so there are no more entries than slots.
pub proof fn lemma_present_entries_len<S, E>(slots: Seq<S>, make: spec_fn(int, S) -> Option<E>)
    ensures
        present_entries(slots, make).len() <= slots.len(),
    decreases slots.len(),
{
    if slots.len() > 0 {
        lemma_present_entries_len(slots.drop_last(), make);
    }
}

/// Every entry is what `make` gives for some slot, and every slot that `make` turns into an
/// entry gives one.
pub proof fn lemma_present_entries_origin<S, E>(slots: Seq<S>, make: spec_fn(int, S) -> Option<E>)
    ensures
        forall|k: int|
            0 <= k < present_entries(slots, make).len() ==> exists|i: int|
                0 <= i < slots.len() && #[trigger] make(i, slots[i]) == Some(
                    #[trigger] present_entries(slots, make)[k],
                ),
        forall|i: int|
            0 <= i < slots.len() && (#[trigger] make(i, slots[i])) is Some ==> exists|k: int|
                0 <= k < present_entries(slots, make).len() && Some(
                    #[trigger] present_entries(slots, make)[k],
                ) == make(i, slots[i]),
    decreases slots.len(),
{
    if slots.len() > 0 {
        let prefix = slots.drop_last();
        let last = slots.len() - 1;
        lemma_present_entries_origin(prefix, make);
        let prev = present_entries(prefix, make);
        let all = present_entries(slots, make);
        assert forall|i: int| 0 <= i < last implies #[trigger] slots[i] == prefix[i] by {}
        assert forall|k: int| 0 <= k < prev.len() implies #[trigger] all[k] == prev[k] by {}
        assert forall|k: int| 0 <= k < all.len() implies exists|i: int|
            0 <= i < slots.len() && #[trigger] make(i, slots[i]) == Some(#[trigger] all[k]) by {
            if k < prev.len() {
                let i = choose|i: int| 0 <= i < prefix.len() && #[trigger] make(i, prefix[i]) == Some(
                    #[trigger] prev[k],
                );
                assert(slots[i] == prefix[i]);
                assert(make(i, slots[i]) == Some(all[k]));
            } else {
                assert(make(last, slots[last]) == Some(all[k]));
            }
        }
        assert forall|i: int|
            0 <= i < slots.len() && (#[trigger] make(i, slots[i])) is Some implies exists|k: int|
                0 <= k < all.len() && Some(#[trigger] all[k]) == make(i, slots[i]) by {
            if i < last {
                assert(slots[i] == prefix[i]);
                assert(make(i, prefix[i]) is Some);
                let k = choose|k: int| 0 <= k < prev.len() && Some(#[trigger] prev[k]) == make(
                    i,
                    prefix[i],
                );
                assert(all[k] == prev[k]);
            } else {
                assert(Some(all[all.len() - 1]) == make(i, slots[i]));
            }
        }
    }
}

} // verus!
