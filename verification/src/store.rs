//! The item store: the table of items with storage-assigned identifiers.
//! Identifiers start at 1 and grow by one per insertion; items are never
//! updated or deleted, so the item with identifier `k` sits at index
//! `k - 1`.

use vstd::prelude::*;
use crate::item::{Item, ItemView};
use crate::error::AppError;

verus! {

/// Well-formedness of a store's contents: the item at index `k` carries
/// identifier `k + 1`. Identifiers are hence unique, start at 1, and never
/// change once assigned.
pub open spec fn store_wf(s: Seq<ItemView>) -> bool {
    forall|k: int| 0 <= k < s.len() ==> (#[trigger] s[k].id) == k + 1
}

/// The item a create call on a store with contents `s` returns: the next
/// identifier with the given texts.
pub open spec fn created_item(s: Seq<ItemView>, name: Seq<char>, description: Seq<char>) -> ItemView {
    ItemView { id: s.len() as int + 1, name, description }
}

/// What a lookup by identifier finds in a well-formed store: the item at
/// index `id - 1` when `id` was assigned, nothing otherwise.
pub open spec fn get_spec(s: Seq<ItemView>, id: int) -> Option<ItemView> {
    if 1 <= id <= s.len() {
        Some(s[id - 1])
    } else {
        None
    }
}

/// An in-memory store of items, the reference model of the service's table.
pub struct ItemStore {
    items: Vec<Item>,
}

impl View for ItemStore {
    type V = Seq<ItemView>;

    closed spec fn view(&self) -> Seq<ItemView> {
        self.items.deep_view()
    }
}

impl ItemStore {
    /// Every identifier in place and room left to assign the next one.
    pub open spec fn wf(&self) -> bool {
        store_wf(self@) && self@.len() <= i64::MAX
    }

    /// An empty store.
    pub fn new() -> (r: ItemStore)
        ensures
            r@ == Seq::<ItemView>::empty(),
            r.wf(),
    {
        let r = ItemStore { items: Vec::new() };
        proof {
            assert(r@ =~= Seq::<ItemView>::empty());
        }
        r
    }

    /// How many items are stored.
    pub fn len(&self) -> (r: usize)
        ensures
            r == self@.len(),
    {
        self.items.len()
    }

    /// Inserts a new item; the store assigns the next identifier and returns
    /// the fully populated item. Fails with a storage fault only when no
    /// further identifier can be assigned.
    pub fn create_item(&mut self, name: String, description: String) -> (r: Result<Item, AppError>)
        requires
            old(self).wf(),
        ensures
            final(self).wf(),
            old(self)@.len() < i64::MAX ==> (r matches Ok(it) && it@ == created_item(
                old(self)@,
                name@,
                description@,
            ) && final(self)@ == old(self)@.push(it@)),
            old(self)@.len() == i64::MAX ==> (r matches Err(e) && e is Storage && final(self)@
                == old(self)@),
    {
        let n = self.items.len();
        if n as u64 >= i64::MAX as u64 {
            return Err(AppError::Storage);
        }
        let it = Item { id: n as i64 + 1, name, description };
        let stored = it.clone();
        self.items.push(stored);
        proof {
            assert(self@ =~= old(self)@.push(it@));
        }
        Ok(it)
    }

    /// Looks an item up by identifier; a clone of the stored item when the
    /// identifier was assigned, `NotFound` otherwise.
    pub fn get_item(&self, id: i64) -> (r: Result<Item, AppError>)
        requires
            self.wf(),
        ensures
            match get_spec(self@, id as int) {
                Some(v) => r matches Ok(it) && it@ == v,
                None => r matches Err(e) && e is NotFound,
            },
    {
        if id >= 1 && id as u64 <= self.items.len() as u64 {
            let idx: usize = (id - 1) as usize;
            Ok(self.items[idx].clone())
        } else {
            Err(AppError::NotFound)
        }
    }

    /// All stored items, in insertion order; an empty vector (not an error)
    /// when the store is empty.
    pub fn list_items(&self) -> (r: Vec<Item>)
        ensures
            r.deep_view() == self@,
    {
        let mut out: Vec<Item> = Vec::new();
        proof {
            assert(out.deep_view() =~= self@.take(0));
        }
        let mut i: usize = 0;
        while i < self.items.len()
            invariant
                i <= self.items@.len(),
                out.deep_view() == self@.take(i as int),
            decreases self.items@.len() - i,
        {
            let it = self.items[i].clone();
            let ghost pre = out@;
            let ghost pre_dv = out.deep_view();
            out.push(it);
            proof {
                assert(pre_dv == Seq::new(pre.len(), |j: int| pre[j].deep_view()));
                assert(pre.len() == pre_dv.len());
                assert(pre.len() == i);
                assert forall|k: int| 0 <= k < out@.len() implies out.deep_view()[k] == self@.take(
                    i + 1 as int,
                )[k] by {
                    assert(out.deep_view()[k] == out@[k].deep_view());
                    if k < i {
                        assert(out@[k] == pre[k]);
                        assert(pre_dv[k] == pre[k].deep_view());
                        assert(pre_dv[k] == self@.take(i as int)[k]);
                    } else {
                        assert(out@[k] == it);
                        assert(it@ == self.items@[i as int]@);
                        assert(self@[k] == self.items@[k].deep_view());
                    }
                }
                assert(out.deep_view() =~= self@.take(i + 1 as int));
            }
            i += 1;
        }
        proof {
            assert(self@.take(self.items@.len() as int) =~= self@);
        }
        out
    }
}

} // verus!
