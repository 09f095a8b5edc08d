//! Laws of the item store, stated over its mathematical model and proved
//! for every well-formed store.

use vstd::prelude::*;
use crate::item::ItemView;
use crate::store::{created_item, get_spec, store_wf};

verus! {

/// Creating an item and then fetching it by the returned identifier finds
/// exactly the created item, for every well-formed store and every pair of
/// texts; and the store stays well-formed.
pub proof fn law_create_then_get(s: Seq<ItemView>, name: Seq<char>, description: Seq<char>)
    requires
        store_wf(s),
    ensures
        ({
            let it = created_item(s, name, description);
            get_spec(s.push(it), it.id) == Some(it) && store_wf(s.push(it))
        }),
{
    let it = created_item(s, name, description);
    let t = s.push(it);
    assert(t[s.len() as int] == it);
    assert forall|k: int| 0 <= k < t.len() implies (#[trigger] t[k].id) == k + 1 by {
        if k < s.len() {
            assert(t[k] == s[k]);
        }
    }
}

/// Fetching an identifier that no stored item carries finds nothing, for
/// every such identifier.
pub proof fn law_get_unassigned_is_none(s: Seq<ItemView>, id: int)
    requires
        store_wf(s),
        forall|k: int| 0 <= k < s.len() ==> (#[trigger] s[k].id) != id,
    ensures
        get_spec(s, id) is None,
{
    if 1 <= id <= s.len() {
        assert(s[id - 1].id == id);
        assert(false);
    }
}

/// No two stored items share an identifier, in any well-formed store —
/// however many creates produced it and in whatever order they committed.
pub proof fn law_ids_distinct(s: Seq<ItemView>)
    requires
        store_wf(s),
    ensures
        forall|j: int, k: int|
            0 <= j < s.len() && 0 <= k < s.len() && j != k ==> s[j].id != s[k].id,
{
}

/// The contents of a store after a sequence of creates, one per requested
/// `(name, description)` pair, in order.
pub open spec fn create_all(s: Seq<ItemView>, reqs: Seq<(Seq<char>, Seq<char>)>) -> Seq<ItemView>
    decreases reqs.len(),
{
    if reqs.len() == 0 {
        s
    } else {
        create_all(s.push(created_item(s, reqs[0].0, reqs[0].1)), reqs.drop_first())
    }
}

/// After creating one item per request, the store holds exactly its old
/// items followed by one new item per creation call, each carrying that
/// call's texts — so a list returns as many items as were created, each
/// matching its call.
pub proof fn law_create_all_matches(s: Seq<ItemView>, reqs: Seq<(Seq<char>, Seq<char>)>)
    requires
        store_wf(s),
    ensures
        ({
            let t = create_all(s, reqs);
            &&& store_wf(t)
            &&& t.len() == s.len() + reqs.len()
            &&& forall|i: int| 0 <= i < s.len() ==> t[i] == s[i]
            &&& forall|i: int|
                0 <= i < reqs.len() ==> (#[trigger] t[s.len() + i].name) == reqs[i].0 && t[s.len()
                    + i].description == reqs[i].1
        }),
    decreases reqs.len(),
{
    if reqs.len() > 0 {
        let it = created_item(s, reqs[0].0, reqs[0].1);
        let u = s.push(it);
        law_create_then_get(s, reqs[0].0, reqs[0].1);
        law_create_all_matches(u, reqs.drop_first());
        let t = create_all(s, reqs);
        assert(t == create_all(u, reqs.drop_first()));
        assert forall|i: int| 0 <= i < reqs.len() implies (#[trigger] t[s.len() + i].name)
            == reqs[i].0 && t[s.len() + i].description == reqs[i].1 by {
            if i == 0 {
                assert(t[s.len() as int] == u[s.len() as int]);
                assert(u[s.len() as int] == it);
            } else {
                assert(t[u.len() + (i - 1)].name == reqs.drop_first()[i - 1].0);
                assert(t[u.len() + (i - 1)].description == reqs.drop_first()[i - 1].1);
                assert(reqs.drop_first()[i - 1] == reqs[i]);
            }
        }
    }
}

} // verus!
