//! The item: the sole entity of the service. An identifier assigned by the
//! store, a name and a description.

use vstd::prelude::*;

verus! {

/// A stored item. `id` is assigned by the store on insertion and is never
/// set by a client; `name` and `description` are free text.
pub struct Item {
    pub id: i64,
    pub name: String,
    pub description: String,
}

/// The mathematical value of an [`Item`]: its identifier and the character
/// sequences of its two text fields.
pub ghost struct ItemView {
    pub id: int,
    pub name: Seq<char>,
    pub description: Seq<char>,
}

impl View for Item {
    type V = ItemView;

    open spec fn view(&self) -> ItemView {
        ItemView { id: self.id as int, name: self.name@, description: self.description@ }
    }
}

impl DeepView for Item {
    type V = ItemView;

    open spec fn deep_view(&self) -> ItemView {
        self.view()
    }
}

impl Clone for Item {
    fn clone(&self) -> (r: Item)
        ensures
            r@ == self@,
    {
        Item { id: self.id, name: self.name.clone(), description: self.description.clone() }
    }
}

} // verus!
