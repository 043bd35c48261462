//! A small builder for lists that are put together piece by piece.

use vstd::prelude::*;

verus! {

/// A list under construction. Items are kept in the order in which they
/// were added.
pub struct ListBuilder<T>(Vec<T>);

impl<T> View for ListBuilder<T> {
    type V = Seq<T>;

    closed spec fn view(&self) -> Seq<T> {
        self.0@
    }
}

impl<T> ListBuilder<T> {
    /// An empty list.
    pub fn new() -> (b: Self)
        ensures
            b@ == Seq::<T>::empty(),
    {
        Self(Vec::new())
    }

    /// Adds `item` at the end of the list.
    pub fn push(&mut self, item: T)
        ensures
            final(self)@ == old(self)@.push(item),
    {
        self.0.push(item);
    }

    /// Adds `items` at the end of the list, in their order.
    pub fn list(self, items: Vec<T>) -> (b: Self)
        ensures
            b@ == self@ + items@,
    {
        let mut out = self;
        let mut items = items;
        out.0.append(&mut items);
        out
    }

    /// Adds the item that `get_item` makes of the value, where there is a
    /// value; leaves the list as it is where there is none.
    pub fn optional<V, F: Fn(V) -> T>(self, value: Option<V>, get_item: F) -> (b: Self)
        requires
            value matches Some(v) ==> get_item.requires((v,)),
        ensures
            match value {
                Some(v) => b@.len() == self@.len() + 1 && b@.drop_last() == self@
                    && get_item.ensures((v,), b@.last()),
                None => b@ == self@,
            },
    {
        let mut out = self;
        match value {
            Some(v) => {
                let item = get_item(v);
                out.0.push(item);
                assert(out.0@.drop_last() =~= self.0@);
            },
            None => {},
        }
        out
    }

    /// The finished list.
    pub fn to_vec(self) -> (v: Vec<T>)
        ensures
            v@ == self@,
    {
        self.0
    }
}

impl<T> Default for ListBuilder<T> {
    fn default() -> (b: Self)
        ensures
            b@ == Seq::<T>::empty(),
    {
        Self::new()
    }
}

/// A list that starts with `items`.
pub fn list<T>(items: Vec<T>) -> (b: ListBuilder<T>)
    ensures
        b@ == items@,
{
    ListBuilder::new().list(items)
}

} // verus!
