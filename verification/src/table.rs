//! Tables keyed by an id: an entry that arrives replaces the entry with its
//! id, and otherwise goes to the end. The order of entries is the order in
//! which their ids first arrived.

use vstd::prelude::*;

verus! {

/// A value that carries the id by which a table finds it.
pub trait Keyed: View + Sized {
    /// The id of a value, read off its view.
    spec fn id_of(v: Self::V) -> int;

    /// The id of the value.
    fn id(&self) -> (id: u16)
        ensures
            id as int == Self::id_of(self@),
    ;
}

/// The views of the items of a sequence, in order.
pub open spec fn views<T: View>(items: Seq<T>) -> Seq<T::V> {
    items.map_values(|item: T| item@)
}

/// `at` is where the first entry with the id `id` stands in `table`, or the
/// length of `table` where no entry has that id.
pub open spec fn is_position<T: Keyed>(table: Seq<T::V>, id: int, at: int) -> bool {
    &&& 0 <= at <= table.len()
    &&& forall|j: int| 0 <= j < at ==> T::id_of(#[trigger] table[j]) != id
    &&& at < table.len() ==> T::id_of(table[at]) == id
}

/// Where the first entry with the id `id` stands in `table`, or the length
/// of `table` where no entry has that id.
pub open spec fn position_of<T: Keyed>(table: Seq<T::V>, id: int) -> int {
    choose|at: int| is_position::<T>(table, id, at)
}

/// The entry of `table` with the id `id`, if there is one.
pub open spec fn lookup<T: Keyed>(table: Seq<T::V>, id: int) -> Option<T::V> {
    let at = position_of::<T>(table, id);
    if at < table.len() {
        Some(table[at])
    } else {
        None
    }
}

/// `table` with `item` in the place of the entry with its id, or at the end
/// where no entry has its id.
pub open spec fn put<T: Keyed>(table: Seq<T::V>, item: T::V) -> Seq<T::V> {
    let at = position_of::<T>(table, T::id_of(item));
    if at < table.len() {
        table.update(at, item)
    } else {
        table.push(item)
    }
}

/// `table` without its first entry with the id `id`.
pub open spec fn without<T: Keyed>(table: Seq<T::V>, id: int) -> Seq<T::V> {
    let at = position_of::<T>(table, id);
    if at < table.len() {
        table.remove(at)
    } else {
        table
    }
}

/// A table has one position for an id.
pub proof fn lemma_position_unique<T: Keyed>(table: Seq<T::V>, id: int, at: int)
    requires
        is_position::<T>(table, id, at),
    ensures
        position_of::<T>(table, id) == at,
{
    // Of two positions the earlier one would hold an entry with the id in
    // front of the later one.
    assert(is_position::<T>(table, id, position_of::<T>(table, id)));
}

/// Every table has a position for every id.
pub proof fn lemma_position_exists<T: Keyed>(table: Seq<T::V>, id: int)
    ensures
        is_position::<T>(table, id, position_of::<T>(table, id)),
    decreases table.len(),
{
    if table.len() == 0 {
        assert(is_position::<T>(table, id, 0));
    } else {
        let front = table.drop_last();
        lemma_position_exists::<T>(front, id);
        let at = position_of::<T>(front, id);
        assert forall|j: int| 0 <= j < at implies T::id_of(#[trigger] table[j]) != id by {
            assert(front[j] == table[j]);
        }
        if at < front.len() {
            assert(is_position::<T>(table, id, at));
        } else if T::id_of(table.last()) == id {
            assert(is_position::<T>(table, id, table.len() - 1));
        } else {
            assert(is_position::<T>(table, id, table.len() as int));
        }
    }
}

/// An entry that was put into a table is the entry found under its id.
pub proof fn lemma_put_then_lookup<T: Keyed>(table: Seq<T::V>, item: T::V)
    ensures
        lookup::<T>(put::<T>(table, item), T::id_of(item)) == Some(item),
        put::<T>(table, item).len() == if lookup::<T>(table, T::id_of(item)).is_some() {
            table.len()
        } else {
            table.len() + 1
        },
{
    let id = T::id_of(item);
    let at = position_of::<T>(table, id);
    lemma_position_exists::<T>(table, id);
    let after = put::<T>(table, item);
    assert(is_position::<T>(after, id, at)) by {
        assert forall|j: int| 0 <= j < at implies T::id_of(#[trigger] after[j]) != id by {
            assert(after[j] == table[j]);
        }
    }
    lemma_position_unique::<T>(after, id, at);
}

/// Putting an entry into a table leaves the entries under other ids as
/// they were.
pub proof fn lemma_put_keeps_others<T: Keyed>(table: Seq<T::V>, item: T::V, id: int)
    requires
        id != T::id_of(item),
    ensures
        lookup::<T>(put::<T>(table, item), id) == lookup::<T>(table, id),
{
    let at = position_of::<T>(table, T::id_of(item));
    lemma_position_exists::<T>(table, T::id_of(item));
    let found = position_of::<T>(table, id);
    lemma_position_exists::<T>(table, id);
    let after = put::<T>(table, item);
    // Where the entries differ, the one after has the id of `item`.
    assert forall|j: int| 0 <= j < after.len() && T::id_of(#[trigger] after[j]) == id implies j
        < table.len() && after[j] == table[j] by {
        if j < table.len() && j != at {
            assert(after[j] == table[j]);
        }
    }
    if found < table.len() {
        assert(after[found] == table[found]);
        lemma_position_unique::<T>(after, id, found);
    } else {
        lemma_position_unique::<T>(after, id, after.len() as int);
    }
}

/// Finds where the first entry with the id `id` stands, or the length of
/// the table.
pub fn find<T: Keyed>(table: &Vec<T>, id: u16) -> (at: usize)
    ensures
        at == position_of::<T>(views(table@), id as int),
        at <= table@.len(),
{
    let mut at: usize = 0;
    while at < table.len()
        invariant
            at <= table@.len(),
            forall|j: int| 0 <= j < at ==> T::id_of(#[trigger] views(table@)[j]) != id,
        decreases table@.len() - at,
    {
        if table[at].id() == id {
            proof {
                lemma_position_unique::<T>(views(table@), id as int, at as int);
            }
            return at;
        }
        at = at + 1;
    }
    proof {
        lemma_position_unique::<T>(views(table@), id as int, at as int);
    }
    at
}

/// Puts `item` in the place of the entry with its id, or at the end.
pub fn put_entry<T: Keyed>(table: &mut Vec<T>, item: T)
    ensures
        views(final(table)@) == put::<T>(views(old(table)@), item@),
{
    let at: usize = find(table, item.id());
    if at < table.len() {
        table.set(at, item);
    } else {
        table.push(item);
    }
}

/// Takes the first entry with the id `id` out of the table.
pub fn take_entry<T: Keyed>(table: &mut Vec<T>, id: u16) -> (taken: Option<T>)
    ensures
        views(final(table)@) == without::<T>(views(old(table)@), id as int),
        match taken {
            Some(item) => lookup::<T>(views(old(table)@), id as int) == Some(item@),
            None => lookup::<T>(views(old(table)@), id as int).is_none(),
        },
{
    let at: usize = find(table, id);
    if at < table.len() {
        let item = table.remove(at);
        Some(item)
    } else {
        None
    }
}

} // verus!
