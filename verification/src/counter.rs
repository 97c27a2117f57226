//! The counter store's side of the handler: the one update that is sent to
//! it, and a model of what the store does with such updates.
//!
//! The store adds atomically. The handler never reads a counter and never
//! writes one: it sends an update that says "add", and the store evaluates
//! it.

use vstd::prelude::*;

verus! {

/// An update request: add `amount` to the numeric field `hits` of the record
/// whose attribute `key_attribute` is `key`, in table `table_name`.
#[derive(Clone, Debug, PartialEq, Eq)]
pub struct CounterUpdate {
    pub table_name: String,
    pub key_attribute: String,
    pub key: String,
    pub update_expression: String,
    pub value_placeholder: String,
    pub amount: u64,
}

/// An update request as contracts speak of it.
pub struct CounterUpdateView {
    pub table_name: Seq<char>,
    pub key_attribute: Seq<char>,
    pub key: Seq<char>,
    pub update_expression: Seq<char>,
    pub value_placeholder: Seq<char>,
    pub amount: nat,
}

impl View for CounterUpdate {
    type V = CounterUpdateView;

    open spec fn view(&self) -> CounterUpdateView {
        CounterUpdateView {
            table_name: self.table_name@,
            key_attribute: self.key_attribute@,
            key: self.key@,
            update_expression: self.update_expression@,
            value_placeholder: self.value_placeholder@,
            amount: self.amount as nat,
        }
    }
}

/// The update that counts one hit of a path in a table.
pub open spec fn increment_of(table_name: Seq<char>, path: Seq<char>) -> CounterUpdateView {
    CounterUpdateView {
        table_name,
        key_attribute: "path"@,
        key: path,
        update_expression: "ADD hits :incr"@,
        value_placeholder: ":incr"@,
        amount: 1,
    }
}

impl CounterUpdate {
    /// Builds the update that counts one hit of `path` in `table_name`.
    pub fn increment(table_name: &str, path: &str) -> (r: CounterUpdate)
        ensures
            r@ == increment_of(table_name@, path@),
    {
        CounterUpdate {
            table_name: table_name.to_owned(),
            key_attribute: "path".to_owned(),
            key: path.to_owned(),
            update_expression: "ADD hits :incr".to_owned(),
            value_placeholder: ":incr".to_owned(),
            amount: 1,
        }
    }
}

/// The hits that a table holds for a key: a key without a record has none.
pub open spec fn hits(table: Map<Seq<char>, nat>, key: Seq<char>) -> nat {
    if table.contains_key(key) {
        table[key]
    } else {
        0
    }
}

/// The table after the store has evaluated one update: the record of the
/// update's key holds `amount` more, and is created where it was missing.
pub open spec fn applied(table: Map<Seq<char>, nat>, update: CounterUpdateView) -> Map<
    Seq<char>,
    nat,
> {
    table.insert(update.key, hits(table, update.key) + update.amount)
}

/// The table after the store has evaluated some updates, one after the
/// other.
pub open spec fn applied_all(table: Map<Seq<char>, nat>, updates: Seq<CounterUpdateView>) -> Map<
    Seq<char>,
    nat,
>
    decreases updates.len(),
{
    if updates.len() == 0 {
        table
    } else {
        applied(applied_all(table, updates.drop_last()), updates.last())
    }
}

/// How much some updates add to a key in all.
pub open spec fn added(updates: Seq<CounterUpdateView>, key: Seq<char>) -> nat
    decreases updates.len(),
{
    if updates.len() == 0 {
        0
    } else {
        added(updates.drop_last(), key) + if updates.last().key == key {
            updates.last().amount
        } else {
            0
        }
    }
}

/// The store may evaluate two updates in either order: the table that
/// results is the same.
pub proof fn updates_commute(
    table: Map<Seq<char>, nat>,
    first: CounterUpdateView,
    second: CounterUpdateView,
)
    ensures
        applied(applied(table, first), second) == applied(applied(table, second), first),
{
    assert(applied(applied(table, first), second) =~= applied(applied(table, second), first));
}

/// An update may be evaluated where it stands among the others or after all
/// of them: the table that results is the same.
pub proof fn update_may_come_last(
    table: Map<Seq<char>, nat>,
    updates: Seq<CounterUpdateView>,
    index: int,
)
    requires
        0 <= index < updates.len(),
    ensures
        applied_all(table, updates) == applied(
            applied_all(table, updates.remove(index)),
            updates[index],
        ),
    decreases updates.len(),
{
    if index == updates.len() - 1 {
        assert(updates.remove(index) =~= updates.drop_last());
    } else {
        let front = updates.drop_last();
        update_may_come_last(table, front, index);
        assert(updates.remove(index).drop_last() =~= front.remove(index));
        assert(updates.remove(index).last() == updates.last());
        updates_commute(applied_all(table, front.remove(index)), updates[index], updates.last());
    }
}

/// The table does not depend on the order in which the updates of
/// concurrent invocations reach the store: two sequences that hold the same
/// updates, each as often as the other, give the same table.
pub proof fn interleaving_does_not_matter(
    table: Map<Seq<char>, nat>,
    one: Seq<CounterUpdateView>,
    other: Seq<CounterUpdateView>,
)
    requires
        one.to_multiset() == other.to_multiset(),
    ensures
        applied_all(table, one) == applied_all(table, other),
    decreases one.len(),
{
    vstd::seq_lib::to_multiset_len(one);
    vstd::seq_lib::to_multiset_len(other);
    if one.len() > 0 {
        let update = one.last();
        assert(one[one.len() - 1] == update);
        vstd::seq_lib::to_multiset_contains(one, update);
        vstd::seq_lib::to_multiset_contains(other, update);
        let index = choose|index: int| 0 <= index < other.len() && other[index] == update;
        vstd::seq_lib::to_multiset_remove(one, one.len() - 1);
        vstd::seq_lib::to_multiset_remove(other, index);
        assert(one.remove(one.len() - 1) =~= one.drop_last());
        interleaving_does_not_matter(table, one.drop_last(), other.remove(index));
        update_may_come_last(table, other, index);
    }
}

/// After any updates a key holds what it held before and what the updates
/// add to it: no update is lost, and none counts for another key.
pub proof fn no_update_is_lost(
    table: Map<Seq<char>, nat>,
    updates: Seq<CounterUpdateView>,
    key: Seq<char>,
)
    ensures
        hits(applied_all(table, updates), key) == hits(table, key) + added(updates, key),
    decreases updates.len(),
{
    if updates.len() > 0 {
        no_update_is_lost(table, updates.drop_last(), key);
    }
}

/// Any number of increments of one path, evaluated in whatever order they
/// reach the store, raise the hits of that path by their number.
pub proof fn concurrent_increments_all_count(
    table: Map<Seq<char>, nat>,
    updates: Seq<CounterUpdateView>,
    table_name: Seq<char>,
    path: Seq<char>,
)
    requires
        forall|i: int| 0 <= i < updates.len() ==> updates[i] == increment_of(table_name, path),
    ensures
        hits(applied_all(table, updates), path) == hits(table, path) + updates.len(),
        forall|other: Seq<char>|
            other != path ==> hits(applied_all(table, updates), other) == hits(table, other),
    decreases updates.len(),
{
    if updates.len() > 0 {
        concurrent_increments_all_count(table, updates.drop_last(), table_name, path);
    }
}

} // verus!
