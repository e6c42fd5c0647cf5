//! One ordered collection of records, addressed by position.
//!
//! A position identifies a record only until the next insertion or removal,
//! so every operation that takes one checks it against the length of the
//! collection before anything is changed.

use crate::error::Error;
use vstd::prelude::*;

verus! {

/// What an operation that addresses position `index` of `items` answers:
/// success exactly when the position holds a record.
pub open spec fn index_check<T>(items: Seq<T>, index: int) -> Result<(), Error> {
    if 0 <= index < items.len() {
        Ok(())
    } else {
        Err(Error::IndexOutOfRange)
    }
}

/// `items` with `record` added behind its last record.
pub open spec fn appended<T>(items: Seq<T>, record: T) -> Seq<T> {
    items.push(record)
}

/// `items` with `record` in place of the record at `index`, or `items` itself
/// where `index` holds no record.
pub open spec fn replaced_at<T>(items: Seq<T>, index: int, record: T) -> Seq<T> {
    if 0 <= index < items.len() {
        items.update(index, record)
    } else {
        items
    }
}

/// `items` without the record at `index`, the later records moved one
/// position forward, or `items` itself where `index` holds no record.
pub open spec fn removed_at<T>(items: Seq<T>, index: int) -> Seq<T> {
    if 0 <= index < items.len() {
        items.remove(index)
    } else {
        items
    }
}

/// Adds `record` at the end of `items`.
pub fn append<T>(items: &mut Vec<T>, record: T)
    ensures
        final(items)@ == appended(old(items)@, record),
{
    items.push(record);
}

/// Puts `record` in the place of the record at `index`: the old record is
/// taken out and the new one inserted at the position it left. An `index`
/// that holds no record is refused and `items` stays as it was.
pub fn replace_at<T>(items: &mut Vec<T>, index: usize, record: T) -> (res: Result<(), Error>)
    ensures
        res == index_check(old(items)@, index as int),
        final(items)@ == replaced_at(old(items)@, index as int, record),
{
    if index >= items.len() {
        return Err(Error::IndexOutOfRange);
    }
    items.remove(index);
    items.insert(index, record);
    assert(items@ =~= old(items)@.update(index as int, record));
    Ok(())
}

/// Takes the record at `index` out of `items`. An `index` that holds no
/// record is refused and `items` stays as it was.
pub fn remove_at<T>(items: &mut Vec<T>, index: usize) -> (res: Result<(), Error>)
    ensures
        res == index_check(old(items)@, index as int),
        final(items)@ == removed_at(old(items)@, index as int),
{
    if index >= items.len() {
        return Err(Error::IndexOutOfRange);
    }
    items.remove(index);
    Ok(())
}

/// `items` after the records of `records` have been appended one after the
/// other, first to last.
pub open spec fn appended_all<T>(items: Seq<T>, records: Seq<T>) -> Seq<T>
    decreases records.len(),
{
    if records.len() == 0 {
        items
    } else {
        appended_all(appended(items, records.first()), records.drop_first())
    }
}

/// Appending makes a collection exactly one record longer: the new record is
/// its last, and every record that was there keeps its position.
pub proof fn lemma_append_extends<T>(items: Seq<T>, record: T)
    ensures
        appended(items, record).len() == items.len() + 1,
        appended(items, record).last() == record,
        forall|j: int| 0 <= j < items.len() ==> appended(items, record)[j] == items[j],
{
}

/// A position at or past the end is refused as out of range, by replacing as
/// by removing, and the collection stays as it was.
pub proof fn lemma_out_of_range_refused<T>(items: Seq<T>, index: int, record: T)
    requires
        index >= items.len(),
    ensures
        index_check(items, index) == Err::<(), Error>(Error::IndexOutOfRange),
        replaced_at(items, index, record) == items,
        removed_at(items, index) == items,
{
}

/// Removing at a position that holds a record succeeds and makes the
/// collection one record shorter: the records before the position stay, and
/// each record behind it moves to the position before its own.
pub proof fn lemma_remove_at_shifts<T>(items: Seq<T>, index: int)
    requires
        0 <= index < items.len(),
    ensures
        index_check(items, index) == Ok::<(), Error>(()),
        removed_at(items, index).len() == items.len() - 1,
        forall|j: int| 0 <= j < index ==> removed_at(items, index)[j] == items[j],
        forall|j: int|
            index <= j < items.len() - 1 ==> removed_at(items, index)[j] == items[j + 1],
{
}

/// Replacing at a position that holds a record succeeds and keeps the length:
/// the position then holds the new record, and every other position holds
/// what it held.
pub proof fn lemma_replace_at_overwrites<T>(items: Seq<T>, index: int, record: T)
    requires
        0 <= index < items.len(),
    ensures
        index_check(items, index) == Ok::<(), Error>(()),
        replaced_at(items, index, record).len() == items.len(),
        replaced_at(items, index, record)[index] == record,
        forall|j: int|
            0 <= j < items.len() && j != index ==> replaced_at(items, index, record)[j]
                == items[j],
{
}

/// Appending one record after the other puts them behind the collection in
/// the order in which they came.
pub proof fn lemma_appended_all_concatenates<T>(items: Seq<T>, records: Seq<T>)
    ensures
        appended_all(items, records) == items + records,
    decreases records.len(),
{
    if records.len() == 0 {
        assert(items + records =~= items);
    } else {
        lemma_appended_all_concatenates(appended(items, records.first()), records.drop_first());
        assert(items.push(records.first()) + records.drop_first() =~= items + records);
    }
}

/// Appends never interfere. Let `records` be distinct, and let them be
/// appended in any order `order`, as happens when several callers append at
/// once and each takes its turn with the collection. Then the collection has
/// grown by exactly their number, nothing that it held is lost, and each of the
/// records has come in exactly once.
pub proof fn lemma_appends_in_any_order<T>(items: Seq<T>, records: Seq<T>, order: Seq<T>)
    requires
        records.no_duplicates(),
        order.to_multiset() == records.to_multiset(),
    ensures
        appended_all(items, order).len() == items.len() + records.len(),
        appended_all(items, order).to_multiset() == items.to_multiset().add(
            records.to_multiset(),
        ),
        forall|k: int|
            0 <= k < records.len() ==> #[trigger] appended_all(items, order).to_multiset().count(
                records[k],
            ) == items.to_multiset().count(records[k]) + 1,
        appended_all(items, order).subrange(0, items.len() as int) == items,
{
    lemma_appended_all_concatenates(items, order);
    vstd::seq_lib::lemma_multiset_commutative(items, order);
    vstd::seq_lib::to_multiset_len(order);
    vstd::seq_lib::to_multiset_len(records);
    records.lemma_multiset_has_no_duplicates();
    assert((items + order).subrange(0, items.len() as int) =~= items);
    assert forall|k: int| 0 <= k < records.len() implies #[trigger] appended_all(
        items,
        order,
    ).to_multiset().count(records[k]) == items.to_multiset().count(records[k]) + 1 by {
        assert(records.contains(records[k]));
        vstd::seq_lib::to_multiset_contains(records, records[k]);
    }
}

} // verus!
