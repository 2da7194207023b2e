//! Objects in which a key stands more than once, and what becomes of them
//! when they are written.
//!
//! A map that keeps the order of writing holds each key once.  Writing the
//! members of an object into it one after another settles them: a key that is
//! already there keeps its place and takes the new value.  What a key finds
//! is the same before and after.

use crate::json::{lookup, member, JsonModel, Members};
use vstd::prelude::*;

verus! {

/// The index of the first member with the key `key`.
pub open spec fn position(members: Members, key: Seq<char>) -> Option<int>
    decreases members.len(),
{
    if members.len() == 0 {
        None
    } else {
        match position(members.drop_last(), key) {
            Some(i) => Some(i),
            None => if members.last().0 == key {
                Some(members.len() - 1)
            } else {
                None
            },
        }
    }
}

/// The members after one more is written: in the place of the member with
/// the same key where there is one, at the end otherwise.
pub open spec fn put(members: Members, key: Seq<char>, value: JsonModel) -> Members {
    match position(members, key) {
        Some(i) => members.update(i, (key, value)),
        None => members.push((key, value)),
    }
}

/// The members that remain when they are written one after another into an
/// empty object: each key once, where it first stood, with its last value.
pub open spec fn settle(members: Members) -> Members
    decreases members.len(),
{
    if members.len() == 0 {
        Seq::empty()
    } else {
        put(settle(members.drop_last()), members.last().0, members.last().1)
    }
}

/// The document with the members of every object in it settled.
pub open spec fn settled(doc: JsonModel) -> JsonModel
    decreases doc,
{
    match doc {
        JsonModel::Array(items) => JsonModel::Array(settled_items(items)),
        JsonModel::Object(members) => JsonModel::Object(settle(settled_values(members))),
        _ => doc,
    }
}

/// The documents, each settled.
pub open spec fn settled_items(items: Seq<JsonModel>) -> Seq<JsonModel>
    decreases items,
{
    Seq::new(
        items.len(),
        |i: int|
            if 0 <= i < items.len() {
                settled(items[i])
            } else {
                JsonModel::Null
            },
    )
}

/// The members, each with its value settled.
pub open spec fn settled_values(members: Members) -> Members
    decreases members,
{
    Seq::new(
        members.len(),
        |i: int|
            if 0 <= i < members.len() {
                (members[i].0, settled(members[i].1))
            } else {
                (Seq::empty(), JsonModel::Null)
            },
    )
}

/// Settling a sequence of documents settles each in its place.
pub proof fn settled_items_are_settled(items: Seq<JsonModel>)
    ensures
        settled_items(items).len() == items.len(),
        forall|i: int| 0 <= i < items.len() ==> settled_items(items)[i] == settled(items[i]),
{
    reveal_with_fuel(settled_items, 2);
}

/// Settling the values of members keeps each key and settles each value in
/// its place.
pub proof fn settled_values_are_settled(members: Members)
    ensures
        settled_values(members).len() == members.len(),
        forall|i: int|
            0 <= i < members.len() ==> settled_values(members)[i] == (
                members[i].0,
                settled(members[i].1),
            ),
{
    reveal_with_fuel(settled_values, 2);
}

/// Whether no key stands twice.
pub open spec fn distinct_keys(members: Members) -> bool {
    forall|i: int, j: int|
        0 <= i < j < members.len() ==> (#[trigger] members[i]).0 != (#[trigger] members[j]).0
}

/// Whether some member has the key.
pub open spec fn has_key(members: Members, key: Seq<char>) -> bool {
    exists|i: int| 0 <= i < members.len() && (#[trigger] members[i]).0 == key
}

/// Looking a key up after one more member was written finds that member
/// where it has the key, and what was found before otherwise.
pub proof fn member_after_push(members: Members, k: Seq<char>, v: JsonModel, key: Seq<char>)
    ensures
        member(members.push((k, v)), key) == if k == key {
            Some(v)
        } else {
            member(members, key)
        },
{
    assert(members.push((k, v)).drop_last() =~= members);
}

/// The first member with a key is where `position` says, and there is none
/// where it says so.
pub proof fn position_is_the_first(members: Members, key: Seq<char>)
    ensures
        match position(members, key) {
            Some(i) => 0 <= i < members.len() && members[i].0 == key && forall|j: int|
                0 <= j < i ==> (#[trigger] members[j]).0 != key,
            None => !has_key(members, key),
        },
    decreases members.len(),
{
    if members.len() > 0 {
        let init = members.drop_last();
        position_is_the_first(init, key);
        assert forall|j: int| 0 <= j < init.len() implies init[j] == members[j] by {}
        match position(init, key) {
            Some(i) => {
                assert(members[i] == init[i]);
                assert forall|j: int| 0 <= j < i implies (#[trigger] members[j]).0 != key by {
                    assert(init[j].0 != key);
                }
            },
            None => {
                if members.last().0 == key {
                    assert forall|j: int| 0 <= j < members.len() - 1 implies (
                    #[trigger] members[j]).0 != key by {
                        assert(init[j].0 == members[j].0);
                    }
                } else {
                    assert forall|j: int| 0 <= j < members.len() implies (
                    #[trigger] members[j]).0 != key by {
                        if j < members.len() - 1 {
                            assert(init[j].0 == members[j].0);
                        }
                    }
                }
            },
        }
    }
}

/// A key has a first member exactly where it has a last one.
pub proof fn position_finds_what_member_finds(members: Members, key: Seq<char>)
    ensures
        position(members, key) is None <==> member(members, key) is None,
    decreases members.len(),
{
    if members.len() > 0 {
        position_finds_what_member_finds(members.drop_last(), key);
    }
}

/// A key finds a value exactly where some member has it.
pub proof fn member_is_found_where_the_key_stands(members: Members, key: Seq<char>)
    ensures
        member(members, key) is Some <==> has_key(members, key),
{
    position_finds_what_member_finds(members, key);
    position_is_the_first(members, key);
    if position(members, key) is Some {
        let i = position(members, key)->0;
        assert(members[i].0 == key);
    }
}

/// Where no key stands twice, each member is what its key finds.
pub proof fn member_of_distinct_keys(members: Members, i: int)
    requires
        distinct_keys(members),
        0 <= i < members.len(),
    ensures
        member(members, members[i].0) == Some(members[i].1),
    decreases members.len(),
{
    let init = members.drop_last();
    if i < members.len() - 1 {
        assert(members[i].0 != members[members.len() - 1].0);
        assert forall|a: int, b: int| 0 <= a < b < init.len() implies (#[trigger] init[a]).0 != (
        #[trigger] init[b]).0 by {
            assert(init[a] == members[a] && init[b] == members[b]);
        }
        assert(init[i] == members[i]);
        member_of_distinct_keys(init, i);
    }
}

/// Writing a member in the place of one with another key than `key` changes
/// nothing in what `key` finds.
pub proof fn member_after_update(members: Members, i: int, v: JsonModel, key: Seq<char>)
    requires
        0 <= i < members.len(),
        members[i].0 != key,
    ensures
        member(members.update(i, (members[i].0, v)), key) == member(members, key),
    decreases members.len(),
{
    let after = members.update(i, (members[i].0, v));
    if i < members.len() - 1 {
        assert(after.drop_last() =~= members.drop_last().update(i, (members[i].0, v)));
        assert(members.drop_last()[i] == members[i]);
        member_after_update(members.drop_last(), i, v, key);
    } else {
        assert(after.drop_last() =~= members.drop_last());
    }
}

/// Settled members have each key once.
pub proof fn settle_has_distinct_keys(members: Members)
    ensures
        distinct_keys(settle(members)),
    decreases members.len(),
{
    if members.len() > 0 {
        let before = settle(members.drop_last());
        let k = members.last().0;
        let v = members.last().1;
        settle_has_distinct_keys(members.drop_last());
        position_is_the_first(before, k);
        let after = put(before, k, v);
        match position(before, k) {
            Some(p) => {
                assert forall|i: int, j: int| 0 <= i < j < after.len() implies (
                #[trigger] after[i]).0 != (#[trigger] after[j]).0 by {
                    assert(after[i].0 == before[i].0 && after[j].0 == before[j].0);
                }
            },
            None => {
                assert forall|i: int, j: int| 0 <= i < j < after.len() implies (
                #[trigger] after[i]).0 != (#[trigger] after[j]).0 by {
                    if j < before.len() {
                        assert(after[i] == before[i] && after[j] == before[j]);
                    } else {
                        assert(after[i] == before[i]);
                    }
                }
            },
        }
    }
}

/// What a key finds after one more member was written: that member where it
/// has the key, and what was found before otherwise.
pub proof fn member_after_put(members: Members, k: Seq<char>, v: JsonModel, key: Seq<char>)
    requires
        distinct_keys(members),
    ensures
        member(put(members, k, v), key) == if k == key {
            Some(v)
        } else {
            member(members, key)
        },
{
    position_is_the_first(members, k);
    match position(members, k) {
        Some(p) => {
            let after = members.update(p, (k, v));
            if k == key {
                assert forall|i: int, j: int| 0 <= i < j < after.len() implies (
                #[trigger] after[i]).0 != (#[trigger] after[j]).0 by {
                    assert(after[i].0 == members[i].0 && after[j].0 == members[j].0);
                }
                member_of_distinct_keys(after, p);
            } else {
                member_after_update(members, p, v, key);
            }
        },
        None => {
            member_after_push(members, k, v, key);
        },
    }
}

/// Settling keeps what every key finds.
pub proof fn settle_keeps_members(members: Members, key: Seq<char>)
    ensures
        member(settle(members), key) == member(members, key),
    decreases members.len(),
{
    if members.len() > 0 {
        settle_keeps_members(members.drop_last(), key);
        settle_has_distinct_keys(members.drop_last());
        member_after_put(settle(members.drop_last()), members.last().0, members.last().1, key);
    }
}

/// Members that are settled stay as they are when one with a new key is
/// written after them.
pub proof fn settled_after_push(members: Members, k: Seq<char>, v: JsonModel)
    requires
        settle(members) == members,
        member(members, k) is None,
    ensures
        settle(members.push((k, v))) == members.push((k, v)),
{
    assert(members.push((k, v)).drop_last() =~= members);
    position_finds_what_member_finds(members, k);
}

/// The value that a key finds, settled.
pub open spec fn settled_found(found: Option<JsonModel>) -> Option<JsonModel> {
    match found {
        Some(v) => Some(settled(v)),
        None => None,
    }
}

/// Settling the values of members settles what every key finds.
pub proof fn settled_values_keep_members(members: Members, key: Seq<char>)
    ensures
        member(settled_values(members), key) == settled_found(member(members, key)),
    decreases members.len(),
{
    settled_values_are_settled(members);
    if members.len() > 0 {
        settled_values_are_settled(members.drop_last());
        assert(settled_values(members).drop_last() =~= settled_values(members.drop_last()));
        settled_values_keep_members(members.drop_last(), key);
    }
}

/// What a key finds in a settled document is what it finds in the document,
/// settled.
pub proof fn settling_keeps_lookups(doc: JsonModel, key: Seq<char>)
    ensures
        lookup(settled(doc), key) == settled_found(lookup(doc, key)),
{
    if doc is Object {
        let members = doc->Object_0;
        settle_keeps_members(settled_values(members), key);
        settled_values_keep_members(members, key);
    }
}

/// A settled object has the keys of the object, and no others.
pub proof fn settling_keeps_keys(members: Members, key: Seq<char>)
    ensures
        has_key(settle(settled_values(members)), key) <==> has_key(members, key),
{
    member_is_found_where_the_key_stands(settle(settled_values(members)), key);
    member_is_found_where_the_key_stands(members, key);
    settle_keeps_members(settled_values(members), key);
    settled_values_keep_members(members, key);
}

/// Settling changes no string, integer or `null`, and makes none; and what
/// is an object stays one.
pub proof fn settling_keeps_leaves(doc: JsonModel)
    ensures
        settled(doc) is String <==> doc is String,
        doc is String ==> settled(doc) == doc,
        settled(doc) is Int <==> doc is Int,
        doc is Int ==> settled(doc) == doc,
        settled(doc) is Null <==> doc is Null,
        settled(doc) is Object <==> doc is Object,
{
}

} // verus!
