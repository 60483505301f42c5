//! What holds of a flattened document.

use bson::Bson;
use vstd::prelude::*;

use crate::entities::lookup::{first_index, lemma_first_index, lemma_first_index_is};
use crate::helpers::document::{
    collected, dotted, entries, expanded, expanded_all, flattened, keys_of, lemma_expanded_all_push,
    nested, put, Field,
};

verus! {

/// The value that `fields` hold under `key`: that of the first field with the
/// key, or `None` where no field has it.
pub open spec fn value_at(fields: Seq<Field>, key: Seq<char>) -> Option<Bson> {
    match first_index(keys_of(fields), key) {
        Some(at) => Some(fields[at].1),
        None => None,
    }
}

/// The value of the last of `pairs` with `key`, or `None` where no pair has
/// the key.
pub open spec fn last_value(pairs: Seq<Field>, key: Seq<char>) -> Option<Bson> {
    match keys_of(pairs).index_of_last(key) {
        Some(at) => Some(pairs[at].1),
        None => None,
    }
}

/// No key occurs twice among `fields`.
pub open spec fn distinct_keys(fields: Seq<Field>) -> bool {
    keys_of(fields).no_duplicates()
}

/// `key` is the key of a field that flattening makes of one of the top-level
/// `fields`.
pub open spec fn arises(fields: Seq<Field>, key: Seq<char>) -> bool {
    exists|i: int, j: int|
        0 <= i < fields.len() && 0 <= j < expanded(fields[i]).len() && (#[trigger] expanded(
            fields[i],
        )[j]).0 == key
}

/// The position of the last of `keys` that is `key`, where there is one, has
/// no position after it holding the key.
proof fn lemma_last_index(keys: Seq<Seq<char>>, key: Seq<char>)
    ensures
        match keys.index_of_last(key) {
            Some(i) => {
                &&& 0 <= i < keys.len()
                &&& keys[i] == key
                &&& forall|j: int| i < j < keys.len() ==> keys[j] != key
            },
            None => forall|j: int| 0 <= j < keys.len() ==> keys[j] != key,
        },
{
    keys.index_of_last_ensures(key);
    if keys.index_of_last(key) is None {
        assert forall|j: int| 0 <= j < keys.len() implies keys[j] != key by {
            assert(keys.contains(keys[j]));
        }
    }
}

/// The position that holds the key with no position after it doing so is the
/// last position of the key.
proof fn lemma_last_index_is(keys: Seq<Seq<char>>, key: Seq<char>, i: int)
    requires
        0 <= i < keys.len(),
        keys[i] == key,
        forall|j: int| i < j < keys.len() ==> keys[j] != key,
    ensures
        keys.index_of_last(key) == Some(i),
{
    lemma_last_index(keys, key);
}

/// Putting a value under a key keeps the keys distinct, makes the key hold
/// the value, and leaves what every other key holds.
pub proof fn lemma_put(fields: Seq<Field>, key: Seq<char>, value: Bson)
    requires
        distinct_keys(fields),
    ensures
        distinct_keys(put(fields, key, value)),
        value_at(put(fields, key, value), key) == Some(value),
        forall|other: Seq<char>|
            other != key ==> value_at(put(fields, key, value), other) == #[trigger] value_at(
                fields,
                other,
            ),
{
    let before = keys_of(fields);
    let after_fields = put(fields, key, value);
    let after = keys_of(after_fields);
    lemma_first_index(before, key);
    match first_index(before, key) {
        Some(at) => {
            assert(after =~= before);
            assert forall|other: Seq<char>| other != key implies value_at(after_fields, other)
                == #[trigger] value_at(fields, other) by {
                lemma_first_index(before, other);
            }
        },
        None => {
            assert(after =~= before.push(key));
            lemma_first_index_is(after, key, before.len() as int);
            assert forall|other: Seq<char>| other != key implies value_at(after_fields, other)
                == #[trigger] value_at(fields, other) by {
                lemma_first_index(before, other);
                match first_index(before, other) {
                    Some(i) => {
                        assert forall|j: int| 0 <= j < i implies after[j] != other by {
                            assert(after[j] == before[j]);
                        }
                        lemma_first_index_is(after, other, i);
                    },
                    None => {
                        lemma_first_index(after, other);
                        if let Some(i) = first_index(after, other) {
                            if i < before.len() {
                                assert(before[i] == other);
                            }
                        }
                    },
                }
            }
        },
    }
}

/// The document filled from `pairs` has no key twice, and holds under every
/// key the value of the last pair with that key.
pub proof fn lemma_collected_last_wins(pairs: Seq<Field>)
    ensures
        distinct_keys(collected(pairs)),
        forall|key: Seq<char>| #[trigger] value_at(collected(pairs), key) == last_value(pairs, key),
    decreases pairs.len(),
{
    if pairs.len() == 0 {
        assert(keys_of(collected(pairs)) =~= Seq::<Seq<char>>::empty());
        assert forall|key: Seq<char>| #[trigger]
            value_at(collected(pairs), key) == last_value(pairs, key) by {
            lemma_first_index(keys_of(collected(pairs)), key);
            lemma_last_index(keys_of(pairs), key);
        }
    } else {
        let init = pairs.drop_last();
        let pair = pairs.last();
        lemma_collected_last_wins(init);
        assert(collected(pairs) == put(collected(init), pair.0, pair.1));
        lemma_put(collected(init), pair.0, pair.1);
        let all = keys_of(pairs);
        assert(all =~= keys_of(init).push(pair.0));
        assert forall|key: Seq<char>| #[trigger]
            value_at(collected(pairs), key) == last_value(pairs, key) by {
            if key == pair.0 {
                lemma_last_index_is(all, key, pairs.len() - 1);
            } else {
                assert(value_at(collected(pairs), key) == value_at(collected(init), key));
                assert(value_at(collected(init), key) == last_value(init, key));
                lemma_last_index(keys_of(init), key);
                match keys_of(init).index_of_last(key) {
                    Some(i) => {
                        assert forall|j: int| i < j < all.len() implies all[j] != key by {
                            if j < init.len() {
                                assert(all[j] == keys_of(init)[j]);
                            }
                        }
                        lemma_last_index_is(all, key, i);
                    },
                    None => {
                        lemma_last_index(all, key);
                        if let Some(i) = all.index_of_last(key) {
                            if i < init.len() {
                                assert(keys_of(init)[i] == key);
                            }
                        }
                    },
                }
            }
        }
    }
}

/// Where no key occurs twice among `pairs`, the document filled from them
/// holds exactly the pairs, in their order.
pub proof fn lemma_collected_distinct(pairs: Seq<Field>)
    requires
        distinct_keys(pairs),
    ensures
        collected(pairs) == pairs,
    decreases pairs.len(),
{
    if pairs.len() == 0 {
        assert(collected(pairs) =~= pairs);
    } else {
        let init = pairs.drop_last();
        let pair = pairs.last();
        let all = keys_of(pairs);
        assert(keys_of(init) =~= all.drop_last());
        lemma_collected_distinct(init);
        assert(collected(pairs) == put(init, pair.0, pair.1));
        lemma_first_index(keys_of(init), pair.0);
        if let Some(i) = first_index(keys_of(init), pair.0) {
            assert(all[i] == all[pairs.len() - 1]);
        }
        assert(init.push(pair) =~= pairs);
    }
}

/// Whatever a top-level field becomes is among what all of them become.
/// Returns the position at which it is.
pub proof fn lemma_expanded_all_holds(fields: Seq<Field>, i: int, j: int) -> (at: int)
    requires
        0 <= i < fields.len(),
        0 <= j < expanded(fields[i]).len(),
    ensures
        0 <= at < expanded_all(fields).len(),
        expanded_all(fields)[at] == expanded(fields[i])[j],
    decreases fields.len(),
{
    let init = fields.drop_last();
    assert(init.push(fields.last()) =~= fields);
    lemma_expanded_all_push(init, fields.last());
    if i == fields.len() - 1 {
        expanded_all(init).len() + j
    } else {
        lemma_expanded_all_holds(init, i, j)
    }
}

/// Whatever is among what the top-level fields become comes from one of
/// them. Returns the position of that field, and the position in what it
/// becomes.
pub proof fn lemma_expanded_all_origin(fields: Seq<Field>, at: int) -> (origin: (int, int))
    requires
        0 <= at < expanded_all(fields).len(),
    ensures
        0 <= origin.0 < fields.len(),
        0 <= origin.1 < expanded(fields[origin.0]).len(),
        expanded_all(fields)[at] == expanded(fields[origin.0])[origin.1],
    decreases fields.len(),
{
    if fields.len() == 0 {
        assert(fields.map_values(|field: Field| expanded(field)) =~= Seq::<Seq<Field>>::empty());
        (0, 0)
    } else {
        let init = fields.drop_last();
        assert(init.push(fields.last()) =~= fields);
        lemma_expanded_all_push(init, fields.last());
        if at < expanded_all(init).len() {
            lemma_expanded_all_origin(init, at)
        } else {
            (fields.len() - 1, at - expanded_all(init).len())
        }
    }
}

/// Where the keys that flattening makes are all different, the flattened
/// document holds exactly the fields that the top-level fields become, in
/// their order.
pub proof fn lemma_flatten_without_collision(fields: Seq<Field>)
    requires
        distinct_keys(expanded_all(fields)),
    ensures
        flattened(fields) == expanded_all(fields),
{
    lemma_collected_distinct(expanded_all(fields));
}

/// Whatever the input, a flattened document has no key twice, and holds under
/// every key the value of the last field that flattening made with that key.
pub proof fn lemma_flatten_last_wins(fields: Seq<Field>, key: Seq<char>)
    ensures
        distinct_keys(flattened(fields)),
        value_at(flattened(fields), key) == last_value(expanded_all(fields), key),
{
    lemma_collected_last_wins(expanded_all(fields));
}

/// Every key of a flattened document is the key of a top-level field that is
/// no document, or the dotted key of a field of a nested document.
pub proof fn lemma_flatten_key_arises(fields: Seq<Field>, key: Seq<char>)
    requires
        keys_of(flattened(fields)).contains(key),
    ensures
        arises(fields, key),
{
    let pairs = expanded_all(fields);
    lemma_collected_last_wins(pairs);
    lemma_first_index(keys_of(flattened(fields)), key);
    assert(value_at(flattened(fields), key) is Some);
    lemma_last_index(keys_of(pairs), key);
    let at = keys_of(pairs).index_of_last(key).unwrap();
    let origin = lemma_expanded_all_origin(fields, at);
    assert(expanded(fields[origin.0])[origin.1].0 == key);
}

/// Whatever the input, every key that flattening makes is a key of the
/// flattened document: the key of each top-level field that is no document,
/// and the dotted key of each field of a nested document.
pub proof fn lemma_flatten_holds_arising_key(fields: Seq<Field>, i: int, j: int)
    requires
        0 <= i < fields.len(),
        0 <= j < expanded(fields[i]).len(),
    ensures
        keys_of(flattened(fields)).contains(expanded(fields[i])[j].0),
{
    let pairs = expanded_all(fields);
    let key = expanded(fields[i])[j].0;
    let at = lemma_expanded_all_holds(fields, i, j);
    assert(keys_of(pairs)[at] == key);
    assert(keys_of(pairs).contains(key));
    lemma_last_index(keys_of(pairs), key);
    lemma_collected_last_wins(pairs);
    assert(value_at(flattened(fields), key) == last_value(pairs, key));
    lemma_first_index(keys_of(flattened(fields)), key);
    let first = first_index(keys_of(flattened(fields)), key).unwrap();
    assert(keys_of(flattened(fields))[first] == key);
}

/// A top-level field that is no document is kept as it is: where the keys
/// that flattening makes are all different, the flattened document holds the
/// field's value under the field's key.
pub proof fn lemma_flatten_keeps_plain_field(fields: Seq<Field>, i: int)
    requires
        distinct_keys(expanded_all(fields)),
        0 <= i < fields.len(),
        nested(fields[i].1) is None,
    ensures
        value_at(flattened(fields), fields[i].0) == Some(fields[i].1),
{
    lemma_flatten_without_collision(fields);
    let pairs = expanded_all(fields);
    let at = lemma_expanded_all_holds(fields, i, 0);
    assert(pairs[at] == fields[i]);
    lemma_distinct_value(pairs, at);
}

/// A field of a nested document moves up under its dotted key with its value
/// as it is, whatever lies below it: where the keys that flattening makes are
/// all different, the flattened document holds the value under
/// `outer.inner`.
pub proof fn lemma_flatten_moves_nested_field(fields: Seq<Field>, i: int, j: int)
    requires
        distinct_keys(expanded_all(fields)),
        0 <= i < fields.len(),
        nested(fields[i].1) is Some,
        0 <= j < entries(nested(fields[i].1).unwrap()).len(),
    ensures
        value_at(
            flattened(fields),
            dotted(fields[i].0, entries(nested(fields[i].1).unwrap())[j].0),
        ) == Some(entries(nested(fields[i].1).unwrap())[j].1),
{
    lemma_flatten_without_collision(fields);
    let pairs = expanded_all(fields);
    let below = entries(nested(fields[i].1).unwrap());
    assert(expanded(fields[i])[j] == (dotted(fields[i].0, below[j].0), below[j].1));
    let at = lemma_expanded_all_holds(fields, i, j);
    lemma_distinct_value(pairs, at);
}

/// Among fields with distinct keys, each field's key holds that field's
/// value.
proof fn lemma_distinct_value(fields: Seq<Field>, at: int)
    requires
        distinct_keys(fields),
        0 <= at < fields.len(),
    ensures
        value_at(fields, fields[at].0) == Some(fields[at].1),
{
    let all = keys_of(fields);
    assert forall|j: int| 0 <= j < at implies all[j] != fields[at].0 by {
        assert(all[at] == fields[at].0);
    }
    lemma_first_index_is(all, fields[at].0, at);
}

} // verus!
