//! Flattening of documents for partial updates of the store.

use bson::{Bson, Document};
use vstd::prelude::*;
use vstd::string::StringExecFns;

use crate::entities::lookup::first_index;

verus! {

/// `bson::Document`: an ordered map from text keys to values. Its contents
/// are spoken of through [`entries`].
#[verifier::external_type_specification]
#[verifier::external_body]
pub struct ExDocument(Document);

/// `bson::Bson`: one value of a document. Whether it is a document in turn is
/// spoken of through [`nested`]; nothing else is looked at.
#[verifier::external_type_specification]
#[verifier::external_body]
pub struct ExBson(Bson);

/// A field of a document: its key and its value.
pub type Field = (Seq<char>, Bson);

/// The fields of `document`, in the order in which the document holds and
/// hands them out: the order in which the keys were first inserted.
pub uninterp spec fn entries(document: Document) -> Seq<Field>;

/// The document that `value` is, or `None` where `value` is of any other
/// kind.
pub uninterp spec fn nested(value: Bson) -> Option<Document>;

/// The keys of `fields`, in order.
pub open spec fn keys_of(fields: Seq<Field>) -> Seq<Seq<char>> {
    fields.map_values(|field: Field| field.0)
}

/// `fields` after `value` was put under `key`: where a field has the key, it
/// keeps its place and takes the value; else the new field comes last.
pub open spec fn put(fields: Seq<Field>, key: Seq<char>, value: Bson) -> Seq<Field> {
    match first_index(keys_of(fields), key) {
        Some(at) => fields.update(at, (key, value)),
        None => fields.push((key, value)),
    }
}

/// The fields of the document that is filled by putting `pairs` into an empty
/// one, one after the other.
pub open spec fn collected(pairs: Seq<Field>) -> Seq<Field> {
    pairs.fold_left(Seq::<Field>::empty(), |filled: Seq<Field>, pair: Field| put(filled, pair.0, pair.1))
}

/// The key of a nested field after flattening: the outer key, a dot, the
/// inner key.
pub open spec fn dotted(outer: Seq<char>, inner: Seq<char>) -> Seq<char> {
    outer + seq!['.'] + inner
}

/// What a top-level field becomes when its document is flattened: where its
/// value is a document, the fields of that document under dotted keys, their
/// values as they are; else the field itself.
pub open spec fn expanded(field: Field) -> Seq<Field> {
    match nested(field.1) {
        Some(inner) => entries(inner).map_values(|below: Field| (dotted(field.0, below.0), below.1)),
        None => seq![field],
    }
}

/// What the top-level `fields` become, one after the other.
pub open spec fn expanded_all(fields: Seq<Field>) -> Seq<Field> {
    fields.map_values(|field: Field| expanded(field)).flatten()
}

/// The fields of a document with the fields `fields` after flattening it one
/// level deep.
pub open spec fn flattened(fields: Seq<Field>) -> Seq<Field> {
    collected(expanded_all(fields))
}

/// `Document::new` of bson: a document without fields.
pub assume_specification[ Document::new ]() -> (document: Document)
    ensures
        entries(document) == Seq::<Field>::empty(),
;

/// `Document::insert` of bson, which is `IndexMap::insert` on the map inside:
/// where the key is there, it keeps its place and its value is replaced; else
/// the field is added last.
#[verifier::external_body]
fn insert(document: &mut Document, key: String, value: Bson)
    ensures
        entries(*final(document)) == put(entries(*old(document)), key@, value),
{
    document.insert(key, value);
}

/// The owning iterator of a bson `Document`, run to its end: the fields in
/// the document's order.
#[verifier::external_body]
fn into_fields(document: Document) -> (fields: Vec<(String, Bson)>)
    ensures
        fields@.len() == entries(document).len(),
        forall|i: int|
            0 <= i < fields@.len() ==> (#[trigger] fields@[i]).0@ == entries(document)[i].0
                && fields@[i].1 == entries(document)[i].1,
{
    document.into_iter().collect()
}

/// Tells the `Document` variant of bson's `Bson` from the others: gives the
/// document inside, or the value back.
#[verifier::external_body]
fn into_nested(value: Bson) -> (inner: Result<Document, Bson>)
    ensures
        match inner {
            Ok(document) => nested(value) == Some(document),
            Err(other) => nested(value) is None && other == value,
        },
{
    match value {
        Bson::Document(document) => Ok(document),
        other => Err(other),
    }
}

/// The key `outer.inner`.
fn dotted_key(outer: &str, inner: &str) -> (key: String)
    ensures
        key@ == dotted(outer@, inner@),
{
    let mut key = String::from_str(outer);
    key.append(".");
    key.append(inner);
    proof {
        reveal_strlit(".");
        assert("."@ =~= seq!['.']);
    }
    key
}

/// Putting one more pair into a document that was filled from `pairs` gives
/// the document filled from `pairs` and that pair.
proof fn lemma_collected_push(pairs: Seq<Field>, pair: Field)
    ensures
        collected(pairs.push(pair)) == put(collected(pairs), pair.0, pair.1),
{
    assert(pairs.push(pair).drop_last() =~= pairs);
}

/// Flattening takes the top-level fields one after the other.
pub proof fn lemma_expanded_all_push(fields: Seq<Field>, field: Field)
    ensures
        expanded_all(fields.push(field)) == expanded_all(fields) + expanded(field),
{
    let lists = fields.map_values(|field: Field| expanded(field));
    lists.lemma_flatten_push(expanded(field));
    assert(fields.push(field).map_values(|field: Field| expanded(field)) =~= lists.push(
        expanded(field),
    ));
}

/// Flattens a document one level deep.
///
/// A top-level field whose value is a document is replaced by the fields of
/// that document, each under the key `outer.inner`; what lies deeper stays as
/// it is, as the value of its field. Any other top-level field is kept. The
/// result is filled in the order of the input, so a key that comes up twice
/// keeps its first place and its last value.
pub fn flatten_document(doc: Document) -> (target: Document)
    ensures
        entries(target) == flattened(entries(doc)),
{
    let mut target = Document::new();
    let fields = into_fields(doc);
    let ghost all = entries(doc);
    let ghost done: Seq<Field> = Seq::empty();
    proof {
        assert(all.take(0).map_values(|field: Field| expanded(field)) =~= Seq::<Seq<Field>>::empty());
    }
    for field in outer_iter: fields
        invariant
            outer_iter.seq() == fields@,
            fields@.len() == all.len(),
            forall|i: int|
                0 <= i < fields@.len() ==> (#[trigger] fields@[i]).0@ == all[i].0 && fields@[i].1
                    == all[i].1,
            done == expanded_all(all.take(outer_iter.index())),
            entries(target) == collected(done),
    {
        let ghost at = outer_iter.index();
        let ghost current = all[at];
        let (outer_key, value) = field;
        proof {
            assert(all.take(at + 1) =~= all.take(at).push(current));
            lemma_expanded_all_push(all.take(at), current);
        }
        match into_nested(value) {
            Ok(inner) => {
                let ghost below = entries(inner);
                let ghost moved = expanded(current);
                let inner_fields = into_fields(inner);
                let ghost before = done;
                proof {
                    assert(before + moved.take(0) =~= before);
                }
                for inner_field in inner_iter: inner_fields
                    invariant
                        inner_iter.seq() == inner_fields@,
                        inner_fields@.len() == below.len(),
                        moved.len() == below.len(),
                        forall|j: int|
                            0 <= j < below.len() ==> (#[trigger] moved[j]) == (
                                dotted(outer_key@, below[j].0),
                                below[j].1,
                            ),
                        forall|j: int|
                            0 <= j < inner_fields@.len() ==> (#[trigger] inner_fields@[j]).0@
                                == below[j].0 && inner_fields@[j].1 == below[j].1,
                        done == before + moved.take(inner_iter.index()),
                        entries(target) == collected(done),
                {
                    let ghost j = inner_iter.index();
                    let (inner_key, inner_value) = inner_field;
                    let key = dotted_key(outer_key.as_str(), inner_key.as_str());
                    insert(&mut target, key, inner_value);
                    proof {
                        lemma_collected_push(done, moved[j]);
                        assert(before + moved.take(j + 1) =~= (before + moved.take(j)).push(
                            moved[j],
                        ));
                        done = done.push(moved[j]);
                    }
                }
                proof {
                    assert(moved.take(moved.len() as int) =~= moved);
                }
            },
            Err(plain) => {
                insert(&mut target, outer_key, plain);
                proof {
                    lemma_collected_push(done, current);
                    assert(done + expanded(current) =~= done.push(current));
                    done = done.push(current);
                }
            },
        }
    }
    proof {
        assert(all.take(all.len() as int) =~= all);
    }
    target
}

} // verus!
