//! Objects with sparse members: an attribute that was set stands under its
//! key, one that was not set has no key at all.

use crate::encode::{json_option, Encode};
use crate::json::{fields_of, insert_field, json_of, new_fields, object_value, Json};
use vstd::prelude::*;

verus! {

/// The members of a JSON object.
pub type Members = Map<Seq<char>, Json>;

/// The members that a table describes: one under each key for which the
/// table gives a document, and none under any other key.
pub open spec fn members(table: spec_fn(Seq<char>) -> Option<Json>) -> Members {
    Map::new(|key: Seq<char>| table(key) is Some, |key: Seq<char>| table(key).unwrap())
}

/// The length of a key with its first and its last character. The keys of
/// one object differ in this mark, which is how they are told apart.
pub open spec fn mark(key: Seq<char>) -> (nat, char, char) {
    (key.len(), key.first(), key.last())
}

/// Writing under a key changes the members at that key only: the document
/// stands under the key, every other key that was there stays with what it
/// held, and no other key appears.
pub proof fn lemma_insert_touches_one_key(held: Members, key: Seq<char>, document: Json)
    ensures
        held.insert(key, document).contains_key(key),
        held.insert(key, document)[key] == document,
        forall|other: Seq<char>|
            other != key ==> (held.insert(key, document).contains_key(other) <==> held.contains_key(
                other,
            )),
        forall|other: Seq<char>|
            other != key && held.contains_key(other) ==> held.insert(key, document)[other]
                == held[other],
{
}

/// Of two documents written under one key, the later stands there, as if
/// the earlier had never been written. So a list set after a single value
/// is encoded as an array, and a single value set after a list is encoded
/// bare.
pub proof fn lemma_last_insert_wins(held: Members, key: Seq<char>, earlier: Json, later: Json)
    ensures
        held.insert(key, earlier).insert(key, later) == held.insert(key, later),
{
    assert(held.insert(key, earlier).insert(key, later) =~= held.insert(key, later));
}

/// A nested configuration with no attribute set, once it is written under a
/// key, stands there as an empty object: the key is not left out.
pub proof fn lemma_empty_object_is_written(held: Members, key: Seq<char>)
    ensures
        held.insert(key, Json::Object(Members::empty())).contains_key(key),
        held.insert(key, Json::Object(Members::empty()))[key] == Json::Object(Members::empty()),
{
}

/// An object under construction from a table of members.
///
/// The writer holds the members of the table under the keys that were
/// written so far. Once every key under which the table has a member was
/// written, it holds the table's members and no others.
pub(crate) struct Writer {
    fields: serde_json::Map<String, serde_json::Value>,
    written: Ghost<Set<Seq<char>>>,
}

impl Writer {
    /// The keys that were written so far.
    pub(crate) closed spec fn written(&self) -> Set<Seq<char>> {
        self.written@
    }

    /// The writer holds what the table has under the keys written so far.
    pub(crate) closed spec fn follows(&self, table: spec_fn(Seq<char>) -> Option<Json>) -> bool {
        fields_of(self.fields) == members(table).restrict(self.written@)
    }

    /// A writer that has written nothing.
    pub(crate) fn new(Ghost(table): Ghost<spec_fn(Seq<char>) -> Option<Json>>) -> (writer: Self)
        ensures
            writer.follows(table),
            writer.written() == Set::<Seq<char>>::empty(),
    {
        let writer = Writer { fields: new_fields(), written: Ghost(Set::empty()) };
        assert(fields_of(writer.fields) =~= members(table).restrict(Set::empty()));
        writer
    }

    /// Writes an attribute that is always there, under its key.
    pub(crate) fn set<T: Encode>(
        &mut self,
        key: &str,
        item: &T,
        Ghost(table): Ghost<spec_fn(Seq<char>) -> Option<Json>>,
    )
        requires
            old(self).follows(table),
            table(key@) == Some(item.json()),
        ensures
            final(self).follows(table),
            final(self).written() == old(self).written().insert(key@),
    {
        insert_field(&mut self.fields, key.to_owned(), item.to_value());
        self.written = Ghost(self.written@.insert(key@));
        assert(fields_of(self.fields) =~= members(table).restrict(self.written@));
    }

    /// Writes an attribute under its key where the attribute is set, and
    /// nothing where it is not.
    pub(crate) fn put<T: Encode>(
        &mut self,
        key: &str,
        item: &Option<T>,
        Ghost(table): Ghost<spec_fn(Seq<char>) -> Option<Json>>,
    )
        requires
            old(self).follows(table),
            table(key@) == json_option(*item),
        ensures
            final(self).follows(table),
            final(self).written() == old(self).written().insert(key@),
    {
        if let Some(present) = item {
            insert_field(&mut self.fields, key.to_owned(), present.to_value());
        }
        self.written = Ghost(self.written@.insert(key@));
        assert(fields_of(self.fields) =~= members(table).restrict(self.written@));
    }

    /// Closes the object. Every key under which the table has a member must
    /// have been written.
    pub(crate) fn finish(self, Ghost(table): Ghost<spec_fn(Seq<char>) -> Option<Json>>) -> (value:
        serde_json::Value)
        requires
            self.follows(table),
            forall|key: Seq<char>| table(key) is Some ==> #[trigger] self.written().contains(key),
        ensures
            json_of(value) == Json::Object(members(table)),
    {
        proof {
            let held = members(table);
            let keys = self.written();
            assert forall|key: Seq<char>| #[trigger] held.dom().contains(key) implies keys.contains(
                key,
            ) by {
                assert(table(key) is Some);
                assert(self.written().contains(key));
            }
            assert(held.restrict(keys) =~= held);
        }
        object_value(self.fields)
    }
}

} // verus!
