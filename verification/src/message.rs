//! A GELF message: a finite map from field names to JSON values.

use crate::text::{
    lemma_precedes_is_strict, lemma_precedes_is_transitive, precedes, text_eq, text_precedes,
};
use serde_json::Value;
use vstd::prelude::*;
use vstd::utf8::encode_utf8;

verus! {

/// No two entries carry the same field name.
pub open spec fn distinct_names(entries: Seq<(String, Value)>) -> bool {
    forall|i: int, j: int|
        0 <= i < j < entries.len() ==> (#[trigger] entries[i]).0@ != (#[trigger] entries[j]).0@
}

/// Each name comes strictly before every later one, in the order of their
/// UTF-8 bytes.
pub open spec fn ascending_names(entries: Seq<(String, Value)>) -> bool {
    forall|i: int, j: int|
        0 <= i < j < entries.len() ==> precedes(
            encode_utf8((#[trigger] entries[i]).0@),
            encode_utf8((#[trigger] entries[j]).0@),
        )
}

/// Names in strictly ascending order are distinct.
pub proof fn lemma_ascending_names_are_distinct(entries: Seq<(String, Value)>)
    requires
        ascending_names(entries),
    ensures
        distinct_names(entries),
{
    assert forall|i: int, j: int| 0 <= i < j < entries.len() implies (#[trigger] entries[i]).0@ != (
    #[trigger] entries[j]).0@ by {
        lemma_precedes_is_strict(encode_utf8(entries[i].0@));
    }
}

/// Tells whether the names of the entries stand in strictly ascending order.
pub fn names_ascend(entries: &Vec<(String, Value)>) -> (ascending: bool)
    ensures
        ascending == ascending_names(entries@),
{
    if entries.len() < 2 {
        return true;
    }
    let mut i: usize = 1;
    while i < entries.len()
        invariant
            1 <= i <= entries.len(),
            forall|p: int, q: int|
                0 <= p < q < i ==> precedes(
                    encode_utf8((#[trigger] entries[p]).0@),
                    encode_utf8((#[trigger] entries[q]).0@),
                ),
        decreases entries.len() - i,
    {
        if !text_precedes(entries[i - 1].0.as_str(), entries[i].0.as_str()) {
            proof {
                let ghost a = entries@[i - 1];
                let ghost b = entries@[i as int];
                assert(!precedes(encode_utf8(a.0@), encode_utf8(b.0@)));
            }
            return false;
        }
        proof {
            assert forall|p: int, q: int| 0 <= p < q < i + 1 implies precedes(
                encode_utf8((#[trigger] entries[p]).0@),
                encode_utf8((#[trigger] entries[q]).0@),
            ) by {
                if q == i && p < i - 1 {
                    lemma_precedes_is_transitive(
                        encode_utf8(entries[p].0@),
                        encode_utf8(entries[i - 1].0@),
                        encode_utf8(entries[i as int].0@),
                    );
                }
            }
        }
        i += 1;
    }
    true
}

/// Some entry carries the given field name.
pub open spec fn has_name(entries: Seq<(String, Value)>, name: Seq<char>) -> bool {
    exists|i: int| 0 <= i < entries.len() && (#[trigger] entries[i]).0@ == name
}

/// The map that a list of entries stands for. Where a name occurs twice, the
/// later entry counts.
pub open spec fn fields_map(entries: Seq<(String, Value)>) -> Map<Seq<char>, Value>
    decreases entries.len(),
{
    if entries.len() == 0 {
        Map::empty()
    } else {
        fields_map(entries.drop_last()).insert(entries.last().0@, entries.last().1)
    }
}

/// The names of the map are the names of the entries, and they are finitely
/// many.
pub proof fn lemma_fields_map_names(entries: Seq<(String, Value)>)
    ensures
        fields_map(entries).dom().finite(),
        forall|name: Seq<char>| #[trigger]
            fields_map(entries).contains_key(name) == has_name(entries, name),
    decreases entries.len(),
{
    if entries.len() > 0 {
        let init = entries.drop_last();
        let last = entries.last();
        lemma_fields_map_names(init);
        assert forall|name: Seq<char>| #[trigger]
            fields_map(entries).contains_key(name) == has_name(entries, name) by {
            if name == last.0@ {
                assert(entries[entries.len() - 1].0@ == name);
            } else if has_name(init, name) {
                let i = choose|i: int| 0 <= i < init.len() && (#[trigger] init[i]).0@ == name;
                assert(entries[i].0@ == name);
            } else if has_name(entries, name) {
                let i = choose|i: int|
                    0 <= i < entries.len() && (#[trigger] entries[i]).0@ == name;
                assert(init[i].0@ == name);
            }
        }
    }
}

/// With distinct names, each entry's value is the one that the map gives to
/// its name.
pub proof fn lemma_fields_map_value(entries: Seq<(String, Value)>, i: int)
    requires
        distinct_names(entries),
        0 <= i < entries.len(),
    ensures
        fields_map(entries).contains_key(entries[i].0@),
        fields_map(entries)[entries[i].0@] == entries[i].1,
    decreases entries.len(),
{
    if i < entries.len() - 1 {
        let init = entries.drop_last();
        assert(init[i] == entries[i]);
        assert(entries[i].0@ != entries[entries.len() - 1].0@);
        assert(distinct_names(init)) by {
            assert forall|a: int, b: int| 0 <= a < b < init.len() implies (#[trigger] init[a]).0@
                != (#[trigger] init[b]).0@ by {
                assert(init[a] == entries[a] && init[b] == entries[b]);
            }
        }
        lemma_fields_map_value(init, i);
    }
}

/// With distinct names, the map has as many fields as there are entries.
pub proof fn lemma_fields_map_len(entries: Seq<(String, Value)>)
    requires
        distinct_names(entries),
    ensures
        fields_map(entries).dom().len() == entries.len(),
    decreases entries.len(),
{
    if entries.len() > 0 {
        let init = entries.drop_last();
        let last = entries.last();
        assert(distinct_names(init)) by {
            assert forall|a: int, b: int| 0 <= a < b < init.len() implies (#[trigger] init[a]).0@
                != (#[trigger] init[b]).0@ by {
                assert(init[a] == entries[a] && init[b] == entries[b]);
            }
        }
        lemma_fields_map_len(init);
        lemma_fields_map_names(init);
        assert(!has_name(init, last.0@)) by {
            if has_name(init, last.0@) {
                let i = choose|i: int| 0 <= i < init.len() && (#[trigger] init[i]).0@ == last.0@;
                assert(entries[i].0@ == entries[entries.len() - 1].0@);
            }
        }
        assert(fields_map(entries).dom() =~= fields_map(init).dom().insert(last.0@));
    }
}

/// A map that agrees with distinct entries, name for name and value for
/// value, is the map of those entries.
pub proof fn lemma_fields_map_is(entries: Seq<(String, Value)>, fields: Map<Seq<char>, Value>)
    requires
        distinct_names(entries),
        forall|name: Seq<char>| #[trigger] fields.contains_key(name) == has_name(entries, name),
        forall|i: int| 0 <= i < entries.len() ==> fields[(#[trigger] entries[i]).0@] == entries[i].1,
    ensures
        fields_map(entries) == fields,
{
    lemma_fields_map_names(entries);
    assert forall|name: Seq<char>| fields.contains_key(name) implies fields_map(entries)[name]
        == fields[name] by {
        let i = choose|i: int| 0 <= i < entries.len() && (#[trigger] entries[i]).0@ == name;
        lemma_fields_map_value(entries, i);
    }
    assert(fields_map(entries) =~= fields);
}

/// One GELF message. Its view is the map from field names to values.
#[derive(Debug)]
pub struct GelfMessage {
    fields: Vec<(String, Value)>,
}

impl View for GelfMessage {
    type V = Map<Seq<char>, Value>;

    closed spec fn view(&self) -> Map<Seq<char>, Value> {
        fields_map(self.fields@)
    }
}

impl GelfMessage {
    #[verifier::type_invariant]
    spec fn well_formed(&self) -> bool {
        distinct_names(self.fields@)
    }

    /// A message has finitely many fields.
    pub proof fn lemma_finite(&self)
        ensures
            self@.dom().finite(),
    {
        lemma_fields_map_names(self.fields@);
    }

    /// A message without fields.
    pub fn new() -> (message: GelfMessage)
        ensures
            message@ == Map::<Seq<char>, Value>::empty(),
    {
        GelfMessage { fields: Vec::new() }
    }

    /// Makes a message of any list of entries. Where a name occurs twice, the
    /// later entry counts. The time this takes grows with the square of the
    /// number of entries.
    pub fn from_fields(entries: Vec<(String, Value)>) -> (message: GelfMessage)
        ensures
            message@ == fields_map(entries@),
    {
        let mut rest = entries;
        let mut message = GelfMessage::new();
        proof {
            assert(fields_map(rest@).union_prefer_right(message@) =~= fields_map(entries@));
        }
        while rest.len() > 0
            invariant
                fields_map(rest@).union_prefer_right(message@) == fields_map(entries@),
            decreases rest.len(),
        {
            let ghost before = rest@;
            let ghost built = message@;
            let entry = rest.pop().unwrap();
            proof {
                assert(before.drop_last() == rest@);
            }
            if !message.contains_key(entry.0.as_str()) {
                message.insert(entry.0, entry.1);
            }
            proof {
                assert(fields_map(rest@).union_prefer_right(message@) =~= fields_map(
                    before,
                ).union_prefer_right(built));
            }
        }
        proof {
            assert(fields_map(rest@).union_prefer_right(message@) =~= message@);
        }
        message
    }

    /// Makes a message of entries whose names are distinct.
    pub(crate) fn from_entries(entries: Vec<(String, Value)>) -> (message: GelfMessage)
        requires
            distinct_names(entries@),
        ensures
            message@ == fields_map(entries@),
    {
        GelfMessage { fields: entries }
    }

    /// The entries of the message, each name once.
    pub(crate) fn entries(&self) -> (entries: &Vec<(String, Value)>)
        ensures
            distinct_names(entries@),
            fields_map(entries@) == self@,
    {
        proof {
            use_type_invariant(self);
        }
        &self.fields
    }

    /// Where the entry of a name stands, if the message has that field.
    fn position(&self, name: &str) -> (found: Option<usize>)
        ensures
            match found {
                Some(i) => i < self.fields.len() && self.fields[i as int].0@ == name@,
                None => !has_name(self.fields@, name@),
            },
    {
        let mut i: usize = 0;
        while i < self.fields.len()
            invariant
                i <= self.fields.len(),
                forall|j: int| 0 <= j < i ==> (#[trigger] self.fields[j]).0@ != name@,
            decreases self.fields.len() - i,
        {
            if text_eq(self.fields[i].0.as_str(), name) {
                return Some(i);
            }
            i += 1;
        }
        None
    }

    /// The number of fields.
    pub fn len(&self) -> (count: usize)
        ensures
            count == self@.dom().len(),
    {
        proof {
            use_type_invariant(self);
            lemma_fields_map_len(self.fields@);
        }
        self.fields.len()
    }

    /// Whether the message has no field at all.
    pub fn is_empty(&self) -> (empty: bool)
        ensures
            empty == (self@ == Map::<Seq<char>, Value>::empty()),
    {
        proof {
            use_type_invariant(self);
            lemma_fields_map_len(self.fields@);
            lemma_fields_map_names(self.fields@);
            if self.fields@.len() == 0 {
                assert(self@ =~= Map::<Seq<char>, Value>::empty());
            } else {
                assert(self@.contains_key(self.fields@[self.fields@.len() - 1].0@));
            }
        }
        self.fields.len() == 0
    }

    /// Whether the message has a field of the given name.
    pub fn contains_key(&self, name: &str) -> (present: bool)
        ensures
            present == self@.contains_key(name@),
    {
        proof {
            lemma_fields_map_names(self.fields@);
        }
        self.position(name).is_some()
    }

    /// The value of the field of the given name, if the message has one.
    pub fn get(&self, name: &str) -> (value: Option<&Value>)
        ensures
            match value {
                Some(v) => self@.contains_key(name@) && *v == self@[name@],
                None => !self@.contains_key(name@),
            },
    {
        proof {
            use_type_invariant(self);
            lemma_fields_map_names(self.fields@);
        }
        match self.position(name) {
            Some(i) => {
                proof {
                    lemma_fields_map_value(self.fields@, i as int);
                }
                Some(&self.fields[i].1)
            },
            None => None,
        }
    }

    /// Sets the field of the given name to the given value, and hands back the
    /// value that the field had before, if the message had that field.
    pub fn insert(&mut self, name: String, value: Value) -> (previous: Option<Value>)
        ensures
            final(self)@ == old(self)@.insert(name@, value),
            previous == if old(self)@.contains_key(name@) {
                Some(old(self)@[name@])
            } else {
                None::<Value>
            },
    {
        proof {
            use_type_invariant(&*self);
            lemma_fields_map_names(self.fields@);
        }
        let ghost before = self.fields@;
        let found = self.position(name.as_str());
        let mut fields: Vec<(String, Value)> = Vec::new();
        core::mem::swap(&mut self.fields, &mut fields);
        let previous = match found {
            Some(i) => {
                let mut entry = (name, value);
                fields.set_and_swap(i, &mut entry);
                proof {
                    lemma_fields_map_value(before, i as int);
                    lemma_replaced_entry(before, i as int, name, value);
                }
                Some(entry.1)
            },
            None => {
                fields.push((name, value));
                proof {
                    assert(fields@.drop_last() == before);
                }
                None
            },
        };
        proof {
            let after = fields@;
            assert forall|a: int, b: int| 0 <= a < b < after.len() implies (#[trigger] after[a]).0@
                != (#[trigger] after[b]).0@ by {
                if b < before.len() {
                    assert(after[a].0@ == before[a].0@);
                    assert(after[b].0@ == before[b].0@);
                } else {
                    assert(after[a] == before[a]);
                }
            }
        }
        core::mem::swap(&mut self.fields, &mut fields);
        previous
    }
}

/// Replacing the value of one entry, under the same name, sets that field in
/// the map and leaves the others.
proof fn lemma_replaced_entry(entries: Seq<(String, Value)>, i: int, name: String, value: Value)
    requires
        distinct_names(entries),
        0 <= i < entries.len(),
        entries[i].0@ == name@,
    ensures
        fields_map(entries.update(i, (name, value))) == fields_map(entries).insert(name@, value),
{
    let after = entries.update(i, (name, value));
    let target = fields_map(entries).insert(name@, value);
    lemma_fields_map_names(entries);
    assert(distinct_names(after)) by {
        assert forall|a: int, b: int| 0 <= a < b < after.len() implies (#[trigger] after[a]).0@ != (
        #[trigger] after[b]).0@ by {
            assert(after[a].0@ == entries[a].0@);
            assert(after[b].0@ == entries[b].0@);
        }
    }
    assert forall|k: Seq<char>| #[trigger] target.contains_key(k) == has_name(after, k) by {
        if has_name(entries, k) {
            let j = choose|j: int| 0 <= j < entries.len() && (#[trigger] entries[j]).0@ == k;
            assert(after[j].0@ == k);
        } else if has_name(after, k) {
            let j = choose|j: int| 0 <= j < after.len() && (#[trigger] after[j]).0@ == k;
            assert(entries[j].0@ == k);
        }
        if k == name@ {
            assert(after[i].0@ == k);
        }
    }
    assert forall|j: int| 0 <= j < after.len() implies target[(#[trigger] after[j]).0@]
        == after[j].1 by {
        if j != i {
            assert(after[j] == entries[j]);
            lemma_fields_map_value(entries, j);
            if j < i {
                assert(entries[j].0@ != entries[i].0@);
            } else {
                assert(entries[i].0@ != entries[j].0@);
            }
        }
    }
    lemma_fields_map_is(after, target);
}

} // verus!
