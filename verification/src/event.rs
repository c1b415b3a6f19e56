//! Events: the named JSON fields that are sent to Honeycomb, with a timestamp.
use crate::value::{field_of, otel_value_to_serde_json, AttributeView, FieldValue, FieldView, KeyValue};
use vstd::prelude::*;

verus! {

/// A named field of an [`Event`].
#[derive(Debug)]
pub struct Field {
    pub name: String,
    pub value: FieldValue,
}

/// An event under construction.
///
/// It holds at most one field of each name. Without a timestamp of its own it
/// bears the moment at which the client made it.
#[derive(Debug)]
pub struct Event {
    timestamp_millis: Option<i64>,
    fields: Vec<Field>,
}

/// What an [`Event`] stands for.
pub struct EventView {
    /// Milliseconds since the Unix epoch, where a timestamp was set.
    pub timestamp_millis: Option<i64>,
    pub fields: Map<Seq<char>, FieldView>,
}

/// Whether no two fields have one name.
pub open spec fn distinct_names(fields: Seq<Field>) -> bool {
    forall|i: int, j: int|
        0 <= i < j < fields.len() ==> (#[trigger] fields[i]).name@ != (#[trigger] fields[j]).name@
}

/// The fields of a list, by name.
pub open spec fn fields_by_name(fields: Seq<Field>) -> Map<Seq<char>, FieldView>
    decreases fields.len(),
{
    if fields.len() == 0 {
        Map::empty()
    } else {
        fields_by_name(fields.drop_last()).insert(fields.last().name@, fields.last().value@)
    }
}

/// The fields left when attributes are added to `fields` one after the other:
/// an attribute replaces a field of its name.
pub open spec fn add_all(
    fields: Map<Seq<char>, FieldView>,
    attributes: Seq<(Seq<char>, AttributeView)>,
) -> Map<Seq<char>, FieldView>
    decreases attributes.len(),
{
    if attributes.len() == 0 {
        fields
    } else {
        add_all(fields, attributes.drop_last()).insert(
            attributes.last().0,
            field_of(attributes.last().1),
        )
    }
}

impl View for Event {
    type V = EventView;

    closed spec fn view(&self) -> EventView {
        EventView {
            timestamp_millis: self.timestamp_millis,
            fields: fields_by_name(self.fields@),
        }
    }
}

impl Event {
    /// No two fields have one name.
    pub closed spec fn wf(&self) -> bool {
        distinct_names(self.fields@)
    }

    /// An event without fields or timestamp.
    pub fn new() -> (r: Event)
        ensures
            r.wf(),
            r@ == (EventView { timestamp_millis: None, fields: Map::empty() }),
    {
        Event { timestamp_millis: None, fields: Vec::new() }
    }

    /// Sets the timestamp, in milliseconds since the Unix epoch.
    pub fn set_timestamp(&mut self, millis: i64)
        requires
            old(self).wf(),
        ensures
            final(self).wf(),
            final(self)@ == (EventView { timestamp_millis: Some(millis), ..old(self)@ }),
    {
        self.timestamp_millis = Some(millis);
    }

    /// Adds a field, in place of the field of that name if there is one.
    pub fn add_field(&mut self, name: &str, value: FieldValue)
        requires
            old(self).wf(),
        ensures
            final(self).wf(),
            final(self)@ == (EventView {
                fields: old(self)@.fields.insert(name@, value@),
                ..old(self)@
            }),
    {
        let key: String = name.to_owned();
        let ghost before = self.fields@;
        let mut i: usize = 0;
        while i < self.fields.len()
            invariant
                i <= self.fields@.len(),
                self.fields@ == before,
                self.timestamp_millis == old(self).timestamp_millis,
                before == old(self).fields@,
                distinct_names(before),
                key@ == name@,
                forall|j: int| 0 <= j < i ==> (#[trigger] before[j]).name@ != key@,
            decreases self.fields@.len() - i,
        {
            if self.fields[i].name == key {
                let field = Field { name: key, value };
                self.fields.set(i, field);
                proof {
                    lemma_replace(before, i as int, field);
                }
                return ;
            }
            i = i + 1;
        }
        let field = Field { name: key, value };
        self.fields.push(field);
        assert(self.fields@.drop_last() =~= before);
    }

    /// Adds attributes in order: each replaces a field of its name.
    pub(crate) fn add_attributes(&mut self, attributes: &Vec<KeyValue>)
        requires
            old(self).wf(),
        ensures
            final(self).wf(),
            final(self)@ == (EventView {
                fields: add_all(
                    old(self)@.fields,
                    crate::value::attribute_views(attributes@),
                ),
                ..old(self)@
            }),
    {
        let ghost views = crate::value::attribute_views(attributes@);
        assert(views.take(0) =~= Seq::empty());
        for i in 0..attributes.len()
            invariant
                self.wf(),
                views == crate::value::attribute_views(attributes@),
                self@ == (EventView {
                    fields: add_all(old(self)@.fields, views.take(i as int)),
                    ..old(self)@
                }),
        {
            let value = otel_value_to_serde_json(attributes[i].value.clone());
            self.add_field(attributes[i].key.as_str(), value);
            proof {
                let next = views.take(i + 1);
                assert(next.drop_last() =~= views.take(i as int));
                assert(next.last() == attributes@[i as int]@);
            }
        }
        assert(views.take(attributes@.len() as int) =~= views);
    }

    /// The timestamp that was set, in milliseconds since the Unix epoch.
    pub fn timestamp_millis(&self) -> (r: Option<i64>)
        ensures
            r == self@.timestamp_millis,
    {
        self.timestamp_millis
    }

    /// The fields, no two of one name.
    pub fn fields(&self) -> (r: &Vec<Field>)
        requires
            self.wf(),
        ensures
            distinct_names(r@),
            fields_by_name(r@) == self@.fields,
            forall|i: int|
                #![trigger r@[i]]
                0 <= i < r@.len() ==> self@.fields.contains_key(r@[i].name@)
                    && self@.fields[r@[i].name@] == r@[i].value@,
            forall|name: Seq<char>| #[trigger]
                self@.fields.contains_key(name) ==> exists|i: int|
                    0 <= i < r@.len() && (#[trigger] r@[i]).name@ == name,
    {
        proof {
            lemma_by_name(self.fields@);
        }
        &self.fields
    }
}

/// A name is that of a field exactly if it is in the map, with the field's value.
proof fn lemma_by_name(fields: Seq<Field>)
    requires
        distinct_names(fields),
    ensures
        forall|i: int|
            #![trigger fields[i]]
            0 <= i < fields.len() ==> fields_by_name(fields).contains_key(fields[i].name@)
                && fields_by_name(fields)[fields[i].name@] == fields[i].value@,
        forall|name: Seq<char>|
            #[trigger] fields_by_name(fields).contains_key(name) ==> exists|i: int|
                0 <= i < fields.len() && (#[trigger] fields[i]).name@ == name,
    decreases fields.len(),
{
    if fields.len() > 0 {
        let rest = fields.drop_last();
        lemma_by_name(rest);
        assert forall|i: int|
            #![trigger fields[i]]
            0 <= i < fields.len() implies fields_by_name(fields).contains_key(fields[i].name@)
            && fields_by_name(fields)[fields[i].name@] == fields[i].value@ by {
            if i < rest.len() {
                assert(rest[i] == fields[i]);
            }
        }
        assert forall|name: Seq<char>| #[trigger]
            fields_by_name(fields).contains_key(name) implies exists|i: int|
            0 <= i < fields.len() && (#[trigger] fields[i]).name@ == name by {
            if name == fields.last().name@ {
                assert(fields[fields.len() - 1].name@ == name);
            } else {
                assert(fields_by_name(rest).contains_key(name));
                let i = choose|i: int| 0 <= i < rest.len() && (#[trigger] rest[i]).name@ == name;
                assert(fields[i].name@ == name);
            }
        }
    }
}

/// Replacing a field by one of its name changes what the name maps to, and nothing else.
proof fn lemma_replace(fields: Seq<Field>, i: int, field: Field)
    requires
        distinct_names(fields),
        0 <= i < fields.len(),
        fields[i].name@ == field.name@,
    ensures
        distinct_names(fields.update(i, field)),
        fields_by_name(fields.update(i, field)) == fields_by_name(fields).insert(
            field.name@,
            field.value@,
        ),
{
    let after = fields.update(i, field);
    lemma_by_name(fields);
    assert(forall|j: int| 0 <= j < fields.len() ==> (#[trigger] after[j]).name@ == fields[j].name@);
    lemma_by_name(after);
    let expected = fields_by_name(fields).insert(field.name@, field.value@);
    assert forall|name: Seq<char>|
        #![trigger fields_by_name(after).dom().contains(name)]
        #![trigger expected.dom().contains(name)]
        #![trigger fields_by_name(after)[name]]
        fields_by_name(after).contains_key(name) == expected.contains_key(name)
        && (expected.contains_key(name) ==> fields_by_name(after)[name] == expected[name]) by {
        if fields_by_name(after).contains_key(name) {
            let j = choose|j: int| 0 <= j < after.len() && (#[trigger] after[j]).name@ == name;
            assert(fields[j].name@ == name);
        }
        if fields_by_name(fields).contains_key(name) {
            let j = choose|j: int| 0 <= j < fields.len() && (#[trigger] fields[j]).name@ == name;
            assert(after[j].name@ == name);
        }
        assert(after[i] == field);
    }
    assert(fields_by_name(after) =~= expected);
}

} // verus!
