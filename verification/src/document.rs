//! Document types: the fields that a type declares, and the schema body that
//! the backend is sent for them.

use crate::error::RequestError;
use crate::json::{encode_str, json_string, object_text, Member, ObjectWriter};
use crate::mapping::{mapping_json, FieldMapping, FieldMappingView};
use vstd::prelude::*;
use vstd::string::StringSliceAdditionalSpecFns;
use vstd::utf8::is_ascii_chars_encode_utf8;

verus! {

/// The key under which a schema body holds the fields, as JSON text.
pub const PROPERTIES_KEY: &'static str = "\"properties\"";

/// A declared field as a mathematical value: its name and its mapping.
pub type Property = (Seq<char>, FieldMappingView);

/// Whether a field with the given name is among `fields`.
pub open spec fn declares(fields: Seq<Property>, name: Seq<char>) -> bool {
    exists|i: int| 0 <= i < fields.len() && (#[trigger] fields[i]).0 == name
}

/// The place of the field with the given name among `fields`.
pub open spec fn place_of(fields: Seq<Property>, name: Seq<char>) -> int {
    choose|i: int| 0 <= i < fields.len() && (#[trigger] fields[i]).0 == name
}

/// No name occurs twice among `fields`.
pub open spec fn distinct_names(fields: Seq<Property>) -> bool {
    forall|i: int, j: int|
        0 <= i < j < fields.len() ==> (#[trigger] fields[i]).0 != (#[trigger] fields[j]).0
}

/// `fields` after the field `name` was declared with `mapping`: a name that was
/// declared before keeps its place and gets the new mapping, a new name goes
/// to the end.
pub open spec fn with_field(fields: Seq<Property>, name: Seq<char>, mapping: FieldMappingView) -> Seq<
    Property,
> {
    if declares(fields, name) {
        fields.update(place_of(fields, name), (name, mapping))
    } else {
        fields.push((name, mapping))
    }
}

/// The fields of a document type, each with its mapping, in the order in which
/// they were declared. No name occurs twice.
pub struct DocumentMapping {
    fields: Vec<(String, FieldMapping)>,
}

impl View for DocumentMapping {
    type V = Seq<Property>;

    /// The declared fields, in order.
    closed spec fn view(&self) -> Seq<Property> {
        Seq::new(self.fields@.len(), |i: int| (self.fields@[i].0@, self.fields@[i].1@))
    }
}

impl DocumentMapping {
    #[verifier::type_invariant]
    spec fn names_are_distinct(&self) -> bool {
        distinct_names(self@)
    }

    /// The fields of a type that declares none.
    pub fn new() -> (m: DocumentMapping)
        ensures
            m@ == Seq::<Property>::empty(),
    {
        DocumentMapping { fields: Vec::new() }
    }

    /// The number of declared fields.
    pub fn len(&self) -> (n: usize)
        ensures
            n == self@.len(),
    {
        self.fields.len()
    }

    /// The place of the field `name`, if it is declared.
    fn find(&self, name: &str) -> (r: Option<usize>)
        ensures
            match r {
                Some(i) => i < self@.len() && self@[i as int].0 == name@,
                None => !declares(self@, name@),
            },
    {
        let wanted = name.to_owned();
        let mut i: usize = 0;
        while i < self.fields.len()
            invariant
                i <= self.fields.len(),
                wanted@ == name@,
                self@.len() == self.fields@.len(),
                forall|j: int| 0 <= j < i ==> (#[trigger] self@[j]).0 != name@,
            decreases self.fields.len() - i,
        {
            assert(self@[i as int].0 == self.fields@[i as int].0@);
            if self.fields[i].0 == wanted {
                return Some(i);
            }
            i += 1;
        }
        None
    }

    /// The mapping of the field `name`, if it is declared.
    pub fn get(&self, name: &str) -> (r: Option<&FieldMapping>)
        ensures
            match r {
                Some(m) => declares(self@, name@) && m@ == self@[place_of(self@, name@)].1,
                None => !declares(self@, name@),
            },
    {
        proof {
            use_type_invariant(self);
        }
        match self.find(name) {
            Some(i) => {
                assert(place_of(self@, name@) == i);
                Some(&self.fields[i].1)
            },
            None => None,
        }
    }

    /// Declares the field `name` with `mapping`. A name that is declared already
    /// keeps its place and gets the new mapping.
    pub fn insert(&mut self, name: &str, mapping: FieldMapping)
        ensures
            final(self)@ == with_field(old(self)@, name@, mapping@),
    {
        let mut taken = DocumentMapping::new();
        proof {
            use_type_invariant(&*self);
            use_type_invariant(&taken);
        }
        core::mem::swap(self, &mut taken);
        let place = taken.find(name);
        let mut fields = taken.fields;
        let ghost before = fields@;
        match place {
            Some(i) => {
                assert(place_of(old(self)@, name@) == i);
                fields.set(i, (name.to_owned(), mapping));
            },
            None => {
                fields.push((name.to_owned(), mapping));
            },
        }
        proof {
            let wanted = with_field(old(self)@, name@, mapping@);
            let made = Seq::new(fields@.len(), |k: int| (fields@[k].0@, fields@[k].1@));
            assert(made =~= wanted);
            assert(distinct_names(wanted)) by {
                assert forall|a: int, b: int| 0 <= a < b < wanted.len() implies (#[trigger] wanted[a]).0
                    != (#[trigger] wanted[b]).0 by {
                    if a < old(self)@.len() {
                        assert(old(self)@[a].0 == wanted[a].0);
                    }
                    if b < old(self)@.len() {
                        assert(old(self)@[b].0 == wanted[b].0);
                    }
                }
            }
        }
        let after = DocumentMapping { fields };
        *self = after;
    }
}

/// The member that a declared field adds to the schema: its name and its
/// mapping object, both as JSON text. `None` where one cannot be encoded.
pub open spec fn property_member(field: Property) -> Option<Member> {
    match (json_string(field.0), mapping_json(field.1)) {
        (Some(name), Some(mapping)) => Some((name, mapping)),
        _ => None,
    }
}

/// Whether every field among `fields` can be encoded.
pub open spec fn encodable(fields: Seq<Property>) -> bool {
    forall|i: int| 0 <= i < fields.len() ==> property_member(#[trigger] fields[i]).is_some()
}

/// The members of the `properties` object: one for each field, in the order of
/// declaration.
pub open spec fn property_members(fields: Seq<Property>) -> Seq<Member> {
    Seq::new(fields.len(), |i: int| property_member(fields[i]).unwrap())
}

/// The schema body of a document type with the given fields: an object whose
/// one member, `properties`, holds the fields in the order of declaration.
/// `None` where a field cannot be encoded.
pub open spec fn schema_body(fields: Seq<Property>) -> Option<Seq<u8>> {
    if encodable(fields) {
        Some(
            object_text(
                seq![(PROPERTIES_KEY.spec_bytes(), object_text(property_members(fields)))],
            ),
        )
    } else {
        None
    }
}

/// A type that declares no field has the schema body `{"properties":{}}`.
pub proof fn schema_body_of_no_fields()
    ensures
        schema_body(Seq::<Property>::empty()) == Some("{\"properties\":{}}".spec_bytes()),
{
    reveal_strlit("{\"properties\":{}}");
    reveal_strlit("\"properties\"");
    let whole = "{\"properties\":{}}";
    let key = "\"properties\"";
    is_ascii_chars_encode_utf8(whole@);
    is_ascii_chars_encode_utf8(key@);
    let none = Seq::<Property>::empty();
    assert(property_members(none) =~= Seq::<Member>::empty());
    assert(schema_body(none).unwrap() =~= whole.spec_bytes());
}

/// The mapping of a document type in the form in which an index takes it: the
/// declared fields under the key `properties`.
pub struct IndexDocumentMapping {
    mapping: DocumentMapping,
}

impl View for IndexDocumentMapping {
    type V = Seq<Property>;

    /// The declared fields, in order.
    closed spec fn view(&self) -> Seq<Property> {
        self.mapping@
    }
}

impl IndexDocumentMapping {
    /// Wraps the fields of a document type.
    pub fn from(mapping: DocumentMapping) -> (m: IndexDocumentMapping)
        ensures
            m@ == mapping@,
    {
        IndexDocumentMapping { mapping }
    }

    /// The schema body as bytes. The fields stand in the order of declaration.
    /// Fails exactly where the encoder rejects a name or an option.
    pub fn to_vec(&self) -> (r: Result<Vec<u8>, RequestError>)
        ensures
            match schema_body(self@) {
                Some(body) => r matches Ok(bytes) && bytes@ == body,
                None => r matches Err(RequestError::Encoding(_)),
            },
    {
        let fields = &self.mapping.fields;
        let ghost declared = self@;
        let mut properties = ObjectWriter::new();
        let mut i: usize = 0;
        while i < fields.len()
            invariant
                i <= fields.len(),
                declared == self@,
                fields == &self.mapping.fields,
                declared.len() == fields@.len(),
                properties@ == property_members(declared.take(i as int)),
                encodable(declared.take(i as int)),
            decreases fields.len() - i,
        {
            let ghost field = declared[i as int];
            assert(field == (fields@[i as int].0@, fields@[i as int].1@));
            let name = match encode_str(fields[i].0.as_str()) {
                Ok(name) => name,
                Err(e) => {
                    assert(property_member(declared[i as int]).is_none());
                    return Err(RequestError::Encoding(e));
                },
            };
            let mapping = match fields[i].1.to_json() {
                Ok(mapping) => mapping,
                Err(e) => {
                    assert(property_member(declared[i as int]).is_none());
                    return Err(e);
                },
            };
            properties = properties.member(name.as_slice(), mapping.as_slice());
            proof {
                let next = declared.take(i + 1);
                assert(next.drop_last() =~= declared.take(i as int));
                assert(property_members(next) =~= property_members(declared.take(i as int)).push(
                    (name@, mapping@),
                ));
                assert forall|j: int| 0 <= j < next.len() implies property_member(
                    #[trigger] next[j],
                ).is_some() by {
                    if j < i {
                        assert(declared.take(i as int)[j] == next[j]);
                    }
                }
            }
            i += 1;
        }
        assert(declared.take(i as int) =~= declared);
        let properties = properties.end();
        let body = ObjectWriter::new().member(PROPERTIES_KEY.as_bytes(), properties.as_slice());
        assert(body@ =~= seq![
            (PROPERTIES_KEY.spec_bytes(), object_text(property_members(declared))),
        ]);
        Ok(body.end())
    }
}

/// A type of documents: it has a name, under which the backend files its
/// documents unless the request says otherwise, and declares its fields.
///
/// Both are fixed by the type; no document is looked at. The trait promises
/// nothing of either method: what is proved of a document type holds of
/// whatever the type hands out.
pub trait DocumentType {
    /// The name of the type.
    fn name() -> &'static str;

    /// The fields of the type with their mappings, in the order of declaration.
    fn mapping() -> DocumentMapping;
}

/// A JSON value of any shape, as far as this library reads it: a type.
#[verifier::external_type_specification]
#[verifier::external_body]
pub struct ExJsonValue(serde_json::Value);

/// The name of the document type of free-form JSON values.
pub const VALUE_NAME: &'static str = "value";

/// Free-form JSON values are documents of the type `value`, which declares no
/// field.
impl DocumentType for serde_json::Value {
    fn name() -> (name: &'static str)
        ensures
            name@ == VALUE_NAME@,
    {
        VALUE_NAME
    }

    fn mapping() -> (mapping: DocumentMapping)
        ensures
            mapping@ == Seq::<Property>::empty(),
    {
        DocumentMapping::new()
    }
}

} // verus!
