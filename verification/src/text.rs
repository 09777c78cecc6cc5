//! Text fields: a string together with the mapping variant it is indexed under.

use crate::json::{json_string, CLOSE, COLON, OPEN};
use crate::mapping::{
    mapping_json, mapping_without_options_is_type_only, FieldMapping, FieldMappingView,
    TEXT_DATATYPE, TYPE_KEY,
};
use std::marker::PhantomData;
use vstd::prelude::*;
use vstd::string::StringSliceAdditionalSpecFns;

verus! {

/// A mapping variant for text fields. A variant is a type: it carries no data
/// and says, for every field bound to it, which mapping the field has.
///
/// The trait promises nothing of `mapping`: what is proved of a variant's
/// fields holds of whatever the variant hands out. A variant that states more,
/// as `DefaultTextMapping` does, is held to it.
pub trait TextMapping {
    /// The mapping that the variant declares.
    fn mapping() -> FieldMapping;
}

/// The mapping of the variant that sets no option: the wire type name alone.
pub open spec fn default_text_mapping() -> FieldMappingView {
    FieldMappingView { data_type: TEXT_DATATYPE@, analyzer: None, search_analyzer: None }
}

/// The variant of a text field that sets no option.
#[derive(Debug, Clone, Copy, Default)]
pub struct DefaultTextMapping;

impl TextMapping for DefaultTextMapping {
    fn mapping() -> (m: FieldMapping)
        ensures
            m@ == default_text_mapping(),
    {
        FieldMapping::new(TEXT_DATATYPE)
    }
}

/// A text field: its content, bound to the mapping variant `M`.
///
/// Content and variant are independent: `set` changes the content and keeps the
/// variant, `remap` changes the variant and keeps the content.
#[derive(Debug)]
pub struct Text<M: TextMapping = DefaultTextMapping> {
    value: String,
    _m: PhantomData<M>,
}

impl<M: TextMapping> View for Text<M> {
    type V = Seq<char>;

    /// The content of the field.
    closed spec fn view(&self) -> Seq<char> {
        self.value@
    }
}

impl<M: TextMapping> Text<M> {
    /// Whether `m` is a mapping that the field may report: one that its variant
    /// hands out. The content of the field has no part in it.
    pub open spec fn reports(&self, m: FieldMapping) -> bool {
        call_ensures(M::mapping, (), m)
    }

    /// The same content under the variant `MInto`.
    pub closed spec fn remapped<MInto: TextMapping>(self) -> Text<MInto> {
        Text { value: self.value, _m: PhantomData }
    }

    /// A field with the given content. Any content is accepted.
    pub fn new(string: &str) -> (t: Text<M>)
        ensures
            t@ == string@,
    {
        Text { value: string.to_owned(), _m: PhantomData }
    }

    /// The content of the field.
    pub fn get(&self) -> (s: &str)
        ensures
            s@ == self@,
    {
        self.value.as_str()
    }

    /// Replaces the content of the field. Its mapping stays as it was.
    pub fn set(&mut self, string: &str)
        ensures
            final(self)@ == string@,
            forall|m: FieldMapping| final(self).reports(m) == old(self).reports(m),
    {
        self.value = string.to_owned();
    }

    /// Binds the content to another variant.
    pub fn remap<MInto: TextMapping>(self) -> (t: Text<MInto>)
        ensures
            t == self.remapped::<MInto>(),
            t@ == self@,
    {
        Text { value: self.value, _m: PhantomData }
    }

    /// The mapping of the field, as its variant declares it.
    pub fn mapping(&self) -> (m: FieldMapping)
        ensures
            self.reports(m),
    {
        M::mapping()
    }
}

impl<M: TextMapping> Default for Text<M> {
    /// The field with no content.
    fn default() -> (t: Text<M>)
        ensures
            t@ == Seq::<char>::empty(),
    {
        Text { value: String::new(), _m: PhantomData }
    }
}

impl<M: TextMapping> Clone for Text<M> {
    /// A field with the same content under the same variant.
    fn clone(&self) -> (t: Text<M>)
        ensures
            t@ == self@,
    {
        Text { value: self.value.clone(), _m: PhantomData }
    }
}

impl<M: TextMapping> PartialEq for Text<M> {
    /// Fields are equal where their contents are.
    fn eq(&self, other: &Text<M>) -> (r: bool) {
        self.value == other.value
    }
}

impl<M: TextMapping> vstd::std_specs::cmp::PartialEqSpecImpl for Text<M> {
    open spec fn obeys_eq_spec() -> bool {
        true
    }

    open spec fn eq_spec(&self, other: &Text<M>) -> bool {
        self@ == other@
    }
}

/// Changing the variant of a field and changing it back gives the content that
/// the field had.
pub proof fn remap_round_trip<M1: TextMapping, M2: TextMapping>(f: Text<M1>)
    ensures
        f.remapped::<M2>().remapped::<M1>()@ == f@,
        f.remapped::<M2>()@ == f@,
{
}

/// A field of the default variant serialises as an object with the one key
/// `type`, whose value is the wire type name of text fields.
pub proof fn default_variant_is_type_only()
    ensures
        mapping_json(default_text_mapping()) == match json_string(TEXT_DATATYPE@) {
            Some(name) => Some(
                seq![OPEN] + TYPE_KEY.spec_bytes() + seq![COLON] + name + seq![CLOSE],
            ),
            None => None,
        },
{
    mapping_without_options_is_type_only(default_text_mapping());
}

} // verus!
