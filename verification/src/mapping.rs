//! Field mappings: what a field reports of itself to the backend.

use crate::error::RequestError;
use crate::json::{
    encode_str, json_string, object_text, Member, ObjectWriter, CLOSE, COLON, OPEN,
};
use vstd::prelude::*;
use vstd::string::StringSliceAdditionalSpecFns;

verus! {

/// The wire type name of text fields.
pub const TEXT_DATATYPE: &'static str = "text";

/// The key under which a mapping gives its wire type name, as JSON text.
pub const TYPE_KEY: &'static str = "\"type\"";

/// The key of the analyzer option, as JSON text.
pub const ANALYZER_KEY: &'static str = "\"analyzer\"";

/// The key of the search analyzer option, as JSON text.
pub const SEARCH_ANALYZER_KEY: &'static str = "\"search_analyzer\"";

/// The mapping of one field: its wire type name and its options. An option that
/// is `None` is left to the backend's default.
#[derive(Debug)]
pub struct FieldMapping {
    pub data_type: String,
    pub analyzer: Option<String>,
    pub search_analyzer: Option<String>,
}

/// A field mapping as a mathematical value.
pub struct FieldMappingView {
    pub data_type: Seq<char>,
    pub analyzer: Option<Seq<char>>,
    pub search_analyzer: Option<Seq<char>>,
}

impl View for FieldMapping {
    type V = FieldMappingView;

    open spec fn view(&self) -> FieldMappingView {
        FieldMappingView {
            data_type: self.data_type@,
            analyzer: self.analyzer.deep_view(),
            search_analyzer: self.search_analyzer.deep_view(),
        }
    }
}

/// What an option adds to a mapping object: nothing where it is absent, else
/// one member under `key`. `None` where the value cannot be encoded.
pub open spec fn option_members(key: Seq<u8>, value: Option<Seq<char>>) -> Option<Seq<Member>> {
    match value {
        None => Some(Seq::empty()),
        Some(v) => match json_string(v) {
            Some(text) => Some(seq![(key, text)]),
            None => None,
        },
    }
}

/// The members of a mapping object: the type name first, then the options that
/// are present. `None` where a string cannot be encoded.
pub open spec fn mapping_members(m: FieldMappingView) -> Option<Seq<Member>> {
    match (
        json_string(m.data_type),
        option_members(ANALYZER_KEY.spec_bytes(), m.analyzer),
        option_members(SEARCH_ANALYZER_KEY.spec_bytes(), m.search_analyzer),
    ) {
        (Some(t), Some(a), Some(s)) => Some(seq![(TYPE_KEY.spec_bytes(), t)] + a + s),
        _ => None,
    }
}

/// The JSON text of a mapping object.
pub open spec fn mapping_json(m: FieldMappingView) -> Option<Seq<u8>> {
    match mapping_members(m) {
        Some(ms) => Some(object_text(ms)),
        None => None,
    }
}

/// Writes the member of one option, where the option is present.
fn write_option(w: ObjectWriter, key: &'static str, value: &Option<String>) -> (r: Result<
    ObjectWriter,
    RequestError,
>)
    ensures
        match option_members(key.spec_bytes(), value.deep_view()) {
            Some(ms) => r matches Ok(after) && after@ == w@ + ms,
            None => r matches Err(RequestError::Encoding(_)),
        },
{
    match value {
        None => {
            assert(w@ + Seq::<Member>::empty() == w@);
            Ok(w)
        },
        Some(v) => match encode_str(v.as_str()) {
            Ok(text) => {
                let ghost before = w@;
                let after = w.member(key.as_bytes(), text.as_slice());
                assert(after@ == before + seq![(key.spec_bytes(), text@)]);
                Ok(after)
            },
            Err(e) => Err(RequestError::Encoding(e)),
        },
    }
}

impl FieldMapping {
    /// A mapping with the given wire type name and no options.
    pub fn new(data_type: &str) -> (m: FieldMapping)
        ensures
            m@ == (FieldMappingView { data_type: data_type@, analyzer: None, search_analyzer: None }),
    {
        FieldMapping { data_type: data_type.to_owned(), analyzer: None, search_analyzer: None }
    }

    /// The mapping as a JSON object: `"type"` first, then one key for each option
    /// that is present. Fails exactly where the encoder rejects one of the strings.
    pub fn to_json(&self) -> (r: Result<Vec<u8>, RequestError>)
        ensures
            match mapping_json(self@) {
                Some(text) => r matches Ok(bytes) && bytes@ == text,
                None => r matches Err(RequestError::Encoding(_)),
            },
    {
        let w = ObjectWriter::new();
        let w = match encode_str(self.data_type.as_str()) {
            Ok(text) => w.member(TYPE_KEY.as_bytes(), text.as_slice()),
            Err(e) => {
                return Err(RequestError::Encoding(e));
            },
        };
        let w = match write_option(w, ANALYZER_KEY, &self.analyzer) {
            Ok(w) => w,
            Err(e) => {
                return Err(e);
            },
        };
        let w = match write_option(w, SEARCH_ANALYZER_KEY, &self.search_analyzer) {
            Ok(w) => w,
            Err(e) => {
                return Err(e);
            },
        };
        Ok(w.end())
    }
}

/// A mapping that sets no option is an object with the one key `type`: of the
/// options nothing is written.
pub proof fn mapping_without_options_is_type_only(m: FieldMappingView)
    requires
        m.analyzer.is_none(),
        m.search_analyzer.is_none(),
    ensures
        mapping_json(m) == match json_string(m.data_type) {
            Some(name) => Some(
                seq![OPEN] + TYPE_KEY.spec_bytes() + seq![COLON] + name + seq![CLOSE],
            ),
            None => None,
        },
{
    match json_string(m.data_type) {
        Some(name) => {
            let members = seq![(TYPE_KEY.spec_bytes(), name)];
            assert(mapping_members(m).unwrap() =~= members);
            assert(object_text(members) =~= seq![OPEN] + TYPE_KEY.spec_bytes() + seq![COLON] + name
                + seq![CLOSE]);
        },
        None => {},
    }
}

} // verus!
