use elastic::document::{DocumentMapping, DocumentType, IndexDocumentMapping};
use elastic::json::{append_bytes, ObjectWriter};
use elastic::mapping::FieldMapping;
use serde_json::Value;

fn keyword() -> FieldMapping {
    FieldMapping::new("keyword")
}

#[test]
fn new_mapping_declares_nothing() {
    let fields = DocumentMapping::new();
    assert_eq!(0, fields.len());
    assert!(fields.get("title").is_none());
}

#[test]
fn insert_appends_a_new_name() {
    let mut fields = DocumentMapping::new();
    fields.insert("b", FieldMapping::new("text"));
    fields.insert("a", keyword());

    assert_eq!(2, fields.len());
    assert_eq!("text", fields.get("b").unwrap().data_type);
    assert_eq!("keyword", fields.get("a").unwrap().data_type);
    assert_eq!(
        br#"{"properties":{"b":{"type":"text"},"a":{"type":"keyword"}}}"#.to_vec(),
        IndexDocumentMapping::from(fields).to_vec().unwrap()
    );
}

#[test]
fn insert_of_a_declared_name_keeps_its_place() {
    let mut fields = DocumentMapping::new();
    fields.insert("b", FieldMapping::new("text"));
    fields.insert("a", FieldMapping::new("text"));
    fields.insert("b", keyword());

    assert_eq!(2, fields.len());
    assert_eq!(
        br#"{"properties":{"b":{"type":"keyword"},"a":{"type":"text"}}}"#.to_vec(),
        IndexDocumentMapping::from(fields).to_vec().unwrap()
    );
}

#[test]
fn no_fields_give_an_empty_properties_object() {
    let body = IndexDocumentMapping::from(DocumentMapping::new())
        .to_vec()
        .unwrap();
    assert_eq!(br#"{"properties":{}}"#.to_vec(), body);
}

#[test]
fn json_values_are_documents_without_fields() {
    assert_eq!("value", <Value as DocumentType>::name());
    assert_eq!(0, <Value as DocumentType>::mapping().len());
}

#[test]
fn mapping_without_options_has_the_type_alone() {
    let json = FieldMapping::new("text").to_json().unwrap();
    assert_eq!(br#"{"type":"text"}"#.to_vec(), json);
}

#[test]
fn mapping_writes_the_options_that_are_present() {
    let mapping = FieldMapping {
        data_type: String::from("text"),
        analyzer: Some(String::from("english")),
        search_analyzer: Some(String::from("standard")),
    };
    assert_eq!(
        br#"{"type":"text","analyzer":"english","search_analyzer":"standard"}"#.to_vec(),
        mapping.to_json().unwrap()
    );

    let mapping = FieldMapping {
        data_type: String::from("text"),
        analyzer: None,
        search_analyzer: Some(String::from("standard")),
    };
    assert_eq!(
        br#"{"type":"text","search_analyzer":"standard"}"#.to_vec(),
        mapping.to_json().unwrap()
    );
}

#[test]
fn option_values_are_encoded_as_json_strings() {
    let mapping = FieldMapping {
        data_type: String::from("text"),
        analyzer: Some(String::from("a\\b\u{e9}")),
        search_analyzer: None,
    };
    let mut expected = br#"{"type":"text","analyzer":"a\\b"#.to_vec();
    expected.extend_from_slice("\u{e9}".as_bytes());
    expected.extend_from_slice(br#""}"#);
    assert_eq!(expected, mapping.to_json().unwrap());
}

#[test]
fn object_writer_separates_members_with_commas() {
    assert_eq!(b"{}".to_vec(), ObjectWriter::new().end());
    assert_eq!(
        br#"{"a":1}"#.to_vec(),
        ObjectWriter::new().member(br#""a""#, b"1").end()
    );
    assert_eq!(
        br#"{"a":1,"b":[2],"c":{}}"#.to_vec(),
        ObjectWriter::new()
            .member(br#""a""#, b"1")
            .member(br#""b""#, b"[2]")
            .member(br#""c""#, b"{}")
            .end()
    );
}

#[test]
fn append_bytes_adds_at_the_end() {
    let mut out = vec![1u8, 2];
    append_bytes(&mut out, &[3, 4, 5]);
    assert_eq!(vec![1u8, 2, 3, 4, 5], out);
    append_bytes(&mut out, &[]);
    assert_eq!(vec![1u8, 2, 3, 4, 5], out);
}
