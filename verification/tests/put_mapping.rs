use elastic::client::{index, ty, Client, IndicesPutMappingRequest, RequestParams};
use elastic::document::{DocumentMapping, DocumentType};
use elastic::error::RequestError;
use elastic::mapping::FieldMapping;
use elastic::response::{CommandResponse, Reply};
use elastic::text::{DefaultTextMapping, Text, TextMapping};
use serde_json::Value;

struct Article;

struct English;

impl TextMapping for English {
    fn mapping() -> FieldMapping {
        FieldMapping {
            data_type: String::from("text"),
            analyzer: Some(String::from("english")),
            search_analyzer: None,
        }
    }
}

impl DocumentType for Article {
    fn name() -> &'static str {
        "article"
    }

    fn mapping() -> DocumentMapping {
        let mut fields = DocumentMapping::new();
        fields.insert("title", Text::<English>::new("").mapping());
        fields.insert("body", DefaultTextMapping::mapping());
        fields.insert("author", DefaultTextMapping::mapping());
        fields
    }
}

#[test]
fn default_request() {
    let client = Client::new(RequestParams::new("http://eshost:9200"));

    let req = client
        .put_mapping::<Value>(index("test-idx"))
        .req
        .into_request()
        .unwrap();

    assert_eq!("/test-idx/_mappings/value", req.url.as_str());
    assert_eq!(r#"{"properties":{}}"#.as_bytes().to_vec(), req.body);
}

#[test]
fn specify_ty() {
    let client = Client::new(RequestParams::new("http://eshost:9200"));

    let req = client
        .put_mapping::<Value>(index("test-idx"))
        .ty("new-ty")
        .req
        .into_request()
        .unwrap();

    assert_eq!("/test-idx/_mappings/new-ty", req.url.as_str());
}

#[test]
fn ty_leaves_body_and_index_alone() {
    let client = Client::new(RequestParams::new("http://eshost:9200"));
    let before = client
        .put_mapping::<Article>(index("test-idx"))
        .req
        .into_request()
        .unwrap();
    let after = client
        .put_mapping::<Article>(index("test-idx"))
        .ty("new-ty")
        .req
        .into_request()
        .unwrap();

    assert_eq!("/test-idx/_mappings/article", before.url.as_str());
    assert_eq!("/test-idx/_mappings/new-ty", after.url.as_str());
    assert_eq!(before.body, after.body);
}

#[test]
fn last_ty_wins() {
    let client = Client::new(RequestParams::new("http://eshost:9200"));
    let req = client
        .put_mapping::<Value>(index("idx"))
        .ty("first")
        .ty("second")
        .req
        .into_request()
        .unwrap();

    assert_eq!("/idx/_mappings/second", req.url.as_str());
}

#[test]
fn fields_keep_the_order_of_declaration() {
    let client = Client::new(RequestParams::new("http://eshost:9200"));
    let req = client
        .put_mapping::<Article>(index("articles"))
        .req
        .into_request()
        .unwrap();

    let expected = concat_bytes(&[
        br#"{"properties":{"#,
        br#""title":{"type":"text","analyzer":"english"},"#,
        br#""body":{"type":"text"},"#,
        br#""author":{"type":"text"}"#,
        br#"}}"#,
    ]);
    assert_eq!(expected, req.body);
}

fn concat_bytes(parts: &[&[u8]]) -> Vec<u8> {
    let mut out = Vec::new();
    for part in parts {
        out.extend_from_slice(part);
    }
    out
}

#[test]
fn body_is_the_json_it_claims_to_be() {
    let client = Client::new(RequestParams::new("http://eshost:9200"));
    let req = client
        .put_mapping::<Article>(index("articles"))
        .req
        .into_request()
        .unwrap();

    let parsed: Value = serde_json::from_slice(&req.body).unwrap();
    let properties = parsed.get("properties").unwrap().as_object().unwrap();
    assert_eq!(3, properties.len());
    let title = properties.get("title").unwrap();
    assert_eq!(Some("text"), title.get("type").unwrap().as_str());
    assert_eq!(Some("english"), title.get("analyzer").unwrap().as_str());
    assert!(title.get("search_analyzer").is_none());
}

#[test]
fn identical_builders_give_identical_requests() {
    let client = Client::new(RequestParams::new("http://eshost:9200"));
    let a = client
        .put_mapping::<Article>(index("test-idx"))
        .ty("doc")
        .req
        .into_request()
        .unwrap();
    let b = client
        .put_mapping::<Article>(index("test-idx"))
        .ty("doc")
        .req
        .into_request()
        .unwrap();

    assert_eq!(a.url, b.url);
    assert_eq!(a.body, b.body);
}

#[test]
fn send_hands_out_the_raw_request_of_the_same_client() {
    let client = Client::new(RequestParams::new("http://eshost:9200"));
    let raw = client
        .put_mapping::<Value>(index("test-idx"))
        .send()
        .unwrap();

    assert_eq!("http://eshost:9200", raw.client.params().base_url());
    assert_eq!("/test-idx/_mappings/value", raw.req.req.url.as_str());
    assert_eq!(br#"{"properties":{}}"#.to_vec(), raw.req.req.body);
}

#[test]
fn path_is_not_escaped() {
    let req = IndicesPutMappingRequest::for_index_ty(index("a b"), ty("c/d"), vec![1, 2, 3]);

    assert_eq!("/a b/_mappings/c/d", req.url.as_str());
    assert_eq!(vec![1, 2, 3], req.body);
}

#[test]
fn names_are_encoded_as_json_strings() {
    let client = Client::new(RequestParams::new("http://eshost:9200"));
    let mut fields = DocumentMapping::new();
    fields.insert("say \"hi\"\n", FieldMapping::new("text"));
    let req = client
        .put_mapping::<Value>(index("i"))
        .req
        .request_with(fields)
        .unwrap();

    assert_eq!(
        br#"{"properties":{"say \"hi\"\n":{"type":"text"}}}"#.to_vec(),
        req.body
    );
}

#[test]
fn accepted_reply_is_success() {
    assert_eq!(Some(CommandResponse), Reply::Accepted.into_response().ok());
}

#[test]
fn declined_reply_keeps_the_message_of_the_backend() {
    let r = Reply::Declined(String::from("mapper_parsing_exception")).into_response();
    match r {
        Err(RequestError::Rejected(message)) => assert_eq!("mapper_parsing_exception", message),
        _ => panic!("expected a rejection"),
    }
}

#[test]
fn failed_reply_keeps_the_message_of_the_transport() {
    let r = Reply::Failed(String::from("connection refused")).into_response();
    match r {
        Err(RequestError::Transport(message)) => assert_eq!("connection refused", message),
        _ => panic!("expected a transport error"),
    }
}
