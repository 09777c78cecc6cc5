//! The client and the requests that it builds.

use crate::document::{schema_body, DocumentMapping, DocumentType, IndexDocumentMapping, Property};
use crate::error::RequestError;
use std::marker::PhantomData;
use vstd::prelude::*;
use vstd::string::StringExecFns;

verus! {

/// The name of an index.
#[derive(Debug)]
pub struct Index {
    name: String,
}

impl View for Index {
    type V = Seq<char>;

    closed spec fn view(&self) -> Seq<char> {
        self.name@
    }
}

impl Index {
    /// The name as a string slice.
    pub fn as_str(&self) -> (s: &str)
        ensures
            s@ == self@,
    {
        self.name.as_str()
    }
}

/// The index with the given name.
pub fn index(name: &str) -> (i: Index)
    ensures
        i@ == name@,
{
    Index { name: name.to_owned() }
}

/// The name under which the backend files the documents of a type.
#[derive(Debug)]
pub struct Type {
    name: String,
}

impl View for Type {
    type V = Seq<char>;

    closed spec fn view(&self) -> Seq<char> {
        self.name@
    }
}

impl Type {
    /// The name as a string slice.
    pub fn as_str(&self) -> (s: &str)
        ensures
            s@ == self@,
    {
        self.name.as_str()
    }
}

/// The type with the given name.
pub fn ty(name: &str) -> (t: Type)
    ensures
        t@ == name@,
{
    Type { name: name.to_owned() }
}

/// What a client knows of its connection: where the backend is.
#[derive(Debug)]
pub struct RequestParams {
    base_url: String,
}

impl RequestParams {
    /// The address of the backend.
    pub closed spec fn spec_base_url(&self) -> Seq<char> {
        self.base_url@
    }

    /// Parameters for the backend at `base_url`.
    pub fn new(base_url: &str) -> (p: RequestParams)
        ensures
            p.spec_base_url() == base_url@,
    {
        RequestParams { base_url: base_url.to_owned() }
    }

    /// The address of the backend.
    pub fn base_url(&self) -> (s: &str)
        ensures
            s@ == self.spec_base_url(),
    {
        self.base_url.as_str()
    }
}

/// A client: the connection parameters that its requests share. Requests read
/// them and never change them.
#[derive(Debug)]
pub struct Client {
    params: RequestParams,
}

/// A request under construction, bound to the client that made it. It is
/// changed by its setters and used up by `send`.
pub struct RequestBuilder<'a, TRequest> {
    pub client: &'a Client,
    pub req: TRequest,
}

/// The parts of a request that installs the mapping of the document type
/// `TDocument`: the index and the type name. The fields are not computed
/// before the request is finished.
pub struct PutMappingRequestBuilder<TDocument> {
    index: Index,
    ty: Type,
    _marker: PhantomData<TDocument>,
}

/// A finished request to install a mapping: where it goes and what it carries.
#[derive(Debug)]
pub struct IndicesPutMappingRequest {
    pub url: String,
    pub body: Vec<u8>,
}

/// A finished request, ready for the transport.
pub struct RawRequestBuilder {
    pub req: IndicesPutMappingRequest,
}

/// The path of the request that installs a mapping: `/{index}/_mappings/{type}`.
pub open spec fn put_mapping_path(index: Seq<char>, ty: Seq<char>) -> Seq<char> {
    "/"@ + index + "/_mappings/"@ + ty
}

/// Whether `r` is what finishing a request for `index`, `ty` and `fields` gives:
/// the request with the path of `index` and `ty` and the schema body of
/// `fields`, or, exactly where the fields cannot be encoded, the encoder's
/// error.
pub open spec fn is_request_for(
    r: Result<IndicesPutMappingRequest, RequestError>,
    index: Seq<char>,
    ty: Seq<char>,
    fields: Seq<Property>,
) -> bool {
    match schema_body(fields) {
        Some(body) => r matches Ok(req) && req.url@ == put_mapping_path(index, ty) && req.body@
            == body,
        None => r matches Err(RequestError::Encoding(_)),
    }
}

impl IndicesPutMappingRequest {
    /// The request for the given index and type that carries `body`.
    pub fn for_index_ty(index: Index, ty: Type, body: Vec<u8>) -> (req: IndicesPutMappingRequest)
        ensures
            req.url@ == put_mapping_path(index@, ty@),
            req.body == body,
    {
        let mut url = String::from_str("/");
        url.append(index.as_str());
        url.append("/_mappings/");
        url.append(ty.as_str());
        IndicesPutMappingRequest { url, body }
    }
}

impl<TDocument: DocumentType> PutMappingRequestBuilder<TDocument> {
    /// The index that the request is for.
    pub closed spec fn index(&self) -> Seq<char> {
        self.index@
    }

    /// The type name that the request is for.
    pub closed spec fn ty(&self) -> Seq<char> {
        self.ty@
    }

    /// Finishes the request with the given fields.
    pub fn request_with(self, mapping: DocumentMapping) -> (r: Result<
        IndicesPutMappingRequest,
        RequestError,
    >)
        ensures
            is_request_for(r, self.index(), self.ty(), mapping@),
    {
        let body = match IndexDocumentMapping::from(mapping).to_vec() {
            Ok(body) => body,
            Err(e) => {
                return Err(e);
            },
        };
        Ok(IndicesPutMappingRequest::for_index_ty(self.index, self.ty, body))
    }

    /// Finishes the request: asks `TDocument` for its fields, which happens
    /// here and not before, and puts their schema body under the path of the
    /// index and the type name.
    pub fn into_request(self) -> (r: Result<IndicesPutMappingRequest, RequestError>)
        ensures
            exists|mapping: DocumentMapping| #[trigger]
                call_ensures(TDocument::mapping, (), mapping) && is_request_for(
                    r,
                    self.index(),
                    self.ty(),
                    mapping@,
                ),
    {
        let mapping = TDocument::mapping();
        let ghost fields = mapping;
        let r = self.request_with(mapping);
        assert(call_ensures(TDocument::mapping, (), fields) && is_request_for(
            r,
            self.index(),
            self.ty(),
            fields@,
        ));
        r
    }
}

impl Client {
    /// The connection parameters.
    pub closed spec fn spec_params(&self) -> RequestParams {
        self.params
    }

    /// A client with the given connection parameters.
    pub fn new(params: RequestParams) -> (c: Client)
        ensures
            c.spec_params() == params,
    {
        Client { params }
    }

    /// The connection parameters.
    pub fn params(&self) -> (p: &RequestParams)
        ensures
            *p == self.spec_params(),
    {
        &self.params
    }

    /// Starts a request that installs the mapping of `TDocument` in `index`.
    /// The type name is the one that `TDocument` declares; the fields are not
    /// asked for yet.
    pub fn put_mapping<'a, TDocument: DocumentType>(&'a self, index: Index) -> (b: RequestBuilder<
        'a,
        PutMappingRequestBuilder<TDocument>,
    >)
        ensures
            *b.client == *self,
            b.req.index() == index@,
            exists|name: &'static str| #[trigger]
                call_ensures(TDocument::name, (), name) && b.req.ty() == name@,
    {
        let name = TDocument::name();
        let ty = ty(name);
        assert(call_ensures(TDocument::name, (), name) && ty@ == name@);
        RequestBuilder { client: self, req: PutMappingRequestBuilder { index, ty, _marker: PhantomData } }
    }
}

impl<'a, TDocument: DocumentType> RequestBuilder<'a, PutMappingRequestBuilder<TDocument>> {
    /// Sets the type name of the request. Of several calls the last one counts.
    /// The client and the index stay as they were.
    pub fn ty(self, ty: &str) -> (b: Self)
        ensures
            b.req.ty() == ty@,
            b.req.index() == self.req.index(),
            b.client == self.client,
    {
        let RequestBuilder { client, req } = self;
        let PutMappingRequestBuilder { index, ty: _, _marker } = req;
        RequestBuilder { client, req: PutMappingRequestBuilder { index, ty: self::ty(ty), _marker } }
    }

    /// Finishes the request and uses the builder up. Where the fields of
    /// `TDocument` can be encoded, the result is the raw request for the
    /// transport, bound to the same client; where they cannot, it is the
    /// encoder's error, and there is nothing to hand to the transport.
    pub fn send(self) -> (r: Result<RequestBuilder<'a, RawRequestBuilder>, RequestError>)
        ensures
            r matches Ok(raw) ==> raw.client == self.client,
            exists|mapping: DocumentMapping| #[trigger]
                call_ensures(TDocument::mapping, (), mapping) && is_request_for(
                    match r {
                        Ok(raw) => Ok(raw.req.req),
                        Err(e) => Err(e),
                    },
                    self.req.index(),
                    self.req.ty(),
                    mapping@,
                ),
    {
        let client = self.client;
        match self.req.into_request() {
            Ok(req) => Ok(RequestBuilder { client, req: RawRequestBuilder { req } }),
            Err(e) => Err(e),
        }
    }
}

/// Finishing a request is a function of what went in: two results for the same
/// index, type name and fields are the same request, byte for byte, or both the
/// encoder's error.
pub proof fn requests_are_determined(
    a: Result<IndicesPutMappingRequest, RequestError>,
    b: Result<IndicesPutMappingRequest, RequestError>,
    index: Seq<char>,
    ty: Seq<char>,
    fields: Seq<Property>,
)
    requires
        is_request_for(a, index, ty, fields),
        is_request_for(b, index, ty, fields),
    ensures
        match (a, b) {
            (Ok(x), Ok(y)) => x.url@ == y.url@ && x.body@ == y.body@,
            (Err(x), Err(y)) => x is Encoding && y is Encoding,
            _ => false,
        },
{
}

/// Another type name changes the last segment of the path and nothing else:
/// the requests before and after `ty` succeed together, with the same body and
/// the same index in the path.
pub proof fn ty_changes_only_the_type_segment(
    before: Result<IndicesPutMappingRequest, RequestError>,
    after: Result<IndicesPutMappingRequest, RequestError>,
    index: Seq<char>,
    old_ty: Seq<char>,
    new_ty: Seq<char>,
    fields: Seq<Property>,
)
    requires
        is_request_for(before, index, old_ty, fields),
        is_request_for(after, index, new_ty, fields),
    ensures
        match (before, after) {
            (Ok(x), Ok(y)) => {
                &&& y.body@ == x.body@
                &&& x.url@ == "/"@ + index + "/_mappings/"@ + old_ty
                &&& y.url@ == "/"@ + index + "/_mappings/"@ + new_ty
            },
            (Err(x), Err(y)) => x is Encoding && y is Encoding,
            _ => false,
        },
{
}

} // verus!
