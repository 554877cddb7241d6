//! The response policy: a pure, total map from (method, path) to a response.
//!
//! Exactly one request shape is served: `GET` for the path `"/"` is answered
//! with status 200, the payload bound to the policy as body, its byte length
//! as content-length, and a plaintext content-type. Every other (method, path)
//! pair is answered with status 404 and an empty body, no headers owed.

use vstd::prelude::*;

verus! {

use vstd::utf8::encode_utf8;

/// A request method as the policy distinguishes it: `GET`, or anything else.
#[derive(Clone, Copy, PartialEq, Eq, Structural, Debug)]
pub enum Method {
    Get,
    Other,
}

/// The number of bytes of the UTF-8 encoding of `s`.
pub open spec fn utf8_len(s: Seq<char>) -> nat {
    encode_utf8(s).len()
}

impl Method {
    /// Classify a wire method name: exactly `"GET"` is `Get`.
    pub fn from_name(name: &str) -> (m: Method)
        ensures
            m == Method::Get <==> name@ == "GET"@,
            m == Method::Other <==> name@ != "GET"@,
    {
        let get_name: String = "GET".to_owned();
        let owned: String = name.to_owned();
        if owned == get_name {
            Method::Get
        } else {
            Method::Other
        }
    }
}

/// One parsed request: its method and its request path.
pub struct Request {
    pub method: Method,
    pub path: String,
}

/// One response: status code, the two headers the service may set, and a body.
pub struct Response {
    pub status: u16,
    pub content_length: Option<u64>,
    pub content_type_plaintext: bool,
    pub body: String,
}

/// The mathematical shape of a response, used by the contracts.
pub struct ResponseModel {
    pub status: int,
    pub content_length: Option<int>,
    pub content_type_plaintext: bool,
    pub body: Seq<char>,
}

impl Response {
    /// The model a concrete response denotes.
    pub open spec fn model(&self) -> ResponseModel {
        ResponseModel {
            status: self.status as int,
            content_length: match self.content_length {
                Some(n) => Some(n as int),
                None => None,
            },
            content_type_plaintext: self.content_type_plaintext,
            body: self.body@,
        }
    }
}

/// Does (method, path) name the one served resource?
pub open spec fn is_index_request(method: Method, path: Seq<char>) -> bool {
    method == Method::Get && path == "/"@
}

/// What the policy answers, for every (method, path) over a given payload.
pub open spec fn policy_model(payload: Seq<char>, method: Method, path: Seq<char>) -> ResponseModel {
    if is_index_request(method, path) {
        ResponseModel {
            status: 200,
            content_length: Some(utf8_len(payload) as int),
            content_type_plaintext: true,
            body: payload,
        }
    } else {
        ResponseModel {
            status: 404,
            content_length: None,
            content_type_plaintext: false,
            body: Seq::empty(),
        }
    }
}

/// A policy bound to the one payload it serves.
pub struct ResponsePolicy {
    pub payload: String,
}

impl ResponsePolicy {
    /// The payload's byte length must fit the machine, so that the
    /// content-length header can state it exactly.
    pub open spec fn wf(&self) -> bool {
        utf8_len(self.payload@) <= usize::MAX
    }

    /// Bind a policy to its payload.
    pub fn new(payload: String) -> (p: ResponsePolicy)
        ensures
            p.payload == payload,
    {
        ResponsePolicy { payload }
    }

    /// Answer one request. Total: every (method, path) pair gets a response,
    /// and the response is exactly what `policy_model` states.
    pub fn respond(&self, req: &Request) -> (r: Response)
        requires
            self.wf(),
        ensures
            r.model() == policy_model(self.payload@, req.method, req.path@),
    {
        let slash: String = "/".to_owned();
        if req.method == Method::Get && req.path == slash {
            let byte_len: usize = self.payload.as_str().len();
            Response {
                status: 200,
                content_length: Some(byte_len as u64),
                content_type_plaintext: true,
                body: self.payload.clone(),
            }
        } else {
            Response {
                status: 404,
                content_length: None,
                content_type_plaintext: false,
                body: String::new(),
            }
        }
    }
}

/// The reason phrase belonging to a status code the policy can produce.
pub fn reason_phrase(status: u16) -> (r: &'static str)
    ensures
        status == 200 ==> r@ == "OK"@,
        status != 200 ==> r@ == "Not Found"@,
{
    if status == 200 {
        "OK"
    } else {
        "Not Found"
    }
}

/// Law: every `GET` for `"/"` is served the payload: status 200, the payload
/// as body, its byte length as content-length, and a plaintext content-type.
pub proof fn lemma_index_request_served(payload: Seq<char>, method: Method, path: Seq<char>)
    requires
        method == Method::Get,
        path == "/"@,
    ensures
        policy_model(payload, method, path).status == 200,
        policy_model(payload, method, path).body == payload,
        policy_model(payload, method, path).content_length == Some(utf8_len(payload) as int),
        policy_model(payload, method, path).content_type_plaintext,
{
}

/// Law: every other (method, path) pair, whatever the method or the path, is
/// answered 404 with an empty body and neither header.
pub proof fn lemma_other_request_rejected(payload: Seq<char>, method: Method, path: Seq<char>)
    requires
        !(method == Method::Get && path == "/"@),
    ensures
        policy_model(payload, method, path).status == 404,
        policy_model(payload, method, path).body == Seq::<char>::empty(),
        policy_model(payload, method, path).content_length is None,
        !policy_model(payload, method, path).content_type_plaintext,
{
}

} // verus!
