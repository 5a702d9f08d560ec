//! The decoded wire messages exchanged with the editor.
use vstd::prelude::*;

verus! {

/// A JSON payload; the library carries it through without looking inside.
#[verifier::external_type_specification]
#[verifier::external_body]
pub struct ExValue(serde_json::Value);

/// The correlator of a request and its response, in either direction.
#[derive(Debug)]
pub enum RequestId {
    Int(i32),
    Str(String),
}

impl RequestId {
    /// A second, equal id.
    pub fn duplicate(&self) -> (r: Self)
        ensures
            r == *self,
    {
        match self {
            RequestId::Int(i) => RequestId::Int(*i),
            RequestId::Str(s) => RequestId::Str(s.clone()),
        }
    }
}

/// The error part of a response: a protocol error code and a message.
#[derive(Debug)]
pub struct ResponseError {
    pub code: i32,
    pub message: String,
}

/// An inbound or outbound request.
#[derive(Debug)]
pub struct Request {
    pub id: RequestId,
    pub method: String,
    pub params: serde_json::Value,
}

/// An inbound or outbound notification.
#[derive(Debug)]
pub struct Notification {
    pub method: String,
    pub params: serde_json::Value,
}

/// A response: a result, an error, or (from a misbehaving peer) neither.
#[derive(Debug)]
pub struct Response {
    pub id: RequestId,
    pub result: Option<serde_json::Value>,
    pub error: Option<ResponseError>,
}

/// Any message on the channel.
#[derive(Debug)]
pub enum Message {
    Request(Request),
    Response(Response),
    Notification(Notification),
}

} // verus!
