use vstd::prelude::*;
use vstd::string::StringExecFns;
use crate::response::XmlResponse;

verus! {

/// The failure reported by the external body-collection capability: the
/// status code it chose and its own message.
#[derive(Debug)]
pub struct BodyError {
    pub status: u16,
    pub message: String,
}

/// Every way the decode path can fail to produce an envelope. Each variant
/// is terminal: it is converted to a response and never retried.
#[derive(Debug)]
pub enum XmlRejection {
    /// The content-type gate answered `false`.
    MissingXMLContentType,
    /// Buffering the request body failed; carries the collector's own
    /// status code and message.
    BytesRejection { status: u16, message: String },
    /// The body could not be decoded into the target type; carries the
    /// decoder's message.
    XmlDeError { message: String },
}

impl XmlRejection {
    /// The status code of the response this rejection is converted to.
    pub open spec fn spec_status(&self) -> u16 {
        match self {
            XmlRejection::MissingXMLContentType => 415,
            XmlRejection::BytesRejection { status, .. } => *status,
            XmlRejection::XmlDeError { .. } => 400,
        }
    }

    /// The plain-text body of the response this rejection is converted to.
    pub open spec fn spec_body(&self) -> Seq<char> {
        match self {
            XmlRejection::MissingXMLContentType => "Expected request with `Content-Type: application/xml`"@,
            XmlRejection::BytesRejection { message, .. } => message@,
            XmlRejection::XmlDeError { message } => "Failed to deserialize the XML body into the target type: "@
                + message@,
        }
    }

    /// The status code this rejection responds with.
    pub fn status(&self) -> (s: u16)
        ensures
            s == self.spec_status(),
    {
        match self {
            XmlRejection::MissingXMLContentType => 415,
            XmlRejection::BytesRejection { status, .. } => *status,
            XmlRejection::XmlDeError { .. } => 400,
        }
    }

    /// Convert the rejection into its response: its status code and its
    /// message as a plain-text body. Total: every variant has exactly one
    /// response.
    pub fn into_response(self) -> (r: XmlResponse)
        ensures
            r.status == self.spec_status(),
            r.content_type@ == "text/plain; charset=utf-8"@,
            r.body@ == self.spec_body(),
    {
        match self {
            XmlRejection::MissingXMLContentType => XmlResponse {
                status: 415,
                content_type: "text/plain; charset=utf-8".to_owned(),
                body: "Expected request with `Content-Type: application/xml`".to_owned(),
            },
            XmlRejection::BytesRejection { status, message } => XmlResponse {
                status,
                content_type: "text/plain; charset=utf-8".to_owned(),
                body: message,
            },
            XmlRejection::XmlDeError { message } => XmlResponse {
                status: 400,
                content_type: "text/plain; charset=utf-8".to_owned(),
                body: "Failed to deserialize the XML body into the target type: ".to_owned().concat(
                    message.as_str(),
                ),
            },
        }
    }
}

} // verus!
