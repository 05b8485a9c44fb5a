//! An XML request/response adapter: it decides from request metadata whether
//! a body is XML, classifies every decode failure as a rejection with a fixed
//! status code, and shapes a typed value into an XML response, falling back
//! to a plain-text error response if encoding fails.
//!
//! The HTTP runtime, the body buffering and the XML codec itself are external
//! collaborators: the decode path here is driven step by step, each step
//! taking the collaborator's outcome as a plain value.

use vstd::prelude::*;

mod gate;
mod headers;
mod rejection;
mod response;
mod text;

pub use gate::{lemma_gate_needs_content_type, spec_is_xml, xml_content_type};
pub use headers::{lookup, Header, HeaderView, Headers};
pub use rejection::{BodyError, XmlRejection};
pub use response::{encode_response, XmlResponse};
pub use text::{eq_ci, visible_ascii};

verus! {

/// A transparent envelope around one value of type `T`.
///
/// The decode path produces an `Xml<T>` from a request body; a handler
/// returns one, and the encode path turns it back into a response.
#[derive(Debug, Clone, Copy, Default)]
pub struct Xml<T>(pub T);

impl<T> Xml<T> {
    /// Wrap a bare value.
    pub fn new(value: T) -> (r: Self)
        ensures
            r.0 == value,
    {
        Xml(value)
    }

    /// Read the inner value.
    pub fn get(&self) -> (r: &T)
        ensures
            *r == self.0,
    {
        &self.0
    }

    /// Replace the inner value.
    pub fn set(&mut self, value: T)
        ensures
            final(self).0 == value,
    {
        self.0 = value;
    }

    /// Unwrap the inner value.
    pub fn into_inner(self) -> (r: T)
        ensures
            r == self.0,
    {
        self.0
    }
}

impl<T> From<T> for Xml<T> {
    /// Wrap a bare value.
    fn from(inner: T) -> (r: Self) {
        Xml(inner)
    }
}

impl<T> vstd::std_specs::convert::FromSpecImpl<T> for Xml<T> {
    open spec fn obeys_from_spec() -> bool {
        true
    }

    open spec fn from_spec(inner: T) -> Self {
        Xml(inner)
    }
}

/// The decode path's answer to its first step, the content-type gate: either
/// the body is worth buffering, or the request is already rejected.
pub enum DecodeStep {
    /// Accepted by the content-type gate: buffer the body, then hand its
    /// outcome to [`body_collected`].
    NeedBody,
    /// Turned away by the content-type gate: the rejection to respond with.
    /// The body is not to be buffered.
    Rejected(XmlRejection),
}

/// The decode path's first step. It asks for the body if and only if the
/// content-type gate accepts the headers, so a driver that buffers only on
/// [`DecodeStep::NeedBody`] never buffers a body it would reject.
pub fn from_request(headers: &Headers) -> (s: DecodeStep)
    ensures
        s is NeedBody <==> spec_is_xml(headers@),
        !spec_is_xml(headers@) ==> s matches DecodeStep::Rejected(
            XmlRejection::MissingXMLContentType,
        ),
{
    if xml_content_type(headers) {
        DecodeStep::NeedBody
    } else {
        DecodeStep::Rejected(XmlRejection::MissingXMLContentType)
    }
}

/// The decode path's second step: classify the outcome of body buffering.
/// A collected body goes through unchanged; a collector failure becomes a
/// [`XmlRejection::BytesRejection`] carrying the collector's own status code
/// and message.
pub fn body_collected(collected: Result<Vec<u8>, BodyError>) -> (r: Result<Vec<u8>, XmlRejection>)
    ensures
        collected matches Ok(body) ==> r matches Ok(b) && b@ == body@,
        collected matches Err(e) ==> r matches Err(rej) && rej matches XmlRejection::BytesRejection {
            status,
            message,
        } && status == e.status && message@ == e.message@,
{
    match collected {
        Ok(body) => Ok(body),
        Err(e) => Err(
            XmlRejection::BytesRejection { status: e.status, message: e.message },
        ),
    }
}

/// The decode path's last step: classify the outcome of the external XML
/// decoder. A decoded value is wrapped in an envelope unchanged; any decoder
/// failure — malformed XML or a document that does not fit the target type —
/// becomes a [`XmlRejection::XmlDeError`] carrying the decoder's message.
pub fn decoded<T>(outcome: Result<T, String>) -> (r: Result<Xml<T>, XmlRejection>)
    ensures
        outcome matches Ok(value) ==> r matches Ok(x) && x.0 == value,
        outcome matches Err(m) ==> r matches Err(rej) && rej matches XmlRejection::XmlDeError {
            message,
        } && message@ == m@,
{
    match outcome {
        Ok(value) => Ok(Xml(value)),
        Err(message) => Err(XmlRejection::XmlDeError { message }),
    }
}

} // verus!
