use vstd::prelude::*;

verus! {

/// An outbound response as this adapter shapes it: a status code, the value
/// of the `Content-Type` header, and a UTF-8 text body.
#[derive(Debug)]
pub struct XmlResponse {
    pub status: u16,
    pub content_type: String,
    pub body: String,
}

/// The encode path's final step. `encoded` is what the external XML encoder
/// made of the handler's value: the serialized document, or its error
/// message. On success the response carries the document under
/// `application/xml` with status 200; on failure it degrades to status 500
/// with the raw encoder message as a plain-text body. This step never
/// fails: every encoder outcome has exactly one response.
pub fn encode_response(encoded: Result<String, String>) -> (r: XmlResponse)
    ensures
        encoded matches Ok(body) ==> {
            &&& r.status == 200
            &&& r.content_type@ == "application/xml"@
            &&& r.body@ == body@
        },
        encoded matches Err(message) ==> {
            &&& r.status == 500
            &&& r.content_type@ == "text/plain; charset=utf-8"@
            &&& r.body@ == message@
        },
{
    match encoded {
        Ok(body) => XmlResponse {
            status: 200,
            content_type: "application/xml".to_owned(),
            body,
        },
        Err(message) => XmlResponse {
            status: 500,
            content_type: "text/plain; charset=utf-8".to_owned(),
            body: message,
        },
    }
}

} // verus!
