use vstd::prelude::*;
use crate::headers::{Headers, HeaderView, lookup, lookup_from};
use crate::text::{eq_ci, str_eq_ci, visible_ascii, bytes_visible_ascii};

verus! {

/// Whether the `mime` crate parses this text (given here as its bytes)
/// as a MIME type.
pub uninterp spec fn mime_parses(v: Seq<u8>) -> bool;

/// The top-level type of the MIME type parsed from `v`.
pub uninterp spec fn mime_type_of(v: Seq<u8>) -> Seq<char>;

/// The subtype of the MIME type parsed from `v`.
pub uninterp spec fn mime_subtype_of(v: Seq<u8>) -> Seq<char>;

/// The structured-syntax suffix (the part after `+`, as in
/// `application/vnd.custom+xml`) of the MIME type parsed from `v`, if any.
pub uninterp spec fn mime_suffix_of(v: Seq<u8>) -> Option<Seq<char>>;

/// The three components of a parsed MIME type, as plain text.
pub struct MimeParts {
    pub kind: String,
    pub subtype: String,
    pub suffix: Option<String>,
}

/// Relies on the `mime` crate: `str::parse::<mime::Mime>` (its `FromStr`
/// impl) parses the text or rejects it, as a function of the text alone, and
/// `Mime::type_`, `Mime::subtype` and `Mime::suffix`, each read through
/// `Name::as_str`, return the parsed components.
#[verifier::external_body]
fn parse_mime(v: &Vec<u8>) -> (r: Option<MimeParts>)
    requires
        visible_ascii(v@),
    ensures
        r is Some <==> mime_parses(v@),
        r matches Some(p) ==> {
            &&& p.kind@ == mime_type_of(v@)
            &&& p.subtype@ == mime_subtype_of(v@)
            &&& p.suffix.deep_view() == mime_suffix_of(v@)
        },
{
    let text = core::str::from_utf8(v.as_slice()).unwrap();
    match text.parse::<mime::Mime>() {
        Ok(m) => Some(MimeParts {
            kind: m.type_().as_str().to_owned(),
            subtype: m.subtype().as_str().to_owned(),
            suffix: m.suffix().map(|n| n.as_str().to_owned()),
        }),
        Err(_) => None,
    }
}

/// The acceptance rule on a parsed MIME type: the top-level type is
/// `application` or `text`, and either the subtype is `xml` or the
/// structured-syntax suffix is `xml`.
pub open spec fn xml_mime_parts(
    kind: Seq<char>,
    subtype: Seq<char>,
    suffix: Option<Seq<char>>,
) -> bool {
    &&& (eq_ci(kind, "application"@) || eq_ci(kind, "text"@))
    &&& (eq_ci(subtype, "xml"@) || (suffix matches Some(s) && eq_ci(s, "xml"@)))
}

/// The content-type gate: the request carries a `Content-Type` header whose
/// value is readable as text, parses as a MIME type, and matches the XML
/// acceptance rule.
pub open spec fn spec_is_xml(hs: Seq<HeaderView>) -> bool {
    match lookup(hs, "content-type"@) {
        None => false,
        Some(v) => visible_ascii(v) && mime_parses(v) && xml_mime_parts(
            mime_type_of(v),
            mime_subtype_of(v),
            mime_suffix_of(v),
        ),
    }
}

/// Decide, from the request header metadata alone, whether the body is to be
/// treated as XML. No header, an unreadable or malformed value, or a MIME
/// type without an explicit XML marker all answer `false`.
pub fn xml_content_type(headers: &Headers) -> (r: bool)
    ensures
        r == spec_is_xml(headers@),
{
    match headers.get("content-type") {
        None => false,
        Some(value) => {
            if !bytes_visible_ascii(value) {
                false
            } else {
                match parse_mime(value) {
                    None => false,
                    Some(parts) => {
                        let kind_ok = str_eq_ci(parts.kind.as_str(), "application")
                            || str_eq_ci(parts.kind.as_str(), "text");
                        let sub_ok = str_eq_ci(parts.subtype.as_str(), "xml");
                        let suf_ok = match &parts.suffix {
                            Some(sf) => str_eq_ci(sf.as_str(), "xml"),
                            None => false,
                        };
                        kind_ok && (sub_ok || suf_ok)
                    },
                }
            }
        },
    }
}

proof fn lemma_lookup_from_none(hs: Seq<HeaderView>, name: Seq<char>, i: int)
    requires
        forall|j: int| 0 <= j < hs.len() ==> !eq_ci(hs[j].name, name),
    ensures
        lookup_from(hs, name, i) is None,
    decreases hs.len() - i,
{
    if 0 <= i < hs.len() {
        lemma_lookup_from_none(hs, name, i + 1);
    }
}

/// On a header map without a `Content-Type` entry the content-type gate answers `false`.
pub proof fn lemma_gate_needs_content_type(hs: Seq<HeaderView>)
    requires
        forall|j: int| 0 <= j < hs.len() ==> !eq_ci(hs[j].name, "content-type"@),
    ensures
        !spec_is_xml(hs),
{
    lemma_lookup_from_none(hs, "content-type"@, 0);
}

} // verus!
