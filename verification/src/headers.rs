use vstd::prelude::*;
use crate::text::{eq_ci, str_eq_ci};

verus! {

/// One request header: a name and a raw byte value.
///
/// Header values on the wire are bytes, not text; the content-type gate reads a value as
/// text only after finding every byte of it visible ASCII.
pub struct Header {
    pub name: String,
    pub value: Vec<u8>,
}

/// The abstract content of a `Header`.
pub struct HeaderView {
    pub name: Seq<char>,
    pub value: Seq<u8>,
}

impl View for Header {
    type V = HeaderView;

    open spec fn view(&self) -> HeaderView {
        HeaderView { name: self.name@, value: self.value@ }
    }
}

/// Request header metadata, in arrival order. A name may repeat; a lookup
/// returns the first value under the name, names compared without regard
/// to ASCII case.
pub struct Headers {
    pub entries: Vec<Header>,
}

impl View for Headers {
    type V = Seq<HeaderView>;

    open spec fn view(&self) -> Seq<HeaderView> {
        self.entries@.map_values(|h: Header| h@)
    }
}

/// The first value under `name` at or after position `i`, names compared
/// up to ASCII case.
pub open spec fn lookup_from(hs: Seq<HeaderView>, name: Seq<char>, i: int) -> Option<Seq<u8>>
    decreases hs.len() - i,
{
    if i < 0 || i >= hs.len() {
        None
    } else if eq_ci(hs[i].name, name) {
        Some(hs[i].value)
    } else {
        lookup_from(hs, name, i + 1)
    }
}

/// The first value under `name`, names compared up to ASCII case.
pub open spec fn lookup(hs: Seq<HeaderView>, name: Seq<char>) -> Option<Seq<u8>> {
    lookup_from(hs, name, 0)
}

impl Headers {
    /// Look up the first header named `name` (ASCII-case-insensitively)
    /// and return its raw value.
    pub fn get<'a>(&'a self, name: &str) -> (r: Option<&'a Vec<u8>>)
        ensures
            match r {
                Some(v) => lookup(self@, name@) == Some(v@),
                None => lookup(self@, name@) is None,
            },
    {
        let n = self.entries.len();
        let mut i: usize = 0;
        while i < n
            invariant
                n == self.entries.len(),
                self@.len() == n,
                0 <= i <= n,
                lookup(self@, name@) == lookup_from(self@, name@, i as int),
            decreases n - i,
        {
            proof {
                assert(self@[i as int] == self.entries@[i as int]@);
            }
            if str_eq_ci(self.entries[i].name.as_str(), name) {
                return Some(&self.entries[i].value);
            }
            i += 1;
        }
        None
    }
}

} // verus!
