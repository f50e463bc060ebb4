use vstd::prelude::*;
use vstd::slice::slice_to_vec;
use vstd::string::StringSliceAdditionalSpecFns;
use vstd::utf8::encode_utf8;
use crate::error::Error;

verus! {

/// Whether the byte sequence holds a null byte.
pub open spec fn has_nul(s: Seq<u8>) -> bool {
    exists|i: int| 0 <= i < s.len() && s[i] == 0u8
}

/// The UTF-8 bytes of each string.
pub open spec fn strings_bytes(v: Seq<String>) -> Seq<Seq<u8>> {
    v.map_values(|s: String| encode_utf8(s@))
}

/// Whether one of the byte sequences holds a null byte.
pub open spec fn any_has_nul(v: Seq<Seq<u8>>) -> bool {
    exists|i: int| 0 <= i < v.len() && has_nul(#[trigger] v[i])
}

/// The views of a list of validated texts.
pub open spec fn texts_view(v: Seq<CText>) -> Seq<Seq<u8>> {
    v.map_values(|t: CText| t@)
}

/// Text with no embedded null byte: it can always be written in the
/// null-terminated form that the native interface reads.
#[derive(Debug, PartialEq, Eq)]
pub struct CText {
    bytes: Vec<u8>,
}

impl View for CText {
    type V = Seq<u8>;

    closed spec fn view(&self) -> Seq<u8> {
        self.bytes@
    }
}

/// Returns the index of the first null byte of `b`, if any.
fn find_nul(b: &[u8]) -> (r: Option<usize>)
    ensures
        r is None <==> !has_nul(b@),
        r matches Some(k) ==> k < b@.len() && b@[k as int] == 0u8,
{
    let mut i: usize = 0;
    while i < b.len()
        invariant
            i <= b@.len(),
            forall|j: int| 0 <= j < i ==> b@[j] != 0u8,
        decreases b@.len() - i,
    {
        if b[i] == 0u8 {
            return Some(i);
        }
        i = i + 1;
    }
    None
}

impl Clone for CText {
    fn clone(&self) -> (r: CText)
        ensures
            r@ == self@,
    {
        proof {
            use_type_invariant(self);
        }
        CText { bytes: self.bytes.clone() }
    }
}

impl CText {
    #[verifier::type_invariant]
    closed spec fn inv(&self) -> bool {
        !has_nul(self.bytes@)
    }

    /// The empty text.
    pub fn empty() -> (r: CText)
        ensures
            r@ == Seq::<u8>::empty(),
    {
        CText { bytes: Vec::new() }
    }

    /// Validates a byte sequence; fails with `CStringError` when it holds a null byte.
    pub fn from_bytes(b: &[u8]) -> (r: Result<CText, Error>)
        ensures
            r is Err <==> has_nul(b@),
            r matches Ok(t) ==> t@ == b@,
            r matches Err(e) ==> e == Error::CStringError,
    {
        match find_nul(b) {
            Some(_) => Err(Error::CStringError),
            None => Ok(CText { bytes: slice_to_vec(b) }),
        }
    }

    /// Validates the UTF-8 bytes of `s`; fails with `CStringError` when they hold a null byte.
    pub fn new(s: &str) -> (r: Result<CText, Error>)
        ensures
            r is Err <==> has_nul(s.spec_bytes()),
            r matches Ok(t) ==> t@ == s.spec_bytes(),
            r matches Err(e) ==> e == Error::CStringError,
    {
        CText::from_bytes(s.as_bytes())
    }

    /// The bytes of the text, without terminator.
    pub fn as_bytes(&self) -> (r: &[u8])
        ensures
            r@ == self@,
            !has_nul(r@),
    {
        proof {
            use_type_invariant(self);
        }
        self.bytes.as_slice()
    }

    /// The bytes of the text followed by the null terminator.
    pub fn to_bytes_with_nul(&self) -> (r: Vec<u8>)
        ensures
            r@ == self@.push(0u8),
    {
        let mut v = self.bytes.clone();
        v.push(0u8);
        v
    }
}

/// Validates each string in turn; fails with `CStringError` exactly when one
/// of them holds a null byte.
pub fn validate_all(values: &[String]) -> (r: Result<Vec<CText>, Error>)
    ensures
        r is Err <==> any_has_nul(strings_bytes(values@)),
        r matches Ok(v) ==> texts_view(v@) == strings_bytes(values@),
        r matches Err(e) ==> e == Error::CStringError,
{
    let mut out: Vec<CText> = Vec::new();
    let mut i: usize = 0;
    while i < values.len()
        invariant
            i <= values@.len(),
            texts_view(out@) == strings_bytes(values@).subrange(0, i as int),
            forall|j: int| 0 <= j < i ==> !has_nul(#[trigger] strings_bytes(values@)[j]),
        decreases values@.len() - i,
    {
        let s = values[i].as_str();
        assert(s.spec_bytes() == strings_bytes(values@)[i as int]);
        let t = CText::new(s);
        match t {
            Ok(t) => {
                let ghost prev = out@;
                out.push(t);
                proof {
                    assert(out@ == prev.push(t));
                    assert(texts_view(out@) =~= texts_view(prev).push(t@));
                    assert(texts_view(out@) =~= strings_bytes(values@).subrange(0, i + 1));
                }
            },
            Err(e) => {
                proof {
                    assert(has_nul(strings_bytes(values@)[i as int]));
                }
                return Err(e);
            },
        }
        i = i + 1;
    }
    proof {
        assert(strings_bytes(values@).subrange(0, i as int) =~= strings_bytes(values@));
    }
    Ok(out)
}

} // verus!
