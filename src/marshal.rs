use vstd::prelude::*;
use crate::error::Error;
use crate::text::{any_has_nul, strings_bytes, texts_view, validate_all, CText};

verus! {

/// Owned, null-terminated storage for a list of text values, with the slot
/// table that the native interface reads as an address array: slot `i < n`
/// refers to the storage of value `i`, and the final slot is the null
/// sentinel. Each value's storage is a separate heap buffer that is never
/// touched again once built, so addresses taken from it stay valid for as
/// long as the object lives, even when the object itself is moved.
#[derive(Debug)]
pub struct CStringsVec {
    cstrings: Vec<Vec<u8>>,
    ptrs: Vec<Option<usize>>,
}

impl CStringsVec {
    /// The null-terminated storage of each value.
    pub closed spec fn storage(&self) -> Seq<Seq<u8>> {
        self.cstrings@.map_values(|b: Vec<u8>| b@)
    }

    /// The slot table: `Some(i)` refers to `storage()[i]`, `None` is the sentinel.
    pub closed spec fn slot_table(&self) -> Seq<Option<usize>> {
        self.ptrs@
    }

    /// The object marshals exactly `inputs`: `n + 1` slots, the last one the
    /// sentinel, and slot `i` referring to the bytes of input `i` followed by
    /// the terminator.
    pub open spec fn marshals(&self, inputs: Seq<Seq<u8>>) -> bool {
        &&& self.storage().len() == inputs.len()
        &&& self.slot_table().len() == inputs.len() + 1
        &&& self.slot_table()[inputs.len() as int] is None
        &&& forall|i: int|
            0 <= i < inputs.len() ==> {
                &&& #[trigger] self.slot_table()[i] == Some(i as usize)
                &&& self.storage()[i] == inputs[i].push(0u8)
            }
    }

    /// Marshals validated texts. Never fails: the texts hold no null byte.
    pub fn new(cstrings: Vec<CText>) -> (r: Result<CStringsVec, Error>)
        ensures
            r matches Ok(m) && m.marshals(texts_view(cstrings@)),
    {
        Ok(CStringsVec::from_texts(cstrings))
    }

    /// Marshals validated texts.
    pub fn from_texts(cstrings: Vec<CText>) -> (r: CStringsVec)
        ensures
            r.marshals(texts_view(cstrings@)),
    {
        let n = cstrings.len();
        let mut storage: Vec<Vec<u8>> = Vec::new();
        let mut ptrs: Vec<Option<usize>> = Vec::new();
        let mut i: usize = 0;
        while i < n
            invariant
                n == cstrings@.len(),
                i <= n,
                storage@.len() == i,
                ptrs@.len() == i,
                forall|j: int| 0 <= j < i ==> #[trigger] ptrs@[j] == Some(j as usize),
                forall|j: int| 0 <= j < i ==> #[trigger] storage@[j]@ == cstrings@[j]@.push(0u8),
            decreases n - i,
        {
            let bytes = cstrings[i].to_bytes_with_nul();
            storage.push(bytes);
            ptrs.push(Some(i));
            i = i + 1;
        }
        ptrs.push(None);
        let r = CStringsVec { cstrings: storage, ptrs };
        assert(r.storage() =~= texts_view(cstrings@).map_values(|b: Seq<u8>| b.push(0u8)));
        r
    }

    /// Validates and marshals text values; fails with `CStringError` exactly
    /// when one of them holds a null byte.
    pub fn from_strings(values: &[String]) -> (r: Result<CStringsVec, Error>)
        ensures
            r is Err <==> any_has_nul(strings_bytes(values@)),
            r matches Ok(m) ==> m.marshals(strings_bytes(values@)),
            r matches Err(e) ==> e == Error::CStringError,
    {
        let texts = validate_all(values)?;
        CStringsVec::new(texts)
    }

    /// The number of slots, the sentinel included.
    pub fn slot_count(&self) -> (r: usize)
        ensures
            r == self.slot_table().len(),
    {
        self.ptrs.len()
    }

    /// Slot `i` of the table.
    pub fn slot(&self, i: usize) -> (r: Option<usize>)
        requires
            i < self.slot_table().len(),
        ensures
            r == self.slot_table()[i as int],
    {
        self.ptrs[i]
    }

    /// The null-terminated storage of value `i`.
    pub fn storage_at(&self, i: usize) -> (r: &[u8])
        requires
            i < self.storage().len(),
        ensures
            r@ == self.storage()[i as int],
    {
        self.cstrings[i].as_slice()
    }
}

} // verus!
