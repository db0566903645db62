//! Key material validation and the key bundles that key generation yields.

use vstd::prelude::*;
use crate::errors::TextError;
use crate::strutil::str_equal;

verus! {

/// Validated key bytes for a chosen scheme: exactly the required prefix of
/// the bytes that were supplied.
///
/// Construction goes through [`validate`], the single gate for externally
/// supplied key bytes. Excess trailing bytes beyond the required length are
/// silently ignored by truncation to the prefix; a stricter design would
/// reject non-exact-length keys, but the loose behavior is kept for
/// compatibility.
pub struct KeyMaterial {
    bytes: Vec<u8>,
}

impl View for KeyMaterial {
    type V = Seq<u8>;

    closed spec fn view(&self) -> Seq<u8> {
        self.bytes@
    }
}

impl KeyMaterial {
    /// The validated bytes, as a slice.
    pub fn as_bytes(&self) -> (r: &[u8])
        ensures
            r@ == self@,
    {
        self.bytes.as_slice()
    }

    /// The validated bytes, surrendered.
    pub fn into_bytes(self) -> (r: Vec<u8>)
        ensures
            r@ == self@,
    {
        self.bytes
    }
}

/// Checks that at least `required_len` key bytes were supplied and retains
/// exactly the first `required_len` of them; fails with `KeyTooShort`
/// otherwise.
pub fn validate(bytes: &[u8], required_len: usize) -> (r: Result<KeyMaterial, TextError>)
    ensures
        bytes@.len() >= required_len ==> r is Ok && r->Ok_0@ == bytes@.subrange(
            0,
            required_len as int,
        ),
        bytes@.len() < required_len ==> r is Err && r->Err_0 == TextError::KeyTooShort,
{
    if bytes.len() < required_len {
        return Err(TextError::KeyTooShort);
    }
    let prefix = vstd::slice::slice_subrange(bytes, 0, required_len);
    Ok(KeyMaterial { bytes: vstd::slice::slice_to_vec(prefix) })
}

/// One generated key artifact: a logical file name and its raw byte content.
pub struct KeyEntry {
    /// The logical file name under which the caller persists the bytes.
    pub name: &'static str,
    /// The raw key bytes.
    pub content: Vec<u8>,
}

/// The artifacts that key generation yields for one scheme, labeled for
/// persistence: one entry for the symmetric scheme, two for the asymmetric
/// one. Persisting the entries to storage is the caller's responsibility.
pub struct KeyBundle {
    /// The generated entries, in the order the scheme defines.
    pub entries: Vec<KeyEntry>,
}

impl KeyBundle {
    /// Whether some entry carries the given logical name.
    pub open spec fn spec_has_name(&self, name: Seq<char>) -> bool {
        exists|j: int|
            0 <= j < self.entries@.len() && self.entries@[j].name@ == name
    }

    /// Looks an entry up by its logical name; the first entry with that name
    /// answers.
    pub fn get(&self, name: &str) -> (r: Option<&Vec<u8>>)
        ensures
            r is Some <==> self.spec_has_name(name@),
            r matches Some(v) ==> exists|j: int|
                0 <= j < self.entries@.len() && self.entries@[j].name@ == name@ && v@
                    == self.entries@[j].content@,
    {
        let n: usize = self.entries.len();
        let mut i: usize = 0;
        while i < n
            invariant
                n == self.entries@.len(),
                i <= n,
                forall|j: int| 0 <= j < i ==> self.entries@[j].name@ != name@,
            decreases n - i,
        {
            if str_equal(self.entries[i].name, name) {
                return Some(&self.entries[i].content);
            }
            i = i + 1;
        }
        None
    }
}

} // verus!
