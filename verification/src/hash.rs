//! The 32-byte result of hashing a template.

use vstd::prelude::*;

verus! {

/// A template hash: the 32 bytes of a digest, compared byte for byte.
#[derive(Clone, Copy, Debug)]
pub struct TemplateHash {
    bytes: [u8; 32],
}

impl View for TemplateHash {
    type V = Seq<u8>;

    closed spec fn view(&self) -> Seq<u8> {
        self.bytes@
    }
}

impl TemplateHash {
    /// Wraps the bytes of a digest.
    pub fn from_byte_array(bytes: [u8; 32]) -> (hash: TemplateHash)
        ensures
            hash@ == bytes@,
    {
        TemplateHash { bytes }
    }

    /// The bytes of the hash.
    pub fn to_byte_array(&self) -> (bytes: [u8; 32])
        ensures
            bytes@ == self@,
    {
        self.bytes
    }

    /// A hash always has 32 bytes.
    pub proof fn lemma_len(self)
        ensures
            self@.len() == 32,
    {
    }

    /// Two hashes with the same bytes are the same hash.
    pub proof fn lemma_ext_equal(self, other: TemplateHash)
        requires
            self@ == other@,
        ensures
            self == other,
    {
        assert(self.bytes =~= other.bytes);
    }
}

impl PartialEq for TemplateHash {
    fn eq(&self, other: &TemplateHash) -> (equal: bool) {
        let mut at: usize = 0;
        while at < 32
            invariant
                at <= 32,
                forall|i: int| 0 <= i < at ==> self.bytes@[i] == other.bytes@[i],
            decreases 32 - at,
        {
            if self.bytes[at] != other.bytes[at] {
                return false;
            }
            at = at + 1;
        }
        assert(self.bytes@ =~= other.bytes@);
        true
    }
}

impl vstd::std_specs::cmp::PartialEqSpecImpl for TemplateHash {
    open spec fn obeys_eq_spec() -> bool {
        true
    }

    open spec fn eq_spec(&self, other: &TemplateHash) -> bool {
        self@ == other@
    }
}

impl Eq for TemplateHash {

}

} // verus!
