//! Immutable strings that carry a precomputed hash.

use vstd::prelude::*;

verus! {

/// Seed of the string hash.
pub const HASH_SEED: u32 = 5381;

/// The hash of a byte sequence: starting from the seed, each byte turns
/// `h` into `h * 33 + byte`, modulo 2^32.
pub open spec fn hash_of_bytes(bytes: Seq<u8>) -> u32
    decreases bytes.len(),
{
    if bytes.len() == 0 {
        HASH_SEED
    } else {
        ((hash_of_bytes(bytes.drop_last()) * 33 + bytes.last()) % 0x1_0000_0000) as u32
    }
}

/// An immutable string together with the hash of its UTF-8 bytes.
#[derive(Debug, Hash)]
pub struct StringObject {
    value: String,
    hash: u32,
}

impl View for StringObject {
    type V = Seq<char>;

    closed spec fn view(&self) -> Seq<char> {
        self.value@
    }
}

impl Clone for StringObject {
    fn clone(&self) -> (s: Self)
        ensures
            s == *self,
    {
        proof {
            use_type_invariant(self);
        }
        StringObject { value: self.value.clone(), hash: self.hash }
    }
}

impl StringObject {
    #[verifier::type_invariant]
    spec fn hash_is_current(self) -> bool {
        self.hash == hash_of_bytes(vstd::utf8::encode_utf8(self.value@))
    }

    /// The hash stored with the string.
    pub closed spec fn spec_hash(&self) -> u32 {
        self.hash
    }

    pub fn from_string(value: String) -> (s: Self)
        ensures
            s@ == value@,
            s.spec_hash() == hash_of_bytes(vstd::utf8::encode_utf8(value@)),
    {
        let hash = Self::calculate_hash(value.as_str());
        Self { value, hash }
    }

    pub fn from_str(value: &str) -> (s: Self)
        ensures
            s@ == value@,
            s.spec_hash() == hash_of_bytes(vstd::utf8::encode_utf8(value@)),
    {
        Self::from_string(value.to_owned())
    }

    pub fn calculate_hash(value: &str) -> (hash: u32)
        ensures
            hash == hash_of_bytes(vstd::utf8::encode_utf8(value@)),
    {
        let bytes = value.as_bytes();
        let mut hash: u32 = HASH_SEED;
        let mut i: usize = 0;
        while i < bytes.len()
            invariant
                i <= bytes.len(),
                hash == hash_of_bytes(bytes@.take(i as int)),
            decreases bytes.len() - i,
        {
            proof {
                assert(bytes@.take(i + 1).drop_last() =~= bytes@.take(i as int));
            }
            hash = hash.wrapping_mul(33).wrapping_add(bytes[i] as u32);
            i += 1;
        }
        proof {
            assert(bytes@.take(i as int) =~= bytes@);
        }
        hash
    }

    /// True when both strings hold the same text.
    pub fn equals(&self, other: &Self) -> (r: bool)
        ensures
            r == (self@ == other@),
    {
        self.value == other.value
    }

    pub fn as_str(&self) -> (s: &str)
        ensures
            s@ == self@,
    {
        self.value.as_str()
    }

    pub fn value(&self) -> (s: String)
        ensures
            s@ == self@,
    {
        self.value.clone()
    }

    pub fn hash(&self) -> (h: u32)
        ensures
            h == self.spec_hash(),
            h == hash_of_bytes(vstd::utf8::encode_utf8(self@)),
    {
        proof {
            use_type_invariant(self);
        }
        self.hash
    }
}

} // verus!

verus! {

/// A string object of its own for the given text.
pub fn phstring_new(value: String) -> (s: StringObject)
    ensures
        s@ == value@,
        s.spec_hash() == hash_of_bytes(vstd::utf8::encode_utf8(value@)),
{
    StringObject::from_string(value)
}

} // verus!
