use vstd::prelude::*;

verus! {

/// A collection of bytes.
#[derive(Clone, Debug)]
pub struct Bytes(pub Vec<u8>);

impl Bytes {
    /// The bytes held, as a slice.
    pub fn as_slice(&self) -> (r: &[u8])
        ensures
            r@ == self.0@,
    {
        self.0.as_slice()
    }
}

impl AsRef<[u8]> for Bytes {
    fn as_ref(&self) -> &[u8] {
        self.0.as_slice()
    }
}

/// A signature made with a possibly versioned key.
#[derive(Clone, Debug)]
pub struct Signature {
    /// Key derivation information assigned by the signing module.
    pub derivation: String,
    /// Signature data.
    pub data: Vec<u8>,
}

} // verus!
