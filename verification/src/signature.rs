//! A signature: the byte output of the signing scheme.

use vstd::prelude::*;

use crate::codec::hex_rep;
use crate::crypto::bytes_hex;

verus! {

/// An opaque byte-sequence wrapper over the signing scheme's output.
#[derive(Debug, Clone)]
pub struct Signature(pub Vec<u8>);

impl Signature {
    /// The hex rendering of the signature bytes.
    pub fn to_string(&self) -> (r: String)
        ensures
            r@ == hex_rep(self.0@),
    {
        bytes_hex(&self.0)
    }

    /// Prints the hex rendering of the signature bytes.
    pub fn print(&self) {
        let line = self.to_string();
        crate::console::emit_line(line.as_str());
    }
}

} // verus!
