//! The annotation attached to a wrapped key: which credential wraps it, the
//! ciphertext, the nonce, and the cipher configuration it was made with.
use vstd::prelude::*;

verus! {

pub struct AnnotationPacket {
    pub kid: String,
    pub wrapped_data: Vec<u8>,
    pub iv: Vec<u8>,
    pub algorithm: String,
    pub key_length: u16,
}

} // verus!
