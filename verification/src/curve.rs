use vstd::prelude::*;
use vstd::utf8::{decode_utf8, valid_utf8};

use crate::text::string_from_utf8;

verus! {

/// A CURVE key pair, both keys as Z85 text.
pub struct CurveKeyPair {
    pub public_key: String,
    pub secret_key: String,
}

impl CurveKeyPair {
    /// The key pair from the text buffers that libzmq filled, where both are
    /// valid UTF-8.
    pub fn from_raw_keys(public_key: Vec<u8>, secret_key: Vec<u8>) -> (res: Option<CurveKeyPair>)
        ensures
            res is Some <==> valid_utf8(public_key@) && valid_utf8(secret_key@),
            res matches Some(k) ==> k.public_key@ == decode_utf8(public_key@) && k.secret_key@
                == decode_utf8(secret_key@),
    {
        let public_key = match string_from_utf8(public_key) {
            Ok(s) => s,
            Err(_) => return None,
        };
        let secret_key = match string_from_utf8(secret_key) {
            Ok(s) => s,
            Err(_) => return None,
        };
        Some(CurveKeyPair { public_key, secret_key })
    }
}

} // verus!
