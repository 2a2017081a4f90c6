//! What the Hashicorp Vault transit backend computes around its network calls.
use vstd::prelude::*;

use crate::envelope::{base64_encode, base64_of, encode, envelope_of};
use crate::types::{Bytes, Signature};

verus! {

/// The mount point of the transit secrets engine.
pub const VAULT_API_MOUNT: &'static str = "transit";

/// The name of the transit key that signs.
pub const KEY_NAME: &'static str = "hsm-onboarding";

/// The transit `input` for a message: its bytes in base64.
pub fn transit_input(message: &Bytes) -> (r: String)
    ensures
        r@ == base64_of(message.0@),
{
    base64_encode(message.as_slice())
}

/// The transit `input` and `signature` of a verify call: the message in base64 and the
/// signature re-encoded into its envelope.
pub fn verify_arguments(message: &Bytes, signature: &Signature) -> (r: (String, String))
    ensures
        r.0@ == base64_of(message.0@),
        r.1@ == envelope_of(signature.derivation@, signature.data@),
{
    let input = transit_input(message);
    let envelope = encode(signature.derivation.as_str(), signature.data.as_slice());
    (input, envelope)
}

} // verus!
