pub mod hashicorp_vault;

use vstd::prelude::*;

verus! {

/// The transport error of the vault client, carried through unchanged.
#[verifier::external_type_specification]
#[verifier::external_body]
pub struct ExClientError(vaultrs::error::ClientError);

/// The error that base64 reports on text that is not a valid encoding.
#[verifier::external_type_specification]
#[verifier::external_body]
pub struct ExDecodeError(base64::DecodeError);

/// HSM errors
#[derive(Debug)]
pub enum Error {
    /// An error reported by the HSM client.
    Client(vaultrs::error::ClientError),
    /// Unexpected response from the backend, with a human-readable representation.
    UnexpectedResponse(String),
    /// Failure to decode response from the backend.
    ResponseDecoding(base64::DecodeError),
}

impl Error {
    /// An error of the HSM client.
    pub fn client(error: vaultrs::error::ClientError) -> (r: Self)
        ensures
            r == Error::Client(error),
    {
        Error::Client(error)
    }

    /// A response of unexpected shape, kept whole.
    pub fn unexpected_response(response: String) -> (r: Self)
        ensures
            r == Error::UnexpectedResponse(response),
    {
        Error::UnexpectedResponse(response)
    }

    /// A response field that failed to decode.
    pub fn response_decoding(error: base64::DecodeError) -> (r: Self)
        ensures
            r == Error::ResponseDecoding(error),
    {
        Error::ResponseDecoding(error)
    }
}

} // verus!
