use crate::abi::AbiError;
use vstd::prelude::*;

verus! {

/// A 32-byte transaction hash, the handle of a submitted transaction.
#[derive(Clone, Copy, Debug, PartialEq, Eq)]
pub struct TxHash {
    pub bytes: [u8; 32],
}

/// The signed transaction bytes that the signer produced.
#[derive(Clone, Debug, PartialEq, Eq)]
pub struct SignedTransaction {
    pub raw_tx: Vec<u8>,
}

/// The signer's refusal to sign, with its diagnostic.
#[derive(Clone, Debug, PartialEq, Eq)]
pub struct SignerFailure {
    pub message: String,
}

/// The failures a deposit or an approval reports.
#[derive(Clone, Debug, PartialEq, Eq)]
pub enum ClientError {
    /// The signer rejected the request or is misconfigured; not retried.
    IncorrectCredentials,
    /// The node or transport failed; carries the diagnostic text.
    NetworkError(String),
    /// The call could not be encoded against the contract interface.
    AbiError(AbiError),
}

/// What to do once the signer has answered.
#[derive(Debug)]
pub enum SubmitStep {
    /// Submit these signed bytes to the network.
    Send(Vec<u8>),
    /// Stop with this outcome; nothing is submitted.
    Finish(Result<TxHash, ClientError>),
}

/// A signed payload goes on to submission; a signer failure ends the call
/// with the credential error and nothing is submitted.
pub fn after_signing(signed: Result<SignedTransaction, SignerFailure>) -> (r: SubmitStep)
    ensures
        match signed {
            Ok(tx) => r matches SubmitStep::Send(raw) && raw@ == tx.raw_tx@,
            Err(_) => r matches SubmitStep::Finish(Err(ClientError::IncorrectCredentials)),
        },
{
    match signed {
        Ok(tx) => SubmitStep::Send(tx.raw_tx),
        Err(_) => SubmitStep::Finish(Err(ClientError::IncorrectCredentials)),
    }
}

/// The outcome of submission: the hash, or the network error with the node's
/// diagnostic.
pub fn after_sending(sent: Result<TxHash, String>) -> (r: Result<TxHash, ClientError>)
    ensures
        match sent {
            Ok(h) => r == Ok::<TxHash, ClientError>(h),
            Err(m) => r matches Err(ClientError::NetworkError(d)) && d@ == m@,
        },
{
    match sent {
        Ok(h) => Ok(h),
        Err(m) => Err(ClientError::NetworkError(m)),
    }
}

} // verus!
