use vstd::prelude::*;

verus! {

/// Every way in which an operation of the engine can fail. Each one aborts the
/// current operation only.
#[derive(Debug, Clone, Copy, PartialEq, Eq, Structural)]
pub enum EngineError {
    Unauthorized,
    NotEnrolled,
    AlreadyEnrolled,
    AlreadyUnsubscribing,
    NotDue,
    WrongDeposit,
    InvalidAccountId,
    InvalidPublicKey,
    InvalidBlockAnchor,
    MalformedSignatureComponent,
    RemoteSignerFailure,
    SerializationFailure,
}

} // verus!
