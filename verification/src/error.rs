//! Failure kinds of the client, one enum per layer.
//!
//! Each error carries plain values only.  Its model replaces every text by
//! the sequence of its characters, so that contracts can say which error a
//! function returns and with which message.

use vstd::prelude::*;
use vstd::std_specs::convert::FromSpecImpl;
use crate::types::Address;

verus! {

/// Signature schemes a secret key can be tagged with.
#[derive(Clone, Copy, Debug, PartialEq, Eq)]
pub enum SignatureScheme {
    ED25519,
    Secp256k1,
    Secp256r1,
    MultiSig,
    BLS12381,
    ZkLoginAuthenticator,
    PasskeyAuthenticator,
}

/// Errors of key decoding and keystore handling.
#[derive(Clone, Debug, PartialEq, Eq)]
pub enum KeystoreError {
    /// The text is no well-formed Bech32 string.
    InvalidBech32(String),
    /// The human-readable part is not the one of a secret key.
    InvalidHRP(String),
    /// The payload does not hold a flag byte and 32 key bytes.
    InvalidKeyLength(usize),
    /// The flag names a scheme that no key pair can be built for.
    UnsupportedKeyScheme(SignatureScheme),
    /// The keystore refused an operation.
    KeystoreOperation(String),
    /// The key material was refused when the key pair was built.
    SuiSdkError(String),
}

/// Mathematical model of a [`KeystoreError`].
pub ghost enum KeystoreErrorView {
    InvalidBech32(Seq<char>),
    InvalidHRP(Seq<char>),
    InvalidKeyLength(usize),
    UnsupportedKeyScheme(SignatureScheme),
    KeystoreOperation(Seq<char>),
    SuiSdkError(Seq<char>),
}

impl View for KeystoreError {
    type V = KeystoreErrorView;

    open spec fn view(&self) -> KeystoreErrorView {
        match self {
            KeystoreError::InvalidBech32(m) => KeystoreErrorView::InvalidBech32(m@),
            KeystoreError::InvalidHRP(m) => KeystoreErrorView::InvalidHRP(m@),
            KeystoreError::InvalidKeyLength(n) => KeystoreErrorView::InvalidKeyLength(*n),
            KeystoreError::UnsupportedKeyScheme(s) => KeystoreErrorView::UnsupportedKeyScheme(*s),
            KeystoreError::KeystoreOperation(m) => KeystoreErrorView::KeystoreOperation(m@),
            KeystoreError::SuiSdkError(m) => KeystoreErrorView::SuiSdkError(m@),
        }
    }
}

/// Errors of client creation.
#[derive(Clone, Debug, PartialEq, Eq)]
pub enum ClientError {
    /// The client could not be created.
    ClientCreation(String),
    /// Transport-level failure.
    Network(String),
    /// The endpoint is no usable URL.
    InvalidUrl(String),
}

/// Mathematical model of a [`ClientError`].
pub ghost enum ClientErrorView {
    ClientCreation(Seq<char>),
    Network(Seq<char>),
    InvalidUrl(Seq<char>),
}

impl View for ClientError {
    type V = ClientErrorView;

    open spec fn view(&self) -> ClientErrorView {
        match self {
            ClientError::ClientCreation(m) => ClientErrorView::ClientCreation(m@),
            ClientError::Network(m) => ClientErrorView::Network(m@),
            ClientError::InvalidUrl(m) => ClientErrorView::InvalidUrl(m@),
        }
    }
}

/// Errors of assembling and submitting a transaction.
#[derive(Clone, Debug, PartialEq, Eq)]
pub enum TransactionError {
    /// Local validation or a lookup needed for assembly failed.
    BuildError(String),
    /// The ledger rejected the signed transaction.
    ExecutionError(String),
    /// No funding object is available.
    InsufficientGas { required: u64, available: u64 },
    /// A referenced object does not exist.
    ObjectNotFound(Address),
    /// A request to the node failed in transport; the text is the
    /// transport's, as it came.
    Network(String),
    /// The transaction was submitted and it is not known whether it was
    /// executed; a later query has to settle it.
    UnknownOutcome(String),
}

/// Mathematical model of a [`TransactionError`].
pub ghost enum TransactionErrorView {
    BuildError(Seq<char>),
    ExecutionError(Seq<char>),
    InsufficientGas { required: u64, available: u64 },
    ObjectNotFound(Address),
    Network(Seq<char>),
    UnknownOutcome(Seq<char>),
}

impl View for TransactionError {
    type V = TransactionErrorView;

    open spec fn view(&self) -> TransactionErrorView {
        match self {
            TransactionError::BuildError(m) => TransactionErrorView::BuildError(m@),
            TransactionError::ExecutionError(m) => TransactionErrorView::ExecutionError(m@),
            TransactionError::InsufficientGas { required, available } => {
                TransactionErrorView::InsufficientGas { required: *required, available: *available }
            },
            TransactionError::ObjectNotFound(id) => TransactionErrorView::ObjectNotFound(*id),
            TransactionError::Network(m) => TransactionErrorView::Network(m@),
            TransactionError::UnknownOutcome(m) => TransactionErrorView::UnknownOutcome(m@),
        }
    }
}

/// Errors of the contract-level operations.
#[derive(Clone, Debug, PartialEq, Eq)]
pub enum CanaryError {
    /// A registry lookup, an encoding or a decoding failed.
    Registry(String),
    /// The address is no member of the registry.
    NotMember,
    /// The caller does not hold the admin capability.
    NotAdmin,
    /// The blob object does not exist or is no blob.
    CanaryBlobNotFound,
    /// Assembly or submission failed.
    Transaction(TransactionError),
    /// Client creation failed.
    Client(ClientError),
}

/// Mathematical model of a [`CanaryError`].
pub ghost enum CanaryErrorView {
    Registry(Seq<char>),
    NotMember,
    NotAdmin,
    CanaryBlobNotFound,
    Transaction(TransactionErrorView),
    Client(ClientErrorView),
}

impl View for CanaryError {
    type V = CanaryErrorView;

    open spec fn view(&self) -> CanaryErrorView {
        match self {
            CanaryError::Registry(m) => CanaryErrorView::Registry(m@),
            CanaryError::NotMember => CanaryErrorView::NotMember,
            CanaryError::NotAdmin => CanaryErrorView::NotAdmin,
            CanaryError::CanaryBlobNotFound => CanaryErrorView::CanaryBlobNotFound,
            CanaryError::Transaction(e) => CanaryErrorView::Transaction(e@),
            CanaryError::Client(e) => CanaryErrorView::Client(e@),
        }
    }
}

impl From<TransactionError> for CanaryError {
    fn from(error: TransactionError) -> (res: CanaryError) {
        CanaryError::Transaction(error)
    }
}

impl FromSpecImpl<TransactionError> for CanaryError {
    open spec fn obeys_from_spec() -> bool {
        true
    }

    open spec fn from_spec(error: TransactionError) -> CanaryError {
        CanaryError::Transaction(error)
    }
}

impl From<ClientError> for CanaryError {
    fn from(error: ClientError) -> (res: CanaryError) {
        CanaryError::Client(error)
    }
}

impl FromSpecImpl<ClientError> for CanaryError {
    open spec fn obeys_from_spec() -> bool {
        true
    }

    open spec fn from_spec(error: ClientError) -> CanaryError {
        CanaryError::Client(error)
    }
}

} // verus!
