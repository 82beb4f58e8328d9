//! What the client asks of a ledger node and what comes back, as plain
//! values.  The caller performs each request and hands the reply in.

use vstd::prelude::*;
use crate::types::{
    Address, ObjectReference, TransactionPayload, TransactionPayloadView,
};

verus! {

/// Who may use an object.
#[derive(Clone, Copy, Debug, PartialEq, Eq)]
pub enum Owner {
    /// Owned by one account.
    AddressOwner(Address),
    /// Owned by another object.
    ObjectOwner(Address),
    /// Shared since the given version.
    Shared { initial_shared_version: u64 },
    /// Frozen for good.
    Immutable,
}

/// What a lookup reports of an object that exists.
#[derive(Clone, Debug, PartialEq, Eq)]
pub struct ObjectData {
    /// Identifier, current version and fingerprint.
    pub reference: ObjectReference,
    /// The declared type, where the node reported one.
    pub type_descriptor: Option<String>,
    /// The ownership, where the node reported it.
    pub owner: Option<Owner>,
}

/// The outcome of looking an object up by its identifier.
#[derive(Clone, Debug, PartialEq, Eq)]
pub enum ObjectLookup {
    /// The object exists.
    Found(ObjectData),
    /// The node answered that there is no such object; the text says why.
    Missing(String),
    /// The request itself failed; the text is the transport's.
    Failed(String),
}

/// The cost that a dry run reports.
#[derive(Clone, Copy, Debug, PartialEq, Eq)]
pub struct GasCostSummary {
    pub computation_cost: u64,
    pub storage_cost: u64,
    pub storage_rebate: u64,
}

/// An estimate with the safety margin of one fifth, rounded down.
pub open spec fn with_margin(estimate: int) -> int {
    estimate + estimate / 5
}

impl GasCostSummary {
    /// Whether the three figures can be combined without leaving the range
    /// of a 64-bit counter at any step.
    pub open spec fn in_range(&self) -> bool {
        &&& self.computation_cost + self.storage_cost <= u64::MAX
        &&& self.storage_rebate <= self.computation_cost + self.storage_cost
    }

    /// Computation and storage cost less the rebate.
    pub open spec fn net(&self) -> int {
        self.computation_cost + self.storage_cost - self.storage_rebate
    }

    /// Computation and storage cost less the rebate, where the figures are
    /// in range.
    pub fn net_cost(&self) -> (res: Option<u64>)
        ensures
            res is Some <==> self.in_range(),
            res matches Some(cost) ==> cost == self.net(),
    {
        if self.computation_cost > u64::MAX - self.storage_cost {
            return None;
        }
        let gross: u64 = self.computation_cost + self.storage_cost;
        if self.storage_rebate > gross {
            return None;
        }
        Some(gross - self.storage_rebate)
    }
}

/// The context under which a message is signed.  A signature made under
/// one context is worth nothing under another.
#[derive(Clone, Copy, Debug, PartialEq, Eq)]
pub struct Intent {
    pub scope: u8,
    pub version: u8,
    pub app_id: u8,
}

impl Intent {
    /// The context of a transaction of this ledger: scope, version and
    /// application are all zero.
    pub fn sui_transaction() -> (res: Intent)
        ensures
            res == (Intent { scope: 0, version: 0, app_id: 0 }),
    {
        Intent { scope: 0, version: 0, app_id: 0 }
    }
}

/// What the caller is to do next: a question to the node, or a signature
/// to get from the keystore.
#[derive(Clone, Debug, PartialEq, Eq)]
pub enum NodeRequest {
    /// Look an object up, with its full content.
    FetchObject(Address),
    /// List the native-currency coins that the owner holds.
    ListCoins { owner: Address },
    /// Ask for the network's current reference price.
    ReferenceGasPrice,
    /// Simulate the payload and report its cost.
    DryRun(TransactionPayload),
    /// Run the payload as a read-only inspection and report what it returns.
    DevInspect(TransactionPayload),
    /// Sign the payload's canonical bytes for its sender, under the intent.
    Sign { payload: TransactionPayload, intent: Intent },
    /// Submit the payload with the signature for execution.
    Submit { payload: TransactionPayload, signature: Vec<u8> },
}

/// Mathematical model of a [`NodeRequest`].
pub ghost enum NodeRequestView {
    FetchObject(Address),
    ListCoins { owner: Address },
    ReferenceGasPrice,
    DryRun(TransactionPayloadView),
    DevInspect(TransactionPayloadView),
    Sign { payload: TransactionPayloadView, intent: Intent },
    Submit { payload: TransactionPayloadView, signature: Seq<u8> },
}

impl View for NodeRequest {
    type V = NodeRequestView;

    open spec fn view(&self) -> NodeRequestView {
        match self {
            NodeRequest::FetchObject(id) => NodeRequestView::FetchObject(*id),
            NodeRequest::ListCoins { owner } => NodeRequestView::ListCoins { owner: *owner },
            NodeRequest::ReferenceGasPrice => NodeRequestView::ReferenceGasPrice,
            NodeRequest::DryRun(payload) => NodeRequestView::DryRun(payload@),
            NodeRequest::DevInspect(payload) => NodeRequestView::DevInspect(payload@),
            NodeRequest::Sign { payload, intent } => NodeRequestView::Sign {
                payload: payload@,
                intent: *intent,
            },
            NodeRequest::Submit { payload, signature } => NodeRequestView::Submit {
                payload: payload@,
                signature: signature@,
            },
        }
    }
}

/// Why a submission did not end in an executed transaction.
#[derive(Clone, Debug, PartialEq, Eq)]
pub enum SubmissionFailure {
    /// The node rejected the transaction; nothing was executed.
    Rejected(String),
    /// The submission went out and no answer came back: the transaction
    /// may or may not have been executed.
    Unknown(String),
}

/// What came back from the node.  A text stands for the failure that the
/// transport or the node reported.
#[derive(Debug, PartialEq, Eq)]
pub enum NodeReply {
    /// Answer to a lookup.
    Object(ObjectLookup),
    /// Answer to a coin listing: the identifiers of the coins, in the order
    /// in which the node listed them.
    Coins(Result<Vec<Address>, String>),
    /// Answer to a price query.
    GasPrice(Result<u64, String>),
    /// Answer to a dry run.
    DryRun(Result<GasCostSummary, String>),
    /// Answer to an inspection: one buffer for each value that the call
    /// returned, in order.
    ReturnValues(Result<Vec<Vec<u8>>, String>),
    /// Answer of the keystore: the signature.
    Signature(Result<Vec<u8>, String>),
    /// Answer to a submission: the digest of the executed transaction.
    Submitted(Result<String, SubmissionFailure>),
}

} // verus!
