//! The read-only query engine: a call is built, run as an inspection that
//! changes nothing, and only then decoded.
//!
//! A query passes through its states in order.  The values that a call
//! returned exist only as [`ReturnValues`], which nothing but a finished
//! inspection hands out, so nothing can be decoded before it was executed.

use vstd::prelude::*;
use crate::error::{CanaryError, CanaryErrorView, ClientError, ClientErrorView};
use crate::node::{NodeReply, NodeRequest, NodeRequestView};
use crate::text::with_detail;
use crate::transaction::{
    check_identifier, invalid_identifier_text, valid_identifier, ESTIMATION_BUDGET,
};
use crate::types::{
    address_of, small_address_bytes, Address, CallArgument, MoveCall, MoveCallView, PendingOperation, PendingOperationView,
    TransactionPayload, TransactionPayloadView, arguments_view,
};

verus! {

/// The sender of an inspection: no funds move, so any address serves, and
/// by convention it is the address one.
pub open spec fn inspection_sender() -> Address {
    address_of(small_address_bytes(1))
}

/// Where a query stands.
#[derive(Clone, Copy, Debug, PartialEq, Eq)]
pub enum QueryStage {
    /// The call is built; the reference price is awaited.
    AwaitPrice,
    /// The inspection was sent; its result is awaited.
    AwaitResult,
}

/// A query under way: a built call that has not returned yet.
pub struct Inspection {
    call: MoveCall,
    stage: QueryStage,
}

/// Mathematical model of an [`Inspection`].
pub ghost struct InspectionView {
    pub call: MoveCallView,
    pub stage: QueryStage,
}

impl View for Inspection {
    type V = InspectionView;

    closed spec fn view(&self) -> InspectionView {
        InspectionView { call: self.call@, stage: self.stage }
    }
}

/// The buffers that an executed query returned, one for each value of the
/// function's return tuple, in order.
#[derive(Debug, PartialEq, Eq)]
pub struct ReturnValues {
    buffers: Vec<Vec<u8>>,
}

/// The contents of a list of buffers.
pub open spec fn buffers_view(buffers: Seq<Vec<u8>>) -> Seq<Seq<u8>> {
    Seq::new(buffers.len(), |i: int| buffers[i]@)
}

impl View for ReturnValues {
    type V = Seq<Seq<u8>>;

    closed spec fn view(&self) -> Seq<Seq<u8>> {
        buffers_view(self.buffers@)
    }
}

impl ReturnValues {
    /// The number of values that the call returned.
    pub fn len(&self) -> (res: usize)
        ensures
            res == self@.len(),
    {
        self.buffers.len()
    }

    /// The buffer of the value at position `index`.
    pub fn get(&self, index: usize) -> (res: &[u8])
        requires
            index < self@.len(),
        ensures
            res@ == self@[index as int],
    {
        self.buffers[index].as_slice()
    }
}

/// What one step of a query leads to.
pub enum QueryProgress {
    /// The node is to be asked again.
    Ask(Inspection, NodeRequest),
    /// The call was executed; its values can be decoded.
    Executed(ReturnValues),
    /// The query failed.
    Failed(CanaryError),
}

/// Mathematical model of a [`QueryProgress`].
pub ghost enum QueryProgressView {
    Ask(InspectionView, NodeRequestView),
    Executed(Seq<Seq<u8>>),
    Failed(CanaryErrorView),
}

impl View for QueryProgress {
    type V = QueryProgressView;

    open spec fn view(&self) -> QueryProgressView {
        match self {
            QueryProgress::Ask(inspection, request) => QueryProgressView::Ask(
                inspection@,
                request@,
            ),
            QueryProgress::Executed(values) => QueryProgressView::Executed(values@),
            QueryProgress::Failed(error) => QueryProgressView::Failed(error@),
        }
    }
}

/// A failed query with a fixed head and the detail that was reported.
pub open spec fn query_failure(head: Seq<char>, detail: Seq<char>) -> QueryProgressView {
    QueryProgressView::Failed(CanaryErrorView::Registry(head + detail))
}

/// A request that failed in transport: the network error with the
/// transport's words, unchanged.
pub open spec fn network_failure(text: Seq<char>) -> QueryProgressView {
    QueryProgressView::Failed(CanaryErrorView::Client(ClientErrorView::Network(text)))
}

impl InspectionView {
    /// The payload that is inspected: the one call, sent by the
    /// conventional sender, funded by nothing, under a placeholder budget.
    pub open spec fn payload(self, gas_price: u64) -> TransactionPayloadView {
        TransactionPayloadView {
            sender: inspection_sender(),
            gas_payment: None,
            operations: seq![PendingOperationView::Call(self.call)],
            gas_price,
            gas_budget: ESTIMATION_BUDGET,
        }
    }

    /// The step that this query takes on a reply.
    pub open spec fn step(self, reply: NodeReply) -> QueryProgressView {
        match (self.stage, reply) {
            (QueryStage::AwaitPrice, NodeReply::GasPrice(Err(text))) => network_failure(text@),
            (QueryStage::AwaitPrice, NodeReply::GasPrice(Ok(price))) => QueryProgressView::Ask(
                InspectionView { stage: QueryStage::AwaitResult, ..self },
                NodeRequestView::DevInspect(self.payload(price)),
            ),
            (QueryStage::AwaitResult, NodeReply::ReturnValues(Err(text))) => network_failure(
                text@,
            ),
            (QueryStage::AwaitResult, NodeReply::ReturnValues(Ok(buffers))) => {
                QueryProgressView::Executed(buffers_view(buffers@))
            },
            _ => query_failure("Unexpected reply: "@, "the node was asked for something else"@),
        }
    }
}

impl Inspection {
    /// Builds a query: a call of a view function with its arguments.
    ///
    /// The names are checked first, the module's before the function's.
    /// The first thing to ask the node is the reference price.
    pub fn start(package: Address, module: &str, function: &str, args: Vec<CallArgument>) -> (res:
        Result<(Inspection, NodeRequest), CanaryError>)
        ensures
            match res {
                Ok((inspection, request)) => {
                    &&& valid_identifier(module@)
                    &&& valid_identifier(function@)
                    &&& request@ == NodeRequestView::ReferenceGasPrice
                    &&& inspection@ == (InspectionView {
                        call: MoveCallView {
                            package,
                            module: module@,
                            function: function@,
                            arguments: arguments_view(args@),
                        },
                        stage: QueryStage::AwaitPrice,
                    })
                },
                Err(error) => if !valid_identifier(module@) {
                    error@ == CanaryErrorView::Registry(
                        "Invalid module name: "@ + invalid_identifier_text(module@),
                    )
                } else {
                    &&& !valid_identifier(function@)
                    &&& error@ == CanaryErrorView::Registry(
                        "Invalid function name: "@ + invalid_identifier_text(function@),
                    )
                },
            },
    {
        match check_identifier(module) {
            Ok(()) => {},
            Err(text) => {
                return Err(
                    CanaryError::Registry(with_detail("Invalid module name: ", text.as_str())),
                );
            },
        }
        match check_identifier(function) {
            Ok(()) => {},
            Err(text) => {
                return Err(
                    CanaryError::Registry(with_detail("Invalid function name: ", text.as_str())),
                );
            },
        }
        let call = MoveCall {
            package,
            module: String::from_str(module),
            function: String::from_str(function),
            arguments: args,
        };
        Ok((Inspection { call, stage: QueryStage::AwaitPrice }, NodeRequest::ReferenceGasPrice))
    }

    fn fail(head: &str, detail: &str) -> (res: QueryProgress)
        ensures
            res@ == query_failure(head@, detail@),
    {
        QueryProgress::Failed(CanaryError::Registry(with_detail(head, detail)))
    }

    /// Takes the node's reply to the last request and makes the next step.
    ///
    /// A reply of another kind than the one that was asked for fails the
    /// query.
    pub fn advance(self, reply: NodeReply) -> (res: QueryProgress)
        ensures
            res@ == self@.step(reply),
    {
        let sender = Address::small(1);
        match self.stage {
            QueryStage::AwaitPrice => match reply {
                NodeReply::GasPrice(Err(text)) => QueryProgress::Failed(
                    CanaryError::Client(ClientError::Network(text)),
                ),
                NodeReply::GasPrice(Ok(price)) => {
                    let mut operations: Vec<PendingOperation> = Vec::new();
                    operations.push(PendingOperation::Call(self.call.duplicate()));
                    assert(crate::types::operations_view(operations@) =~= seq![
                        PendingOperationView::Call(self.call@),
                    ]);
                    let payload = TransactionPayload {
                        sender,
                        gas_payment: None,
                        operations,
                        gas_price: price,
                        gas_budget: ESTIMATION_BUDGET,
                    };
                    QueryProgress::Ask(
                        Inspection { call: self.call, stage: QueryStage::AwaitResult },
                        NodeRequest::DevInspect(payload),
                    )
                },
                _ => Self::fail("Unexpected reply: ", "the node was asked for something else"),
            },
            QueryStage::AwaitResult => match reply {
                NodeReply::ReturnValues(Err(text)) => QueryProgress::Failed(
                    CanaryError::Client(ClientError::Network(text)),
                ),
                NodeReply::ReturnValues(Ok(buffers)) => QueryProgress::Executed(
                    ReturnValues { buffers },
                ),
                _ => Self::fail("Unexpected reply: ", "the node was asked for something else"),
            },
        }
    }
}

} // verus!
