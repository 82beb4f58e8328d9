//! The transaction assembler: an ordered queue of operations, and the
//! protocol that funds and prices it.
//!
//! Assembly never talks to a node itself.  [`CanaryTransactionBuilder::build`]
//! says what to ask first; [`PendingBuild::advance`] takes each reply and
//! either asks again, finishes with the payload, or fails.  The queue is
//! spent when the payload is produced: a failed assembly leaves it whole.

use vstd::prelude::*;
use crate::error::{TransactionError, TransactionErrorView};
use crate::node::{
    with_margin, GasCostSummary, Intent, NodeReply, NodeRequest, NodeRequestView, ObjectLookup,
    SubmissionFailure,
};
use crate::text::with_detail;
use crate::types::{
    duplicate_operations, operations_view, Address, CallArgument, MoveCall, MoveCallView,
    ObjectReference, PendingOperation, PendingOperationView, TransactionPayload,
    TransactionPayloadView, arguments_view,
};

verus! {

/// The budget of the throwaway transaction that a dry run simulates.
pub const ESTIMATION_BUDGET: u64 = 10_000_000;

/// Whether `c` is an ASCII letter.
pub open spec fn is_letter(c: char) -> bool {
    ('a' <= c && c <= 'z') || ('A' <= c && c <= 'Z')
}

/// Whether `c` may stand inside an identifier.
pub open spec fn is_identifier_char(c: char) -> bool {
    c == '_' || is_letter(c) || ('0' <= c && c <= '9')
}

/// Whether `s` names a module or a function: a letter, or an underscore
/// with something behind it, followed by letters, digits and underscores;
/// or the reserved name `<SELF>`.
pub open spec fn valid_identifier(s: Seq<char>) -> bool {
    ||| s == seq!['<', 'S', 'E', 'L', 'F', '>']
    ||| {
        &&& s.len() >= 1
        &&& is_letter(s[0]) || (s[0] == '_' && s.len() > 1)
        &&& forall|i: int| 1 <= i < s.len() ==> is_identifier_char(#[trigger] s[i])
    }
}

/// The words with which a name is refused.
pub open spec fn invalid_identifier_text(name: Seq<char>) -> Seq<char> {
    "Invalid identifier '"@ + name + "'"@
}

/// `Identifier::new` of move-core-types: the name is accepted exactly when
/// it is a valid identifier, and refused with a message that quotes it.
#[verifier::external_body]
pub(crate) fn check_identifier(name: &str) -> (res: Result<(), String>)
    ensures
        res is Ok <==> valid_identifier(name@),
        res matches Err(text) ==> text@ == invalid_identifier_text(name@),
{
    match move_core_types::identifier::Identifier::new(name) {
        Ok(_) => Ok(()),
        Err(e) => Err(e.to_string()),
    }
}

/// A builder for transactions: a signer, the operations queued so far, and
/// what the caller pinned for funding.
pub struct CanaryTransactionBuilder {
    signer: Address,
    operations: Vec<PendingOperation>,
    gas_budget: Option<u64>,
    gas_object: Option<Address>,
}

/// Mathematical model of a [`CanaryTransactionBuilder`].
pub ghost struct BuilderView {
    pub signer: Address,
    pub operations: Seq<PendingOperationView>,
    pub gas_budget: Option<u64>,
    pub gas_object: Option<Address>,
}

impl View for CanaryTransactionBuilder {
    type V = BuilderView;

    closed spec fn view(&self) -> BuilderView {
        BuilderView {
            signer: self.signer,
            operations: operations_view(self.operations@),
            gas_budget: self.gas_budget,
            gas_object: self.gas_object,
        }
    }
}

impl BuilderView {
    /// The builder with one more operation at the end of its queue.
    pub open spec fn queue(self, operation: PendingOperationView) -> BuilderView {
        BuilderView { operations: self.operations.push(operation), ..self }
    }
}

impl CanaryTransactionBuilder {
    /// Create a new transaction builder for the given signer, with an empty
    /// queue and nothing pinned.
    pub fn new(signer: Address) -> (res: CanaryTransactionBuilder)
        ensures
            res@ == (BuilderView {
                signer,
                operations: Seq::empty(),
                gas_budget: None,
                gas_object: None,
            }),
    {
        let res = CanaryTransactionBuilder {
            signer,
            operations: Vec::new(),
            gas_budget: None,
            gas_object: None,
        };
        assert(operations_view(res.operations@) =~= Seq::empty());
        res
    }

    fn enqueue(&mut self, operation: PendingOperation)
        ensures
            final(self)@ == old(self)@.queue(operation@),
    {
        self.operations.push(operation);
        assert(operations_view(self.operations@) =~= operations_view(old(self).operations@).push(
            operation@,
        ));
    }

    /// Add a contract call to the transaction.
    ///
    /// The names are checked first, the module's before the function's; a
    /// name that is no identifier fails the call and leaves the queue as it
    /// was.
    pub fn move_call(
        &mut self,
        package: Address,
        module: &str,
        function: &str,
        args: Vec<CallArgument>,
    ) -> (res: Result<&mut Self, TransactionError>)
        ensures
            match res {
                Ok(builder) => {
                    &&& valid_identifier(module@)
                    &&& valid_identifier(function@)
                    &&& builder@ == old(self)@.queue(
                        PendingOperationView::Call(
                            MoveCallView {
                                package,
                                module: module@,
                                function: function@,
                                arguments: arguments_view(args@),
                            },
                        ),
                    )
                    &&& *final(self) == *final(builder)
                },
                Err(error) => {
                    &&& final(self)@ == old(self)@
                    &&& if !valid_identifier(module@) {
                        error@ == TransactionErrorView::BuildError(
                            "Invalid module name: "@ + invalid_identifier_text(module@),
                        )
                    } else {
                        &&& !valid_identifier(function@)
                        &&& error@ == TransactionErrorView::BuildError(
                            "Invalid function name: "@ + invalid_identifier_text(function@),
                        )
                    }
                },
            },
    {
        match check_identifier(module) {
            Ok(()) => {},
            Err(text) => {
                return Err(
                    TransactionError::BuildError(
                        with_detail("Invalid module name: ", text.as_str()),
                    ),
                );
            },
        }
        match check_identifier(function) {
            Ok(()) => {},
            Err(text) => {
                return Err(
                    TransactionError::BuildError(
                        with_detail("Invalid function name: ", text.as_str()),
                    ),
                );
            },
        }
        let call = MoveCall {
            package,
            module: String::from_str(module),
            function: String::from_str(function),
            arguments: args,
        };
        self.enqueue(PendingOperation::Call(call));
        Ok(self)
    }

    /// Add a transfer of native currency to the transaction.
    pub fn transfer_sui(&mut self, recipient: Address, amount: u64) -> (res: Result<
        &mut Self,
        TransactionError,
    >)
        ensures
            res matches Ok(builder) && builder@ == old(self)@.queue(
                PendingOperationView::TransferSui { recipient, amount },
            ) && *final(self) == *final(builder),
    {
        self.enqueue(PendingOperation::TransferSui { recipient, amount });
        Ok(self)
    }

    /// Add the transfer of an object to the transaction, given what the
    /// lookup of that object returned.  An object that does not exist and a
    /// lookup that failed in transport each have their own error; both
    /// leave the queue as it was.
    pub fn transfer_object(
        &mut self,
        object_id: Address,
        object: ObjectLookup,
        recipient: Address,
    ) -> (res: Result<&mut Self, TransactionError>)
        ensures
            match object {
                ObjectLookup::Found(data) => res matches Ok(builder) && builder@ == old(
                    self,
                )@.queue(
                    PendingOperationView::TransferObject { recipient, object: data.reference },
                ) && *final(self) == *final(builder),
                ObjectLookup::Failed(text) => res matches Err(error) && final(self)@ == old(self)@
                    && error@ == TransactionErrorView::Network(text@),
                ObjectLookup::Missing(_) => res matches Err(error) && final(self)@ == old(self)@
                    && error@ == TransactionErrorView::ObjectNotFound(object_id),
            },
    {
        match object {
            ObjectLookup::Found(data) => {
                self.enqueue(PendingOperation::TransferObject { recipient, object: data.reference });
                Ok(self)
            },
            ObjectLookup::Failed(text) => Err(TransactionError::Network(text)),
            ObjectLookup::Missing(_) => Err(TransactionError::ObjectNotFound(object_id)),
        }
    }

    /// Set a custom gas budget for the transaction.
    pub fn set_gas_budget(&mut self, budget: u64) -> (res: &mut Self)
        ensures
            res@ == (BuilderView { gas_budget: Some(budget), ..old(self)@ }),
            *final(self) == *final(res),
    {
        self.gas_budget = Some(budget);
        self
    }

    /// Set a specific gas object to use for the transaction.
    pub fn set_gas_object(&mut self, gas_object: Address) -> (res: &mut Self)
        ensures
            res@ == (BuilderView { gas_object: Some(gas_object), ..old(self)@ }),
            *final(self) == *final(res),
    {
        self.gas_object = Some(gas_object);
        self
    }

    /// The estimated cost of a transaction, given what its dry run returned:
    /// computation and storage cost less the rebate.  A dry run that failed
    /// in transport is reported with the transport's words; figures that
    /// cannot be combined in 64 bits are refused.
    pub fn estimate_gas(&self, dry_run: Result<GasCostSummary, String>) -> (res: Result<
        u64,
        TransactionError,
    >)
        ensures
            match dry_run {
                Ok(summary) => if summary.in_range() {
                    res matches Ok(cost) && cost == summary.net()
                } else {
                    res matches Err(error) && error@ == TransactionErrorView::BuildError(
                        "Gas estimation failed: cost out of range"@,
                    )
                },
                Err(text) => res matches Err(error) && error@ == TransactionErrorView::Network(
                    text@,
                ),
            },
    {
        match dry_run {
            Ok(summary) => match summary.net_cost() {
                Some(cost) => Ok(cost),
                None => Err(
                    TransactionError::BuildError(
                        String::from_str("Gas estimation failed: cost out of range"),
                    ),
                ),
            },
            Err(text) => Err(TransactionError::Network(text)),
        }
    }
}

/// Where an assembly stands: which reply it waits for, and what it has
/// resolved so far.
#[derive(Clone, Copy, Debug, PartialEq, Eq)]
pub enum BuildStage {
    /// Waits for the signer's coins, to pick the funding object among them.
    AwaitCoins,
    /// Waits for the current reference of the funding object `id`.
    AwaitGasObject { id: Address },
    /// Waits for the price under which the cost is estimated.
    AwaitEstimatePrice { gas: ObjectReference },
    /// Waits for the dry run of the throwaway transaction.
    AwaitDryRun { gas: ObjectReference },
    /// Waits for the price of the final transaction.
    AwaitFinalPrice { gas: ObjectReference, budget: u64 },
}

/// An assembly under way.  The operations stay in the builder's queue until
/// the payload is produced, so that a failed assembly loses nothing.
#[derive(Clone, Copy, Debug, PartialEq, Eq)]
pub struct PendingBuild {
    pub sender: Address,
    pub pinned_budget: Option<u64>,
    pub stage: BuildStage,
}

/// What one step of an assembly leads to.
pub enum BuildProgress {
    /// The node is to be asked again.
    Ask(PendingBuild, NodeRequest),
    /// The payload is final.
    Done(TransactionPayload),
    /// The assembly failed.
    Failed(TransactionError),
}

/// Mathematical model of a [`BuildProgress`].
pub ghost enum BuildProgressView {
    Ask(PendingBuild, NodeRequestView),
    Done(TransactionPayloadView),
    Failed(TransactionErrorView),
}

impl View for BuildProgress {
    type V = BuildProgressView;

    open spec fn view(&self) -> BuildProgressView {
        match self {
            BuildProgress::Ask(build, request) => BuildProgressView::Ask(*build, request@),
            BuildProgress::Done(payload) => BuildProgressView::Done(payload@),
            BuildProgress::Failed(error) => BuildProgressView::Failed(error@),
        }
    }
}

/// A request that failed in transport: the transport's words, unchanged.
pub open spec fn network_failure(text: Seq<char>) -> BuildProgressView {
    BuildProgressView::Failed(TransactionErrorView::Network(text))
}

/// A failure that was found locally.
pub open spec fn local_failure(message: Seq<char>) -> BuildProgressView {
    BuildProgressView::Failed(TransactionErrorView::BuildError(message))
}

/// The failure for a reply that does not answer what was asked.
pub open spec fn unexpected_reply() -> TransactionErrorView {
    TransactionErrorView::BuildError(
        "Unexpected reply: "@ + "the node was asked for something else"@,
    )
}

impl PendingBuild {
    /// The same assembly at another stage.
    pub open spec fn at(self, stage: BuildStage) -> PendingBuild {
        PendingBuild { stage, ..self }
    }

    /// The payload of this assembly for the queued operations, funded by
    /// `gas`.
    pub open spec fn payload(
        self,
        operations: Seq<PendingOperationView>,
        gas: ObjectReference,
        gas_price: u64,
        gas_budget: u64,
    ) -> TransactionPayloadView {
        TransactionPayloadView {
            sender: self.sender,
            gas_payment: Some(gas),
            operations,
            gas_price,
            gas_budget,
        }
    }

    /// What follows once the funding object is known: with a pinned budget
    /// only the final price is missing, without one the cost is estimated
    /// first.
    pub open spec fn funded(self, gas: ObjectReference) -> BuildProgressView {
        match self.pinned_budget {
            Some(budget) => BuildProgressView::Ask(
                self.at(BuildStage::AwaitFinalPrice { gas, budget }),
                NodeRequestView::ReferenceGasPrice,
            ),
            None => BuildProgressView::Ask(
                self.at(BuildStage::AwaitEstimatePrice { gas }),
                NodeRequestView::ReferenceGasPrice,
            ),
        }
    }

    /// What follows a dry run: the budget is the reported cost with its
    /// margin, where both can be computed in 64 bits.
    pub open spec fn estimated(self, gas: ObjectReference, summary: GasCostSummary)
        -> BuildProgressView {
        if !summary.in_range() {
            local_failure("Gas estimation failed: cost out of range"@)
        } else if with_margin(summary.net()) > u64::MAX {
            local_failure("Gas estimation failed: budget out of range"@)
        } else {
            BuildProgressView::Ask(
                self.at(
                    BuildStage::AwaitFinalPrice { gas, budget: with_margin(summary.net()) as u64 },
                ),
                NodeRequestView::ReferenceGasPrice,
            )
        }
    }

    /// The step that this assembly takes on a reply, for the operations
    /// that are queued in the builder.
    pub open spec fn step(self, operations: Seq<PendingOperationView>, reply: NodeReply)
        -> BuildProgressView {
        match (self.stage, reply) {
            (BuildStage::AwaitCoins, NodeReply::Coins(Err(text))) => network_failure(text@),
            (BuildStage::AwaitCoins, NodeReply::Coins(Ok(coins))) => if coins@.len() == 0 {
                BuildProgressView::Failed(
                    TransactionErrorView::InsufficientGas { required: 0, available: 0 },
                )
            } else {
                BuildProgressView::Ask(
                    self.at(BuildStage::AwaitGasObject { id: coins@[0] }),
                    NodeRequestView::FetchObject(coins@[0]),
                )
            },
            (BuildStage::AwaitGasObject { id }, NodeReply::Object(ObjectLookup::Failed(text))) => {
                network_failure(text@)
            },
            (BuildStage::AwaitGasObject { id }, NodeReply::Object(ObjectLookup::Missing(_))) => {
                BuildProgressView::Failed(TransactionErrorView::ObjectNotFound(id))
            },
            (BuildStage::AwaitGasObject { id }, NodeReply::Object(ObjectLookup::Found(data))) => {
                self.funded(data.reference)
            },
            (BuildStage::AwaitEstimatePrice { gas }, NodeReply::GasPrice(Err(text))) => {
                network_failure(text@)
            },
            (BuildStage::AwaitEstimatePrice { gas }, NodeReply::GasPrice(Ok(price))) => {
                BuildProgressView::Ask(
                    self.at(BuildStage::AwaitDryRun { gas }),
                    NodeRequestView::DryRun(
                        self.payload(operations, gas, price, ESTIMATION_BUDGET),
                    ),
                )
            },
            (BuildStage::AwaitDryRun { gas }, NodeReply::DryRun(Err(text))) => network_failure(
                text@,
            ),
            (BuildStage::AwaitDryRun { gas }, NodeReply::DryRun(Ok(summary))) => self.estimated(
                gas,
                summary,
            ),
            (BuildStage::AwaitFinalPrice { gas, budget }, NodeReply::GasPrice(Err(text))) => {
                network_failure(text@)
            },
            (BuildStage::AwaitFinalPrice { gas, budget }, NodeReply::GasPrice(Ok(price))) => {
                BuildProgressView::Done(self.payload(operations, gas, price, budget))
            },
            _ => BuildProgressView::Failed(unexpected_reply()),
        }
    }
}

impl BuilderView {
    /// The assembly that a build of this builder starts: it waits for the
    /// pinned funding object or, without one, for the signer's coins.
    pub open spec fn started(self) -> (PendingBuild, NodeRequestView) {
        match self.gas_object {
            Some(id) => (
                PendingBuild {
                    sender: self.signer,
                    pinned_budget: self.gas_budget,
                    stage: BuildStage::AwaitGasObject { id },
                },
                NodeRequestView::FetchObject(id),
            ),
            None => (
                PendingBuild {
                    sender: self.signer,
                    pinned_budget: self.gas_budget,
                    stage: BuildStage::AwaitCoins,
                },
                NodeRequestView::ListCoins { owner: self.signer },
            ),
        }
    }

    /// The builder after its queue was spent on a payload.
    pub open spec fn spent(self) -> BuilderView {
        BuilderView { operations: Seq::empty(), ..self }
    }
}

/// The budget for an estimated cost: the estimate plus one fifth of it,
/// rounded down, where that fits into 64 bits.
pub fn budget_with_margin(estimate: u64) -> (res: Option<u64>)
    ensures
        res is Some <==> with_margin(estimate as int) <= u64::MAX,
        res matches Some(budget) ==> budget == with_margin(estimate as int) && budget >= estimate,
{
    let margin: u64 = estimate / 5;
    if margin > u64::MAX - estimate {
        None
    } else {
        Some(estimate + margin)
    }
}

impl CanaryTransactionBuilder {
    /// Build the transaction block.
    ///
    /// Starts the assembly and says what to ask the node first.  The queue
    /// stays with the builder: it is spent when the payload is produced,
    /// and not before.
    pub fn build(&self) -> (res: (PendingBuild, NodeRequest))
        ensures
            (res.0, res.1@) == self@.started(),
    {
        match self.gas_object {
            Some(id) => (
                PendingBuild {
                    sender: self.signer,
                    pinned_budget: self.gas_budget,
                    stage: BuildStage::AwaitGasObject { id },
                },
                NodeRequest::FetchObject(id),
            ),
            None => (
                PendingBuild {
                    sender: self.signer,
                    pinned_budget: self.gas_budget,
                    stage: BuildStage::AwaitCoins,
                },
                NodeRequest::ListCoins { owner: self.signer },
            ),
        }
    }

    fn take_operations(&mut self) -> (res: Vec<PendingOperation>)
        ensures
            operations_view(res@) == old(self)@.operations,
            final(self)@ == old(self)@.spent(),
    {
        let mut operations: Vec<PendingOperation> = Vec::new();
        std::mem::swap(&mut operations, &mut self.operations);
        assert(operations_view(self.operations@) =~= Seq::empty());
        operations
    }

    fn copy_operations(&self) -> (res: Vec<PendingOperation>)
        ensures
            operations_view(res@) == self@.operations,
    {
        duplicate_operations(&self.operations)
    }
}

impl PendingBuild {
    fn unexpected() -> (res: BuildProgress)
        ensures
            res@ == BuildProgressView::Failed(unexpected_reply()),
    {
        BuildProgress::Failed(
            TransactionError::BuildError(
                with_detail("Unexpected reply: ", "the node was asked for something else"),
            ),
        )
    }

    fn network(text: String) -> (res: BuildProgress)
        ensures
            res@ == network_failure(text@),
    {
        BuildProgress::Failed(TransactionError::Network(text))
    }

    fn local(message: &str) -> (res: BuildProgress)
        ensures
            res@ == local_failure(message@),
    {
        BuildProgress::Failed(TransactionError::BuildError(String::from_str(message)))
    }

    fn moved_to(self, stage: BuildStage) -> (res: PendingBuild)
        ensures
            res == self.at(stage),
    {
        PendingBuild { sender: self.sender, pinned_budget: self.pinned_budget, stage }
    }

    fn after_funding(self, gas: ObjectReference) -> (res: BuildProgress)
        ensures
            res@ == self.funded(gas),
    {
        match self.pinned_budget {
            Some(budget) => BuildProgress::Ask(
                self.moved_to(BuildStage::AwaitFinalPrice { gas, budget }),
                NodeRequest::ReferenceGasPrice,
            ),
            None => BuildProgress::Ask(
                self.moved_to(BuildStage::AwaitEstimatePrice { gas }),
                NodeRequest::ReferenceGasPrice,
            ),
        }
    }

    fn after_dry_run(self, gas: ObjectReference, summary: GasCostSummary) -> (res: BuildProgress)
        ensures
            res@ == self.estimated(gas, summary),
    {
        let cost = match summary.net_cost() {
            Some(cost) => cost,
            None => {
                return Self::local("Gas estimation failed: cost out of range");
            },
        };
        match budget_with_margin(cost) {
            Some(budget) => BuildProgress::Ask(
                self.moved_to(BuildStage::AwaitFinalPrice { gas, budget }),
                NodeRequest::ReferenceGasPrice,
            ),
            None => Self::local("Gas estimation failed: budget out of range"),
        }
    }

    /// Takes the node's reply to the last request and makes the next step.
    ///
    /// The builder's queue is spent exactly when the payload is produced;
    /// on every other step, a failure included, the builder is left as it
    /// was.  A reply of another kind than the one that was asked for fails
    /// the assembly.
    pub fn advance(self, builder: &mut CanaryTransactionBuilder, reply: NodeReply) -> (res:
        BuildProgress)
        ensures
            res@ == self.step(old(builder)@.operations, reply),
            res is Done ==> final(builder)@ == old(builder)@.spent(),
            !(res is Done) ==> final(builder)@ == old(builder)@,
    {
        match self.stage {
            BuildStage::AwaitCoins => match reply {
                NodeReply::Coins(Err(text)) => Self::network(text),
                NodeReply::Coins(Ok(coins)) => {
                    if coins.len() == 0 {
                        BuildProgress::Failed(
                            TransactionError::InsufficientGas { required: 0, available: 0 },
                        )
                    } else {
                        let first = coins[0];
                        BuildProgress::Ask(
                            self.moved_to(BuildStage::AwaitGasObject { id: first }),
                            NodeRequest::FetchObject(first),
                        )
                    }
                },
                _ => Self::unexpected(),
            },
            BuildStage::AwaitGasObject { id } => match reply {
                NodeReply::Object(ObjectLookup::Failed(text)) => Self::network(text),
                NodeReply::Object(ObjectLookup::Missing(_)) => BuildProgress::Failed(
                    TransactionError::ObjectNotFound(id),
                ),
                NodeReply::Object(ObjectLookup::Found(data)) => self.after_funding(data.reference),
                _ => Self::unexpected(),
            },
            BuildStage::AwaitEstimatePrice { gas } => match reply {
                NodeReply::GasPrice(Err(text)) => Self::network(text),
                NodeReply::GasPrice(Ok(price)) => {
                    let payload = TransactionPayload {
                        sender: self.sender,
                        gas_payment: Some(gas),
                        operations: builder.copy_operations(),
                        gas_price: price,
                        gas_budget: ESTIMATION_BUDGET,
                    };
                    BuildProgress::Ask(
                        self.moved_to(BuildStage::AwaitDryRun { gas }),
                        NodeRequest::DryRun(payload),
                    )
                },
                _ => Self::unexpected(),
            },
            BuildStage::AwaitDryRun { gas } => match reply {
                NodeReply::DryRun(Err(text)) => Self::network(text),
                NodeReply::DryRun(Ok(summary)) => self.after_dry_run(gas, summary),
                _ => Self::unexpected(),
            },
            BuildStage::AwaitFinalPrice { gas, budget } => match reply {
                NodeReply::GasPrice(Err(text)) => Self::network(text),
                NodeReply::GasPrice(Ok(price)) => {
                    let operations = builder.take_operations();
                    BuildProgress::Done(
                        TransactionPayload {
                            sender: self.sender,
                            gas_payment: Some(gas),
                            operations,
                            gas_price: price,
                            gas_budget: budget,
                        },
                    )
                },
                _ => Self::unexpected(),
            },
        }
    }
}

/// A transaction that was executed.
#[derive(Clone, Debug, PartialEq, Eq)]
pub struct TransactionReceipt {
    /// The digest under which the ledger knows the transaction.
    pub digest: String,
}

/// An execution under way: assembly, then signature, then submission.
pub enum Execution {
    /// The payload is being assembled.
    Building(PendingBuild),
    /// The payload is final and waits for its signature.
    AwaitSignature(TransactionPayload),
    /// The signed payload was submitted.
    AwaitSubmission,
}

/// Mathematical model of an [`Execution`].
pub ghost enum ExecutionView {
    Building(PendingBuild),
    AwaitSignature(TransactionPayloadView),
    AwaitSubmission,
}

impl View for Execution {
    type V = ExecutionView;

    open spec fn view(&self) -> ExecutionView {
        match self {
            Execution::Building(build) => ExecutionView::Building(*build),
            Execution::AwaitSignature(payload) => ExecutionView::AwaitSignature(payload@),
            Execution::AwaitSubmission => ExecutionView::AwaitSubmission,
        }
    }
}

/// What one step of an execution leads to.
pub enum ExecutionProgress {
    /// The node or the keystore is to be asked again.
    Ask(Execution, NodeRequest),
    /// The transaction was executed.
    Done(TransactionReceipt),
    /// The execution failed.
    Failed(TransactionError),
}

/// Mathematical model of an [`ExecutionProgress`].
pub ghost enum ExecutionProgressView {
    Ask(ExecutionView, NodeRequestView),
    Done(Seq<char>),
    Failed(TransactionErrorView),
}

impl View for ExecutionProgress {
    type V = ExecutionProgressView;

    open spec fn view(&self) -> ExecutionProgressView {
        match self {
            ExecutionProgress::Ask(execution, request) => ExecutionProgressView::Ask(
                execution@,
                request@,
            ),
            ExecutionProgress::Done(receipt) => ExecutionProgressView::Done(receipt.digest@),
            ExecutionProgress::Failed(error) => ExecutionProgressView::Failed(error@),
        }
    }
}

/// The context under which a transaction is signed.
pub open spec fn transaction_intent() -> Intent {
    Intent { scope: 0, version: 0, app_id: 0 }
}

impl ExecutionView {
    /// The step that an execution takes on a reply, for the operations that
    /// are queued in the builder.  While the payload is assembled the
    /// assembly's own steps are taken; the finished payload is signed as
    /// it stands, and submitted with that signature.  A submission that was
    /// rejected and one whose outcome is not known end in different
    /// errors; neither is tried again.
    pub open spec fn step(self, operations: Seq<PendingOperationView>, reply: NodeReply)
        -> ExecutionProgressView {
        match self {
            ExecutionView::Building(build) => match build.step(operations, reply) {
                BuildProgressView::Ask(next, request) => ExecutionProgressView::Ask(
                    ExecutionView::Building(next),
                    request,
                ),
                BuildProgressView::Done(payload) => ExecutionProgressView::Ask(
                    ExecutionView::AwaitSignature(payload),
                    NodeRequestView::Sign { payload, intent: transaction_intent() },
                ),
                BuildProgressView::Failed(error) => ExecutionProgressView::Failed(error),
            },
            ExecutionView::AwaitSignature(payload) => match reply {
                NodeReply::Signature(Err(text)) => ExecutionProgressView::Failed(
                    TransactionErrorView::BuildError("Failed to sign transaction: "@ + text@),
                ),
                NodeReply::Signature(Ok(signature)) => ExecutionProgressView::Ask(
                    ExecutionView::AwaitSubmission,
                    NodeRequestView::Submit { payload, signature: signature@ },
                ),
                _ => ExecutionProgressView::Failed(unexpected_reply()),
            },
            ExecutionView::AwaitSubmission => match reply {
                NodeReply::Submitted(Err(SubmissionFailure::Rejected(text))) => {
                    ExecutionProgressView::Failed(TransactionErrorView::ExecutionError(text@))
                },
                NodeReply::Submitted(Err(SubmissionFailure::Unknown(text))) => {
                    ExecutionProgressView::Failed(TransactionErrorView::UnknownOutcome(text@))
                },
                NodeReply::Submitted(Ok(digest)) => ExecutionProgressView::Done(digest@),
                _ => ExecutionProgressView::Failed(unexpected_reply()),
            },
        }
    }

    /// Whether this step produces the payload, and so spends the queue.
    pub open spec fn produces_payload(self, operations: Seq<PendingOperationView>, reply: NodeReply)
        -> bool {
        self matches ExecutionView::Building(build) && build.step(operations, reply) is Done
    }
}

impl CanaryTransactionBuilder {
    /// Execute the transaction: build it, have it signed, and submit it.
    ///
    /// Starts the execution and says what to ask the node first.  The queue
    /// stays with the builder until the payload is produced.
    pub fn execute(&self) -> (res: (Execution, NodeRequest))
        ensures
            (res.0@, res.1@) == (ExecutionView::Building(self@.started().0), self@.started().1),
    {
        let (build, request) = self.build();
        (Execution::Building(build), request)
    }
}

impl Execution {
    fn unexpected() -> (res: ExecutionProgress)
        ensures
            res@ == ExecutionProgressView::Failed(unexpected_reply()),
    {
        ExecutionProgress::Failed(
            TransactionError::BuildError(
                with_detail("Unexpected reply: ", "the node was asked for something else"),
            ),
        )
    }

    /// Takes the reply to the last request and makes the next step.
    ///
    /// The builder's queue is spent exactly when the payload is produced.
    /// Nothing is retried: a failed signature, a rejected submission and a
    /// submission of unknown outcome each end the execution.
    pub fn advance(self, builder: &mut CanaryTransactionBuilder, reply: NodeReply) -> (res:
        ExecutionProgress)
        ensures
            res@ == self@.step(old(builder)@.operations, reply),
            final(builder)@ == if self@.produces_payload(old(builder)@.operations, reply) {
                old(builder)@.spent()
            } else {
                old(builder)@
            },
    {
        match self {
            Execution::Building(build) => match build.advance(builder, reply) {
                BuildProgress::Ask(next, request) => ExecutionProgress::Ask(
                    Execution::Building(next),
                    request,
                ),
                BuildProgress::Done(payload) => {
                    let to_sign = payload.duplicate();
                    ExecutionProgress::Ask(
                        Execution::AwaitSignature(payload),
                        NodeRequest::Sign { payload: to_sign, intent: Intent::sui_transaction() },
                    )
                },
                BuildProgress::Failed(error) => ExecutionProgress::Failed(error),
            },
            Execution::AwaitSignature(payload) => match reply {
                NodeReply::Signature(Err(text)) => ExecutionProgress::Failed(
                    TransactionError::BuildError(
                        with_detail("Failed to sign transaction: ", text.as_str()),
                    ),
                ),
                NodeReply::Signature(Ok(signature)) => ExecutionProgress::Ask(
                    Execution::AwaitSubmission,
                    NodeRequest::Submit { payload, signature },
                ),
                _ => Self::unexpected(),
            },
            Execution::AwaitSubmission => match reply {
                NodeReply::Submitted(Err(SubmissionFailure::Rejected(text))) => {
                    ExecutionProgress::Failed(TransactionError::ExecutionError(text))
                },
                NodeReply::Submitted(Err(SubmissionFailure::Unknown(text))) => {
                    ExecutionProgress::Failed(TransactionError::UnknownOutcome(text))
                },
                NodeReply::Submitted(Ok(digest)) => ExecutionProgress::Done(
                    TransactionReceipt { digest },
                ),
                _ => Self::unexpected(),
            },
        }
    }
}

/// Signing and submission never change the payload: what is submitted is
/// the payload that was signed, with the signature that came back.
pub proof fn lemma_submitted_payload_is_signed_payload(
    payload: TransactionPayloadView,
    operations: Seq<PendingOperationView>,
    signature: Vec<u8>,
)
    ensures
        ExecutionView::AwaitSignature(payload).step(
            operations,
            NodeReply::Signature(Ok(signature)),
        ) == ExecutionProgressView::Ask(
            ExecutionView::AwaitSubmission,
            NodeRequestView::Submit { payload, signature: signature@ },
        ),
{
}

/// The margin never lowers an estimate: a budget derived from a cost is at
/// least that cost, and exceeds it by exactly a fifth of it, rounded down.
pub proof fn lemma_margin_covers_estimate(estimate: int)
    requires
        0 <= estimate,
    ensures
        with_margin(estimate) >= estimate,
        with_margin(estimate) - estimate == estimate / 5,
        5 * (with_margin(estimate) - estimate) <= estimate < 5 * (with_margin(estimate) - estimate)
            + 5,
{
}

/// An assembly without a pinned budget finishes with a budget that covers
/// the cost which its dry run reported: whatever the final price, the
/// payload's budget is that cost plus a fifth of it, rounded down, and the
/// payload holds the queued operations.
pub proof fn lemma_estimated_budget_covers_cost(
    build: PendingBuild,
    operations: Seq<PendingOperationView>,
    gas: ObjectReference,
    summary: GasCostSummary,
    price: u64,
)
    requires
        build.stage == (BuildStage::AwaitDryRun { gas }),
        summary.in_range(),
        with_margin(summary.net()) <= u64::MAX,
    ensures
        ({
            &&& build.step(operations, NodeReply::DryRun(Ok(summary))) matches BuildProgressView::Ask(
                next,
                request,
            )
            &&& request == NodeRequestView::ReferenceGasPrice
            &&& next.step(operations, NodeReply::GasPrice(Ok(price))) matches BuildProgressView::Done(
                payload,
            )
            &&& payload.gas_budget >= summary.net()
            &&& payload.gas_budget == summary.net() + summary.net() / 5
            &&& payload.operations == operations
            &&& payload.sender == build.sender
            &&& payload.gas_payment == Some(gas)
            &&& payload.gas_price == price
        }),
{
}

/// A pinned budget is used as it stands: once the funding object is known,
/// only the price is asked for, and the payload carries the pinned value.
pub proof fn lemma_pinned_budget_is_kept(
    build: PendingBuild,
    operations: Seq<PendingOperationView>,
    gas: ObjectReference,
    budget: u64,
    price: u64,
)
    requires
        build.pinned_budget == Some(budget),
    ensures
        ({
            &&& build.funded(gas) matches BuildProgressView::Ask(next, request)
            &&& request == NodeRequestView::ReferenceGasPrice
            &&& next.step(operations, NodeReply::GasPrice(Ok(price))) matches BuildProgressView::Done(
                payload,
            )
            &&& payload.gas_budget == budget
            &&& payload.operations == operations
        }),
{
}

/// A payload is produced by one step only: the final price arriving.  Every
/// step that fails, and every step that asks again, produces none, so the
/// queue outlives any failure of funding, pricing or estimation.
pub proof fn lemma_payload_only_at_final_price(
    build: PendingBuild,
    operations: Seq<PendingOperationView>,
    reply: NodeReply,
)
    ensures
        build.step(operations, reply) is Done <==> (build.stage is AwaitFinalPrice
            && reply matches NodeReply::GasPrice(Ok(_))),
        build.step(operations, reply) matches BuildProgressView::Done(payload)
            ==> payload.operations == operations,
{
}

/// A build spends the queue when it succeeds: the builder that is left
/// holds no operation, and a second assembly on it, whatever it is told,
/// can only produce a payload without operations.
pub proof fn lemma_second_build_is_empty(
    builder: BuilderView,
    second: PendingBuild,
    reply: NodeReply,
)
    ensures
        builder.spent().operations == Seq::<PendingOperationView>::empty(),
        builder.spent().started() == builder.started(),
        second.step(builder.spent().operations, reply) matches BuildProgressView::Done(payload)
            ==> payload.operations == Seq::<PendingOperationView>::empty(),
{
}

} // verus!
