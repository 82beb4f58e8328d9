//! The operations of the Canary contract: joining the registry, storing,
//! updating and deleting a blob record, and the queries that read the
//! contract's state.
//!
//! Every operation is prepared in the same way.  It names the objects that
//! it needs, in a fixed order; each is looked up and read in its role; and
//! when all are known the call is laid out, argument by argument, in the
//! order of the contract function's signature.

use vstd::prelude::*;
use vstd::utf8::encode_utf8;
use crate::codec::{
    address_failure, decode_address, decode_bool, decode_failure, decode_text, decode_u64,
    bool_failure, encode_failure, encodes_text, is_bool_encoding, little_endian,
    sequence_encoding, text_failure, u64_failure, MAX_SEQUENCE_LENGTH,
};
use crate::error::{CanaryError, CanaryErrorView, ClientError, ClientErrorView};
use crate::node::{NodeReply, NodeRequest, NodeRequestView, ObjectLookup};
use crate::query::ReturnValues;
use crate::resolver::{resolution_view, resolve, ObjectRole, Resolved};
use crate::text::{decimal_digits, decimal_text, with_detail};
use crate::types::{
    address_of, arguments_view, small_address_bytes, Address, CallArgument, CallArgumentView,
    MoveCall, MoveCallView, ObjectArgument, ObjectReference, ADDRESS_LENGTH,
};

verus! {

/// The last byte of the address of the ledger's clock object.
pub const CLOCK_OBJECT: u8 = 6;

/// The version at which the clock became shared.
pub const CLOCK_SHARED_VERSION: u64 = 1;

/// A contract operation, with what the caller gives for it.
#[derive(Clone, Debug, PartialEq, Eq)]
pub enum CanaryOperation {
    /// Join the registry under a domain name, paying with the signer's
    /// first coin.
    JoinRegistry { signer: Address, registry_id: Address, domain: String, payment_amount: u64 },
    /// Store a blob record for a domain.
    StoreBlob {
        registry_id: Address,
        admin_cap_id: Address,
        domain: String,
        contract_blob_id: Address,
        explain_blob_id: Address,
        package_id: Address,
    },
    /// Point a blob record at new blobs.
    UpdateBlob {
        registry_id: Address,
        admin_cap_id: Address,
        canary_blob_id: Address,
        new_contract_blob_id: Address,
        new_explain_blob_id: Address,
    },
    /// Delete a blob record.
    DeleteCanaryBlob { registry_id: Address, admin_cap_id: Address, canary_blob_id: Address },
    /// Ask for the address under which a domain's record of a package lives.
    DeriveCanaryAddress { registry_id: Address, domain: String, package_id: Address },
    /// Ask for all fields of a blob record.
    QueryCanaryBlob { canary_blob_id: Address },
    /// Ask for the registry's admin.
    QueryRegistryAdmin { registry_id: Address },
    /// Ask whether an address is a member.
    QueryIsMember { registry_id: Address, member: Address },
    /// Ask for a member's record; the contract's package is known already.
    QueryMemberInfo { package: Address, registry_id: Address, member: Address },
}

/// What a step of a plan looks up.
#[derive(Clone, Copy, Debug, PartialEq, Eq)]
pub enum PlanTarget {
    /// The object with this identifier.
    Object(Address),
    /// The first coin that the node lists for this owner.
    FirstCoinOf(Address),
}

impl CanaryOperation {
    /// The objects that the operation needs, in the order in which they are
    /// looked up, each with the role in which it is read.
    pub open spec fn plan(self) -> Seq<(PlanTarget, ObjectRole)> {
        match self {
            CanaryOperation::JoinRegistry { signer, registry_id, .. } => seq![
                (PlanTarget::Object(registry_id), ObjectRole::RegistryForJoin),
                (PlanTarget::FirstCoinOf(signer), ObjectRole::PaymentCoin),
            ],
            CanaryOperation::StoreBlob { registry_id, admin_cap_id, .. } => seq![
                (PlanTarget::Object(registry_id), ObjectRole::Registry),
                (PlanTarget::Object(admin_cap_id), ObjectRole::AdminCap),
            ],
            CanaryOperation::UpdateBlob { registry_id, admin_cap_id, canary_blob_id, .. } => seq![
                (PlanTarget::Object(canary_blob_id), ObjectRole::CanaryBlob),
                (PlanTarget::Object(admin_cap_id), ObjectRole::AdminCap),
                (PlanTarget::Object(registry_id), ObjectRole::RegistryVersion),
            ],
            CanaryOperation::DeleteCanaryBlob { registry_id, admin_cap_id, canary_blob_id } => seq![
                (PlanTarget::Object(canary_blob_id), ObjectRole::CanaryBlob),
                (PlanTarget::Object(registry_id), ObjectRole::RegistryVersion),
                (PlanTarget::Object(admin_cap_id), ObjectRole::AdminCap),
            ],
            CanaryOperation::DeriveCanaryAddress { registry_id, .. } => seq![
                (PlanTarget::Object(registry_id), ObjectRole::Registry),
                (PlanTarget::Object(registry_id), ObjectRole::SharedVersion),
            ],
            CanaryOperation::QueryCanaryBlob { canary_blob_id } => seq![
                (PlanTarget::Object(canary_blob_id), ObjectRole::CanaryBlob),
                (PlanTarget::Object(canary_blob_id), ObjectRole::SharedVersion),
            ],
            CanaryOperation::QueryRegistryAdmin { registry_id } => seq![
                (PlanTarget::Object(registry_id), ObjectRole::Registry),
                (PlanTarget::Object(registry_id), ObjectRole::RegistryVersion),
            ],
            CanaryOperation::QueryIsMember { registry_id, .. } => seq![
                (PlanTarget::Object(registry_id), ObjectRole::Registry),
                (PlanTarget::Object(registry_id), ObjectRole::RegistryVersion),
            ],
            CanaryOperation::QueryMemberInfo { registry_id, .. } => seq![
                (PlanTarget::Object(registry_id), ObjectRole::RegistryVersion),
            ],
        }
    }

    /// The step of the plan at position `k`, if the plan is that long.
    pub fn plan_step(&self, k: usize) -> (res: Option<(PlanTarget, ObjectRole)>)
        ensures
            res is Some <==> k < self.plan().len(),
            res matches Some(step) ==> step == self.plan()[k as int],
            self.plan().len() <= 3,
    {
        match self {
            CanaryOperation::JoinRegistry { signer, registry_id, .. } => if k == 0 {
                Some((PlanTarget::Object(*registry_id), ObjectRole::RegistryForJoin))
            } else if k == 1 {
                Some((PlanTarget::FirstCoinOf(*signer), ObjectRole::PaymentCoin))
            } else {
                None
            },
            CanaryOperation::StoreBlob { registry_id, admin_cap_id, .. } => if k == 0 {
                Some((PlanTarget::Object(*registry_id), ObjectRole::Registry))
            } else if k == 1 {
                Some((PlanTarget::Object(*admin_cap_id), ObjectRole::AdminCap))
            } else {
                None
            },
            CanaryOperation::UpdateBlob { registry_id, admin_cap_id, canary_blob_id, .. } => if k
                == 0 {
                Some((PlanTarget::Object(*canary_blob_id), ObjectRole::CanaryBlob))
            } else if k == 1 {
                Some((PlanTarget::Object(*admin_cap_id), ObjectRole::AdminCap))
            } else if k == 2 {
                Some((PlanTarget::Object(*registry_id), ObjectRole::RegistryVersion))
            } else {
                None
            },
            CanaryOperation::DeleteCanaryBlob { registry_id, admin_cap_id, canary_blob_id } => if k
                == 0 {
                Some((PlanTarget::Object(*canary_blob_id), ObjectRole::CanaryBlob))
            } else if k == 1 {
                Some((PlanTarget::Object(*registry_id), ObjectRole::RegistryVersion))
            } else if k == 2 {
                Some((PlanTarget::Object(*admin_cap_id), ObjectRole::AdminCap))
            } else {
                None
            },
            CanaryOperation::DeriveCanaryAddress { registry_id, .. } => if k == 0 {
                Some((PlanTarget::Object(*registry_id), ObjectRole::Registry))
            } else if k == 1 {
                Some((PlanTarget::Object(*registry_id), ObjectRole::SharedVersion))
            } else {
                None
            },
            CanaryOperation::QueryCanaryBlob { canary_blob_id } => if k == 0 {
                Some((PlanTarget::Object(*canary_blob_id), ObjectRole::CanaryBlob))
            } else if k == 1 {
                Some((PlanTarget::Object(*canary_blob_id), ObjectRole::SharedVersion))
            } else {
                None
            },
            CanaryOperation::QueryRegistryAdmin { registry_id } => if k == 0 {
                Some((PlanTarget::Object(*registry_id), ObjectRole::Registry))
            } else if k == 1 {
                Some((PlanTarget::Object(*registry_id), ObjectRole::RegistryVersion))
            } else {
                None
            },
            CanaryOperation::QueryIsMember { registry_id, .. } => if k == 0 {
                Some((PlanTarget::Object(*registry_id), ObjectRole::Registry))
            } else if k == 1 {
                Some((PlanTarget::Object(*registry_id), ObjectRole::RegistryVersion))
            } else {
                None
            },
            CanaryOperation::QueryMemberInfo { registry_id, .. } => if k == 0 {
                Some((PlanTarget::Object(*registry_id), ObjectRole::RegistryVersion))
            } else {
                None
            },
        }
    }

    /// The module that holds the operation's function.
    pub open spec fn module(self) -> Seq<char> {
        match self {
            CanaryOperation::JoinRegistry { .. }
            | CanaryOperation::QueryRegistryAdmin { .. }
            | CanaryOperation::QueryIsMember { .. }
            | CanaryOperation::QueryMemberInfo { .. } => "member_registry"@,
            _ => "pkg_storage"@,
        }
    }

    /// The contract function that the operation calls.
    pub open spec fn function(self) -> Seq<char> {
        match self {
            CanaryOperation::JoinRegistry { .. } => "join_registry"@,
            CanaryOperation::StoreBlob { .. } => "store_blob"@,
            CanaryOperation::UpdateBlob { .. } => "update_blob"@,
            CanaryOperation::DeleteCanaryBlob { .. } => "delete_canary_blob"@,
            CanaryOperation::DeriveCanaryAddress { .. } => "derive_canary_address"@,
            CanaryOperation::QueryCanaryBlob { .. } => "get_full_info"@,
            CanaryOperation::QueryRegistryAdmin { .. } => "get_admin"@,
            CanaryOperation::QueryIsMember { .. } => "is_member"@,
            CanaryOperation::QueryMemberInfo { .. } => "get_member_info"@,
        }
    }

    /// Whether the operation changes the ledger and so has to be signed and
    /// submitted; the others are read by inspection.
    pub open spec fn mutates(self) -> bool {
        matches!(
            self,
            CanaryOperation::JoinRegistry { .. } | CanaryOperation::StoreBlob { .. }
                | CanaryOperation::UpdateBlob { .. } | CanaryOperation::DeleteCanaryBlob { .. }
        )
    }

    /// Whether the operation has to be signed and submitted.
    pub fn is_mutation(&self) -> (res: bool)
        ensures
            res == self.mutates(),
    {
        match self {
            CanaryOperation::JoinRegistry { .. } => true,
            CanaryOperation::StoreBlob { .. } => true,
            CanaryOperation::UpdateBlob { .. } => true,
            CanaryOperation::DeleteCanaryBlob { .. } => true,
            _ => false,
        }
    }

    fn names(&self) -> (res: (&'static str, &'static str))
        ensures
            res.0@ == self.module(),
            res.1@ == self.function(),
    {
        match self {
            CanaryOperation::JoinRegistry { .. } => ("member_registry", "join_registry"),
            CanaryOperation::StoreBlob { .. } => ("pkg_storage", "store_blob"),
            CanaryOperation::UpdateBlob { .. } => ("pkg_storage", "update_blob"),
            CanaryOperation::DeleteCanaryBlob { .. } => ("pkg_storage", "delete_canary_blob"),
            CanaryOperation::DeriveCanaryAddress { .. } => ("pkg_storage", "derive_canary_address"),
            CanaryOperation::QueryCanaryBlob { .. } => ("pkg_storage", "get_full_info"),
            CanaryOperation::QueryRegistryAdmin { .. } => ("member_registry", "get_admin"),
            CanaryOperation::QueryIsMember { .. } => ("member_registry", "is_member"),
            CanaryOperation::QueryMemberInfo { .. } => ("member_registry", "get_member_info"),
        }
    }
}

impl Resolved {
    /// The version by which the object is named when it is passed as a
    /// shared object: the one at which it became shared, where the role
    /// read it, and the current one otherwise.
    pub open spec fn shared_version(self) -> u64 {
        match self.initial_shared_version {
            Some(version) => version,
            None => self.reference.version,
        }
    }

    /// The version by which the object is named as a shared object.
    pub fn version_as_shared(&self) -> (res: u64)
        ensures
            res == self.shared_version(),
    {
        match self.initial_shared_version {
            Some(version) => version,
            None => self.reference.version,
        }
    }
}

/// A shared object as an argument.
pub open spec fn shared_argument(id: Address, version: u64, mutable: bool) -> CallArgumentView {
    CallArgumentView::Object(
        ObjectArgument::Shared { id, initial_shared_version: version, mutable },
    )
}

/// An owned object as an argument.
pub open spec fn owned_argument(reference: ObjectReference) -> CallArgumentView {
    CallArgumentView::Object(ObjectArgument::ImmOrOwned(reference))
}

/// The clock as an argument: shared, read only.
pub open spec fn clock_argument() -> CallArgumentView {
    shared_argument(address_of(small_address_bytes(CLOCK_OBJECT)), CLOCK_SHARED_VERSION, false)
}

/// A text as an argument, where it is short enough to be encoded.
pub open spec fn text_argument(text: Seq<char>) -> Result<CallArgumentView, CanaryErrorView> {
    if encode_utf8(text).len() <= MAX_SEQUENCE_LENGTH {
        Ok(CallArgumentView::Pure(sequence_encoding(encode_utf8(text))))
    } else {
        Err(encode_failure(encode_utf8(text).len()))
    }
}

/// The arguments that follow a text, once the text is encoded.
pub open spec fn after_text(
    head: Seq<CallArgumentView>,
    text: Seq<char>,
    tail: Seq<CallArgumentView>,
) -> Result<Seq<CallArgumentView>, CanaryErrorView> {
    match text_argument(text) {
        Ok(argument) => Ok(head.push(argument) + tail),
        Err(error) => Err(error),
    }
}

impl CanaryOperation {
    /// The package whose function is called: the one that was read from
    /// the first object of the plan, or the one that the caller gave.
    pub open spec fn package(self, resolved: Seq<Resolved>) -> Option<Address> {
        match self {
            CanaryOperation::QueryMemberInfo { package, .. } => Some(package),
            _ => resolved[0].package,
        }
    }

    /// The arguments of the call, in the order of the function's
    /// signature, given what the plan resolved.
    pub open spec fn arguments(self, resolved: Seq<Resolved>) -> Result<
        Seq<CallArgumentView>,
        CanaryErrorView,
    > {
        match self {
            CanaryOperation::JoinRegistry { registry_id, domain, .. } => after_text(
                seq![
                    shared_argument(registry_id, resolved[0].shared_version(), true),
                    owned_argument(resolved[1].reference),
                ],
                domain@,
                seq![clock_argument()],
            ),
            CanaryOperation::StoreBlob {
                registry_id,
                domain,
                contract_blob_id,
                explain_blob_id,
                package_id,
                ..
            } => after_text(
                seq![
                    shared_argument(registry_id, resolved[0].shared_version(), true),
                    owned_argument(resolved[1].reference),
                ],
                domain@,
                seq![
                    CallArgumentView::Pure(contract_blob_id@),
                    CallArgumentView::Pure(explain_blob_id@),
                    CallArgumentView::Pure(package_id@),
                    clock_argument(),
                ],
            ),
            CanaryOperation::UpdateBlob {
                registry_id,
                canary_blob_id,
                new_contract_blob_id,
                new_explain_blob_id,
                ..
            } => Ok(
                seq![
                    shared_argument(registry_id, resolved[2].shared_version(), false),
                    owned_argument(resolved[1].reference),
                    shared_argument(canary_blob_id, resolved[0].shared_version(), true),
                    CallArgumentView::Pure(new_contract_blob_id@),
                    CallArgumentView::Pure(new_explain_blob_id@),
                    clock_argument(),
                ],
            ),
            CanaryOperation::DeleteCanaryBlob { registry_id, .. } => Ok(
                seq![
                    shared_argument(registry_id, resolved[1].shared_version(), false),
                    owned_argument(resolved[2].reference),
                    owned_argument(resolved[0].reference),
                ],
            ),
            CanaryOperation::DeriveCanaryAddress { registry_id, domain, package_id } => after_text(
                seq![shared_argument(registry_id, resolved[1].shared_version(), false)],
                domain@,
                seq![CallArgumentView::Pure(package_id@)],
            ),
            CanaryOperation::QueryCanaryBlob { canary_blob_id } => Ok(
                seq![shared_argument(canary_blob_id, resolved[1].shared_version(), false)],
            ),
            CanaryOperation::QueryRegistryAdmin { registry_id } => Ok(
                seq![shared_argument(registry_id, resolved[1].shared_version(), false)],
            ),
            CanaryOperation::QueryIsMember { registry_id, member } => Ok(
                seq![
                    shared_argument(registry_id, resolved[1].shared_version(), false),
                    CallArgumentView::Pure(member@),
                ],
            ),
            CanaryOperation::QueryMemberInfo { registry_id, member, .. } => Ok(
                seq![
                    shared_argument(registry_id, resolved[0].shared_version(), false),
                    CallArgumentView::Pure(member@),
                ],
            ),
        }
    }

    /// The call that the operation makes, given what its plan resolved.
    pub open spec fn call(self, resolved: Seq<Resolved>) -> Result<MoveCallView, CanaryErrorView> {
        match self.package(resolved) {
            None => Err(self.plan()[0].1.untyped()),
            Some(package) => match self.arguments(resolved) {
                Err(error) => Err(error),
                Ok(arguments) => Ok(
                    MoveCallView {
                        package,
                        module: self.module(),
                        function: self.function(),
                        arguments,
                    },
                ),
            },
        }
    }
}

fn shared(id: Address, version: u64, mutable: bool) -> (res: CallArgument)
    ensures
        res@ == shared_argument(id, version, mutable),
{
    CallArgument::Object(ObjectArgument::Shared { id, initial_shared_version: version, mutable })
}

fn owned(reference: ObjectReference) -> (res: CallArgument)
    ensures
        res@ == owned_argument(reference),
{
    CallArgument::Object(ObjectArgument::ImmOrOwned(reference))
}

fn clock() -> (res: CallArgument)
    ensures
        res@ == clock_argument(),
{
    shared(Address::small(CLOCK_OBJECT), CLOCK_SHARED_VERSION, false)
}

fn text(value: &str) -> (res: Result<CallArgument, CanaryError>)
    ensures
        match res {
            Ok(argument) => text_argument(value@) == Ok::<CallArgumentView, CanaryErrorView>(
                argument@,
            ),
            Err(error) => text_argument(value@) == Err::<CallArgumentView, CanaryErrorView>(
                error@,
            ),
        },
{
    CallArgument::pure_text(value)
}

/// The outcome of laying out a call, with both sides replaced by their
/// models.
pub open spec fn call_view(res: Result<MoveCall, CanaryError>) -> Result<
    MoveCallView,
    CanaryErrorView,
> {
    match res {
        Ok(call) => Ok(call@),
        Err(error) => Err(error@),
    }
}

/// The outcome of laying out arguments, with both sides replaced by their
/// models.
pub open spec fn arguments_outcome_view(res: Result<Vec<CallArgument>, CanaryError>) -> Result<
    Seq<CallArgumentView>,
    CanaryErrorView,
> {
    match res {
        Ok(arguments) => Ok(arguments_view(arguments@)),
        Err(error) => Err(error@),
    }
}

impl CanaryOperation {
    /// Lays out the arguments of the operation's call.
    pub fn lay_out_arguments(&self, resolved: &Vec<Resolved>) -> (res: Result<
        Vec<CallArgument>,
        CanaryError,
    >)
        requires
            resolved@.len() >= self.plan().len(),
        ensures
            arguments_outcome_view(res) == self.arguments(resolved@),
    {
        let mut out: Vec<CallArgument> = Vec::new();
        match self {
            CanaryOperation::JoinRegistry { registry_id, domain, .. } => {
                let name = match text(domain.as_str()) {
                    Ok(argument) => argument,
                    Err(error) => {
                        return Err(error);
                    },
                };
                out.push(shared(*registry_id, resolved[0].version_as_shared(), true));
                out.push(owned(resolved[1].reference));
                out.push(name);
                out.push(clock());
                assert(arguments_view(out@) =~= seq![
                    shared_argument(*registry_id, resolved@[0].shared_version(), true),
                    owned_argument(resolved@[1].reference),
                ].push(name@) + seq![clock_argument()]);
            },
            CanaryOperation::StoreBlob {
                registry_id,
                domain,
                contract_blob_id,
                explain_blob_id,
                package_id,
                ..
            } => {
                let name = match text(domain.as_str()) {
                    Ok(argument) => argument,
                    Err(error) => {
                        return Err(error);
                    },
                };
                out.push(shared(*registry_id, resolved[0].version_as_shared(), true));
                out.push(owned(resolved[1].reference));
                out.push(name);
                out.push(CallArgument::pure_address(contract_blob_id));
                out.push(CallArgument::pure_address(explain_blob_id));
                out.push(CallArgument::pure_address(package_id));
                out.push(clock());
                assert(arguments_view(out@) =~= seq![
                    shared_argument(*registry_id, resolved@[0].shared_version(), true),
                    owned_argument(resolved@[1].reference),
                ].push(name@) + seq![
                    CallArgumentView::Pure(contract_blob_id@),
                    CallArgumentView::Pure(explain_blob_id@),
                    CallArgumentView::Pure(package_id@),
                    clock_argument(),
                ]);
            },
            CanaryOperation::UpdateBlob {
                registry_id,
                canary_blob_id,
                new_contract_blob_id,
                new_explain_blob_id,
                ..
            } => {
                out.push(shared(*registry_id, resolved[2].version_as_shared(), false));
                out.push(owned(resolved[1].reference));
                out.push(shared(*canary_blob_id, resolved[0].version_as_shared(), true));
                out.push(CallArgument::pure_address(new_contract_blob_id));
                out.push(CallArgument::pure_address(new_explain_blob_id));
                out.push(clock());
                assert(arguments_view(out@) =~= seq![
                    shared_argument(*registry_id, resolved@[2].shared_version(), false),
                    owned_argument(resolved@[1].reference),
                    shared_argument(*canary_blob_id, resolved@[0].shared_version(), true),
                    CallArgumentView::Pure(new_contract_blob_id@),
                    CallArgumentView::Pure(new_explain_blob_id@),
                    clock_argument(),
                ]);
            },
            CanaryOperation::DeleteCanaryBlob { registry_id, .. } => {
                out.push(shared(*registry_id, resolved[1].version_as_shared(), false));
                out.push(owned(resolved[2].reference));
                out.push(owned(resolved[0].reference));
                assert(arguments_view(out@) =~= seq![
                    shared_argument(*registry_id, resolved@[1].shared_version(), false),
                    owned_argument(resolved@[2].reference),
                    owned_argument(resolved@[0].reference),
                ]);
            },
            CanaryOperation::DeriveCanaryAddress { registry_id, domain, package_id } => {
                let name = match text(domain.as_str()) {
                    Ok(argument) => argument,
                    Err(error) => {
                        return Err(error);
                    },
                };
                out.push(shared(*registry_id, resolved[1].version_as_shared(), false));
                out.push(name);
                out.push(CallArgument::pure_address(package_id));
                assert(arguments_view(out@) =~= seq![
                    shared_argument(*registry_id, resolved@[1].shared_version(), false),
                ].push(name@) + seq![CallArgumentView::Pure(package_id@)]);
            },
            CanaryOperation::QueryCanaryBlob { canary_blob_id } => {
                out.push(shared(*canary_blob_id, resolved[1].version_as_shared(), false));
                assert(arguments_view(out@) =~= seq![
                    shared_argument(*canary_blob_id, resolved@[1].shared_version(), false),
                ]);
            },
            CanaryOperation::QueryRegistryAdmin { registry_id } => {
                out.push(shared(*registry_id, resolved[1].version_as_shared(), false));
                assert(arguments_view(out@) =~= seq![
                    shared_argument(*registry_id, resolved@[1].shared_version(), false),
                ]);
            },
            CanaryOperation::QueryIsMember { registry_id, member } => {
                out.push(shared(*registry_id, resolved[1].version_as_shared(), false));
                out.push(CallArgument::pure_address(member));
                assert(arguments_view(out@) =~= seq![
                    shared_argument(*registry_id, resolved@[1].shared_version(), false),
                    CallArgumentView::Pure(member@),
                ]);
            },
            CanaryOperation::QueryMemberInfo { registry_id, member, .. } => {
                out.push(shared(*registry_id, resolved[0].version_as_shared(), false));
                out.push(CallArgument::pure_address(member));
                assert(arguments_view(out@) =~= seq![
                    shared_argument(*registry_id, resolved@[0].shared_version(), false),
                    CallArgumentView::Pure(member@),
                ]);
            },
        }
        Ok(out)
    }

    /// Lays out the operation's call: the package, the function's name and
    /// the arguments in the order of its signature.
    pub fn lay_out(&self, resolved: &Vec<Resolved>) -> (res: Result<MoveCall, CanaryError>)
        requires
            resolved@.len() >= self.plan().len(),
        ensures
            call_view(res) == self.call(resolved@),
    {
        let first = self.plan_step(0);
        let package = match self {
            CanaryOperation::QueryMemberInfo { package, .. } => Some(*package),
            _ => resolved[0].package,
        };
        let package = match package {
            Some(package) => package,
            None => {
                let role = match first {
                    Some((_, role)) => role,
                    None => ObjectRole::Registry,
                };
                return Err(
                    match role {
                        ObjectRole::CanaryBlob => CanaryError::Registry(
                            String::from_str("Canary blob object has no type"),
                        ),
                        _ => CanaryError::Registry(String::from_str("Registry object has no type")),
                    },
                );
            },
        };
        let arguments = match self.lay_out_arguments(resolved) {
            Ok(arguments) => arguments,
            Err(error) => {
                return Err(error);
            },
        };
        let (module, function) = self.names();
        Ok(
            MoveCall {
                package,
                module: String::from_str(module),
                function: String::from_str(function),
                arguments,
            },
        )
    }
}

/// The preparation of an operation: what its plan has resolved so far.
pub struct Preparation {
    operation: CanaryOperation,
    resolved: Vec<Resolved>,
    coin: Option<Address>,
}

/// Mathematical model of a [`Preparation`].
pub ghost struct PreparationView {
    pub operation: CanaryOperation,
    pub resolved: Seq<Resolved>,
    pub coin: Option<Address>,
}

impl View for Preparation {
    type V = PreparationView;

    closed spec fn view(&self) -> PreparationView {
        PreparationView { operation: self.operation, resolved: self.resolved@, coin: self.coin }
    }
}

/// What one step of a preparation leads to.
pub enum PreparationProgress {
    /// The node is to be asked again.
    Ask(Preparation, NodeRequest),
    /// Everything is resolved; this is the call to make.
    Ready(MoveCall),
    /// The preparation failed.
    Failed(CanaryError),
}

/// Mathematical model of a [`PreparationProgress`].
pub ghost enum PreparationProgressView {
    Ask(PreparationView, NodeRequestView),
    Ready(MoveCallView),
    Failed(CanaryErrorView),
}

impl View for PreparationProgress {
    type V = PreparationProgressView;

    open spec fn view(&self) -> PreparationProgressView {
        match self {
            PreparationProgress::Ask(preparation, request) => PreparationProgressView::Ask(
                preparation@,
                request@,
            ),
            PreparationProgress::Ready(call) => PreparationProgressView::Ready(call@),
            PreparationProgress::Failed(error) => PreparationProgressView::Failed(error@),
        }
    }
}

/// The failure for a reply that does not answer what was asked.
pub open spec fn unexpected_reply() -> PreparationProgressView {
    PreparationProgressView::Failed(
        CanaryErrorView::Registry(
            "Unexpected reply: "@ + "the node was asked for something else"@,
        ),
    )
}

impl PreparationView {
    /// The preparation of an operation of which nothing is resolved yet.
    pub open spec fn initial(operation: CanaryOperation) -> PreparationView {
        PreparationView { operation, resolved: Seq::empty(), coin: None }
    }

    /// What the preparation does next: it asks for the next object of the
    /// plan, for the coins where that object is the payer's first coin and
    /// no coin is chosen yet, or lays out the call when the plan is done.
    pub open spec fn proceed(self) -> PreparationProgressView {
        let k = self.resolved.len() as int;
        if k >= self.operation.plan().len() {
            match self.operation.call(self.resolved) {
                Ok(call) => PreparationProgressView::Ready(call),
                Err(error) => PreparationProgressView::Failed(error),
            }
        } else {
            match (self.operation.plan()[k].0, self.coin) {
                (PlanTarget::Object(id), _) => PreparationProgressView::Ask(
                    self,
                    NodeRequestView::FetchObject(id),
                ),
                (PlanTarget::FirstCoinOf(owner), None) => PreparationProgressView::Ask(
                    self,
                    NodeRequestView::ListCoins { owner },
                ),
                (PlanTarget::FirstCoinOf(_), Some(coin)) => PreparationProgressView::Ask(
                    self,
                    NodeRequestView::FetchObject(coin),
                ),
            }
        }
    }

    /// Whether the preparation waits for a coin listing.
    pub open spec fn awaits_coins(self) -> bool {
        let k = self.resolved.len() as int;
        k < self.operation.plan().len() && self.operation.plan()[k].0 is FirstCoinOf && self.coin
            is None
    }

    /// The step that the preparation takes on a reply.
    pub open spec fn step(self, reply: NodeReply) -> PreparationProgressView {
        let k = self.resolved.len() as int;
        if k >= self.operation.plan().len() {
            unexpected_reply()
        } else if self.awaits_coins() {
            match reply {
                NodeReply::Coins(Err(text)) => PreparationProgressView::Failed(
                    CanaryErrorView::Client(ClientErrorView::Network(text@)),
                ),
                NodeReply::Coins(Ok(coins)) => if coins@.len() == 0 {
                    PreparationProgressView::Failed(
                        CanaryErrorView::Registry("No coins available for payment"@),
                    )
                } else {
                    (PreparationView { coin: Some(coins@[0]), ..self }).proceed()
                },
                _ => unexpected_reply(),
            }
        } else {
            match reply {
                NodeReply::Object(lookup) => match self.operation.plan()[k].1.resolve_spec(lookup) {
                    Err(error) => PreparationProgressView::Failed(error),
                    Ok(resolved) => (PreparationView {
                        resolved: self.resolved.push(resolved),
                        ..self
                    }).proceed(),
                },
                _ => unexpected_reply(),
            }
        }
    }
}

impl Preparation {
    fn unexpected() -> (res: PreparationProgress)
        ensures
            res@ == unexpected_reply(),
    {
        PreparationProgress::Failed(
            CanaryError::Registry(
                with_detail("Unexpected reply: ", "the node was asked for something else"),
            ),
        )
    }

    fn proceed(self) -> (res: PreparationProgress)
        ensures
            res@ == self@.proceed(),
    {
        let k = self.resolved.len();
        match self.operation.plan_step(k) {
            None => match self.operation.lay_out(&self.resolved) {
                Ok(call) => PreparationProgress::Ready(call),
                Err(error) => PreparationProgress::Failed(error),
            },
            Some((target, _)) => {
                let request = match target {
                    PlanTarget::Object(id) => NodeRequest::FetchObject(id),
                    PlanTarget::FirstCoinOf(owner) => match self.coin {
                        None => NodeRequest::ListCoins { owner },
                        Some(coin) => NodeRequest::FetchObject(coin),
                    },
                };
                PreparationProgress::Ask(self, request)
            },
        }
    }

    /// Starts the preparation of an operation.
    pub fn start(operation: CanaryOperation) -> (res: PreparationProgress)
        ensures
            res@ == PreparationView::initial(operation).proceed(),
            res is Ask,
    {
        let preparation = Preparation { operation, resolved: Vec::new(), coin: None };
        assert(preparation.resolved@ =~= Seq::empty());
        preparation.proceed()
    }

    /// Takes the node's reply to the last request and makes the next step:
    /// the object is read in its role, and the first failure ends the
    /// preparation.
    pub fn advance(self, reply: NodeReply) -> (res: PreparationProgress)
        ensures
            res@ == self@.step(reply),
    {
        let k = self.resolved.len();
        let (target, role) = match self.operation.plan_step(k) {
            None => {
                return Self::unexpected();
            },
            Some(step) => step,
        };
        let awaits_coins = match target {
            PlanTarget::FirstCoinOf(_) => self.coin.is_none(),
            PlanTarget::Object(_) => false,
        };
        if awaits_coins {
            match reply {
                NodeReply::Coins(Err(text)) => PreparationProgress::Failed(
                    CanaryError::Client(ClientError::Network(text)),
                ),
                NodeReply::Coins(Ok(coins)) => {
                    if coins.len() == 0 {
                        PreparationProgress::Failed(
                            CanaryError::Registry(
                                String::from_str("No coins available for payment"),
                            ),
                        )
                    } else {
                        let next = Preparation {
                            operation: self.operation,
                            resolved: self.resolved,
                            coin: Some(coins[0]),
                        };
                        next.proceed()
                    }
                },
                _ => Self::unexpected(),
            }
        } else {
            match reply {
                NodeReply::Object(lookup) => {
                    let outcome = resolve(role, lookup);
                    assert(resolution_view(outcome) == role.resolve_spec(lookup));
                    match outcome {
                        Err(error) => PreparationProgress::Failed(error),
                        Ok(resolved) => {
                            let mut all = self.resolved;
                            all.push(resolved);
                            let next = Preparation {
                                operation: self.operation,
                                resolved: all,
                                coin: self.coin,
                            };
                            next.proceed()
                        },
                    }
                },
                _ => Self::unexpected(),
            }
        }
    }
}

/// Join the registry by paying the membership fee with the signer's first
/// coin.  Starts the preparation; the call that comes out of it is to be
/// executed.
pub fn join_registry(signer: Address, registry_id: Address, domain: String, payment_amount: u64)
    -> (res: PreparationProgress)
    ensures
        res@ == PreparationView::initial(
            CanaryOperation::JoinRegistry { signer, registry_id, domain, payment_amount },
        ).proceed(),
        res is Ask,
{
    Preparation::start(CanaryOperation::JoinRegistry { signer, registry_id, domain, payment_amount })
}

/// Store a blob in the registry.  Starts the preparation; the call that
/// comes out of it is to be executed.
pub fn store_blob(
    registry_id: Address,
    admin_cap_id: Address,
    domain: String,
    contract_blob_id: Address,
    explain_blob_id: Address,
    package_id: Address,
) -> (res: PreparationProgress)
    ensures
        res@ == PreparationView::initial(
            CanaryOperation::StoreBlob {
                registry_id,
                admin_cap_id,
                domain,
                contract_blob_id,
                explain_blob_id,
                package_id,
            },
        ).proceed(),
        res is Ask,
{
    Preparation::start(
        CanaryOperation::StoreBlob {
            registry_id,
            admin_cap_id,
            domain,
            contract_blob_id,
            explain_blob_id,
            package_id,
        },
    )
}

/// Update a blob in the registry.  Starts the preparation; the call that
/// comes out of it is to be executed.
pub fn update_blob(
    registry_id: Address,
    admin_cap_id: Address,
    canary_blob_id: Address,
    new_contract_blob_id: Address,
    new_explain_blob_id: Address,
) -> (res: PreparationProgress)
    ensures
        res@ == PreparationView::initial(
            CanaryOperation::UpdateBlob {
                registry_id,
                admin_cap_id,
                canary_blob_id,
                new_contract_blob_id,
                new_explain_blob_id,
            },
        ).proceed(),
        res is Ask,
{
    Preparation::start(
        CanaryOperation::UpdateBlob {
            registry_id,
            admin_cap_id,
            canary_blob_id,
            new_contract_blob_id,
            new_explain_blob_id,
        },
    )
}

/// Delete a canary blob.  Starts the preparation; the call that comes out
/// of it is to be executed.
pub fn delete_canary_blob(registry_id: Address, admin_cap_id: Address, canary_blob_id: Address)
    -> (res: PreparationProgress)
    ensures
        res@ == PreparationView::initial(
            CanaryOperation::DeleteCanaryBlob { registry_id, admin_cap_id, canary_blob_id },
        ).proceed(),
        res is Ask,
{
    Preparation::start(
        CanaryOperation::DeleteCanaryBlob { registry_id, admin_cap_id, canary_blob_id },
    )
}

/// Derive the canary address for a given domain and package.  Starts the
/// preparation; the call that comes out of it is to be inspected and its
/// result read with [`decode_canary_address`].
pub fn derive_canary_address(registry_id: Address, domain: String, package_id: Address) -> (res:
    PreparationProgress)
    ensures
        res@ == PreparationView::initial(
            CanaryOperation::DeriveCanaryAddress { registry_id, domain, package_id },
        ).proceed(),
        res is Ask,
{
    Preparation::start(CanaryOperation::DeriveCanaryAddress { registry_id, domain, package_id })
}

/// Query canary blob information.  Starts the preparation; the call that
/// comes out of it is to be inspected and its result read with
/// [`decode_canary_blob`].
pub fn query_canary_blob(canary_blob_id: Address) -> (res: PreparationProgress)
    ensures
        res@ == PreparationView::initial(
            CanaryOperation::QueryCanaryBlob { canary_blob_id },
        ).proceed(),
        res is Ask,
{
    Preparation::start(CanaryOperation::QueryCanaryBlob { canary_blob_id })
}

/// Query registry information.  Starts the preparation of the admin query;
/// its result is read with [`registry_info`].
pub fn query_registry(registry_id: Address) -> (res: PreparationProgress)
    ensures
        res@ == PreparationView::initial(
            CanaryOperation::QueryRegistryAdmin { registry_id },
        ).proceed(),
        res is Ask,
{
    Preparation::start(CanaryOperation::QueryRegistryAdmin { registry_id })
}

/// Query member information.  Starts the preparation of the membership
/// query; its result is read with [`decode_is_member`], and
/// [`query_member_info`] says what follows.
pub fn query_member(registry_id: Address, member_address: Address) -> (res: PreparationProgress)
    ensures
        res@ == PreparationView::initial(
            CanaryOperation::QueryIsMember { registry_id, member: member_address },
        ).proceed(),
        res is Ask,
{
    Preparation::start(CanaryOperation::QueryIsMember { registry_id, member: member_address })
}

/// What follows the membership query: for an address that is no member
/// nothing, and the answer is that there is no record; for a member the
/// preparation of the query for its record, in the package of the call that
/// asked for the membership.
pub fn query_member_info(
    is_member: bool,
    package: Address,
    registry_id: Address,
    member_address: Address,
) -> (res: Option<PreparationProgress>)
    ensures
        res is Some <==> is_member,
        res matches Some(progress) ==> progress is Ask && progress@ == PreparationView::initial(
            CanaryOperation::QueryMemberInfo { package, registry_id, member: member_address },
        ).proceed(),
{
    if is_member {
        Some(
            Preparation::start(
                CanaryOperation::QueryMemberInfo { package, registry_id, member: member_address },
            ),
        )
    } else {
        None
    }
}

/// The version at which an object became shared, read from its lookup.
/// An object that is missing or not shared has none.
pub fn get_initial_shared_version(lookup: ObjectLookup) -> (res: Result<u64, CanaryError>)
    ensures
        match ObjectRole::SharedVersion.resolve_spec(lookup) {
            Ok(resolved) => res == Ok::<u64, CanaryError>(resolved.shared_version())
                && resolved.initial_shared_version is Some,
            Err(error) => res matches Err(e) && e@ == error,
        },
{
    match resolve(ObjectRole::SharedVersion, lookup) {
        Ok(resolved) => Ok(resolved.version_as_shared()),
        Err(error) => Err(error),
    }
}

/// Information about a Registry object.
#[derive(Clone, Copy, Debug, PartialEq, Eq)]
pub struct RegistryInfo {
    /// The Registry object ID.
    pub id: Address,
    /// The membership fee in MIST.
    pub fee: u64,
    /// The total number of members.
    pub member_count: u64,
    /// The admin address.
    pub admin: Address,
}

/// Information about a member.
#[derive(Clone, Debug, PartialEq, Eq)]
pub struct MemberInfo {
    /// The member's domain name.
    pub domain: String,
    /// Timestamp when the member joined, in milliseconds.
    pub joined_at: u64,
}

/// Information about a member with their address.
#[derive(Clone, Debug, PartialEq, Eq)]
pub struct MemberInfoWithAddress {
    /// The member's address.
    pub member: Address,
    /// The member's domain name.
    pub domain: String,
    /// Timestamp when the member joined, in milliseconds.
    pub joined_at: u64,
}

/// Information about a CanaryBlob object.
#[derive(Clone, Debug, PartialEq, Eq)]
pub struct CanaryBlobInfo {
    /// The CanaryBlob object ID.
    pub id: Address,
    /// The contract blob object ID.
    pub contract_blob_id: Address,
    /// The explain blob object ID.
    pub explain_blob_id: Address,
    /// The package ID.
    pub package_id: Address,
    /// The domain name.
    pub domain: String,
    /// Timestamp when the blob was uploaded, in milliseconds.
    pub uploaded_at: u64,
    /// Address of the admin who uploaded the blob.
    pub uploaded_by_admin: Address,
}

/// Whether `bytes` is the encoding of some text.
pub open spec fn is_text_encoding(bytes: Seq<u8>) -> bool {
    exists|s: Seq<char>| #[trigger] encodes_text(s, bytes)
}

/// The failure of reading the admin's address from a buffer of `len` bytes.
pub open spec fn admin_address_failure(len: nat) -> CanaryErrorView {
    CanaryErrorView::Registry(
        "Invalid admin address length: expected 32, got "@ + decimal_digits(len),
    )
}

/// The failure for a call that returned another number of values than its
/// signature declares.
pub open spec fn arity_failure(function: Seq<char>) -> CanaryErrorView {
    CanaryErrorView::Registry(function + " returned unexpected number of values"@)
}

fn wrong_arity(function: &str) -> (res: CanaryError)
    ensures
        res@ == arity_failure(function@),
{
    CanaryError::Registry(with_detail(function, " returned unexpected number of values"))
}

/// Reads what `get_admin` returned: exactly one value, an address.
pub fn decode_admin(values: &ReturnValues) -> (res: Result<Address, CanaryError>)
    ensures
        if values@.len() != 1 {
            res matches Err(error) && error@ == arity_failure("get_admin"@)
        } else if values@[0].len() != ADDRESS_LENGTH {
            res matches Err(error) && error@ == admin_address_failure(values@[0].len())
        } else {
            res matches Ok(admin) && admin@ == values@[0]
        },
{
    if values.len() != 1 {
        return Err(wrong_arity("get_admin"));
    }
    let buffer = values.get(0);
    match Address::from_bytes(buffer) {
        Some(admin) => Ok(admin),
        None => {
            let count = decimal_text(buffer.len() as u64);
            Err(
                CanaryError::Registry(
                    with_detail("Invalid admin address length: expected 32, got ", count.as_str()),
                ),
            )
        },
    }
}

/// The registry's member count and fee.  The contract has no view function
/// for either, so there is nothing to ask and the answer is always the
/// error that says so.
pub fn query_registry_fields() -> (res: Result<(u64, u64), CanaryError>)
    ensures
        res matches Err(error) && error@ == CanaryErrorView::Registry(
            "query_registry_fields requires Move view functions get_member_count() and get_fee(). Please add these functions to the member_registry module or parse object BCS data."@,
        ),
{
    Err(
        CanaryError::Registry(
            String::from_str(
                "query_registry_fields requires Move view functions get_member_count() and get_fee(). Please add these functions to the member_registry module or parse object BCS data.",
            ),
        ),
    )
}

/// Puts the registry's information together from what `get_admin`
/// returned.  The admin is read first; then the member count and the fee
/// are asked for, which fails as [`query_registry_fields`] says.
pub fn registry_info(registry_id: Address, values: &ReturnValues) -> (res: Result<
    RegistryInfo,
    CanaryError,
>)
    ensures
        if values@.len() != 1 {
            res matches Err(error) && error@ == arity_failure("get_admin"@)
        } else if values@[0].len() != ADDRESS_LENGTH {
            res matches Err(error) && error@ == admin_address_failure(values@[0].len())
        } else {
            res matches Err(error) && error@ == CanaryErrorView::Registry(
                "query_registry_fields requires Move view functions get_member_count() and get_fee(). Please add these functions to the member_registry module or parse object BCS data."@,
            )
        },
{
    let admin = match decode_admin(values) {
        Ok(admin) => admin,
        Err(error) => {
            return Err(error);
        },
    };
    let (member_count, fee) = match query_registry_fields() {
        Ok(fields) => fields,
        Err(error) => {
            return Err(error);
        },
    };
    Ok(RegistryInfo { id: registry_id, fee, member_count, admin })
}

/// Reads what `is_member` returned: exactly one value, a truth value.
pub fn decode_is_member(values: &ReturnValues) -> (res: Result<bool, CanaryError>)
    ensures
        if values@.len() != 1 {
            res matches Err(error) && error@ == arity_failure("is_member"@)
        } else if !is_bool_encoding(values@[0]) {
            res matches Err(error) && error@ == decode_failure(
                "is_member"@,
                bool_failure(values@[0]),
            )
        } else {
            res matches Ok(member) && member == (values@[0][0] == 1u8)
        },
{
    if values.len() != 1 {
        return Err(wrong_arity("is_member"));
    }
    decode_bool(values.get(0), "is_member")
}

/// Reads what `get_member_info` returned: exactly two values, the domain
/// and the time of joining.
pub fn decode_member_info(values: &ReturnValues) -> (res: Result<MemberInfo, CanaryError>)
    ensures
        if values@.len() != 2 {
            res matches Err(error) && error@ == arity_failure("get_member_info"@)
        } else if !is_text_encoding(values@[0]) {
            res matches Err(error) && error@ == decode_failure(
                "domain"@,
                text_failure(values@[0]),
            )
        } else if values@[1].len() != 8 {
            res matches Err(error) && error@ == decode_failure(
                "joined_at"@,
                u64_failure(values@[1]),
            )
        } else {
            res matches Ok(info) && encodes_text(info.domain@, values@[0]) && info.joined_at
                == little_endian(values@[1])
        },
{
    if values.len() != 2 {
        return Err(wrong_arity("get_member_info"));
    }
    let domain = match decode_text(values.get(0), "domain") {
        Ok(domain) => domain,
        Err(error) => {
            return Err(error);
        },
    };
    let joined_at = match decode_u64(values.get(1), "joined_at") {
        Ok(joined_at) => joined_at,
        Err(error) => {
            return Err(error);
        },
    };
    Ok(MemberInfo { domain, joined_at })
}

/// Reads what `derive_canary_address` returned: exactly one value, an
/// address.
pub fn decode_canary_address(values: &ReturnValues) -> (res: Result<Address, CanaryError>)
    ensures
        if values@.len() != 1 {
            res matches Err(error) && error@ == arity_failure("derive_canary_address"@)
        } else if values@[0].len() != ADDRESS_LENGTH {
            res matches Err(error) && error@ == address_failure(values@[0].len())
        } else {
            res matches Ok(address) && address@ == values@[0]
        },
{
    if values.len() != 1 {
        return Err(wrong_arity("derive_canary_address"));
    }
    decode_address(values.get(0))
}

/// Reads what `get_full_info` returned: exactly six values, which are three
/// addresses, the domain, the time of upload and the admin's address, in
/// this order.  Any other number of values is a decoding failure, and no
/// record is made of them; the first value that cannot be read decides the
/// error.
pub fn decode_canary_blob(canary_blob_id: Address, values: &ReturnValues) -> (res: Result<
    CanaryBlobInfo,
    CanaryError,
>)
    ensures
        if values@.len() != 6 {
            res matches Err(error) && error@ == arity_failure("get_full_info"@)
        } else if values@[0].len() != ADDRESS_LENGTH {
            res matches Err(error) && error@ == address_failure(values@[0].len())
        } else if values@[1].len() != ADDRESS_LENGTH {
            res matches Err(error) && error@ == address_failure(values@[1].len())
        } else if values@[2].len() != ADDRESS_LENGTH {
            res matches Err(error) && error@ == address_failure(values@[2].len())
        } else if !is_text_encoding(values@[3]) {
            res matches Err(error) && error@ == decode_failure(
                "domain"@,
                text_failure(values@[3]),
            )
        } else if values@[4].len() != 8 {
            res matches Err(error) && error@ == decode_failure(
                "uploaded_at"@,
                u64_failure(values@[4]),
            )
        } else if values@[5].len() != ADDRESS_LENGTH {
            res matches Err(error) && error@ == address_failure(values@[5].len())
        } else {
            &&& res matches Ok(info)
            &&& info.id == canary_blob_id
            &&& info.contract_blob_id@ == values@[0]
            &&& info.explain_blob_id@ == values@[1]
            &&& info.package_id@ == values@[2]
            &&& encodes_text(info.domain@, values@[3])
            &&& info.uploaded_at == little_endian(values@[4])
            &&& info.uploaded_by_admin@ == values@[5]
        },
{
    if values.len() != 6 {
        return Err(wrong_arity("get_full_info"));
    }
    let contract_blob_id = match decode_address(values.get(0)) {
        Ok(address) => address,
        Err(error) => {
            return Err(error);
        },
    };
    let explain_blob_id = match decode_address(values.get(1)) {
        Ok(address) => address,
        Err(error) => {
            return Err(error);
        },
    };
    let package_id = match decode_address(values.get(2)) {
        Ok(address) => address,
        Err(error) => {
            return Err(error);
        },
    };
    let domain = match decode_text(values.get(3), "domain") {
        Ok(domain) => domain,
        Err(error) => {
            return Err(error);
        },
    };
    let uploaded_at = match decode_u64(values.get(4), "uploaded_at") {
        Ok(uploaded_at) => uploaded_at,
        Err(error) => {
            return Err(error);
        },
    };
    let uploaded_by_admin = match decode_address(values.get(5)) {
        Ok(address) => address,
        Err(error) => {
            return Err(error);
        },
    };
    Ok(
        CanaryBlobInfo {
            id: canary_blob_id,
            contract_blob_id,
            explain_blob_id,
            package_id,
            domain,
            uploaded_at,
            uploaded_by_admin,
        },
    )
}

} // verus!
