//! The remote object resolver: what a lookup says of an object, read in the
//! role that the object plays in an operation.

use vstd::prelude::*;
use crate::error::{CanaryError, CanaryErrorView, ClientError, ClientErrorView};
use crate::node::{ObjectData, ObjectLookup, Owner};
use crate::text::{chars_of, find_separator, first_separator, has_separator, separator_at, with_detail};
use crate::types::{
    address_of, hex_value, is_hex_literal, literal_bytes, Address, ObjectReference,
};

verus! {

/// The part of a type descriptor in front of its first `::`, where there is
/// one.
pub open spec fn package_literal(descriptor: Seq<char>) -> Option<Seq<char>> {
    if has_separator(descriptor) {
        let i = choose|i: int| first_separator(descriptor, i);
        Some(descriptor.subrange(0, i))
    } else {
        None
    }
}

/// The bytes of the package that a type descriptor names: the part in front
/// of its first `::`, read as the hexadecimal literal of an address.
pub open spec fn package_of(descriptor: Seq<char>) -> Option<Seq<u8>> {
    match package_literal(descriptor) {
        Some(literal) => if is_hex_literal(literal) {
            Some(literal_bytes(literal))
        } else {
            None
        },
        None => None,
    }
}

/// A descriptor has at most one first separator.
pub proof fn lemma_first_separator_unique(s: Seq<char>, i: int, j: int)
    requires
        first_separator(s, i),
        first_separator(s, j),
    ensures
        i == j,
{
    if i < j {
        assert(separator_at(s, i));
    } else if j < i {
        assert(separator_at(s, j));
    }
}

/// Extract the package identifier from a type descriptor of the form
/// `<address>::<module>::<type>`: the text in front of the first `::`, read
/// as an address.  A descriptor without `::`, or with something else than an
/// address in front of it, names no package.
pub fn extract_package_id_from_type(type_str: &str) -> (res: Option<Address>)
    ensures
        res is Some <==> package_of(type_str@) is Some,
        res matches Some(package) ==> package_of(type_str@) == Some(package@),
{
    let chars = chars_of(type_str);
    match find_separator(&chars) {
        None => None,
        Some(position) => {
            proof {
                let chosen = choose|i: int| first_separator(type_str@, i);
                lemma_first_separator_unique(type_str@, position as int, chosen);
            }
            let literal = type_str.substring_char(0, position);
            Address::from_hex_literal(literal)
        },
    }
}

/// For every descriptor `<address>::<rest>` whose address is a hexadecimal
/// literal, the package is that address, whatever follows the separator.
pub proof fn lemma_package_of_descriptor(address: Seq<char>, rest: Seq<char>)
    requires
        is_hex_literal(address),
    ensures
        package_of(address + seq![':', ':'] + rest) == Some(literal_bytes(address)),
{
    let descriptor = address + seq![':', ':'] + rest;
    let n = address.len() as int;
    assert(hex_value(':') is None);
    assert forall|j: int| 0 <= j < n implies !separator_at(descriptor, j) by {
        assert(descriptor[j] == address[j]);
        if j >= 2 {
            assert(hex_value(address[j]) is Some);
        }
    }
    assert(descriptor[n] == ':');
    assert(descriptor[n + 1] == ':');
    assert(separator_at(descriptor, n));
    assert(first_separator(descriptor, n));
    let chosen = choose|i: int| first_separator(descriptor, i);
    lemma_first_separator_unique(descriptor, n, chosen);
    assert(descriptor.subrange(0, n) =~= address);
}

/// A descriptor without a separator names no package.
pub proof fn lemma_no_separator_no_package(descriptor: Seq<char>)
    requires
        !has_separator(descriptor),
    ensures
        package_of(descriptor) is None,
{
}

/// The role in which an object is looked up.  It decides what is read from
/// the object and with which error a missing or unreadable object is
/// reported.
#[derive(Clone, Copy, Debug, PartialEq, Eq)]
pub enum ObjectRole {
    /// The registry, of which the contract's package is read.
    Registry,
    /// The registry when joining it; as [`ObjectRole::Registry`], with its
    /// own words for a descriptor that names no package.
    RegistryForJoin,
    /// The registry, looked up again for its current version only.
    RegistryVersion,
    /// The admin capability.
    AdminCap,
    /// A blob record, of which the contract's package is read.
    CanaryBlob,
    /// The coin that pays the membership fee.
    PaymentCoin,
    /// A shared object, of which the version at which it became shared is
    /// read.
    SharedVersion,
}

/// What was read from an object.
#[derive(Clone, Copy, Debug, PartialEq, Eq)]
pub struct Resolved {
    /// Identifier, current version and fingerprint.
    pub reference: ObjectReference,
    /// The package that the object's type names, where the role reads it.
    pub package: Option<Address>,
    /// The version at which the object became shared, where the role reads
    /// it.
    pub initial_shared_version: Option<u64>,
}

impl ObjectRole {
    /// Whether the role reads the package from the object's type.
    pub open spec fn reads_package(self) -> bool {
        self == ObjectRole::Registry || self == ObjectRole::RegistryForJoin || self
            == ObjectRole::CanaryBlob
    }

    /// The error for a lookup that failed in transport: in every role the
    /// network error, with the transport's words unchanged.  It says nothing
    /// of whether the object exists.
    pub open spec fn transport_failure(self, detail: Seq<char>) -> CanaryErrorView {
        CanaryErrorView::Client(ClientErrorView::Network(detail))
    }

    /// The error for an object that does not exist.
    pub open spec fn not_found(self, detail: Seq<char>) -> CanaryErrorView {
        match self {
            ObjectRole::Registry | ObjectRole::RegistryForJoin => CanaryErrorView::Registry(
                "Registry object not found"@,
            ),
            ObjectRole::RegistryVersion => CanaryErrorView::Registry("Registry not found"@),
            ObjectRole::AdminCap => CanaryErrorView::Registry("Admin cap not found"@),
            ObjectRole::CanaryBlob => CanaryErrorView::CanaryBlobNotFound,
            ObjectRole::PaymentCoin => CanaryErrorView::Registry("Payment coin object not found"@),
            ObjectRole::SharedVersion => CanaryErrorView::Registry(
                "Failed to get initial shared version: "@ + detail,
            ),
        }
    }

    /// The error for an object without a declared type.
    pub open spec fn untyped(self) -> CanaryErrorView {
        match self {
            ObjectRole::CanaryBlob => CanaryErrorView::Registry("Canary blob object has no type"@),
            _ => CanaryErrorView::Registry("Registry object has no type"@),
        }
    }

    /// The error for a type descriptor that names no package.
    pub open spec fn malformed_type(self) -> CanaryErrorView {
        match self {
            ObjectRole::CanaryBlob => CanaryErrorView::Registry(
                "Failed to extract package ID from canary blob type"@,
            ),
            ObjectRole::RegistryForJoin => CanaryErrorView::Registry(
                "Failed to extract package ID from registry type"@,
            ),
            _ => CanaryErrorView::Registry("Failed to extract package ID"@),
        }
    }

    /// What the role reads from an object that was found.
    pub open spec fn read(self, data: ObjectData) -> Result<Resolved, CanaryErrorView> {
        if self.reads_package() {
            match data.type_descriptor {
                None => Err(self.untyped()),
                Some(descriptor) => match package_of(descriptor@) {
                    None => Err(self.malformed_type()),
                    Some(bytes) => Ok(
                        Resolved {
                            reference: data.reference,
                            package: Some(address_of(bytes)),
                            initial_shared_version: None,
                        },
                    ),
                },
            }
        } else if self == ObjectRole::SharedVersion {
            match data.owner {
                Some(Owner::Shared { initial_shared_version }) => Ok(
                    Resolved {
                        reference: data.reference,
                        package: None,
                        initial_shared_version: Some(initial_shared_version),
                    },
                ),
                _ => Err(
                    CanaryErrorView::Registry(
                        "Failed to get initial shared version: object is not shared"@,
                    ),
                ),
            }
        } else {
            Ok(Resolved { reference: data.reference, package: None, initial_shared_version: None })
        }
    }

    /// What a lookup yields in this role.
    pub open spec fn resolve_spec(self, lookup: ObjectLookup) -> Result<Resolved, CanaryErrorView> {
        match lookup {
            ObjectLookup::Failed(detail) => Err(self.transport_failure(detail@)),
            ObjectLookup::Missing(detail) => Err(self.not_found(detail@)),
            ObjectLookup::Found(data) => self.read(data),
        }
    }
}

/// The result of a resolution with the error replaced by its model.
pub open spec fn resolution_view(res: Result<Resolved, CanaryError>) -> Result<
    Resolved,
    CanaryErrorView,
> {
    match res {
        Ok(resolved) => Ok(resolved),
        Err(error) => Err(error@),
    }
}

fn registry_error(head: &str, detail: &str) -> (res: CanaryError)
    ensures
        res@ == CanaryErrorView::Registry(head@ + detail@),
{
    CanaryError::Registry(with_detail(head, detail))
}

fn registry_message(message: &str) -> (res: CanaryError)
    ensures
        res@ == CanaryErrorView::Registry(message@),
{
    CanaryError::Registry(String::from_str(message))
}

/// Reads the outcome of a lookup in the given role: the object's reference
/// and what the role asks of it, or the role's error for what went wrong.
pub fn resolve(role: ObjectRole, lookup: ObjectLookup) -> (res: Result<Resolved, CanaryError>)
    ensures
        resolution_view(res) == role.resolve_spec(lookup),
{
    match lookup {
        ObjectLookup::Failed(detail) => Err(CanaryError::Client(ClientError::Network(detail))),
        ObjectLookup::Missing(detail) => Err(
            match role {
                ObjectRole::Registry | ObjectRole::RegistryForJoin => registry_message(
                    "Registry object not found",
                ),
                ObjectRole::RegistryVersion => registry_message("Registry not found"),
                ObjectRole::AdminCap => registry_message("Admin cap not found"),
                ObjectRole::CanaryBlob => CanaryError::CanaryBlobNotFound,
                ObjectRole::PaymentCoin => registry_message("Payment coin object not found"),
                ObjectRole::SharedVersion => registry_error(
                    "Failed to get initial shared version: ",
                    detail.as_str(),
                ),
            },
        ),
        ObjectLookup::Found(data) => {
            match role {
                ObjectRole::Registry | ObjectRole::RegistryForJoin | ObjectRole::CanaryBlob => {
                    match &data.type_descriptor {
                        None => Err(
                            match role {
                                ObjectRole::CanaryBlob => registry_message(
                                    "Canary blob object has no type",
                                ),
                                _ => registry_message("Registry object has no type"),
                            },
                        ),
                        Some(descriptor) => match extract_package_id_from_type(
                            descriptor.as_str(),
                        ) {
                            None => Err(
                                match role {
                                    ObjectRole::CanaryBlob => registry_message(
                                        "Failed to extract package ID from canary blob type",
                                    ),
                                    ObjectRole::RegistryForJoin => registry_message(
                                        "Failed to extract package ID from registry type",
                                    ),
                                    _ => registry_message("Failed to extract package ID"),
                                },
                            ),
                            Some(package) => {
                                proof {
                                    Address::lemma_address_of_bytes(package);
                                }
                                Ok(
                                    Resolved {
                                        reference: data.reference,
                                        package: Some(package),
                                        initial_shared_version: None,
                                    },
                                )
                            },
                        },
                    }
                },
                ObjectRole::SharedVersion => match data.owner {
                    Some(Owner::Shared { initial_shared_version }) => Ok(
                        Resolved {
                            reference: data.reference,
                            package: None,
                            initial_shared_version: Some(initial_shared_version),
                        },
                    ),
                    _ => Err(
                        registry_message(
                            "Failed to get initial shared version: object is not shared",
                        ),
                    ),
                },
                _ => Ok(
                    Resolved {
                        reference: data.reference,
                        package: None,
                        initial_shared_version: None,
                    },
                ),
            }
        },
    }
}

} // verus!
