use canary_sdk::canary::{
    decode_admin, decode_canary_address, decode_canary_blob, decode_is_member,
    decode_member_info, delete_canary_blob, derive_canary_address, get_initial_shared_version,
    join_registry, query_canary_blob, query_member, query_member_info, query_registry,
    query_registry_fields, registry_info, store_blob, update_blob, CanaryBlobInfo,
    CanaryOperation, MemberInfo, MemberInfoWithAddress, PlanTarget, Preparation,
    PreparationProgress, RegistryInfo,
};
use canary_sdk::error::{CanaryError, ClientError, TransactionError};
use canary_sdk::node::{NodeReply, NodeRequest, ObjectData, ObjectLookup, Owner};
use canary_sdk::query::{Inspection, QueryProgress, ReturnValues};
use canary_sdk::resolver::{extract_package_id_from_type, resolve, ObjectRole, Resolved};
use canary_sdk::types::{
    Address, CallArgument, MoveCall, ObjectArgument, ObjectReference, PendingOperation,
    TransactionPayload,
};

const PACKAGE: &str = "0xabc";

fn address(last: u8) -> Address {
    Address::small(last)
}

fn package() -> Address {
    Address::from_hex_literal(PACKAGE).unwrap()
}

fn reference(last: u8, version: u64) -> ObjectReference {
    ObjectReference {
        id: address(last),
        version,
        digest: [last; 32],
    }
}

fn object(last: u8, version: u64, descriptor: Option<&str>, owner: Option<Owner>) -> ObjectLookup {
    ObjectLookup::Found(ObjectData {
        reference: reference(last, version),
        type_descriptor: descriptor.map(|d| d.to_string()),
        owner,
    })
}

fn registry_object(version: u64) -> NodeReply {
    NodeReply::Object(object(
        0x10,
        version,
        Some("0xabc::member_registry::Registry"),
        Some(Owner::Shared {
            initial_shared_version: 3,
        }),
    ))
}

fn blob_object(version: u64) -> NodeReply {
    NodeReply::Object(object(
        0x30,
        version,
        Some("0xabc::pkg_storage::CanaryBlob"),
        Some(Owner::Shared {
            initial_shared_version: 5,
        }),
    ))
}

fn plain_object(last: u8, version: u64) -> NodeReply {
    NodeReply::Object(object(
        last,
        version,
        None,
        Some(Owner::AddressOwner(address(0xaa))),
    ))
}

fn ask(progress: PreparationProgress) -> (Preparation, NodeRequest) {
    match progress {
        PreparationProgress::Ask(preparation, request) => (preparation, request),
        PreparationProgress::Ready(call) => panic!("ready early: {:?}", call),
        PreparationProgress::Failed(error) => panic!("failed: {:?}", error),
    }
}

fn ready(progress: PreparationProgress) -> MoveCall {
    match progress {
        PreparationProgress::Ready(call) => call,
        PreparationProgress::Ask(_, request) => panic!("asks again: {:?}", request),
        PreparationProgress::Failed(error) => panic!("failed: {:?}", error),
    }
}

fn failed(progress: PreparationProgress) -> CanaryError {
    match progress {
        PreparationProgress::Failed(error) => error,
        PreparationProgress::Ask(_, request) => panic!("asks again: {:?}", request),
        PreparationProgress::Ready(call) => panic!("ready: {:?}", call),
    }
}

fn registry(message: &str) -> CanaryError {
    CanaryError::Registry(message.to_string())
}

fn network(words: &str) -> CanaryError {
    CanaryError::Client(ClientError::Network(words.to_string()))
}

fn shared(last: u8, version: u64, mutable: bool) -> CallArgument {
    CallArgument::Object(ObjectArgument::Shared {
        id: address(last),
        initial_shared_version: version,
        mutable,
    })
}

fn owned(last: u8, version: u64) -> CallArgument {
    CallArgument::Object(ObjectArgument::ImmOrOwned(reference(last, version)))
}

fn clock() -> CallArgument {
    shared(6, 1, false)
}

fn pure_address(last: u8) -> CallArgument {
    CallArgument::Pure(address(last).to_vec())
}

fn returned(buffers: Vec<Vec<u8>>) -> ReturnValues {
    let (inspection, _) = Inspection::start(package(), "pkg_storage", "get_full_info", vec![])
        .expect("valid names");
    let inspection = match inspection.advance(NodeReply::GasPrice(Ok(1000))) {
        QueryProgress::Ask(inspection, _) => inspection,
        _ => panic!("expected the inspection request"),
    };
    match inspection.advance(NodeReply::ReturnValues(Ok(buffers))) {
        QueryProgress::Executed(values) => values,
        _ => panic!("expected the values"),
    }
}

fn text_buffer(text: &str) -> Vec<u8> {
    let mut out = vec![text.len() as u8];
    out.extend_from_slice(text.as_bytes());
    out
}

#[test]
fn package_is_the_address_in_front_of_the_first_separator() {
    assert_eq!(
        extract_package_id_from_type("0x123::member_registry::Registry"),
        Address::from_hex_literal("0x123")
    );
    assert_eq!(
        extract_package_id_from_type("0x2::coin::Coin<0x2::sui::SUI>"),
        Some(address(2))
    );
    assert_eq!(extract_package_id_from_type("0xabc::m::T"), Some(package()));
    assert_eq!(extract_package_id_from_type("0xAbC::"), Some(package()));
    assert_eq!(
        extract_package_id_from_type("0x::m::T"),
        Some(Address { bytes: [0u8; 32] })
    );
    let full = "0x000102030405060708090a0b0c0d0e0f101112131415161718191a1b1c1d1e1f::a::B";
    let expected: Vec<u8> = (0u8..32u8).collect();
    assert_eq!(
        extract_package_id_from_type(full).unwrap().to_vec(),
        expected
    );
}

#[test]
fn descriptor_without_separator_names_no_package() {
    assert_eq!(extract_package_id_from_type("0x123"), None);
    assert_eq!(extract_package_id_from_type(""), None);
    assert_eq!(extract_package_id_from_type("0x123:member_registry:Registry"), None);
    assert_eq!(extract_package_id_from_type("u64"), None);
}

#[test]
fn descriptor_with_invalid_address_names_no_package() {
    assert_eq!(extract_package_id_from_type("123::m::T"), None);
    assert_eq!(extract_package_id_from_type("::m::T"), None);
    assert_eq!(extract_package_id_from_type("0xzz::m::T"), None);
    assert_eq!(extract_package_id_from_type("vector<0x2::m::T>"), None);
    assert_eq!(extract_package_id_from_type("0x2:::m::T"), Some(address(2)));
}

#[test]
fn resolve_reads_each_role_from_a_found_object() {
    let data = || {
        object(
            0x10,
            9,
            Some("0xabc::member_registry::Registry"),
            Some(Owner::Shared {
                initial_shared_version: 3,
            }),
        )
    };
    for role in [ObjectRole::Registry, ObjectRole::RegistryForJoin, ObjectRole::CanaryBlob] {
        assert_eq!(
            resolve(role, data()),
            Ok(Resolved {
                reference: reference(0x10, 9),
                package: Some(package()),
                initial_shared_version: None,
            })
        );
    }
    for role in [ObjectRole::RegistryVersion, ObjectRole::AdminCap, ObjectRole::PaymentCoin] {
        assert_eq!(
            resolve(role, data()),
            Ok(Resolved {
                reference: reference(0x10, 9),
                package: None,
                initial_shared_version: None,
            })
        );
    }
    let resolved = resolve(ObjectRole::SharedVersion, data()).unwrap();
    assert_eq!(resolved.initial_shared_version, Some(3));
    assert_eq!(resolved.version_as_shared(), 3);
    assert_eq!(
        resolve(ObjectRole::AdminCap, data())
            .unwrap()
            .version_as_shared(),
        9
    );
}

#[test]
fn querying_a_missing_object_yields_not_found() {
    let missing = || ObjectLookup::Missing("notExists".to_string());
    assert_eq!(
        resolve(ObjectRole::Registry, missing()),
        Err(registry("Registry object not found"))
    );
    assert_eq!(
        resolve(ObjectRole::RegistryForJoin, missing()),
        Err(registry("Registry object not found"))
    );
    assert_eq!(
        resolve(ObjectRole::RegistryVersion, missing()),
        Err(registry("Registry not found"))
    );
    assert_eq!(
        resolve(ObjectRole::AdminCap, missing()),
        Err(registry("Admin cap not found"))
    );
    assert_eq!(
        resolve(ObjectRole::PaymentCoin, missing()),
        Err(registry("Payment coin object not found"))
    );
    assert_eq!(
        resolve(ObjectRole::CanaryBlob, missing()),
        Err(CanaryError::CanaryBlobNotFound)
    );
    assert_eq!(
        resolve(ObjectRole::SharedVersion, missing()),
        Err(registry("Failed to get initial shared version: notExists"))
    );
    assert_eq!(
        failed(ask(query_canary_blob(address(0x30))).0.advance(NodeReply::Object(missing()))),
        CanaryError::CanaryBlobNotFound
    );
    assert_eq!(
        failed(ask(query_registry(address(0x10))).0.advance(NodeReply::Object(missing()))),
        registry("Registry object not found")
    );
}

#[test]
fn a_lookup_that_failed_in_transport_is_a_network_error_in_every_role() {
    for role in [
        ObjectRole::Registry,
        ObjectRole::RegistryForJoin,
        ObjectRole::RegistryVersion,
        ObjectRole::AdminCap,
        ObjectRole::CanaryBlob,
        ObjectRole::PaymentCoin,
        ObjectRole::SharedVersion,
    ] {
        assert_eq!(
            resolve(role, ObjectLookup::Failed("connection reset".to_string())),
            Err(network("connection reset"))
        );
        assert_ne!(
            resolve(role, ObjectLookup::Failed("notExists".to_string())),
            resolve(role, ObjectLookup::Missing("notExists".to_string()))
        );
    }
    let failed_lookup = NodeReply::Object(ObjectLookup::Failed("tls handshake".to_string()));
    assert_eq!(
        failed(ask(query_canary_blob(address(0x30))).0.advance(failed_lookup)),
        network("tls handshake")
    );
}

#[test]
fn resolve_reports_missing_and_malformed_types() {
    let untyped = || object(0x10, 1, None, None);
    let malformed = || object(0x10, 1, Some("Registry"), None);
    assert_eq!(
        resolve(ObjectRole::Registry, untyped()),
        Err(registry("Registry object has no type"))
    );
    assert_eq!(
        resolve(ObjectRole::RegistryForJoin, untyped()),
        Err(registry("Registry object has no type"))
    );
    assert_eq!(
        resolve(ObjectRole::CanaryBlob, untyped()),
        Err(registry("Canary blob object has no type"))
    );
    assert_eq!(
        resolve(ObjectRole::Registry, malformed()),
        Err(registry("Failed to extract package ID"))
    );
    assert_eq!(
        resolve(ObjectRole::RegistryForJoin, malformed()),
        Err(registry("Failed to extract package ID from registry type"))
    );
    assert_eq!(
        resolve(ObjectRole::CanaryBlob, malformed()),
        Err(registry("Failed to extract package ID from canary blob type"))
    );
    assert!(resolve(ObjectRole::AdminCap, untyped()).is_ok());
}

#[test]
fn initial_shared_version_is_read_from_the_owner() {
    let lookup = object(
        0x10,
        77,
        None,
        Some(Owner::Shared {
            initial_shared_version: 12,
        }),
    );
    assert_eq!(get_initial_shared_version(lookup), Ok(12));
    for owner in [
        None,
        Some(Owner::Immutable),
        Some(Owner::AddressOwner(address(1))),
        Some(Owner::ObjectOwner(address(2))),
    ] {
        assert_eq!(
            get_initial_shared_version(object(0x10, 77, None, owner)),
            Err(registry(
                "Failed to get initial shared version: object is not shared"
            ))
        );
    }
    assert_eq!(
        get_initial_shared_version(ObjectLookup::Failed("io".to_string())),
        Err(network("io"))
    );
    assert_eq!(
        get_initial_shared_version(ObjectLookup::Missing("gone".to_string())),
        Err(registry("Failed to get initial shared version: gone"))
    );
}

#[test]
fn join_registry_lays_out_registry_coin_domain_clock() {
    let (preparation, request) = ask(join_registry(
        address(0xaa),
        address(0x10),
        "example.com".to_string(),
        1_000_000_000,
    ));
    assert_eq!(request, NodeRequest::FetchObject(address(0x10)));
    let (preparation, request) = ask(preparation.advance(registry_object(9)));
    assert_eq!(request, NodeRequest::ListCoins { owner: address(0xaa) });
    let (preparation, request) =
        ask(preparation.advance(NodeReply::Coins(Ok(vec![address(0x20), address(0x21)]))));
    assert_eq!(request, NodeRequest::FetchObject(address(0x20)));
    let call = ready(preparation.advance(plain_object(0x20, 4)));
    assert_eq!(
        call,
        MoveCall {
            package: package(),
            module: "member_registry".to_string(),
            function: "join_registry".to_string(),
            arguments: vec![
                shared(0x10, 9, true),
                owned(0x20, 4),
                CallArgument::Pure(text_buffer("example.com")),
                clock(),
            ],
        }
    );
}

#[test]
fn join_registry_fails_at_the_first_thing_that_goes_wrong() {
    let start = || {
        ask(join_registry(
            address(0xaa),
            address(0x10),
            "example.com".to_string(),
            5,
        ))
        .0
    };
    assert_eq!(
        failed(start().advance(NodeReply::Object(object(0x10, 1, Some("Registry"), None)))),
        registry("Failed to extract package ID from registry type")
    );
    let (preparation, _) = ask(start().advance(registry_object(9)));
    assert_eq!(
        failed(preparation.advance(NodeReply::Coins(Err("busy".to_string())))),
        network("busy")
    );
    let (preparation, _) = ask(start().advance(registry_object(9)));
    assert_eq!(
        failed(preparation.advance(NodeReply::Coins(Ok(vec![])))),
        registry("No coins available for payment")
    );
    let (preparation, _) = ask(start().advance(registry_object(9)));
    let (preparation, _) = ask(preparation.advance(NodeReply::Coins(Ok(vec![address(0x20)]))));
    assert_eq!(
        failed(preparation.advance(NodeReply::Object(ObjectLookup::Missing("gone".to_string())))),
        registry("Payment coin object not found")
    );
    assert_eq!(
        failed(start().advance(NodeReply::GasPrice(Ok(1)))),
        registry("Unexpected reply: the node was asked for something else")
    );
    let (preparation, _) = ask(start().advance(registry_object(9)));
    assert_eq!(
        failed(preparation.advance(registry_object(9))),
        registry("Unexpected reply: the node was asked for something else")
    );
}

#[test]
fn store_blob_lays_out_its_seven_arguments() {
    let (preparation, request) = ask(store_blob(
        address(0x10),
        address(0x11),
        "example.com".to_string(),
        address(0x41),
        address(0x42),
        address(0x43),
    ));
    assert_eq!(request, NodeRequest::FetchObject(address(0x10)));
    let (preparation, request) = ask(preparation.advance(registry_object(9)));
    assert_eq!(request, NodeRequest::FetchObject(address(0x11)));
    let call = ready(preparation.advance(plain_object(0x11, 2)));
    assert_eq!(
        call,
        MoveCall {
            package: package(),
            module: "pkg_storage".to_string(),
            function: "store_blob".to_string(),
            arguments: vec![
                shared(0x10, 9, true),
                owned(0x11, 2),
                CallArgument::Pure(text_buffer("example.com")),
                pure_address(0x41),
                pure_address(0x42),
                pure_address(0x43),
                clock(),
            ],
        }
    );
}

#[test]
fn update_blob_looks_up_blob_then_cap_then_registry() {
    let (preparation, request) = ask(update_blob(
        address(0x10),
        address(0x11),
        address(0x30),
        address(0x51),
        address(0x52),
    ));
    assert_eq!(request, NodeRequest::FetchObject(address(0x30)));
    let (preparation, request) = ask(preparation.advance(blob_object(7)));
    assert_eq!(request, NodeRequest::FetchObject(address(0x11)));
    let (preparation, request) = ask(preparation.advance(plain_object(0x11, 2)));
    assert_eq!(request, NodeRequest::FetchObject(address(0x10)));
    let call = ready(preparation.advance(registry_object(9)));
    assert_eq!(
        call,
        MoveCall {
            package: package(),
            module: "pkg_storage".to_string(),
            function: "update_blob".to_string(),
            arguments: vec![
                shared(0x10, 9, false),
                owned(0x11, 2),
                shared(0x30, 7, true),
                pure_address(0x51),
                pure_address(0x52),
                clock(),
            ],
        }
    );
}

#[test]
fn update_blob_tells_a_missing_blob_from_other_failures() {
    let start = || {
        ask(update_blob(
            address(0x10),
            address(0x11),
            address(0x30),
            address(0x51),
            address(0x52),
        ))
        .0
    };
    assert_eq!(
        failed(start().advance(NodeReply::Object(ObjectLookup::Missing("gone".to_string())))),
        CanaryError::CanaryBlobNotFound
    );
    assert_eq!(
        failed(start().advance(NodeReply::Object(ObjectLookup::Failed("io".to_string())))),
        network("io")
    );
    assert_eq!(
        failed(start().advance(NodeReply::Object(object(0x30, 1, None, None)))),
        registry("Canary blob object has no type")
    );
    assert_eq!(
        failed(start().advance(NodeReply::Object(object(0x30, 1, Some("CanaryBlob"), None)))),
        registry("Failed to extract package ID from canary blob type")
    );
    let (preparation, _) = ask(start().advance(blob_object(7)));
    let (preparation, _) = ask(preparation.advance(plain_object(0x11, 2)));
    assert_eq!(
        failed(preparation.advance(NodeReply::Object(ObjectLookup::Failed("io".to_string())))),
        network("io")
    );
    let (preparation, _) = ask(start().advance(blob_object(7)));
    let (preparation, _) = ask(preparation.advance(plain_object(0x11, 2)));
    assert_eq!(
        failed(preparation.advance(NodeReply::Object(ObjectLookup::Missing("x".to_string())))),
        registry("Registry not found")
    );
}

#[test]
fn delete_canary_blob_passes_the_blob_by_value() {
    let (preparation, request) =
        ask(delete_canary_blob(address(0x10), address(0x11), address(0x30)));
    assert_eq!(request, NodeRequest::FetchObject(address(0x30)));
    let (preparation, request) = ask(preparation.advance(blob_object(7)));
    assert_eq!(request, NodeRequest::FetchObject(address(0x10)));
    let (preparation, request) = ask(preparation.advance(registry_object(9)));
    assert_eq!(request, NodeRequest::FetchObject(address(0x11)));
    let call = ready(preparation.advance(plain_object(0x11, 2)));
    assert_eq!(
        call,
        MoveCall {
            package: package(),
            module: "pkg_storage".to_string(),
            function: "delete_canary_blob".to_string(),
            arguments: vec![shared(0x10, 9, false), owned(0x11, 2), owned(0x30, 7)],
        }
    );
}

#[test]
fn derive_canary_address_names_the_registry_by_its_initial_version() {
    let (preparation, request) = ask(derive_canary_address(
        address(0x10),
        "example.com".to_string(),
        address(0x43),
    ));
    assert_eq!(request, NodeRequest::FetchObject(address(0x10)));
    let (preparation, request) = ask(preparation.advance(registry_object(9)));
    assert_eq!(request, NodeRequest::FetchObject(address(0x10)));
    let call = ready(preparation.advance(registry_object(9)));
    assert_eq!(
        call,
        MoveCall {
            package: package(),
            module: "pkg_storage".to_string(),
            function: "derive_canary_address".to_string(),
            arguments: vec![
                shared(0x10, 3, false),
                CallArgument::Pure(text_buffer("example.com")),
                pure_address(0x43),
            ],
        }
    );
}

#[test]
fn derive_canary_address_needs_a_shared_registry() {
    let (preparation, _) = ask(derive_canary_address(
        address(0x10),
        "example.com".to_string(),
        address(0x43),
    ));
    let (preparation, _) = ask(preparation.advance(registry_object(9)));
    let owned_registry = NodeReply::Object(object(
        0x10,
        9,
        Some("0xabc::member_registry::Registry"),
        Some(Owner::AddressOwner(address(1))),
    ));
    assert_eq!(
        failed(preparation.advance(owned_registry)),
        registry("Failed to get initial shared version: object is not shared")
    );
}

#[test]
fn query_canary_blob_asks_for_full_info() {
    let (preparation, request) = ask(query_canary_blob(address(0x30)));
    assert_eq!(request, NodeRequest::FetchObject(address(0x30)));
    let (preparation, request) = ask(preparation.advance(blob_object(7)));
    assert_eq!(request, NodeRequest::FetchObject(address(0x30)));
    let call = ready(preparation.advance(blob_object(7)));
    assert_eq!(
        call,
        MoveCall {
            package: package(),
            module: "pkg_storage".to_string(),
            function: "get_full_info".to_string(),
            arguments: vec![shared(0x30, 5, false)],
        }
    );
}

#[test]
fn query_registry_asks_for_the_admin() {
    let (preparation, _) = ask(query_registry(address(0x10)));
    let (preparation, request) = ask(preparation.advance(registry_object(9)));
    assert_eq!(request, NodeRequest::FetchObject(address(0x10)));
    let call = ready(preparation.advance(registry_object(10)));
    assert_eq!(
        call,
        MoveCall {
            package: package(),
            module: "member_registry".to_string(),
            function: "get_admin".to_string(),
            arguments: vec![shared(0x10, 10, false)],
        }
    );
}

#[test]
fn query_member_asks_for_membership_then_for_the_record() {
    let (preparation, _) = ask(query_member(address(0x10), address(0x77)));
    let (preparation, _) = ask(preparation.advance(registry_object(9)));
    let call = ready(preparation.advance(registry_object(9)));
    assert_eq!(
        call,
        MoveCall {
            package: package(),
            module: "member_registry".to_string(),
            function: "is_member".to_string(),
            arguments: vec![shared(0x10, 9, false), pure_address(0x77)],
        }
    );

    assert!(query_member_info(false, call.package, address(0x10), address(0x77)).is_none());
    let next = query_member_info(true, call.package, address(0x10), address(0x77)).unwrap();
    let (preparation, request) = ask(next);
    assert_eq!(request, NodeRequest::FetchObject(address(0x10)));
    let call = ready(preparation.advance(registry_object(11)));
    assert_eq!(
        call,
        MoveCall {
            package: package(),
            module: "member_registry".to_string(),
            function: "get_member_info".to_string(),
            arguments: vec![shared(0x10, 11, false), pure_address(0x77)],
        }
    );
}

#[test]
fn operations_know_their_plan_and_kind() {
    let join = CanaryOperation::JoinRegistry {
        signer: address(0xaa),
        registry_id: address(0x10),
        domain: "d".to_string(),
        payment_amount: 1,
    };
    assert!(join.is_mutation());
    assert_eq!(
        join.plan_step(0),
        Some((PlanTarget::Object(address(0x10)), ObjectRole::RegistryForJoin))
    );
    assert_eq!(
        join.plan_step(1),
        Some((PlanTarget::FirstCoinOf(address(0xaa)), ObjectRole::PaymentCoin))
    );
    assert_eq!(join.plan_step(2), None);
    let query = CanaryOperation::QueryMemberInfo {
        package: package(),
        registry_id: address(0x10),
        member: address(1),
    };
    assert!(!query.is_mutation());
    assert_eq!(
        query.plan_step(0),
        Some((PlanTarget::Object(address(0x10)), ObjectRole::RegistryVersion))
    );
    assert_eq!(query.plan_step(1), None);
    let delete = CanaryOperation::DeleteCanaryBlob {
        registry_id: address(0x10),
        admin_cap_id: address(0x11),
        canary_blob_id: address(0x30),
    };
    assert!(delete.is_mutation());
    assert_eq!(
        delete.plan_step(2),
        Some((PlanTarget::Object(address(0x11)), ObjectRole::AdminCap))
    );
    assert_eq!(delete.plan_step(3), None);
}

#[test]
fn lay_out_works_on_what_was_resolved() {
    let operation = CanaryOperation::QueryIsMember {
        registry_id: address(0x10),
        member: address(0x77),
    };
    let resolved = vec![
        Resolved {
            reference: reference(0x10, 4),
            package: Some(package()),
            initial_shared_version: None,
        },
        Resolved {
            reference: reference(0x10, 6),
            package: None,
            initial_shared_version: None,
        },
    ];
    assert_eq!(
        operation.lay_out_arguments(&resolved),
        Ok(vec![shared(0x10, 6, false), pure_address(0x77)])
    );
    assert_eq!(operation.lay_out(&resolved).unwrap().package, package());
    let unresolved = vec![resolved[1], resolved[1]];
    assert_eq!(
        operation.lay_out(&unresolved),
        Err(registry("Registry object has no type"))
    );
}

#[test]
fn five_values_where_six_are_expected_is_a_decode_error() {
    let arity = registry("get_full_info returned unexpected number of values");
    let mut buffers = vec![
        address(1).to_vec(),
        address(2).to_vec(),
        address(3).to_vec(),
        text_buffer("example.com"),
        vec![1, 0, 0, 0, 0, 0, 0, 0],
    ];
    assert_eq!(
        decode_canary_blob(address(0x30), &returned(buffers.clone())),
        Err(arity.clone())
    );
    assert_ne!(arity, CanaryError::CanaryBlobNotFound);
    buffers.push(address(4).to_vec());
    assert!(decode_canary_blob(address(0x30), &returned(buffers.clone())).is_ok());
    buffers.push(vec![]);
    assert_eq!(
        decode_canary_blob(address(0x30), &returned(buffers)),
        Err(arity.clone())
    );
    assert_eq!(
        decode_canary_blob(address(0x30), &returned(vec![])),
        Err(arity)
    );
}

#[test]
fn blob_record_is_read_field_by_field() {
    let buffers = vec![
        address(1).to_vec(),
        address(2).to_vec(),
        address(3).to_vec(),
        text_buffer("example.com"),
        vec![0x15, 0xcd, 0x5b, 0x07, 0, 0, 0, 0],
        address(4).to_vec(),
    ];
    assert_eq!(
        decode_canary_blob(address(0x30), &returned(buffers)),
        Ok(CanaryBlobInfo {
            id: address(0x30),
            contract_blob_id: address(1),
            explain_blob_id: address(2),
            package_id: address(3),
            domain: "example.com".to_string(),
            uploaded_at: 123_456_789,
            uploaded_by_admin: address(4),
        })
    );
}

#[test]
fn blob_record_reports_the_first_field_that_cannot_be_read() {
    let good = vec![
        address(1).to_vec(),
        address(2).to_vec(),
        address(3).to_vec(),
        text_buffer("example.com"),
        vec![1, 0, 0, 0, 0, 0, 0, 0],
        address(4).to_vec(),
    ];
    let with = |index: usize, buffer: Vec<u8>| {
        let mut buffers = good.clone();
        buffers[index] = buffer;
        decode_canary_blob(address(0x30), &returned(buffers))
    };
    assert_eq!(
        with(0, vec![1; 31]),
        Err(registry("Invalid address length: expected 32, got 31"))
    );
    assert_eq!(
        with(1, vec![1; 33]),
        Err(registry("Invalid address length: expected 32, got 33"))
    );
    assert_eq!(
        with(2, vec![]),
        Err(registry("Invalid address length: expected 32, got 0"))
    );
    assert_eq!(
        with(3, vec![5, b'a']),
        Err(registry(
            "Failed to deserialize domain: unexpected end of input"
        ))
    );
    assert_eq!(
        with(4, vec![1, 0, 0, 0]),
        Err(registry(
            "Failed to deserialize uploaded_at: unexpected end of input"
        ))
    );
    assert_eq!(
        with(5, vec![0; 16]),
        Err(registry("Invalid address length: expected 32, got 16"))
    );
    let mut two_bad = good.clone();
    two_bad[1] = vec![0; 2];
    two_bad[4] = vec![];
    assert_eq!(
        decode_canary_blob(address(0x30), &returned(two_bad)),
        Err(registry("Invalid address length: expected 32, got 2"))
    );
}

#[test]
fn admin_is_exactly_one_address() {
    let arity = registry("get_admin returned unexpected number of values");
    assert_eq!(
        decode_admin(&returned(vec![address(0x99).to_vec()])),
        Ok(address(0x99))
    );
    assert_eq!(
        decode_admin(&returned(vec![address(0x99).to_vec(), vec![1]])),
        Err(arity.clone())
    );
    assert_eq!(
        decode_admin(&returned(vec![address(0x99).to_vec(), address(0x98).to_vec()])),
        Err(arity.clone())
    );
    assert_eq!(decode_admin(&returned(vec![])), Err(arity));
    assert_eq!(
        decode_admin(&returned(vec![vec![0; 20]])),
        Err(registry("Invalid admin address length: expected 32, got 20"))
    );
}

#[test]
fn registry_info_stops_at_the_fields_that_cannot_be_asked_for() {
    let words = "query_registry_fields requires Move view functions get_member_count() and get_fee(). Please add these functions to the member_registry module or parse object BCS data.";
    assert_eq!(query_registry_fields(), Err(registry(words)));
    assert_eq!(
        registry_info(address(0x10), &returned(vec![address(0x99).to_vec()])),
        Err(registry(words))
    );
    assert_eq!(
        registry_info(address(0x10), &returned(vec![])),
        Err(registry("get_admin returned unexpected number of values"))
    );
    assert_eq!(
        registry_info(
            address(0x10),
            &returned(vec![address(0x99).to_vec(), address(0x99).to_vec()])
        ),
        Err(registry("get_admin returned unexpected number of values"))
    );
    assert_eq!(
        registry_info(address(0x10), &returned(vec![vec![1, 2, 3]])),
        Err(registry("Invalid admin address length: expected 32, got 3"))
    );
}

#[test]
fn membership_is_one_truth_value() {
    assert_eq!(decode_is_member(&returned(vec![vec![1]])), Ok(true));
    assert_eq!(decode_is_member(&returned(vec![vec![0]])), Ok(false));
    assert_eq!(
        decode_is_member(&returned(vec![])),
        Err(registry("is_member returned unexpected number of values"))
    );
    assert_eq!(
        decode_is_member(&returned(vec![vec![1], vec![1]])),
        Err(registry("is_member returned unexpected number of values"))
    );
    assert_eq!(
        decode_is_member(&returned(vec![vec![7]])),
        Err(registry("Failed to deserialize is_member: expected boolean"))
    );
}

#[test]
fn member_record_is_domain_then_time() {
    assert_eq!(
        decode_member_info(&returned(vec![
            text_buffer("example.com"),
            vec![0, 1, 0, 0, 0, 0, 0, 0]
        ])),
        Ok(MemberInfo {
            domain: "example.com".to_string(),
            joined_at: 256,
        })
    );
    for buffers in [vec![], vec![text_buffer("a")], vec![vec![0], vec![0; 8], vec![]]] {
        assert_eq!(
            decode_member_info(&returned(buffers)),
            Err(registry(
                "get_member_info returned unexpected number of values"
            ))
        );
    }
    assert_eq!(
        decode_member_info(&returned(vec![vec![9], vec![0; 8]])),
        Err(registry(
            "Failed to deserialize domain: unexpected end of input"
        ))
    );
    assert_eq!(
        decode_member_info(&returned(vec![text_buffer("a"), vec![0; 9]])),
        Err(registry("Failed to deserialize joined_at: remaining input"))
    );
}

#[test]
fn derived_address_is_one_address() {
    let bytes: Vec<u8> = (50u8..82u8).collect();
    assert_eq!(
        decode_canary_address(&returned(vec![bytes.clone()]))
            .unwrap()
            .to_vec(),
        bytes
    );
    assert_eq!(
        decode_canary_address(&returned(vec![])),
        Err(registry(
            "derive_canary_address returned unexpected number of values"
        ))
    );
    assert_eq!(
        decode_canary_address(&returned(vec![bytes.clone(), bytes.clone()])),
        Err(registry(
            "derive_canary_address returned unexpected number of values"
        ))
    );
    assert_eq!(
        decode_canary_address(&returned(vec![vec![0; 64]])),
        Err(registry("Invalid address length: expected 32, got 64"))
    );
}

#[test]
fn inspection_runs_price_then_inspection_then_values() {
    let args = vec![shared(0x30, 5, false)];
    let (inspection, request) =
        Inspection::start(package(), "pkg_storage", "get_full_info", args.clone()).unwrap();
    assert_eq!(request, NodeRequest::ReferenceGasPrice);
    let inspection = match inspection.advance(NodeReply::GasPrice(Ok(1000))) {
        QueryProgress::Ask(inspection, request) => {
            assert_eq!(
                request,
                NodeRequest::DevInspect(TransactionPayload {
                    sender: address(1),
                    gas_payment: None,
                    operations: vec![PendingOperation::Call(MoveCall {
                        package: package(),
                        module: "pkg_storage".to_string(),
                        function: "get_full_info".to_string(),
                        arguments: args,
                    })],
                    gas_price: 1000,
                    gas_budget: 10_000_000,
                })
            );
            inspection
        }
        _ => panic!("expected the inspection request"),
    };
    match inspection.advance(NodeReply::ReturnValues(Ok(vec![vec![1, 2], vec![]]))) {
        QueryProgress::Executed(values) => {
            assert_eq!(values.len(), 2);
            assert_eq!(values.get(0), &[1u8, 2u8][..]);
            assert!(values.get(1).is_empty());
        }
        _ => panic!("expected the values"),
    }
}

#[test]
fn inspection_refuses_bad_names_and_reports_failures() {
    assert_eq!(
        Inspection::start(package(), "", "f", vec![]).err(),
        Some(registry("Invalid module name: Invalid identifier ''"))
    );
    assert_eq!(
        Inspection::start(package(), "m", "not valid", vec![]).err(),
        Some(registry(
            "Invalid function name: Invalid identifier 'not valid'"
        ))
    );
    let start = || Inspection::start(package(), "m", "f", vec![]).unwrap().0;
    match start().advance(NodeReply::GasPrice(Err("down".to_string()))) {
        QueryProgress::Failed(error) => {
            assert_eq!(error, network("down"))
        }
        _ => panic!("expected a failure"),
    }
    match start().advance(NodeReply::ReturnValues(Ok(vec![]))) {
        QueryProgress::Failed(error) => assert_eq!(
            error,
            registry("Unexpected reply: the node was asked for something else")
        ),
        _ => panic!("expected a failure"),
    }
    let inspection = match start().advance(NodeReply::GasPrice(Ok(1))) {
        QueryProgress::Ask(inspection, _) => inspection,
        _ => panic!("expected the inspection request"),
    };
    match inspection.advance(NodeReply::ReturnValues(Err("abort 3".to_string()))) {
        QueryProgress::Failed(error) => assert_eq!(error, network("abort 3")),
        _ => panic!("expected a failure"),
    }
}

#[test]
fn errors_of_lower_layers_convert_into_canary_errors() {
    let build = TransactionError::BuildError("x".to_string());
    assert_eq!(
        CanaryError::from(build.clone()),
        CanaryError::Transaction(build)
    );
    let client = ClientError::InvalidUrl("u".to_string());
    assert_eq!(CanaryError::from(client.clone()), CanaryError::Client(client));
    let gas = TransactionError::InsufficientGas {
        required: 1,
        available: 0,
    };
    assert_eq!(CanaryError::from(gas.clone()), CanaryError::Transaction(gas));
    assert_ne!(
        CanaryError::from(TransactionError::ObjectNotFound(address(1))),
        CanaryError::from(TransactionError::ObjectNotFound(address(2)))
    );
    assert_ne!(
        CanaryError::from(ClientError::ClientCreation("a".to_string())),
        CanaryError::from(ClientError::Network("a".to_string()))
    );
    assert_ne!(CanaryError::NotMember, CanaryError::NotAdmin);
}

#[test]
fn info_records_hold_what_they_are_given() {
    let info = RegistryInfo {
        id: address(1),
        fee: 1_000_000_000,
        member_count: 3,
        admin: address(2),
    };
    assert_eq!(info.fee, 1_000_000_000);
    assert_eq!(info, info.clone());
    let member = MemberInfoWithAddress {
        member: address(3),
        domain: "example.com".to_string(),
        joined_at: 17,
    };
    assert_eq!(member.clone(), member);
    assert_eq!(member.domain, "example.com");
}
