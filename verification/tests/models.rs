use radix_engine_toolkit::bucket_id::BucketId;
use radix_engine_toolkit::bucket_id::Identifier;
use radix_engine_toolkit::error::Error;
use radix_engine_toolkit::information::Handler;
use radix_engine_toolkit::information::Input;
use radix_engine_toolkit::information::Output;
use radix_engine_toolkit::instruction::classify_account_method;
use radix_engine_toolkit::instruction::classify_method_call;
use radix_engine_toolkit::instruction::AccountMethod;
use radix_engine_toolkit::instruction::Argument;
use radix_engine_toolkit::instruction::CallEffect;
use radix_engine_toolkit::instruction::GlobalAddress;
use radix_engine_toolkit::instruction::Instruction;
use radix_engine_toolkit::manifest::Manifest;
use radix_engine_toolkit::manifest::ManifestKind;
use radix_engine_toolkit::manifest::TransactionManifest;
use radix_engine_toolkit::sbor::payload_kind;
use radix_engine_toolkit::sbor::LocalTypeIndex;
use radix_engine_toolkit::sbor::ManifestSborStringRepresentation;
use radix_engine_toolkit::sbor::PayloadKind;
use radix_engine_toolkit::sbor::Schema;
use radix_engine_toolkit::sbor::SerializationMode;
use radix_engine_toolkit::sbor::MANIFEST_SBOR_V1_PAYLOAD_PREFIX;
use radix_engine_toolkit::sbor::SCRYPTO_SBOR_V1_PAYLOAD_PREFIX;
use radix_engine_toolkit::validation::validate_transaction_version;
use radix_engine_toolkit::validation::TRANSACTION_VERSION_V1;
use scrypto::blueprints::account;

#[test]
fn a_bucket_id_holds_its_number() {
    assert_eq!(BucketId(7).value(), 7);
    assert_ne!(Identifier::U32(1), Identifier::String("1".to_string()));
}

#[test]
fn the_kind_of_a_manifest() {
    assert_eq!(Manifest::String("DROP_ALL_PROOFS;".to_string()).kind(), ManifestKind::String);
    assert_eq!(Manifest::JSON(vec![Instruction::DropAllProofs]).kind(), ManifestKind::JSON);
}

#[test]
fn a_manifest_in_text_becomes_the_parsed_one() {
    let text = Manifest::String("DROP_ALL_PROOFS;".to_string());
    assert_eq!(
        text.to_json_manifest(vec![Instruction::DropAllProofs]),
        Manifest::JSON(vec![Instruction::DropAllProofs])
    );
    let list = Manifest::JSON(vec![Instruction::PopFromAuthZone]);
    assert_eq!(
        list.to_json_manifest(vec![Instruction::DropAllProofs]),
        Manifest::JSON(vec![Instruction::PopFromAuthZone])
    );
    let manifest = TransactionManifest { instructions: Manifest::JSON(vec![]), blobs: vec![vec![1]] };
    assert_eq!(manifest.instructions.kind(), ManifestKind::JSON);
}

#[test]
fn only_the_first_transaction_version_is_known() {
    assert_eq!(TRANSACTION_VERSION_V1, 1);
    assert_eq!(validate_transaction_version(1), Ok(()));
    assert_eq!(validate_transaction_version(0), Err(Error::UnsupportedTransactionVersion(0)));
    assert_eq!(validate_transaction_version(2), Err(Error::UnsupportedTransactionVersion(2)));
    assert_eq!(validate_transaction_version(255), Err(Error::UnsupportedTransactionVersion(255)));
}

#[test]
fn the_information_request_passes_the_build_information_on() {
    let input = Handler::pre_process(Input {}).unwrap();
    let output = Handler::handle(&input, "1.0.0".to_string(), "abc".to_string()).unwrap();
    assert_eq!(
        output,
        Output { package_version: "1.0.0".to_string(), last_commit_hash: "abc".to_string() }
    );
    assert_eq!(Handler::post_process(&input, output.clone()), Ok(output));
}

#[test]
fn the_payload_prefixes_are_those_of_the_codecs() {
    assert_eq!(SCRYPTO_SBOR_V1_PAYLOAD_PREFIX, radix_common::constants::SCRYPTO_SBOR_V1_PAYLOAD_PREFIX);
    assert_eq!(MANIFEST_SBOR_V1_PAYLOAD_PREFIX, radix_common::constants::MANIFEST_SBOR_V1_PAYLOAD_PREFIX);
    assert_eq!(payload_kind(&vec![0x5c, 0x21]), Some(PayloadKind::Scrypto));
    assert_eq!(payload_kind(&vec![0x4d]), Some(PayloadKind::Manifest));
    assert_eq!(payload_kind(&vec![0x00, 0x5c]), None);
    assert_eq!(payload_kind(&vec![]), None);
    let encoded = radix_common::data::scrypto::scrypto_encode(&7u8).unwrap();
    assert_eq!(payload_kind(&encoded), Some(PayloadKind::Scrypto));
    let encoded = radix_common::data::manifest::manifest_encode(&7u8).unwrap();
    assert_eq!(payload_kind(&encoded), Some(PayloadKind::Manifest));
}

#[test]
fn the_models_of_representations_and_schemas() {
    let representation = ManifestSborStringRepresentation::JSON { value: SerializationMode::Natural };
    assert_ne!(representation, ManifestSborStringRepresentation::ManifestString);
    assert_ne!(SerializationMode::Natural, SerializationMode::Programmatic);
    let schema = Schema { local_type_index: LocalTypeIndex::WellKnown { value: 1 }, schema: vec![] };
    assert_ne!(schema.local_type_index, LocalTypeIndex::SchemaLocalIndex { value: 1 });
}

#[test]
fn the_table_names_the_methods_as_the_account_blueprint_does() {
    let class = |name: &str| classify_account_method(&name.to_string());
    assert_eq!(class(account::ACCOUNT_WITHDRAW_IDENT), AccountMethod::Withdraw);
    assert_eq!(class(account::ACCOUNT_WITHDRAW_NON_FUNGIBLES_IDENT), AccountMethod::WithdrawNonFungibles);
    assert_eq!(class(account::ACCOUNT_LOCK_FEE_AND_WITHDRAW_IDENT), AccountMethod::LockFeeAndWithdraw);
    assert_eq!(
        class(account::ACCOUNT_LOCK_FEE_AND_WITHDRAW_NON_FUNGIBLES_IDENT),
        AccountMethod::LockFeeAndWithdrawNonFungibles
    );
    for name in [
        account::ACCOUNT_DEPOSIT_IDENT,
        account::ACCOUNT_DEPOSIT_BATCH_IDENT,
        account::ACCOUNT_TRY_DEPOSIT_OR_ABORT_IDENT,
        account::ACCOUNT_TRY_DEPOSIT_BATCH_OR_ABORT_IDENT,
    ] {
        assert_eq!(class(name), AccountMethod::Deposit);
    }
    for name in [
        account::ACCOUNT_LOCK_FEE_IDENT,
        account::ACCOUNT_LOCK_CONTINGENT_FEE_IDENT,
        account::ACCOUNT_CREATE_PROOF_OF_AMOUNT_IDENT,
        account::ACCOUNT_CREATE_PROOF_OF_NON_FUNGIBLES_IDENT,
        account::ACCOUNT_SET_DEFAULT_DEPOSIT_RULE_IDENT,
        account::ACCOUNT_SET_RESOURCE_PREFERENCE_IDENT,
        account::ACCOUNT_REMOVE_RESOURCE_PREFERENCE_IDENT,
        account::ACCOUNT_ADD_AUTHORIZED_DEPOSITOR_IDENT,
        account::ACCOUNT_REMOVE_AUTHORIZED_DEPOSITOR_IDENT,
        account::ACCOUNT_BURN_IDENT,
        account::ACCOUNT_BURN_NON_FUNGIBLES_IDENT,
    ] {
        assert_eq!(class(name), AccountMethod::Inert);
    }
    for name in [
        account::ACCOUNT_SECURIFY_IDENT,
        account::ACCOUNT_TRY_DEPOSIT_OR_REFUND_IDENT,
        account::ACCOUNT_TRY_DEPOSIT_BATCH_OR_REFUND_IDENT,
        "Withdraw",
        "",
    ] {
        assert_eq!(class(name), AccountMethod::Unlisted);
    }
}

#[test]
fn a_call_is_to_an_account_by_the_entity_byte_of_its_address() {
    for entity in 0..=255u8 {
        let mut bytes = [0u8; 30];
        bytes[0] = entity;
        let effect =
            classify_method_call(&GlobalAddress::Static(bytes), &"lock_fee".to_string(), &vec![]);
        let is_account = radix_common::types::NodeId(bytes).is_global_account();
        assert_eq!(is_account, entity == 193 || entity == 209 || entity == 81);
        assert_eq!(effect, if is_account { CallEffect::Nothing } else { CallEffect::Arbitrary });
    }
    assert_eq!(
        classify_method_call(&GlobalAddress::Named(193), &"lock_fee".to_string(), &vec![]),
        CallEffect::Arbitrary
    );
}

#[test]
fn a_deposit_is_read_from_its_first_argument() {
    let mut bytes = [0u8; 30];
    bytes[0] = 193;
    let account = GlobalAddress::Static(bytes);
    let deposit = |args: Vec<Argument>| classify_method_call(&account, &"deposit".to_string(), &args);
    assert_eq!(deposit(vec![Argument::Bucket(BucketId(4))]), CallEffect::Deposit(BucketId(4)));
    assert_eq!(
        deposit(vec![Argument::Bucket(BucketId(4)), Argument::Other]),
        CallEffect::Deposit(BucketId(4))
    );
    assert_eq!(deposit(vec![Argument::EntireWorktop]), CallEffect::DepositEntireWorktop);
    assert_eq!(deposit(vec![Argument::Other]), CallEffect::UnknownTake);
    assert_eq!(deposit(vec![]), CallEffect::UnknownTake);
}
