//! The instructions of a manifest, as far as the analysis reads them, and the
//! table of the calls whose effect on the worktop is known.

use crate::bucket_id::BucketId;
use crate::decimal::Decimal;
use crate::resource::id_set;
use crate::resource::ids_copy;
use crate::resource::NonFungibleLocalId;
use crate::resource::ResourceAddress;
use crate::resource::ResourceSpecifier;
use crate::resource::SpecifierView;
use vstd::prelude::*;
use vstd::string::StringExecFns;

verus! {

/// The address that a call goes to: one written out in the manifest, or one
/// that an earlier instruction of the manifest has reserved.
#[derive(Clone, Copy, Debug, PartialEq, Eq)]
pub enum GlobalAddress {
    /// The 30 bytes of a node id.
    Static([u8; 30]),
    /// The number of a named address of the manifest.
    Named(u32),
}

/// One argument of a call, already decoded. Only what the analysis can make
/// use of is told apart.
#[derive(Debug, PartialEq, Eq)]
pub enum Argument {
    /// The address of a resource.
    Address(ResourceAddress),
    /// A decimal number.
    Decimal(Decimal),
    /// A collection of non-fungible ids.
    NonFungibleLocalIds(Vec<NonFungibleLocalId>),
    /// A bucket.
    Bucket(BucketId),
    /// The expression that stands for all that is on the worktop.
    EntireWorktop,
    /// Any other value.
    Other,
}

/// One instruction of a manifest. An instruction holds what the analysis
/// reads of it: the resource, the quantity or the bucket that it names, and
/// for a call of a method where it goes and with what.
#[derive(Debug, PartialEq, Eq)]
pub enum Instruction {
    /// Takes all of a resource from the worktop into a new bucket.
    TakeAllFromWorktop { resource_address: ResourceAddress },
    /// Takes an amount of a resource from the worktop into a new bucket.
    TakeFromWorktop { resource_address: ResourceAddress, amount: Decimal },
    /// Takes non-fungibles from the worktop into a new bucket.
    TakeNonFungiblesFromWorktop { resource_address: ResourceAddress, ids: Vec<NonFungibleLocalId> },
    /// Puts the content of a bucket back on the worktop.
    ReturnToWorktop { bucket_id: BucketId },
    /// Asserts that the worktop holds some of a resource.
    AssertWorktopContainsAny,
    /// Asserts that the worktop holds an amount of a resource.
    AssertWorktopContains,
    /// Asserts that the worktop holds non-fungibles.
    AssertWorktopContainsNonFungibles,
    /// Takes the last proof from the auth zone.
    PopFromAuthZone,
    /// Puts a proof on the auth zone.
    PushToAuthZone,
    /// Makes a proof of an amount out of the auth zone.
    CreateProofFromAuthZoneOfAmount,
    /// Makes a proof of non-fungibles out of the auth zone.
    CreateProofFromAuthZoneOfNonFungibles,
    /// Makes a proof of all of a resource out of the auth zone.
    CreateProofFromAuthZoneOfAll,
    /// Drops the proofs in the auth zone.
    DropAuthZoneProofs,
    /// Drops the proofs in the auth zone that are no signature proofs.
    DropAuthZoneRegularProofs,
    /// Drops the signature proofs in the auth zone.
    DropAuthZoneSignatureProofs,
    /// Makes a copy of a proof.
    CloneProof,
    /// Drops a proof.
    DropProof,
    /// Drops the proofs that the manifest has named.
    DropNamedProofs,
    /// Drops every proof.
    DropAllProofs,
    /// Reserves a global address.
    AllocateGlobalAddress,
    /// Makes a proof of an amount out of a bucket, which stays.
    CreateProofFromBucketOfAmount { bucket_id: BucketId, amount: Decimal },
    /// Makes a proof of non-fungibles out of a bucket, which stays.
    CreateProofFromBucketOfNonFungibles { bucket_id: BucketId, ids: Vec<NonFungibleLocalId> },
    /// Makes a proof of all that a bucket holds, and consumes the bucket.
    CreateProofFromBucketOfAll { bucket_id: BucketId },
    /// Burns what a bucket holds.
    BurnResource { bucket_id: BucketId },
    /// Calls a method of a global entity.
    CallMethod { address: GlobalAddress, method_name: String, args: Vec<Argument> },
    /// Calls a function of a blueprint.
    CallFunction,
    /// Calls a method of the royalty module of an entity.
    CallRoyaltyMethod,
    /// Calls a method of the role assignment module of an entity.
    CallRoleAssignmentMethod,
    /// Calls a method of the metadata module of an entity.
    CallMetadataMethod,
    /// Calls a method of a vault.
    CallDirectVaultMethod,
}

impl Instruction {
    /// Whether the instruction belongs to those that only assert, or only
    /// handle proofs, the auth zone or address reservations: they touch
    /// neither the worktop nor a bucket.
    pub open spec fn is_pure(self) -> bool {
        match self {
            Instruction::AssertWorktopContainsAny
            | Instruction::AssertWorktopContains
            | Instruction::AssertWorktopContainsNonFungibles
            | Instruction::PopFromAuthZone
            | Instruction::PushToAuthZone
            | Instruction::CreateProofFromAuthZoneOfAmount
            | Instruction::CreateProofFromAuthZoneOfNonFungibles
            | Instruction::CreateProofFromAuthZoneOfAll
            | Instruction::DropAuthZoneProofs
            | Instruction::DropAuthZoneRegularProofs
            | Instruction::DropAuthZoneSignatureProofs
            | Instruction::CloneProof
            | Instruction::DropProof
            | Instruction::DropNamedProofs
            | Instruction::DropAllProofs
            | Instruction::AllocateGlobalAddress => true,
            _ => false,
        }
    }

    /// Whether the instruction takes from the worktop or returns to it.
    pub open spec fn is_take_or_return(self) -> bool {
        match self {
            Instruction::TakeAllFromWorktop { .. }
            | Instruction::TakeFromWorktop { .. }
            | Instruction::TakeNonFungiblesFromWorktop { .. }
            | Instruction::ReturnToWorktop { .. } => true,
            _ => false,
        }
    }
}

/// What a call does to the worktop and the buckets, as far as it is known.
#[derive(Debug, PartialEq, Eq)]
pub enum CallEffect {
    /// It moves no resources.
    Nothing,
    /// It puts exactly these resources on the worktop.
    Put(ResourceSpecifier),
    /// It puts resources on the worktop, and which is not known.
    UnknownPut,
    /// It consumes this bucket.
    Deposit(BucketId),
    /// It takes all that is on the worktop.
    DepositEntireWorktop,
    /// It takes resources, and which is not known.
    UnknownTake,
    /// It may do anything to the worktop and to the buckets.
    Arbitrary,
}

/// What a call effect holds.
#[verifier::ext_equal]
pub enum CallEffectView {
    Nothing,
    Put(SpecifierView),
    UnknownPut,
    Deposit(u32),
    DepositEntireWorktop,
    UnknownTake,
    Arbitrary,
}

impl View for CallEffect {
    type V = CallEffectView;

    open spec fn view(&self) -> CallEffectView {
        match self {
            CallEffect::Nothing => CallEffectView::Nothing,
            CallEffect::Put(resources) => CallEffectView::Put(resources@),
            CallEffect::UnknownPut => CallEffectView::UnknownPut,
            CallEffect::Deposit(bucket_id) => CallEffectView::Deposit(bucket_id.0),
            CallEffect::DepositEntireWorktop => CallEffectView::DepositEntireWorktop,
            CallEffect::UnknownTake => CallEffectView::UnknownTake,
            CallEffect::Arbitrary => CallEffectView::Arbitrary,
        }
    }
}

/// The methods of an account, by what they do to the worktop.
#[derive(Clone, Copy, Debug, PartialEq, Eq, Structural)]
pub enum AccountMethod {
    /// Moves nothing to or from the worktop.
    Inert,
    /// Withdraws an amount: the arguments are the resource and the amount.
    Withdraw,
    /// Withdraws non-fungibles: the arguments are the resource and the ids.
    WithdrawNonFungibles,
    /// Locks a fee, then withdraws an amount: the arguments are the fee, the
    /// resource and the amount.
    LockFeeAndWithdraw,
    /// Locks a fee, then withdraws non-fungibles: the arguments are the fee,
    /// the resource and the ids.
    LockFeeAndWithdrawNonFungibles,
    /// Deposits what its first argument names: a bucket, or all that is on
    /// the worktop.
    Deposit,
    /// Not in the table.
    Unlisted,
}

/// The table of the account methods.
pub open spec fn account_method(name: Seq<char>) -> AccountMethod {
    if name == "withdraw"@ {
        AccountMethod::Withdraw
    } else if name == "withdraw_non_fungibles"@ {
        AccountMethod::WithdrawNonFungibles
    } else if name == "lock_fee_and_withdraw"@ {
        AccountMethod::LockFeeAndWithdraw
    } else if name == "lock_fee_and_withdraw_non_fungibles"@ {
        AccountMethod::LockFeeAndWithdrawNonFungibles
    } else if name == "deposit"@ || name == "deposit_batch"@ || name == "try_deposit_or_abort"@
        || name == "try_deposit_batch_or_abort"@ {
        AccountMethod::Deposit
    } else if name == "lock_fee"@ || name == "lock_contingent_fee"@ || name
        == "create_proof_of_amount"@ || name == "create_proof_of_non_fungibles"@ || name
        == "set_default_deposit_rule"@ || name == "set_resource_preference"@ || name
        == "remove_resource_preference"@ || name == "add_authorized_depositor"@ || name
        == "remove_authorized_depositor"@ || name == "burn"@ || name == "burn_non_fungibles"@ {
        AccountMethod::Inert
    } else {
        AccountMethod::Unlisted
    }
}

/// Whether a node id that starts with this byte is that of an account.
pub open spec fn is_account_entity_byte(byte: u8) -> bool {
    byte == 193 || byte == 209 || byte == 81
}

/// Whether a call to this address is a call to an account.
pub open spec fn is_account(address: GlobalAddress) -> bool {
    match address {
        GlobalAddress::Static(bytes) => is_account_entity_byte(bytes@[0]),
        GlobalAddress::Named(_) => false,
    }
}

/// What a withdrawal of an amount puts on the worktop, where the two
/// arguments are a resource and an amount.
pub open spec fn withdrawn_amount(resource: Argument, amount: Argument) -> CallEffectView {
    match (resource, amount) {
        (Argument::Address(address), Argument::Decimal(amount)) => CallEffectView::Put(
            SpecifierView::Amount(address@, amount.attos()),
        ),
        _ => CallEffectView::UnknownPut,
    }
}

/// What a withdrawal of non-fungibles puts on the worktop, where the two
/// arguments are a resource and ids.
pub open spec fn withdrawn_ids(resource: Argument, ids: Argument) -> CallEffectView {
    match (resource, ids) {
        (Argument::Address(address), Argument::NonFungibleLocalIds(ids)) => CallEffectView::Put(
            SpecifierView::Ids(address@, id_set(ids@)),
        ),
        _ => CallEffectView::UnknownPut,
    }
}

/// What a deposit takes, by its first argument.
pub open spec fn deposited(what: Argument) -> CallEffectView {
    match what {
        Argument::Bucket(bucket_id) => CallEffectView::Deposit(bucket_id.0),
        Argument::EntireWorktop => CallEffectView::DepositEntireWorktop,
        _ => CallEffectView::UnknownTake,
    }
}

/// The effect of a call of the method `name` of an account with the
/// arguments `args`. A withdrawal whose arguments do not say what is
/// withdrawn puts something unknown on the worktop; a deposit whose first
/// argument does not say what is deposited takes something unknown. A method
/// that the table does not list may do anything.
pub open spec fn account_call_effect(name: Seq<char>, args: Seq<Argument>) -> CallEffectView {
    match account_method(name) {
        AccountMethod::Inert => CallEffectView::Nothing,
        AccountMethod::Withdraw => if args.len() == 2 {
            withdrawn_amount(args[0], args[1])
        } else {
            CallEffectView::UnknownPut
        },
        AccountMethod::WithdrawNonFungibles => if args.len() == 2 {
            withdrawn_ids(args[0], args[1])
        } else {
            CallEffectView::UnknownPut
        },
        AccountMethod::LockFeeAndWithdraw => if args.len() == 3 {
            withdrawn_amount(args[1], args[2])
        } else {
            CallEffectView::UnknownPut
        },
        AccountMethod::LockFeeAndWithdrawNonFungibles => if args.len() == 3 {
            withdrawn_ids(args[1], args[2])
        } else {
            CallEffectView::UnknownPut
        },
        AccountMethod::Deposit => if args.len() >= 1 {
            deposited(args[0])
        } else {
            CallEffectView::UnknownTake
        },
        AccountMethod::Unlisted => CallEffectView::Arbitrary,
    }
}

/// The effect of a call of the method `name` at `address`. Only the methods
/// of accounts are known; a call to anything else may do anything.
pub open spec fn method_call_effect(
    address: GlobalAddress,
    name: Seq<char>,
    args: Seq<Argument>,
) -> CallEffectView {
    if is_account(address) {
        account_call_effect(name, args)
    } else {
        CallEffectView::Arbitrary
    }
}

/// Calls `radix_common::types::NodeId::is_global_account` on the node id made
/// of these 30 bytes. The contract claims what the entity types of
/// `radix_common::types::EntityType` give: the answer is yes exactly where
/// the first byte is 193 (an allocated account), 209 or 81 (an account
/// preallocated for a Secp256k1 or an Ed25519 key).
#[verifier::external_body]
fn native_is_global_account(bytes: &[u8; 30]) -> (account: bool)
    ensures
        account == is_account_entity_byte(bytes@[0]),
{
    radix_common::types::NodeId(*bytes).is_global_account()
}

/// Whether `name` is the given word.
fn is_named(name: &String, word: &str) -> (same: bool)
    ensures
        same == (name@ == word@),
{
    *name == String::from_str(word)
}

/// Looks the method up in the table of the account methods.
pub fn classify_account_method(name: &String) -> (method: AccountMethod)
    ensures
        method == account_method(name@),
{
    if is_named(name, "withdraw") {
        AccountMethod::Withdraw
    } else if is_named(name, "withdraw_non_fungibles") {
        AccountMethod::WithdrawNonFungibles
    } else if is_named(name, "lock_fee_and_withdraw") {
        AccountMethod::LockFeeAndWithdraw
    } else if is_named(name, "lock_fee_and_withdraw_non_fungibles") {
        AccountMethod::LockFeeAndWithdrawNonFungibles
    } else if is_named(name, "deposit") || is_named(name, "deposit_batch") || is_named(
        name,
        "try_deposit_or_abort",
    ) || is_named(name, "try_deposit_batch_or_abort") {
        AccountMethod::Deposit
    } else if is_named(name, "lock_fee") || is_named(name, "lock_contingent_fee") || is_named(
        name,
        "create_proof_of_amount",
    ) || is_named(name, "create_proof_of_non_fungibles") || is_named(
        name,
        "set_default_deposit_rule",
    ) || is_named(name, "set_resource_preference") || is_named(
        name,
        "remove_resource_preference",
    ) || is_named(name, "add_authorized_depositor") || is_named(
        name,
        "remove_authorized_depositor",
    ) || is_named(name, "burn") || is_named(name, "burn_non_fungibles") {
        AccountMethod::Inert
    } else {
        AccountMethod::Unlisted
    }
}

/// What a withdrawal of an amount puts on the worktop.
fn read_withdrawn_amount(resource: &Argument, amount: &Argument) -> (effect: CallEffect)
    ensures
        effect@ == withdrawn_amount(*resource, *amount),
{
    match (resource, amount) {
        (Argument::Address(address), Argument::Decimal(amount)) => CallEffect::Put(
            ResourceSpecifier::Amount(*address, *amount),
        ),
        _ => CallEffect::UnknownPut,
    }
}

/// What a withdrawal of non-fungibles puts on the worktop.
fn read_withdrawn_ids(resource: &Argument, ids: &Argument) -> (effect: CallEffect)
    ensures
        effect@ == withdrawn_ids(*resource, *ids),
{
    match (resource, ids) {
        (Argument::Address(address), Argument::NonFungibleLocalIds(ids)) => CallEffect::Put(
            ResourceSpecifier::Ids(*address, ids_copy(ids)),
        ),
        _ => CallEffect::UnknownPut,
    }
}

/// What a deposit takes.
fn read_deposited(what: &Argument) -> (effect: CallEffect)
    ensures
        effect@ == deposited(*what),
{
    match what {
        Argument::Bucket(bucket_id) => CallEffect::Deposit(*bucket_id),
        Argument::EntireWorktop => CallEffect::DepositEntireWorktop,
        _ => CallEffect::UnknownTake,
    }
}

/// The effect of a call of the method `method_name` at `address` with the
/// arguments `args`.
pub fn classify_method_call(address: &GlobalAddress, method_name: &String, args: &Vec<Argument>) -> (effect:
    CallEffect)
    ensures
        effect@ == method_call_effect(*address, method_name@, args@),
{
    let account = match address {
        GlobalAddress::Static(bytes) => native_is_global_account(bytes),
        GlobalAddress::Named(_) => false,
    };
    if !account {
        return CallEffect::Arbitrary;
    }
    match classify_account_method(method_name) {
        AccountMethod::Inert => CallEffect::Nothing,
        AccountMethod::Withdraw => if args.len() == 2 {
            read_withdrawn_amount(&args[0], &args[1])
        } else {
            CallEffect::UnknownPut
        },
        AccountMethod::WithdrawNonFungibles => if args.len() == 2 {
            read_withdrawn_ids(&args[0], &args[1])
        } else {
            CallEffect::UnknownPut
        },
        AccountMethod::LockFeeAndWithdraw => if args.len() == 3 {
            read_withdrawn_amount(&args[1], &args[2])
        } else {
            CallEffect::UnknownPut
        },
        AccountMethod::LockFeeAndWithdrawNonFungibles => if args.len() == 3 {
            read_withdrawn_ids(&args[1], &args[2])
        } else {
            CallEffect::UnknownPut
        },
        AccountMethod::Deposit => if args.len() >= 1 {
            read_deposited(&args[0])
        } else {
            CallEffect::UnknownTake
        },
        AccountMethod::Unlisted => CallEffect::Arbitrary,
    }
}

} // verus!
