use radix_engine_toolkit::bucket_id::BucketId;
use radix_engine_toolkit::decimal::Decimal;
use radix_engine_toolkit::instruction::Argument;
use radix_engine_toolkit::instruction::GlobalAddress;
use radix_engine_toolkit::instruction::Instruction;
use radix_engine_toolkit::resource::NonFungibleLocalId;
use radix_engine_toolkit::resource::ResourceAddress;
use radix_engine_toolkit::resource::ResourceSpecifier;
use radix_engine_toolkit::trusted_worktop::analyze;
use radix_engine_toolkit::trusted_worktop::AnalysisError;
use radix_engine_toolkit::trusted_worktop::TrustedWorktop;
use radix_engine_toolkit::trusted_worktop::TrustedWorktopInstruction;

fn xrd() -> ResourceAddress {
    ResourceAddress(radix_common::constants::XRD.into())
}

fn badge() -> ResourceAddress {
    let mut bytes = [7u8; 30];
    bytes[0] = 154;
    ResourceAddress(bytes)
}

fn account() -> GlobalAddress {
    let mut bytes = [1u8; 30];
    bytes[0] = 193;
    GlobalAddress::Static(bytes)
}

fn component() -> GlobalAddress {
    let mut bytes = [1u8; 30];
    bytes[0] = 192;
    GlobalAddress::Static(bytes)
}

fn dec(attos: i64) -> Decimal {
    Decimal::from_attos(attos)
}

fn amount(attos: i64) -> ResourceSpecifier {
    ResourceSpecifier::Amount(xrd(), dec(attos))
}

fn integer(n: u64) -> NonFungibleLocalId {
    NonFungibleLocalId::Integer(n)
}

fn badges(ids: &[u64]) -> ResourceSpecifier {
    ResourceSpecifier::Ids(badge(), ids.iter().map(|n| integer(*n)).collect())
}

fn call(address: GlobalAddress, method: &str, args: Vec<Argument>) -> Instruction {
    Instruction::CallMethod { address, method_name: method.to_string(), args }
}

fn withdraw(attos: i64) -> Instruction {
    call(account(), "withdraw", vec![Argument::Address(xrd()), Argument::Decimal(dec(attos))])
}

fn withdraw_badges(ids: &[u64]) -> Instruction {
    call(
        account(),
        "withdraw_non_fungibles",
        vec![
            Argument::Address(badge()),
            Argument::NonFungibleLocalIds(ids.iter().map(|n| integer(*n)).collect()),
        ],
    )
}

fn take(attos: i64) -> Instruction {
    Instruction::TakeFromWorktop { resource_address: xrd(), amount: dec(attos) }
}

fn take_all() -> Instruction {
    Instruction::TakeAllFromWorktop { resource_address: xrd() }
}

fn give_back(bucket: u32) -> Instruction {
    Instruction::ReturnToWorktop { bucket_id: BucketId(bucket) }
}

fn trusted(resources: Vec<ResourceSpecifier>) -> TrustedWorktopInstruction {
    TrustedWorktopInstruction { trusted: true, resources }
}

fn untrusted() -> TrustedWorktopInstruction {
    TrustedWorktopInstruction { trusted: false, resources: vec![] }
}

fn pure_instructions() -> Vec<Instruction> {
    vec![
        Instruction::AssertWorktopContainsAny,
        Instruction::AssertWorktopContains,
        Instruction::AssertWorktopContainsNonFungibles,
        Instruction::PopFromAuthZone,
        Instruction::PushToAuthZone,
        Instruction::CreateProofFromAuthZoneOfAmount,
        Instruction::CreateProofFromAuthZoneOfNonFungibles,
        Instruction::CreateProofFromAuthZoneOfAll,
        Instruction::DropAuthZoneProofs,
        Instruction::DropAuthZoneRegularProofs,
        Instruction::DropAuthZoneSignatureProofs,
        Instruction::CloneProof,
        Instruction::DropProof,
        Instruction::DropNamedProofs,
        Instruction::DropAllProofs,
        Instruction::AllocateGlobalAddress,
    ]
}

#[test]
fn an_empty_manifest_has_no_verdicts() {
    assert_eq!(analyze(&vec![]), Ok(vec![]));
    let analysis = TrustedWorktop::new();
    assert!(!analysis.is_worktop_untracked());
    assert!(!analysis.is_buckets_untracked());
    assert_eq!(analysis.output(), vec![]);
    assert_eq!(TrustedWorktop::default().output(), vec![]);
}

#[test]
fn there_is_one_verdict_after_each_instruction() {
    let manifest = vec![
        withdraw(10),
        take(4),
        Instruction::PopFromAuthZone,
        give_back(0),
        Instruction::CallFunction,
        take_all(),
        Instruction::CallDirectVaultMethod,
    ];
    let mut analysis = TrustedWorktop::new();
    let mut seen = 0;
    for instruction in &manifest {
        assert_eq!(analysis.on_instruction(instruction, seen), Ok(()));
        seen += 1;
    }
    assert_eq!(analysis.output().len(), manifest.len());
    for n in 0..manifest.len() {
        assert_eq!(analyze(&manifest[..n].iter().map(copy).collect()).unwrap().len(), n);
    }
}

fn copy(instruction: &Instruction) -> Instruction {
    match instruction {
        Instruction::TakeAllFromWorktop { resource_address } => {
            Instruction::TakeAllFromWorktop { resource_address: *resource_address }
        }
        Instruction::TakeFromWorktop { resource_address, amount } => {
            Instruction::TakeFromWorktop { resource_address: *resource_address, amount: *amount }
        }
        Instruction::ReturnToWorktop { bucket_id } => {
            Instruction::ReturnToWorktop { bucket_id: *bucket_id }
        }
        Instruction::CallMethod { address, method_name, args } => Instruction::CallMethod {
            address: *address,
            method_name: method_name.clone(),
            args: args
                .iter()
                .map(|a| match a {
                    Argument::Address(x) => Argument::Address(*x),
                    Argument::Decimal(x) => Argument::Decimal(*x),
                    _ => Argument::Other,
                })
                .collect(),
        },
        Instruction::PopFromAuthZone => Instruction::PopFromAuthZone,
        Instruction::CallFunction => Instruction::CallFunction,
        Instruction::CallDirectVaultMethod => Instruction::CallDirectVaultMethod,
        _ => unreachable!(),
    }
}

#[test]
fn the_instruction_must_be_the_next_one() {
    let mut analysis = TrustedWorktop::new();
    assert_eq!(
        analysis.on_instruction(&Instruction::PopFromAuthZone, 1),
        Err(AnalysisError::InstructionIndexMismatch)
    );
    assert_eq!(analysis.on_instruction(&Instruction::PopFromAuthZone, 0), Ok(()));
    assert_eq!(
        analysis.on_instruction(&Instruction::PopFromAuthZone, 0),
        Err(AnalysisError::InstructionIndexMismatch)
    );
    assert_eq!(analysis.on_instruction(&Instruction::PopFromAuthZone, 1), Ok(()));
    assert_eq!(analysis.output(), vec![trusted(vec![]), trusted(vec![])]);
}

#[test]
fn pure_instructions_are_trusted_and_move_nothing() {
    let manifest = pure_instructions();
    let mut analysis = TrustedWorktop::new();
    let mut index = 0;
    for instruction in &manifest {
        assert_eq!(analysis.on_instruction(instruction, index), Ok(()));
        assert!(!analysis.is_worktop_untracked());
        assert!(!analysis.is_buckets_untracked());
        index += 1;
    }
    let verdicts = analysis.output();
    assert_eq!(verdicts.len(), 16);
    for verdict in verdicts {
        assert_eq!(verdict, trusted(vec![]));
    }
}

#[test]
fn royalty_metadata_and_role_assignment_calls_are_trusted() {
    let manifest = vec![
        Instruction::CallRoyaltyMethod,
        Instruction::CallMetadataMethod,
        Instruction::CallRoleAssignmentMethod,
    ];
    assert_eq!(analyze(&manifest), Ok(vec![trusted(vec![]), trusted(vec![]), trusted(vec![])]));
}

#[test]
fn a_take_from_a_fresh_worktop_is_untrusted_and_so_is_the_proof_of_its_bucket() {
    let mut analysis = TrustedWorktop::new();
    assert_eq!(analysis.on_instruction(&take(10), 0), Ok(()));
    assert!(!analysis.is_worktop_untracked());
    assert!(!analysis.is_buckets_untracked());
    let proof = Instruction::CreateProofFromBucketOfAll { bucket_id: BucketId(0) };
    assert_eq!(analysis.on_instruction(&proof, 1), Ok(()));
    // The bucket is gone.
    assert_eq!(
        analysis.on_instruction(&give_back(0), 2),
        Err(AnalysisError::BucketNotFound(BucketId(0)))
    );
    assert_eq!(analysis.output(), vec![untrusted(), untrusted()]);
}

#[test]
fn an_opaque_withdrawal_untracks_the_worktop_and_later_takes_are_untrusted() {
    let manifest = vec![
        call(account(), "withdraw", vec![Argument::Other, Argument::Other]),
        take(1),
        Instruction::BurnResource { bucket_id: BucketId(0) },
    ];
    let mut analysis = TrustedWorktop::new();
    assert_eq!(analysis.on_instruction(&manifest[0], 0), Ok(()));
    assert!(analysis.is_worktop_untracked());
    assert!(!analysis.is_buckets_untracked());
    assert_eq!(analysis.on_instruction(&manifest[1], 1), Ok(()));
    assert_eq!(analysis.on_instruction(&manifest[2], 2), Ok(()));
    assert_eq!(analysis.output(), vec![untrusted(), untrusted(), untrusted()]);
}

#[test]
fn an_opaque_deposit_untracks_the_worktop() {
    let manifest = vec![withdraw(10), call(account(), "deposit", vec![Argument::Other]), take(1)];
    assert_eq!(analyze(&manifest), Ok(vec![trusted(vec![amount(10)]), untrusted(), untrusted()]));
    let manifest = vec![withdraw(10), call(account(), "deposit_batch", vec![]), take_all()];
    assert_eq!(analyze(&manifest), Ok(vec![trusted(vec![amount(10)]), untrusted(), untrusted()]));
}

#[test]
fn proofs_of_a_part_of_a_bucket_do_not_add_up() {
    let proof =
        |attos: i64| Instruction::CreateProofFromBucketOfAmount { bucket_id: BucketId(0), amount: dec(attos) };
    let manifest = vec![withdraw(10), take(10), proof(3), proof(3), proof(10), proof(11), give_back(0)];
    assert_eq!(
        analyze(&manifest),
        Ok(vec![
            trusted(vec![amount(10)]),
            trusted(vec![amount(10)]),
            trusted(vec![amount(3)]),
            trusted(vec![amount(3)]),
            trusted(vec![amount(10)]),
            untrusted(),
            trusted(vec![amount(10)]),
        ])
    );
}

#[test]
fn proofs_of_ids_of_a_bucket() {
    let proof = |ids: &[u64]| Instruction::CreateProofFromBucketOfNonFungibles {
        bucket_id: BucketId(0),
        ids: ids.iter().map(|n| integer(*n)).collect(),
    };
    let take_badges = Instruction::TakeNonFungiblesFromWorktop {
        resource_address: badge(),
        ids: vec![integer(1), integer(2)],
    };
    let manifest = vec![withdraw_badges(&[1, 2, 3]), take_badges, proof(&[2]), proof(&[3]), give_back(0)];
    assert_eq!(
        analyze(&manifest),
        Ok(vec![
            trusted(vec![badges(&[1, 2, 3])]),
            trusted(vec![badges(&[1, 2])]),
            trusted(vec![badges(&[2])]),
            untrusted(),
            trusted(vec![badges(&[1, 2])]),
        ])
    );
}

#[test]
fn a_proof_of_a_bucket_that_does_not_exist_is_an_error() {
    let proof =
        Instruction::CreateProofFromBucketOfAmount { bucket_id: BucketId(3), amount: dec(1) };
    assert_eq!(analyze(&vec![proof]), Err(AnalysisError::BucketNotFound(BucketId(3))));
    let proof = Instruction::CreateProofFromBucketOfNonFungibles {
        bucket_id: BucketId(0),
        ids: vec![],
    };
    assert_eq!(analyze(&vec![proof]), Err(AnalysisError::BucketNotFound(BucketId(0))));
    let proof = Instruction::CreateProofFromBucketOfAll { bucket_id: BucketId(0) };
    assert_eq!(analyze(&vec![proof]), Err(AnalysisError::BucketNotFound(BucketId(0))));
    let burn = Instruction::BurnResource { bucket_id: BucketId(0) };
    assert_eq!(analyze(&vec![burn]), Err(AnalysisError::BucketNotFound(BucketId(0))));
    assert_eq!(analyze(&vec![give_back(0)]), Err(AnalysisError::BucketNotFound(BucketId(0))));
    let deposit = call(account(), "deposit", vec![Argument::Bucket(BucketId(0))]);
    assert_eq!(analyze(&vec![deposit]), Err(AnalysisError::BucketNotFound(BucketId(0))));
}

#[test]
fn an_error_leaves_the_analysis_as_it_was() {
    let mut analysis = TrustedWorktop::new();
    assert_eq!(analysis.on_instruction(&withdraw(10), 0), Ok(()));
    assert_eq!(
        analysis.on_instruction(&give_back(0), 1),
        Err(AnalysisError::BucketNotFound(BucketId(0)))
    );
    assert_eq!(
        analysis.on_instruction(&take_all(), 2),
        Err(AnalysisError::InstructionIndexMismatch)
    );
    assert!(!analysis.is_worktop_untracked());
    assert!(!analysis.is_buckets_untracked());
    assert_eq!(analysis.on_instruction(&take_all(), 1), Ok(()));
    assert_eq!(analysis.output(), vec![trusted(vec![amount(10)]), trusted(vec![amount(10)])]);
}

#[test]
fn taking_all_of_a_resource_that_is_not_on_a_tracked_worktop_is_untrusted() {
    let mut analysis = TrustedWorktop::new();
    assert_eq!(analysis.on_instruction(&take_all(), 0), Ok(()));
    assert!(!analysis.is_worktop_untracked());
    assert!(!analysis.is_buckets_untracked());
    // The bucket exists, and what it holds is not known.
    assert_eq!(analysis.on_instruction(&give_back(0), 1), Ok(()));
    assert!(analysis.is_worktop_untracked());
    assert_eq!(analysis.output(), vec![untrusted(), untrusted()]);
    assert_eq!(
        analyze(&vec![withdraw(1), take_all(), take_all(), withdraw(2), take_all()]),
        Ok(vec![
            trusted(vec![amount(1)]),
            trusted(vec![amount(1)]),
            untrusted(),
            trusted(vec![amount(2)]),
            trusted(vec![amount(2)]),
        ])
    );
}

#[test]
fn taking_all_from_an_untracked_worktop_is_untrusted() {
    let manifest = vec![Instruction::CallFunction, take_all(), take(1)];
    assert_eq!(analyze(&manifest), Ok(vec![untrusted(), untrusted(), untrusted()]));
}

#[test]
fn take_all_then_return_restores_the_worktop() {
    let manifest = vec![
        withdraw(10),
        withdraw_badges(&[1, 2]),
        take_all(),
        give_back(0),
        take_all(),
        call(account(), "deposit_batch", vec![Argument::EntireWorktop]),
    ];
    assert_eq!(
        analyze(&manifest),
        Ok(vec![
            trusted(vec![amount(10)]),
            trusted(vec![badges(&[1, 2])]),
            trusted(vec![amount(10)]),
            trusted(vec![amount(10)]),
            trusted(vec![amount(10)]),
            trusted(vec![badges(&[1, 2])]),
        ])
    );
}

#[test]
fn returning_an_unknown_bucket_untracks_the_worktop() {
    let mut analysis = TrustedWorktop::new();
    assert_eq!(analysis.on_instruction(&withdraw(10), 0), Ok(()));
    assert_eq!(analysis.on_instruction(&take(11), 1), Ok(()));
    assert!(!analysis.is_worktop_untracked());
    assert_eq!(analysis.on_instruction(&give_back(0), 2), Ok(()));
    assert!(analysis.is_worktop_untracked());
    assert!(!analysis.is_buckets_untracked());
    assert_eq!(analysis.on_instruction(&take(1), 3), Ok(()));
    assert_eq!(
        analysis.output(),
        vec![trusted(vec![amount(10)]), untrusted(), untrusted(), untrusted()]
    );
}

#[test]
fn a_failed_take_leaves_the_worktop_tracked() {
    let take_amount_of_badges =
        Instruction::TakeFromWorktop { resource_address: badge(), amount: dec(1) };
    let take_badge = Instruction::TakeNonFungiblesFromWorktop {
        resource_address: badge(),
        ids: vec![integer(2)],
    };
    let manifest = vec![withdraw_badges(&[1, 2]), take_amount_of_badges, take_badge];
    assert_eq!(
        analyze(&manifest),
        Ok(vec![trusted(vec![badges(&[1, 2])]), untrusted(), trusted(vec![badges(&[2])])])
    );
}

#[test]
fn a_known_bucket_returned_to_an_untracked_worktop_is_trusted() {
    let manifest = vec![
        withdraw(10),
        take(4),
        call(account(), "withdraw", vec![]),
        give_back(0),
        take(1),
    ];
    assert_eq!(
        analyze(&manifest),
        Ok(vec![
            trusted(vec![amount(10)]),
            trusted(vec![amount(4)]),
            untrusted(),
            trusted(vec![amount(4)]),
            untrusted(),
        ])
    );
}

#[test]
fn a_return_that_does_not_merge_untracks_the_worktop() {
    // The bucket holds an amount of a resource of which the worktop then holds ids.
    let put_ids = call(
        account(),
        "withdraw_non_fungibles",
        vec![Argument::Address(xrd()), Argument::NonFungibleLocalIds(vec![integer(1)])],
    );
    let mut analysis = TrustedWorktop::new();
    assert_eq!(analysis.on_instruction(&withdraw(10), 0), Ok(()));
    assert_eq!(analysis.on_instruction(&take_all(), 1), Ok(()));
    assert_eq!(analysis.on_instruction(&put_ids, 2), Ok(()));
    assert!(!analysis.is_worktop_untracked());
    assert_eq!(analysis.on_instruction(&give_back(0), 3), Ok(()));
    assert!(analysis.is_worktop_untracked());
    let verdicts = analysis.output();
    assert_eq!(verdicts[3], trusted(vec![amount(10)]));
}

#[test]
fn a_direct_vault_call_untracks_both_trackers_from_then_on() {
    let manifest = vec![
        withdraw(10),
        take(4),
        Instruction::CallDirectVaultMethod,
        take(1),
        take_all(),
        give_back(0),
        withdraw(10),
        take(1),
        Instruction::PopFromAuthZone,
    ];
    let mut analysis = TrustedWorktop::new();
    for index in 0..manifest.len() {
        assert_eq!(analysis.on_instruction(&manifest[index], index), Ok(()));
        assert_eq!(analysis.is_worktop_untracked(), index >= 2);
        assert_eq!(analysis.is_buckets_untracked(), index >= 2);
    }
    assert_eq!(
        analysis.output(),
        vec![
            trusted(vec![amount(10)]),
            trusted(vec![amount(4)]),
            untrusted(),
            untrusted(),
            untrusted(),
            untrusted(),
            trusted(vec![amount(10)]),
            untrusted(),
            trusted(vec![]),
        ]
    );
}

#[test]
fn a_call_that_is_not_known_untracks_both_trackers() {
    for unknown in [
        call(component(), "withdraw", vec![Argument::Address(xrd()), Argument::Decimal(dec(1))]),
        call(GlobalAddress::Named(0), "withdraw", vec![]),
        call(account(), "securify", vec![]),
        call(account(), "try_deposit_or_refund", vec![Argument::Bucket(BucketId(0))]),
        Instruction::CallFunction,
    ] {
        let mut analysis = TrustedWorktop::new();
        assert_eq!(analysis.on_instruction(&unknown, 0), Ok(()));
        assert!(analysis.is_worktop_untracked());
        assert!(analysis.is_buckets_untracked());
        assert_eq!(analysis.output(), vec![untrusted()]);
    }
}

#[test]
fn account_methods_that_move_nothing_are_trusted() {
    for name in [
        "lock_fee",
        "lock_contingent_fee",
        "create_proof_of_amount",
        "create_proof_of_non_fungibles",
        "set_default_deposit_rule",
        "set_resource_preference",
        "remove_resource_preference",
        "add_authorized_depositor",
        "remove_authorized_depositor",
        "burn",
        "burn_non_fungibles",
    ] {
        let mut analysis = TrustedWorktop::new();
        assert_eq!(analysis.on_instruction(&call(account(), name, vec![Argument::Other]), 0), Ok(()));
        assert!(!analysis.is_worktop_untracked());
        assert!(!analysis.is_buckets_untracked());
        assert_eq!(analysis.output(), vec![trusted(vec![])]);
    }
}

#[test]
fn withdrawals_put_what_their_arguments_name() {
    let lock_fee_and_withdraw = call(
        account(),
        "lock_fee_and_withdraw",
        vec![Argument::Decimal(dec(1)), Argument::Address(xrd()), Argument::Decimal(dec(5))],
    );
    let lock_fee_and_withdraw_badges = call(
        account(),
        "lock_fee_and_withdraw_non_fungibles",
        vec![
            Argument::Decimal(dec(1)),
            Argument::Address(badge()),
            Argument::NonFungibleLocalIds(vec![integer(9)]),
        ],
    );
    let manifest = vec![
        lock_fee_and_withdraw,
        withdraw(2),
        lock_fee_and_withdraw_badges,
        withdraw_badges(&[8, 9]),
        call(account(), "try_deposit_batch_or_abort", vec![Argument::EntireWorktop, Argument::Other]),
    ];
    assert_eq!(
        analyze(&manifest),
        Ok(vec![
            trusted(vec![amount(5)]),
            trusted(vec![amount(2)]),
            trusted(vec![badges(&[9])]),
            trusted(vec![badges(&[8, 9])]),
            trusted(vec![amount(7), badges(&[9, 8])]),
        ])
    );
}

#[test]
fn withdrawals_with_other_arguments_are_unknown_puts() {
    for opaque in [
        call(account(), "withdraw", vec![Argument::Address(xrd())]),
        call(account(), "withdraw", vec![Argument::Decimal(dec(1)), Argument::Address(xrd())]),
        call(
            account(),
            "withdraw_non_fungibles",
            vec![Argument::Address(xrd()), Argument::Decimal(dec(1))],
        ),
        call(
            account(),
            "lock_fee_and_withdraw",
            vec![Argument::Address(xrd()), Argument::Decimal(dec(5))],
        ),
        call(account(), "lock_fee_and_withdraw_non_fungibles", vec![]),
    ] {
        let mut analysis = TrustedWorktop::new();
        assert_eq!(analysis.on_instruction(&opaque, 0), Ok(()));
        assert!(analysis.is_worktop_untracked());
        assert!(!analysis.is_buckets_untracked());
        assert_eq!(analysis.output(), vec![untrusted()]);
    }
}

#[test]
fn deposits_consume_their_bucket() {
    let deposit = |name: &str, bucket: u32| call(account(), name, vec![Argument::Bucket(BucketId(bucket))]);
    let manifest = vec![
        withdraw(10),
        take(4),
        take(7),
        take(6),
        deposit("deposit", 0),
        deposit("try_deposit_or_abort", 1),
        deposit("deposit_batch", 2),
    ];
    assert_eq!(
        analyze(&manifest),
        Ok(vec![
            trusted(vec![amount(10)]),
            trusted(vec![amount(4)]),
            untrusted(),
            trusted(vec![amount(6)]),
            trusted(vec![amount(4)]),
            untrusted(),
            trusted(vec![amount(6)]),
        ])
    );
    let twice = vec![withdraw(10), take(4), deposit("deposit", 0), deposit("deposit", 0)];
    assert_eq!(analyze(&twice), Err(AnalysisError::BucketNotFound(BucketId(0))));
}

#[test]
fn depositing_the_entire_worktop() {
    let everything = call(account(), "deposit_batch", vec![Argument::EntireWorktop]);
    assert_eq!(analyze(&vec![everything]), Ok(vec![trusted(vec![])]));
    let everything = call(account(), "deposit_batch", vec![Argument::EntireWorktop]);
    assert_eq!(
        analyze(&vec![Instruction::CallFunction, everything]),
        Ok(vec![untrusted(), untrusted()])
    );
}

#[test]
fn burning_and_proving_all_consume_the_bucket() {
    let manifest = vec![
        withdraw(10),
        take(4),
        take(5),
        Instruction::BurnResource { bucket_id: BucketId(0) },
        Instruction::CreateProofFromBucketOfAll { bucket_id: BucketId(1) },
        Instruction::BurnResource { bucket_id: BucketId(1) },
    ];
    let mut analysis = TrustedWorktop::new();
    for index in 0..5 {
        assert_eq!(analysis.on_instruction(&manifest[index], index), Ok(()));
    }
    assert_eq!(
        analysis.on_instruction(&manifest[5], 5),
        Err(AnalysisError::BucketNotFound(BucketId(1)))
    );
    assert_eq!(
        analysis.output(),
        vec![
            trusted(vec![amount(10)]),
            trusted(vec![amount(4)]),
            trusted(vec![amount(5)]),
            trusted(vec![amount(4)]),
            trusted(vec![amount(5)]),
        ]
    );
}

#[test]
fn with_untracked_buckets_nothing_about_buckets_is_trusted_and_nothing_is_an_error() {
    let manifest = vec![
        Instruction::CallFunction,
        Instruction::BurnResource { bucket_id: BucketId(9) },
        Instruction::CreateProofFromBucketOfAll { bucket_id: BucketId(9) },
        Instruction::CreateProofFromBucketOfAmount { bucket_id: BucketId(9), amount: dec(1) },
        Instruction::CreateProofFromBucketOfNonFungibles { bucket_id: BucketId(9), ids: vec![] },
        give_back(9),
        call(account(), "deposit", vec![Argument::Bucket(BucketId(9))]),
    ];
    assert_eq!(analyze(&manifest), Ok((0..7).map(|_| untrusted()).collect()));
}

#[test]
fn the_analysis_gives_the_same_verdicts_each_time() {
    let manifest = || vec![withdraw(10), take(4), give_back(0), take_all(), Instruction::DropAllProofs];
    assert_eq!(analyze(&manifest()), analyze(&manifest()));
}
