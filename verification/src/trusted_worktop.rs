//! The analysis itself: one verdict per instruction of a manifest.
//!
//! An instruction is trusted where the resources that it moves are exactly
//! known: because it moves none, or because the worktop tracker or the bucket
//! tracker can name them. The two trackers are driven instruction by
//! instruction, in the order of the manifest.

use crate::bucket_id::BucketId;
use crate::bucket_tracker::content_view;
use crate::bucket_tracker::BucketTracker;
use crate::bucket_tracker::BucketsView;
use crate::instruction::classify_method_call;
use crate::instruction::method_call_effect;
use crate::instruction::CallEffect;
use crate::instruction::CallEffectView;
use crate::instruction::Instruction;
use crate::resource::id_set;
use crate::resource::ids_copy;
use crate::resource::ResourceSpecifier;
use crate::resource::SpecifierView;
use crate::worktop_content_tracker::specifier_views;
use crate::worktop_content_tracker::WorktopContentTracker;
use crate::worktop_content_tracker::WorktopView;
use vstd::prelude::*;

verus! {

/// The verdict on one instruction.
#[derive(Debug, PartialEq, Eq)]
pub struct TrustedWorktopInstruction {
    /// Whether the resources that the instruction moves are exactly known.
    pub trusted: bool,
    /// The resources that the instruction is known to move.
    pub resources: Vec<ResourceSpecifier>,
}

/// What a verdict holds.
#[verifier::ext_equal]
pub struct RecordView {
    pub trusted: bool,
    pub resources: Seq<SpecifierView>,
}

impl View for TrustedWorktopInstruction {
    type V = RecordView;

    open spec fn view(&self) -> RecordView {
        RecordView { trusted: self.trusted, resources: specifier_views(self.resources@) }
    }
}

impl Clone for TrustedWorktopInstruction {
    fn clone(&self) -> (copy: Self)
        ensures
            copy@ == self@,
    {
        let mut resources: Vec<ResourceSpecifier> = Vec::new();
        let mut i: usize = 0;
        while i < self.resources.len()
            invariant
                0 <= i <= self.resources.len(),
                specifier_views(resources@) == specifier_views(self.resources@).take(i as int),
            decreases self.resources.len() - i,
        {
            let resource = self.resources[i].clone();
            assert(specifier_views(resources@.push(resource)) =~= specifier_views(
                resources@,
            ).push(resource@));
            assert(specifier_views(self.resources@).take(i + 1) =~= specifier_views(
                self.resources@,
            ).take(i as int).push(self.resources@[i as int]@));
            resources.push(resource);
            i += 1;
        }
        assert(specifier_views(self.resources@).take(self.resources.len() as int)
            =~= specifier_views(self.resources@));
        TrustedWorktopInstruction { trusted: self.trusted, resources }
    }
}

/// What the verdicts of a list hold.
pub open spec fn record_views(records: Seq<TrustedWorktopInstruction>) -> Seq<RecordView> {
    records.map_values(|r: TrustedWorktopInstruction| r@)
}

/// Why the analysis of a manifest was given up. Neither can happen on a
/// manifest that is well formed and analysed in its order.
#[derive(Clone, Copy, Debug, PartialEq, Eq, Structural)]
pub enum AnalysisError {
    /// An instruction names a bucket that does not exist.
    BucketNotFound(BucketId),
    /// The instruction is not the one that follows the last one analysed.
    InstructionIndexMismatch,
}

/// The verdict on an instruction that moves exactly `resources`.
pub open spec fn trusted_with(resources: SpecifierView) -> RecordView {
    RecordView { trusted: true, resources: seq![resources] }
}

/// The verdict on an instruction that moves nothing.
pub open spec fn trusted_with_nothing() -> RecordView {
    RecordView { trusted: true, resources: Seq::empty() }
}

/// The verdict on an instruction of which it is not known what it moves.
pub open spec fn untrusted() -> RecordView {
    RecordView { trusted: false, resources: Seq::empty() }
}

/// The verdict on an instruction that moves the content of a bucket: trusted
/// where the content is known.
pub open spec fn verdict_on_content(content: Option<SpecifierView>) -> RecordView {
    match content {
        Some(resources) => trusted_with(resources),
        None => untrusted(),
    }
}

/// What an instruction does: the two trackers after it, and its verdict.
#[verifier::ext_equal]
pub struct Effect {
    pub worktop: WorktopView,
    pub buckets: BucketsView,
    pub record: RecordView,
}

/// The worktop once `resources` are put on it. Where they do not merge with
/// what it holds, nothing is known of the worktop any more.
pub open spec fn after_put(worktop: WorktopView, resources: SpecifierView) -> WorktopView {
    if worktop.put_outcome(resources) is Ok {
        worktop.put(resources)
    } else {
        worktop.untrack()
    }
}

/// Taking exactly `resources` from the worktop into a new bucket.
pub open spec fn take_effect(
    worktop: WorktopView,
    buckets: BucketsView,
    resources: SpecifierView,
) -> Effect {
    if worktop.can_take(resources) {
        Effect {
            worktop: worktop.take(resources),
            buckets: buckets.with_new_bucket(Some(resources)),
            record: trusted_with(resources),
        }
    } else {
        Effect { worktop, buckets: buckets.with_new_bucket(None), record: untrusted() }
    }
}

/// Taking all of the resource at `address` from the worktop into a new
/// bucket. Where the worktop is not known to hold any of the resource, what
/// the bucket gets is not known.
pub open spec fn take_all_effect(
    worktop: WorktopView,
    buckets: BucketsView,
    address: Seq<u8>,
) -> Effect {
    if worktop.untracked {
        Effect { worktop, buckets: buckets.with_new_bucket(None), record: untrusted() }
    } else {
        match worktop.quantity_of(address) {
            Some(resources) => Effect {
                worktop: worktop.without(address),
                buckets: buckets.with_new_bucket(Some(resources)),
                record: trusted_with(resources),
            },
            None => Effect {
                worktop,
                buckets: buckets.with_new_bucket(None),
                record: untrusted(),
            },
        }
    }
}

/// Returning the bucket to the worktop.
pub open spec fn return_effect(worktop: WorktopView, buckets: BucketsView, id: u32) -> Result<
    Effect,
    AnalysisError,
> {
    if buckets.untracked {
        Ok(Effect { worktop: worktop.untrack(), buckets, record: untrusted() })
    } else {
        match buckets.consume_outcome(id) {
            Err(e) => Err(AnalysisError::BucketNotFound(e.bucket_id)),
            Ok(Some(resources)) => Ok(
                Effect {
                    worktop: after_put(worktop, resources),
                    buckets: buckets.consume(id),
                    record: trusted_with(resources),
                },
            ),
            Ok(None) => Ok(
                Effect {
                    worktop: worktop.untrack(),
                    buckets: buckets.consume(id),
                    record: untrusted(),
                },
            ),
        }
    }
}

/// Making a proof of a part of a bucket: the bucket stays, and the verdict
/// is trusted where the part is known to be in it.
pub open spec fn partial_proof_effect(
    worktop: WorktopView,
    buckets: BucketsView,
    id: u32,
    part: Option<SpecifierView>,
) -> Result<Effect, AnalysisError> {
    if buckets.untracked {
        Ok(Effect { worktop, buckets, record: untrusted() })
    } else if !buckets.buckets.contains_key(id) {
        Err(AnalysisError::BucketNotFound(BucketId(id)))
    } else {
        Ok(Effect { worktop, buckets, record: verdict_on_content(part) })
    }
}

/// Consuming a bucket whose content leaves the worktop's reach: a proof of
/// all of it, a burn, a deposit.
pub open spec fn consume_effect(worktop: WorktopView, buckets: BucketsView, id: u32) -> Result<
    Effect,
    AnalysisError,
> {
    if buckets.untracked {
        Ok(Effect { worktop, buckets, record: untrusted() })
    } else {
        match buckets.consume_outcome(id) {
            Err(e) => Err(AnalysisError::BucketNotFound(e.bucket_id)),
            Ok(content) => Ok(
                Effect {
                    worktop,
                    buckets: buckets.consume(id),
                    record: verdict_on_content(content),
                },
            ),
        }
    }
}

/// A call of which the effect is `effect`.
pub open spec fn call_effect(
    worktop: WorktopView,
    buckets: BucketsView,
    effect: CallEffectView,
) -> Result<Effect, AnalysisError> {
    match effect {
        CallEffectView::Nothing => Ok(Effect { worktop, buckets, record: trusted_with_nothing() }),
        CallEffectView::Put(resources) => Ok(
            Effect {
                worktop: after_put(worktop, resources),
                buckets,
                record: trusted_with(resources),
            },
        ),
        CallEffectView::UnknownPut | CallEffectView::UnknownTake => Ok(
            Effect { worktop: worktop.untrack(), buckets, record: untrusted() },
        ),
        CallEffectView::Deposit(id) => consume_effect(worktop, buckets, id),
        CallEffectView::DepositEntireWorktop => if worktop.untracked {
            Ok(Effect { worktop, buckets, record: untrusted() })
        } else {
            Ok(
                Effect {
                    worktop: worktop.cleared(),
                    buckets,
                    record: RecordView { trusted: true, resources: worktop.entries },
                },
            )
        },
        CallEffectView::Arbitrary => Ok(
            Effect { worktop: worktop.untrack(), buckets: buckets.untrack(), record: untrusted() },
        ),
    }
}

/// What the instruction does where the trackers are as given.
pub open spec fn effect_of(worktop: WorktopView, buckets: BucketsView, instruction: Instruction) -> Result<
    Effect,
    AnalysisError,
> {
    match instruction {
        Instruction::TakeAllFromWorktop { resource_address } => Ok(
            take_all_effect(worktop, buckets, resource_address@),
        ),
        Instruction::TakeFromWorktop { resource_address, amount } => Ok(
            take_effect(
                worktop,
                buckets,
                SpecifierView::Amount(resource_address@, amount.attos()),
            ),
        ),
        Instruction::TakeNonFungiblesFromWorktop { resource_address, ids } => Ok(
            take_effect(worktop, buckets, SpecifierView::Ids(resource_address@, id_set(ids@))),
        ),
        Instruction::ReturnToWorktop { bucket_id } => return_effect(
            worktop,
            buckets,
            bucket_id.0,
        ),
        Instruction::CreateProofFromBucketOfAmount { bucket_id, amount } => partial_proof_effect(
            worktop,
            buckets,
            bucket_id.0,
            buckets.partial_amount(bucket_id.0, amount.attos()),
        ),
        Instruction::CreateProofFromBucketOfNonFungibles { bucket_id, ids } => partial_proof_effect(
            worktop,
            buckets,
            bucket_id.0,
            buckets.partial_ids(bucket_id.0, id_set(ids@)),
        ),
        Instruction::CreateProofFromBucketOfAll { bucket_id } => consume_effect(
            worktop,
            buckets,
            bucket_id.0,
        ),
        Instruction::BurnResource { bucket_id } => consume_effect(worktop, buckets, bucket_id.0),
        Instruction::CallMethod { address, method_name, args } => call_effect(
            worktop,
            buckets,
            method_call_effect(address, method_name@, args@),
        ),
        Instruction::CallFunction => call_effect(worktop, buckets, CallEffectView::Arbitrary),
        Instruction::CallDirectVaultMethod => Ok(
            Effect { worktop: worktop.untrack(), buckets: buckets.untrack(), record: untrusted() },
        ),
        Instruction::CallRoyaltyMethod
        | Instruction::CallRoleAssignmentMethod
        | Instruction::CallMetadataMethod
        | Instruction::AssertWorktopContainsAny
        | Instruction::AssertWorktopContains
        | Instruction::AssertWorktopContainsNonFungibles
        | Instruction::PopFromAuthZone
        | Instruction::PushToAuthZone
        | Instruction::CreateProofFromAuthZoneOfAmount
        | Instruction::CreateProofFromAuthZoneOfNonFungibles
        | Instruction::CreateProofFromAuthZoneOfAll
        | Instruction::DropAuthZoneProofs
        | Instruction::DropAuthZoneRegularProofs
        | Instruction::DropAuthZoneSignatureProofs
        | Instruction::CloneProof
        | Instruction::DropProof
        | Instruction::DropNamedProofs
        | Instruction::DropAllProofs
        | Instruction::AllocateGlobalAddress => Ok(
            Effect { worktop, buckets, record: trusted_with_nothing() },
        ),
    }
}

/// The state of an analysis: the verdicts so far and the two trackers.
#[verifier::ext_equal]
pub struct AnalysisView {
    pub records: Seq<RecordView>,
    pub worktop: WorktopView,
    pub buckets: BucketsView,
}

impl AnalysisView {
    /// Both trackers are well formed.
    pub open spec fn wf(self) -> bool {
        self.worktop.wf() && self.buckets.wf()
    }

    /// The state before the first instruction.
    pub open spec fn initial() -> AnalysisView {
        AnalysisView {
            records: Seq::empty(),
            worktop: WorktopView::empty(),
            buckets: BucketsView::empty(),
        }
    }
}

/// The state after the instruction that stands at `index` in its manifest.
/// The instruction must be the next one: `index` is the number of verdicts
/// so far. An error leaves no state.
pub open spec fn step(state: AnalysisView, instruction: Instruction, index: int) -> Result<
    AnalysisView,
    AnalysisError,
> {
    if index != state.records.len() {
        Err(AnalysisError::InstructionIndexMismatch)
    } else {
        match effect_of(state.worktop, state.buckets, instruction) {
            Ok(effect) => Ok(
                AnalysisView {
                    records: state.records.push(effect.record),
                    worktop: effect.worktop,
                    buckets: effect.buckets,
                },
            ),
            Err(e) => Err(e),
        }
    }
}

/// The state after all of `instructions`, taken in their order from `state`,
/// or the first error.
pub open spec fn run(state: AnalysisView, instructions: Seq<Instruction>) -> Result<
    AnalysisView,
    AnalysisError,
>
    decreases instructions.len(),
{
    if instructions.len() == 0 {
        Ok(state)
    } else {
        match run(state, instructions.drop_last()) {
            Ok(before) => step(before, instructions.last(), before.records.len() as int),
            Err(e) => Err(e),
        }
    }
}

/// An error on the way is the error of the whole manifest.
pub proof fn lemma_run_error_sticks(state: AnalysisView, instructions: Seq<Instruction>, k: int)
    requires
        0 <= k <= instructions.len(),
        run(state, instructions.take(k)) is Err,
    ensures
        run(state, instructions) == run(state, instructions.take(k)),
    decreases instructions.len() - k,
{
    if k == instructions.len() {
        assert(instructions.take(k) =~= instructions);
    } else {
        assert(instructions.take(k + 1).drop_last() =~= instructions.take(k));
        lemma_run_error_sticks(state, instructions, k + 1);
    }
}

/// Analyses the instructions of a manifest one by one.
pub struct TrustedWorktop {
    trusted_state_per_instruction: Vec<TrustedWorktopInstruction>,
    bucket_tracker: BucketTracker,
    worktop_content_tracker: WorktopContentTracker,
}

impl View for TrustedWorktop {
    type V = AnalysisView;

    closed spec fn view(&self) -> AnalysisView {
        AnalysisView {
            records: record_views(self.trusted_state_per_instruction@),
            worktop: self.worktop_content_tracker@,
            buckets: self.bucket_tracker@,
        }
    }
}

impl Default for TrustedWorktop {
    fn default() -> (analysis: TrustedWorktop)
        ensures
            analysis@ == AnalysisView::initial(),
            analysis@.wf(),
    {
        TrustedWorktop::new()
    }
}

impl TrustedWorktop {
    /// An analysis that has seen no instruction yet.
    pub fn new() -> (analysis: TrustedWorktop)
        ensures
            analysis@ == AnalysisView::initial(),
            analysis@.wf(),
    {
        let analysis = TrustedWorktop {
            trusted_state_per_instruction: Vec::new(),
            bucket_tracker: BucketTracker::new(),
            worktop_content_tracker: WorktopContentTracker::new(),
        };
        assert(analysis@.records =~= Seq::empty());
        analysis
    }

    /// The verdicts, one per instruction seen, in their order.
    pub fn output(self) -> (records: Vec<TrustedWorktopInstruction>)
        ensures
            record_views(records@) == self@.records,
    {
        self.trusted_state_per_instruction
    }

    /// Whether the worktop tracker has given up.
    pub fn is_worktop_untracked(&self) -> (untracked: bool)
        ensures
            untracked == self@.worktop.untracked,
    {
        self.worktop_content_tracker.is_untracked_mode()
    }

    /// Whether the bucket tracker has given up.
    pub fn is_buckets_untracked(&self) -> (untracked: bool)
        ensures
            untracked == self@.buckets.untracked,
    {
        self.bucket_tracker.is_untracked_mode()
    }

    /// Adds the verdict on an instruction that moves one quantity or none.
    fn add_new_instruction(&mut self, trusted: bool, input_resources: Option<ResourceSpecifier>)
        ensures
            final(self)@.records == old(self)@.records.push(
                RecordView {
                    trusted,
                    resources: match input_resources {
                        Some(resources) => seq![resources@],
                        None => Seq::empty(),
                    },
                },
            ),
            final(self)@.worktop == old(self)@.worktop,
            final(self)@.buckets == old(self)@.buckets,
    {
        let resources = match input_resources {
            Some(res) => {
                let mut list: Vec<ResourceSpecifier> = Vec::new();
                list.push(res);
                assert(specifier_views(list@) =~= seq![res@]);
                list
            },
            None => {
                let list: Vec<ResourceSpecifier> = Vec::new();
                assert(specifier_views(list@) =~= Seq::<SpecifierView>::empty());
                list
            },
        };
        self.add_new_instruction_with_many_resources(trusted, resources);
    }

    /// Adds the verdict on an instruction that moves several quantities.
    fn add_new_instruction_with_many_resources(
        &mut self,
        trusted: bool,
        resources: Vec<ResourceSpecifier>,
    )
        ensures
            final(self)@.records == old(self)@.records.push(
                RecordView { trusted, resources: specifier_views(resources@) },
            ),
            final(self)@.worktop == old(self)@.worktop,
            final(self)@.buckets == old(self)@.buckets,
    {
        let record = TrustedWorktopInstruction { trusted, resources };
        assert(record_views(self.trusted_state_per_instruction@.push(record)) =~= record_views(
            self.trusted_state_per_instruction@,
        ).push(record@));
        self.trusted_state_per_instruction.push(record);
    }

    /// Puts `resources` on the worktop, and gives the worktop up where they
    /// do not merge with what it holds.
    fn put_on_worktop(&mut self, resources: ResourceSpecifier)
        requires
            old(self)@.wf(),
        ensures
            final(self)@.worktop == after_put(old(self)@.worktop, resources@),
            final(self)@.records == old(self)@.records,
            final(self)@.buckets == old(self)@.buckets,
            final(self)@.wf(),
    {
        if self.worktop_content_tracker.put_to_worktop(resources).is_err() {
            self.worktop_content_tracker.enter_untracked_mode();
        }
    }

    /// Takes exactly `resources` from the worktop into a new bucket.
    fn take_into_bucket(&mut self, resources: ResourceSpecifier)
        requires
            old(self)@.wf(),
        ensures
            final(self)@.wf(),
            final(self)@.worktop == take_effect(
                old(self)@.worktop,
                old(self)@.buckets,
                resources@,
            ).worktop,
            final(self)@.buckets == take_effect(
                old(self)@.worktop,
                old(self)@.buckets,
                resources@,
            ).buckets,
            final(self)@.records == old(self)@.records.push(
                take_effect(old(self)@.worktop, old(self)@.buckets, resources@).record,
            ),
    {
        if self.worktop_content_tracker.take_from_worktop(resources.clone()) {
            self.bucket_tracker.new_bucket_known_resources(resources.clone());
            self.add_new_instruction(true, Some(resources));
        } else {
            self.bucket_tracker.new_bucket_unknown_resources();
            self.add_new_instruction(false, None);
        }
    }

    /// Consumes a bucket whose content leaves the worktop's reach.
    fn consume_bucket(&mut self, bucket_id: &BucketId) -> (outcome: Result<(), AnalysisError>)
        requires
            old(self)@.wf(),
        ensures
            final(self)@.wf(),
            outcome matches Ok(_) ==> consume_effect(
                old(self)@.worktop,
                old(self)@.buckets,
                bucket_id.0,
            ) matches Ok(effect) && final(self)@ == (AnalysisView {
                records: old(self)@.records.push(effect.record),
                worktop: effect.worktop,
                buckets: effect.buckets,
            }),
            outcome matches Err(e) ==> consume_effect(
                old(self)@.worktop,
                old(self)@.buckets,
                bucket_id.0,
            ) == Err::<Effect, AnalysisError>(e) && final(self)@ == old(self)@,
    {
        if self.bucket_tracker.is_untracked_mode() {
            self.add_new_instruction(false, None);
            return Ok(());
        }
        match self.bucket_tracker.bucket_consumed(bucket_id) {
            Ok(content) => {
                let known = content.is_some();
                self.add_new_instruction(known, content);
                Ok(())
            },
            Err(e) => Err(AnalysisError::BucketNotFound(e.bucket_id)),
        }
    }

    /// Adds the verdict on a proof of a part of a bucket.
    fn partial_proof(&mut self, bucket_id: &BucketId, part: Option<ResourceSpecifier>) -> (outcome:
        Result<(), AnalysisError>)
        requires
            old(self)@.wf(),
        ensures
            final(self)@.wf(),
            outcome matches Ok(_) ==> partial_proof_effect(
                old(self)@.worktop,
                old(self)@.buckets,
                bucket_id.0,
                content_view(part),
            ) matches Ok(effect) && final(self)@ == (AnalysisView {
                records: old(self)@.records.push(effect.record),
                worktop: effect.worktop,
                buckets: effect.buckets,
            }),
            outcome matches Err(e) ==> partial_proof_effect(
                old(self)@.worktop,
                old(self)@.buckets,
                bucket_id.0,
                content_view(part),
            ) == Err::<Effect, AnalysisError>(e) && final(self)@ == old(self)@,
    {
        if self.bucket_tracker.is_untracked_mode() {
            self.add_new_instruction(false, None);
            return Ok(());
        }
        if !self.bucket_tracker.holds_bucket(bucket_id) {
            return Err(AnalysisError::BucketNotFound(*bucket_id));
        }
        let known = part.is_some();
        self.add_new_instruction(known, part);
        Ok(())
    }

    /// Applies a call of which the effect is `effect`.
    fn apply_call(&mut self, effect: CallEffect) -> (outcome: Result<(), AnalysisError>)
        requires
            old(self)@.wf(),
        ensures
            final(self)@.wf(),
            outcome matches Ok(_) ==> call_effect(
                old(self)@.worktop,
                old(self)@.buckets,
                effect@,
            ) matches Ok(e) && final(self)@ == (AnalysisView {
                records: old(self)@.records.push(e.record),
                worktop: e.worktop,
                buckets: e.buckets,
            }),
            outcome matches Err(e) ==> call_effect(
                old(self)@.worktop,
                old(self)@.buckets,
                effect@,
            ) == Err::<Effect, AnalysisError>(e) && final(self)@ == old(self)@,
    {
        match effect {
            CallEffect::Nothing => {
                self.add_new_instruction(true, None);
                Ok(())
            },
            CallEffect::Put(resources) => {
                self.put_on_worktop(resources.clone());
                self.add_new_instruction(true, Some(resources));
                Ok(())
            },
            CallEffect::UnknownPut | CallEffect::UnknownTake => {
                self.worktop_content_tracker.enter_untracked_mode();
                self.add_new_instruction(false, None);
                Ok(())
            },
            CallEffect::Deposit(bucket_id) => self.consume_bucket(&bucket_id),
            CallEffect::DepositEntireWorktop => {
                if self.worktop_content_tracker.is_untracked_mode() {
                    self.add_new_instruction(false, None);
                } else {
                    let resources = self.worktop_content_tracker.take_all_from_worktop();
                    self.add_new_instruction_with_many_resources(true, resources);
                }
                Ok(())
            },
            CallEffect::Arbitrary => {
                self.worktop_content_tracker.enter_untracked_mode();
                self.bucket_tracker.enter_untracked_mode();
                self.add_new_instruction(false, None);
                Ok(())
            },
        }
    }

    /// Analyses the instruction that stands at `instruction_index` in its
    /// manifest: the trackers follow it, and its verdict is added.
    ///
    /// An error means that the manifest is not well formed, or that this is
    /// not the next instruction. It leaves the analysis as it was.
    pub fn on_instruction(&mut self, instruction: &Instruction, instruction_index: usize) -> (outcome:
        Result<(), AnalysisError>)
        requires
            old(self)@.wf(),
        ensures
            final(self)@.wf(),
            outcome matches Ok(_) ==> step(old(self)@, *instruction, instruction_index as int)
                == Ok::<AnalysisView, AnalysisError>(final(self)@),
            outcome matches Err(e) ==> step(old(self)@, *instruction, instruction_index as int)
                == Err::<AnalysisView, AnalysisError>(e) && final(self)@ == old(self)@,
            outcome is Ok ==> final(self)@.records.len() == instruction_index + 1,
            old(self)@.worktop.untracked ==> final(self)@.worktop.untracked,
            old(self)@.buckets.untracked ==> final(self)@.buckets.untracked,
    {
        if instruction_index != self.trusted_state_per_instruction.len() {
            return Err(AnalysisError::InstructionIndexMismatch);
        }
        match instruction {
            Instruction::TakeAllFromWorktop { resource_address } => {
                if !self.worktop_content_tracker.is_untracked_mode() {
                    match self.worktop_content_tracker.take_from_worktop_by_address(
                        *resource_address,
                    ) {
                        Some(resources) => {
                            self.bucket_tracker.new_bucket_known_resources(resources.clone());
                            self.add_new_instruction(true, Some(resources));
                        },
                        None => {
                            // The worktop is known to hold none of it.
                            self.bucket_tracker.new_bucket_unknown_resources();
                            self.add_new_instruction(false, None);
                        },
                    }
                } else {
                    // Nothing is known of the worktop.
                    self.bucket_tracker.new_bucket_unknown_resources();
                    self.add_new_instruction(false, None);
                }
                Ok(())
            },
            Instruction::TakeFromWorktop { resource_address, amount } => {
                self.take_into_bucket(ResourceSpecifier::Amount(*resource_address, *amount));
                Ok(())
            },
            Instruction::TakeNonFungiblesFromWorktop { resource_address, ids } => {
                self.take_into_bucket(ResourceSpecifier::Ids(*resource_address, ids_copy(ids)));
                Ok(())
            },
            Instruction::ReturnToWorktop { bucket_id } => {
                if !self.bucket_tracker.is_untracked_mode() {
                    match self.bucket_tracker.bucket_consumed(bucket_id) {
                        Ok(Some(resources)) => {
                            self.put_on_worktop(resources.clone());
                            self.add_new_instruction(true, Some(resources));
                            Ok(())
                        },
                        Ok(None) => {
                            self.worktop_content_tracker.enter_untracked_mode();
                            self.add_new_instruction(false, None);
                            Ok(())
                        },
                        Err(e) => Err(AnalysisError::BucketNotFound(e.bucket_id)),
                    }
                } else {
                    self.worktop_content_tracker.enter_untracked_mode();
                    self.add_new_instruction(false, None);
                    Ok(())
                }
            },
            Instruction::CreateProofFromBucketOfAmount { bucket_id, amount } => {
                let part = self.bucket_tracker.try_consume_fungible_from_bucket(bucket_id, amount);
                self.partial_proof(bucket_id, part)
            },
            Instruction::CreateProofFromBucketOfNonFungibles { bucket_id, ids } => {
                let part = self.bucket_tracker.try_consume_non_fungible_from_bucket(
                    bucket_id,
                    ids,
                );
                self.partial_proof(bucket_id, part)
            },
            Instruction::CreateProofFromBucketOfAll { bucket_id } => self.consume_bucket(
                bucket_id,
            ),
            Instruction::BurnResource { bucket_id } => self.consume_bucket(bucket_id),
            Instruction::CallMethod { address, method_name, args } => {
                let effect = classify_method_call(address, method_name, args);
                self.apply_call(effect)
            },
            Instruction::CallFunction => self.apply_call(CallEffect::Arbitrary),
            Instruction::CallDirectVaultMethod => {
                self.worktop_content_tracker.enter_untracked_mode();
                self.bucket_tracker.enter_untracked_mode();
                self.add_new_instruction(false, None);
                Ok(())
            },
            Instruction::CallRoyaltyMethod
            | Instruction::CallRoleAssignmentMethod
            | Instruction::CallMetadataMethod
            | Instruction::AssertWorktopContainsAny
            | Instruction::AssertWorktopContains
            | Instruction::AssertWorktopContainsNonFungibles
            | Instruction::PopFromAuthZone
            | Instruction::PushToAuthZone
            | Instruction::CreateProofFromAuthZoneOfAmount
            | Instruction::CreateProofFromAuthZoneOfNonFungibles
            | Instruction::CreateProofFromAuthZoneOfAll
            | Instruction::DropAuthZoneProofs
            | Instruction::DropAuthZoneRegularProofs
            | Instruction::DropAuthZoneSignatureProofs
            | Instruction::CloneProof
            | Instruction::DropProof
            | Instruction::DropNamedProofs
            | Instruction::DropAllProofs
            | Instruction::AllocateGlobalAddress => {
                self.add_new_instruction(true, None);
                Ok(())
            },
        }
    }
}

/// Analyses a manifest: one verdict per instruction, in their order, or the
/// error of the first instruction that shows the manifest not to be well
/// formed.
pub fn analyze(instructions: &Vec<Instruction>) -> (outcome: Result<
    Vec<TrustedWorktopInstruction>,
    AnalysisError,
>)
    ensures
        outcome matches Ok(records) ==> run(AnalysisView::initial(), instructions@) matches Ok(
            state,
        ) && state.records == record_views(records@) && records@.len() == instructions@.len(),
        outcome matches Err(e) ==> run(AnalysisView::initial(), instructions@) == Err::<
            AnalysisView,
            AnalysisError,
        >(e),
{
    let mut analysis = TrustedWorktop::new();
    let mut i: usize = 0;
    assert(instructions@.take(0) =~= Seq::<Instruction>::empty());
    while i < instructions.len()
        invariant
            0 <= i <= instructions.len(),
            analysis@.wf(),
            analysis@.records.len() == i,
            run(AnalysisView::initial(), instructions@.take(i as int)) == Ok::<
                AnalysisView,
                AnalysisError,
            >(analysis@),
        decreases instructions.len() - i,
    {
        let ghost before = analysis@;
        assert(instructions@.take(i + 1).drop_last() =~= instructions@.take(i as int));
        match analysis.on_instruction(&instructions[i], i) {
            Ok(_) => {},
            Err(e) => {
                proof {
                    lemma_run_error_sticks(AnalysisView::initial(), instructions@, i + 1);
                }
                return Err(e);
            },
        }
        i += 1;
    }
    assert(instructions@.take(instructions.len() as int) =~= instructions@);
    let records = analysis.output();
    Ok(records)
}

} // verus!
