//! The buckets of one transaction: containers that an instruction fills from
//! the worktop and a later one empties.
//!
//! The tracker knows which buckets exist and, where it can, what each holds.
//! Once it cannot even tell that a bucket was made, it is in untracked mode
//! for the rest of the transaction.

use crate::bucket_id::BucketId;
use crate::decimal::Decimal;
use crate::resource::id_set;
use crate::resource::ids_contain_all;
use crate::resource::ids_copy;
use crate::resource::NonFungibleLocalId;
use crate::resource::NonFungibleLocalIdView;
use crate::resource::ResourceSpecifier;
use crate::resource::SpecifierView;
use std::collections::HashMap;
use vstd::prelude::*;

verus! {

broadcast use vstd::std_specs::hash::group_hash_axioms;

/// A bucket was named that the tracker does not hold.
#[derive(Clone, Copy, Debug, PartialEq, Eq, Structural)]
pub struct LookupError {
    /// The bucket that was asked for.
    pub bucket_id: BucketId,
}

/// What the content of a bucket holds, where it is known.
pub open spec fn content_view(content: Option<ResourceSpecifier>) -> Option<SpecifierView> {
    match content {
        Some(resources) => Some(resources@),
        None => None,
    }
}

/// The number of handles a manifest can give to its buckets.
pub open spec fn bucket_id_limit() -> int {
    0x1_0000_0000
}

/// What the tracker knows of the buckets.
#[verifier::ext_equal]
pub struct BucketsView {
    /// Whether the tracker has given up.
    pub untracked: bool,
    /// The number of buckets made so far, which is the handle of the next.
    pub next_id: int,
    /// The buckets that exist, each with its content where that is known.
    pub buckets: Map<u32, Option<SpecifierView>>,
}

impl BucketsView {
    /// Every bucket that exists was handed out, and nothing is known in
    /// untracked mode.
    pub open spec fn wf(self) -> bool {
        &&& 0 <= self.next_id <= bucket_id_limit()
        &&& forall|id: u32| self.buckets.contains_key(id) ==> id < self.next_id
        &&& self.untracked ==> self.buckets == Map::<u32, Option<SpecifierView>>::empty()
    }

    /// The buckets at the start of a transaction: there is none.
    pub open spec fn empty() -> BucketsView {
        BucketsView { untracked: false, next_id: 0, buckets: Map::empty() }
    }

    /// The buckets of which nothing is known any more.
    pub open spec fn untrack(self) -> BucketsView {
        BucketsView { untracked: true, next_id: self.next_id, buckets: Map::empty() }
    }

    /// The buckets once a new one holds `content`. It gets the next handle.
    /// Where the handles are used up the bucket cannot be named, and nothing
    /// is known from then on.
    pub open spec fn with_new_bucket(self, content: Option<SpecifierView>) -> BucketsView {
        if self.untracked {
            self
        } else if self.next_id < bucket_id_limit() {
            BucketsView {
                untracked: false,
                next_id: self.next_id + 1,
                buckets: self.buckets.insert(self.next_id as u32, content),
            }
        } else {
            self.untrack()
        }
    }

    /// Whether the bucket is known to exist.
    pub open spec fn holds(self, id: u32) -> bool {
        !self.untracked && self.buckets.contains_key(id)
    }

    /// What a proof of `attos` out of the bucket stands for: that much of the
    /// resource in the bucket, where the bucket is known to hold an amount of
    /// at least `attos`, and `attos` is not negative.
    pub open spec fn partial_amount(self, id: u32, attos: int) -> Option<SpecifierView> {
        if self.holds(id) {
            match self.buckets[id] {
                Some(SpecifierView::Amount(address, available)) => {
                    if 0 <= attos <= available {
                        Some(SpecifierView::Amount(address, attos))
                    } else {
                        None
                    }
                },
                _ => None,
            }
        } else {
            None
        }
    }

    /// What a proof of `ids` out of the bucket stands for: those ids of the
    /// resource in the bucket, where the bucket is known to hold them all.
    pub open spec fn partial_ids(self, id: u32, ids: Set<NonFungibleLocalIdView>) -> Option<
        SpecifierView,
    > {
        if self.holds(id) {
            match self.buckets[id] {
                Some(SpecifierView::Ids(address, available)) => {
                    if ids.subset_of(available) {
                        Some(SpecifierView::Ids(address, ids))
                    } else {
                        None
                    }
                },
                _ => None,
            }
        } else {
            None
        }
    }

    /// What consuming the bucket gives: its content where that is known;
    /// nothing in untracked mode; an error where the bucket is not there.
    pub open spec fn consume_outcome(self, id: u32) -> Result<
        Option<SpecifierView>,
        LookupError,
    > {
        if self.untracked {
            Ok(None)
        } else if self.buckets.contains_key(id) {
            Ok(self.buckets[id])
        } else {
            Err(LookupError { bucket_id: BucketId(id) })
        }
    }

    /// The buckets once the bucket `id` is consumed.
    pub open spec fn consume(self, id: u32) -> BucketsView {
        if self.holds(id) {
            BucketsView {
                untracked: false,
                next_id: self.next_id,
                buckets: self.buckets.remove(id),
            }
        } else {
            self
        }
    }
}

/// Tracks the buckets and what they hold.
pub struct BucketTracker {
    untracked: bool,
    next_id: u64,
    buckets: HashMap<u32, Option<ResourceSpecifier>>,
}

impl View for BucketTracker {
    type V = BucketsView;

    closed spec fn view(&self) -> BucketsView {
        BucketsView {
            untracked: self.untracked,
            next_id: self.next_id as int,
            buckets: self.buckets@.map_values(|c: Option<ResourceSpecifier>| content_view(c)),
        }
    }
}

impl Default for BucketTracker {
    fn default() -> (tracker: BucketTracker)
        ensures
            tracker@ == BucketsView::empty(),
            tracker@.wf(),
    {
        BucketTracker::new()
    }
}

impl BucketTracker {
    /// A tracker for a transaction that is about to start: no bucket exists.
    pub fn new() -> (tracker: BucketTracker)
        ensures
            tracker@ == BucketsView::empty(),
            tracker@.wf(),
    {
        let tracker = BucketTracker { untracked: false, next_id: 0, buckets: HashMap::new() };
        assert(tracker@.buckets =~= Map::empty());
        tracker
    }

    /// Whether the tracker has given up.
    pub fn is_untracked_mode(&self) -> (untracked: bool)
        ensures
            untracked == self@.untracked,
    {
        self.untracked
    }

    /// Gives up: from now on nothing is known of the buckets.
    pub fn enter_untracked_mode(&mut self)
        ensures
            final(self)@ == old(self)@.untrack(),
            old(self)@.wf() ==> final(self)@.wf(),
            final(self)@.untracked,
    {
        self.buckets.clear();
        self.untracked = true;
        assert(self@.buckets =~= Map::empty());
    }

    /// Records a new bucket with the given content, or with unknown content.
    fn new_bucket(&mut self, content: Option<ResourceSpecifier>)
        requires
            old(self)@.wf(),
        ensures
            final(self)@ == old(self)@.with_new_bucket(content_view(content)),
            final(self)@.wf(),
            old(self)@.untracked ==> final(self)@.untracked,
    {
        if self.untracked {
            return ;
        }
        if self.next_id <= 0xffff_ffff {
            let id: u32 = self.next_id as u32;
            let ghost before = self@.buckets;
            self.buckets.insert(id, content);
            self.next_id = self.next_id + 1;
            assert(self@.buckets =~= before.insert(id, content_view(content)));
        } else {
            self.enter_untracked_mode();
        }
    }

    /// Records a new bucket that holds exactly `resources`.
    pub fn new_bucket_known_resources(&mut self, resources: ResourceSpecifier)
        requires
            old(self)@.wf(),
        ensures
            final(self)@ == old(self)@.with_new_bucket(Some(resources@)),
            final(self)@.wf(),
            old(self)@.untracked ==> final(self)@.untracked,
    {
        self.new_bucket(Some(resources));
    }

    /// Records a new bucket of which the content is not known.
    pub fn new_bucket_unknown_resources(&mut self)
        requires
            old(self)@.wf(),
        ensures
            final(self)@ == old(self)@.with_new_bucket(None),
            final(self)@.wf(),
            old(self)@.untracked ==> final(self)@.untracked,
    {
        self.new_bucket(None);
    }

    /// Whether the bucket is known to exist.
    pub fn holds_bucket(&self, bucket_id: &BucketId) -> (held: bool)
        ensures
            held == self@.holds(bucket_id.0),
    {
        !self.untracked && self.buckets.contains_key(&bucket_id.0)
    }

    /// The quantity that a proof of `amount` out of the bucket stands for.
    /// The bucket stays as it is: what earlier proofs took is not counted.
    pub fn try_consume_fungible_from_bucket(&self, bucket_id: &BucketId, amount: &Decimal) -> (part:
        Option<ResourceSpecifier>)
        ensures
            part matches Some(p) ==> self@.partial_amount(bucket_id.0, amount.attos()) == Some(p@),
            part is None ==> self@.partial_amount(bucket_id.0, amount.attos()) is None,
    {
        if self.untracked {
            return None;
        }
        match self.buckets.get(&bucket_id.0) {
            Some(Some(ResourceSpecifier::Amount(address, available))) => {
                if !amount.is_negative() && amount.le(available) {
                    Some(ResourceSpecifier::Amount(*address, *amount))
                } else {
                    None
                }
            },
            _ => None,
        }
    }

    /// The quantity that a proof of `ids` out of the bucket stands for. The
    /// bucket stays as it is.
    pub fn try_consume_non_fungible_from_bucket(
        &self,
        bucket_id: &BucketId,
        ids: &Vec<NonFungibleLocalId>,
    ) -> (part: Option<ResourceSpecifier>)
        ensures
            part matches Some(p) ==> self@.partial_ids(bucket_id.0, id_set(ids@)) == Some(p@),
            part is None ==> self@.partial_ids(bucket_id.0, id_set(ids@)) is None,
    {
        if self.untracked {
            return None;
        }
        match self.buckets.get(&bucket_id.0) {
            Some(Some(ResourceSpecifier::Ids(address, available))) => {
                if ids_contain_all(available, ids) {
                    Some(ResourceSpecifier::Ids(*address, ids_copy(ids)))
                } else {
                    None
                }
            },
            _ => None,
        }
    }

    /// Consumes the bucket: it no longer exists. Gives its content where
    /// that is known, and an error where the bucket is not there. In
    /// untracked mode nothing is known and nothing is an error.
    pub fn bucket_consumed(&mut self, bucket_id: &BucketId) -> (content: Result<
        Option<ResourceSpecifier>,
        LookupError,
    >)
        requires
            old(self)@.wf(),
        ensures
            content matches Ok(c) ==> old(self)@.consume_outcome(bucket_id.0) == Ok::<
                Option<SpecifierView>,
                LookupError,
            >(content_view(c)),
            content matches Err(e) ==> old(self)@.consume_outcome(bucket_id.0) == Err::<
                Option<SpecifierView>,
                LookupError,
            >(e),
            final(self)@ == old(self)@.consume(bucket_id.0),
            final(self)@.wf(),
            old(self)@.untracked ==> final(self)@.untracked,
    {
        if self.untracked {
            return Ok(None);
        }
        let ghost before = self@.buckets;
        match self.buckets.remove(&bucket_id.0) {
            Some(content) => {
                assert(self@.buckets =~= before.remove(bucket_id.0));
                Ok(content)
            },
            None => {
                assert(self@.buckets =~= before);
                Err(LookupError { bucket_id: *bucket_id })
            },
        }
    }
}

} // verus!
