//! The worktop: the pool of resources that the instructions of one
//! transaction share.
//!
//! The tracker knows, per resource, exactly what lies on the worktop, until
//! something enters or leaves that it cannot name. From then on it is in
//! untracked mode for the rest of the transaction.

use crate::resource::MergeError;
use crate::resource::ResourceAddress;
use crate::resource::ResourceSpecifier;
use crate::resource::SpecifierView;
use vstd::prelude::*;

verus! {

/// What the items of a list hold.
pub open spec fn specifier_views(entries: Seq<ResourceSpecifier>) -> Seq<SpecifierView> {
    entries.map_values(|s: ResourceSpecifier| s@)
}

/// Where the quantity of the resource at `address` stands in `entries`.
pub open spec fn position(entries: Seq<SpecifierView>, address: Seq<u8>) -> Option<int> {
    if exists|i: int| 0 <= i < entries.len() && entries[i].address() == address {
        Some(choose|i: int| 0 <= i < entries.len() && entries[i].address() == address)
    } else {
        None
    }
}

/// No two quantities in `entries` are of the same resource.
pub open spec fn distinct_addresses(entries: Seq<SpecifierView>) -> bool {
    forall|i: int, j: int|
        0 <= i < j < entries.len() ==> entries[i].address() != entries[j].address()
}

/// What the tracker knows of the worktop.
#[verifier::ext_equal]
pub struct WorktopView {
    /// Whether the tracker has given up.
    pub untracked: bool,
    /// One quantity per resource that lies on the worktop, in the order in
    /// which the resources first came.
    pub entries: Seq<SpecifierView>,
}

impl WorktopView {
    /// No resource has two entries, and nothing is known in untracked mode.
    pub open spec fn wf(self) -> bool {
        &&& distinct_addresses(self.entries)
        &&& self.untracked ==> self.entries.len() == 0
    }

    /// The worktop at the start of a transaction: tracked, and empty.
    pub open spec fn empty() -> WorktopView {
        WorktopView { untracked: false, entries: Seq::empty() }
    }

    /// The worktop of which nothing is known any more.
    pub open spec fn untrack(self) -> WorktopView {
        WorktopView { untracked: true, entries: Seq::empty() }
    }

    /// What is known to lie on the worktop of the resource at `address`.
    pub open spec fn quantity_of(self, address: Seq<u8>) -> Option<SpecifierView> {
        match position(self.entries, address) {
            Some(i) => Some(self.entries[i]),
            None => None,
        }
    }

    /// Whether `resources` can be added to what is known: always in
    /// untracked mode, where nothing is kept; else unless the worktop holds
    /// the same resource in a quantity that does not merge with it.
    pub open spec fn put_outcome(self, resources: SpecifierView) -> Result<(), MergeError> {
        if self.untracked {
            Ok(())
        } else {
            match position(self.entries, resources.address()) {
                Some(i) => match self.entries[i].merge(resources) {
                    Ok(_) => Ok(()),
                    Err(e) => Err(e),
                },
                None => Ok(()),
            }
        }
    }

    /// The worktop once `resources` are put on it. A quantity that does not
    /// merge leaves it as it was.
    pub open spec fn put(self, resources: SpecifierView) -> WorktopView {
        if self.untracked {
            self
        } else {
            match position(self.entries, resources.address()) {
                Some(i) => match self.entries[i].merge(resources) {
                    Ok(merged) => WorktopView {
                        untracked: false,
                        entries: self.entries.update(i, merged),
                    },
                    Err(_) => self,
                },
                None => WorktopView { untracked: false, entries: self.entries.push(resources) },
            }
        }
    }

    /// Whether exactly `resources` can be taken: the worktop is tracked, it
    /// holds the resource, and what it holds covers the request.
    pub open spec fn can_take(self, resources: SpecifierView) -> bool {
        !self.untracked && match position(self.entries, resources.address()) {
            Some(i) => self.entries[i].subtract(resources) is Some,
            None => false,
        }
    }

    /// The worktop once `resources` are taken from it; as it was where they
    /// cannot be taken.
    pub open spec fn take(self, resources: SpecifierView) -> WorktopView {
        if self.can_take(resources) {
            let i = position(self.entries, resources.address())->0;
            WorktopView {
                untracked: false,
                entries: self.entries.update(i, self.entries[i].subtract(resources)->0),
            }
        } else {
            self
        }
    }

    /// The worktop without the resource at `address`.
    pub open spec fn without(self, address: Seq<u8>) -> WorktopView {
        match position(self.entries, address) {
            Some(i) => WorktopView { untracked: self.untracked, entries: self.entries.remove(i) },
            None => self,
        }
    }

    /// The worktop with nothing on it, in the mode it was in.
    pub open spec fn cleared(self) -> WorktopView {
        WorktopView { untracked: self.untracked, entries: Seq::empty() }
    }
}

/// Where no resource has two entries, the entry of a resource is where its
/// address is found.
pub proof fn lemma_position_found(entries: Seq<SpecifierView>, address: Seq<u8>, i: int)
    requires
        distinct_addresses(entries),
        0 <= i < entries.len(),
        entries[i].address() == address,
    ensures
        position(entries, address) == Some(i),
{
    let j = choose|j: int| 0 <= j < entries.len() && entries[j].address() == address;
    if j < i {
        assert(entries[j].address() != entries[i].address());
    } else if i < j {
        assert(entries[i].address() != entries[j].address());
    }
}

/// Tracks what lies on the worktop.
pub struct WorktopContentTracker {
    untracked: bool,
    entries: Vec<ResourceSpecifier>,
}

impl View for WorktopContentTracker {
    type V = WorktopView;

    closed spec fn view(&self) -> WorktopView {
        WorktopView { untracked: self.untracked, entries: specifier_views(self.entries@) }
    }
}

impl Default for WorktopContentTracker {
    fn default() -> (tracker: WorktopContentTracker)
        ensures
            tracker@ == WorktopView::empty(),
            tracker@.wf(),
    {
        WorktopContentTracker::new()
    }
}

impl WorktopContentTracker {
    /// A tracker for a transaction that is about to start: the worktop is
    /// tracked, and empty.
    pub fn new() -> (tracker: WorktopContentTracker)
        ensures
            tracker@ == WorktopView::empty(),
            tracker@.wf(),
    {
        let tracker = WorktopContentTracker { untracked: false, entries: Vec::new() };
        assert(tracker@.entries =~= Seq::empty());
        tracker
    }

    /// Whether the tracker has given up.
    pub fn is_untracked_mode(&self) -> (untracked: bool)
        ensures
            untracked == self@.untracked,
    {
        self.untracked
    }

    /// Gives up: from now on nothing is known of the worktop.
    pub fn enter_untracked_mode(&mut self)
        ensures
            final(self)@ == old(self)@.untrack(),
            final(self)@.wf(),
            old(self)@.untracked ==> final(self)@.untracked,
    {
        self.entries.clear();
        self.untracked = true;
        assert(self@.entries =~= Seq::empty());
    }

    /// Where the quantity of the resource at `address` stands.
    fn find(&self, address: &ResourceAddress) -> (found: Option<usize>)
        requires
            self@.wf(),
        ensures
            found matches Some(i) ==> i < self.entries@.len() && position(
                self@.entries,
                address@,
            ) == Some(i as int),
            found is None ==> position(self@.entries, address@) is None,
    {
        let mut i: usize = 0;
        while i < self.entries.len()
            invariant
                self@.wf(),
                0 <= i <= self.entries.len(),
                forall|j: int| 0 <= j < i ==> self@.entries[j].address() != address@,
            decreases self.entries.len() - i,
        {
            if self.entries[i].resource_address().equals(address) {
                proof {
                    lemma_position_found(self@.entries, address@, i as int);
                }
                return Some(i);
            }
            i += 1;
        }
        None
    }

    /// Puts `resources` on the worktop. In untracked mode nothing is kept.
    /// Where the worktop holds the same resource in a quantity that does not
    /// merge with `resources`, it is left as it was and the error says why.
    pub fn put_to_worktop(&mut self, resources: ResourceSpecifier) -> (outcome: Result<
        (),
        MergeError,
    >)
        requires
            old(self)@.wf(),
        ensures
            outcome == old(self)@.put_outcome(resources@),
            final(self)@ == old(self)@.put(resources@),
            final(self)@.wf(),
            old(self)@.untracked ==> final(self)@.untracked,
    {
        if self.untracked {
            return Ok(());
        }
        match self.find(&resources.resource_address()) {
            Some(i) => {
                match self.entries[i].merge(&resources) {
                    Ok(merged) => {
                        let ghost before = self@.entries;
                        assert(distinct_addresses(before.update(i as int, merged@))) by {
                            assert(merged@.address() == before[i as int].address());
                        }
                        assert(specifier_views(self.entries@.update(i as int, merged))
                            =~= before.update(i as int, merged@));
                        self.entries.set(i, merged);
                        Ok(())
                    },
                    Err(e) => Err(e),
                }
            },
            None => {
                let ghost before = self@.entries;
                assert(distinct_addresses(before.push(resources@))) by {
                    assert forall|i: int, j: int| 0 <= i < j < before.push(
                        resources@,
                    ).len() implies before.push(resources@)[i].address() != before.push(
                        resources@,
                    )[j].address() by {
                        if j == before.len() {
                            assert(before[i].address() != resources@.address());
                        }
                    }
                }
                assert(specifier_views(self.entries@.push(resources)) =~= before.push(
                    resources@,
                ));
                self.entries.push(resources);
                Ok(())
            },
        }
    }

    /// Takes exactly `resources` from the worktop, and says whether it could.
    /// It can where the worktop is tracked and what it holds of the resource
    /// covers the request: an amount of an amount, ids of ids. Else the
    /// worktop is left as it was.
    pub fn take_from_worktop(&mut self, resources: ResourceSpecifier) -> (taken: bool)
        requires
            old(self)@.wf(),
        ensures
            taken == old(self)@.can_take(resources@),
            final(self)@ == old(self)@.take(resources@),
            final(self)@.wf(),
            old(self)@.untracked ==> final(self)@.untracked,
    {
        if self.untracked {
            return false;
        }
        match self.find(&resources.resource_address()) {
            Some(i) => {
                match self.entries[i].subtract(&resources) {
                    Some(rest) => {
                        let ghost before = self@.entries;
                        assert(distinct_addresses(before.update(i as int, rest@))) by {
                            assert(rest@.address() == before[i as int].address());
                        }
                        assert(specifier_views(self.entries@.update(i as int, rest))
                            =~= before.update(i as int, rest@));
                        self.entries.set(i, rest);
                        true
                    },
                    None => false,
                }
            },
            None => false,
        }
    }

    /// Takes all that the worktop is known to hold of the resource at
    /// `address`: `None` in untracked mode and where it holds none.
    pub fn take_from_worktop_by_address(&mut self, address: ResourceAddress) -> (taken: Option<
        ResourceSpecifier,
    >)
        requires
            old(self)@.wf(),
        ensures
            taken matches Some(s) ==> old(self)@.quantity_of(address@) == Some(s@),
            taken is None ==> old(self)@.quantity_of(address@) is None,
            final(self)@ == old(self)@.without(address@),
            final(self)@.wf(),
            old(self)@.untracked ==> final(self)@.untracked,
    {
        match self.find(&address) {
            Some(i) => {
                let ghost before = self@.entries;
                assert(distinct_addresses(before.remove(i as int)));
                assert(specifier_views(self.entries@.remove(i as int)) =~= before.remove(
                    i as int,
                ));
                let taken = self.entries.remove(i);
                Some(taken)
            },
            None => None,
        }
    }

    /// Takes everything that the worktop is known to hold, in the order in
    /// which the resources first came.
    pub fn take_all_from_worktop(&mut self) -> (taken: Vec<ResourceSpecifier>)
        requires
            old(self)@.wf(),
        ensures
            specifier_views(taken@) == old(self)@.entries,
            final(self)@ == old(self)@.cleared(),
            final(self)@.wf(),
            old(self)@.untracked ==> final(self)@.untracked,
    {
        let mut taken: Vec<ResourceSpecifier> = Vec::new();
        assert(specifier_views(taken@) =~= Seq::<SpecifierView>::empty());
        core::mem::swap(&mut self.entries, &mut taken);
        assert(self@.entries =~= Seq::empty());
        taken
    }
}

} // verus!
