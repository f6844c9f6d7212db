//! Resource addresses, non-fungible ids, and quantities of one resource.

use crate::decimal::lemma_attos_injective;
use crate::decimal::representable;
use crate::decimal::Decimal;
use vstd::prelude::*;

verus! {

/// The address of a resource: the 30 bytes of its node id.
#[derive(Clone, Copy, Debug, PartialEq, Eq, Hash)]
pub struct ResourceAddress(pub [u8; 30]);

impl View for ResourceAddress {
    type V = Seq<u8>;

    open spec fn view(&self) -> Seq<u8> {
        self.0@
    }
}

impl ResourceAddress {
    /// Whether two addresses hold the same bytes.
    pub fn equals(&self, other: &ResourceAddress) -> (same: bool)
        ensures
            same == (self@ == other@),
    {
        let mut i: usize = 0;
        while i < 30
            invariant
                0 <= i <= 30,
                forall|j: int| 0 <= j < i ==> self.0@[j] == other.0@[j],
            decreases 30 - i,
        {
            if self.0[i] != other.0[i] {
                return false;
            }
            i += 1;
        }
        assert(self.0@ =~= other.0@);
        true
    }
}

/// The id of one unit of a non-fungible resource.
#[derive(Debug, PartialEq, Eq, Hash)]
pub enum NonFungibleLocalId {
    /// A 64 bit unsigned integer id.
    Integer(u64),
    /// A 128 bit unsigned integer id.
    UUID(u128),
    /// A byte array id.
    Bytes(Vec<u8>),
    /// A string id.
    String(String),
    /// A 256 bit id that the ledger generates.
    RUID([u8; 32]),
}

/// What a non-fungible id holds.
pub enum NonFungibleLocalIdView {
    Integer(u64),
    UUID(u128),
    Bytes(Seq<u8>),
    String(Seq<char>),
    RUID(Seq<u8>),
}

impl View for NonFungibleLocalId {
    type V = NonFungibleLocalIdView;

    open spec fn view(&self) -> NonFungibleLocalIdView {
        match self {
            NonFungibleLocalId::Integer(n) => NonFungibleLocalIdView::Integer(*n),
            NonFungibleLocalId::UUID(n) => NonFungibleLocalIdView::UUID(*n),
            NonFungibleLocalId::Bytes(b) => NonFungibleLocalIdView::Bytes(b@),
            NonFungibleLocalId::String(s) => NonFungibleLocalIdView::String(s@),
            NonFungibleLocalId::RUID(b) => NonFungibleLocalIdView::RUID(b@),
        }
    }
}

/// Whether two byte strings are equal.
fn bytes_equal(a: &[u8], b: &[u8]) -> (same: bool)
    ensures
        same == (a@ == b@),
{
    if a.len() != b.len() {
        return false;
    }
    let mut i: usize = 0;
    while i < a.len()
        invariant
            0 <= i <= a.len(),
            a.len() == b.len(),
            forall|j: int| 0 <= j < i ==> a@[j] == b@[j],
        decreases a.len() - i,
    {
        if a[i] != b[i] {
            return false;
        }
        i += 1;
    }
    assert(a@ =~= b@);
    true
}

/// A copy of a byte string.
fn bytes_copy(a: &[u8]) -> (copy: Vec<u8>)
    ensures
        copy@ == a@,
{
    let mut copy: Vec<u8> = Vec::new();
    let mut i: usize = 0;
    while i < a.len()
        invariant
            0 <= i <= a.len(),
            copy@ == a@.take(i as int),
        decreases a.len() - i,
    {
        copy.push(a[i]);
        assert(a@.take(i + 1) =~= a@.take(i as int).push(a@[i as int]));
        i += 1;
    }
    assert(a@.take(a.len() as int) =~= a@);
    copy
}

impl NonFungibleLocalId {
    /// Whether two ids are of the same kind and hold the same value.
    pub fn equals(&self, other: &NonFungibleLocalId) -> (same: bool)
        ensures
            same == (self@ == other@),
    {
        match (self, other) {
            (NonFungibleLocalId::Integer(a), NonFungibleLocalId::Integer(b)) => *a == *b,
            (NonFungibleLocalId::UUID(a), NonFungibleLocalId::UUID(b)) => *a == *b,
            (NonFungibleLocalId::Bytes(a), NonFungibleLocalId::Bytes(b)) => bytes_equal(
                a.as_slice(),
                b.as_slice(),
            ),
            (NonFungibleLocalId::String(a), NonFungibleLocalId::String(b)) => *a == *b,
            (NonFungibleLocalId::RUID(a), NonFungibleLocalId::RUID(b)) => bytes_equal(
                a.as_slice(),
                b.as_slice(),
            ),
            _ => false,
        }
    }
}

impl Clone for NonFungibleLocalId {
    fn clone(&self) -> (copy: Self)
        ensures
            copy@ == self@,
    {
        match self {
            NonFungibleLocalId::Integer(n) => NonFungibleLocalId::Integer(*n),
            NonFungibleLocalId::UUID(n) => NonFungibleLocalId::UUID(*n),
            NonFungibleLocalId::Bytes(b) => NonFungibleLocalId::Bytes(bytes_copy(b.as_slice())),
            NonFungibleLocalId::String(s) => NonFungibleLocalId::String(s.clone()),
            NonFungibleLocalId::RUID(b) => NonFungibleLocalId::RUID(*b),
        }
    }
}

/// The set of ids that a list holds.
pub open spec fn id_set(ids: Seq<NonFungibleLocalId>) -> Set<NonFungibleLocalIdView> {
    Set::new(|v: NonFungibleLocalIdView| exists|i: int| 0 <= i < ids.len() && ids[i]@ == v)
}

/// Whether `id` is among `ids`.
pub fn ids_contain(ids: &Vec<NonFungibleLocalId>, id: &NonFungibleLocalId) -> (found: bool)
    ensures
        found == id_set(ids@).contains(id@),
{
    let mut i: usize = 0;
    while i < ids.len()
        invariant
            0 <= i <= ids.len(),
            forall|j: int| 0 <= j < i ==> ids@[j]@ != id@,
        decreases ids.len() - i,
    {
        if ids[i].equals(id) {
            return true;
        }
        i += 1;
    }
    false
}

/// Whether every id of `wanted` is among `ids`.
pub fn ids_contain_all(ids: &Vec<NonFungibleLocalId>, wanted: &Vec<NonFungibleLocalId>) -> (all: bool)
    ensures
        all == id_set(wanted@).subset_of(id_set(ids@)),
{
    let mut i: usize = 0;
    while i < wanted.len()
        invariant
            0 <= i <= wanted.len(),
            forall|j: int| 0 <= j < i ==> id_set(ids@).contains(#[trigger] wanted@[j]@),
        decreases wanted.len() - i,
    {
        if !ids_contain(ids, &wanted[i]) {
            assert(id_set(wanted@).contains(wanted@[i as int]@));
            return false;
        }
        i += 1;
    }
    true
}

/// A list of the ids that are among `ids` or among `more`.
pub fn ids_union(ids: &Vec<NonFungibleLocalId>, more: &Vec<NonFungibleLocalId>) -> (all: Vec<
    NonFungibleLocalId,
>)
    ensures
        id_set(all@) == id_set(ids@).union(id_set(more@)),
{
    let mut all: Vec<NonFungibleLocalId> = Vec::new();
    let mut i: usize = 0;
    while i < ids.len()
        invariant
            0 <= i <= ids.len(),
            all@.len() == i,
            forall|j: int| 0 <= j < i ==> #[trigger] all@[j]@ == ids@[j]@,
        decreases ids.len() - i,
    {
        all.push(ids[i].clone());
        i += 1;
    }
    assert(id_set(all@) =~= id_set(ids@)) by {
        assert forall|v: NonFungibleLocalIdView| id_set(ids@).contains(v) implies id_set(
            all@,
        ).contains(v) by {
            let j = choose|j: int| 0 <= j < ids@.len() && ids@[j]@ == v;
            assert(all@[j]@ == v);
        }
    }
    let mut k: usize = 0;
    while k < more.len()
        invariant
            0 <= k <= more.len(),
            id_set(all@) == id_set(ids@).union(id_set(more@.take(k as int))),
        decreases more.len() - k,
    {
        let ghost before = all@;
        if !ids_contain(&all, &more[k]) {
            all.push(more[k].clone());
        }
        assert(id_set(all@) =~= id_set(before).insert(more@[k as int]@)) by {
            assert forall|v: NonFungibleLocalIdView| id_set(before).contains(v) implies id_set(
                all@,
            ).contains(v) by {
                let j = choose|j: int| 0 <= j < before.len() && before[j]@ == v;
                assert(all@[j]@ == v);
            }
            if all@.len() > before.len() {
                assert(all@[before.len() as int]@ == more@[k as int]@);
            }
        }
        assert(id_set(more@.take(k + 1)) =~= id_set(more@.take(k as int)).insert(
            more@[k as int]@,
        )) by {
            lemma_id_set_take_next(more@, k as int);
        }
        k += 1;
    }
    assert(more@.take(more.len() as int) =~= more@);
    all
}

/// A list of the ids that are among `ids` and not among `removed`.
pub fn ids_difference(ids: &Vec<NonFungibleLocalId>, removed: &Vec<NonFungibleLocalId>) -> (rest:
    Vec<NonFungibleLocalId>)
    ensures
        id_set(rest@) == id_set(ids@).difference(id_set(removed@)),
{
    let mut rest: Vec<NonFungibleLocalId> = Vec::new();
    let mut i: usize = 0;
    while i < ids.len()
        invariant
            0 <= i <= ids.len(),
            id_set(rest@) == id_set(ids@.take(i as int)).difference(id_set(removed@)),
        decreases ids.len() - i,
    {
        let ghost before = rest@;
        let gone = ids_contain(removed, &ids[i]);
        if !gone {
            rest.push(ids[i].clone());
        }
        proof {
            lemma_id_set_take_next(ids@, i as int);
            if gone {
                assert(id_set(rest@) =~= id_set(ids@.take(i + 1)).difference(id_set(removed@)));
            } else {
                assert(id_set(rest@) =~= id_set(before).insert(ids@[i as int]@)) by {
                    assert forall|v: NonFungibleLocalIdView|
                        id_set(before).contains(v) implies id_set(rest@).contains(v) by {
                        let j = choose|j: int| 0 <= j < before.len() && before[j]@ == v;
                        assert(rest@[j]@ == v);
                    }
                    assert(rest@[before.len() as int]@ == ids@[i as int]@);
                }
                assert(id_set(rest@) =~= id_set(ids@.take(i + 1)).difference(id_set(removed@)));
            }
        }
        i += 1;
    }
    assert(ids@.take(ids.len() as int) =~= ids@);
    rest
}

/// A copy of a list of ids.
pub fn ids_copy(ids: &Vec<NonFungibleLocalId>) -> (copy: Vec<NonFungibleLocalId>)
    ensures
        id_set(copy@) == id_set(ids@),
        copy@.len() == ids@.len(),
        forall|j: int| 0 <= j < ids@.len() ==> #[trigger] copy@[j]@ == ids@[j]@,
{
    let mut copy: Vec<NonFungibleLocalId> = Vec::new();
    let mut i: usize = 0;
    while i < ids.len()
        invariant
            0 <= i <= ids.len(),
            copy@.len() == i,
            forall|j: int| 0 <= j < i ==> #[trigger] copy@[j]@ == ids@[j]@,
        decreases ids.len() - i,
    {
        copy.push(ids[i].clone());
        i += 1;
    }
    assert(id_set(copy@) =~= id_set(ids@)) by {
        assert forall|v: NonFungibleLocalIdView| id_set(ids@).contains(v) implies id_set(
            copy@,
        ).contains(v) by {
            let j = choose|j: int| 0 <= j < ids@.len() && ids@[j]@ == v;
            assert(copy@[j]@ == v);
        }
        assert forall|v: NonFungibleLocalIdView| id_set(copy@).contains(v) implies id_set(
            ids@,
        ).contains(v) by {
            let j = choose|j: int| 0 <= j < copy@.len() && copy@[j]@ == v;
            assert(ids@[j]@ == v);
        }
    }
    copy
}

/// The ids among the first `k + 1` of a list are those among the first `k`,
/// and the one at `k`.
pub proof fn lemma_id_set_take_next(ids: Seq<NonFungibleLocalId>, k: int)
    requires
        0 <= k < ids.len(),
    ensures
        id_set(ids.take(k + 1)) == id_set(ids.take(k)).insert(ids[k]@),
{
    let longer = ids.take(k + 1);
    let shorter = ids.take(k);
    assert forall|v: NonFungibleLocalIdView| id_set(longer).contains(v) implies id_set(
        shorter,
    ).insert(ids[k]@).contains(v) by {
        let j = choose|j: int| 0 <= j < longer.len() && longer[j]@ == v;
        if j < k {
            assert(shorter[j]@ == v);
        }
    }
    assert forall|v: NonFungibleLocalIdView| id_set(shorter).insert(ids[k]@).contains(
        v,
    ) implies id_set(longer).contains(v) by {
        if id_set(shorter).contains(v) {
            let j = choose|j: int| 0 <= j < shorter.len() && shorter[j]@ == v;
            assert(longer[j]@ == v);
        } else {
            assert(longer[k]@ == v);
        }
    }
    assert(id_set(longer) =~= id_set(shorter).insert(ids[k]@));
}

/// Why two quantities cannot be merged into one.
#[derive(Clone, Copy, Debug, PartialEq, Eq, Structural)]
pub enum MergeError {
    /// The two quantities are of different resources.
    AddressMismatch,
    /// One is an amount and the other a set of ids.
    KindMismatch,
    /// The sum of the two amounts does not fit in an amount.
    AmountOverflow,
}

/// A quantity of one resource: an amount of a fungible resource, or a set of
/// ids of a non-fungible one. Two quantities are equal where they are of the
/// same resource and hold the same amount or the same set of ids.
#[derive(Debug)]
pub enum ResourceSpecifier {
    /// An amount of a fungible resource.
    Amount(ResourceAddress, Decimal),
    /// Units of a non-fungible resource, named by their ids. The list stands
    /// for the set of its items.
    Ids(ResourceAddress, Vec<NonFungibleLocalId>),
}

/// What a quantity holds: the address, and attos or a set of ids.
#[verifier::ext_equal]
pub enum SpecifierView {
    Amount(Seq<u8>, int),
    Ids(Seq<u8>, Set<NonFungibleLocalIdView>),
}

impl SpecifierView {
    /// The address of the resource.
    pub open spec fn address(self) -> Seq<u8> {
        match self {
            SpecifierView::Amount(address, _) => address,
            SpecifierView::Ids(address, _) => address,
        }
    }

    /// The two quantities taken together: amounts are added and sets of ids
    /// united. Quantities of different resources or of different kinds do not
    /// merge.
    pub open spec fn merge(self, other: SpecifierView) -> Result<SpecifierView, MergeError> {
        if self.address() != other.address() {
            Err(MergeError::AddressMismatch)
        } else {
            match (self, other) {
                (SpecifierView::Amount(address, x), SpecifierView::Amount(_, y)) => {
                    if representable(x + y) {
                        Ok(SpecifierView::Amount(address, x + y))
                    } else {
                        Err(MergeError::AmountOverflow)
                    }
                },
                (SpecifierView::Ids(address, s), SpecifierView::Ids(_, t)) => Ok(
                    SpecifierView::Ids(address, s.union(t)),
                ),
                _ => Err(MergeError::KindMismatch),
            }
        }
    }

    /// What is left of this quantity once `request` is taken out of it, or
    /// `None` where it cannot be taken: it is of another resource or of the
    /// other kind, the amount asked for is negative or more than there is, or
    /// one of the ids asked for is not there.
    pub open spec fn subtract(self, request: SpecifierView) -> Option<SpecifierView> {
        match (self, request) {
            (SpecifierView::Amount(address, x), SpecifierView::Amount(wanted, y)) => {
                if address == wanted && 0 <= y <= x {
                    Some(SpecifierView::Amount(address, x - y))
                } else {
                    None
                }
            },
            (SpecifierView::Ids(address, s), SpecifierView::Ids(wanted, t)) => {
                if address == wanted && t.subset_of(s) {
                    Some(SpecifierView::Ids(address, s.difference(t)))
                } else {
                    None
                }
            },
            _ => None,
        }
    }
}

impl View for ResourceSpecifier {
    type V = SpecifierView;

    open spec fn view(&self) -> SpecifierView {
        match self {
            ResourceSpecifier::Amount(address, amount) => SpecifierView::Amount(
                address@,
                amount.attos(),
            ),
            ResourceSpecifier::Ids(address, ids) => SpecifierView::Ids(address@, id_set(ids@)),
        }
    }
}

impl PartialEq for ResourceSpecifier {
    fn eq(&self, other: &Self) -> (same: bool) {
        match (self, other) {
            (ResourceSpecifier::Amount(a, x), ResourceSpecifier::Amount(b, y)) => {
                proof {
                    if x.attos() == y.attos() {
                        lemma_attos_injective(*x, *y);
                    }
                }
                a.equals(b) && *x == *y
            },
            (ResourceSpecifier::Ids(a, s), ResourceSpecifier::Ids(b, t)) => {
                let same = a.equals(b) && ids_contain_all(s, t) && ids_contain_all(t, s);
                proof {
                    if same {
                        assert(id_set(s@) =~= id_set(t@));
                    }
                }
                same
            },
            _ => false,
        }
    }
}

impl Eq for ResourceSpecifier {

}

impl vstd::std_specs::cmp::PartialEqSpecImpl for ResourceSpecifier {
    open spec fn obeys_eq_spec() -> bool {
        true
    }

    open spec fn eq_spec(&self, other: &Self) -> bool {
        self@ == other@
    }
}

impl Clone for ResourceSpecifier {
    fn clone(&self) -> (copy: Self)
        ensures
            copy@ == self@,
    {
        match self {
            ResourceSpecifier::Amount(address, amount) => ResourceSpecifier::Amount(
                *address,
                *amount,
            ),
            ResourceSpecifier::Ids(address, ids) => ResourceSpecifier::Ids(
                *address,
                ids_copy(ids),
            ),
        }
    }
}

impl ResourceSpecifier {
    /// The address of the resource.
    pub fn resource_address(&self) -> (address: ResourceAddress)
        ensures
            address@ == self@.address(),
    {
        match self {
            ResourceSpecifier::Amount(address, _) => *address,
            ResourceSpecifier::Ids(address, _) => *address,
        }
    }

    /// The two quantities taken together.
    pub fn merge(&self, other: &ResourceSpecifier) -> (merged: Result<
        ResourceSpecifier,
        MergeError,
    >)
        ensures
            merged matches Ok(m) ==> self@.merge(other@) == Ok::<SpecifierView, MergeError>(m@),
            merged matches Err(e) ==> self@.merge(other@) == Err::<SpecifierView, MergeError>(e),
    {
        if !self.resource_address().equals(&other.resource_address()) {
            return Err(MergeError::AddressMismatch);
        }
        match (self, other) {
            (ResourceSpecifier::Amount(address, x), ResourceSpecifier::Amount(_, y)) => {
                match x.checked_add(y) {
                    Some(sum) => Ok(ResourceSpecifier::Amount(*address, sum)),
                    None => Err(MergeError::AmountOverflow),
                }
            },
            (ResourceSpecifier::Ids(address, s), ResourceSpecifier::Ids(_, t)) => Ok(
                ResourceSpecifier::Ids(*address, ids_union(s, t)),
            ),
            _ => Err(MergeError::KindMismatch),
        }
    }

    /// What is left of this quantity once `request` is taken out of it, or
    /// `None` where it cannot be taken.
    pub fn subtract(&self, request: &ResourceSpecifier) -> (rest: Option<ResourceSpecifier>)
        ensures
            rest matches Some(r) ==> self@.subtract(request@) == Some(r@),
            rest is None ==> self@.subtract(request@) is None,
    {
        if !self.resource_address().equals(&request.resource_address()) {
            return None;
        }
        match (self, request) {
            (ResourceSpecifier::Amount(address, x), ResourceSpecifier::Amount(_, y)) => {
                if y.is_negative() || !y.le(x) {
                    return None;
                }
                match x.checked_sub(y) {
                    Some(left) => Some(ResourceSpecifier::Amount(*address, left)),
                    None => None,
                }
            },
            (ResourceSpecifier::Ids(address, s), ResourceSpecifier::Ids(_, t)) => {
                if ids_contain_all(s, t) {
                    Some(ResourceSpecifier::Ids(*address, ids_difference(s, t)))
                } else {
                    None
                }
            },
            _ => None,
        }
    }

    /// Whether `request` can be taken out of this quantity.
    pub fn covers(&self, request: &ResourceSpecifier) -> (enough: bool)
        ensures
            enough == self@.subtract(request@).is_some(),
    {
        if !self.resource_address().equals(&request.resource_address()) {
            return false;
        }
        match (self, request) {
            (ResourceSpecifier::Amount(_, x), ResourceSpecifier::Amount(_, y)) => {
                !y.is_negative() && y.le(x)
            },
            (ResourceSpecifier::Ids(_, s), ResourceSpecifier::Ids(_, t)) => ids_contain_all(s, t),
            _ => false,
        }
    }
}

} // verus!
