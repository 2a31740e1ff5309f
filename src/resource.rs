//! Resources as plain values: addresses, non-fungible identifiers and buckets.
//!
//! A `Bucket` is a holding area for one resource. Fungible holdings are counted
//! in attos (10^-18 of a unit); non-fungible holdings are the identifiers held.
use vstd::multiset::Multiset;
use vstd::prelude::*;

verus! {

broadcast use vstd::seq_lib::group_to_multiset_ensures, vstd::multiset::group_multiset_axioms,
    vstd::multiset::lemma_multiset_empty_len;

/// Number of attos in one whole unit of a fungible resource.
pub const ATTOS_PER_UNIT: u128 = 1_000_000_000_000_000_000;

/// Compares two byte strings element by element.
pub fn bytes_equal(a: &[u8], b: &[u8]) -> (r: bool)
    ensures
        r == (a@ == b@),
{
    if a.len() != b.len() {
        return false;
    }
    let mut i: usize = 0;
    while i < a.len()
        invariant
            a@.len() == b@.len(),
            i <= a@.len(),
            a@.subrange(0, i as int) == b@.subrange(0, i as int),
        decreases a@.len() - i,
    {
        if a[i] != b[i] {
            assert(a@[i as int] != b@[i as int]);
            return false;
        }
        assert(a@.subrange(0, i + 1) == a@.subrange(0, i as int).push(a@[i as int]));
        assert(b@.subrange(0, i + 1) == b@.subrange(0, i as int).push(b@[i as int]));
        i = i + 1;
    }
    assert(a@ == a@.subrange(0, a@.len() as int));
    assert(b@ == b@.subrange(0, b@.len() as int));
    true
}

/// The address of a resource: the 30 bytes of its node identifier.
#[derive(Clone, Copy)]
pub struct ResourceAddress {
    node_id: [u8; 30],
}

impl View for ResourceAddress {
    type V = Seq<u8>;

    closed spec fn view(&self) -> Seq<u8> {
        self.node_id@
    }
}

impl ResourceAddress {
    pub fn new(node_id: [u8; 30]) -> (r: ResourceAddress)
        ensures
            r@ == node_id@,
    {
        ResourceAddress { node_id }
    }

    pub fn node_id(&self) -> (r: [u8; 30])
        ensures
            r@ == self@,
    {
        self.node_id
    }

    pub fn equals(&self, other: &ResourceAddress) -> (r: bool)
        ensures
            r == (self@ == other@),
    {
        bytes_equal(self.node_id.as_slice(), other.node_id.as_slice())
    }
}

/// The identifier of one unit of a non-fungible resource.
pub enum NonFungibleLocalId {
    String(String),
    Integer(u64),
    Bytes(Vec<u8>),
    Ruid([u8; 32]),
}

/// What a `NonFungibleLocalId` stands for.
pub enum LocalIdView {
    String(Seq<char>),
    Integer(u64),
    Bytes(Seq<u8>),
    Ruid(Seq<u8>),
}

impl View for NonFungibleLocalId {
    type V = LocalIdView;

    open spec fn view(&self) -> LocalIdView {
        match self {
            NonFungibleLocalId::String(s) => LocalIdView::String(s@),
            NonFungibleLocalId::Integer(n) => LocalIdView::Integer(*n),
            NonFungibleLocalId::Bytes(b) => LocalIdView::Bytes(b@),
            NonFungibleLocalId::Ruid(b) => LocalIdView::Ruid(b@),
        }
    }
}

impl NonFungibleLocalId {
    pub fn equals(&self, other: &NonFungibleLocalId) -> (r: bool)
        ensures
            r == (self@ == other@),
    {
        match self {
            NonFungibleLocalId::String(a) => match other {
                NonFungibleLocalId::String(b) => *a == *b,
                _ => false,
            },
            NonFungibleLocalId::Integer(a) => match other {
                NonFungibleLocalId::Integer(b) => *a == *b,
                _ => false,
            },
            NonFungibleLocalId::Bytes(a) => match other {
                NonFungibleLocalId::Bytes(b) => bytes_equal(a.as_slice(), b.as_slice()),
                _ => false,
            },
            NonFungibleLocalId::Ruid(a) => match other {
                NonFungibleLocalId::Ruid(b) => bytes_equal(a.as_slice(), b.as_slice()),
                _ => false,
            },
        }
    }
}

/// The first position in `ids` of an identifier equal to `id`, if any.
fn position_of(ids: &Vec<NonFungibleLocalId>, id: &NonFungibleLocalId) -> (r: Option<usize>)
    ensures
        match r {
            Some(k) => k < ids@.len() && id_views(ids@)[k as int] == id@,
            None => !id_views(ids@).contains(id@),
        },
{
    let ghost s = id_views(ids@);
    let mut k: usize = 0;
    while k < ids.len()
        invariant
            k <= ids@.len(),
            s == id_views(ids@),
            forall|j: int| 0 <= j < k ==> s[j] != id@,
        decreases ids@.len() - k,
    {
        assert(s[k as int] == ids@[k as int]@);
        if ids[k].equals(id) {
            return Some(k);
        }
        k = k + 1;
    }
    None
}

/// What a bucket holds: an amount in attos, or a collection of identifiers.
pub enum Holding {
    Fungible(u128),
    NonFungible(Vec<NonFungibleLocalId>),
}

pub enum HoldingView {
    Fungible(nat),
    NonFungible(Multiset<LocalIdView>),
}

pub struct BucketView {
    pub address: Seq<u8>,
    pub holding: HoldingView,
}

pub open spec fn id_views(ids: Seq<NonFungibleLocalId>) -> Seq<LocalIdView> {
    ids.map_values(|i: NonFungibleLocalId| i@)
}

pub open spec fn ids_view(ids: Seq<NonFungibleLocalId>) -> Multiset<LocalIdView> {
    id_views(ids).to_multiset()
}

impl BucketView {
    /// How much the bucket holds: attos, or the number of identifiers.
    pub open spec fn amount(self) -> nat {
        match self.holding {
            HoldingView::Fungible(n) => n,
            HoldingView::NonFungible(m) => m.len(),
        }
    }

    pub open spec fn is_fungible(self) -> bool {
        self.holding is Fungible
    }

    /// An empty bucket of the same resource.
    pub open spec fn emptied(self) -> BucketView {
        BucketView {
            address: self.address,
            holding: match self.holding {
                HoldingView::Fungible(_) => HoldingView::Fungible(0),
                HoldingView::NonFungible(_) => HoldingView::NonFungible(Multiset::empty()),
            },
        }
    }

    pub open spec fn contains_id(self, id: LocalIdView) -> bool {
        match self.holding {
            HoldingView::Fungible(_) => false,
            HoldingView::NonFungible(m) => m.count(id) > 0,
        }
    }

    /// The contents of `other` added to this bucket.
    pub open spec fn joined(self, other: BucketView) -> BucketView {
        BucketView {
            address: self.address,
            holding: match (self.holding, other.holding) {
                (HoldingView::Fungible(a), HoldingView::Fungible(b)) => HoldingView::Fungible(a + b),
                (HoldingView::NonFungible(a), HoldingView::NonFungible(b)) => HoldingView::NonFungible(
                    a.add(b),
                ),
                (h, _) => h,
            },
        }
    }

    /// Whether `other` may be added to this bucket without exceeding what an amount can count.
    pub open spec fn can_join(self, other: BucketView) -> bool {
        &&& self.address == other.address
        &&& self.is_fungible() == other.is_fungible()
        &&& self.is_fungible() ==> self.amount() + other.amount() <= u128::MAX
    }
}

pub open spec fn fungible_view(address: Seq<u8>, amount: nat) -> BucketView {
    BucketView { address, holding: HoldingView::Fungible(amount) }
}

pub open spec fn non_fungible_view(address: Seq<u8>, ids: Multiset<LocalIdView>) -> BucketView {
    BucketView { address, holding: HoldingView::NonFungible(ids) }
}

/// No identifiers hold nothing.
pub proof fn lemma_no_ids(ids: Seq<NonFungibleLocalId>)
    requires
        ids.len() == 0,
    ensures
        ids_view(ids) =~= Multiset::empty(),
{
    assert(id_views(ids) =~= Seq::empty());
}

/// One identifier holds exactly that unit.
pub proof fn lemma_one_id(ids: Seq<NonFungibleLocalId>)
    requires
        ids.len() == 1,
    ensures
        ids_view(ids) =~= Multiset::singleton(ids[0]@),
{
    assert(id_views(ids) =~= Seq::<LocalIdView>::empty().push(ids[0]@));
    assert(Seq::<LocalIdView>::empty().to_multiset() =~= Multiset::empty());
}

/// A holding area for one resource: what a transaction passes around, or what
/// a component keeps in custody.
pub struct Bucket {
    resource_address: ResourceAddress,
    holding: Holding,
}

impl View for Bucket {
    type V = BucketView;

    closed spec fn view(&self) -> BucketView {
        BucketView {
            address: self.resource_address@,
            holding: match self.holding {
                Holding::Fungible(n) => HoldingView::Fungible(n as nat),
                Holding::NonFungible(ids) => HoldingView::NonFungible(ids_view(ids@)),
            },
        }
    }
}

impl Bucket {
    pub fn new_fungible(resource_address: ResourceAddress, amount: u128) -> (r: Bucket)
        ensures
            r@ == fungible_view(resource_address@, amount as nat),
    {
        Bucket { resource_address, holding: Holding::Fungible(amount) }
    }

    pub fn new_non_fungible(resource_address: ResourceAddress, ids: Vec<NonFungibleLocalId>) -> (r:
        Bucket)
        ensures
            r@ == non_fungible_view(resource_address@, ids_view(ids@)),
    {
        Bucket { resource_address, holding: Holding::NonFungible(ids) }
    }

    pub fn resource_address(&self) -> (r: ResourceAddress)
        ensures
            r@ == self@.address,
    {
        self.resource_address
    }

    pub fn is_fungible(&self) -> (r: bool)
        ensures
            r == self@.is_fungible(),
    {
        match &self.holding {
            Holding::Fungible(_) => true,
            Holding::NonFungible(_) => false,
        }
    }

    /// Attos held, or the number of identifiers held.
    pub fn amount(&self) -> (r: u128)
        ensures
            r == self@.amount(),
    {
        match &self.holding {
            Holding::Fungible(n) => *n,
            Holding::NonFungible(ids) => {
                proof {
                    id_views(ids@).to_multiset_ensures();
                }
                ids.len() as u128
            },
        }
    }

    pub fn is_empty(&self) -> (r: bool)
        ensures
            r == (self@.amount() == 0),
    {
        self.amount() == 0
    }

    pub fn contains_non_fungible(&self, id: &NonFungibleLocalId) -> (r: bool)
        ensures
            r == self@.contains_id(id@),
    {
        match &self.holding {
            Holding::Fungible(_) => false,
            Holding::NonFungible(ids) => position_of(ids, id).is_some(),
        }
    }

    /// An empty bucket of the same resource.
    pub fn empty_like(&self) -> (r: Bucket)
        ensures
            r@ == self@.emptied(),
    {
        match &self.holding {
            Holding::Fungible(_) => Bucket::new_fungible(self.resource_address, 0),
            Holding::NonFungible(_) => {
                let ids: Vec<NonFungibleLocalId> = Vec::new();
                proof {
                    lemma_no_ids(ids@);
                }
                Bucket::new_non_fungible(self.resource_address, ids)
            },
        }
    }

    /// Takes `amount` attos out of a fungible bucket.
    pub fn take(&mut self, amount: u128) -> (r: Bucket)
        requires
            old(self)@.is_fungible(),
            amount <= old(self)@.amount(),
        ensures
            r@ == fungible_view(old(self)@.address, amount as nat),
            final(self)@ == fungible_view(old(self)@.address, (old(self)@.amount() - amount) as nat),
    {
        match &mut self.holding {
            Holding::Fungible(n) => {
                *n = *n - amount;
            },
            Holding::NonFungible(_) => {},
        }
        Bucket::new_fungible(self.resource_address, amount)
    }

    /// Takes the unit with identifier `id` out of a non-fungible bucket.
    pub fn take_non_fungible(&mut self, id: &NonFungibleLocalId) -> (r: Bucket)
        requires
            old(self)@.contains_id(id@),
        ensures
            r@ == non_fungible_view(old(self)@.address, Multiset::singleton(id@)),
            final(self)@ == non_fungible_view(
                old(self)@.address,
                old(self)@.holding->NonFungible_0.remove(id@),
            ),
    {
        let resource_address = self.resource_address;
        match &mut self.holding {
            Holding::NonFungible(ids) => {
                let ghost s = id_views(ids@);
                let found = position_of(ids, id);
                proof {
                    if found is None {
                        assert(s.to_multiset().count(id@) > 0);
                    }
                }
                let k = found.unwrap();
                let item = ids.remove(k);
                assert(id_views(ids@) =~= s.remove(k as int));
                let mut taken: Vec<NonFungibleLocalId> = Vec::new();
                taken.push(item);
                proof {
                    lemma_one_id(taken@);
                }
                Bucket::new_non_fungible(resource_address, taken)
            },
            Holding::Fungible(_) => Bucket::new_fungible(resource_address, 0),
        }
    }

    /// Adds the whole of `other` to this bucket.
    pub fn put(&mut self, other: Bucket)
        requires
            old(self)@.can_join(other@),
        ensures
            final(self)@ == old(self)@.joined(other@),
    {
        let mut other = other;
        match (&mut self.holding, &mut other.holding) {
            (Holding::Fungible(a), Holding::Fungible(b)) => {
                *a = *a + *b;
            },
            (Holding::NonFungible(a), Holding::NonFungible(b)) => {
                let ghost sa = a@;
                let ghost sb = b@;
                a.append(b);
                assert(id_views(a@) =~= id_views(sa) + id_views(sb));
                proof {
                    vstd::seq_lib::lemma_multiset_commutative(id_views(sa), id_views(sb));
                }
            },
            _ => {},
        }
    }

    /// Takes everything out, leaving this bucket empty.
    pub fn take_all(&mut self) -> (r: Bucket)
        ensures
            r@ == old(self)@,
            final(self)@ == old(self)@.emptied(),
    {
        let mut r = self.empty_like();
        std::mem::swap(self, &mut r);
        r
    }
}

} // verus!
