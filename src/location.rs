use vstd::prelude::*;
use staging_xcm::v2::{AssetId, Fungibility, Junction, Junctions, MultiAsset, MultiLocation};

verus! {

/// One step down the hierarchy of a network-of-networks topology.
#[verifier::external_type_specification]
#[verifier::external_body]
pub struct ExJunction(staging_xcm::v2::Junction);

/// Relies on the derived `PartialEq` of `staging_xcm::v2::Junction`: two
/// junctions are equal exactly when they are the same value.
pub assume_specification[<Junction as PartialEq>::eq](a: &Junction, b: &Junction) -> (r: bool)
    ensures
        r == (*a == *b),
;

/// Relies on the derived `Clone` of `staging_xcm::v2::Junction`: a clone is
/// the same value.
pub assume_specification[<Junction as Clone>::clone](j: &Junction) -> (r: Junction)
    ensures
        r == *j,
;

/// A position relative to the local chain: `parents` steps up, then down
/// along `interior`.
#[derive(Clone, Debug, PartialEq, Eq)]
pub struct Location {
    pub parents: u8,
    pub interior: Vec<Junction>,
}

/// What a `Location` denotes.
pub struct LocationView {
    pub parents: u8,
    pub interior: Seq<Junction>,
}

impl View for Location {
    type V = LocationView;

    open spec fn view(&self) -> LocationView {
        LocationView { parents: self.parents, interior: self.interior@ }
    }
}

/// An amount of a fungible asset, identified by where it is issued.
#[derive(Clone, Debug, PartialEq, Eq)]
pub struct Asset {
    pub id: Location,
    pub amount: u128,
}

/// What an `Asset` denotes.
pub struct AssetView {
    pub id: LocationView,
    pub amount: u128,
}

impl View for Asset {
    type V = AssetView;

    open spec fn view(&self) -> AssetView {
        AssetView { id: self.id@, amount: self.amount }
    }
}

impl Location {
    /// The location `parents` steps up, then down along `interior`.
    pub fn new(parents: u8, interior: Vec<Junction>) -> (r: Location)
        ensures
            r@ == (LocationView { parents, interior: interior@ }),
    {
        Location { parents, interior }
    }

    /// The location of the chain that holds the local one.
    pub fn parent() -> (r: Location)
        ensures
            r@ == (LocationView { parents: 1, interior: Seq::empty() }),
    {
        Location { parents: 1, interior: Vec::new() }
    }

    /// A second location that denotes the same position.
    pub fn duplicate(&self) -> (r: Location)
        ensures
            r@ == self@,
    {
        let mut interior: Vec<Junction> = Vec::new();
        let mut i: usize = 0;
        while i < self.interior.len()
            invariant
                i <= self.interior@.len(),
                interior@ == self.interior@.subrange(0, i as int),
            decreases self.interior@.len() - i,
        {
            interior.push(self.interior[i].clone());
            i = i + 1;
        }
        assert(interior@ =~= self.interior@);
        Location { parents: self.parents, interior }
    }

    /// Whether the two locations denote the same position.
    pub fn same_as(&self, other: &Location) -> (r: bool)
        ensures
            r == (self@ == other@),
    {
        if self.parents != other.parents || self.interior.len() != other.interior.len() {
            return false;
        }
        let mut i: usize = 0;
        while i < self.interior.len()
            invariant
                i <= self.interior@.len(),
                self.interior@.len() == other.interior@.len(),
                forall|k: int| 0 <= k < i ==> self.interior@[k] == other.interior@[k],
            decreases self.interior@.len() - i,
        {
            if !(self.interior[i] == other.interior[i]) {
                return false;
            }
            i = i + 1;
        }
        assert(self.interior@ =~= other.interior@);
        true
    }
}

impl Asset {
    /// `amount` of the asset issued at `id`.
    pub fn new(id: Location, amount: u128) -> (r: Asset)
        ensures
            r@ == (AssetView { id: id@, amount }),
    {
        Asset { id, amount }
    }

    /// A second asset value equal to this one.
    pub fn duplicate(&self) -> (r: Asset)
        ensures
            r@ == self@,
    {
        Asset { id: self.id.duplicate(), amount: self.amount }
    }
}


/// Where the asset issued at `id` lies as seen from `target`, when the local
/// chain lies at `ancestry`; `None` where it cannot be expressed there.
pub uninterp spec fn reanchored_id(
    id: LocationView,
    target: LocationView,
    ancestry: LocationView,
) -> Option<LocationView>;

/// Relies on `staging_xcm::v2::MultiAsset::reanchored`, which rewrites the
/// asset's location for `target` given the local `ancestry` and keeps its
/// amount; a location of more than eight junctions has no XCM form.
#[verifier::external_body]
pub(crate) fn reanchor_asset(asset: &Asset, target: &Location, ancestry: &Location) -> (r: Option<Asset>)
    ensures
        match reanchored_id(asset.id@, target@, ancestry@) {
            Some(id) => r is Some && r->Some_0@ == (AssetView { id, amount: asset.amount }),
            None => r is None,
        },
{
    let xcm = |l: &Location| {
        let mut interior = Junctions::Here;
        for j in l.interior.iter() {
            interior.push(j.clone()).ok()?;
        }
        Some(MultiLocation::new(l.parents, interior))
    };
    let fee = MultiAsset { id: AssetId::Concrete(xcm(&asset.id)?), fun: Fungibility::Fungible(asset.amount) };
    match fee.reanchored(&xcm(target)?, &xcm(ancestry)?).ok()?.id {
        AssetId::Concrete(l) => Some(Asset {
            id: Location { parents: l.parents, interior: l.interior.into_iter().collect() },
            amount: asset.amount,
        }),
        AssetId::Abstract(_) => None,
    }
}

} // verus!
