use vstd::prelude::*;

use crate::codec::{spec_forward_narrowed, AsPrefixedGeneralIndex, FlatAssetId};
use crate::location::{Location, Segment};
use crate::relay::{NumericRelay, SimpleBalanceConverter};

verus! {

/// A generic asset descriptor: either the wildcard that stands for every
/// asset a surrounding stage produced, or a concrete fungible asset
/// identified by the location it lives at, carrying a raw 128-bit amount.
#[derive(Clone, Debug, PartialEq, Eq)]
pub enum AssetDescriptor {
    AllAssets,
    ConcreteFungible { id: Location, amount: u128 },
}

/// Failure of matching a descriptor into a local (identifier, amount) pair.
/// Codec and amount failures are deliberately coarsened to a single tag each;
/// the finer reason is not leaked upward.
#[derive(Clone, Copy, Debug, PartialEq, Eq, Structural)]
pub enum MatchError {
    /// The descriptor is not a concrete fungible asset.
    AssetKindUnsupported,
    /// The descriptor's location did not convert to a flat identifier.
    IdentifierConversionFailed,
    /// The descriptor's amount did not fit the local balance type.
    AmountConversionFailed,
}

/// Matches a concrete fungible asset descriptor into a chain-local
/// (flat identifier, balance) pair, via the configured location codec and the
/// checked amount narrowing. Pure and atomic: it fails fast with exactly one
/// coarse error and returns a pair only when both conversions succeed.
pub struct ConvertedConcreteAssetId {
    codec: AsPrefixedGeneralIndex,
}

impl ConvertedConcreteAssetId {
    pub closed spec fn spec_prefix(&self) -> Seq<Segment> {
        self.codec.spec_prefix()
    }

    pub fn new(codec: AsPrefixedGeneralIndex) -> (r: Self)
        ensures
            r.spec_prefix() == codec.spec_prefix(),
    {
        ConvertedConcreteAssetId { codec }
    }

    pub fn matches_fungibles<N: NumericRelay, B: NumericRelay>(&self, a: &AssetDescriptor) -> (r:
        Result<(FlatAssetId<N>, B), MatchError>)
        ensures
            (match *a {
                AssetDescriptor::AllAssets => r matches Err(e) && e
                    == MatchError::AssetKindUnsupported,
                AssetDescriptor::ConcreteFungible { id, amount } => match spec_forward_narrowed(
                    self.spec_prefix(),
                    id@,
                    N::spec_max(),
                ) {
                    Err(_) => r matches Err(e) && e == MatchError::IdentifierConversionFailed,
                    Ok(v) => if amount > B::spec_max() {
                        r matches Err(e) && e == MatchError::AmountConversionFailed
                    } else {
                        r matches Ok(p) && p.0.spec_value().spec_widen() == v && p.1.spec_widen()
                            == amount
                    },
                },
            }),
    {
        let (id, amount) = match a {
            AssetDescriptor::ConcreteFungible { id, amount } => (id, *amount),
            _ => {
                return Err(MatchError::AssetKindUnsupported);
            },
        };
        let what = match self.codec.convert_ref::<N>(id) {
            Ok(flat) => flat,
            Err(_) => {
                return Err(MatchError::IdentifierConversionFailed);
            },
        };
        let amount = match SimpleBalanceConverter::convert_ref::<B>(amount) {
            Ok(b) => b,
            Err(_) => {
                return Err(MatchError::AmountConversionFailed);
            },
        };
        Ok((what, amount))
    }
}

} // verus!
