use vstd::prelude::*;

use crate::location::Location;
use crate::matcher::AssetDescriptor;

verus! {

/// A pluggable predicate deciding whether an origin location is trusted to
/// act as the reserve for a given asset. Stricter policies can be substituted
/// without touching the message builder.
pub trait ReserveTrustPolicy {
    fn filter_asset_location(&self, asset: &AssetDescriptor, origin: &Location) -> bool;
}

/// The permissive default reserve policy: every origin is accepted as a
/// reserve for every asset. A deliberate placeholder for a future allow-list.
pub struct TrustedReserve;

impl ReserveTrustPolicy for TrustedReserve {
    fn filter_asset_location(&self, asset: &AssetDescriptor, origin: &Location) -> (r: bool)
        ensures
            r,
    {
        true
    }
}

} // verus!
