//! Cross-chain asset-transfer core: a bidirectional codec between
//! hierarchical asset locations and flat chain-local asset identifiers,
//! an asset matcher built on that codec, a reserve-trust policy point,
//! and a builder that assembles and drives a three-stage transfer message.

mod builder;
mod codec;
mod location;
mod matcher;
mod policy;
mod relay;

pub use builder::{
    build_message, report_attempt, weigh_decision, Error, Event, MessageExecutor, Outcome,
    Pallet, TransferMessage, TransferRequest, WeightEstimator,
};
pub use codec::{
    bit_length, lemma_foreign_asymmetry, lemma_interior_round_trip, lemma_prefix_rejection,
    pack_sibling_index, spec_bit_length, spec_forward, spec_forward_narrowed, spec_packed,
    spec_reverse, AsPrefixedGeneralIndex, CodecError, FlatAssetId,
};
pub use location::{spec_is_interior, spec_prefix_matches, Location, Segment};
pub use matcher::{AssetDescriptor, ConvertedConcreteAssetId, MatchError};
pub use policy::{ReserveTrustPolicy, TrustedReserve};
pub use relay::{ConversionError, NumericRelay, SimpleAssetIdConverter, SimpleBalanceConverter};
