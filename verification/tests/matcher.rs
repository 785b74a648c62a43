use xtransfer::{
    AsPrefixedGeneralIndex, AssetDescriptor, ConvertedConcreteAssetId, Location, MatchError,
    ReserveTrustPolicy, Segment, TrustedReserve,
};

fn matcher_with_pallet_prefix() -> ConvertedConcreteAssetId {
    let prefix = Location::new(vec![Segment::PalletInstanceRef(50)]);
    ConvertedConcreteAssetId::new(AsPrefixedGeneralIndex::new(prefix))
}

#[test]
fn match_fungibles_should_work() {
    let matcher = matcher_with_pallet_prefix();
    let sender_chain = Location::new(vec![
        Segment::AncestorEscape,
        Segment::SiblingChainRef(2010),
        Segment::PalletInstanceRef(50),
        Segment::GeneralIndex(2010),
    ]);
    let asset = AssetDescriptor::ConcreteFungible {
        id: sender_chain,
        amount: 200,
    };
    let maybe_asset_id = matcher.matches_fungibles::<u32, u128>(&asset).unwrap();
    println!("maybe asset id is {:?}", maybe_asset_id);
    // bit_length(2010) == 11, so the packed id is (2010 << 11) + 2010.
    assert_eq!(maybe_asset_id.0.value(), 4118490);
    assert_eq!(maybe_asset_id.1, 200);
}

#[test]
fn match_rejects_non_fungible_kind() {
    let matcher = matcher_with_pallet_prefix();
    assert_eq!(
        matcher.matches_fungibles::<u32, u128>(&AssetDescriptor::AllAssets),
        Err(MatchError::AssetKindUnsupported)
    );
}

#[test]
fn match_is_atomic_on_identifier_failure() {
    let matcher = matcher_with_pallet_prefix();
    let bad_location = AssetDescriptor::ConcreteFungible {
        id: Location::new(vec![
            Segment::PalletInstanceRef(49),
            Segment::GeneralIndex(7),
        ]),
        amount: 200,
    };
    assert_eq!(
        matcher.matches_fungibles::<u32, u128>(&bad_location),
        Err(MatchError::IdentifierConversionFailed)
    );
}

#[test]
fn match_is_atomic_on_amount_failure() {
    let matcher = matcher_with_pallet_prefix();
    let too_much = AssetDescriptor::ConcreteFungible {
        id: Location::new(vec![
            Segment::PalletInstanceRef(50),
            Segment::GeneralIndex(7),
        ]),
        amount: u32::MAX as u128 + 1,
    };
    assert_eq!(
        matcher.matches_fungibles::<u32, u32>(&too_much),
        Err(MatchError::AmountConversionFailed)
    );
}

#[test]
fn trusted_reserve_accepts_everything() {
    let policy = TrustedReserve;
    let origin = Location::new(vec![
        Segment::AncestorEscape,
        Segment::SiblingChainRef(2010),
    ]);
    let asset = AssetDescriptor::ConcreteFungible {
        id: Location::new(vec![Segment::GeneralIndex(1)]),
        amount: 1,
    };
    assert!(policy.filter_asset_location(&asset, &origin));
    assert!(policy.filter_asset_location(&AssetDescriptor::AllAssets, &origin));
}
