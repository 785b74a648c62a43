use xtransfer::{
    bit_length, pack_sibling_index, AsPrefixedGeneralIndex, CodecError, ConversionError, Location,
    Segment, SimpleAssetIdConverter, SimpleBalanceConverter,
};

fn pallet_prefix() -> Location {
    Location::new(vec![Segment::PalletInstanceRef(50)])
}

#[test]
fn bit_length_values() {
    assert_eq!(bit_length(0), 0);
    assert_eq!(bit_length(1), 1);
    assert_eq!(bit_length(2), 2);
    assert_eq!(bit_length(19), 5);
    assert_eq!(bit_length(2010), 11);
    assert_eq!(bit_length(u128::MAX), 128);
}

#[test]
fn packing_worked_example() {
    // bit_length(19) == 5, so the packed value is (7 << 5) + 19 == 243.
    assert_eq!(pack_sibling_index(7, 19), 243);
    assert_eq!(pack_sibling_index(2010, 2010), (2010u128 << 11) + 2010);
}

#[test]
fn packing_zero_chain_is_raw() {
    assert_eq!(pack_sibling_index(0, 0), 0);
    assert_eq!(pack_sibling_index(0, u128::MAX), u128::MAX);
    assert_eq!(pack_sibling_index(7, 0), 7);
}

#[test]
fn packing_saturates_on_overflow() {
    // raw needs all 128 bits, so any non-zero chain id overflows the shift
    // and the result saturates instead of wrapping.
    assert_eq!(pack_sibling_index(1, u128::MAX), u128::MAX);
    assert_eq!(pack_sibling_index(u32::MAX, u128::MAX), u128::MAX);
    // chain * 2^127 overflows for chain > 1.
    assert_eq!(pack_sibling_index(2, 1u128 << 126), u128::MAX);
}

#[test]
fn forward_interior_ok() {
    let codec = AsPrefixedGeneralIndex::new(pallet_prefix());
    let loc = Location::new(vec![
        Segment::PalletInstanceRef(50),
        Segment::GeneralIndex(7),
    ]);
    let flat = codec.convert_ref::<u32>(&loc).unwrap();
    assert_eq!(flat.value(), 7);
}

#[test]
fn forward_interior_prefix_mismatch() {
    let codec = AsPrefixedGeneralIndex::new(pallet_prefix());
    let wrong = Location::new(vec![
        Segment::PalletInstanceRef(49),
        Segment::GeneralIndex(7),
    ]);
    assert_eq!(
        codec.convert_ref::<u32>(&wrong),
        Err(CodecError::PrefixMismatch)
    );
    // A location that ends before the prefix does is also a mismatch.
    let short = Location::new(vec![]);
    assert_eq!(
        codec.convert_ref::<u32>(&short),
        Err(CodecError::PrefixMismatch)
    );
}

#[test]
fn forward_interior_unexpected_segment() {
    let codec = AsPrefixedGeneralIndex::new(pallet_prefix());
    // The segment after the prefix is not a general index.
    let not_index = Location::new(vec![
        Segment::PalletInstanceRef(50),
        Segment::PalletInstanceRef(3),
    ]);
    assert_eq!(
        codec.convert_ref::<u32>(&not_index),
        Err(CodecError::UnexpectedSegment)
    );
    // The location is exactly the prefix, with no segment after it.
    let bare = Location::new(vec![Segment::PalletInstanceRef(50)]);
    assert_eq!(
        codec.convert_ref::<u32>(&bare),
        Err(CodecError::UnexpectedSegment)
    );
}

#[test]
fn forward_interior_range_exceeded() {
    let codec = AsPrefixedGeneralIndex::new(pallet_prefix());
    let too_big = Location::new(vec![
        Segment::PalletInstanceRef(50),
        Segment::GeneralIndex(u32::MAX as u128 + 1),
    ]);
    assert_eq!(
        codec.convert_ref::<u32>(&too_big),
        Err(CodecError::RangeExceeded)
    );
}

#[test]
fn forward_foreign_packs() {
    let codec = AsPrefixedGeneralIndex::new(pallet_prefix());
    let foreign = Location::new(vec![
        Segment::AncestorEscape,
        Segment::SiblingChainRef(7),
        Segment::PalletInstanceRef(50),
        Segment::GeneralIndex(19),
    ]);
    let flat = codec.convert_ref::<u32>(&foreign).unwrap();
    assert_eq!(flat.value(), 243);
}

#[test]
fn forward_foreign_wrong_shape() {
    let codec = AsPrefixedGeneralIndex::new(pallet_prefix());
    // Wrong arity: three segments only.
    let three = Location::new(vec![
        Segment::AncestorEscape,
        Segment::SiblingChainRef(7),
        Segment::GeneralIndex(19),
    ]);
    assert_eq!(
        codec.convert_ref::<u32>(&three),
        Err(CodecError::UnexpectedSegment)
    );
    // Wrong kind in the last position.
    let no_index = Location::new(vec![
        Segment::AncestorEscape,
        Segment::SiblingChainRef(7),
        Segment::PalletInstanceRef(50),
        Segment::PalletInstanceRef(3),
    ]);
    assert_eq!(
        codec.convert_ref::<u32>(&no_index),
        Err(CodecError::UnexpectedSegment)
    );
}

#[test]
fn forward_foreign_prefix_mismatch() {
    let codec = AsPrefixedGeneralIndex::new(pallet_prefix());
    let wrong_sub_path = Location::new(vec![
        Segment::AncestorEscape,
        Segment::SiblingChainRef(7),
        Segment::PalletInstanceRef(49),
        Segment::GeneralIndex(19),
    ]);
    assert_eq!(
        codec.convert_ref::<u32>(&wrong_sub_path),
        Err(CodecError::PrefixMismatch)
    );
}

#[test]
fn round_trip_interior() {
    let codec = AsPrefixedGeneralIndex::new(pallet_prefix());
    let loc = Location::new(vec![
        Segment::PalletInstanceRef(50),
        Segment::GeneralIndex(7),
    ]);
    let flat = codec.convert_ref::<u32>(&loc).unwrap();
    let back = codec.reverse_ref(flat);
    assert_eq!(back, loc);
    let flat_again = codec.convert_ref::<u32>(&back).unwrap();
    assert_eq!(flat_again.value(), 7);
}

#[test]
fn foreign_asymmetry() {
    let codec = AsPrefixedGeneralIndex::new(pallet_prefix());
    let foreign = Location::new(vec![
        Segment::AncestorEscape,
        Segment::SiblingChainRef(7),
        Segment::PalletInstanceRef(50),
        Segment::GeneralIndex(19),
    ]);
    let flat = codec.convert_ref::<u32>(&foreign).unwrap();
    let back = codec.reverse_ref(flat);
    // The foreign structure is lost by design: the reverse direction yields
    // the interior re-expression of the packed value, not the original.
    assert_ne!(back, foreign);
    let expected = Location::new(vec![
        Segment::PalletInstanceRef(50),
        Segment::GeneralIndex(243),
    ]);
    assert_eq!(back, expected);
}

#[test]
fn relay_narrowing() {
    assert_eq!(SimpleAssetIdConverter::convert_ref::<u32>(7), Ok(7u32));
    assert_eq!(
        SimpleAssetIdConverter::convert_ref::<u32>(u32::MAX as u128 + 1),
        Err(ConversionError::RangeExceeded)
    );
    assert_eq!(SimpleAssetIdConverter::reverse_ref(7u32), 7u128);
    assert_eq!(
        SimpleBalanceConverter::convert_ref::<u64>(u128::MAX),
        Err(ConversionError::RangeExceeded)
    );
    assert_eq!(SimpleBalanceConverter::convert_ref::<u128>(u128::MAX), Ok(u128::MAX));
}
