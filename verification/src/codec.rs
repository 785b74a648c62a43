use vstd::prelude::*;

use vstd::arithmetic::power2::{lemma2_to64, lemma_pow2_adds, lemma_pow2_unfold, pow2};

use crate::location::{spec_is_interior, spec_prefix_matches, Location, Segment};
use crate::relay::{ConversionError, NumericRelay, SimpleAssetIdConverter};

verus! {

/// Failure of the location/identifier codec.
#[derive(Clone, Copy, Debug, PartialEq, Eq, Structural)]
pub enum CodecError {
    /// Some segment within the configured prefix's length did not match it.
    PrefixMismatch,
    /// The location had the wrong arity or a segment of the wrong kind.
    UnexpectedSegment,
    /// The resulting raw value did not fit in the target identifier type.
    RangeExceeded,
}

/// An opaque chain-local flat asset identifier over the target numeric type.
/// Values are produced by the codec, never assembled directly by callers.
#[derive(Clone, Copy, Debug, PartialEq, Eq)]
pub struct FlatAssetId<N> {
    value: N,
}

impl<N: NumericRelay> FlatAssetId<N> {
    pub closed spec fn spec_value(self) -> N {
        self.value
    }

    pub fn value(self) -> (r: N)
        ensures
            r == self.spec_value(),
    {
        self.value
    }
}

/// The number of bits needed to represent `v`: zero for zero, otherwise one
/// more than for `v / 2`.
pub open spec fn spec_bit_length(v: u128) -> nat
    decreases v,
{
    if v == 0 {
        0
    } else {
        (1 + spec_bit_length(v / 2)) as nat
    }
}

/// The variable-width packing of a sibling-chain id and a general index into
/// one raw value: the chain id shifted left by the index's bit length, plus
/// the index, saturating at the largest 128-bit value on overflow.
pub open spec fn spec_packed(chain: u128, raw: u128) -> u128 {
    let full = (chain as int) * (pow2(spec_bit_length(raw)) as int) + raw;
    if full > u128::MAX {
        u128::MAX
    } else {
        full as u128
    }
}

/// The raw value the codec derives from a location, before narrowing.
///
/// An interior location must carry the whole configured prefix, segment by
/// segment, and then a general index, which is the result. A foreign location
/// must have exactly the four-segment shape ancestor escape, sibling-chain
/// reference, one segment equal to the whole prefix, general index; its
/// result is the packed chain-id/index value.
pub open spec fn spec_forward(prefix: Seq<Segment>, loc: Seq<Segment>) -> Result<u128, CodecError> {
    if spec_is_interior(loc) {
        if !spec_prefix_matches(prefix, loc) {
            Err(CodecError::PrefixMismatch)
        } else if prefix.len() >= loc.len() {
            Err(CodecError::UnexpectedSegment)
        } else {
            match loc[prefix.len() as int] {
                Segment::GeneralIndex(raw) => Ok(raw),
                _ => Err(CodecError::UnexpectedSegment),
            }
        }
    } else {
        if loc.len() != 4 {
            Err(CodecError::UnexpectedSegment)
        } else {
            match (loc[1], loc[3]) {
                (Segment::SiblingChainRef(chain), Segment::GeneralIndex(raw)) => {
                    if prefix.len() == 1 && prefix[0] == loc[2] {
                        Ok(spec_packed(chain as u128, raw))
                    } else {
                        Err(CodecError::PrefixMismatch)
                    }
                },
                _ => Err(CodecError::UnexpectedSegment),
            }
        }
    }
}

/// `spec_forward` followed by the checked narrowing into a type whose largest
/// value is `max`.
pub open spec fn spec_forward_narrowed(
    prefix: Seq<Segment>,
    loc: Seq<Segment>,
    max: u128,
) -> Result<u128, CodecError> {
    match spec_forward(prefix, loc) {
        Ok(v) => if v <= max {
            Ok(v)
        } else {
            Err(CodecError::RangeExceeded)
        },
        Err(e) => Err(e),
    }
}

/// The reverse direction always re-expresses an identifier in the interior
/// shape: the configured prefix followed by a general index.
pub open spec fn spec_reverse(prefix: Seq<Segment>, raw: u128) -> Seq<Segment> {
    prefix.push(Segment::GeneralIndex(raw))
}

proof fn lemma_bit_length_le(v: u128, k: nat)
    requires
        (v as int) < pow2(k),
    ensures
        spec_bit_length(v) <= k,
    decreases v,
{
    if v > 0 {
        if k == 0 {
            lemma2_to64();
        } else {
            lemma_pow2_unfold(k);
            lemma_bit_length_le(v / 2, (k - 1) as nat);
        }
    }
}

proof fn lemma_bit_length_le_128(v: u128)
    ensures
        spec_bit_length(v) <= 128,
{
    lemma2_to64();
    lemma_pow2_adds(64, 64);
    assert(pow2(128) == 0x10000000000000000 * 0x10000000000000000);
    lemma_bit_length_le(v, 128);
}

/// The number of bits needed to represent `v`.
#[verifier::loop_isolation(false)]
pub fn bit_length(v: u128) -> (r: u32)
    ensures
        r as nat == spec_bit_length(v),
{
    proof {
        lemma_bit_length_le_128(v);
    }
    let mut x: u128 = v;
    let mut n: u32 = 0;
    while x > 0
        invariant
            spec_bit_length(v) == n as nat + spec_bit_length(x),
            n as nat + spec_bit_length(x) <= 128,
        decreases x,
    {
        x = x / 2;
        n = n + 1;
    }
    n
}

/// The packed raw value for a foreign identifier: `chain` shifted left by
/// `raw`'s bit length, plus `raw`, saturating on overflow.
#[verifier::loop_isolation(false)]
pub fn pack_sibling_index(chain: u32, raw: u128) -> (p: u128)
    ensures
        p == spec_packed(chain as u128, raw),
{
    let bits = bit_length(raw);
    let c: u128 = chain as u128;
    let mut acc: u128 = c;
    let mut i: u32 = 0;
    proof {
        lemma2_to64();
        assert((c as int) * (pow2(0) as int) == c as int);
    }
    while i < bits
        invariant
            i <= bits,
            bits as nat == spec_bit_length(raw),
            c == chain as u128,
            (c as int) * (pow2(i as nat) as int) > u128::MAX ==> acc == u128::MAX,
            (c as int) * (pow2(i as nat) as int) <= u128::MAX ==> acc as int == (c as int) * (
            pow2(i as nat) as int),
        decreases bits - i,
    {
        proof {
            lemma_pow2_unfold((i + 1) as nat);
            assert((c as int) * (2 * (pow2(i as nat) as int)) == 2 * ((c as int) * (pow2(
                i as nat,
            ) as int))) by (nonlinear_arith);
        }
        if acc > u128::MAX / 2 {
            acc = u128::MAX;
        } else {
            acc = acc * 2;
        }
        i = i + 1;
    }
    if acc > u128::MAX - raw {
        u128::MAX
    } else {
        acc + raw
    }
}

/// The bidirectional converter between hierarchical locations and flat asset
/// identifiers, configured with the prefix under which this chain exposes its
/// general-indexed assets.
pub struct AsPrefixedGeneralIndex {
    prefix: Location,
}

impl AsPrefixedGeneralIndex {
    pub closed spec fn spec_prefix(&self) -> Seq<Segment> {
        self.prefix@
    }

    pub fn new(prefix: Location) -> (r: Self)
        ensures
            r.spec_prefix() == prefix@,
    {
        AsPrefixedGeneralIndex { prefix }
    }

    /// Forward conversion of a location into a flat identifier, deciding the
    /// interior or foreign shape by the leading segment.
    #[verifier::loop_isolation(false)]
    pub fn convert_ref<N: NumericRelay>(&self, id: &Location) -> (r: Result<
        FlatAssetId<N>,
        CodecError,
    >)
        ensures
            ({
                let s = spec_forward_narrowed(self.spec_prefix(), id@, N::spec_max());
                match r {
                    Ok(flat) => s == Ok::<u128, CodecError>(flat.spec_value().spec_widen()),
                    Err(e) => s == Err::<u128, CodecError>(e),
                }
            }),
    {
        let plen = self.prefix.len();
        let ilen = id.len();
        if id.is_interior() {
            let mut i: usize = 0;
            while i < plen
                invariant
                    i <= plen,
                    i <= ilen,
                    plen == self.prefix@.len(),
                    ilen == id@.len(),
                    forall|j: int| 0 <= j < i ==> j < id@.len() && id@[j] == self.prefix@[j],
                decreases plen - i,
            {
                if i >= ilen {
                    assert(!spec_prefix_matches(self.prefix@, id@));
                    return Err(CodecError::PrefixMismatch);
                }
                if id.segment(i) != self.prefix.segment(i) {
                    proof {
                        if spec_prefix_matches(self.prefix@, id@) {
                            assert(id@.subrange(0, self.prefix@.len() as int)[i as int] == id@[
                                i as int]);
                            assert(false);
                        }
                    }
                    return Err(CodecError::PrefixMismatch);
                }
                i = i + 1;
            }
            assert(self.prefix@ =~= id@.subrange(0, plen as int));
            assert(spec_prefix_matches(self.prefix@, id@));
            if plen < ilen {
                match id.segment(plen) {
                    Segment::GeneralIndex(raw) => Self::narrow_flat::<N>(raw),
                    _ => Err(CodecError::UnexpectedSegment),
                }
            } else {
                Err(CodecError::UnexpectedSegment)
            }
        } else {
            if ilen != 4 {
                return Err(CodecError::UnexpectedSegment);
            }
            let s1 = id.segment(1);
            let s2 = id.segment(2);
            let s3 = id.segment(3);
            match (s1, s3) {
                (Segment::SiblingChainRef(chain), Segment::GeneralIndex(raw)) => {
                    if plen == 1 && self.prefix.segment(0) == s2 {
                        let packed = pack_sibling_index(chain, raw);
                        Self::narrow_flat::<N>(packed)
                    } else {
                        Err(CodecError::PrefixMismatch)
                    }
                },
                _ => Err(CodecError::UnexpectedSegment),
            }
        }
    }

    /// Reverse conversion: re-express a flat identifier as the interior
    /// location made of the configured prefix followed by the identifier's
    /// raw value as a general index. The foreign packed shape is never
    /// reconstructed.
    #[verifier::loop_isolation(false)]
    pub fn reverse_ref<N: NumericRelay>(&self, what: FlatAssetId<N>) -> (r: Location)
        ensures
            r@ == spec_reverse(self.spec_prefix(), what.spec_value().spec_widen()),
    {
        let raw = SimpleAssetIdConverter::reverse_ref(what.value());
        let plen = self.prefix.len();
        let mut segments: Vec<Segment> = Vec::new();
        assert(segments@ =~= self.prefix@.subrange(0, 0));
        let mut i: usize = 0;
        while i < plen
            invariant
                i <= plen,
                plen == self.prefix@.len(),
                segments@ == self.prefix@.subrange(0, i as int),
            decreases plen - i,
        {
            segments.push(self.prefix.segment(i));
            assert(segments@ =~= self.prefix@.subrange(0, i + 1));
            i = i + 1;
        }
        assert(segments@ =~= self.prefix@);
        segments.push(Segment::GeneralIndex(raw));
        Location::new(segments)
    }

    fn narrow_flat<N: NumericRelay>(raw: u128) -> (r: Result<FlatAssetId<N>, CodecError>)
        ensures
            raw <= N::spec_max() ==> (r matches Ok(flat) && flat.spec_value().spec_widen() == raw),
            raw > N::spec_max() ==> (r matches Err(e) && e == CodecError::RangeExceeded),
    {
        match SimpleAssetIdConverter::convert_ref::<N>(raw) {
            Ok(n) => Ok(FlatAssetId { value: n }),
            Err(ConversionError::RangeExceeded) => Err(CodecError::RangeExceeded),
        }
    }
}

/// On the interior domain the codec is a bijection: a location made of the
/// prefix followed by a general index converts forward to exactly that index,
/// and the reverse direction rebuilds exactly that location.
pub proof fn lemma_interior_round_trip(prefix: Seq<Segment>, raw: u128, max: u128)
    requires
        spec_is_interior(prefix),
        raw <= max,
    ensures
        spec_forward(prefix, prefix.push(Segment::GeneralIndex(raw))) == Ok::<u128, CodecError>(raw),
        spec_forward_narrowed(prefix, prefix.push(Segment::GeneralIndex(raw)), max) == Ok::<
            u128,
            CodecError,
        >(raw),
        spec_reverse(prefix, raw) == prefix.push(Segment::GeneralIndex(raw)),
{
    let loc = prefix.push(Segment::GeneralIndex(raw));
    assert(spec_is_interior(loc));
    assert(prefix =~= loc.subrange(0, prefix.len() as int));
    assert(spec_prefix_matches(prefix, loc));
    assert(loc[prefix.len() as int] == Segment::GeneralIndex(raw));
}

/// An interior location that differs from the prefix at any index within the
/// prefix's length (or ends before the prefix does) is rejected with a prefix
/// mismatch.
pub proof fn lemma_prefix_rejection(prefix: Seq<Segment>, loc: Seq<Segment>, i: int, max: u128)
    requires
        spec_is_interior(loc),
        0 <= i < prefix.len(),
        i >= loc.len() || loc[i] != prefix[i],
    ensures
        spec_forward(prefix, loc) == Err::<u128, CodecError>(CodecError::PrefixMismatch),
        spec_forward_narrowed(prefix, loc, max) == Err::<u128, CodecError>(
            CodecError::PrefixMismatch,
        ),
{
    if spec_prefix_matches(prefix, loc) {
        assert(loc.subrange(0, prefix.len() as int)[i] == loc[i]);
        assert(false);
    }
}

/// The foreign packed form is lost by design: when a foreign location
/// converts forward to a raw value, the reverse of that value is the interior
/// re-expression, which is never the original foreign location.
pub proof fn lemma_foreign_asymmetry(prefix: Seq<Segment>, loc: Seq<Segment>, packed: u128)
    requires
        !spec_is_interior(loc),
        spec_forward(prefix, loc) == Ok::<u128, CodecError>(packed),
    ensures
        spec_reverse(prefix, packed) == prefix.push(Segment::GeneralIndex(packed)),
        spec_reverse(prefix, packed) != loc,
{
    assert(loc.len() == 4);
    assert(prefix.len() == 1);
    assert(spec_reverse(prefix, packed).len() == 2);
}

} // verus!

