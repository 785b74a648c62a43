use vstd::prelude::*;

verus! {

/// Failure of a checked numeric narrowing: the 128-bit value does not fit in
/// the target numeric type.
#[derive(Clone, Copy, Debug, PartialEq, Eq, Structural)]
pub enum ConversionError {
    RangeExceeded,
}

/// A chain-local numeric type that raw 128-bit identifiers and amounts are
/// narrowed into and widened out of. `narrow` is a checked conversion that
/// fails exactly when the value exceeds the type's range; `widen` is total
/// and lossless.
pub trait NumericRelay: Sized + Copy {
    /// The value of `self`, read as an unsigned 128-bit number.
    spec fn spec_widen(self) -> u128;

    /// The largest 128-bit value the type can hold.
    spec fn spec_max() -> u128;

    /// Every value of the type fits under `spec_max`.
    proof fn lemma_widen_fits(self)
        ensures
            self.spec_widen() <= Self::spec_max(),
    ;

    /// Widening is lossless: distinct values widen to distinct numbers.
    proof fn lemma_widen_injective(a: Self, b: Self)
        requires
            a.spec_widen() == b.spec_widen(),
        ensures
            a == b,
    ;

    fn narrow(v: u128) -> (r: Result<Self, ConversionError>)
        ensures
            v <= Self::spec_max() ==> (r matches Ok(n) && n.spec_widen() == v),
            v > Self::spec_max() ==> (r matches Err(e) && e == ConversionError::RangeExceeded),
    ;

    fn widen(self) -> (r: u128)
        ensures
            r == self.spec_widen(),
    ;
}

impl NumericRelay for u32 {
    open spec fn spec_widen(self) -> u128 {
        self as u128
    }

    open spec fn spec_max() -> u128 {
        u32::MAX as u128
    }

    proof fn lemma_widen_fits(self) {
    }

    proof fn lemma_widen_injective(a: Self, b: Self) {
    }

    fn narrow(v: u128) -> (r: Result<Self, ConversionError>) {
        if v <= u32::MAX as u128 {
            Ok(v as u32)
        } else {
            Err(ConversionError::RangeExceeded)
        }
    }

    fn widen(self) -> (r: u128) {
        self as u128
    }
}

impl NumericRelay for u64 {
    open spec fn spec_widen(self) -> u128 {
        self as u128
    }

    open spec fn spec_max() -> u128 {
        u64::MAX as u128
    }

    proof fn lemma_widen_fits(self) {
    }

    proof fn lemma_widen_injective(a: Self, b: Self) {
    }

    fn narrow(v: u128) -> (r: Result<Self, ConversionError>) {
        if v <= u64::MAX as u128 {
            Ok(v as u64)
        } else {
            Err(ConversionError::RangeExceeded)
        }
    }

    fn widen(self) -> (r: u128) {
        self as u128
    }
}

impl NumericRelay for u128 {
    open spec fn spec_widen(self) -> u128 {
        self
    }

    open spec fn spec_max() -> u128 {
        u128::MAX
    }

    proof fn lemma_widen_fits(self) {
    }

    proof fn lemma_widen_injective(a: Self, b: Self) {
    }

    fn narrow(v: u128) -> (r: Result<Self, ConversionError>) {
        Ok(v)
    }

    fn widen(self) -> (r: u128) {
        self
    }
}

/// Checked narrowing of a raw identifier into the chain-local identifier
/// type, and its lossless inverse.
pub struct SimpleAssetIdConverter;

impl SimpleAssetIdConverter {
    pub fn convert_ref<N: NumericRelay>(id: u128) -> (r: Result<N, ConversionError>)
        ensures
            id <= N::spec_max() ==> (r matches Ok(n) && n.spec_widen() == id),
            id > N::spec_max() ==> (r matches Err(e) && e == ConversionError::RangeExceeded),
    {
        N::narrow(id)
    }

    pub fn reverse_ref<N: NumericRelay>(what: N) -> (r: u128)
        ensures
            r == what.spec_widen(),
    {
        what.widen()
    }
}

/// Checked narrowing of a raw 128-bit amount into the chain-local balance
/// type.
pub struct SimpleBalanceConverter;

impl SimpleBalanceConverter {
    pub fn convert_ref<B: NumericRelay>(amount: u128) -> (r: Result<B, ConversionError>)
        ensures
            amount <= B::spec_max() ==> (r matches Ok(b) && b.spec_widen() == amount),
            amount > B::spec_max() ==> (r matches Err(e) && e == ConversionError::RangeExceeded),
    {
        B::narrow(amount)
    }
}

} // verus!
