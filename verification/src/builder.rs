use vstd::prelude::*;

use crate::location::Location;
use crate::matcher::AssetDescriptor;

verus! {

/// Result classification of executing a transfer message: complete, partial
/// with some weight spent, or a total failure. Opaque to this core; it is
/// reported to the caller unchanged.
#[derive(Clone, Copy, Debug, PartialEq, Eq, Structural)]
pub enum Outcome {
    Complete(u64),
    Incomplete(u64),
    Error,
}

/// The one structured record this core emits per transfer attempt.
#[derive(Clone, Copy, Debug, PartialEq, Eq, Structural)]
pub enum Event {
    Attempted(Outcome),
}

/// The failure value reported when a transfer aborts before any execution.
#[derive(Clone, Copy, Debug, PartialEq, Eq, Structural)]
pub enum Error {
    /// The message's weight could not be determined.
    MessageUnweighable,
}

/// A caller-supplied transfer request: where the assets go, who receives
/// them, the one asset moved, and the weight the caller is willing to spend.
/// The budget is assumed to cover execution; no separate fee-purchase stage
/// is ever inserted for it.
#[derive(Clone, Debug, PartialEq, Eq)]
pub struct TransferRequest {
    pub dest: Location,
    pub beneficiary: Location,
    pub asset: AssetDescriptor,
    pub weight_budget: u64,
}

/// The three-stage effect chain built from a request and consumed exactly
/// once by execution: a withdraw stage over the supplied assets, nesting a
/// reserve-deposit stage towards `reserve_dest`, nesting a deposit stage
/// towards `deposit_dest`. Each inner stage carries its own asset filter.
#[derive(Clone, Debug, PartialEq, Eq)]
pub struct TransferMessage {
    pub withdraw_assets: Vec<AssetDescriptor>,
    pub reserve_filter: Vec<AssetDescriptor>,
    pub reserve_dest: Location,
    pub deposit_filter: Vec<AssetDescriptor>,
    pub deposit_dest: Location,
}

/// The weight-estimation collaborator: measures the weight a message would
/// consume, or fails when the message cannot be weighed.
pub trait WeightEstimator {
    fn estimate(&self, message: &TransferMessage) -> Result<u64, ()>;
}

/// The execution collaborator: runs a message from an origin location under
/// a hard weight ceiling with a given weight credit, yielding an outcome.
pub trait MessageExecutor {
    fn execute(
        &self,
        origin: &Location,
        message: TransferMessage,
        max_weight: u64,
        weight_credit: u64,
    ) -> Outcome;
}

/// Builds the three-stage transfer message for a request: withdraw exactly
/// the one supplied asset; within it, reserve-deposit towards the request's
/// destination, filtering on every asset the withdraw produced; within that,
/// deposit to the beneficiary under the same all-assets filter. No
/// fee-purchase stage is inserted.
pub fn build_message(req: TransferRequest) -> (m: TransferMessage)
    ensures
        m.withdraw_assets@ == seq![req.asset],
        m.reserve_filter@ == seq![AssetDescriptor::AllAssets],
        m.reserve_dest == req.dest,
        m.deposit_filter@ == seq![AssetDescriptor::AllAssets],
        m.deposit_dest == req.beneficiary,
{
    let mut withdraw_assets: Vec<AssetDescriptor> = Vec::new();
    withdraw_assets.push(req.asset);
    let mut reserve_filter: Vec<AssetDescriptor> = Vec::new();
    reserve_filter.push(AssetDescriptor::AllAssets);
    let mut deposit_filter: Vec<AssetDescriptor> = Vec::new();
    deposit_filter.push(AssetDescriptor::AllAssets);
    proof {
        assert(withdraw_assets@ =~= seq![req.asset]);
        assert(reserve_filter@ =~= seq![AssetDescriptor::AllAssets]);
        assert(deposit_filter@ =~= seq![AssetDescriptor::AllAssets]);
    }
    TransferMessage {
        withdraw_assets,
        reserve_filter,
        reserve_dest: req.dest,
        deposit_filter,
        deposit_dest: req.beneficiary,
    }
}

/// What the builder does with the estimator's answer, for every value of it:
/// a failure aborts the attempt as unweighable, a weight is passed on
/// unchanged.
pub fn weigh_decision(weighed: Result<u64, ()>) -> (r: Result<u64, Error>)
    ensures
        (weighed matches Ok(w) ==> r matches Ok(w2) && w2 == w),
        (weighed matches Err(_) ==> r matches Err(e) && e == Error::MessageUnweighable),
{
    match weighed {
        Ok(w) => Ok(w),
        Err(_) => Err(Error::MessageUnweighable),
    }
}

/// What the builder reports for every executor outcome: exactly one
/// `Attempted` record carrying the outcome verbatim.
pub fn report_attempt(outcome: Outcome) -> (e: Event)
    ensures
        e == Event::Attempted(outcome),
{
    Event::Attempted(outcome)
}

/// The one-shot transfer driver, holding the injected weigher and executor
/// collaborators. It has no persistent state of its own.
pub struct Pallet<W, X> {
    weigher: W,
    executor: X,
}

impl<W: WeightEstimator, X: MessageExecutor> Pallet<W, X> {
    pub fn new(weigher: W, executor: X) -> Pallet<W, X> {
        Pallet { weigher, executor }
    }

    /// Builds the transfer message for the request, weighs it, and either
    /// aborts as unweighable before any execution, or executes it with the
    /// estimated weight as both the ceiling and the credit and reports the
    /// outcome verbatim. The origin location is the already-authorized
    /// withdraw source; no further checks are made on it.
    pub fn transfer(&self, origin_location: Location, req: TransferRequest) -> (r: Result<
        Event,
        Error,
    >)
        ensures
            (r matches Ok(e) ==> e matches Event::Attempted(_)),
            (r matches Err(e) ==> e == Error::MessageUnweighable),
    {
        let message = build_message(req);
        let weighed = self.weigher.estimate(&message);
        match weigh_decision(weighed) {
            Ok(weight) => {
                let outcome = self.executor.execute(&origin_location, message, weight, weight);
                Ok(report_attempt(outcome))
            },
            Err(e) => Err(e),
        }
    }
}

} // verus!
