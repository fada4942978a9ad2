use vstd::prelude::*;
use crate::location::{Asset, AssetView};

verus! {

/// Ceiling on the weight that a message may use at its destination.
#[derive(Clone, Copy, Debug, PartialEq, Eq, Structural)]
pub enum WeightLimit {
    Unlimited,
    Limited(u64),
}

/// The origin under which a remote call is dispatched.
#[derive(Clone, Copy, Debug, PartialEq, Eq, Structural)]
pub enum OriginKind {
    Native,
    SovereignAccount,
    Superuser,
    Xcm,
}

/// One cross-chain instruction.
#[derive(Clone, Debug, PartialEq, Eq)]
pub enum Instruction {
    /// Take the asset from the sender's sovereign account into the holding register.
    WithdrawAsset(Asset),
    /// Credit the holding register with an asset held in reserve for the sender.
    ReserveAssetDeposited(Asset),
    /// Pay for execution out of the holding register.
    BuyExecution { fees: Asset, weight_limit: WeightLimit },
    /// Dispatch an encoded call.
    Transact { origin_type: OriginKind, require_weight_at_most: u64, call: Vec<u8> },
}

/// What an `Instruction` denotes.
pub enum InstructionView {
    WithdrawAsset(AssetView),
    ReserveAssetDeposited(AssetView),
    BuyExecution { fees: AssetView, weight_limit: WeightLimit },
    Transact { origin_type: OriginKind, require_weight_at_most: u64, call: Seq<u8> },
}

impl View for Instruction {
    type V = InstructionView;

    open spec fn view(&self) -> InstructionView {
        match self {
            Instruction::WithdrawAsset(a) => InstructionView::WithdrawAsset(a@),
            Instruction::ReserveAssetDeposited(a) => InstructionView::ReserveAssetDeposited(a@),
            Instruction::BuyExecution { fees, weight_limit } => InstructionView::BuyExecution {
                fees: fees@,
                weight_limit: *weight_limit,
            },
            Instruction::Transact { origin_type, require_weight_at_most, call } =>
                InstructionView::Transact {
                    origin_type: *origin_type,
                    require_weight_at_most: *require_weight_at_most,
                    call: call@,
                },
        }
    }
}

/// What a sequence of instructions denotes, instruction by instruction.
pub open spec fn message_view(m: Seq<Instruction>) -> Seq<InstructionView> {
    m.map_values(|i: Instruction| i@)
}

} // verus!
