use vstd::prelude::*;
use crate::call::{encode_order_call, order_call_bytes};
use crate::fee::{fee_per_second_spec, native_fee_spec};
use crate::instruction::{message_view, Instruction, InstructionView, OriginKind, WeightLimit};
use crate::location::{reanchor_asset, reanchored_id, Asset, AssetView, Location, LocationView};
use crate::primitives::{
    UNIT_XCM_WEIGHT, XSTORAGE_CALL_INDEX, XSTORAGE_CALL_WEIGHT, XSTORAGE_PALLET_INDEX,
};

verus! {

/// Identifier of an account on the local chain.
pub type AccountId = u64;

/// Number of instructions in an order message; each costs one unit of overhead.
pub const MESSAGE_INSTRUCTIONS: u64 = 3;

/// The fixed parameters of the order pipeline.
pub struct Config {
    /// Location of the local chain's native token: fees in it are burnt locally.
    pub self_native_token: Location,
    /// Location of the storage chain's native token: fees in it are moved to
    /// the destination's reserve.
    pub crust_native_token: Location,
    /// Price of one second of remote execution in the storage chain's token.
    pub fee_per_second: u128,
    /// Where the storage order is sent.
    pub destination: Location,
}

/// Why an order was refused.
#[derive(Clone, Copy, Debug, PartialEq, Eq, Structural)]
pub enum Error {
    NotCrossChainTransferableCurrency,
    NotSupportedCurrency,
    UnableToTransferStorageFee,
    WeightOverflow,
    ErrorSending,
    CannotReanchor,
}

/// What a completed order announces.
#[derive(Clone, Debug, PartialEq, Eq)]
pub enum Event {
    FileSuccess { account: AccountId, cid: Vec<u8>, size: u64 },
}

/// How the fee of an order is taken.
#[derive(Clone, Copy, Debug, PartialEq, Eq, Structural)]
pub enum FeeModel {
    /// Burnt from the caller at a flat price per weight unit; the destination
    /// withdraws it from the local chain's sovereign account.
    LocalBurn,
    /// Moved from the caller to the destination's account at the configured
    /// price per second; the destination sees it deposited in reserve.
    ForeignTransfer,
}

/// An accepted order whose fee is still to be charged and whose message is
/// still to be sent.
pub struct PendingOrder {
    pub model: FeeModel,
    /// The fee, identified from the local chain's point of view.
    pub fee: Asset,
    /// Weight bought at the destination.
    pub weight: u64,
    /// Encoded remote call that places the storage order.
    pub call: Vec<u8>,
    pub account: AccountId,
    pub cid: Vec<u8>,
    pub size: u64,
}

/// Namespace of the fee calculator and the order pipeline.
pub struct Pallet {}

/// The optional location, seen through its view.
pub open spec fn location_of(l: Option<Location>) -> Option<LocationView> {
    match l {
        Some(x) => Some(x@),
        None => None,
    }
}

/// The fee model chosen for a payment currency that resolved to `fee_type`,
/// or why the currency is refused.
pub open spec fn fee_model_for(config: &Config, fee_type: Option<LocationView>) -> Result<
    FeeModel,
    Error,
> {
    match fee_type {
        None => Err(Error::NotCrossChainTransferableCurrency),
        Some(l) => if l == config.self_native_token@ {
            Ok(FeeModel::LocalBurn)
        } else if l == config.crust_native_token@ {
            Ok(FeeModel::ForeignTransfer)
        } else {
            Err(Error::NotSupportedCurrency)
        },
    }
}

/// Weight bought for a message of `n` instructions ending in the storage call.
pub open spec fn weight_for(n: nat) -> int {
    XSTORAGE_CALL_WEIGHT + n * UNIT_XCM_WEIGHT
}

/// The fee, in its currency's units, that `model` asks for `weight`.
pub open spec fn fee_amount_for(config: &Config, model: FeeModel, weight: u64) -> int {
    match model {
        FeeModel::LocalBurn => native_fee_spec(weight),
        FeeModel::ForeignTransfer => fee_per_second_spec(weight, config.fee_per_second),
    }
}

/// The instruction that brings `fees` into the destination's holding under `model`.
pub open spec fn funding_instruction(model: FeeModel, fees: AssetView) -> InstructionView {
    match model {
        FeeModel::LocalBurn => InstructionView::WithdrawAsset(fees),
        FeeModel::ForeignTransfer => InstructionView::ReserveAssetDeposited(fees),
    }
}

/// The message that pays `fees` (already seen from the destination) under
/// `model`, buys `weight`, and dispatches `call`.
pub open spec fn order_message_for(
    model: FeeModel,
    fees: AssetView,
    weight: u64,
    call: Seq<u8>,
) -> Seq<InstructionView> {
    seq![
        funding_instruction(model, fees),
        InstructionView::BuyExecution { fees, weight_limit: WeightLimit::Limited(weight) },
        InstructionView::Transact {
            origin_type: OriginKind::SovereignAccount,
            require_weight_at_most: XSTORAGE_CALL_WEIGHT,
            call,
        },
    ]
}


/// `r` is what placing an order of `who` for `cid` of `size` bytes gives when
/// the payment currency resolved to `fee_type`: the refusal, or an order
/// whose fee is priced by the chosen model for the weight it buys.
pub open spec fn order_outcome(
    config: &Config,
    fee_type: Option<LocationView>,
    who: AccountId,
    cid: Seq<u8>,
    size: u64,
    r: Result<PendingOrder, Error>,
) -> bool {
    match fee_model_for(config, fee_type) {
        Err(e) => r == Err::<PendingOrder, Error>(e),
        Ok(model) => r is Ok && {
            let o = r->Ok_0;
            &&& o.model == model
            &&& o.weight == weight_for(MESSAGE_INSTRUCTIONS as nat)
            &&& o.fee@ == (AssetView {
                id: fee_type->Some_0,
                amount: fee_amount_for(config, model, o.weight) as u128,
            })
            &&& o.call@ == order_call_bytes(XSTORAGE_PALLET_INDEX, XSTORAGE_CALL_INDEX, cid, size)
            &&& o.account == who
            &&& o.cid@ == cid
            &&& o.size == size
        },
    }
}

/// `e` announces that `account` placed an order for `cid` of `size` bytes.
pub open spec fn is_file_success(e: Event, account: AccountId, cid: Seq<u8>, size: u64) -> bool {
    match e {
        Event::FileSuccess { account: a, cid: c, size: s } => a == account && c@ == cid && s
            == size,
    }
}

impl Pallet {
    /// Weight bought at the destination for one order: the call's own weight
    /// and one unit for each instruction of the message.
    pub fn total_weight() -> (r: u64)
        ensures
            r == weight_for(MESSAGE_INSTRUCTIONS as nat),
    {
        XSTORAGE_CALL_WEIGHT + UNIT_XCM_WEIGHT * MESSAGE_INSTRUCTIONS
    }

    /// The remote call that places an order for `cid` of `size` bytes.
    pub fn order_call(cid: &Vec<u8>, size: u64) -> (r: Vec<u8>)
        requires
            cid@.len() <= u32::MAX,
        ensures
            r@ == order_call_bytes(XSTORAGE_PALLET_INDEX, XSTORAGE_CALL_INDEX, cid@, size),
    {
        encode_order_call(XSTORAGE_PALLET_INDEX, XSTORAGE_CALL_INDEX, cid, size)
    }

    /// Chooses how the fee is taken for a currency that resolved to `fee_type`.
    pub fn select_fee_model(config: &Config, fee_type: &Option<Location>) -> (r: Result<
        FeeModel,
        Error,
    >)
        ensures
            r == fee_model_for(config, location_of(*fee_type)),
    {
        match fee_type {
            None => Err(Error::NotCrossChainTransferableCurrency),
            Some(l) => {
                if l.same_as(&config.self_native_token) {
                    Ok(FeeModel::LocalBurn)
                } else if l.same_as(&config.crust_native_token) {
                    Ok(FeeModel::ForeignTransfer)
                } else {
                    Err(Error::NotSupportedCurrency)
                }
            },
        }
    }

    /// Withdraws the fee, seen from the destination, from the sender's
    /// sovereign account there; fails where it could not be re-expressed.
    pub fn sovereign_withdraw(reanchored: Option<Asset>) -> (r: Result<Instruction, Error>)
        ensures
            match reanchored {
                None => r == Err::<Instruction, Error>(Error::CannotReanchor),
                Some(a) => r is Ok && r->Ok_0@ == InstructionView::WithdrawAsset(a@),
            },
    {
        match reanchored {
            None => Err(Error::CannotReanchor),
            Some(a) => Ok(Instruction::WithdrawAsset(a)),
        }
    }

    /// Deposits the fee, seen from the destination, as held in reserve for
    /// the sender; fails where it could not be re-expressed.
    pub fn sovereign_mint(reanchored: Option<Asset>) -> (r: Result<Instruction, Error>)
        ensures
            match reanchored {
                None => r == Err::<Instruction, Error>(Error::CannotReanchor),
                Some(a) => r is Ok && r->Ok_0@ == InstructionView::ReserveAssetDeposited(a@),
            },
    {
        match reanchored {
            None => Err(Error::CannotReanchor),
            Some(a) => Ok(Instruction::ReserveAssetDeposited(a)),
        }
    }

    /// Buys at most `weight` of execution with the fee, seen from the
    /// destination; fails where it could not be re-expressed.
    pub fn buy_execution(reanchored: Option<Asset>, weight: u64) -> (r: Result<
        Instruction,
        Error,
    >)
        ensures
            match reanchored {
                None => r == Err::<Instruction, Error>(Error::CannotReanchor),
                Some(a) => r is Ok && r->Ok_0@ == (InstructionView::BuyExecution {
                    fees: a@,
                    weight_limit: WeightLimit::Limited(weight),
                }),
            },
    {
        match reanchored {
            None => Err(Error::CannotReanchor),
            Some(a) => Ok(Instruction::BuyExecution { fees: a, weight_limit: WeightLimit::Limited(weight) }),
        }
    }

    /// Dispatches `call` as the sender's sovereign account, allowing it at
    /// most `dispatch_weight`.
    pub fn order_message(call: Vec<u8>, dispatch_weight: u64) -> (r: Instruction)
        ensures
            r@ == (InstructionView::Transact {
                origin_type: OriginKind::SovereignAccount,
                require_weight_at_most: dispatch_weight,
                call: call@,
            }),
    {
        Instruction::Transact {
            origin_type: OriginKind::SovereignAccount,
            require_weight_at_most: dispatch_weight,
            call,
        }
    }

    /// Accepts or refuses an order of `who` for `cid` of `size` bytes, paid
    /// in the currency that resolved to `fee_type` (`None`: the currency has no
    /// location). An accepted order still has to be charged and sent.
    pub fn place_storage_order(
        config: &Config,
        who: AccountId,
        fee_type: Option<Location>,
        cid: Vec<u8>,
        size: u64,
    ) -> (r: Result<PendingOrder, Error>)
        requires
            cid@.len() <= u32::MAX,
        ensures
            order_outcome(config, location_of(fee_type), who, cid@, size, r),
    {
        let model = match Self::select_fee_model(config, &fee_type) {
            Ok(m) => m,
            Err(e) => return Err(e),
        };
        let fee_location = match fee_type {
            Some(l) => l,
            None => return Err(Error::NotCrossChainTransferableCurrency),
        };
        let weight = Self::total_weight();
        let amount = match model {
            FeeModel::LocalBurn => Self::calculate_fee_in_crust_native_token(weight),
            FeeModel::ForeignTransfer => Self::calculate_fee_per_second(weight, config.fee_per_second),
        };
        let call = Self::order_call(&cid, size);
        Ok(PendingOrder {
            model,
            fee: Asset::new(fee_location, amount),
            weight,
            call,
            account: who,
            cid,
            size,
        })
    }

    /// The verdict on charging the fee of an accepted order.
    pub fn charge_result(charged: bool) -> (r: Result<(), Error>)
        ensures
            r == (if charged {
                Ok::<(), Error>(())
            } else {
                Err(Error::UnableToTransferStorageFee)
            }),
    {
        if charged {
            Ok(())
        } else {
            Err(Error::UnableToTransferStorageFee)
        }
    }
}

impl PendingOrder {
    /// The message sent to `destination`, with the fee re-expressed from
    /// there given the local chain's `ancestry`.
    pub fn message(&self, destination: &Location, ancestry: &Location) -> (r: Result<
        Vec<Instruction>,
        Error,
    >)
        ensures
            match reanchored_id(self.fee.id@, destination@, ancestry@) {
                None => r == Err::<Vec<Instruction>, Error>(Error::CannotReanchor),
                Some(id) => r is Ok && message_view(r->Ok_0@) == order_message_for(
                    self.model,
                    AssetView { id, amount: self.fee.amount },
                    self.weight,
                    self.call@,
                ),
            },
    {
        let reanchored = reanchor_asset(&self.fee, destination, ancestry);
        self.message_with_fees(reanchored)
    }

    /// The message sent to the destination, given the fee as the destination
    /// sees it (`None`: it could not be re-expressed there).
    pub fn message_with_fees(&self, reanchored: Option<Asset>) -> (r: Result<Vec<Instruction>, Error>)
        ensures
            match reanchored {
                None => r == Err::<Vec<Instruction>, Error>(Error::CannotReanchor),
                Some(a) => r is Ok && message_view(r->Ok_0@) == order_message_for(
                    self.model,
                    a@,
                    self.weight,
                    self.call@,
                ),
            },
    {
        let fees = match reanchored {
            Some(a) => a,
            None => return Err(Error::CannotReanchor),
        };
        let funding = match self.model {
            FeeModel::LocalBurn => Pallet::sovereign_withdraw(Some(fees.duplicate())),
            FeeModel::ForeignTransfer => Pallet::sovereign_mint(Some(fees.duplicate())),
        };
        let first = match funding {
            Ok(i) => i,
            Err(e) => return Err(e),
        };
        let second = match Pallet::buy_execution(Some(fees), self.weight) {
            Ok(i) => i,
            Err(e) => return Err(e),
        };
        let call = self.call.clone();
        assert(call@ =~= self.call@);
        let third = Pallet::order_message(call, XSTORAGE_CALL_WEIGHT);
        let mut m: Vec<Instruction> = Vec::new();
        m.push(first);
        m.push(second);
        m.push(third);
        assert(message_view(m@) =~= order_message_for(self.model, fees@, self.weight, self.call@));
        Ok(m)
    }

    /// Completes the order once the transport took (`sent`) or refused the message.
    pub fn finish(self, sent: bool) -> (r: Result<Event, Error>)
        ensures
            sent ==> r is Ok && is_file_success(r->Ok_0, self.account, self.cid@, self.size),
            !sent ==> r == Err::<Event, Error>(Error::ErrorSending),
    {
        if sent {
            Ok(Event::FileSuccess { account: self.account, cid: self.cid, size: self.size })
        } else {
            Err(Error::ErrorSending)
        }
    }
}

} // verus!
