use vstd::prelude::*;
use crate::fee::fee_per_second_spec;
use crate::instruction::{InstructionView, OriginKind, WeightLimit};
use crate::location::{AssetView, LocationView};
use crate::pallet::{
    order_message_for, order_outcome, weight_for, AccountId, Config, Error, FeeModel,
    PendingOrder, MESSAGE_INSTRUCTIONS,
};
use crate::primitives::{WEIGHT_PER_SECOND, XSTORAGE_CALL_WEIGHT};

verus! {

/// The per-second fee is the exact rounded-down price of the weight while
/// the product of rate and weight fits in a `u128`, and past that it stays at
/// the price of the largest representable product.
pub proof fn lemma_fee_per_second_floor(weight: u64, rate: u128)
    ensures
        rate * weight <= u128::MAX ==> fee_per_second_spec(weight, rate) == (rate * weight)
            / (WEIGHT_PER_SECOND as int),
        rate * weight > u128::MAX ==> fee_per_second_spec(weight, rate) == (u128::MAX as int)
            / (WEIGHT_PER_SECOND as int),
        0 <= fee_per_second_spec(weight, rate) <= u128::MAX,
{
}

/// A currency whose location is neither accepted fee asset is refused with
/// `NotSupportedCurrency`: no order comes into being, so nothing is charged
/// and nothing is sent.
pub proof fn lemma_unsupported_currency_refused(
    config: &Config,
    fee_type: LocationView,
    who: AccountId,
    cid: Seq<u8>,
    size: u64,
    r: Result<PendingOrder, Error>,
)
    requires
        fee_type != config.self_native_token@,
        fee_type != config.crust_native_token@,
        order_outcome(config, Some(fee_type), who, cid, size, r),
    ensures
        r == Err::<PendingOrder, Error>(Error::NotSupportedCurrency),
{
}

/// A currency without a location is refused with
/// `NotCrossChainTransferableCurrency`, whatever the rest of the request.
pub proof fn lemma_unmapped_currency_refused(
    config: &Config,
    who: AccountId,
    cid: Seq<u8>,
    size: u64,
    r: Result<PendingOrder, Error>,
)
    requires
        order_outcome(config, None, who, cid, size, r),
    ensures
        r == Err::<PendingOrder, Error>(Error::NotCrossChainTransferableCurrency),
{
}

/// Placing the same order twice with an unsupported currency is refused the
/// same way both times, and neither attempt yields an order.
pub proof fn lemma_refusal_repeats(
    config: &Config,
    fee_type: LocationView,
    who: AccountId,
    cid: Seq<u8>,
    size: u64,
    first: Result<PendingOrder, Error>,
    second: Result<PendingOrder, Error>,
)
    requires
        fee_type != config.self_native_token@,
        fee_type != config.crust_native_token@,
        order_outcome(config, Some(fee_type), who, cid, size, first),
        order_outcome(config, Some(fee_type), who, cid, size, second),
    ensures
        first == second,
        first is Err,
{
}

/// An accepted currency always gives an order, priced under the local burn
/// model for the local native token and per second otherwise.
pub proof fn lemma_accepted_currency_priced(
    config: &Config,
    fee_type: LocationView,
    who: AccountId,
    cid: Seq<u8>,
    size: u64,
    r: Result<PendingOrder, Error>,
)
    requires
        fee_type == config.self_native_token@ || fee_type == config.crust_native_token@,
        order_outcome(config, Some(fee_type), who, cid, size, r),
    ensures
        r is Ok,
        fee_type == config.self_native_token@ ==> r->Ok_0.model == FeeModel::LocalBurn
            && r->Ok_0.fee.amount == 10 * r->Ok_0.weight,
        fee_type != config.self_native_token@ ==> r->Ok_0.model == FeeModel::ForeignTransfer
            && r->Ok_0.fee.amount == fee_per_second_spec(r->Ok_0.weight, config.fee_per_second),
{
}

/// Every order message has as many instructions as the order buys overhead
/// units for, ends with the storage call, and never buys unlimited weight:
/// the weight it buys is derived from its own length.
pub proof fn lemma_message_shape(model: FeeModel, fees: AssetView, call: Seq<u8>)
    ensures
        order_message_for(model, fees, weight_for(MESSAGE_INSTRUCTIONS as nat) as u64, call).len()
            == MESSAGE_INSTRUCTIONS,
        order_message_for(model, fees, weight_for(MESSAGE_INSTRUCTIONS as nat) as u64, call).last()
            == (InstructionView::Transact {
            origin_type: OriginKind::SovereignAccount,
            require_weight_at_most: XSTORAGE_CALL_WEIGHT,
            call,
        }),
        order_message_for(model, fees, weight_for(MESSAGE_INSTRUCTIONS as nat) as u64, call)[1]
            == (InstructionView::BuyExecution {
            fees,
            weight_limit: WeightLimit::Limited(
                weight_for(
                    (order_message_for(
                        model,
                        fees,
                        weight_for(MESSAGE_INSTRUCTIONS as nat) as u64,
                        call,
                    ).len()) as nat,
                ) as u64,
            ),
        }),
{
    let m = order_message_for(model, fees, weight_for(MESSAGE_INSTRUCTIONS as nat) as u64, call);
    assert(m.len() == 3);
    assert(m.last() == m[2]);
}

} // verus!
