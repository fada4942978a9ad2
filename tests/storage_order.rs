use xstorage_client::instruction::{Instruction, OriginKind, WeightLimit};
use staging_xcm::v2::Junction;
use xstorage_client::location::{Asset, Location};
use xstorage_client::pallet::{Config, Error, Event, FeeModel, Pallet};

#[derive(Clone, Debug, PartialEq)]
enum CurrencyId {
    SelfReserve,
    OtherReserve(u32),
    Unregistered,
}

fn sibling(id: u32) -> Location {
    Location::new(1, vec![Junction::Parachain(id)])
}

fn here() -> Location {
    Location::new(0, vec![])
}

fn currency_to_location(currency: &CurrencyId) -> Option<Location> {
    match currency {
        CurrencyId::SelfReserve => Some(sibling(100)),
        CurrencyId::OtherReserve(0) => Some(Location::parent()),
        CurrencyId::OtherReserve(id) => Some(sibling(*id)),
        CurrencyId::Unregistered => None,
    }
}

fn config() -> Config {
    Config {
        self_native_token: sibling(100),
        crust_native_token: sibling(2),
        fee_per_second: 1_000_000,
        destination: sibling(2012),
    }
}

#[derive(Default)]
struct Runtime {
    events: Vec<Event>,
    withdrawn: Vec<Asset>,
    transferred: Vec<Asset>,
    sent: Vec<Vec<Instruction>>,
}

impl Runtime {
    fn place(&mut self, who: u64, currency: CurrencyId, cid: Vec<u8>, size: u64) -> Result<(), Error> {
        let config = config();
        let order = Pallet::place_storage_order(&config, who, currency_to_location(&currency), cid, size)?;
        match order.model {
            FeeModel::LocalBurn => self.withdrawn.push(order.fee.clone()),
            FeeModel::ForeignTransfer => self.transferred.push(order.fee.clone()),
        }
        Pallet::charge_result(true)?;
        let message = order.message(&config.destination, &here())?;
        self.sent.push(message);
        let event = order.finish(true)?;
        self.events.push(event);
        Ok(())
    }
}

#[test]
fn test_place_storage_order_success() {
    let mut rt = Runtime::default();
    assert_eq!(rt.place(1, CurrencyId::SelfReserve, vec![1, 2, 3], 100), Ok(()));
    let expected = vec![Event::FileSuccess { account: 1, cid: vec![1, 2, 3], size: 100 }];
    assert_eq!(rt.events, expected);

    assert_eq!(rt.place(1, CurrencyId::OtherReserve(2), vec![4, 5, 6], 200), Ok(()));
    let expected = vec![
        Event::FileSuccess { account: 1, cid: vec![1, 2, 3], size: 100 },
        Event::FileSuccess { account: 1, cid: vec![4, 5, 6], size: 200 },
    ];
    assert_eq!(rt.events, expected);
}

#[test]
fn test_place_storage_order_failed() {
    let mut rt = Runtime::default();
    assert_eq!(
        rt.place(1, CurrencyId::OtherReserve(10), vec![4, 5, 6], 200),
        Err(Error::NotSupportedCurrency)
    );
    assert!(rt.events.is_empty());
    assert!(rt.withdrawn.is_empty() && rt.transferred.is_empty() && rt.sent.is_empty());
}

#[test]
fn local_native_order_burns_and_sends_three_instructions() {
    let mut rt = Runtime::default();
    assert_eq!(rt.place(7, CurrencyId::SelfReserve, vec![1, 2, 3], 100), Ok(()));
    let fee = Asset::new(sibling(100), 30_010_000_010);
    assert_eq!(rt.withdrawn, vec![fee.clone()]);
    assert!(rt.transferred.is_empty());
    assert_eq!(rt.sent.len(), 1);
    let message = &rt.sent[0];
    assert_eq!(message.len(), 3);
    assert_eq!(message[0], Instruction::WithdrawAsset(fee.clone()));
    assert_eq!(
        message[1],
        Instruction::BuyExecution { fees: fee, weight_limit: WeightLimit::Limited(3_001_000_001) }
    );
    assert_eq!(
        message[2],
        Instruction::Transact {
            origin_type: OriginKind::SovereignAccount,
            require_weight_at_most: 1_000_001,
            call: vec![127, 0, 12, 1, 2, 3, 100, 0, 0, 0, 0, 0, 0, 0],
        }
    );
    assert_eq!(rt.events, vec![Event::FileSuccess { account: 7, cid: vec![1, 2, 3], size: 100 }]);
}

#[test]
fn external_native_order_transfers_and_deposits_in_reserve() {
    let mut rt = Runtime::default();
    assert_eq!(rt.place(1, CurrencyId::OtherReserve(2), vec![4, 5, 6], 200), Ok(()));
    let fee = Asset::new(sibling(2), 3001);
    assert!(rt.withdrawn.is_empty());
    assert_eq!(rt.transferred, vec![fee.clone()]);
    let message = &rt.sent[0];
    assert_eq!(message.len(), 3);
    assert_eq!(message[0], Instruction::ReserveAssetDeposited(fee));
    assert!(matches!(message[2], Instruction::Transact { .. }));
    assert_eq!(rt.events, vec![Event::FileSuccess { account: 1, cid: vec![4, 5, 6], size: 200 }]);
}

#[test]
fn unmapped_currency_is_not_transferable() {
    let mut rt = Runtime::default();
    assert_eq!(
        rt.place(1, CurrencyId::Unregistered, vec![1], 1),
        Err(Error::NotCrossChainTransferableCurrency)
    );
    assert!(rt.events.is_empty() && rt.withdrawn.is_empty() && rt.transferred.is_empty());
}

#[test]
fn relay_token_is_not_supported() {
    let mut rt = Runtime::default();
    assert_eq!(rt.place(1, CurrencyId::OtherReserve(0), vec![1], 1), Err(Error::NotSupportedCurrency));
}

#[test]
fn unsupported_currency_fails_the_same_way_twice() {
    let mut rt = Runtime::default();
    let first = rt.place(1, CurrencyId::OtherReserve(10), vec![4, 5, 6], 200);
    let second = rt.place(1, CurrencyId::OtherReserve(10), vec![4, 5, 6], 200);
    assert_eq!(first, Err(Error::NotSupportedCurrency));
    assert_eq!(first, second);
    assert!(rt.events.is_empty() && rt.sent.is_empty());
}

#[test]
fn fee_per_second_rounds_down() {
    assert_eq!(Pallet::calculate_fee_per_second(3_001_000_001, 1_000_000), 3001);
    assert_eq!(Pallet::calculate_fee_per_second(999_999_999_999, 1), 0);
    assert_eq!(Pallet::calculate_fee_per_second(1_000_000_000_000, 7), 7);
    assert_eq!(Pallet::calculate_fee_per_second(0, u128::MAX), 0);
}

#[test]
fn fee_per_second_saturates() {
    let top = u128::MAX / 1_000_000_000_000;
    assert_eq!(Pallet::calculate_fee_per_second(u64::MAX, u128::MAX), top);
    assert_eq!(Pallet::calculate_fee_per_second(2, u128::MAX / 2 + 1), top);
}

#[test]
fn native_fee_is_ten_per_weight_unit() {
    assert_eq!(Pallet::calculate_fee_in_crust_native_token(0), 0);
    assert_eq!(Pallet::calculate_fee_in_crust_native_token(3_001_000_001), 30_010_000_010);
    assert_eq!(Pallet::calculate_fee_in_crust_native_token(u64::MAX), 10 * (u64::MAX as u128));
}

#[test]
fn total_weight_covers_call_and_three_instructions() {
    assert_eq!(Pallet::total_weight(), 3_001_000_001);
}

#[test]
fn order_call_is_scale_encoded() {
    assert_eq!(
        Pallet::order_call(&vec![4, 5, 6], 200),
        vec![127, 0, 12, 4, 5, 6, 200, 0, 0, 0, 0, 0, 0, 0]
    );
    assert_eq!(Pallet::order_call(&vec![], 0x0102_0304_0506_0708), vec![127, 0, 0, 8, 7, 6, 5, 4, 3, 2, 1]);
    let long = vec![9u8; 64];
    let encoded = Pallet::order_call(&long, 1);
    assert_eq!(&encoded[..4], &[127, 0, 1, 1]);
    assert_eq!(encoded.len(), 2 + 2 + 64 + 8);
}

#[test]
fn fee_model_follows_the_accepted_tokens() {
    let config = config();
    assert_eq!(Pallet::select_fee_model(&config, &Some(sibling(100))), Ok(FeeModel::LocalBurn));
    assert_eq!(Pallet::select_fee_model(&config, &Some(sibling(2))), Ok(FeeModel::ForeignTransfer));
    assert_eq!(Pallet::select_fee_model(&config, &Some(sibling(3))), Err(Error::NotSupportedCurrency));
    assert_eq!(Pallet::select_fee_model(&config, &None), Err(Error::NotCrossChainTransferableCurrency));
    let mut same = config;
    same.crust_native_token = sibling(100);
    assert_eq!(Pallet::select_fee_model(&same, &Some(sibling(100))), Ok(FeeModel::LocalBurn));
}

#[test]
fn failed_charge_reanchor_and_send_are_reported() {
    assert_eq!(Pallet::charge_result(false), Err(Error::UnableToTransferStorageFee));
    assert_eq!(Pallet::charge_result(true), Ok(()));
    let order = Pallet::place_storage_order(&config(), 1, Some(sibling(2)), vec![1], 5).unwrap();
    assert_eq!(order.message_with_fees(None), Err(Error::CannotReanchor));
    assert_eq!(order.finish(false), Err(Error::ErrorSending));
}

#[test]
fn message_carries_the_reanchored_fee() {
    let order = Pallet::place_storage_order(&config(), 1, Some(sibling(100)), vec![1], 5).unwrap();
    let seen = Asset::new(Location::new(0, vec![Junction::PalletInstance(10)]), order.fee.amount);
    let message = order.message_with_fees(Some(seen.clone())).unwrap();
    assert_eq!(message[0], Instruction::WithdrawAsset(seen.clone()));
    assert_eq!(message[1], Instruction::BuyExecution { fees: seen, weight_limit: WeightLimit::Limited(3_001_000_001) });
}

#[test]
fn builders_refuse_a_fee_that_could_not_be_reanchored() {
    assert_eq!(Pallet::sovereign_withdraw(None), Err(Error::CannotReanchor));
    assert_eq!(Pallet::sovereign_mint(None), Err(Error::CannotReanchor));
    assert_eq!(Pallet::buy_execution(None, 5), Err(Error::CannotReanchor));
    let a = Asset::new(Location::parent(), 4);
    assert_eq!(Pallet::sovereign_mint(Some(a.clone())), Ok(Instruction::ReserveAssetDeposited(a.clone())));
    assert_eq!(
        Pallet::order_message(vec![1, 2], 9),
        Instruction::Transact { origin_type: OriginKind::SovereignAccount, require_weight_at_most: 9, call: vec![1, 2] }
    );
}

#[test]
fn locations_compare_by_position() {
    let a = Location::new(1, vec![Junction::Parachain(2), Junction::GeneralIndex(3)]);
    let b = a.duplicate();
    assert!(a.same_as(&b));
    assert_eq!(a, b);
    assert!(!a.same_as(&sibling(2)));
    assert!(!Location::parent().same_as(&Location::new(0, vec![])));
    assert!(sibling(5).same_as(&Location::new(1, vec![Junction::Parachain(5)])));
}

#[test]
fn message_fee_is_seen_from_the_destination() {
    let mut config = config();
    config.self_native_token = here();
    let order = Pallet::place_storage_order(&config, 1, Some(here()), vec![1, 2, 3], 100).unwrap();
    let ancestry = Location::new(0, vec![Junction::Parachain(100)]);
    let message = order.message(&config.destination, &ancestry).unwrap();
    let seen = Asset::new(sibling(100), 30_010_000_010);
    assert_eq!(message[0], Instruction::WithdrawAsset(seen.clone()));
    assert_eq!(message[1], Instruction::BuyExecution { fees: seen, weight_limit: WeightLimit::Limited(3_001_000_001) });
}

#[test]
fn fee_too_deep_for_a_message_cannot_be_reanchored() {
    let mut config = config();
    let deep = Location::new(0, (0..9).map(Junction::GeneralIndex).collect());
    config.self_native_token = deep.clone();
    let order = Pallet::place_storage_order(&config, 1, Some(deep), vec![1], 1).unwrap();
    assert_eq!(order.message(&config.destination, &here()), Err(Error::CannotReanchor));
}
