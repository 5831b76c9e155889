use vwa_solana::{
    create_trade_order, execute_trade, initialize_asset, settlement_for, update_price, AssetType,
    CreateTradeOrder, ErrorCode, ExecuteTrade, InitializeAsset, Key, Ledger, OrderType,
    SettlementError, UpdatePrice,
};

fn key(b: u8) -> Key {
    Key::new([b; 32])
}

fn gold_for(ledger: &mut Ledger, owner: Key) -> usize {
    initialize_asset(
        ledger,
        &InitializeAsset { owner },
        AssetType::Gold,
        1000,
        99,
        "C1".to_string(),
        5000,
        100,
    )
    .unwrap()
}

fn trade(order: usize, asset: usize, owner: Key, buyer: Key) -> ExecuteTrade {
    ExecuteTrade {
        order,
        asset,
        from_token_account: key(10),
        to_token_account: key(11),
        owner,
        buyer,
    }
}

#[test]
fn created_asset_reads_back() {
    let mut l = Ledger::new();
    let id = initialize_asset(
        &mut l,
        &InitializeAsset { owner: key(1) },
        AssetType::Ruby,
        250,
        87,
        "GIA-42".to_string(),
        7300,
        1_700_000_000,
    )
    .unwrap();
    assert_eq!(id, 0);
    assert_eq!(l.num_assets(), 1);
    let a = l.asset(id);
    assert!(a.owner == key(1));
    assert_eq!(a.asset_type, AssetType::Ruby);
    assert_eq!(a.weight, 250);
    assert_eq!(a.purity, 87);
    assert_eq!(a.certification, "GIA-42");
    assert_eq!(a.current_price, 7300);
    assert_eq!(a.created_at, 1_700_000_000);
    assert_eq!(a.last_price_update, 0);
    assert!(a.is_active);
}

#[test]
fn purity_and_weight_are_not_range_checked() {
    let mut l = Ledger::new();
    let id = initialize_asset(
        &mut l,
        &InitializeAsset { owner: key(1) },
        AssetType::Diamond,
        0,
        255,
        String::new(),
        0,
        5,
    )
    .unwrap();
    assert_eq!(l.asset(id).weight, 0);
    assert_eq!(l.asset(id).purity, 255);
}

#[test]
fn duplicate_asset_is_refused() {
    let mut l = Ledger::new();
    gold_for(&mut l, key(1));
    let r = initialize_asset(
        &mut l,
        &InitializeAsset { owner: key(1) },
        AssetType::Gold,
        1,
        1,
        "other".to_string(),
        1,
        200,
    );
    assert_eq!(r, Err(ErrorCode::DuplicateAsset));
    assert_eq!(l.num_assets(), 1);
    assert_eq!(l.asset(0).weight, 1000);
    // Another type, or another owner, is a free address.
    assert!(initialize_asset(&mut l, &InitializeAsset { owner: key(1) }, AssetType::Silver, 1, 1, String::new(), 1, 1).is_ok());
    assert!(initialize_asset(&mut l, &InitializeAsset { owner: key(2) }, AssetType::Gold, 1, 1, String::new(), 1, 1).is_ok());
    assert_eq!(l.find_asset(&key(2), AssetType::Gold), Some(2));
    assert_eq!(l.find_asset(&key(3), AssetType::Gold), None);
}

#[test]
fn address_stays_with_creator_after_sale() {
    let mut l = Ledger::new();
    let asset = gold_for(&mut l, key(1));
    let order = create_trade_order(&mut l, &CreateTradeOrder { asset, owner: key(1) }, OrderType::Sell, 3, 10, 1);
    assert_eq!(execute_trade(&mut l, &trade(order, asset, key(1), key(2)), Ok(())), Ok(()));
    let again = initialize_asset(&mut l, &InitializeAsset { owner: key(1) }, AssetType::Gold, 1, 1, String::new(), 1, 1);
    assert_eq!(again, Err(ErrorCode::DuplicateAsset));
    assert!(initialize_asset(&mut l, &InitializeAsset { owner: key(2) }, AssetType::Gold, 1, 1, String::new(), 1, 1).is_ok());
}

#[test]
fn owner_updates_price() {
    let mut l = Ledger::new();
    let asset = gold_for(&mut l, key(1));
    assert_eq!(update_price(&mut l, &UpdatePrice { asset, owner: key(1) }, 6200, 300), Ok(()));
    assert_eq!(l.asset(asset).current_price, 6200);
    assert_eq!(l.asset(asset).last_price_update, 300);
    assert_eq!(l.asset(asset).created_at, 100);
}

#[test]
fn non_owner_price_update_is_unauthorized() {
    let mut l = Ledger::new();
    let asset = gold_for(&mut l, key(1));
    assert_eq!(update_price(&mut l, &UpdatePrice { asset, owner: key(9) }, 1, 300), Err(ErrorCode::Unauthorized));
    assert_eq!(l.asset(asset).current_price, 5000);
    assert_eq!(l.asset(asset).last_price_update, 0);
}

#[test]
fn keys_differing_in_one_byte_differ() {
    let mut bytes = [7u8; 32];
    bytes[31] = 8;
    assert!(!key(7).same(&Key::new(bytes)));
    assert!(key(7).same(&key(7)));
    assert!(key(7) != Key::new(bytes));
}

#[test]
fn order_is_created_active_unchecked() {
    let mut l = Ledger::new();
    let order = create_trade_order(&mut l, &CreateTradeOrder { asset: 42, owner: key(5) }, OrderType::Buy, 0, 77, 900);
    assert_eq!(order, 0);
    assert_eq!(l.num_orders(), 1);
    let o = l.order(order);
    assert_eq!(o.asset, 42);
    assert!(o.owner == key(5));
    assert_eq!(o.order_type, OrderType::Buy);
    assert_eq!(o.quantity, 0);
    assert_eq!(o.price_per_unit, 77);
    assert_eq!(o.created_at, 900);
    assert!(o.is_active);
}

#[test]
fn inactive_order_is_refused_without_change() {
    let mut l = Ledger::new();
    let asset = gold_for(&mut l, key(1));
    let order = create_trade_order(&mut l, &CreateTradeOrder { asset, owner: key(1) }, OrderType::Sell, 4, 10, 1);
    let ctx = trade(order, asset, key(1), key(2));
    assert_eq!(execute_trade(&mut l, &ctx, Ok(())), Ok(()));
    let ctx3 = trade(order, asset, key(2), key(3));
    assert_eq!(settlement_for(&l, &ctx3).unwrap_err(), ErrorCode::OrderInactive);
    assert_eq!(execute_trade(&mut l, &ctx3, Ok(())), Err(ErrorCode::OrderInactive));
    assert!(l.asset(asset).owner == key(2));
    assert!(!l.order(order).is_active);
    assert_eq!(l.order(order).quantity, 0);
}

#[test]
fn zero_quantity_is_refused_before_settlement() {
    let mut l = Ledger::new();
    let asset = gold_for(&mut l, key(1));
    let order = create_trade_order(&mut l, &CreateTradeOrder { asset, owner: key(1) }, OrderType::Sell, 0, 10, 1);
    let ctx = trade(order, asset, key(1), key(2));
    assert_eq!(settlement_for(&l, &ctx).unwrap_err(), ErrorCode::InvalidQuantity);
    assert_eq!(execute_trade(&mut l, &ctx, Ok(())), Err(ErrorCode::InvalidQuantity));
    assert!(l.order(order).is_active);
    assert!(l.asset(asset).owner == key(1));
}

#[test]
fn settlement_moves_whole_quantity_ignoring_price() {
    let mut l = Ledger::new();
    let asset = gold_for(&mut l, key(1));
    let order = create_trade_order(&mut l, &CreateTradeOrder { asset, owner: key(1) }, OrderType::Sell, 12, 5000, 1);
    let t = settlement_for(&l, &trade(order, asset, key(1), key(2))).unwrap();
    assert_eq!(t.amount, 12);
    assert!(t.from == key(10));
    assert!(t.to == key(11));
    assert!(t.authority == key(1));
}

#[test]
fn failed_settlement_changes_nothing() {
    let mut l = Ledger::new();
    let asset = gold_for(&mut l, key(1));
    let order = create_trade_order(&mut l, &CreateTradeOrder { asset, owner: key(1) }, OrderType::Sell, 5, 10, 1);
    let ctx = trade(order, asset, key(1), key(2));
    assert_eq!(
        execute_trade(&mut l, &ctx, Err(SettlementError::InsufficientFunds)),
        Err(ErrorCode::InsufficientFunds)
    );
    assert_eq!(
        execute_trade(&mut l, &ctx, Err(SettlementError::Unauthorized)),
        Err(ErrorCode::Unauthorized)
    );
    assert!(l.order(order).is_active);
    assert_eq!(l.order(order).quantity, 5);
    assert!(l.asset(asset).owner == key(1));
    assert_eq!(execute_trade(&mut l, &ctx, Ok(())), Ok(()));
}

#[test]
fn successful_trade_consumes_order_and_moves_asset() {
    let mut l = Ledger::new();
    let asset = gold_for(&mut l, key(1));
    let order = create_trade_order(&mut l, &CreateTradeOrder { asset, owner: key(1) }, OrderType::Sell, 8, 10, 1);
    let ctx = trade(order, asset, key(1), key(4));
    assert_eq!(settlement_for(&l, &ctx).unwrap().amount, 8);
    assert_eq!(execute_trade(&mut l, &ctx, Ok(())), Ok(()));
    let o = l.order(order);
    assert_eq!(o.quantity, 0);
    assert!(!o.is_active);
    assert_eq!(o.price_per_unit, 10);
    assert!(l.asset(asset).owner == key(4));
    assert_eq!(l.asset(asset).current_price, 5000);
}

#[test]
fn second_execution_is_inactive() {
    let mut l = Ledger::new();
    let asset = gold_for(&mut l, key(1));
    let order = create_trade_order(&mut l, &CreateTradeOrder { asset, owner: key(1) }, OrderType::Sell, 2, 10, 1);
    let ctx = trade(order, asset, key(1), key(2));
    assert_eq!(execute_trade(&mut l, &ctx, Ok(())), Ok(()));
    assert_eq!(execute_trade(&mut l, &ctx, Ok(())), Err(ErrorCode::OrderInactive));
}

#[test]
fn end_to_end_gold_sale() {
    let a = key(0xA);
    let b = key(0xB);
    let mut l = Ledger::new();
    let asset = initialize_asset(&mut l, &InitializeAsset { owner: a }, AssetType::Gold, 1000, 99, "C1".to_string(), 5000, 100).unwrap();
    let order = create_trade_order(&mut l, &CreateTradeOrder { asset, owner: a }, OrderType::Sell, 10, 5000, 101);
    let ctx = trade(order, asset, a, b);
    assert_eq!(settlement_for(&l, &ctx).unwrap().amount, 10);
    assert_eq!(execute_trade(&mut l, &ctx, Ok(())), Ok(()));
    assert!(l.asset(asset).owner == b);
    assert!(!l.order(order).is_active);
    assert_eq!(l.order(order).quantity, 0);
}

#[test]
fn settlement_error_codes() {
    assert_eq!(SettlementError::InsufficientFunds.code(), ErrorCode::InsufficientFunds);
    assert_eq!(SettlementError::Unauthorized.code(), ErrorCode::Unauthorized);
}
