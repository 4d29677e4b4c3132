use openfund::settlement::{
    batch_execute_orders, cancel_order, create_order, execute_order, initialize_settlement_manager,
    toggle_settlement_status, update_fee_treasury, update_settlement_params, AccountRole, ErrorCode,
    Order, OrderDirection, OrderKeys, OrderStatus, SettlementManager, Transfer, TransferAuthority,
};
use openfund::Address;

fn key(b: u8) -> Address {
    Address::new([b; 32])
}

fn manager(fee_bps: u16) -> SettlementManager {
    initialize_settlement_manager(key(9), key(8), fee_bps, 3600, 255).unwrap()
}

fn order_keys() -> OrderKeys {
    OrderKeys { user: key(1), pool: key(2), token_a_mint: key(3), token_b_mint: key(4) }
}

fn open_order(direction: OrderDirection) -> Order {
    create_order(&manager(30), order_keys(), 1_000, 900, direction, 1_500, 1_000, 7).unwrap().0
}

#[test]
fn initialize_settlement_manager_is_active() {
    let m = manager(30);
    assert_eq!(m.authority.bytes, [9; 32]);
    assert_eq!(m.fee_treasury.bytes, [8; 32]);
    assert_eq!(m.settlement_fee_bps, 30);
    assert_eq!(m.settlement_window_seconds, 3600);
    assert!(m.active);
    assert_eq!(m.bump, 255);
}

#[test]
fn initialize_settlement_manager_caps_fee_at_one_percent() {
    assert_eq!(
        initialize_settlement_manager(key(9), key(8), 101, 3600, 255).unwrap_err(),
        ErrorCode::FeeTooHigh
    );
    assert_eq!(manager(100).settlement_fee_bps, 100);
}

#[test]
fn update_settlement_params_caps_fee_at_one_percent() {
    let mut m = manager(30);
    assert_eq!(update_settlement_params(&mut m, 101, 10), Err(ErrorCode::FeeTooHigh));
    assert_eq!(m.settlement_fee_bps, 30);
    assert_eq!(m.settlement_window_seconds, 3600);
    assert_eq!(update_settlement_params(&mut m, 100, 10), Ok(()));
    assert_eq!(m.settlement_fee_bps, 100);
    assert_eq!(m.settlement_window_seconds, 10);
}

#[test]
fn update_fee_treasury_and_toggle() {
    let mut m = manager(30);
    update_fee_treasury(&mut m, key(42));
    assert_eq!(m.fee_treasury.bytes, [42; 32]);
    toggle_settlement_status(&mut m, false);
    assert!(!m.active);
    assert_eq!(m.settlement_fee_bps, 30);
}

#[test]
fn create_order_escrows_input() {
    let (order, deposit) =
        create_order(&manager(30), order_keys(), 1_000, 900, OrderDirection::BtoA, 1_500, 1_000, 7)
            .unwrap();
    assert_eq!(order.user.bytes, [1; 32]);
    assert_eq!(order.pool.bytes, [2; 32]);
    assert_eq!(order.amount_in, 1_000);
    assert_eq!(order.min_amount_out, 900);
    assert_eq!(order.status, OrderStatus::Open);
    assert_eq!(order.created_at, 1_000);
    assert_eq!(order.expiry_timestamp, 1_500);
    assert_eq!(order.execution_amount, 0);
    assert_eq!(order.bump, 7);
    assert_eq!(
        deposit,
        Transfer {
            from: AccountRole::UserTokenB,
            to: AccountRole::EscrowTokenB,
            authority: TransferAuthority::User,
            amount: 1_000
        }
    );
}

#[test]
fn create_order_errors() {
    let mut paused = manager(30);
    toggle_settlement_status(&mut paused, false);
    let k = order_keys();
    assert_eq!(
        create_order(&paused, k, 1, 1, OrderDirection::AtoB, 1_500, 1_000, 0).unwrap_err(),
        ErrorCode::SettlementPaused
    );
    assert_eq!(
        create_order(&manager(30), k, 1, 1, OrderDirection::AtoB, 1_000, 1_000, 0).unwrap_err(),
        ErrorCode::InvalidExpiry
    );
    assert_eq!(
        create_order(&manager(30), k, 1, 1, OrderDirection::AtoB, 4_601, 1_000, 0).unwrap_err(),
        ErrorCode::ExpiryTooLong
    );
    assert!(create_order(&manager(30), k, 1, 1, OrderDirection::AtoB, 4_600, 1_000, 0).is_ok());
}

#[test]
fn cancel_order_refunds_escrow() {
    let mut order = open_order(OrderDirection::AtoB);
    let refund = cancel_order(&mut order).unwrap();
    assert_eq!(order.status, OrderStatus::Cancelled);
    assert_eq!(
        refund,
        Transfer {
            from: AccountRole::EscrowTokenA,
            to: AccountRole::UserTokenA,
            authority: TransferAuthority::OrderAuthority,
            amount: 1_000
        }
    );
    assert_eq!(cancel_order(&mut order), Err(ErrorCode::InvalidOrderStatus));
    assert_eq!(order.status, OrderStatus::Cancelled);
}

#[test]
fn execute_order_pays_user_and_treasury() {
    let mut order = open_order(OrderDirection::AtoB);
    let transfers = execute_order(&manager(30), &mut order, 10_000, 1_200).unwrap();
    assert_eq!(order.status, OrderStatus::Executed);
    assert_eq!(order.execution_amount, 10_000);
    assert_eq!(order.execution_fee, 30);
    assert_eq!(order.executed_at, 1_200);
    assert_eq!(
        transfers,
        vec![
            Transfer {
                from: AccountRole::EscrowTokenA,
                to: AccountRole::PoolTokenA,
                authority: TransferAuthority::OrderAuthority,
                amount: 1_000
            },
            Transfer {
                from: AccountRole::PoolTokenB,
                to: AccountRole::UserTokenB,
                authority: TransferAuthority::PoolAuthority,
                amount: 9_970
            },
            Transfer {
                from: AccountRole::PoolTokenB,
                to: AccountRole::TreasuryTokenB,
                authority: TransferAuthority::PoolAuthority,
                amount: 30
            },
        ]
    );
}

#[test]
fn execute_order_without_fee_has_two_transfers() {
    let mut order = open_order(OrderDirection::BtoA);
    // 30 bps of 999 rounds down to 2; of 33 it rounds to 0
    let transfers = execute_order(&manager(30), &mut order, 999, 1_500).unwrap();
    assert_eq!(transfers.len(), 3);
    let mut order = open_order(OrderDirection::BtoA);
    let mut m = manager(30);
    update_settlement_params(&mut m, 0, 3600).unwrap();
    let transfers = execute_order(&m, &mut order, 950, 1_000).unwrap();
    assert_eq!(transfers.len(), 2);
    assert_eq!(transfers[1].to, AccountRole::UserTokenA);
    assert_eq!(transfers[1].amount, 950);
}

#[test]
fn execute_order_errors() {
    let mut paused = manager(30);
    toggle_settlement_status(&mut paused, false);
    let mut order = open_order(OrderDirection::AtoB);
    assert_eq!(execute_order(&paused, &mut order, 1_000, 1_000), Err(ErrorCode::SettlementPaused));
    assert_eq!(execute_order(&manager(30), &mut order, 1_000, 1_501), Err(ErrorCode::OrderExpired));
    assert_eq!(execute_order(&manager(30), &mut order, 899, 1_000), Err(ErrorCode::SlippageExceeded));
    assert_eq!(order.status, OrderStatus::Open);
    execute_order(&manager(30), &mut order, 900, 1_000).unwrap();
    assert_eq!(execute_order(&manager(30), &mut order, 900, 1_000), Err(ErrorCode::InvalidOrderStatus));
    assert_eq!(cancel_order(&mut order), Err(ErrorCode::InvalidOrderStatus));
    assert_eq!(order.status, OrderStatus::Executed);
}

#[test]
fn fee_is_at_most_one_percent_after_update() {
    let mut m = manager(7);
    update_settlement_params(&mut m, 100, 3600).unwrap();
    for amount in [900u64, 1_000, 12_345, 99_999, u64::MAX] {
        let mut order = open_order(OrderDirection::AtoB);
        execute_order(&m, &mut order, amount, 1_000).unwrap();
        assert!(order.execution_fee <= amount / 100);
    }
}

#[test]
fn batch_execute_orders_checks_lengths() {
    assert_eq!(batch_execute_orders(&vec![key(1), key(2)], &vec![1, 2]), Ok(()));
    assert_eq!(batch_execute_orders(&vec![key(1)], &vec![1, 2]), Err(ErrorCode::BatchMismatch));
}

#[test]
fn execution_pays_out_exactly_amount_out() {
    for direction in [OrderDirection::AtoB, OrderDirection::BtoA] {
        let mut order = open_order(direction);
        let transfers = execute_order(&manager(77), &mut order, 123_457, 1_100).unwrap();
        let pool_out = if direction == OrderDirection::AtoB { AccountRole::PoolTokenB } else { AccountRole::PoolTokenA };
        let escrow = if direction == OrderDirection::AtoB { AccountRole::EscrowTokenA } else { AccountRole::EscrowTokenB };
        let paid: u64 = transfers.iter().filter(|t| t.from == pool_out).map(|t| t.amount).sum();
        let escrowed: u64 = transfers.iter().filter(|t| t.from == escrow).map(|t| t.amount).sum();
        assert_eq!(paid, 123_457);
        assert_eq!(escrowed, 1_000);
        assert_eq!(transfers[1].amount + order.execution_fee, 123_457);
        assert!(order.execution_amount >= order.min_amount_out);
        assert!(order.executed_at <= order.expiry_timestamp);
    }
}

#[test]
fn create_then_cancel_reverses_deposit() {
    for direction in [OrderDirection::AtoB, OrderDirection::BtoA] {
        let (mut order, deposit) =
            create_order(&manager(30), order_keys(), 4_321, 1, direction, 1_010, 1_000, 3).unwrap();
        let refund = cancel_order(&mut order).unwrap();
        assert_eq!(refund.from, deposit.to);
        assert_eq!(refund.to, deposit.from);
        assert_eq!(refund.amount, deposit.amount);
        assert_eq!(refund.authority, TransferAuthority::OrderAuthority);
    }
}
