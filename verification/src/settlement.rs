//! Escrow-based order settlement: a settlement manager with its fee and
//! order window, and orders that are created into escrow, then cancelled or
//! executed against a pool.
use vstd::prelude::*;

use crate::address::Address;
use crate::math::lemma_mul_fits_u128;

verus! {

/// Which way an order swaps.
#[derive(Clone, Copy, Debug, PartialEq, Eq, Structural)]
pub enum OrderDirection {
    /// From token A to token B.
    AtoB,
    /// From token B to token A.
    BtoA,
}

/// Where an order is in its life.
#[derive(Clone, Copy, Debug, PartialEq, Eq, Structural)]
pub enum OrderStatus {
    Open,
    Executed,
    Cancelled,
    Expired,
}

/// Errors of the settlement instructions.
#[derive(Clone, Copy, Debug, PartialEq, Eq, Structural)]
pub enum ErrorCode {
    /// The settlement fee is above 1% (100 basis points).
    FeeTooHigh,
    /// The settlement system is paused.
    SettlementPaused,
    /// The order's expiry is not in the future.
    InvalidExpiry,
    /// The order's expiry is beyond the settlement window.
    ExpiryTooLong,
    /// The order is not open.
    InvalidOrderStatus,
    /// The order has expired.
    OrderExpired,
    /// The output is below the order's minimum.
    SlippageExceeded,
    /// A batch names a different number of orders and amounts.
    BatchMismatch,
}

/// The settlement manager's state.
#[derive(Clone, Copy, Debug)]
pub struct SettlementManager {
    pub authority: Address,
    /// Fee in basis points (hundredths of a percent).
    pub settlement_fee_bps: u16,
    /// Longest lifetime of an order, in seconds.
    pub settlement_window_seconds: i64,
    pub fee_treasury: Address,
    pub active: bool,
    pub bump: u8,
}

/// The accounts an order is created with.
#[derive(Clone, Copy, Debug)]
pub struct OrderKeys {
    pub user: Address,
    pub pool: Address,
    pub token_a_mint: Address,
    pub token_b_mint: Address,
}

/// An order's state.
#[derive(Clone, Copy, Debug)]
pub struct Order {
    pub user: Address,
    pub pool: Address,
    pub token_a_mint: Address,
    pub token_b_mint: Address,
    pub amount_in: u64,
    pub min_amount_out: u64,
    pub direction: OrderDirection,
    pub status: OrderStatus,
    pub created_at: i64,
    pub expiry_timestamp: i64,
    pub execution_amount: u64,
    pub execution_fee: u64,
    pub executed_at: i64,
    pub bump: u8,
}

/// The token accounts that settlement moves tokens between.
#[derive(Clone, Copy, Debug, PartialEq, Eq, Structural)]
pub enum AccountRole {
    UserTokenA,
    UserTokenB,
    EscrowTokenA,
    EscrowTokenB,
    PoolTokenA,
    PoolTokenB,
    TreasuryTokenA,
    TreasuryTokenB,
}

/// Who signs a transfer.
#[derive(Clone, Copy, Debug, PartialEq, Eq, Structural)]
pub enum TransferAuthority {
    /// The order's user.
    User,
    /// The order's escrow authority.
    OrderAuthority,
    /// The pool's authority.
    PoolAuthority,
}

/// A token transfer that an instruction makes.
#[derive(Clone, Copy, Debug, PartialEq, Eq, Structural)]
pub struct Transfer {
    pub from: AccountRole,
    pub to: AccountRole,
    pub authority: TransferAuthority,
    pub amount: u64,
}

/// The user's account of the token an order gives.
pub open spec fn user_input_account(direction: OrderDirection) -> AccountRole {
    match direction {
        OrderDirection::AtoB => AccountRole::UserTokenA,
        OrderDirection::BtoA => AccountRole::UserTokenB,
    }
}

/// The escrow account of the token an order gives.
pub open spec fn escrow_input_account(direction: OrderDirection) -> AccountRole {
    match direction {
        OrderDirection::AtoB => AccountRole::EscrowTokenA,
        OrderDirection::BtoA => AccountRole::EscrowTokenB,
    }
}

/// The pool's account of the token an order gives.
pub open spec fn pool_input_account(direction: OrderDirection) -> AccountRole {
    match direction {
        OrderDirection::AtoB => AccountRole::PoolTokenA,
        OrderDirection::BtoA => AccountRole::PoolTokenB,
    }
}

/// The pool's account of the token an order receives.
pub open spec fn pool_output_account(direction: OrderDirection) -> AccountRole {
    match direction {
        OrderDirection::AtoB => AccountRole::PoolTokenB,
        OrderDirection::BtoA => AccountRole::PoolTokenA,
    }
}

/// The user's account of the token an order receives.
pub open spec fn user_output_account(direction: OrderDirection) -> AccountRole {
    match direction {
        OrderDirection::AtoB => AccountRole::UserTokenB,
        OrderDirection::BtoA => AccountRole::UserTokenA,
    }
}

/// The treasury's account of the token an order receives.
pub open spec fn treasury_output_account(direction: OrderDirection) -> AccountRole {
    match direction {
        OrderDirection::AtoB => AccountRole::TreasuryTokenB,
        OrderDirection::BtoA => AccountRole::TreasuryTokenA,
    }
}

/// The settlement fee on `amount_out`: `fee_bps` basis points, rounded down and
/// truncated to 64 bits.
pub open spec fn settlement_fee(amount_out: u64, fee_bps: u16) -> u64 {
    ((amount_out * fee_bps) / 10000int) as u64
}

impl SettlementManager {
    /// The settlement fee is at most 1% (100 basis points). Every manager that
    /// the settlement functions create or update has this property.
    pub open spec fn fee_within_cap(self) -> bool {
        self.settlement_fee_bps <= 100
    }
}

/// What `initialize_settlement_manager` returns: an active manager, where the
/// fee is at most 100 basis points.
pub open spec fn initialize_settlement_manager_result(
    authority: Address,
    fee_treasury: Address,
    settlement_fee_bps: u16,
    settlement_window_seconds: i64,
    bump: u8,
) -> Result<SettlementManager, ErrorCode> {
    if settlement_fee_bps > 100 {
        Err(ErrorCode::FeeTooHigh)
    } else {
        Ok(
            SettlementManager {
                authority,
                settlement_fee_bps,
                settlement_window_seconds,
                fee_treasury,
                active: true,
                bump,
            },
        )
    }
}

/// The manager with another fee treasury.
pub open spec fn with_fee_treasury(manager: SettlementManager, fee_treasury: Address) -> SettlementManager {
    SettlementManager { fee_treasury, ..manager }
}

/// The manager paused or resumed.
pub open spec fn with_active(manager: SettlementManager, active: bool) -> SettlementManager {
    SettlementManager { active, ..manager }
}

/// What `update_settlement_params` makes of the manager, and returns.
pub open spec fn update_settlement_params_result(
    manager: SettlementManager,
    settlement_fee_bps: u16,
    settlement_window_seconds: i64,
) -> (SettlementManager, Result<(), ErrorCode>) {
    if settlement_fee_bps > 100 {
        (manager, Err(ErrorCode::FeeTooHigh))
    } else {
        (SettlementManager { settlement_fee_bps, settlement_window_seconds, ..manager }, Ok(()))
    }
}

/// The transfer that puts an order's input into escrow.
pub open spec fn escrow_deposit(direction: OrderDirection, amount_in: u64) -> Transfer {
    Transfer {
        from: user_input_account(direction),
        to: escrow_input_account(direction),
        authority: TransferAuthority::User,
        amount: amount_in,
    }
}

/// The transfer that gives an order's escrowed input back to its user.
pub open spec fn escrow_refund(direction: OrderDirection, amount_in: u64) -> Transfer {
    Transfer {
        from: escrow_input_account(direction),
        to: user_input_account(direction),
        authority: TransferAuthority::OrderAuthority,
        amount: amount_in,
    }
}

/// The window check of `create_order` does not overflow.
pub open spec fn create_order_fits(manager: SettlementManager, expiry_timestamp: i64, now: i64) -> bool {
    manager.active && expiry_timestamp > now ==> i64::MIN <= now + manager.settlement_window_seconds
        <= i64::MAX
}

/// What `create_order` returns: the new order and the transfer into escrow.
pub open spec fn create_order_result(
    manager: SettlementManager,
    keys: OrderKeys,
    amount_in: u64,
    min_amount_out: u64,
    direction: OrderDirection,
    expiry_timestamp: i64,
    now: i64,
    bump: u8,
) -> Result<(Order, Transfer), ErrorCode> {
    if !manager.active {
        Err(ErrorCode::SettlementPaused)
    } else if expiry_timestamp <= now {
        Err(ErrorCode::InvalidExpiry)
    } else if expiry_timestamp > now + manager.settlement_window_seconds {
        Err(ErrorCode::ExpiryTooLong)
    } else {
        Ok(
            (
                Order {
                    user: keys.user,
                    pool: keys.pool,
                    token_a_mint: keys.token_a_mint,
                    token_b_mint: keys.token_b_mint,
                    amount_in,
                    min_amount_out,
                    direction,
                    status: OrderStatus::Open,
                    created_at: now,
                    expiry_timestamp,
                    execution_amount: 0,
                    execution_fee: 0,
                    executed_at: 0,
                    bump,
                },
                escrow_deposit(direction, amount_in),
            ),
        )
    }
}

/// What `cancel_order` makes of the order, and returns.
pub open spec fn cancel_order_result(order: Order) -> (Order, Result<Transfer, ErrorCode>) {
    if order.status != OrderStatus::Open {
        (order, Err(ErrorCode::InvalidOrderStatus))
    } else {
        (
            Order { status: OrderStatus::Cancelled, ..order },
            Ok(escrow_refund(order.direction, order.amount_in)),
        )
    }
}

/// The checks of `execute_order` pass.
pub open spec fn execution_allowed(
    manager: SettlementManager,
    order: Order,
    amount_out: u64,
    now: i64,
) -> bool {
    &&& manager.active
    &&& order.status == OrderStatus::Open
    &&& now <= order.expiry_timestamp
    &&& amount_out >= order.min_amount_out
}

/// The transfers of an execution: the escrowed input to the pool, the output
/// after the fee to the user, and the fee, when there is one, to the treasury.
pub open spec fn execution_transfers(order: Order, amount_out: u64, fee: u64) -> Seq<Transfer> {
    let to_pool = Transfer {
        from: escrow_input_account(order.direction),
        to: pool_input_account(order.direction),
        authority: TransferAuthority::OrderAuthority,
        amount: order.amount_in,
    };
    let to_user = Transfer {
        from: pool_output_account(order.direction),
        to: user_output_account(order.direction),
        authority: TransferAuthority::PoolAuthority,
        amount: (amount_out - fee) as u64,
    };
    let to_treasury = Transfer {
        from: pool_output_account(order.direction),
        to: treasury_output_account(order.direction),
        authority: TransferAuthority::PoolAuthority,
        amount: fee,
    };
    if fee > 0 {
        seq![to_pool, to_user, to_treasury]
    } else {
        seq![to_pool, to_user]
    }
}

/// What `execute_order` makes of the order, and returns.
pub open spec fn execute_order_result(
    manager: SettlementManager,
    order: Order,
    amount_out: u64,
    now: i64,
) -> (Order, Result<Seq<Transfer>, ErrorCode>) {
    if !manager.active {
        (order, Err(ErrorCode::SettlementPaused))
    } else if order.status != OrderStatus::Open {
        (order, Err(ErrorCode::InvalidOrderStatus))
    } else if now > order.expiry_timestamp {
        (order, Err(ErrorCode::OrderExpired))
    } else if amount_out < order.min_amount_out {
        (order, Err(ErrorCode::SlippageExceeded))
    } else {
        let fee = settlement_fee(amount_out, manager.settlement_fee_bps);
        (
            Order {
                status: OrderStatus::Executed,
                execution_amount: amount_out,
                execution_fee: fee,
                executed_at: now,
                ..order
            },
            Ok(execution_transfers(order, amount_out, fee)),
        )
    }
}

/// A fresh settlement manager, active, with the given parameters; a fee above
/// 100 basis points is refused.
pub fn initialize_settlement_manager(
    authority: Address,
    fee_treasury: Address,
    settlement_fee_bps: u16,
    settlement_window_seconds: i64,
    bump: u8,
) -> (res: Result<SettlementManager, ErrorCode>)
    ensures
        res == initialize_settlement_manager_result(
            authority,
            fee_treasury,
            settlement_fee_bps,
            settlement_window_seconds,
            bump,
        ),
{
    if !(settlement_fee_bps <= 100) {
        return Err(ErrorCode::FeeTooHigh);
    }
    Ok(
        SettlementManager {
            authority,
            settlement_fee_bps,
            settlement_window_seconds,
            fee_treasury,
            active: true,
            bump,
        },
    )
}

/// Sets the fee and the order window; a fee above 100 basis points is refused
/// and leaves the manager unchanged.
pub fn update_settlement_params(
    manager: &mut SettlementManager,
    settlement_fee_bps: u16,
    settlement_window_seconds: i64,
) -> (res: Result<(), ErrorCode>)
    ensures
        (*final(manager), res) == update_settlement_params_result(
            *old(manager),
            settlement_fee_bps,
            settlement_window_seconds,
        ),
{
    if !(settlement_fee_bps <= 100) {
        return Err(ErrorCode::FeeTooHigh);
    }
    manager.settlement_fee_bps = settlement_fee_bps;
    manager.settlement_window_seconds = settlement_window_seconds;
    Ok(())
}

/// Sets the treasury that receives settlement fees.
pub fn update_fee_treasury(manager: &mut SettlementManager, new_fee_treasury: Address)
    ensures
        *final(manager) == with_fee_treasury(*old(manager), new_fee_treasury),
{
    manager.fee_treasury = new_fee_treasury;
}

/// Pauses or resumes settlement.
pub fn toggle_settlement_status(manager: &mut SettlementManager, active: bool)
    ensures
        *final(manager) == with_active(*old(manager), active),
{
    manager.active = active;
}

/// Creates an open order at time `now`, with the transfer that moves its input
/// into escrow.
pub fn create_order(
    manager: &SettlementManager,
    keys: OrderKeys,
    amount_in: u64,
    min_amount_out: u64,
    direction: OrderDirection,
    expiry_timestamp: i64,
    now: i64,
    bump: u8,
) -> (res: Result<(Order, Transfer), ErrorCode>)
    requires
        create_order_fits(*manager, expiry_timestamp, now),
    ensures
        res == create_order_result(
            *manager,
            keys,
            amount_in,
            min_amount_out,
            direction,
            expiry_timestamp,
            now,
            bump,
        ),
{
    if !manager.active {
        return Err(ErrorCode::SettlementPaused);
    }
    if !(expiry_timestamp > now) {
        return Err(ErrorCode::InvalidExpiry);
    }
    let max_expiry = now + manager.settlement_window_seconds;
    if !(expiry_timestamp <= max_expiry) {
        return Err(ErrorCode::ExpiryTooLong);
    }
    let order = Order {
        user: keys.user,
        pool: keys.pool,
        token_a_mint: keys.token_a_mint,
        token_b_mint: keys.token_b_mint,
        amount_in,
        min_amount_out,
        direction,
        status: OrderStatus::Open,
        created_at: now,
        expiry_timestamp,
        execution_amount: 0,
        execution_fee: 0,
        executed_at: 0,
        bump,
    };
    let (from, to) = match direction {
        OrderDirection::AtoB => (AccountRole::UserTokenA, AccountRole::EscrowTokenA),
        OrderDirection::BtoA => (AccountRole::UserTokenB, AccountRole::EscrowTokenB),
    };
    Ok((order, Transfer { from, to, authority: TransferAuthority::User, amount: amount_in }))
}

/// Cancels an open order, with the transfer that returns its escrowed input.
pub fn cancel_order(order: &mut Order) -> (res: Result<Transfer, ErrorCode>)
    ensures
        (*final(order), res) == cancel_order_result(*old(order)),
{
    if !(order.status == OrderStatus::Open) {
        return Err(ErrorCode::InvalidOrderStatus);
    }
    order.status = OrderStatus::Cancelled;
    let (escrow, user) = match order.direction {
        OrderDirection::AtoB => (AccountRole::EscrowTokenA, AccountRole::UserTokenA),
        OrderDirection::BtoA => (AccountRole::EscrowTokenB, AccountRole::UserTokenB),
    };
    Ok(
        Transfer {
            from: escrow,
            to: user,
            authority: TransferAuthority::OrderAuthority,
            amount: order.amount_in,
        },
    )
}

/// The settlement fee on `amount_out`.
fn compute_settlement_fee(amount_out: u64, fee_bps: u16) -> (fee: u64)
    ensures
        fee == settlement_fee(amount_out, fee_bps),
{
    proof {
        lemma_mul_fits_u128(amount_out, fee_bps as u64);
    }
    ((amount_out as u128) * (fee_bps as u128) / 10000) as u64
}

/// Whether the settlement fee of an execution that passes its checks is at
/// most its output, so that the fee can be taken from it.
pub fn execution_fee_is_payable(
    manager: &SettlementManager,
    order: &Order,
    amount_out: u64,
    now: i64,
) -> (res: bool)
    ensures
        res == (execution_allowed(*manager, *order, amount_out, now) ==> settlement_fee(
            amount_out,
            manager.settlement_fee_bps,
        ) <= amount_out),
{
    let allowed = manager.active && order.status == OrderStatus::Open && now <= order.expiry_timestamp
        && amount_out >= order.min_amount_out;
    !allowed || compute_settlement_fee(amount_out, manager.settlement_fee_bps) <= amount_out
}

/// Executes an open, unexpired order at time `now` for `amount_out` of the
/// other token, with the transfers that settle it.
pub fn execute_order(
    manager: &SettlementManager,
    order: &mut Order,
    amount_out: u64,
    now: i64,
) -> (res: Result<Vec<Transfer>, ErrorCode>)
    requires
        execution_allowed(*manager, *old(order), amount_out, now) ==> settlement_fee(
            amount_out,
            manager.settlement_fee_bps,
        ) <= amount_out,
    ensures
        execute_order_result(*manager, *old(order), amount_out, now) == (
            *final(order),
            match res {
                Ok(transfers) => Ok(transfers@),
                Err(e) => Err(e),
            },
        ),
{
    if !manager.active {
        return Err(ErrorCode::SettlementPaused);
    }
    if !(order.status == OrderStatus::Open) {
        return Err(ErrorCode::InvalidOrderStatus);
    }
    if !(now <= order.expiry_timestamp) {
        return Err(ErrorCode::OrderExpired);
    }
    if !(amount_out >= order.min_amount_out) {
        return Err(ErrorCode::SlippageExceeded);
    }
    let fee_amount = compute_settlement_fee(amount_out, manager.settlement_fee_bps);
    let amount_out_after_fee = amount_out - fee_amount;
    order.status = OrderStatus::Executed;
    order.execution_amount = amount_out;
    order.execution_fee = fee_amount;
    order.executed_at = now;
    let (escrow_source, pool_target, pool_source, user_target, treasury_target) = match order.direction {
        OrderDirection::AtoB => (
            AccountRole::EscrowTokenA,
            AccountRole::PoolTokenA,
            AccountRole::PoolTokenB,
            AccountRole::UserTokenB,
            AccountRole::TreasuryTokenB,
        ),
        OrderDirection::BtoA => (
            AccountRole::EscrowTokenB,
            AccountRole::PoolTokenB,
            AccountRole::PoolTokenA,
            AccountRole::UserTokenA,
            AccountRole::TreasuryTokenA,
        ),
    };
    let mut transfers: Vec<Transfer> = Vec::new();
    transfers.push(
        Transfer {
            from: escrow_source,
            to: pool_target,
            authority: TransferAuthority::OrderAuthority,
            amount: order.amount_in,
        },
    );
    transfers.push(
        Transfer {
            from: pool_source,
            to: user_target,
            authority: TransferAuthority::PoolAuthority,
            amount: amount_out_after_fee,
        },
    );
    if fee_amount > 0 {
        transfers.push(
            Transfer {
                from: pool_source,
                to: treasury_target,
                authority: TransferAuthority::PoolAuthority,
                amount: fee_amount,
            },
        );
    }
    proof {
        assert(transfers@ =~= execution_transfers(*old(order), amount_out, fee_amount));
    }
    Ok(transfers)
}

/// Checks that a batch names as many orders as output amounts.
pub fn batch_execute_orders(order_keys: &Vec<Address>, amounts_out: &Vec<u64>) -> (res: Result<
    (),
    ErrorCode,
>)
    ensures
        res == (if order_keys.len() == amounts_out.len() {
            Ok(())
        } else {
            Err(ErrorCode::BatchMismatch)
        }),
{
    if !(order_keys.len() == amounts_out.len()) {
        return Err(ErrorCode::BatchMismatch);
    }
    Ok(())
}


/// The total that a list of transfers moves out of `account`.
pub open spec fn total_from(transfers: Seq<Transfer>, account: AccountRole) -> int
    decreases transfers.len(),
{
    if transfers.len() == 0 {
        0
    } else {
        total_from(transfers.drop_last(), account) + if transfers.last().from == account {
            transfers.last().amount as int
        } else {
            0
        }
    }
}

/// An order settles at most once: after it is executed or cancelled, every
/// later cancellation or execution is refused and leaves it as it is.
pub proof fn lemma_order_settles_once(
    manager: SettlementManager,
    order: Order,
    amount_out: u64,
    now: i64,
    later_manager: SettlementManager,
    later_amount_out: u64,
    later_now: i64,
)
    ensures
        ({
            let (executed, res) = execute_order_result(manager, order, amount_out, now);
            res is Ok ==> {
                &&& executed.status == OrderStatus::Executed
                &&& cancel_order_result(executed) == (executed, Err::<Transfer, ErrorCode>(
                    ErrorCode::InvalidOrderStatus,
                ))
                &&& execute_order_result(later_manager, executed, later_amount_out, later_now).0
                    == executed
                &&& execute_order_result(later_manager, executed, later_amount_out, later_now).1 is Err
            }
        }),
        ({
            let (cancelled, res) = cancel_order_result(order);
            res is Ok ==> {
                &&& cancelled.status == OrderStatus::Cancelled
                &&& cancel_order_result(cancelled) == (cancelled, Err::<Transfer, ErrorCode>(
                    ErrorCode::InvalidOrderStatus,
                ))
                &&& execute_order_result(later_manager, cancelled, later_amount_out, later_now).0
                    == cancelled
                &&& execute_order_result(later_manager, cancelled, later_amount_out, later_now).1 is Err
            }
        }),
{
}

/// An execution moves the order's whole input out of escrow and exactly
/// `amount_out` out of the pool: the user gets it less the fee, and the
/// treasury gets the fee.
pub proof fn lemma_execution_pays_out_exactly(
    manager: SettlementManager,
    order: Order,
    amount_out: u64,
    now: i64,
)
    requires
        execution_allowed(manager, order, amount_out, now) ==> settlement_fee(
            amount_out,
            manager.settlement_fee_bps,
        ) <= amount_out,
    ensures
        execute_order_result(manager, order, amount_out, now).1 matches Ok(transfers) ==> {
            &&& total_from(transfers, pool_output_account(order.direction)) == amount_out
            &&& total_from(transfers, escrow_input_account(order.direction)) == order.amount_in
            &&& transfers[1].to == user_output_account(order.direction)
            &&& transfers[1].amount + execute_order_result(manager, order, amount_out, now).0.execution_fee
                == amount_out
        },
{
    let (executed, res) = execute_order_result(manager, order, amount_out, now);
    if res is Ok {
        let fee = settlement_fee(amount_out, manager.settlement_fee_bps);
        let transfers = execution_transfers(order, amount_out, fee);
        reveal_with_fuel(total_from, 4);
        if fee > 0 {
            assert(transfers.drop_last() =~= transfers.subrange(0, 2));
            assert(transfers.drop_last().drop_last() =~= transfers.subrange(0, 1));
            assert(transfers.drop_last().drop_last().drop_last() =~= Seq::<Transfer>::empty());
        } else {
            assert(transfers.drop_last() =~= transfers.subrange(0, 1));
            assert(transfers.drop_last().drop_last() =~= Seq::<Transfer>::empty());
        }
    }
}

/// An executed order got at least its minimum output and was executed no
/// later than its expiry.
pub proof fn lemma_execution_honours_order(
    manager: SettlementManager,
    order: Order,
    amount_out: u64,
    now: i64,
)
    ensures
        ({
            let (executed, res) = execute_order_result(manager, order, amount_out, now);
            res is Ok ==> {
                &&& executed.execution_amount >= executed.min_amount_out
                &&& executed.executed_at <= executed.expiry_timestamp
                &&& executed.amount_in == order.amount_in
                &&& executed.direction == order.direction
            }
        }),
{
}

/// A fee of at most 100 basis points takes at most 1% of the output.
pub proof fn lemma_fee_at_most_one_percent(amount_out: u64, fee_bps: u16)
    requires
        fee_bps <= 100,
    ensures
        settlement_fee(amount_out, fee_bps) <= amount_out / 100,
{
    assert(0 <= amount_out * fee_bps <= amount_out * 100) by (nonlinear_arith)
        requires
            fee_bps <= 100,
    ;
    vstd::arithmetic::div_mod::lemma_div_is_ordered(amount_out * fee_bps, amount_out * 100, 10000);
    vstd::arithmetic::div_mod::lemma_div_is_ordered(0, amount_out * fee_bps, 10000);
    assert((amount_out * 100) / 10000 == amount_out / 100) by (nonlinear_arith);
}

/// The 1% fee cap holds in every state a manager reaches: initialisation
/// creates only managers within it, and every update keeps it.
pub proof fn lemma_fee_cap_is_kept(
    manager: SettlementManager,
    authority: Address,
    fee_treasury: Address,
    settlement_fee_bps: u16,
    settlement_window_seconds: i64,
    bump: u8,
    active: bool,
)
    ensures
        initialize_settlement_manager_result(
            authority,
            fee_treasury,
            settlement_fee_bps,
            settlement_window_seconds,
            bump,
        ) matches Ok(created) ==> created.fee_within_cap(),
        manager.fee_within_cap() ==> update_settlement_params_result(
            manager,
            settlement_fee_bps,
            settlement_window_seconds,
        ).0.fee_within_cap(),
        manager.fee_within_cap() ==> with_fee_treasury(manager, fee_treasury).fee_within_cap(),
        manager.fee_within_cap() ==> with_active(manager, active).fee_within_cap(),
{
}

/// Under a manager within the fee cap, every execution pays a fee of at most
/// 1% of its output, and the fee can always be taken from the output.
pub proof fn lemma_executions_pay_at_most_one_percent(
    manager: SettlementManager,
    order: Order,
    amount_out: u64,
    now: i64,
)
    requires
        manager.fee_within_cap(),
    ensures
        settlement_fee(amount_out, manager.settlement_fee_bps) <= amount_out,
        execute_order_result(manager, order, amount_out, now).1 is Ok ==> execute_order_result(
            manager,
            order,
            amount_out,
            now,
        ).0.execution_fee <= amount_out / 100,
{
    lemma_fee_at_most_one_percent(amount_out, manager.settlement_fee_bps);
}

/// The token balances of the accounts after a transfer.
pub open spec fn apply_transfer(balances: Map<AccountRole, int>, transfer: Transfer) -> Map<
    AccountRole,
    int,
> {
    balances.insert(transfer.from, balances[transfer.from] - transfer.amount).insert(
        transfer.to,
        balances[transfer.to] + transfer.amount,
    )
}

/// Creating an order and cancelling it at once leaves every balance as it was:
/// the input leaves the user's account into the fresh escrow, and all of it
/// comes back, leaving the escrow empty.
pub proof fn lemma_create_then_cancel_restores_balances(
    manager: SettlementManager,
    keys: OrderKeys,
    amount_in: u64,
    min_amount_out: u64,
    direction: OrderDirection,
    expiry_timestamp: i64,
    now: i64,
    bump: u8,
    balances: Map<AccountRole, int>,
)
    requires
        forall|role: AccountRole| balances.dom().contains(role),
        balances[escrow_input_account(direction)] == 0,
    ensures
        create_order_result(
            manager,
            keys,
            amount_in,
            min_amount_out,
            direction,
            expiry_timestamp,
            now,
            bump,
        ) matches Ok((order, deposit)) ==> {
            let (cancelled, refund) = cancel_order_result(order);
            let escrowed = apply_transfer(balances, deposit);
            &&& escrowed[user_input_account(direction)] == balances[user_input_account(direction)]
                - amount_in
            &&& escrowed[escrow_input_account(direction)] == amount_in
            &&& cancelled.status == OrderStatus::Cancelled
            &&& refund matches Ok(refund) && apply_transfer(escrowed, refund) == balances
            &&& refund matches Ok(refund) && apply_transfer(escrowed, refund)[escrow_input_account(
                direction,
            )] == 0
        },
{
    let res = create_order_result(
        manager,
        keys,
        amount_in,
        min_amount_out,
        direction,
        expiry_timestamp,
        now,
        bump,
    );
    if res is Ok {
        let (order, deposit) = res->Ok_0;
        let escrowed = apply_transfer(balances, deposit);
        let refund = escrow_refund(direction, amount_in);
        assert(apply_transfer(escrowed, refund) =~= balances);
    }
}

/// Cancelling an order right after creating it sends back exactly what was
/// put into escrow, from the escrow account to the account it came from.
pub proof fn lemma_create_then_cancel_refunds(
    manager: SettlementManager,
    keys: OrderKeys,
    amount_in: u64,
    min_amount_out: u64,
    direction: OrderDirection,
    expiry_timestamp: i64,
    now: i64,
    bump: u8,
)
    ensures
        create_order_result(
            manager,
            keys,
            amount_in,
            min_amount_out,
            direction,
            expiry_timestamp,
            now,
            bump,
        ) matches Ok((order, deposit)) ==> cancel_order_result(order).1 == Ok::<
            Transfer,
            ErrorCode,
        >(
            Transfer {
                from: deposit.to,
                to: deposit.from,
                authority: TransferAuthority::OrderAuthority,
                amount: deposit.amount,
            },
        ),
{
}

/// A paused settlement manager refuses every new order and every execution,
/// and leaves the order as it is.
pub proof fn lemma_paused_manager_refuses(
    manager: SettlementManager,
    keys: OrderKeys,
    amount_in: u64,
    min_amount_out: u64,
    direction: OrderDirection,
    expiry_timestamp: i64,
    now: i64,
    bump: u8,
    order: Order,
    amount_out: u64,
)
    requires
        !manager.active,
    ensures
        create_order_result(
            manager,
            keys,
            amount_in,
            min_amount_out,
            direction,
            expiry_timestamp,
            now,
            bump,
        ) == Err::<(Order, Transfer), ErrorCode>(ErrorCode::SettlementPaused),
        execute_order_result(manager, order, amount_out, now) == (order, Err::<
            Seq<Transfer>,
            ErrorCode,
        >(ErrorCode::SettlementPaused)),
{
}


/// The settlement fee is the basis-point share of the output, rounded down,
/// for every fee up to 100%.
pub proof fn lemma_settlement_fee_is_share(amount_out: u64, fee_bps: u16)
    requires
        fee_bps <= 10000,
    ensures
        settlement_fee(amount_out, fee_bps) * 10000 <= amount_out * fee_bps < (settlement_fee(
            amount_out,
            fee_bps,
        ) + 1) * 10000,
        settlement_fee(amount_out, fee_bps) <= amount_out,
{
    let x = amount_out * fee_bps;
    assert(0 <= x <= amount_out * 10000) by (nonlinear_arith)
        requires
            fee_bps <= 10000,
            x == amount_out * fee_bps,
    ;
    vstd::arithmetic::div_mod::lemma_div_is_ordered(x, amount_out * 10000, 10000);
    vstd::arithmetic::div_mod::lemma_div_is_ordered(0, x, 10000);
    vstd::arithmetic::div_mod::lemma_div_by_multiple(amount_out as int, 10000);
    let q = x / 10000;
    vstd::arithmetic::div_mod::lemma_fundamental_div_mod(x, 10000);
    vstd::arithmetic::div_mod::lemma_mod_bound(x, 10000);
    assert(q * 10000 <= x < (q + 1) * 10000);
}

/// An execution under a fee of at most 100% takes the basis-point share of
/// the output, rounded down, as its fee; the user gets the rest, out of the
/// pool's account of the token the order receives, and the treasury's
/// account of that token gets the fee when there is one; the escrowed input
/// goes to the pool's account of the token the order gives.
pub proof fn lemma_execution_takes_fee_share(
    manager: SettlementManager,
    order: Order,
    amount_out: u64,
    now: i64,
)
    requires
        manager.settlement_fee_bps <= 10000,
    ensures
        execute_order_result(manager, order, amount_out, now).1 matches Ok(transfers) ==> {
            let executed = execute_order_result(manager, order, amount_out, now).0;
            let fee = executed.execution_fee;
            let (escrow, pool_in, pool_out, user_out, treasury_out) = match order.direction {
                OrderDirection::AtoB => (
                    AccountRole::EscrowTokenA,
                    AccountRole::PoolTokenA,
                    AccountRole::PoolTokenB,
                    AccountRole::UserTokenB,
                    AccountRole::TreasuryTokenB,
                ),
                OrderDirection::BtoA => (
                    AccountRole::EscrowTokenB,
                    AccountRole::PoolTokenB,
                    AccountRole::PoolTokenA,
                    AccountRole::UserTokenA,
                    AccountRole::TreasuryTokenA,
                ),
            };
            &&& fee * 10000 <= amount_out * manager.settlement_fee_bps < (fee + 1) * 10000
            &&& executed.execution_amount == amount_out
            &&& executed.executed_at == now
            &&& executed.status == OrderStatus::Executed
            &&& transfers.len() == if fee > 0 {
                3int
            } else {
                2int
            }
            &&& transfers[0] == Transfer {
                from: escrow,
                to: pool_in,
                authority: TransferAuthority::OrderAuthority,
                amount: order.amount_in,
            }
            &&& transfers[1] == Transfer {
                from: pool_out,
                to: user_out,
                authority: TransferAuthority::PoolAuthority,
                amount: (amount_out - fee) as u64,
            }
            &&& fee > 0 ==> transfers[2] == Transfer {
                from: pool_out,
                to: treasury_out,
                authority: TransferAuthority::PoolAuthority,
                amount: fee,
            }
        },
{
    lemma_settlement_fee_is_share(amount_out, manager.settlement_fee_bps);
}

/// An execution is refused exactly when a check fails, in this order: a paused
/// manager, an order that is not open, an expired order, an output below the
/// order's minimum; a refusal leaves the order unchanged.
pub proof fn lemma_execution_checks(
    manager: SettlementManager,
    order: Order,
    amount_out: u64,
    now: i64,
)
    ensures
        execute_order_result(manager, order, amount_out, now).1 is Ok <==> (manager.active
            && order.status == OrderStatus::Open && now <= order.expiry_timestamp && amount_out
            >= order.min_amount_out),
        execute_order_result(manager, order, amount_out, now).1 matches Err(e) ==> {
            &&& execute_order_result(manager, order, amount_out, now).0 == order
            &&& e == if !manager.active {
                ErrorCode::SettlementPaused
            } else if order.status != OrderStatus::Open {
                ErrorCode::InvalidOrderStatus
            } else if now > order.expiry_timestamp {
                ErrorCode::OrderExpired
            } else {
                ErrorCode::SlippageExceeded
            }
        },
{
}

/// An active manager accepts every order whose expiry lies after `now` and
/// within the settlement window, whatever its amounts, and the order is open
/// with the given terms, its input going from the user's account of the token
/// it gives to the escrow of that token. Every other order is refused, for a
/// paused manager, an expiry not in the future, or one beyond the window.
pub proof fn lemma_order_creation(
    manager: SettlementManager,
    keys: OrderKeys,
    amount_in: u64,
    min_amount_out: u64,
    direction: OrderDirection,
    expiry_timestamp: i64,
    now: i64,
    bump: u8,
)
    ensures
        create_order_result(
            manager,
            keys,
            amount_in,
            min_amount_out,
            direction,
            expiry_timestamp,
            now,
            bump,
        ) is Ok <==> (manager.active && now < expiry_timestamp && expiry_timestamp <= now
            + manager.settlement_window_seconds),
        create_order_result(
            manager,
            keys,
            amount_in,
            min_amount_out,
            direction,
            expiry_timestamp,
            now,
            bump,
        ) matches Err(e) ==> e == if !manager.active {
            ErrorCode::SettlementPaused
        } else if expiry_timestamp <= now {
            ErrorCode::InvalidExpiry
        } else {
            ErrorCode::ExpiryTooLong
        },
        create_order_result(
            manager,
            keys,
            amount_in,
            min_amount_out,
            direction,
            expiry_timestamp,
            now,
            bump,
        ) matches Ok((order, deposit)) ==> {
            &&& order.user == keys.user
            &&& order.pool == keys.pool
            &&& order.token_a_mint == keys.token_a_mint
            &&& order.token_b_mint == keys.token_b_mint
            &&& order.amount_in == amount_in
            &&& order.min_amount_out == min_amount_out
            &&& order.direction == direction
            &&& order.status == OrderStatus::Open
            &&& order.created_at == now
            &&& order.expiry_timestamp == expiry_timestamp
            &&& order.execution_amount == 0
            &&& order.execution_fee == 0
            &&& order.executed_at == 0
            &&& order.bump == bump
            &&& deposit.amount == amount_in
            &&& deposit.authority == TransferAuthority::User
            &&& direction == OrderDirection::AtoB ==> deposit.from == AccountRole::UserTokenA
                && deposit.to == AccountRole::EscrowTokenA
            &&& direction == OrderDirection::BtoA ==> deposit.from == AccountRole::UserTokenB
                && deposit.to == AccountRole::EscrowTokenB
        },
{
}

/// Cancelling is accepted exactly for an open order; it marks the order
/// cancelled and returns the whole input from the escrow of the token the
/// order gives to the user's account of it. A refusal leaves the order as it is.
pub proof fn lemma_cancellation(order: Order)
    ensures
        cancel_order_result(order).1 is Ok <==> order.status == OrderStatus::Open,
        cancel_order_result(order).1 is Err ==> cancel_order_result(order) == (order, Err::<
            Transfer,
            ErrorCode,
        >(ErrorCode::InvalidOrderStatus)),
        cancel_order_result(order).1 matches Ok(refund) ==> {
            let cancelled = cancel_order_result(order).0;
            &&& cancelled.status == OrderStatus::Cancelled
            &&& cancelled.amount_in == order.amount_in
            &&& cancelled.direction == order.direction
            &&& cancelled.user == order.user
            &&& cancelled.execution_amount == order.execution_amount
            &&& refund.amount == order.amount_in
            &&& refund.authority == TransferAuthority::OrderAuthority
            &&& order.direction == OrderDirection::AtoB ==> refund.from == AccountRole::EscrowTokenA
                && refund.to == AccountRole::UserTokenA
            &&& order.direction == OrderDirection::BtoA ==> refund.from == AccountRole::EscrowTokenB
                && refund.to == AccountRole::UserTokenB
        },
{
}

/// A parameter update is accepted exactly for a fee of at most 100 basis
/// points, and then sets the fee and the window and nothing else; a refused
/// one changes nothing. Creating a manager is accepted for the same fees, and
/// the manager starts active.
pub proof fn lemma_manager_parameters(
    manager: SettlementManager,
    authority: Address,
    fee_treasury: Address,
    settlement_fee_bps: u16,
    settlement_window_seconds: i64,
    bump: u8,
)
    ensures
        update_settlement_params_result(manager, settlement_fee_bps, settlement_window_seconds).1
            is Ok <==> settlement_fee_bps <= 100,
        settlement_fee_bps > 100 ==> update_settlement_params_result(
            manager,
            settlement_fee_bps,
            settlement_window_seconds,
        ) == (manager, Err::<(), ErrorCode>(ErrorCode::FeeTooHigh)),
        settlement_fee_bps <= 100 ==> {
            let updated = update_settlement_params_result(
                manager,
                settlement_fee_bps,
                settlement_window_seconds,
            ).0;
            &&& updated.settlement_fee_bps == settlement_fee_bps
            &&& updated.settlement_window_seconds == settlement_window_seconds
            &&& updated.authority == manager.authority
            &&& updated.fee_treasury == manager.fee_treasury
            &&& updated.active == manager.active
            &&& updated.bump == manager.bump
        },
        initialize_settlement_manager_result(
            authority,
            fee_treasury,
            settlement_fee_bps,
            settlement_window_seconds,
            bump,
        ) is Ok <==> settlement_fee_bps <= 100,
        initialize_settlement_manager_result(
            authority,
            fee_treasury,
            settlement_fee_bps,
            settlement_window_seconds,
            bump,
        ) matches Ok(created) ==> {
            &&& created.authority == authority
            &&& created.fee_treasury == fee_treasury
            &&& created.settlement_fee_bps == settlement_fee_bps
            &&& created.settlement_window_seconds == settlement_window_seconds
            &&& created.active
            &&& created.bump == bump
        },
{
}

} // verus!
