//! The escrow itself: its state held in memory, and the operations on it.
//!
//! The caller's identity, the value attached to a call and the time are
//! parameters of the operations. What an operation does is stated against
//! the state machine of [`crate::model`]. An operation that releases funds
//! commits the order's new status first and hands the fund movements back as
//! a [`Settlement`], to be carried out afterwards.

use vstd::prelude::*;
use crate::account::AccountId;
use crate::events::{
    DisputeCreated, DisputeResolved, Event, OrderAccepted, OrderCancelled, OrderCompleted,
    OrderCreated,
};
use crate::fee::{fee, Balance};
use crate::model::EscrowState;
use crate::order::{Error, Order, OrderStatus, OrderType};
use crate::settlement::{payout_transfers, refund_transfers, Settlement, SettlementView};

verus! {

/// An escrow with the orders that are at hand: all of them where the escrow
/// keeps its orders itself, or those that a call is about where they are
/// kept elsewhere and brought by [`PolkaPayEscrow::restore`].
pub struct PolkaPayEscrow {
    owner: AccountId,
    paused: bool,
    next_order_id: u64,
    orders: Vec<Order>,
    lp_fee_bps: u16,
}

/// The outcome of a settling operation with the settlement taken as a
/// mathematical value.
pub open spec fn settled(res: Result<Settlement, Error>) -> Result<SettlementView, Error> {
    match res {
        Ok(s) => Ok(s@),
        Err(e) => Err(e),
    }
}

impl View for PolkaPayEscrow {
    type V = EscrowState;

    closed spec fn view(&self) -> EscrowState {
        EscrowState::holding(
            self.owner,
            self.paused,
            self.next_order_id,
            self.lp_fee_bps,
            self.orders@,
        )
    }
}

impl PolkaPayEscrow {
    /// The orders are listed by rising identifier, so that the state that
    /// they make up is well formed.
    #[verifier::type_invariant]
    spec fn inv(&self) -> bool {
        &&& EscrowState::is_ledger(self.orders@, self.next_order_id, self.lp_fee_bps)
        &&& self@.wf()
    }

    /// The position of the order stored under `order_id`. Where every order
    /// is at hand it is the identifier less one, which is tried first.
    fn slot(&self, order_id: u64) -> (at: Option<usize>)
        ensures
            self@.wf(),
            at is Some <==> self@.orders.contains_key(order_id),
            at is Some ==> at->Some_0 < self.orders@.len() && self.orders@[at->Some_0 as int].id
                == order_id && self.orders@[at->Some_0 as int] == self@.orders[order_id],
    {
        proof {
            use_type_invariant(self);
        }
        if 1 <= order_id && order_id - 1 < self.orders.len() as u64 {
            let at = (order_id - 1) as usize;
            if self.orders[at].id == order_id {
                proof {
                    EscrowState::lemma_holding_finds(
                        self.owner,
                        self.paused,
                        self.next_order_id,
                        self.lp_fee_bps,
                        self.orders@,
                        at as int,
                    );
                }
                return Some(at);
            }
        }
        let mut at: usize = 0;
        while at < self.orders.len()
            invariant
                at <= self.orders@.len(),
                EscrowState::is_ledger(self.orders@, self.next_order_id, self.lp_fee_bps),
                forall|i: int| 0 <= i < at ==> (#[trigger] self.orders@[i]).id != order_id,
            decreases self.orders@.len() - at,
        {
            if self.orders[at].id == order_id {
                proof {
                    EscrowState::lemma_holding_finds(
                        self.owner,
                        self.paused,
                        self.next_order_id,
                        self.lp_fee_bps,
                        self.orders@,
                        at as int,
                    );
                }
                return Some(at);
            }
            at += 1;
        }
        None
    }

    /// Stores `order` in place of the one that has its identifier.
    fn store(&mut self, at: usize, order: Order)
        requires
            at < old(self).orders@.len(),
            order.id == old(self).orders@[at as int].id,
            order.wf(old(self).lp_fee_bps),
        ensures
            final(self)@ == old(self)@.put(order),
            final(self)@.wf(),
    {
        proof {
            use_type_invariant(&*self);
            EscrowState::lemma_holding_replaced(
                self.owner,
                self.paused,
                self.next_order_id,
                self.lp_fee_bps,
                self.orders@,
                at as int,
                order,
            );
            EscrowState::lemma_holding_is_wf(
                self.owner,
                self.paused,
                self.next_order_id,
                self.lp_fee_bps,
                self.orders@.update(at as int, order),
            );
        }
        // The list is taken out while it is written to and put back whole.
        let mut orders: Vec<Order> = Vec::new();
        core::mem::swap(&mut self.orders, &mut orders);
        orders[at] = order;
        self.orders = orders;
    }

    /// Lists `order`, which takes the next identifier.
    fn append(&mut self, order: Order)
        requires
            old(self).next_order_id < u64::MAX,
            order.id == old(self).next_order_id,
            order.wf(old(self).lp_fee_bps),
        ensures
            final(self)@ == (EscrowState {
                next_order_id: (old(self).next_order_id + 1) as u64,
                ..old(self)@.put(order)
            }),
            final(self)@.wf(),
    {
        proof {
            use_type_invariant(&*self);
            EscrowState::lemma_holding_appended(
                self.owner,
                self.paused,
                self.next_order_id,
                self.lp_fee_bps,
                self.orders@,
                order,
            );
            EscrowState::lemma_holding_is_wf(
                self.owner,
                self.paused,
                (self.next_order_id + 1) as u64,
                self.lp_fee_bps,
                self.orders@,
            );
            EscrowState::lemma_holding_is_wf(
                self.owner,
                self.paused,
                (self.next_order_id + 1) as u64,
                self.lp_fee_bps,
                self.orders@.push(order),
            );
        }
        self.next_order_id = self.next_order_id + 1;
        // The list is taken out while it is written to and put back whole.
        let mut orders: Vec<Order> = Vec::new();
        core::mem::swap(&mut self.orders, &mut orders);
        orders.push(order);
        self.orders = orders;
    }

    /// Writes the pause flag.
    fn set_paused(&mut self, paused: bool)
        ensures
            final(self)@ == (EscrowState { paused, ..old(self)@ }),
            final(self)@.wf(),
    {
        proof {
            use_type_invariant(&*self);
            EscrowState::lemma_holding_is_wf(
                self.owner,
                paused,
                self.next_order_id,
                self.lp_fee_bps,
                self.orders@,
            );
        }
        self.paused = paused;
    }

    /// A new escrow without orders, not paused, owned by `owner`, charging
    /// `lp_fee_bps` basis points.
    pub fn new(owner: AccountId, lp_fee_bps: u16) -> (escrow: Self)
        ensures
            escrow@ == EscrowState::init(owner, lp_fee_bps),
            escrow@.wf(),
            escrow@.is_complete(),
    {
        proof {
            let none = Seq::<Order>::empty();
            EscrowState::lemma_holding_is_wf(owner, false, 1, lp_fee_bps, none);
            assert(EscrowState::holding(owner, false, 1, lp_fee_bps, none).orders =~= Map::empty());
        }
        PolkaPayEscrow { owner, paused: false, next_order_id: 1, orders: Vec::new(), lp_fee_bps }
    }

    /// Rebuilds an escrow from what was read out of one: its owner, pause
    /// flag, next identifier and fee rate, and the orders at hand, listed by
    /// rising identifier. These may be all orders of the escrow or some of
    /// them; a call then finds those that were brought. `None` means that
    /// `orders` is no such list.
    pub fn restore(
        owner: AccountId,
        paused: bool,
        next_order_id: u64,
        lp_fee_bps: u16,
        orders: Vec<Order>,
    ) -> (escrow: Option<Self>)
        ensures
            escrow is Some <==> EscrowState::is_ledger(orders@, next_order_id, lp_fee_bps),
            escrow is Some ==> escrow->Some_0@.wf() && escrow->Some_0@ == EscrowState::holding(
                owner,
                paused,
                next_order_id,
                lp_fee_bps,
                orders@,
            ),
    {
        if next_order_id == 0 {
            return None;
        }
        let mut i: usize = 0;
        while i < orders.len()
            invariant
                i <= orders@.len(),
                next_order_id >= 1,
                forall|j: int|
                    0 <= j < i ==> 1 <= (#[trigger] orders@[j]).id < next_order_id && orders@[j].wf(
                        lp_fee_bps,
                    ),
                forall|j: int, k: int|
                    0 <= j < k < i ==> (#[trigger] orders@[j]).id < (#[trigger] orders@[k]).id,
            decreases orders@.len() - i,
        {
            let order = &orders[i];
            if order.id == 0 || order.id >= next_order_id || !order.is_wf(lp_fee_bps) {
                return None;
            }
            if i > 0 && orders[i - 1].id >= order.id {
                assert(!(orders@[i - 1].id < orders@[i as int].id));
                return None;
            }
            proof {
                assert forall|j: int, k: int| 0 <= j < k < i + 1 implies (#[trigger] orders@[j]).id
                    < (#[trigger] orders@[k]).id by {
                    if k == i && j < i - 1 {
                        assert(orders@[j].id < orders@[i - 1].id);
                    }
                }
            }
            i += 1;
        }
        proof {
            EscrowState::lemma_holding_is_wf(owner, paused, next_order_id, lp_fee_bps, orders@);
        }
        Some(PolkaPayEscrow { owner, paused, next_order_id, orders, lp_fee_bps })
    }

    /// The order stored under `order_id`.
    pub fn get_order(&self, order_id: u64) -> (found: Option<Order>)
        ensures
            self@.wf(),
            found == self@.order(order_id),
    {
        match self.slot(order_id) {
            Some(at) => Some(self.orders[at]),
            None => None,
        }
    }

    /// Whether the escrow is paused.
    pub fn is_paused(&self) -> (paused: bool)
        ensures
            self@.wf(),
            paused == self@.paused,
    {
        proof {
            use_type_invariant(self);
        }
        self.paused
    }

    /// The arbitrator and recipient of fees.
    pub fn owner(&self) -> (owner: AccountId)
        ensures
            self@.wf(),
            owner == self@.owner,
    {
        proof {
            use_type_invariant(self);
        }
        self.owner
    }

    /// The fee rate in basis points.
    pub fn lp_fee_bps(&self) -> (bps: u16)
        ensures
            bps == self@.lp_fee_bps,
    {
        self.lp_fee_bps
    }

    /// The identifier that the next created order receives.
    pub fn next_order_id(&self) -> (id: u64)
        ensures
            id == self@.next_order_id,
    {
        self.next_order_id
    }

    /// Sets the pause flag. Only the owner may.
    pub fn pause(&mut self, caller: AccountId) -> (res: Result<(), Error>)
        ensures
            old(self)@.wf(),
            final(self)@.wf(),
            (final(self)@, res) == old(self)@.set_paused(caller, true),
    {
        if caller != self.owner() {
            return Err(Error::Unauthorized);
        }
        self.set_paused(true);
        Ok(())
    }

    /// Clears the pause flag. Only the owner may.
    pub fn unpause(&mut self, caller: AccountId) -> (res: Result<(), Error>)
        ensures
            old(self)@.wf(),
            final(self)@.wf(),
            (final(self)@, res) == old(self)@.set_paused(caller, false),
    {
        if caller != self.owner() {
            return Err(Error::Unauthorized);
        }
        self.set_paused(false);
        Ok(())
    }

    /// Creates an order for `caller` and returns its notification, which
    /// carries the new identifier. A Sell order takes its deposit now, so
    /// `value` must be positive and fixes the amount and the fee; a Buy order
    /// takes none, so `value` must be zero.
    pub fn create_order(
        &mut self,
        caller: AccountId,
        value: Balance,
        now: u64,
        order_type: OrderType,
    ) -> (res: Result<OrderCreated, Error>)
        ensures
            old(self)@.wf(),
            final(self)@.wf(),
            (final(self)@, res) == old(self)@.create_order(caller, value, now, order_type),
    {
        if self.is_paused() {
            return Err(Error::ContractPaused);
        }
        if order_type == OrderType::Sell && value == 0 {
            return Err(Error::InsufficientBalance);
        }
        if order_type == OrderType::Buy && value != 0 {
            return Err(Error::InvalidAmount);
        }
        let lp_fee = match order_type {
            OrderType::Sell => match fee(value, self.lp_fee_bps) {
                Some(lp_fee) => lp_fee,
                None => return Err(Error::InsufficientBalance),
            },
            OrderType::Buy => 0,
        };
        let order_id = self.next_order_id;
        if order_id == u64::MAX {
            return Err(Error::InsufficientBalance);
        }
        self.append(
            Order {
                id: order_id,
                order_type,
                buyer: caller,
                seller: None,
                amount: value,
                lp_fee,
                status: OrderStatus::Pending,
                created_at: now,
            },
        );
        Ok(OrderCreated { order_id, buyer: caller, amount: value })
    }

    /// Accepts the pending Sell order `order_id`: `caller` becomes its seller.
    /// The deposit is already in custody.
    pub fn accept_order(&mut self, caller: AccountId, order_id: u64) -> (res: Result<
        OrderAccepted,
        Error,
    >)
        ensures
            old(self)@.wf(),
            final(self)@.wf(),
            (final(self)@, res) == old(self)@.accept_order(caller, order_id),
    {
        if self.is_paused() {
            return Err(Error::ContractPaused);
        }
        let at = match self.slot(order_id) {
            Some(at) => at,
            None => return Err(Error::OrderNotFound),
        };
        let order = self.orders[at];
        if order.order_type != OrderType::Sell {
            return Err(Error::InvalidOrderType);
        }
        if order.status != OrderStatus::Pending {
            return Err(Error::InvalidStatus);
        }
        self.store(at, Order { seller: Some(caller), status: OrderStatus::Accepted, ..order });
        Ok(OrderAccepted { order_id, seller: caller })
    }

    /// Accepts the pending Buy order `order_id` with a deposit of `value`:
    /// `caller` becomes its seller, and the deposit fixes the amount and the
    /// fee.
    pub fn accept_buy_order(&mut self, caller: AccountId, value: Balance, order_id: u64) -> (res:
        Result<OrderAccepted, Error>)
        ensures
            old(self)@.wf(),
            final(self)@.wf(),
            (final(self)@, res) == old(self)@.accept_buy_order(caller, value, order_id),
    {
        if self.is_paused() {
            return Err(Error::ContractPaused);
        }
        let at = match self.slot(order_id) {
            Some(at) => at,
            None => return Err(Error::OrderNotFound),
        };
        let order = self.orders[at];
        if order.order_type != OrderType::Buy {
            return Err(Error::InvalidOrderType);
        }
        if order.status != OrderStatus::Pending {
            return Err(Error::InvalidStatus);
        }
        if value == 0 {
            return Err(Error::InsufficientBalance);
        }
        let lp_fee = match fee(value, self.lp_fee_bps) {
            Some(lp_fee) => lp_fee,
            None => return Err(Error::InsufficientBalance),
        };
        self.store(
            at,
            Order {
                seller: Some(caller),
                amount: value,
                lp_fee,
                status: OrderStatus::Accepted,
                ..order
            },
        );
        Ok(OrderAccepted { order_id, seller: caller })
    }

    /// Records that the buyer has sent the off-band payment for the accepted
    /// order `order_id`. Only the buyer may.
    pub fn confirm_payment_sent(&mut self, caller: AccountId, order_id: u64) -> (res: Result<
        (),
        Error,
    >)
        ensures
            old(self)@.wf(),
            final(self)@.wf(),
            (final(self)@, res) == old(self)@.confirm_payment_sent(caller, order_id),
    {
        if self.is_paused() {
            return Err(Error::ContractPaused);
        }
        let at = match self.slot(order_id) {
            Some(at) => at,
            None => return Err(Error::OrderNotFound),
        };
        let order = self.orders[at];
        if order.buyer != caller {
            return Err(Error::Unauthorized);
        }
        if order.status != OrderStatus::Accepted {
            return Err(Error::InvalidStatus);
        }
        self.store(at, Order { status: OrderStatus::PaymentSent, ..order });
        Ok(())
    }

    /// Completes the order `order_id` once its payment was confirmed. Either
    /// party may. The status is committed before any funds move; the
    /// settlement pays the amount less the fee to the beneficiary and the fee
    /// to the owner.
    pub fn complete_order(&mut self, caller: AccountId, order_id: u64) -> (res: Result<
        Settlement,
        Error,
    >)
        ensures
            old(self)@.wf(),
            final(self)@.wf(),
            (final(self)@, settled(res)) == old(self)@.complete_order(caller, order_id),
    {
        if self.is_paused() {
            return Err(Error::ContractPaused);
        }
        let at = match self.slot(order_id) {
            Some(at) => at,
            None => return Err(Error::OrderNotFound),
        };
        let order = self.orders[at];
        if caller != order.buyer && Some(caller) != order.seller {
            return Err(Error::Unauthorized);
        }
        if order.status != OrderStatus::PaymentSent {
            return Err(Error::InvalidStatus);
        }
        if order.lp_fee > order.amount {
            return Err(Error::InsufficientBalance);
        }
        self.store(at, Order { status: OrderStatus::Completed, ..order });
        Ok(
            Settlement {
                transfers: payout_transfers(&order, self.owner),
                event: Event::OrderCompleted(OrderCompleted { order_id }),
            },
        )
    }

    /// Cancels the order `order_id` while nobody has accepted it. Only the
    /// buyer may. The status is committed before any funds move; the
    /// settlement returns the deposit of a Sell order and is empty for a Buy
    /// order, which has none yet.
    pub fn cancel_order(&mut self, caller: AccountId, order_id: u64) -> (res: Result<
        Settlement,
        Error,
    >)
        ensures
            old(self)@.wf(),
            final(self)@.wf(),
            (final(self)@, settled(res)) == old(self)@.cancel_order(caller, order_id),
    {
        if self.is_paused() {
            return Err(Error::ContractPaused);
        }
        let at = match self.slot(order_id) {
            Some(at) => at,
            None => return Err(Error::OrderNotFound),
        };
        let order = self.orders[at];
        if order.buyer != caller {
            return Err(Error::Unauthorized);
        }
        if order.status != OrderStatus::Pending {
            return Err(Error::InvalidStatus);
        }
        self.store(at, Order { status: OrderStatus::Cancelled, ..order });
        Ok(
            Settlement {
                transfers: refund_transfers(&order),
                event: Event::OrderCancelled(OrderCancelled { order_id }),
            },
        )
    }

    /// Opens a dispute over the order `order_id` once its payment was
    /// confirmed. Either party may.
    pub fn create_dispute(&mut self, caller: AccountId, order_id: u64) -> (res: Result<
        DisputeCreated,
        Error,
    >)
        ensures
            old(self)@.wf(),
            final(self)@.wf(),
            (final(self)@, res) == old(self)@.create_dispute(caller, order_id),
    {
        if self.is_paused() {
            return Err(Error::ContractPaused);
        }
        let at = match self.slot(order_id) {
            Some(at) => at,
            None => return Err(Error::OrderNotFound),
        };
        let order = self.orders[at];
        if caller != order.buyer && Some(caller) != order.seller {
            return Err(Error::Unauthorized);
        }
        if order.status != OrderStatus::PaymentSent {
            return Err(Error::InvalidStatus);
        }
        self.store(at, Order { status: OrderStatus::Disputed, ..order });
        Ok(DisputeCreated { order_id, initiator: caller })
    }

    /// Arbitrates the disputed order `order_id`. Only the owner may. A ruling
    /// for the buyer cancels the order and returns the deposit to whoever
    /// made it; a ruling against the buyer completes the order and pays as a
    /// completion does. The status is committed before any funds move.
    pub fn resolve_dispute(&mut self, caller: AccountId, order_id: u64, favor_buyer: bool) -> (res:
        Result<Settlement, Error>)
        ensures
            old(self)@.wf(),
            final(self)@.wf(),
            (final(self)@, settled(res)) == old(self)@.resolve_dispute(
                caller,
                order_id,
                favor_buyer,
            ),
    {
        if self.is_paused() {
            return Err(Error::ContractPaused);
        }
        if caller != self.owner {
            return Err(Error::Unauthorized);
        }
        let at = match self.slot(order_id) {
            Some(at) => at,
            None => return Err(Error::OrderNotFound),
        };
        let order = self.orders[at];
        if order.status != OrderStatus::Disputed {
            return Err(Error::InvalidStatus);
        }
        if order.lp_fee > order.amount {
            return Err(Error::InsufficientBalance);
        }
        let event = Event::DisputeResolved(DisputeResolved { order_id, favor_buyer });
        if favor_buyer {
            self.store(at, Order { status: OrderStatus::Cancelled, ..order });
            Ok(Settlement { transfers: refund_transfers(&order), event })
        } else {
            self.store(at, Order { status: OrderStatus::Completed, ..order });
            Ok(Settlement { transfers: payout_transfers(&order, self.owner), event })
        }
    }
}

} // verus!
