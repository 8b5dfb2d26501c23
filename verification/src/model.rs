//! The escrow as a mathematical state machine.
//!
//! Every operation is described by two functions of the state before it: the
//! reason for which it is refused, if any, and the state that it leaves when
//! it is not. A refused operation changes nothing.

use vstd::prelude::*;
use crate::account::AccountId;
use crate::events::{
    DisputeCreated, DisputeResolved, Event, OrderAccepted, OrderCancelled, OrderCompleted,
    OrderCreated,
};
use crate::fee::{fee_fits, fee_of, Balance};
use crate::order::{Error, Order, OrderStatus, OrderType};
use crate::settlement::{payout, refund, SettlementView};

verus! {

/// The whole state of one escrow.
pub struct EscrowState {
    /// The arbitrator and recipient of fees, fixed at construction.
    pub owner: AccountId,
    /// While set, every mutating operation is refused.
    pub paused: bool,
    /// The identifier that the next created order receives.
    pub next_order_id: u64,
    /// The fee rate in basis points, fixed at construction.
    pub lp_fee_bps: u16,
    /// The orders at hand, by identifier: every order ever created, or
    /// those of them that were brought.
    pub orders: Map<u64, Order>,
}

impl EscrowState {
    /// Identifiers are handed out in sequence from one, every order at hand
    /// is stored under its own identifier, which is one that was handed out,
    /// and every order is well formed.
    pub open spec fn wf(self) -> bool {
        &&& self.next_order_id >= 1
        &&& forall|id: u64| #[trigger]
            self.orders.contains_key(id) ==> {
                &&& 1 <= id < self.next_order_id
                &&& self.orders[id].id == id
                &&& self.orders[id].wf(self.lp_fee_bps)
            }
    }

    /// Whether every order that was ever created is at hand. A state may
    /// hold the orders of an escrow in part, those that a call is about;
    /// an escrow that keeps its orders itself holds all of them.
    pub open spec fn is_complete(self) -> bool {
        forall|id: u64| 1 <= id < self.next_order_id ==> self.orders.contains_key(id)
    }

    /// Whether `orders` can be orders of an escrow that charges `lp_fee_bps`
    /// basis points and hands out `next_order_id` next: each well formed and
    /// under an identifier that was handed out, listed by rising identifier.
    pub open spec fn is_ledger(orders: Seq<Order>, next_order_id: u64, lp_fee_bps: u16) -> bool {
        &&& next_order_id >= 1
        &&& forall|i: int|
            0 <= i < orders.len() ==> 1 <= (#[trigger] orders[i]).id < next_order_id && orders[i].wf(
                lp_fee_bps,
            )
        &&& forall|i: int, j: int|
            0 <= i < j < orders.len() ==> (#[trigger] orders[i]).id < (#[trigger] orders[j]).id
    }

    /// Whether one of `orders` has the identifier `id`.
    pub open spec fn lists(orders: Seq<Order>, id: u64) -> bool {
        exists|i: int| 0 <= i < orders.len() && (#[trigger] orders[i]).id == id
    }

    /// The place in `orders` of the order with the identifier `id`.
    pub open spec fn place(orders: Seq<Order>, id: u64) -> int {
        choose|i: int| 0 <= i < orders.len() && (#[trigger] orders[i]).id == id
    }

    /// The state of an escrow with `orders` at hand.
    pub open spec fn holding(
        owner: AccountId,
        paused: bool,
        next_order_id: u64,
        lp_fee_bps: u16,
        orders: Seq<Order>,
    ) -> EscrowState {
        EscrowState {
            owner,
            paused,
            next_order_id,
            lp_fee_bps,
            orders: Map::new(
                |id: u64| Self::lists(orders, id),
                |id: u64| orders[Self::place(orders, id)],
            ),
        }
    }

    /// In a state that holds a list of orders, each of them is found under
    /// its identifier.
    pub proof fn lemma_holding_finds(
        owner: AccountId,
        paused: bool,
        next_order_id: u64,
        lp_fee_bps: u16,
        orders: Seq<Order>,
        i: int,
    )
        requires
            Self::is_ledger(orders, next_order_id, lp_fee_bps),
            0 <= i < orders.len(),
        ensures
            Self::holding(owner, paused, next_order_id, lp_fee_bps, orders).order(orders[i].id)
                == Some(orders[i]),
    {
        let id = orders[i].id;
        assert(Self::lists(orders, id));
        let p = Self::place(orders, id);
        assert(0 <= p < orders.len() && orders[p].id == id);
        if p < i {
            assert(orders[p].id < orders[i].id);
        } else if i < p {
            assert(orders[i].id < orders[p].id);
        }
    }

    /// A state that holds a list of orders is well formed.
    pub proof fn lemma_holding_is_wf(
        owner: AccountId,
        paused: bool,
        next_order_id: u64,
        lp_fee_bps: u16,
        orders: Seq<Order>,
    )
        requires
            Self::is_ledger(orders, next_order_id, lp_fee_bps),
        ensures
            Self::holding(owner, paused, next_order_id, lp_fee_bps, orders).wf(),
    {
        let s = Self::holding(owner, paused, next_order_id, lp_fee_bps, orders);
        assert forall|id: u64| #[trigger] s.orders.contains_key(id) implies 1 <= id
            < s.next_order_id && s.orders[id].id == id && s.orders[id].wf(s.lp_fee_bps) by {
            let p = Self::place(orders, id);
            assert(0 <= p < orders.len() && orders[p].id == id);
        }
    }

    /// Replacing one of the listed orders by a well-formed one with the same
    /// identifier stores that order in the state.
    pub proof fn lemma_holding_replaced(
        owner: AccountId,
        paused: bool,
        next_order_id: u64,
        lp_fee_bps: u16,
        orders: Seq<Order>,
        at: int,
        order: Order,
    )
        requires
            Self::is_ledger(orders, next_order_id, lp_fee_bps),
            0 <= at < orders.len(),
            order.id == orders[at].id,
            order.wf(lp_fee_bps),
        ensures
            Self::is_ledger(orders.update(at, order), next_order_id, lp_fee_bps),
            Self::holding(owner, paused, next_order_id, lp_fee_bps, orders.update(at, order))
                == Self::holding(owner, paused, next_order_id, lp_fee_bps, orders).put(order),
    {
        let after = orders.update(at, order);
        assert forall|i: int| 0 <= i < after.len() implies (#[trigger] after[i]).id == orders[i].id by {}
        assert(Self::is_ledger(after, next_order_id, lp_fee_bps)) by {
            assert forall|i: int, j: int| 0 <= i < j < after.len() implies (#[trigger] after[i]).id
                < (#[trigger] after[j]).id by {
                assert(orders[i].id < orders[j].id);
            }
        }
        let s = Self::holding(owner, paused, next_order_id, lp_fee_bps, orders);
        let t = Self::holding(owner, paused, next_order_id, lp_fee_bps, after);
        assert forall|id: u64| t.orders.contains_key(id) == s.put(order).orders.contains_key(
            id,
        ) by {
            if Self::lists(after, id) {
                let p = Self::place(after, id);
                assert(orders[p].id == id);
            }
            if Self::lists(orders, id) {
                let p = Self::place(orders, id);
                assert(after[p].id == id);
            }
            if id == order.id {
                assert(after[at].id == id);
            }
        }
        assert forall|id: u64| t.orders.contains_key(id) implies t.orders[id] == s.put(
            order,
        ).orders[id] by {
            let p = Self::place(after, id);
            assert(0 <= p < after.len() && after[p].id == id);
            Self::lemma_holding_finds(owner, paused, next_order_id, lp_fee_bps, after, p);
            if id == order.id {
                Self::lemma_holding_finds(owner, paused, next_order_id, lp_fee_bps, after, at);
            } else {
                assert(p != at);
                assert(orders[p] == after[p]);
                Self::lemma_holding_finds(owner, paused, next_order_id, lp_fee_bps, orders, p);
            }
        }
        assert(t.orders =~= s.put(order).orders);
    }

    /// Listing one more order, under the identifier that is next, stores it
    /// in the state and moves the next identifier on by one.
    pub proof fn lemma_holding_appended(
        owner: AccountId,
        paused: bool,
        next_order_id: u64,
        lp_fee_bps: u16,
        orders: Seq<Order>,
        order: Order,
    )
        requires
            Self::is_ledger(orders, next_order_id, lp_fee_bps),
            next_order_id < u64::MAX,
            order.id == next_order_id,
            order.wf(lp_fee_bps),
        ensures
            Self::is_ledger(orders, (next_order_id + 1) as u64, lp_fee_bps),
            Self::is_ledger(orders.push(order), (next_order_id + 1) as u64, lp_fee_bps),
            Self::holding(
                owner,
                paused,
                (next_order_id + 1) as u64,
                lp_fee_bps,
                orders.push(order),
            ) == (EscrowState {
                next_order_id: (next_order_id + 1) as u64,
                ..Self::holding(owner, paused, next_order_id, lp_fee_bps, orders).put(order)
            }),
    {
        let next = (next_order_id + 1) as u64;
        let after = orders.push(order);
        assert forall|i: int| 0 <= i < orders.len() implies (#[trigger] after[i]) == orders[i] by {}
        assert(after[orders.len() as int] == order);
        assert(Self::is_ledger(after, next, lp_fee_bps)) by {
            assert forall|i: int, j: int| 0 <= i < j < after.len() implies (#[trigger] after[i]).id
                < (#[trigger] after[j]).id by {
                if j < orders.len() {
                    assert(orders[i].id < orders[j].id);
                } else {
                    assert(orders[i].id < next_order_id);
                }
            }
        }
        let s = Self::holding(owner, paused, next_order_id, lp_fee_bps, orders);
        let t = Self::holding(owner, paused, next, lp_fee_bps, after);
        assert forall|id: u64| t.orders.contains_key(id) == s.put(order).orders.contains_key(
            id,
        ) by {
            if Self::lists(after, id) {
                let p = Self::place(after, id);
                if p < orders.len() {
                    assert(orders[p].id == id);
                }
            }
            if Self::lists(orders, id) {
                let p = Self::place(orders, id);
                assert(after[p].id == id);
            }
            if id == order.id {
                assert(after[orders.len() as int].id == id);
            }
        }
        assert forall|id: u64| t.orders.contains_key(id) implies t.orders[id] == s.put(
            order,
        ).orders[id] by {
            let p = Self::place(after, id);
            assert(0 <= p < after.len() && after[p].id == id);
            Self::lemma_holding_finds(owner, paused, next, lp_fee_bps, after, p);
            if id == order.id {
                Self::lemma_holding_finds(
                    owner,
                    paused,
                    next,
                    lp_fee_bps,
                    after,
                    orders.len() as int,
                );
            } else {
                assert(p < orders.len());
                Self::lemma_holding_finds(owner, paused, next_order_id, lp_fee_bps, orders, p);
            }
        }
        assert(t.orders =~= s.put(order).orders);
    }

    /// The state of a new escrow owned by `owner`.
    pub open spec fn init(owner: AccountId, lp_fee_bps: u16) -> EscrowState {
        EscrowState { owner, paused: false, next_order_id: 1, lp_fee_bps, orders: Map::empty() }
    }

    /// The order stored under `id`, if there is one.
    pub open spec fn order(self, id: u64) -> Option<Order> {
        if self.orders.contains_key(id) {
            Some(self.orders[id])
        } else {
            None
        }
    }

    /// This state with `order` stored under its identifier.
    pub open spec fn put(self, order: Order) -> EscrowState {
        EscrowState { orders: self.orders.insert(order.id, order), ..self }
    }

    /// This state with the order under `id` moved to `status`.
    pub open spec fn with_status(self, id: u64, status: OrderStatus) -> EscrowState {
        self.put(Order { status, ..self.orders[id] })
    }

    // ----- create_order -----

    /// Why creating an order of `order_type` with `value` attached is refused.
    pub open spec fn create_order_refusal(self, value: Balance, order_type: OrderType) -> Option<
        Error,
    > {
        if self.paused {
            Some(Error::ContractPaused)
        } else if order_type == OrderType::Sell && value == 0 {
            Some(Error::InsufficientBalance)
        } else if order_type == OrderType::Buy && value != 0 {
            Some(Error::InvalidAmount)
        } else if order_type == OrderType::Sell && !fee_fits(value, self.lp_fee_bps) {
            Some(Error::InsufficientBalance)
        } else if self.next_order_id == u64::MAX {
            Some(Error::InsufficientBalance)
        } else {
            None
        }
    }

    /// The order that a successful creation stores. A Sell order fixes its
    /// amount and fee at once; a Buy order starts with neither.
    pub open spec fn new_order(
        self,
        caller: AccountId,
        value: Balance,
        now: u64,
        order_type: OrderType,
    ) -> Order {
        Order {
            id: self.next_order_id,
            order_type,
            buyer: caller,
            seller: None,
            amount: value,
            lp_fee: fee_of(value as int, self.lp_fee_bps as int) as Balance,
            status: OrderStatus::Pending,
            created_at: now,
        }
    }

    pub open spec fn create_order(
        self,
        caller: AccountId,
        value: Balance,
        now: u64,
        order_type: OrderType,
    ) -> (EscrowState, Result<OrderCreated, Error>) {
        match self.create_order_refusal(value, order_type) {
            Some(e) => (self, Err(e)),
            None => (
                EscrowState {
                    next_order_id: (self.next_order_id + 1) as u64,
                    ..self.put(self.new_order(caller, value, now, order_type))
                },
                Ok(OrderCreated { order_id: self.next_order_id, buyer: caller, amount: value }),
            ),
        }
    }

    // ----- accept_order, accept_buy_order -----

    /// Why accepting the Sell order `id` is refused.
    pub open spec fn accept_order_refusal(self, id: u64) -> Option<Error> {
        if self.paused {
            Some(Error::ContractPaused)
        } else if !self.orders.contains_key(id) {
            Some(Error::OrderNotFound)
        } else if self.orders[id].order_type != OrderType::Sell {
            Some(Error::InvalidOrderType)
        } else if self.orders[id].status != OrderStatus::Pending {
            Some(Error::InvalidStatus)
        } else {
            None
        }
    }

    pub open spec fn accept_order(self, caller: AccountId, id: u64) -> (
        EscrowState,
        Result<OrderAccepted, Error>,
    ) {
        match self.accept_order_refusal(id) {
            Some(e) => (self, Err(e)),
            None => (
                self.put(
                    Order { seller: Some(caller), status: OrderStatus::Accepted, ..self.orders[id] },
                ),
                Ok(OrderAccepted { order_id: id, seller: caller }),
            ),
        }
    }

    /// Why accepting the Buy order `id` with a deposit of `value` is refused.
    pub open spec fn accept_buy_order_refusal(self, value: Balance, id: u64) -> Option<Error> {
        if self.paused {
            Some(Error::ContractPaused)
        } else if !self.orders.contains_key(id) {
            Some(Error::OrderNotFound)
        } else if self.orders[id].order_type != OrderType::Buy {
            Some(Error::InvalidOrderType)
        } else if self.orders[id].status != OrderStatus::Pending {
            Some(Error::InvalidStatus)
        } else if value == 0 {
            Some(Error::InsufficientBalance)
        } else if !fee_fits(value, self.lp_fee_bps) {
            Some(Error::InsufficientBalance)
        } else {
            None
        }
    }

    pub open spec fn accept_buy_order(self, caller: AccountId, value: Balance, id: u64) -> (
        EscrowState,
        Result<OrderAccepted, Error>,
    ) {
        match self.accept_buy_order_refusal(value, id) {
            Some(e) => (self, Err(e)),
            None => (
                self.put(
                    Order {
                        seller: Some(caller),
                        amount: value,
                        lp_fee: fee_of(value as int, self.lp_fee_bps as int) as Balance,
                        status: OrderStatus::Accepted,
                        ..self.orders[id]
                    },
                ),
                Ok(OrderAccepted { order_id: id, seller: caller }),
            ),
        }
    }

    // ----- confirm_payment_sent -----

    /// Why the buyer's confirmation of the off-band payment is refused.
    pub open spec fn confirm_payment_sent_refusal(self, caller: AccountId, id: u64) -> Option<
        Error,
    > {
        if self.paused {
            Some(Error::ContractPaused)
        } else if !self.orders.contains_key(id) {
            Some(Error::OrderNotFound)
        } else if self.orders[id].buyer != caller {
            Some(Error::Unauthorized)
        } else if self.orders[id].status != OrderStatus::Accepted {
            Some(Error::InvalidStatus)
        } else {
            None
        }
    }

    pub open spec fn confirm_payment_sent(self, caller: AccountId, id: u64) -> (
        EscrowState,
        Result<(), Error>,
    ) {
        match self.confirm_payment_sent_refusal(caller, id) {
            Some(e) => (self, Err(e)),
            None => (self.with_status(id, OrderStatus::PaymentSent), Ok(())),
        }
    }

    // ----- complete_order -----

    /// Why releasing the funds of order `id` is refused. Only a party to the
    /// order is heard at all; a party is then told whether the order stands
    /// where a release is due.
    pub open spec fn complete_order_refusal(self, caller: AccountId, id: u64) -> Option<Error> {
        if self.paused {
            Some(Error::ContractPaused)
        } else if !self.orders.contains_key(id) {
            Some(Error::OrderNotFound)
        } else if !self.orders[id].is_party(caller) {
            Some(Error::Unauthorized)
        } else if self.orders[id].status != OrderStatus::PaymentSent {
            Some(Error::InvalidStatus)
        } else if self.orders[id].lp_fee > self.orders[id].amount {
            Some(Error::InsufficientBalance)
        } else {
            None
        }
    }

    pub open spec fn complete_order(self, caller: AccountId, id: u64) -> (
        EscrowState,
        Result<SettlementView, Error>,
    ) {
        match self.complete_order_refusal(caller, id) {
            Some(e) => (self, Err(e)),
            None => (
                self.with_status(id, OrderStatus::Completed),
                Ok(
                    SettlementView {
                        transfers: payout(self.orders[id], self.owner),
                        event: Event::OrderCompleted(OrderCompleted { order_id: id }),
                    },
                ),
            ),
        }
    }

    // ----- cancel_order -----

    /// Why cancelling order `id` is refused.
    pub open spec fn cancel_order_refusal(self, caller: AccountId, id: u64) -> Option<Error> {
        if self.paused {
            Some(Error::ContractPaused)
        } else if !self.orders.contains_key(id) {
            Some(Error::OrderNotFound)
        } else if self.orders[id].buyer != caller {
            Some(Error::Unauthorized)
        } else if self.orders[id].status != OrderStatus::Pending {
            Some(Error::InvalidStatus)
        } else {
            None
        }
    }

    pub open spec fn cancel_order(self, caller: AccountId, id: u64) -> (
        EscrowState,
        Result<SettlementView, Error>,
    ) {
        match self.cancel_order_refusal(caller, id) {
            Some(e) => (self, Err(e)),
            None => (
                self.with_status(id, OrderStatus::Cancelled),
                Ok(
                    SettlementView {
                        transfers: refund(self.orders[id]),
                        event: Event::OrderCancelled(OrderCancelled { order_id: id }),
                    },
                ),
            ),
        }
    }

    // ----- pause, unpause -----

    /// Why setting or clearing the pause flag is refused.
    pub open spec fn set_paused_refusal(self, caller: AccountId) -> Option<Error> {
        if caller != self.owner {
            Some(Error::Unauthorized)
        } else {
            None
        }
    }

    pub open spec fn set_paused(self, caller: AccountId, paused: bool) -> (
        EscrowState,
        Result<(), Error>,
    ) {
        match self.set_paused_refusal(caller) {
            Some(e) => (self, Err(e)),
            None => (EscrowState { paused, ..self }, Ok(())),
        }
    }

    // ----- create_dispute, resolve_dispute -----

    /// Why opening a dispute over order `id` is refused.
    pub open spec fn create_dispute_refusal(self, caller: AccountId, id: u64) -> Option<Error> {
        if self.paused {
            Some(Error::ContractPaused)
        } else if !self.orders.contains_key(id) {
            Some(Error::OrderNotFound)
        } else if !self.orders[id].is_party(caller) {
            Some(Error::Unauthorized)
        } else if self.orders[id].status != OrderStatus::PaymentSent {
            Some(Error::InvalidStatus)
        } else {
            None
        }
    }

    pub open spec fn create_dispute(self, caller: AccountId, id: u64) -> (
        EscrowState,
        Result<DisputeCreated, Error>,
    ) {
        match self.create_dispute_refusal(caller, id) {
            Some(e) => (self, Err(e)),
            None => (
                self.with_status(id, OrderStatus::Disputed),
                Ok(DisputeCreated { order_id: id, initiator: caller }),
            ),
        }
    }

    /// Why the arbitration of order `id` is refused. The fee is held against
    /// the amount whichever way the ruling goes.
    pub open spec fn resolve_dispute_refusal(self, caller: AccountId, id: u64) -> Option<Error> {
        if self.paused {
            Some(Error::ContractPaused)
        } else if caller != self.owner {
            Some(Error::Unauthorized)
        } else if !self.orders.contains_key(id) {
            Some(Error::OrderNotFound)
        } else if self.orders[id].status != OrderStatus::Disputed {
            Some(Error::InvalidStatus)
        } else if self.orders[id].lp_fee > self.orders[id].amount {
            Some(Error::InsufficientBalance)
        } else {
            None
        }
    }

    /// A ruling for the buyer cancels the order and returns the deposit; a
    /// ruling against the buyer completes it and pays as a completion does.
    pub open spec fn resolve_dispute(self, caller: AccountId, id: u64, favor_buyer: bool) -> (
        EscrowState,
        Result<SettlementView, Error>,
    ) {
        match self.resolve_dispute_refusal(caller, id) {
            Some(e) => (self, Err(e)),
            None => (
                self.with_status(
                    id,
                    if favor_buyer {
                        OrderStatus::Cancelled
                    } else {
                        OrderStatus::Completed
                    },
                ),
                Ok(
                    SettlementView {
                        transfers: if favor_buyer {
                            refund(self.orders[id])
                        } else {
                            payout(self.orders[id], self.owner)
                        },
                        event: Event::DisputeResolved(DisputeResolved { order_id: id, favor_buyer }),
                    },
                ),
            ),
        }
    }
}

} // verus!
