//! What holds of the escrow in every state, proved over the state machine of
//! [`crate::model`].

use vstd::prelude::*;
use crate::account::AccountId;
use crate::events::{
    DisputeResolved, Event, OrderAccepted, OrderCancelled, OrderCompleted, OrderCreated,
};
use crate::fee::{fee_fits, fee_of, Balance};
use crate::model::EscrowState;
use crate::order::{Error, Order, OrderStatus, OrderType};
use crate::settlement::{payout, refund, total, SettlementView, Step, Transfer};

verus! {

/// Any one call of a mutating operation, with its arguments.
pub enum Call {
    CreateOrder { caller: AccountId, value: Balance, now: u64, order_type: OrderType },
    AcceptOrder { caller: AccountId, order_id: u64 },
    AcceptBuyOrder { caller: AccountId, value: Balance, order_id: u64 },
    ConfirmPaymentSent { caller: AccountId, order_id: u64 },
    CompleteOrder { caller: AccountId, order_id: u64 },
    CancelOrder { caller: AccountId, order_id: u64 },
    CreateDispute { caller: AccountId, order_id: u64 },
    ResolveDispute { caller: AccountId, order_id: u64, favor_buyer: bool },
    Pause { caller: AccountId },
    Unpause { caller: AccountId },
}

impl Call {
    /// Whether the call is one of the two that the owner uses to halt and
    /// resume the escrow.
    pub open spec fn is_pause_control(self) -> bool {
        self is Pause || self is Unpause
    }

    /// The order that the call names, if it names one.
    pub open spec fn order_id(self) -> Option<u64> {
        match self {
            Call::CreateOrder { .. } => None,
            Call::AcceptOrder { order_id, .. } => Some(order_id),
            Call::AcceptBuyOrder { order_id, .. } => Some(order_id),
            Call::ConfirmPaymentSent { order_id, .. } => Some(order_id),
            Call::CompleteOrder { order_id, .. } => Some(order_id),
            Call::CancelOrder { order_id, .. } => Some(order_id),
            Call::CreateDispute { order_id, .. } => Some(order_id),
            Call::ResolveDispute { order_id, .. } => Some(order_id),
            Call::Pause { .. } => None,
            Call::Unpause { .. } => None,
        }
    }

    /// The value that arrives with the call as a deposit.
    pub open spec fn deposit(self) -> int {
        match self {
            Call::CreateOrder { value, .. } => value as int,
            Call::AcceptBuyOrder { value, .. } => value as int,
            _ => 0,
        }
    }
}

/// The state that `call` leaves when made in state `s`.
pub open spec fn after(s: EscrowState, call: Call) -> EscrowState {
    match call {
        Call::CreateOrder { caller, value, now, order_type } => s.create_order(
            caller,
            value,
            now,
            order_type,
        ).0,
        Call::AcceptOrder { caller, order_id } => s.accept_order(caller, order_id).0,
        Call::AcceptBuyOrder { caller, value, order_id } => s.accept_buy_order(
            caller,
            value,
            order_id,
        ).0,
        Call::ConfirmPaymentSent { caller, order_id } => s.confirm_payment_sent(caller, order_id).0,
        Call::CompleteOrder { caller, order_id } => s.complete_order(caller, order_id).0,
        Call::CancelOrder { caller, order_id } => s.cancel_order(caller, order_id).0,
        Call::CreateDispute { caller, order_id } => s.create_dispute(caller, order_id).0,
        Call::ResolveDispute { caller, order_id, favor_buyer } => s.resolve_dispute(
            caller,
            order_id,
            favor_buyer,
        ).0,
        Call::Pause { caller } => s.set_paused(caller, true).0,
        Call::Unpause { caller } => s.set_paused(caller, false).0,
    }
}

/// The error with which `call` is refused in state `s`, if it is.
pub open spec fn refusal(s: EscrowState, call: Call) -> Option<Error> {
    match call {
        Call::CreateOrder { caller, value, now, order_type } => s.create_order_refusal(
            value,
            order_type,
        ),
        Call::AcceptOrder { caller, order_id } => s.accept_order_refusal(order_id),
        Call::AcceptBuyOrder { caller, value, order_id } => s.accept_buy_order_refusal(
            value,
            order_id,
        ),
        Call::ConfirmPaymentSent { caller, order_id } => s.confirm_payment_sent_refusal(
            caller,
            order_id,
        ),
        Call::CompleteOrder { caller, order_id } => s.complete_order_refusal(caller, order_id),
        Call::CancelOrder { caller, order_id } => s.cancel_order_refusal(caller, order_id),
        Call::CreateDispute { caller, order_id } => s.create_dispute_refusal(caller, order_id),
        Call::ResolveDispute { caller, order_id, favor_buyer } => s.resolve_dispute_refusal(
            caller,
            order_id,
        ),
        Call::Pause { caller } => s.set_paused_refusal(caller),
        Call::Unpause { caller } => s.set_paused_refusal(caller),
    }
}

// ----- the fee -----

/// The fee is the quotient rounded down: it never exceeds the exact share,
/// and one unit more would.
pub proof fn lemma_fee_rounds_down(amount: Balance, bps: u16)
    ensures
        0 <= fee_of(amount as int, bps as int),
        fee_of(amount as int, bps as int) * 10000 <= amount * bps,
        amount * bps < (fee_of(amount as int, bps as int) + 1) * 10000,
{
    let p: int = amount * bps;
    assert(0 <= p) by (nonlinear_arith)
        requires
            p == amount * bps,
            0 <= amount,
            0 <= bps,
    ;
    let f: int = p / 10000;
    assert(0 <= f && f * 10000 <= p < (f + 1) * 10000) by (nonlinear_arith)
        requires
            f == p / 10000,
            0 <= p,
    ;
}

/// At a rate of at most one hundred percent the fee does not exceed the
/// amount.
pub proof fn lemma_fee_within_amount(amount: Balance, bps: u16)
    requires
        bps <= 10000,
    ensures
        fee_of(amount as int, bps as int) <= amount,
{
    let p: int = amount * bps;
    assert(0 <= p <= amount * 10000) by (nonlinear_arith)
        requires
            p == amount * bps,
            0 <= amount,
            0 <= bps <= 10000,
    ;
    assert(p / 10000 <= amount) by (nonlinear_arith)
        requires
            0 <= p <= amount * 10000,
    ;
}

// ----- every call -----

/// A refused call changes nothing.
pub proof fn lemma_refused_call_changes_nothing(s: EscrowState, call: Call)
    requires
        refusal(s, call) is Some,
    ensures
        after(s, call) == s,
{
}

/// Every call leaves a well-formed state well formed.
pub proof fn lemma_call_preserves_wf(s: EscrowState, call: Call)
    requires
        s.wf(),
    ensures
        after(s, call).wf(),
{
    let t = after(s, call);
    match call {
        Call::CreateOrder { caller, value, now, order_type } => if refusal(s, call) is None {
            let o = s.new_order(caller, value, now, order_type);
            assert(o.wf(s.lp_fee_bps)) by {
                if order_type == OrderType::Buy {
                    assert(fee_of(0, s.lp_fee_bps as int) == 0);
                } else {
                    lemma_fee_rounds_down(value, s.lp_fee_bps);
                }
            }
            assert forall|id: u64| #[trigger] t.orders.contains_key(id) implies 1 <= id
                < t.next_order_id && t.orders[id].id == id && t.orders[id].wf(t.lp_fee_bps) by {
                if id != s.next_order_id {
                    assert(s.orders.contains_key(id));
                }
            }
        },
        Call::AcceptOrder { caller, order_id } => if refusal(s, call) is None {
            lemma_put_preserves_wf(
                s,
                Order {
                    seller: Some(caller),
                    status: OrderStatus::Accepted,
                    ..s.orders[order_id]
                },
            );
        },
        Call::AcceptBuyOrder { caller, value, order_id } => if refusal(s, call) is None {
            lemma_fee_rounds_down(value, s.lp_fee_bps);
            lemma_put_preserves_wf(
                s,
                Order {
                    seller: Some(caller),
                    amount: value,
                    lp_fee: fee_of(value as int, s.lp_fee_bps as int) as Balance,
                    status: OrderStatus::Accepted,
                    ..s.orders[order_id]
                },
            );
        },
        Call::ConfirmPaymentSent { caller, order_id } => if refusal(s, call) is None {
            lemma_put_preserves_wf(
                s,
                Order { status: OrderStatus::PaymentSent, ..s.orders[order_id] },
            );
        },
        Call::CompleteOrder { caller, order_id } => if refusal(s, call) is None {
            lemma_put_preserves_wf(
                s,
                Order { status: OrderStatus::Completed, ..s.orders[order_id] },
            );
        },
        Call::CancelOrder { caller, order_id } => if refusal(s, call) is None {
            lemma_put_preserves_wf(
                s,
                Order { status: OrderStatus::Cancelled, ..s.orders[order_id] },
            );
        },
        Call::CreateDispute { caller, order_id } => if refusal(s, call) is None {
            lemma_put_preserves_wf(
                s,
                Order { status: OrderStatus::Disputed, ..s.orders[order_id] },
            );
        },
        Call::ResolveDispute { caller, order_id, favor_buyer } => if refusal(s, call) is None {
            lemma_put_preserves_wf(
                s,
                Order { status: OrderStatus::Cancelled, ..s.orders[order_id] },
            );
            lemma_put_preserves_wf(
                s,
                Order { status: OrderStatus::Completed, ..s.orders[order_id] },
            );
        },
        Call::Pause { caller } => {},
        Call::Unpause { caller } => {},
    }
}

/// Replacing a stored order by a well-formed one with the same identifier
/// keeps the state well formed.
pub proof fn lemma_put_preserves_wf(s: EscrowState, order: Order)
    requires
        s.wf(),
        s.orders.contains_key(order.id),
        order.wf(s.lp_fee_bps),
    ensures
        s.put(order).wf(),
{
    let t = s.put(order);
    assert forall|id: u64| #[trigger] t.orders.contains_key(id) implies 1 <= id < t.next_order_id
        && t.orders[id].id == id && t.orders[id].wf(t.lp_fee_bps) by {
        if id != order.id {
            assert(s.orders.contains_key(id));
        }
    }
}

/// No call is refused with `TransferFailed`: that error can only arise while
/// a settlement is carried out, after the status was committed.
pub proof fn lemma_no_call_is_refused_for_a_transfer(s: EscrowState, call: Call)
    ensures
        refusal(s, call) != Some(Error::TransferFailed),
{
}

/// A call never changes the owner or the fee rate; only a creation moves the
/// next identifier, and by one; only the pause controls move the pause flag;
/// and orders are never removed.
pub proof fn lemma_call_keeps_configuration(s: EscrowState, call: Call)
    requires
        s.wf(),
    ensures
        after(s, call).owner == s.owner,
        after(s, call).lp_fee_bps == s.lp_fee_bps,
        !call.is_pause_control() ==> after(s, call).paused == s.paused,
        after(s, call).next_order_id == s.next_order_id || (call is CreateOrder && after(
            s,
            call,
        ).next_order_id == s.next_order_id + 1),
        forall|id: u64| s.orders.contains_key(id) ==> after(s, call).orders.contains_key(id),
{
}

/// A call changes at most the one order that it names.
pub proof fn lemma_call_touches_one_order(s: EscrowState, call: Call, other: u64)
    requires
        s.wf(),
        s.orders.contains_key(other),
        call.order_id() != Some(other),
    ensures
        after(s, call).orders[other] == s.orders[other],
{
}

/// While the escrow is paused, every call but the pause controls is refused
/// with `ContractPaused`, before anything else is looked at, and changes
/// nothing.
pub proof fn lemma_paused_refuses_every_call(s: EscrowState, call: Call)
    requires
        s.paused,
        !call.is_pause_control(),
    ensures
        refusal(s, call) == Some(Error::ContractPaused),
        after(s, call) == s,
{
}

/// The pause controls succeed for the owner and for nobody else, whatever
/// the flag was; they set the flag and nothing else, so that repeating one
/// changes nothing more.
pub proof fn lemma_pause_controls_are_the_owners(s: EscrowState, caller: AccountId, paused: bool)
    ensures
        s.set_paused(caller, paused).1 is Ok <==> caller == s.owner,
        caller != s.owner ==> s.set_paused(caller, paused) == (s, Err::<(), Error>(Error::Unauthorized)),
        caller == s.owner ==> s.set_paused(caller, paused).0 == (EscrowState { paused, ..s }),
        caller == s.owner ==> s.set_paused(caller, paused).0.set_paused(caller, paused)
            == s.set_paused(caller, paused),
{
}

/// Once an order is `Completed` or `Cancelled`, no call changes it, and
/// every call that names it is refused: nothing is settled twice.
pub proof fn lemma_terminal_order_is_final(s: EscrowState, call: Call, id: u64)
    requires
        s.wf(),
        s.orders.contains_key(id),
        s.orders[id].status.is_terminal(),
    ensures
        after(s, call).orders[id] == s.orders[id],
        call.order_id() == Some(id) ==> refusal(s, call) is Some && after(s, call) == s,
{
}

/// A call that succeeds in settling an order leaves it `Completed` or
/// `Cancelled`, before any transfer is attempted.
pub proof fn lemma_settled_order_is_terminal(s: EscrowState, call: Call)
    requires
        s.wf(),
        call is CompleteOrder || call is CancelOrder || call is ResolveDispute,
        refusal(s, call) is None,
    ensures
        after(s, call).orders[call.order_id()->Some_0].status.is_terminal(),
{
}

/// What a call that names an order does to the order `id`: it leaves it as
/// it was unless it names it and succeeds.
proof fn lemma_call_on_named_order(s: EscrowState, call: Call, id: u64)
    requires
        s.wf(),
        s.orders.contains_key(id),
        call.order_id() is Some,
    ensures
        after(s, call).orders.contains_key(id),
        call.order_id() != Some(id) || refusal(s, call) is Some ==> after(s, call).orders[id]
            == s.orders[id],
{
}

/// A call moves the status of an order only along the lifecycle, and leaves
/// alone what is fixed: the identifier, the type, the buyer and the time of
/// creation always; the seller once there is one; the amount and the fee
/// once the deposit is in custody.
pub proof fn lemma_order_only_moves_forward(s: EscrowState, call: Call, id: u64)
    requires
        s.wf(),
        s.orders.contains_key(id),
    ensures
        after(s, call).orders.contains_key(id),
        ({
            let before = s.orders[id];
            let now = after(s, call).orders[id];
            &&& now.status == before.status || before.status.may_become(now.status)
            &&& now.id == before.id
            &&& now.order_type == before.order_type
            &&& now.buyer == before.buyer
            &&& now.created_at == before.created_at
            &&& before.seller is Some ==> now.seller == before.seller
            &&& now.seller != before.seller ==> before.status == OrderStatus::Pending && now.status
                == OrderStatus::Accepted
            &&& before.funded() ==> now.amount == before.amount && now.lp_fee == before.lp_fee
        }),
{
    let before = s.orders[id];
    assert(before.wf(s.lp_fee_bps));
    match call {
        Call::CreateOrder { caller, value, now, order_type } => {
            assert(id != s.next_order_id);
        },
        Call::AcceptOrder { caller, order_id } => {
            lemma_call_on_named_order(s, call, id);
        },
        Call::AcceptBuyOrder { caller, value, order_id } => {
            lemma_call_on_named_order(s, call, id);
        },
        Call::ConfirmPaymentSent { caller, order_id } => {
            lemma_call_on_named_order(s, call, id);
        },
        Call::CompleteOrder { caller, order_id } => {
            lemma_call_on_named_order(s, call, id);
        },
        Call::CancelOrder { caller, order_id } => {
            lemma_call_on_named_order(s, call, id);
        },
        Call::CreateDispute { caller, order_id } => {
            lemma_call_on_named_order(s, call, id);
        },
        Call::ResolveDispute { caller, order_id, favor_buyer } => {
            lemma_call_on_named_order(s, call, id);
        },
        Call::Pause { caller } => {},
        Call::Unpause { caller } => {},
    }
}

// ----- identifiers -----

/// The first order of a new escrow has identifier one, and of two creations
/// that follow each other the second receives the next identifier, whatever
/// the types of the orders. Calls in between that create nothing do not
/// disturb the count, by `lemma_call_keeps_configuration`.
pub proof fn lemma_identifiers_are_sequential(
    s: EscrowState,
    owner: AccountId,
    lp_fee_bps: u16,
    caller1: AccountId,
    value1: Balance,
    now1: u64,
    type1: OrderType,
    caller2: AccountId,
    value2: Balance,
    now2: u64,
    type2: OrderType,
)
    ensures
        ({
            let fresh = EscrowState::init(owner, lp_fee_bps);
            let res = fresh.create_order(caller1, value1, now1, type1).1;
            res is Ok ==> res->Ok_0.order_id == 1
        }),
        ({
            let (t, first) = s.create_order(caller1, value1, now1, type1);
            let second = t.create_order(caller2, value2, now2, type2).1;
            first is Ok && second is Ok ==> second->Ok_0.order_id == first->Ok_0.order_id + 1
        }),
{
}

// ----- creation -----

/// What a creation asks of the attached value: a Sell order without a
/// deposit is refused with `InsufficientBalance`, a Buy order with one is
/// refused with `InvalidAmount`, and a Buy order without one is stored
/// pending, with neither amount nor fee, under the identifier returned.
pub proof fn lemma_creation_deposit_rule(s: EscrowState, caller: AccountId, value: Balance, now: u64)
    requires
        s.wf(),
        !s.paused,
    ensures
        s.create_order(caller, 0, now, OrderType::Sell) == (
            s,
            Err::<OrderCreated, Error>(Error::InsufficientBalance),
        ),
        value > 0 ==> s.create_order(caller, value, now, OrderType::Buy) == (
            s,
            Err::<OrderCreated, Error>(Error::InvalidAmount),
        ),
        s.next_order_id < u64::MAX ==> ({
            let (t, res) = s.create_order(caller, 0, now, OrderType::Buy);
            &&& res is Ok
            &&& res->Ok_0.order_id == s.next_order_id
            &&& t.orders.contains_key(s.next_order_id)
            &&& t.orders[s.next_order_id].amount == 0
            &&& t.orders[s.next_order_id].lp_fee == 0
            &&& t.orders[s.next_order_id].status == OrderStatus::Pending
            &&& t.orders[s.next_order_id].buyer == caller
            &&& t.orders[s.next_order_id].seller is None
        }),
        value > 0 && fee_fits(value, s.lp_fee_bps) && s.next_order_id < u64::MAX ==> ({
            let (t, res) = s.create_order(caller, value, now, OrderType::Sell);
            &&& res is Ok
            &&& t.orders[s.next_order_id].amount == value
            &&& t.orders[s.next_order_id].lp_fee == fee_of(value as int, s.lp_fee_bps as int)
            &&& t.orders[s.next_order_id].status == OrderStatus::Pending
        }),
{
    lemma_fee_rounds_down(value, s.lp_fee_bps);
    assert(fee_of(0, s.lp_fee_bps as int) == 0);
}

// ----- acceptance -----

/// An order can be accepted once: after a successful acceptance, a second
/// one of the same order is refused with `InvalidStatus`, whoever asks.
pub proof fn lemma_second_acceptance_is_refused(
    s: EscrowState,
    first: AccountId,
    second: AccountId,
    value: Balance,
    again: Balance,
    id: u64,
)
    requires
        s.wf(),
    ensures
        ({
            let (t, res) = s.accept_order(first, id);
            res is Ok ==> t.accept_order(second, id) == (
                t,
                Err::<OrderAccepted, Error>(Error::InvalidStatus),
            )
        }),
        ({
            let (t, res) = s.accept_buy_order(first, value, id);
            res is Ok ==> t.accept_buy_order(second, again, id) == (
                t,
                Err::<OrderAccepted, Error>(Error::InvalidStatus),
            )
        }),
{
}

/// While the escrow is not paused, a call that names an identifier under
/// which no order is stored is refused with `OrderNotFound`; an arbitration
/// by anyone but the owner is refused with `Unauthorized` before the order
/// is looked up.
pub proof fn lemma_unknown_order_is_not_found(s: EscrowState, caller: AccountId, value: Balance, id: u64, favor_buyer: bool)
    requires
        !s.paused,
        !s.orders.contains_key(id),
    ensures
        s.accept_order_refusal(id) == Some(Error::OrderNotFound),
        s.accept_buy_order_refusal(value, id) == Some(Error::OrderNotFound),
        s.confirm_payment_sent_refusal(caller, id) == Some(Error::OrderNotFound),
        s.complete_order_refusal(caller, id) == Some(Error::OrderNotFound),
        s.cancel_order_refusal(caller, id) == Some(Error::OrderNotFound),
        s.create_dispute_refusal(caller, id) == Some(Error::OrderNotFound),
        s.resolve_dispute_refusal(caller, id) == Some(
            if caller == s.owner {
                Error::OrderNotFound
            } else {
                Error::Unauthorized
            },
        ),
        s.order(id) is None,
{
}

// ----- authorization -----

/// Who may do what to an order that exists, while the escrow is not paused:
/// anyone but the buyer is refused the confirmation of payment and the
/// cancellation; anyone but the buyer and the seller is refused the
/// completion and the opening of a dispute; anyone but the owner is refused
/// the arbitration. The refusal is `Unauthorized`, whatever the order's
/// status.
pub proof fn lemma_strangers_are_unauthorized(s: EscrowState, caller: AccountId, id: u64)
    requires
        !s.paused,
        s.orders.contains_key(id),
    ensures
        caller != s.orders[id].buyer ==> s.confirm_payment_sent_refusal(caller, id) == Some(
            Error::Unauthorized,
        ),
        caller != s.orders[id].buyer ==> s.cancel_order_refusal(caller, id) == Some(
            Error::Unauthorized,
        ),
        !s.orders[id].is_party(caller) ==> s.complete_order_refusal(caller, id) == Some(
            Error::Unauthorized,
        ),
        !s.orders[id].is_party(caller) ==> s.create_dispute_refusal(caller, id) == Some(
            Error::Unauthorized,
        ),
        caller != s.owner ==> s.resolve_dispute_refusal(caller, id) == Some(Error::Unauthorized),
{
}

/// Whoever is entitled to a transition, while the escrow is not paused, is
/// refused with `InvalidStatus` exactly because the order does not stand
/// where the transition starts: a party's completion or dispute of an order
/// whose payment is not confirmed, the buyer's confirmation of an order that
/// is not accepted, the buyer's cancellation or anyone's acceptance of an
/// order that is not pending, the owner's ruling on an order that is not
/// disputed. This holds also of an order that has no seller yet.
pub proof fn lemma_wrong_status_is_invalid_status(
    s: EscrowState,
    caller: AccountId,
    value: Balance,
    id: u64,
)
    requires
        !s.paused,
        s.orders.contains_key(id),
    ensures
        s.orders[id].order_type == OrderType::Sell && s.orders[id].status != OrderStatus::Pending
            ==> s.accept_order_refusal(id) == Some(Error::InvalidStatus),
        s.orders[id].order_type == OrderType::Buy && s.orders[id].status != OrderStatus::Pending
            ==> s.accept_buy_order_refusal(value, id) == Some(Error::InvalidStatus),
        caller == s.orders[id].buyer && s.orders[id].status != OrderStatus::Accepted
            ==> s.confirm_payment_sent_refusal(caller, id) == Some(Error::InvalidStatus),
        caller == s.orders[id].buyer && s.orders[id].status != OrderStatus::Pending
            ==> s.cancel_order_refusal(caller, id) == Some(Error::InvalidStatus),
        s.orders[id].is_party(caller) && s.orders[id].status != OrderStatus::PaymentSent
            ==> s.complete_order_refusal(caller, id) == Some(Error::InvalidStatus)
            && s.create_dispute_refusal(caller, id) == Some(Error::InvalidStatus),
        caller == s.owner && s.orders[id].status != OrderStatus::Disputed
            ==> s.resolve_dispute_refusal(caller, id) == Some(Error::InvalidStatus),
{
}

/// A successful call was made by someone entitled to it and found the order
/// in the status that the lifecycle asks for.
pub proof fn lemma_success_shows_right_and_status(s: EscrowState, call: Call)
    requires
        s.wf(),
        refusal(s, call) is None,
    ensures
        !s.paused || call.is_pause_control(),
        match call {
            Call::CreateOrder { value, order_type, .. } => (order_type == OrderType::Sell) == (value
                > 0),
            Call::AcceptOrder { order_id, .. } => s.orders[order_id].status == OrderStatus::Pending
                && s.orders[order_id].order_type == OrderType::Sell,
            Call::AcceptBuyOrder { order_id, value, .. } => s.orders[order_id].status
                == OrderStatus::Pending && s.orders[order_id].order_type == OrderType::Buy && value
                > 0,
            Call::ConfirmPaymentSent { caller, order_id } => s.orders[order_id].status
                == OrderStatus::Accepted && caller == s.orders[order_id].buyer,
            Call::CompleteOrder { caller, order_id } => s.orders[order_id].status
                == OrderStatus::PaymentSent && s.orders[order_id].is_party(caller),
            Call::CancelOrder { caller, order_id } => s.orders[order_id].status
                == OrderStatus::Pending && caller == s.orders[order_id].buyer,
            Call::CreateDispute { caller, order_id } => s.orders[order_id].status
                == OrderStatus::PaymentSent && s.orders[order_id].is_party(caller),
            Call::ResolveDispute { caller, order_id, .. } => s.orders[order_id].status
                == OrderStatus::Disputed && caller == s.owner,
            Call::Pause { caller } => caller == s.owner,
            Call::Unpause { caller } => caller == s.owner,
        },
{
}

// ----- the ways through the lifecycle -----

/// A Sell order that is created with a deposit, accepted, confirmed by its
/// buyer and completed by either party ends `Completed`, and its settlement
/// pays the deposit less the fee to the seller and the fee to the owner. At a
/// rate above one hundred percent the fee can exceed the deposit, and the
/// completion is then refused with `InsufficientBalance`.
pub proof fn lemma_sell_order_runs_to_payout(
    s: EscrowState,
    buyer: AccountId,
    seller: AccountId,
    closer: AccountId,
    value: Balance,
    now: u64,
)
    requires
        s.wf(),
        s.create_order(buyer, value, now, OrderType::Sell).1 is Ok,
        closer == buyer || closer == seller,
    ensures
        ({
            let (s1, created) = s.create_order(buyer, value, now, OrderType::Sell);
            let id = created->Ok_0.order_id;
            let (s2, accepted) = s1.accept_order(seller, id);
            let (s3, confirmed) = s2.confirm_payment_sent(buyer, id);
            let (s4, completed) = s3.complete_order(closer, id);
            let lp_fee = fee_of(value as int, s.lp_fee_bps as int);
            &&& accepted == Ok::<OrderAccepted, Error>(OrderAccepted { order_id: id, seller })
            &&& confirmed is Ok
            &&& s.lp_fee_bps <= 10000 ==> lp_fee <= value
            &&& lp_fee <= value ==> s4.orders[id].status == OrderStatus::Completed && completed
                == Ok::<SettlementView, Error>(
                SettlementView {
                    transfers: seq![
                        Transfer { to: seller, amount: (value - lp_fee) as Balance },
                        Transfer { to: s.owner, amount: lp_fee as Balance },
                    ],
                    event: Event::OrderCompleted(OrderCompleted { order_id: id }),
                },
            )
            &&& lp_fee > value ==> s4 == s3 && completed == Err::<SettlementView, Error>(
                Error::InsufficientBalance,
            )
        }),
{
    lemma_fee_rounds_down(value, s.lp_fee_bps);
    if s.lp_fee_bps <= 10000 {
        lemma_fee_within_amount(value, s.lp_fee_bps);
    }
    let (s1, created) = s.create_order(buyer, value, now, OrderType::Sell);
    let id = created->Ok_0.order_id;
    let (s2, accepted) = s1.accept_order(seller, id);
    let (s3, confirmed) = s2.confirm_payment_sent(buyer, id);
    let (s4, completed) = s3.complete_order(closer, id);
    let lp_fee = fee_of(value as int, s.lp_fee_bps as int);
    if lp_fee <= value {
        assert(completed->Ok_0.transfers =~= seq![
            Transfer { to: seller, amount: (value - lp_fee) as Balance },
            Transfer { to: s.owner, amount: lp_fee as Balance },
        ]);
    }
}

/// A Buy order that is created without a deposit, accepted with one,
/// confirmed by its buyer and completed by either party ends `Completed`:
/// the acceptance fixes the amount, the fee and the seller, and the
/// settlement pays the deposit less the fee to the buyer and the fee to the
/// owner.
pub proof fn lemma_buy_order_runs_to_payout(
    s: EscrowState,
    buyer: AccountId,
    seller: AccountId,
    closer: AccountId,
    deposit: Balance,
    now: u64,
)
    requires
        s.wf(),
        s.create_order(buyer, 0, now, OrderType::Buy).1 is Ok,
        deposit > 0,
        fee_fits(deposit, s.lp_fee_bps),
        closer == buyer || closer == seller,
    ensures
        ({
            let (s1, created) = s.create_order(buyer, 0, now, OrderType::Buy);
            let id = created->Ok_0.order_id;
            let (s2, accepted) = s1.accept_buy_order(seller, deposit, id);
            let (s3, confirmed) = s2.confirm_payment_sent(buyer, id);
            let (s4, completed) = s3.complete_order(closer, id);
            let lp_fee = fee_of(deposit as int, s.lp_fee_bps as int);
            &&& accepted == Ok::<OrderAccepted, Error>(OrderAccepted { order_id: id, seller })
            &&& s2.orders[id].amount == deposit
            &&& s2.orders[id].lp_fee == lp_fee
            &&& s2.orders[id].seller == Some(seller)
            &&& confirmed is Ok
            &&& s.lp_fee_bps <= 10000 ==> lp_fee <= deposit
            &&& lp_fee <= deposit ==> s4.orders[id].status == OrderStatus::Completed && completed
                == Ok::<SettlementView, Error>(
                SettlementView {
                    transfers: seq![
                        Transfer { to: buyer, amount: (deposit - lp_fee) as Balance },
                        Transfer { to: s.owner, amount: lp_fee as Balance },
                    ],
                    event: Event::OrderCompleted(OrderCompleted { order_id: id }),
                },
            )
        }),
{
    lemma_fee_rounds_down(deposit, s.lp_fee_bps);
    if s.lp_fee_bps <= 10000 {
        lemma_fee_within_amount(deposit, s.lp_fee_bps);
    }
    let (s1, created) = s.create_order(buyer, 0, now, OrderType::Buy);
    let id = created->Ok_0.order_id;
    let (s2, accepted) = s1.accept_buy_order(seller, deposit, id);
    let (s3, confirmed) = s2.confirm_payment_sent(buyer, id);
    let (s4, completed) = s3.complete_order(closer, id);
    let lp_fee = fee_of(deposit as int, s.lp_fee_bps as int);
    if lp_fee <= deposit {
        assert(completed->Ok_0.transfers =~= seq![
            Transfer { to: buyer, amount: (deposit - lp_fee) as Balance },
            Transfer { to: s.owner, amount: lp_fee as Balance },
        ]);
    }
}

// ----- cancellation -----

/// The buyer's cancellation of a pending order sets it `Cancelled`; the
/// settlement returns the whole amount of a Sell order to the buyer and
/// moves nothing for a Buy order, which holds no deposit yet.
pub proof fn lemma_cancellation_refunds_the_buyer(s: EscrowState, id: u64)
    requires
        s.wf(),
        !s.paused,
        s.orders.contains_key(id),
        s.orders[id].status == OrderStatus::Pending,
    ensures
        ({
            let order = s.orders[id];
            let (t, res) = s.cancel_order(order.buyer, id);
            &&& res is Ok
            &&& t == s.with_status(id, OrderStatus::Cancelled)
            &&& t.orders[id].status == OrderStatus::Cancelled
            &&& res->Ok_0.event == Event::OrderCancelled(OrderCancelled { order_id: id })
            &&& res->Ok_0.transfers == if order.order_type == OrderType::Sell {
                seq![Transfer { to: order.buyer, amount: order.amount }]
            } else {
                Seq::<Transfer>::empty()
            }
        }),
{
    let order = s.orders[id];
    assert(order.wf(s.lp_fee_bps));
    assert(refund(order) =~= if order.order_type == OrderType::Sell {
        seq![Transfer { to: order.buyer, amount: order.amount }]
    } else {
        Seq::<Transfer>::empty()
    });
}

/// Once an order was accepted, its cancellation is refused with
/// `InvalidStatus`, also for the buyer; and so is the cancellation of any
/// order that is no longer pending.
pub proof fn lemma_cancellation_after_acceptance_is_refused(
    s: EscrowState,
    seller: AccountId,
    value: Balance,
    id: u64,
)
    requires
        s.wf(),
    ensures
        ({
            let (t, res) = s.accept_order(seller, id);
            res is Ok ==> t.cancel_order(t.orders[id].buyer, id) == (
                t,
                Err::<SettlementView, Error>(Error::InvalidStatus),
            )
        }),
        ({
            let (t, res) = s.accept_buy_order(seller, value, id);
            res is Ok ==> t.cancel_order(t.orders[id].buyer, id) == (
                t,
                Err::<SettlementView, Error>(Error::InvalidStatus),
            )
        }),
        !s.paused && s.orders.contains_key(id) && s.orders[id].status != OrderStatus::Pending
            ==> s.cancel_order(s.orders[id].buyer, id) == (
            s,
            Err::<SettlementView, Error>(Error::InvalidStatus),
        ),
{
}

// ----- disputes -----

/// A dispute can be opened by a party exactly when the payment was
/// confirmed and the order neither completed nor disputed yet: from
/// `PaymentSent` it succeeds and sets `Disputed`, from any other status it
/// is refused with `InvalidStatus`.
pub proof fn lemma_dispute_only_after_payment_sent(s: EscrowState, caller: AccountId, id: u64)
    requires
        s.wf(),
        !s.paused,
        s.orders.contains_key(id),
        s.orders[id].is_party(caller),
    ensures
        s.orders[id].status == OrderStatus::PaymentSent ==> s.create_dispute(caller, id).1 is Ok
            && s.create_dispute(caller, id).0 == s.with_status(id, OrderStatus::Disputed),
        s.orders[id].status != OrderStatus::PaymentSent ==> s.create_dispute(caller, id) == (
            s,
            Err::<crate::events::DisputeCreated, Error>(Error::InvalidStatus),
        ),
{
}

/// The owner's ruling for the buyer on a disputed order sets it `Cancelled`
/// and returns the whole amount to the depositor: the buyer of a Sell order,
/// the seller of a Buy order.
pub proof fn lemma_ruling_for_buyer_refunds_depositor(s: EscrowState, id: u64)
    requires
        s.wf(),
        s.resolve_dispute(s.owner, id, true).1 is Ok,
    ensures
        ({
            let order = s.orders[id];
            let (t, res) = s.resolve_dispute(s.owner, id, true);
            &&& order.status == OrderStatus::Disputed
            &&& t == s.with_status(id, OrderStatus::Cancelled)
            &&& order.depositor() is Some
            &&& order.depositor() == if order.order_type == OrderType::Sell {
                Some(order.buyer)
            } else {
                order.seller
            }
            &&& res->Ok_0.transfers == seq![
                Transfer { to: order.depositor()->Some_0, amount: order.amount },
            ]
            &&& res->Ok_0.event == Event::DisputeResolved(
                DisputeResolved { order_id: id, favor_buyer: true },
            )
        }),
{
    let order = s.orders[id];
    assert(order.wf(s.lp_fee_bps));
    assert(refund(order) =~= seq![
        Transfer { to: order.depositor()->Some_0, amount: order.amount },
    ]);
}

/// The owner's ruling against the buyer on a disputed order sets it
/// `Completed` and pays exactly what a completion of the same order would
/// have paid had no dispute been opened.
pub proof fn lemma_ruling_against_buyer_pays_as_completion(s: EscrowState, id: u64)
    requires
        s.wf(),
        s.resolve_dispute(s.owner, id, false).1 is Ok,
    ensures
        ({
            let order = s.orders[id];
            let (t, res) = s.resolve_dispute(s.owner, id, false);
            let undisputed = s.with_status(id, OrderStatus::PaymentSent);
            let (u, completed) = undisputed.complete_order(order.buyer, id);
            &&& order.status == OrderStatus::Disputed
            &&& t == s.with_status(id, OrderStatus::Completed)
            &&& completed is Ok
            &&& u == t
            &&& res->Ok_0.transfers == completed->Ok_0.transfers
            &&& res->Ok_0.transfers == payout(order, s.owner)
            &&& res->Ok_0.event == Event::DisputeResolved(
                DisputeResolved { order_id: id, favor_buyer: false },
            )
        }),
{
    let order = s.orders[id];
    let undisputed = s.with_status(id, OrderStatus::PaymentSent);
    let (u, completed) = undisputed.complete_order(order.buyer, id);
    let t = s.resolve_dispute(s.owner, id, false).0;
    assert(u.orders =~= t.orders);
}

// ----- settlements -----

/// A payout hands out the whole amount and no more: what the beneficiary
/// and the owner receive adds up to what was in custody.
pub proof fn lemma_payout_shares_the_amount(order: Order, owner: AccountId)
    requires
        order.lp_fee <= order.amount,
    ensures
        payout(order, owner).len() == 2,
        payout(order, owner)[0].amount + payout(order, owner)[1].amount == order.amount,
        payout(order, owner)[1] == (Transfer { to: owner, amount: order.lp_fee }),
{
}

/// How a settlement ends. The notification is due exactly when every
/// transfer was attempted and none failed; `TransferFailed` is due exactly
/// when one failed, and stays due whatever is reported afterwards; and a
/// transfer is asked for only after all those before it succeeded, in the
/// order of the settlement.
pub proof fn lemma_settlement_ends_once(sv: SettlementView, outcomes: Seq<bool>, later: Seq<bool>)
    ensures
        sv.next(outcomes) == Step::Done(Ok(sv.event)) <==> !outcomes.contains(false)
            && outcomes.len() >= sv.transfers.len(),
        sv.next(outcomes) == Step::Done(Err(Error::TransferFailed)) <==> outcomes.contains(false),
        sv.next(outcomes) is Transfer ==> outcomes.len() < sv.transfers.len() && sv.next(outcomes)
            == Step::Transfer(sv.transfers[outcomes.len() as int]) && forall|i: int|
            0 <= i < outcomes.len() ==> outcomes[i],
        outcomes.contains(false) ==> sv.next(outcomes + later) == Step::Done(
            Err(Error::TransferFailed),
        ),
{
    if outcomes.contains(false) {
        let i = choose|i: int| 0 <= i < outcomes.len() && outcomes[i] == false;
        assert((outcomes + later)[i] == false);
    }
    if sv.next(outcomes) is Transfer {
        assert forall|i: int| 0 <= i < outcomes.len() implies outcomes[i] by {
            if !outcomes[i] {
                assert(outcomes.contains(false));
            }
        }
    }
}

// ----- orders kept elsewhere -----

/// The notification that a successful call asks to be sent, if it asks for
/// one; for a settling call it is due once the settlement went through.
pub open spec fn notice(s: EscrowState, call: Call) -> Option<Event> {
    match call {
        Call::CreateOrder { caller, value, now, order_type } => match s.create_order(
            caller,
            value,
            now,
            order_type,
        ).1 {
            Ok(created) => Some(Event::OrderCreated(created)),
            Err(_) => None,
        },
        Call::AcceptOrder { caller, order_id } => match s.accept_order(caller, order_id).1 {
            Ok(accepted) => Some(Event::OrderAccepted(accepted)),
            Err(_) => None,
        },
        Call::AcceptBuyOrder { caller, value, order_id } => match s.accept_buy_order(
            caller,
            value,
            order_id,
        ).1 {
            Ok(accepted) => Some(Event::OrderAccepted(accepted)),
            Err(_) => None,
        },
        Call::CompleteOrder { caller, order_id } => match s.complete_order(caller, order_id).1 {
            Ok(settlement) => Some(settlement.event),
            Err(_) => None,
        },
        Call::CancelOrder { caller, order_id } => match s.cancel_order(caller, order_id).1 {
            Ok(settlement) => Some(settlement.event),
            Err(_) => None,
        },
        Call::CreateDispute { caller, order_id } => match s.create_dispute(caller, order_id).1 {
            Ok(disputed) => Some(Event::DisputeCreated(disputed)),
            Err(_) => None,
        },
        Call::ResolveDispute { caller, order_id, favor_buyer } => match s.resolve_dispute(
            caller,
            order_id,
            favor_buyer,
        ).1 {
            Ok(settlement) => Some(settlement.event),
            Err(_) => None,
        },
        _ => None,
    }
}

/// The order that a call can change: the one that it names, or the one that
/// it creates.
pub open spec fn subject(s: EscrowState, call: Call) -> Option<u64> {
    if call is CreateOrder {
        Some(s.next_order_id)
    } else {
        call.order_id()
    }
}

/// A call sees of the orders only the one that it names. Two states that
/// agree on the owner, the pause flag, the next identifier and the fee rate,
/// and on the order that the call names, refuse the call alike, release the
/// same transfers, ask for the same notification, and leave the same
/// configuration and the same order behind. So a host that keeps the orders
/// itself may bring the one order that a call is about and store what is
/// left of it.
pub proof fn lemma_call_sees_only_its_order(s: EscrowState, t: EscrowState, call: Call)
    requires
        s.wf(),
        t.wf(),
        s.owner == t.owner,
        s.paused == t.paused,
        s.next_order_id == t.next_order_id,
        s.lp_fee_bps == t.lp_fee_bps,
        call.order_id() is Some ==> s.order(call.order_id()->Some_0) == t.order(
            call.order_id()->Some_0,
        ),
    ensures
        refusal(s, call) == refusal(t, call),
        released(s, call) == released(t, call),
        notice(s, call) == notice(t, call),
        after(s, call).owner == after(t, call).owner,
        after(s, call).paused == after(t, call).paused,
        after(s, call).next_order_id == after(t, call).next_order_id,
        after(s, call).lp_fee_bps == after(t, call).lp_fee_bps,
        subject(s, call) is Some ==> after(s, call).order(subject(s, call)->Some_0) == after(
            t,
            call,
        ).order(subject(s, call)->Some_0),
{
}

/// An escrow that holds all its orders goes on holding all of them: a new
/// one does, and every call keeps it so.
pub proof fn lemma_call_keeps_every_order(s: EscrowState, call: Call, owner: AccountId, lp_fee_bps: u16)
    requires
        s.wf(),
        s.is_complete(),
    ensures
        EscrowState::init(owner, lp_fee_bps).is_complete(),
        after(s, call).is_complete(),
{
    lemma_call_keeps_configuration(s, call);
    let t = after(s, call);
    assert forall|id: u64| 1 <= id < t.next_order_id implies t.orders.contains_key(id) by {
        if id < s.next_order_id {
            assert(s.orders.contains_key(id));
        }
    }
}

// ----- custody -----

/// The transfers that a call hands back to be carried out.
pub open spec fn released(s: EscrowState, call: Call) -> Seq<Transfer> {
    match call {
        Call::CompleteOrder { caller, order_id } => match s.complete_order(caller, order_id).1 {
            Ok(settlement) => settlement.transfers,
            Err(_) => Seq::empty(),
        },
        Call::CancelOrder { caller, order_id } => match s.cancel_order(caller, order_id).1 {
            Ok(settlement) => settlement.transfers,
            Err(_) => Seq::empty(),
        },
        Call::ResolveDispute { caller, order_id, favor_buyer } => match s.resolve_dispute(
            caller,
            order_id,
            favor_buyer,
        ).1 {
            Ok(settlement) => settlement.transfers,
            Err(_) => Seq::empty(),
        },
        _ => Seq::empty(),
    }
}

/// Custody is conserved order by order. A refused call brings no deposit in
/// and releases nothing. For the order that a successful call names or
/// creates, what was in custody before, together with the deposit that the
/// call brings, is what is in custody afterwards together with what the
/// call releases. A settlement therefore releases exactly what the order
/// held, once.
pub proof fn lemma_custody_is_conserved(s: EscrowState, call: Call)
    requires
        s.wf(),
    ensures
        refusal(s, call) is Some ==> released(s, call) == Seq::<Transfer>::empty(),
        refusal(s, call) is None && call is CreateOrder ==> after(s, call).orders[s.next_order_id].in_custody()
            == call.deposit(),
        refusal(s, call) is None && call.order_id() is Some ==> ({
            let id = call.order_id()->Some_0;
            s.orders[id].in_custody() + call.deposit() == after(s, call).orders[id].in_custody()
                + total(released(s, call))
        }),
{
    reveal_with_fuel(total, 3);
    if refusal(s, call) is None {
        match call {
            Call::CompleteOrder { caller, order_id } => {
                let order = s.orders[order_id];
                assert(order.wf(s.lp_fee_bps));
                lemma_total_of_payout(order, s.owner);
            },
            Call::CancelOrder { caller, order_id } => {
                let order = s.orders[order_id];
                assert(order.wf(s.lp_fee_bps));
                lemma_total_of_refund(order);
            },
            Call::ResolveDispute { caller, order_id, favor_buyer } => {
                let order = s.orders[order_id];
                assert(order.wf(s.lp_fee_bps));
                lemma_total_of_payout(order, s.owner);
                lemma_total_of_refund(order);
            },
            Call::CreateOrder { .. } | Call::Pause { .. } | Call::Unpause { .. } => {},
            _ => {
                assert(s.orders[call.order_id()->Some_0].wf(s.lp_fee_bps));
                assert(total(Seq::<Transfer>::empty()) == 0);
            },
        }
    }
}

/// A payout adds up to the amount of the order.
proof fn lemma_total_of_payout(order: Order, owner: AccountId)
    requires
        order.lp_fee <= order.amount,
    ensures
        total(payout(order, owner)) == order.amount,
{
    let p = payout(order, owner);
    assert(p.drop_last().drop_last() =~= Seq::<Transfer>::empty());
    assert(p.drop_last().last() == p[0]);
    reveal_with_fuel(total, 3);
}

/// A refund adds up to the amount of a funded order, and to nothing
/// otherwise.
proof fn lemma_total_of_refund(order: Order)
    ensures
        total(refund(order)) == if order.funded() {
            order.amount as int
        } else {
            0
        },
{
    let r = refund(order);
    reveal_with_fuel(total, 2);
    if r.len() > 0 {
        assert(r.drop_last() =~= Seq::<Transfer>::empty());
    }
}

} // verus!
