use polkapay_escrow::account::AccountId;
use polkapay_escrow::escrow::PolkaPayEscrow;
use polkapay_escrow::events::{
    DisputeCreated, DisputeResolved, Event, OrderAccepted, OrderCancelled, OrderCompleted,
    OrderCreated,
};
use polkapay_escrow::fee::fee;
use polkapay_escrow::order::{Error, OrderStatus, OrderType};
use polkapay_escrow::settlement::{Settlement, Step, Transfer};

const OWNER: AccountId = AccountId([9u8; 32]);
const ALICE: AccountId = AccountId([1u8; 32]);
const BOB: AccountId = AccountId([2u8; 32]);
const NOW: u64 = 42;

/// A ledger that holds `held` in custody and pays out of it while it lasts.
struct Ledger {
    held: u128,
    paid: Vec<(AccountId, u128)>,
}

impl Ledger {
    fn holding(held: u128) -> Ledger {
        Ledger { held, paid: Vec::new() }
    }

    fn transfer(&mut self, to: AccountId, amount: u128) -> bool {
        if amount > self.held {
            return false;
        }
        self.held -= amount;
        self.paid.push((to, amount));
        true
    }

    fn received(&self, who: AccountId) -> u128 {
        self.paid.iter().filter(|(to, _)| *to == who).map(|(_, amount)| *amount).sum()
    }
}

fn carry_out(settlement: &Settlement, ledger: &mut Ledger) -> Result<Event, Error> {
    let mut outcomes: Vec<bool> = Vec::new();
    loop {
        match settlement.next(&outcomes) {
            Step::Transfer(t) => outcomes.push(ledger.transfer(t.to, t.amount)),
            Step::Done(result) => return result,
        }
    }
}

fn sell_order_with_payment_sent(escrow: &mut PolkaPayEscrow, amount: u128) -> u64 {
    let id = escrow.create_order(ALICE, amount, NOW, OrderType::Sell).unwrap().order_id;
    escrow.accept_order(BOB, id).unwrap();
    escrow.confirm_payment_sent(ALICE, id).unwrap();
    id
}

fn buy_order_with_payment_sent(escrow: &mut PolkaPayEscrow, deposit: u128) -> u64 {
    let id = escrow.create_order(ALICE, 0, NOW, OrderType::Buy).unwrap().order_id;
    escrow.accept_buy_order(BOB, deposit, id).unwrap();
    escrow.confirm_payment_sent(ALICE, id).unwrap();
    id
}

#[test]
fn fee_is_the_basis_point_share() {
    assert_eq!(fee(1000, 200), Some(20));
    assert_eq!(fee(10000, 200), Some(200));
    assert_eq!(fee(0, 200), Some(0));
    assert_eq!(fee(1000, 0), Some(0));
    assert_eq!(fee(1000, 10000), Some(1000));
    assert_eq!(fee(1000, 20000), Some(2000));
}

#[test]
fn fee_rounds_down() {
    assert_eq!(fee(999, 200), Some(19));
    assert_eq!(fee(49, 200), Some(0));
    assert_eq!(fee(50, 200), Some(1));
    assert_eq!(fee(1, 9999), Some(0));
    assert_eq!(fee(3, 3333), Some(0));
    assert_eq!(fee(10001, 9999), Some(9999));
}

#[test]
fn fee_is_refused_when_the_product_overflows() {
    assert_eq!(fee(u128::MAX, 2), None);
    assert_eq!(fee(u128::MAX / 200 + 1, 200), None);
    assert_eq!(fee(u128::MAX / 200, 200), Some((u128::MAX / 200) * 200 / 10000));
    assert_eq!(fee(u128::MAX, 1), Some(u128::MAX / 10000));
    assert_eq!(fee(u128::MAX, 0), Some(0));
}

#[test]
fn sell_order_pays_seller_and_owner() {
    let mut escrow = PolkaPayEscrow::new(OWNER, 200);
    let created = escrow.create_order(ALICE, 1000, NOW, OrderType::Sell).unwrap();
    assert_eq!(created, OrderCreated { order_id: 1, buyer: ALICE, amount: 1000 });
    let accepted = escrow.accept_order(BOB, 1).unwrap();
    assert_eq!(accepted, OrderAccepted { order_id: 1, seller: BOB });
    escrow.confirm_payment_sent(ALICE, 1).unwrap();

    let settlement = escrow.complete_order(BOB, 1).unwrap();
    assert_eq!(
        settlement.transfers,
        vec![Transfer { to: BOB, amount: 980 }, Transfer { to: OWNER, amount: 20 }]
    );
    assert_eq!(settlement.event, Event::OrderCompleted(OrderCompleted { order_id: 1 }));
    assert_eq!(escrow.get_order(1).unwrap().status, OrderStatus::Completed);

    let mut ledger = Ledger::holding(1000);
    let done = carry_out(&settlement, &mut ledger);
    assert_eq!(done, Ok(Event::OrderCompleted(OrderCompleted { order_id: 1 })));
    assert_eq!(ledger.received(BOB), 980);
    assert_eq!(ledger.received(OWNER), 20);
    assert_eq!(ledger.received(ALICE), 0);
    assert_eq!(ledger.held, 0);
}

#[test]
fn sell_order_can_be_completed_by_the_buyer() {
    let mut escrow = PolkaPayEscrow::new(OWNER, 200);
    let id = sell_order_with_payment_sent(&mut escrow, 1000);
    let settlement = escrow.complete_order(ALICE, id).unwrap();
    assert_eq!(
        settlement.transfers,
        vec![Transfer { to: BOB, amount: 980 }, Transfer { to: OWNER, amount: 20 }]
    );
}

#[test]
fn buy_order_pays_buyer_and_owner() {
    let mut escrow = PolkaPayEscrow::new(OWNER, 200);
    let created = escrow.create_order(ALICE, 0, NOW, OrderType::Buy).unwrap();
    assert_eq!(created, OrderCreated { order_id: 1, buyer: ALICE, amount: 0 });
    let pending = escrow.get_order(1).unwrap();
    assert_eq!((pending.amount, pending.lp_fee, pending.seller), (0, 0, None));

    let accepted = escrow.accept_buy_order(BOB, 1000, 1).unwrap();
    assert_eq!(accepted, OrderAccepted { order_id: 1, seller: BOB });
    let order = escrow.get_order(1).unwrap();
    assert_eq!((order.amount, order.lp_fee, order.seller), (1000, 20, Some(BOB)));
    assert_eq!(order.created_at, NOW);

    escrow.confirm_payment_sent(ALICE, 1).unwrap();
    let settlement = escrow.complete_order(ALICE, 1).unwrap();
    assert_eq!(
        settlement.transfers,
        vec![Transfer { to: ALICE, amount: 980 }, Transfer { to: OWNER, amount: 20 }]
    );

    let mut ledger = Ledger::holding(1000);
    assert!(carry_out(&settlement, &mut ledger).is_ok());
    assert_eq!(ledger.received(ALICE), 980);
    assert_eq!(ledger.received(OWNER), 20);
    assert_eq!(ledger.received(BOB), 0);
}

#[test]
fn cancelled_sell_order_refunds_the_buyer_in_full() {
    let mut escrow = PolkaPayEscrow::new(OWNER, 200);
    let id = escrow.create_order(ALICE, 1000, NOW, OrderType::Sell).unwrap().order_id;
    let settlement = escrow.cancel_order(ALICE, id).unwrap();
    assert_eq!(settlement.transfers, vec![Transfer { to: ALICE, amount: 1000 }]);
    assert_eq!(settlement.event, Event::OrderCancelled(OrderCancelled { order_id: id }));
    assert_eq!(escrow.get_order(id).unwrap().status, OrderStatus::Cancelled);

    let mut ledger = Ledger::holding(1000);
    assert_eq!(
        carry_out(&settlement, &mut ledger),
        Ok(Event::OrderCancelled(OrderCancelled { order_id: id }))
    );
    assert_eq!(ledger.received(ALICE), 1000);
    assert_eq!(ledger.received(OWNER), 0);
}

#[test]
fn cancelled_buy_order_moves_nothing() {
    let mut escrow = PolkaPayEscrow::new(OWNER, 200);
    let id = escrow.create_order(ALICE, 0, NOW, OrderType::Buy).unwrap().order_id;
    let settlement = escrow.cancel_order(ALICE, id).unwrap();
    assert!(settlement.transfers.is_empty());
    assert_eq!(
        settlement.next(&[]),
        Step::Done(Ok(Event::OrderCancelled(OrderCancelled { order_id: id })))
    );
    let order = escrow.get_order(id).unwrap();
    assert_eq!(order.status, OrderStatus::Cancelled);
    assert_eq!(order.seller, None);
}

#[test]
fn terminal_orders_admit_nothing_more() {
    let mut escrow = PolkaPayEscrow::new(OWNER, 200);
    let cancelled = escrow.create_order(ALICE, 1000, NOW, OrderType::Sell).unwrap().order_id;
    escrow.cancel_order(ALICE, cancelled).unwrap();
    let completed = sell_order_with_payment_sent(&mut escrow, 500);
    escrow.complete_order(BOB, completed).unwrap();

    for id in [cancelled, completed] {
        let before = escrow.get_order(id).unwrap();
        assert_eq!(escrow.accept_order(BOB, id), Err(Error::InvalidStatus));
        assert_eq!(escrow.accept_buy_order(BOB, 5, id), Err(Error::InvalidOrderType));
        assert_eq!(escrow.confirm_payment_sent(ALICE, id), Err(Error::InvalidStatus));
        assert_eq!(escrow.cancel_order(ALICE, id), Err(Error::InvalidStatus));
        assert!(escrow.complete_order(ALICE, id).is_err());
        assert!(escrow.resolve_dispute(OWNER, id, true).is_err());
        assert!(escrow.resolve_dispute(OWNER, id, false).is_err());
        assert_eq!(escrow.get_order(id).unwrap(), before);
    }
    assert_eq!(escrow.create_dispute(ALICE, cancelled), Err(Error::InvalidStatus));
    assert_eq!(escrow.create_dispute(BOB, completed), Err(Error::InvalidStatus));
    assert_eq!(escrow.complete_order(ALICE, completed).unwrap_err(), Error::InvalidStatus);
    assert_eq!(escrow.complete_order(ALICE, cancelled).unwrap_err(), Error::InvalidStatus);
    assert_eq!(escrow.complete_order(BOB, cancelled).unwrap_err(), Error::Unauthorized);
    assert_eq!(escrow.resolve_dispute(OWNER, cancelled, true).unwrap_err(), Error::InvalidStatus);
    assert_eq!(escrow.resolve_dispute(OWNER, completed, false).unwrap_err(), Error::InvalidStatus);
}

#[test]
fn dispute_is_opened_by_either_party_after_payment_only() {
    let mut escrow = PolkaPayEscrow::new(OWNER, 200);
    let id = escrow.create_order(ALICE, 1000, NOW, OrderType::Sell).unwrap().order_id;
    assert_eq!(escrow.create_dispute(ALICE, id), Err(Error::InvalidStatus));
    escrow.accept_order(BOB, id).unwrap();
    assert_eq!(escrow.create_dispute(BOB, id), Err(Error::InvalidStatus));
    escrow.confirm_payment_sent(ALICE, id).unwrap();
    assert_eq!(escrow.create_dispute(OWNER, id), Err(Error::Unauthorized));
    assert_eq!(
        escrow.create_dispute(BOB, id),
        Ok(DisputeCreated { order_id: id, initiator: BOB })
    );
    assert_eq!(escrow.get_order(id).unwrap().status, OrderStatus::Disputed);
    assert_eq!(escrow.create_dispute(ALICE, id), Err(Error::InvalidStatus));
    assert_eq!(escrow.complete_order(ALICE, id).unwrap_err(), Error::InvalidStatus);
}

#[test]
fn ruling_for_buyer_refunds_the_buyer_of_a_sell_order() {
    let mut escrow = PolkaPayEscrow::new(OWNER, 200);
    let id = sell_order_with_payment_sent(&mut escrow, 1000);
    escrow.create_dispute(ALICE, id).unwrap();
    let settlement = escrow.resolve_dispute(OWNER, id, true).unwrap();
    assert_eq!(settlement.transfers, vec![Transfer { to: ALICE, amount: 1000 }]);
    assert_eq!(
        settlement.event,
        Event::DisputeResolved(DisputeResolved { order_id: id, favor_buyer: true })
    );
    assert_eq!(escrow.get_order(id).unwrap().status, OrderStatus::Cancelled);
}

#[test]
fn ruling_for_buyer_refunds_the_seller_of_a_buy_order() {
    let mut escrow = PolkaPayEscrow::new(OWNER, 200);
    let id = buy_order_with_payment_sent(&mut escrow, 1000);
    escrow.create_dispute(BOB, id).unwrap();
    let settlement = escrow.resolve_dispute(OWNER, id, true).unwrap();
    assert_eq!(settlement.transfers, vec![Transfer { to: BOB, amount: 1000 }]);
    assert_eq!(escrow.get_order(id).unwrap().status, OrderStatus::Cancelled);
}

#[test]
fn ruling_against_buyer_pays_as_a_completion() {
    let mut escrow = PolkaPayEscrow::new(OWNER, 200);
    let sell = sell_order_with_payment_sent(&mut escrow, 1000);
    escrow.create_dispute(ALICE, sell).unwrap();
    let settlement = escrow.resolve_dispute(OWNER, sell, false).unwrap();
    assert_eq!(
        settlement.transfers,
        vec![Transfer { to: BOB, amount: 980 }, Transfer { to: OWNER, amount: 20 }]
    );
    assert_eq!(
        settlement.event,
        Event::DisputeResolved(DisputeResolved { order_id: sell, favor_buyer: false })
    );
    assert_eq!(escrow.get_order(sell).unwrap().status, OrderStatus::Completed);

    let buy = buy_order_with_payment_sent(&mut escrow, 3000);
    escrow.create_dispute(ALICE, buy).unwrap();
    let settlement = escrow.resolve_dispute(OWNER, buy, false).unwrap();
    assert_eq!(
        settlement.transfers,
        vec![Transfer { to: ALICE, amount: 2940 }, Transfer { to: OWNER, amount: 60 }]
    );
}

#[test]
fn ruling_is_refused_outside_a_dispute() {
    let mut escrow = PolkaPayEscrow::new(OWNER, 200);
    let id = escrow.create_order(ALICE, 1000, NOW, OrderType::Sell).unwrap().order_id;
    // The owner is entitled to rule, but a pending order is under no dispute.
    assert_eq!(escrow.resolve_dispute(OWNER, id, true).unwrap_err(), Error::InvalidStatus);
    assert_eq!(escrow.resolve_dispute(OWNER, id, false).unwrap_err(), Error::InvalidStatus);
    assert_eq!(escrow.get_order(id).unwrap().status, OrderStatus::Pending);
    escrow.accept_order(BOB, id).unwrap();
    assert_eq!(escrow.resolve_dispute(OWNER, id, true).unwrap_err(), Error::InvalidStatus);
    escrow.confirm_payment_sent(ALICE, id).unwrap();
    assert_eq!(escrow.resolve_dispute(OWNER, id, false).unwrap_err(), Error::InvalidStatus);
    assert_eq!(escrow.resolve_dispute(OWNER, 77, false).unwrap_err(), Error::OrderNotFound);
    assert_eq!(escrow.resolve_dispute(ALICE, 77, false).unwrap_err(), Error::Unauthorized);
    escrow.create_dispute(ALICE, id).unwrap();
    assert_eq!(escrow.resolve_dispute(ALICE, id, true).unwrap_err(), Error::Unauthorized);
    assert_eq!(escrow.resolve_dispute(BOB, id, false).unwrap_err(), Error::Unauthorized);
    assert!(escrow.resolve_dispute(OWNER, id, false).is_ok());
    assert_eq!(escrow.resolve_dispute(OWNER, id, false).unwrap_err(), Error::InvalidStatus);
}

#[test]
fn settlement_asks_for_transfers_in_order() {
    let settlement = Settlement {
        transfers: vec![Transfer { to: BOB, amount: 980 }, Transfer { to: OWNER, amount: 20 }],
        event: Event::OrderCompleted(OrderCompleted { order_id: 5 }),
    };
    assert_eq!(settlement.next(&[]), Step::Transfer(Transfer { to: BOB, amount: 980 }));
    assert_eq!(settlement.next(&[true]), Step::Transfer(Transfer { to: OWNER, amount: 20 }));
    assert_eq!(
        settlement.next(&[true, true]),
        Step::Done(Ok(Event::OrderCompleted(OrderCompleted { order_id: 5 })))
    );
}

#[test]
fn settlement_stops_at_the_first_failure() {
    let settlement = Settlement {
        transfers: vec![Transfer { to: BOB, amount: 980 }, Transfer { to: OWNER, amount: 20 }],
        event: Event::OrderCompleted(OrderCompleted { order_id: 5 }),
    };
    assert_eq!(settlement.next(&[false]), Step::Done(Err(Error::TransferFailed)));
    assert_eq!(settlement.next(&[true, false]), Step::Done(Err(Error::TransferFailed)));
    assert_eq!(settlement.next(&[false, true]), Step::Done(Err(Error::TransferFailed)));
    assert_eq!(settlement.next(&[true, true, false]), Step::Done(Err(Error::TransferFailed)));
}

#[test]
fn failed_transfer_leaves_the_order_terminal() {
    let mut escrow = PolkaPayEscrow::new(OWNER, 200);
    let id = sell_order_with_payment_sent(&mut escrow, 1000);
    let settlement = escrow.complete_order(BOB, id).unwrap();

    // The ledger can cover the seller's share but not the fee after it.
    let mut ledger = Ledger::holding(990);
    assert_eq!(carry_out(&settlement, &mut ledger), Err(Error::TransferFailed));
    assert_eq!(ledger.received(BOB), 980);
    assert_eq!(ledger.received(OWNER), 0);
    assert_eq!(escrow.get_order(id).unwrap().status, OrderStatus::Completed);
    assert_eq!(escrow.complete_order(BOB, id).unwrap_err(), Error::InvalidStatus);

    let other = escrow.create_order(ALICE, 700, NOW, OrderType::Sell).unwrap().order_id;
    let refund = escrow.cancel_order(ALICE, other).unwrap();
    let mut empty = Ledger::holding(0);
    assert_eq!(carry_out(&refund, &mut empty), Err(Error::TransferFailed));
    assert!(empty.paid.is_empty());
    assert_eq!(escrow.get_order(other).unwrap().status, OrderStatus::Cancelled);
}

#[test]
fn whole_amount_goes_to_the_owner_at_full_rate() {
    let mut escrow = PolkaPayEscrow::new(OWNER, 10000);
    let id = sell_order_with_payment_sent(&mut escrow, 1000);
    assert_eq!(escrow.get_order(id).unwrap().lp_fee, 1000);
    let settlement = escrow.complete_order(ALICE, id).unwrap();
    assert_eq!(
        settlement.transfers,
        vec![Transfer { to: BOB, amount: 0 }, Transfer { to: OWNER, amount: 1000 }]
    );
}

#[test]
fn rate_above_full_refuses_the_payout() {
    let mut escrow = PolkaPayEscrow::new(OWNER, 10001);
    let id = sell_order_with_payment_sent(&mut escrow, 10000);
    assert_eq!(escrow.get_order(id).unwrap().lp_fee, 10001);
    assert_eq!(escrow.complete_order(ALICE, id).unwrap_err(), Error::InsufficientBalance);
    assert_eq!(escrow.get_order(id).unwrap().status, OrderStatus::PaymentSent);

    escrow.create_dispute(BOB, id).unwrap();
    assert_eq!(escrow.resolve_dispute(OWNER, id, false).unwrap_err(), Error::InsufficientBalance);
    assert_eq!(escrow.resolve_dispute(OWNER, id, true).unwrap_err(), Error::InsufficientBalance);
    assert_eq!(escrow.get_order(id).unwrap().status, OrderStatus::Disputed);

    // A small amount still rounds to a fee within it.
    let small = sell_order_with_payment_sent(&mut escrow, 9999);
    assert_eq!(escrow.get_order(small).unwrap().lp_fee, 9999);
    let settlement = escrow.complete_order(ALICE, small).unwrap();
    assert_eq!(
        settlement.transfers,
        vec![Transfer { to: BOB, amount: 0 }, Transfer { to: OWNER, amount: 9999 }]
    );
}

#[test]
fn buyer_cannot_complete_a_pending_order() {
    let alice = AccountId([1u8; 32]);
    let mut escrow = PolkaPayEscrow::new(alice, 200);
    assert_eq!(escrow.create_order(alice, 1000, NOW, OrderType::Sell).unwrap().order_id, 1);
    assert_eq!(escrow.complete_order(alice, 1).unwrap_err(), Error::InvalidStatus);
    assert_eq!(escrow.get_order(1).unwrap().status, OrderStatus::Pending);
    assert_eq!(escrow.get_order(1).unwrap().seller, None);
}

#[test]
fn owner_cannot_rule_on_a_pending_order() {
    let mut escrow = PolkaPayEscrow::new(ALICE, 200);
    assert_eq!(escrow.create_order(BOB, 1000, NOW, OrderType::Sell).unwrap().order_id, 1);
    assert_eq!(escrow.resolve_dispute(ALICE, 1, true).unwrap_err(), Error::InvalidStatus);
    assert_eq!(escrow.resolve_dispute(ALICE, 1, false).unwrap_err(), Error::InvalidStatus);
    assert_eq!(escrow.get_order(1).unwrap().status, OrderStatus::Pending);
    assert_eq!(escrow.get_order(1).unwrap().seller, None);
}
