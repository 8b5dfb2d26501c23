//! Fund movements out of custody, and the protocol for carrying them out.
//!
//! An operation that releases funds first commits the order's new status and
//! hands back a [`Settlement`]: the transfers to attempt, in order, and the
//! notification to send once all of them went through. The caller performs
//! one transfer at a time against the ledger and asks [`Settlement::next`]
//! what to do after each outcome.

use vstd::prelude::*;
use crate::account::AccountId;
use crate::events::Event;
use crate::fee::Balance;
use crate::order::{Error, Order, OrderType};

verus! {

/// A movement of `amount` out of custody to the account `to`.
#[derive(Debug, Clone, Copy, PartialEq, Eq)]
pub struct Transfer {
    pub to: AccountId,
    pub amount: Balance,
}

/// The fund movements that a committed transition owes, with the
/// notification that concludes it.
#[derive(Debug, Clone, PartialEq, Eq)]
pub struct Settlement {
    pub transfers: Vec<Transfer>,
    pub event: Event,
}

/// What remains to be done for a settlement.
#[derive(Debug, Clone, Copy, PartialEq, Eq)]
pub enum Step {
    /// Attempt this transfer and report its outcome.
    Transfer(Transfer),
    /// Nothing more to attempt: send the notification, or report the failure.
    Done(Result<Event, Error>),
}

/// A settlement as a mathematical value.
pub struct SettlementView {
    pub transfers: Seq<Transfer>,
    pub event: Event,
}

impl View for Settlement {
    type V = SettlementView;

    open spec fn view(&self) -> SettlementView {
        SettlementView { transfers: self.transfers@, event: self.event }
    }
}

/// Releasing a completed order: the amount less the fee goes to the
/// beneficiary, the fee goes to the owner. Meaningful for an order with a
/// seller whose fee does not exceed its amount.
pub open spec fn payout(order: Order, owner: AccountId) -> Seq<Transfer>
    recommends
        order.seller is Some,
        order.lp_fee <= order.amount,
{
    seq![
        Transfer { to: order.beneficiary()->Some_0, amount: (order.amount - order.lp_fee) as Balance },
        Transfer { to: owner, amount: order.lp_fee },
    ]
}

/// Returning the deposit: the whole amount goes back to the depositor, and
/// nothing moves where nothing is in custody.
pub open spec fn refund(order: Order) -> Seq<Transfer> {
    if order.funded() && order.amount > 0 {
        seq![Transfer { to: order.depositor()->Some_0, amount: order.amount }]
    } else {
        Seq::empty()
    }
}

/// The sum of the amounts of `transfers`.
pub open spec fn total(transfers: Seq<Transfer>) -> int
    decreases transfers.len(),
{
    if transfers.len() == 0 {
        0
    } else {
        total(transfers.drop_last()) + transfers.last().amount
    }
}

impl SettlementView {
    /// The step that follows once the first `outcomes.len()` transfers have
    /// been attempted with the given outcomes (`true` for success): a failed
    /// transfer ends the settlement with `TransferFailed` and without a
    /// notification; otherwise the next transfer is due, or, after the last
    /// one, the notification.
    pub open spec fn next(self, outcomes: Seq<bool>) -> Step {
        if outcomes.contains(false) {
            Step::Done(Err(Error::TransferFailed))
        } else if outcomes.len() < self.transfers.len() {
            Step::Transfer(self.transfers[outcomes.len() as int])
        } else {
            Step::Done(Ok(self.event))
        }
    }
}

/// The transfers that release `order`: its amount less the fee to the
/// beneficiary, the fee to the owner.
pub(crate) fn payout_transfers(order: &Order, owner: AccountId) -> (transfers: Vec<Transfer>)
    requires
        order.seller is Some,
        order.lp_fee <= order.amount,
    ensures
        transfers@ == payout(*order, owner),
{
    let beneficiary = match order.order_type {
        OrderType::Sell => match order.seller {
            Some(seller) => seller,
            None => vstd::pervasive::unreached(),
        },
        OrderType::Buy => order.buyer,
    };
    let mut transfers: Vec<Transfer> = Vec::new();
    transfers.push(Transfer { to: beneficiary, amount: order.amount - order.lp_fee });
    transfers.push(Transfer { to: owner, amount: order.lp_fee });
    proof {
        assert(transfers@ =~= payout(*order, owner));
    }
    transfers
}

/// The transfers that return the deposit of `order` to its depositor.
pub(crate) fn refund_transfers(order: &Order) -> (transfers: Vec<Transfer>)
    ensures
        transfers@ == refund(*order),
{
    let mut transfers: Vec<Transfer> = Vec::new();
    if order.amount > 0 {
        match order.order_type {
            OrderType::Sell => {
                transfers.push(Transfer { to: order.buyer, amount: order.amount });
            },
            OrderType::Buy => {
                if let Some(seller) = order.seller {
                    transfers.push(Transfer { to: seller, amount: order.amount });
                }
            },
        }
    }
    proof {
        assert(transfers@ =~= refund(*order));
    }
    transfers
}

impl Settlement {
    /// Decides the next step from the outcomes of the transfers attempted so
    /// far, in the order in which they were attempted.
    pub fn next(&self, outcomes: &[bool]) -> (step: Step)
        ensures
            step == self@.next(outcomes@),
    {
        let mut i: usize = 0;
        while i < outcomes.len()
            invariant
                i <= outcomes@.len(),
                forall|j: int| 0 <= j < i ==> outcomes@[j],
            decreases outcomes@.len() - i,
        {
            if !outcomes[i] {
                assert(outcomes@[i as int] == false);
                return Step::Done(Err(Error::TransferFailed));
            }
            i += 1;
        }
        if outcomes.len() < self.transfers.len() {
            Step::Transfer(self.transfers[outcomes.len()])
        } else {
            Step::Done(Ok(self.event))
        }
    }
}

} // verus!
