//! The order record, its status alphabet and the error taxonomy.

use vstd::prelude::*;
use crate::account::AccountId;
use crate::fee::{fee, fee_fits, fee_of, Balance};

verus! {

/// Which side deposits the custodied asset.
#[derive(Debug, PartialEq, Eq, Clone, Copy, Structural)]
pub enum OrderType {
    /// The creator deposits the asset when the order is created.
    Sell,
    /// The accepting liquidity provider deposits the asset on acceptance.
    Buy,
}

/// Where an order stands in its lifecycle.
#[derive(Debug, PartialEq, Eq, Clone, Copy, Structural)]
pub enum OrderStatus {
    Pending,
    Accepted,
    PaymentSent,
    Completed,
    Disputed,
    Cancelled,
}

/// Why an operation was refused.
#[derive(Debug, PartialEq, Eq, Clone, Copy, Structural)]
pub enum Error {
    OrderNotFound,
    Unauthorized,
    InvalidStatus,
    InsufficientBalance,
    TransferFailed,
    ContractPaused,
    InvalidOrderType,
    InvalidAmount,
}

/// One escrow deal.
#[derive(Debug, Clone, Copy, PartialEq, Eq)]
pub struct Order {
    pub id: u64,
    pub order_type: OrderType,
    /// The creator of the order.
    pub buyer: AccountId,
    /// The accepting counterparty, unset until acceptance.
    pub seller: Option<AccountId>,
    /// The custodied value; zero for a Buy order until it is accepted.
    pub amount: Balance,
    /// The share of `amount` owed to the owner.
    pub lp_fee: Balance,
    pub status: OrderStatus,
    pub created_at: u64,
}

impl OrderStatus {
    /// `Completed` and `Cancelled` admit no further transition.
    pub open spec fn is_terminal(self) -> bool {
        self == OrderStatus::Completed || self == OrderStatus::Cancelled
    }

    /// The moves that the lifecycle allows: whether an order in this status
    /// can pass to the status `next` in one step.
    pub open spec fn may_become(self, next: OrderStatus) -> bool {
        match self {
            OrderStatus::Pending => next == OrderStatus::Accepted || next == OrderStatus::Cancelled,
            OrderStatus::Accepted => next == OrderStatus::PaymentSent,
            OrderStatus::PaymentSent => next == OrderStatus::Completed || next
                == OrderStatus::Disputed,
            OrderStatus::Disputed => next == OrderStatus::Completed || next
                == OrderStatus::Cancelled,
            OrderStatus::Completed => false,
            OrderStatus::Cancelled => false,
        }
    }
}

impl Order {
    /// Whether `who` is the buyer or the seller of this order.
    pub open spec fn is_party(self, who: AccountId) -> bool {
        who == self.buyer || self.seller == Some(who)
    }

    /// The party whose funds are in custody: the buyer of a Sell order, the
    /// seller of a Buy order (nobody before a Buy order is accepted).
    pub open spec fn depositor(self) -> Option<AccountId> {
        match self.order_type {
            OrderType::Sell => Some(self.buyer),
            OrderType::Buy => self.seller,
        }
    }

    /// The party for whom the asset is meant: the seller of a Sell order, the
    /// buyer of a Buy order.
    pub open spec fn beneficiary(self) -> Option<AccountId> {
        match self.order_type {
            OrderType::Sell => self.seller,
            OrderType::Buy => Some(self.buyer),
        }
    }

    /// Whether a deposit is in custody for this order: always for a Sell
    /// order, for a Buy order once a seller has accepted it.
    pub open spec fn funded(self) -> bool {
        self.order_type == OrderType::Sell || self.seller is Some
    }

    /// The value in custody for this order: its amount from the deposit
    /// until the order is completed or cancelled, and nothing before or
    /// after.
    pub open spec fn in_custody(self) -> int {
        if self.funded() && !self.status.is_terminal() {
            self.amount as int
        } else {
            0
        }
    }

    /// The shape every order has under a fee rate of `bps` basis points:
    /// identifiers start at one, a seller is recorded exactly when the order
    /// has left `Pending` by acceptance, and the amount and fee are fixed
    /// together when the deposit arrives.
    pub open spec fn wf(self, bps: u16) -> bool {
        &&& self.id >= 1
        &&& self.status == OrderStatus::Pending ==> self.seller is None
        &&& self.seller is None ==> self.status == OrderStatus::Pending || self.status
            == OrderStatus::Cancelled
        &&& if self.funded() {
            &&& self.amount > 0
            &&& fee_fits(self.amount, bps)
            &&& self.lp_fee == fee_of(self.amount as int, bps as int)
        } else {
            self.amount == 0 && self.lp_fee == 0
        }
    }

    /// Checks the shape of this order under a fee rate of `bps` basis points.
    pub fn is_wf(&self, bps: u16) -> (ok: bool)
        ensures
            ok == self.wf(bps),
    {
        if self.id == 0 {
            return false;
        }
        let pending = self.status == OrderStatus::Pending;
        let cancelled = self.status == OrderStatus::Cancelled;
        let funded = match self.seller {
            Some(_) => {
                if pending {
                    return false;
                }
                true
            },
            None => {
                if !pending && !cancelled {
                    return false;
                }
                self.order_type == OrderType::Sell
            },
        };
        if funded {
            match fee(self.amount, bps) {
                Some(lp_fee) => self.amount > 0 && self.lp_fee == lp_fee,
                None => false,
            }
        } else {
            self.amount == 0 && self.lp_fee == 0
        }
    }
}

} // verus!
