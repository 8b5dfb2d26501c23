//! Notifications of committed state changes.

use vstd::prelude::*;
use crate::account::AccountId;
use crate::fee::Balance;

verus! {

/// An order was created.
#[derive(Debug, Clone, Copy, PartialEq, Eq)]
pub struct OrderCreated {
    pub order_id: u64,
    pub buyer: AccountId,
    pub amount: Balance,
}

/// A counterparty accepted an order and became its seller.
#[derive(Debug, Clone, Copy, PartialEq, Eq)]
pub struct OrderAccepted {
    pub order_id: u64,
    pub seller: AccountId,
}

/// An order was completed and its funds released.
#[derive(Debug, Clone, Copy, PartialEq, Eq)]
pub struct OrderCompleted {
    pub order_id: u64,
}

/// An order was cancelled before acceptance.
#[derive(Debug, Clone, Copy, PartialEq, Eq)]
pub struct OrderCancelled {
    pub order_id: u64,
}

/// A party to an order opened a dispute.
#[derive(Debug, Clone, Copy, PartialEq, Eq)]
pub struct DisputeCreated {
    pub order_id: u64,
    pub initiator: AccountId,
}

/// The owner resolved a dispute.
#[derive(Debug, Clone, Copy, PartialEq, Eq)]
pub struct DisputeResolved {
    pub order_id: u64,
    pub favor_buyer: bool,
}

/// Any one of the notifications.
#[derive(Debug, Clone, Copy, PartialEq, Eq)]
pub enum Event {
    OrderCreated(OrderCreated),
    OrderAccepted(OrderAccepted),
    OrderCompleted(OrderCompleted),
    OrderCancelled(OrderCancelled),
    DisputeCreated(DisputeCreated),
    DisputeResolved(DisputeResolved),
}

} // verus!
