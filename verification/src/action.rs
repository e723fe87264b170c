//! What the service asks its host to do once it has accepted an invocation.

use vstd::prelude::*;
use soroban_sdk::{Address, BytesN};
use crate::contract::DataKey;

verus! {

/// The change that an accepted invocation asks of the host. The host applies
/// it as a whole or not at all, and only after the account returned by
/// [`Action::authorizer`], if there is one, has authorised the invocation.
pub enum Action {
    /// Store the first administrator.
    Install { admin: Address },
    /// Move `amounts[i]` of `token` from `from` to `recipients[i]`, from the
    /// first pair to the last.
    Pay { token: Address, from: Address, recipients: Vec<Address>, amounts: Vec<i128> },
    /// Replace the administrator `current` by `next`.
    Rotate { current: Address, next: Address },
    /// Replace the program's code by the module that `code` identifies.
    Upgrade { admin: Address, code: BytesN<32> },
    /// Extend the lifetime of the service's storage as far as the host allows.
    ExtendLifetime,
}

/// What is left to ask of the host once an action has been applied. The
/// host ends the invocation inside a request that it refuses, and its storage
/// answers only while a contract runs, so such a request is made last, by the
/// caller.
#[derive(Debug, PartialEq, Eq)]
pub enum Pending {
    /// Nothing is left.
    Nothing,
    /// The host is still to store `value` under `key`.
    Store { key: DataKey, value: Address },
    /// The host is still to replace the program's code by the module that the
    /// hash identifies.
    Code(BytesN<32>),
    /// The host is still to extend the lifetime of the service's storage and
    /// code, by the request that
    /// [`lifetime_request`](crate::host::lifetime_request) makes of the
    /// longest lifetime that the host gives.
    Lifetime,
}

/// An [`Action`] as a mathematical value.
pub enum ActionView {
    Install { admin: Address },
    Pay { token: Address, from: Address, recipients: Seq<Address>, amounts: Seq<i128> },
    Rotate { current: Address, next: Address },
    Upgrade { admin: Address, code: BytesN<32> },
    ExtendLifetime,
}

impl ActionView {
    /// The account that has to authorise the invocation before the action is
    /// applied.
    pub open spec fn authorizer(self) -> Option<Address> {
        match self {
            ActionView::Install { .. } => None,
            ActionView::Pay { from, .. } => Some(from),
            ActionView::Rotate { current, .. } => Some(current),
            ActionView::Upgrade { admin, .. } => Some(admin),
            ActionView::ExtendLifetime => None,
        }
    }

    /// The administrator record that the action stores.
    pub open spec fn record(self) -> Option<Address> {
        match self {
            ActionView::Install { admin } => Some(admin),
            ActionView::Rotate { next, .. } => Some(next),
            _ => None,
        }
    }
}

impl View for Action {
    type V = ActionView;

    open spec fn view(&self) -> ActionView {
        match *self {
            Action::Install { admin } => ActionView::Install { admin },
            Action::Pay { token, from, recipients, amounts } => ActionView::Pay {
                token,
                from,
                recipients: recipients@,
                amounts: amounts@,
            },
            Action::Rotate { current, next } => ActionView::Rotate { current, next },
            Action::Upgrade { admin, code } => ActionView::Upgrade { admin, code },
            Action::ExtendLifetime => ActionView::ExtendLifetime,
        }
    }
}

impl Action {
    /// The account that has to authorise the invocation before the action is
    /// applied; `None` where anybody may ask for it.
    pub fn authorizer(&self) -> (who: Option<&Address>)
        ensures
            match who {
                Some(account) => self@.authorizer() == Some(*account),
                None => self@.authorizer() is None,
            },
    {
        match self {
            Action::Install { .. } => None,
            Action::Pay { from, .. } => Some(from),
            Action::Rotate { current, .. } => Some(current),
            Action::Upgrade { admin, .. } => Some(admin),
            Action::ExtendLifetime => None,
        }
    }
}

} // verus!
