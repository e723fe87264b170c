//! The service's operations. Each one decides, from what the host has stored
//! and from its arguments, whether the invocation is refused or which
//! [`Action`] the host is to apply; [`apply`](crate::host::apply) then
//! carries the action out.

use vstd::prelude::*;
use soroban_sdk::{Address, BytesN};
use crate::action::{Action, ActionView};
use crate::batch::{batch_verdict, check_batch};
use crate::error::ContractError;

verus! {

/// The keys under which the service stores its state.
#[derive(Clone, Copy, Debug, PartialEq, Eq, Structural)]
pub enum DataKey {
    /// The administrator record.
    Admin,
}

/// A decision as a mathematical value.
pub open spec fn decision(outcome: Result<Action, ContractError>) -> Result<
    ActionView,
    ContractError,
> {
    match outcome {
        Ok(action) => Ok(action@),
        Err(error) => Err(error),
    }
}

/// `initialize` stores `admin` unless an administrator record exists.
pub open spec fn decide_initialize(initialized: bool, admin: Address) -> Result<
    ActionView,
    ContractError,
> {
    if initialized {
        Err(ContractError::AlreadyInitialized)
    } else {
        Ok(ActionView::Install { admin })
    }
}

/// `batch_transfer` pays the whole batch, on `from`'s authority, if the batch
/// meets the rules of [`batch_verdict`], and refuses it with the error named
/// there if not.
pub open spec fn decide_batch_transfer(
    token: Address,
    from: Address,
    recipients: Seq<Address>,
    amounts: Seq<i128>,
) -> Result<ActionView, ContractError> {
    match batch_verdict(recipients.len(), amounts) {
        Ok(_) => Ok(ActionView::Pay { token, from, recipients, amounts }),
        Err(error) => Err(error),
    }
}

/// `admin` reads the administrator record.
pub open spec fn decide_admin(record: Option<Address>) -> Result<Address, ContractError> {
    match record {
        Some(admin) => Ok(admin),
        None => Err(ContractError::NotInitialized),
    }
}

/// `set_admin` replaces the administrator on the authority of the current
/// one.
pub open spec fn decide_set_admin(record: Option<Address>, new_admin: Address) -> Result<
    ActionView,
    ContractError,
> {
    match record {
        Some(current) => Ok(ActionView::Rotate { current, next: new_admin }),
        None => Err(ContractError::NotInitialized),
    }
}

/// `upgrade` replaces the program's code on the authority of the
/// administrator.
pub open spec fn decide_upgrade(record: Option<Address>, new_wasm_hash: BytesN<32>) -> Result<
    ActionView,
    ContractError,
> {
    match record {
        Some(admin) => Ok(ActionView::Upgrade { admin, code: new_wasm_hash }),
        None => Err(ContractError::NotInitialized),
    }
}

/// The batch-transfer service.
pub struct BatchTransferContract;

impl BatchTransferContract {
    /// Makes `admin` the administrator. `initialized` says whether the host
    /// holds an administrator record under [`DataKey::Admin`]. Nobody has to
    /// authorise this: it can succeed only once.
    pub fn initialize(initialized: bool, admin: Address) -> (outcome: Result<Action, ContractError>)
        ensures
            decision(outcome) == decide_initialize(initialized, admin),
    {
        if initialized {
            Err(ContractError::AlreadyInitialized)
        } else {
            Ok(Action::Install { admin })
        }
    }

    /// Pays `amounts[i]` of `token` from `from` to `recipients[i]`, for every
    /// position of the batch or for none. The batch has to name a recipient,
    /// hold one amount for each recipient, and hold positive amounts only.
    /// `from` authorises the invocation once, for all the payments.
    pub fn batch_transfer(
        token: Address,
        from: Address,
        recipients: Vec<Address>,
        amounts: Vec<i128>,
    ) -> (outcome: Result<Action, ContractError>)
        ensures
            decision(outcome) == decide_batch_transfer(token, from, recipients@, amounts@),
    {
        match check_batch(recipients.len(), &amounts) {
            Ok(_) => Ok(Action::Pay { token, from, recipients, amounts }),
            Err(error) => Err(error),
        }
    }

    /// The administrator, given the administrator record that the host holds
    /// under [`DataKey::Admin`].
    pub fn admin(record: Option<Address>) -> (outcome: Result<Address, ContractError>)
        ensures
            outcome == decide_admin(record),
    {
        match record {
            Some(admin) => Ok(admin),
            None => Err(ContractError::NotInitialized),
        }
    }

    /// Hands the administrator's role to `new_admin`, at once. `record` is
    /// the administrator record that the host holds; the administrator named
    /// there authorises the invocation.
    pub fn set_admin(record: Option<Address>, new_admin: Address) -> (outcome: Result<
        Action,
        ContractError,
    >)
        ensures
            decision(outcome) == decide_set_admin(record, new_admin),
    {
        match record {
            Some(current) => Ok(Action::Rotate { current, next: new_admin }),
            None => Err(ContractError::NotInitialized),
        }
    }

    /// Replaces the program's code by the module that `new_wasm_hash`
    /// identifies. `record` is the administrator record that the host holds;
    /// the administrator named there authorises the invocation. The hash is
    /// handed to the host as it is: where the host holds no such module, it
    /// fails the invocation when it is asked to put the module in place.
    pub fn upgrade(record: Option<Address>, new_wasm_hash: BytesN<32>) -> (outcome: Result<
        Action,
        ContractError,
    >)
        ensures
            decision(outcome) == decide_upgrade(record, new_wasm_hash),
    {
        match record {
            Some(admin) => Ok(Action::Upgrade { admin, code: new_wasm_hash }),
            None => Err(ContractError::NotInitialized),
        }
    }

    /// Extends the lifetime of the service's storage and code to the longest
    /// that the host gives. Anybody may ask for it.
    pub fn extend_ttl() -> (action: Action)
        ensures
            action@ == ActionView::ExtendLifetime,
    {
        Action::ExtendLifetime
    }
}

} // verus!
