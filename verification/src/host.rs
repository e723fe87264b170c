//! The calls into the token, and what the service makes of the host's
//! answers. The requests to the host's own storage are left to the caller:
//! [`apply`] hands them back as a [`Pending`].

use vstd::prelude::*;
use soroban_sdk::address_payload::AddressPayload;
use soroban_sdk::token::TokenClient;
use soroban_sdk::{Address, ConversionError, Env, InvokeError};
use crate::action::{Action, ActionView, Pending};
use crate::batch::{batch_verdict, check_batch};
use crate::contract::DataKey;
use crate::error::ContractError;

verus! {

/// `soroban_sdk::Env`, the handle to the host; opaque here.
#[verifier::external_type_specification]
#[verifier::external_body]
pub struct ExEnv(soroban_sdk::Env);

/// `soroban_sdk::Address`, the identifier of an account or a contract;
/// opaque here.
#[verifier::external_type_specification]
#[verifier::external_body]
pub struct ExAddress(soroban_sdk::Address);

/// `soroban_sdk::BytesN`, a byte string of fixed length that the host keeps;
/// opaque here.
#[verifier::external_type_specification]
#[verifier::external_body]
pub struct ExBytesN<const N: usize>(soroban_sdk::BytesN<N>);

/// `soroban_sdk::ConversionError`, the error of a failed conversion from the
/// host's form; opaque here.
#[verifier::external_type_specification]
#[verifier::external_body]
pub struct ExConversionError(soroban_sdk::ConversionError);

/// `soroban_sdk::Error`, an error that a contract or the host reports;
/// opaque here.
#[verifier::external_type_specification]
#[verifier::external_body]
pub struct ExHostError(soroban_sdk::Error);

/// `soroban_sdk::InvokeError`, the error of a failed call of another
/// contract; opaque here.
#[verifier::external_type_specification]
#[verifier::external_body]
pub struct ExInvokeError(soroban_sdk::InvokeError);

/// What the token's client answers to a transfer.
pub type TransferAnswer = Result<Result<(), ConversionError>, Result<soroban_sdk::Error, InvokeError>>;

/// Whether `address` is the address of a contract: what
/// `AddressPayload::from_address` of `soroban_sdk::address_payload` answers
/// with its case for a contract's hash.
pub uninterp spec fn is_contract(address: Address) -> bool;

/// Calls `AddressPayload::from_address` of `soroban_sdk::address_payload`,
/// which reads the kind of an address out of the address itself, and says
/// whether it found a contract's address.
#[verifier::external_body]
fn names_contract(address: &Address) -> (contract: bool)
    ensures
        contract == is_contract(*address),
{
    match AddressPayload::from_address(address) {
        Some(AddressPayload::ContractIdHash(_)) => true,
        Some(AddressPayload::AccountIdPublicKeyEd25519(_)) => false,
        None => false,
    }
}

/// Calls `try_transfer` of `soroban_sdk::token::TokenClient` on the token
/// contract at `token`: asks it to move `amount` from `from` to `to`, and
/// hands back the client's answer, which reports a transfer that the token
/// refused as an error. The host takes a contract's address only. Nothing is
/// claimed of the answer.
#[verifier::external_body]
fn try_transfer(env: &Env, token: &Address, from: &Address, to: &Address, amount: i128) -> (answer:
    TransferAnswer)
    requires
        is_contract(*token),
{
    TokenClient::new(env, token).try_transfer(from, to, &amount)
}

/// The administrator record that a read of the storage stands for: a value
/// that is no address counts as no record.
pub open spec fn record_of(read: Option<Result<Address, ConversionError>>) -> Option<Address> {
    match read {
        Some(Ok(admin)) => Some(admin),
        _ => None,
    }
}

/// The administrator record that a read of the storage stands for: `read` is
/// `None` where the host holds nothing under [`DataKey::Admin`], and else
/// what the conversion of the stored value to an address gave.
pub fn stored_admin(read: Option<Result<Address, ConversionError>>) -> (record: Option<Address>)
    ensures
        record == record_of(read),
{
    match read {
        Some(Ok(admin)) => Some(admin),
        _ => None,
    }
}

/// What a transfer's answer means to the service: done, or refused by the
/// token.
pub open spec fn verdict_of(answer: TransferAnswer) -> Result<(), ContractError> {
    match answer {
        Ok(Ok(_)) => Ok(()),
        _ => Err(ContractError::TransferFailure),
    }
}

/// What a transfer's answer means to the service.
pub fn transfer_verdict(answer: TransferAnswer) -> (verdict: Result<(), ContractError>)
    ensures
        verdict == verdict_of(answer),
{
    match answer {
        Ok(Ok(_)) => Ok(()),
        _ => Err(ContractError::TransferFailure),
    }
}

/// The request that keeps the service alive, given the longest lifetime that
/// the host gives: the threshold below which the host extends, and the
/// lifetime it extends to. Both are the longest lifetime, so that the host
/// extends whenever it can, and as far as it can.
pub open spec fn request_for(longest: u32) -> (u32, u32) {
    (longest, longest)
}

/// The request that keeps the service alive, given the longest lifetime that
/// the host gives: first the threshold, then the lifetime to extend to.
pub fn lifetime_request(longest: u32) -> (request: (u32, u32))
    ensures
        request == request_for(longest),
        request.0 == longest,
        request.1 == longest,
        request.0 <= request.1,
{
    (longest, longest)
}

/// What comes next in the payment of a batch.
#[derive(Debug, PartialEq, Eq)]
pub enum Step {
    /// The token is asked for the payment at `index`.
    Ask { index: usize },
    /// The payment of the batch ends, with this outcome.
    End(Result<(), ContractError>),
}

/// What comes next in the payment of a batch of `count` payments, of which
/// the first `done` were asked for and the last of these ended as `last`: the
/// batch ends at the first payment that failed, goes on with the next
/// payment while one is left, and ends well after the last.
pub open spec fn step_of(count: nat, done: nat, last: Result<(), ContractError>) -> Step {
    if last is Err {
        Step::End(last)
    } else if done < count {
        Step::Ask { index: done as usize }
    } else {
        Step::End(Ok(()))
    }
}

/// What comes next in the payment of a batch of `count` payments, of which
/// the first `done` were asked for and the last of these ended as `last`.
pub fn next_step(count: usize, done: usize, last: Result<(), ContractError>) -> (step: Step)
    ensures
        step == step_of(count as nat, done as nat, last),
{
    match last {
        Err(error) => Step::End(Err(error)),
        Ok(_) => if done < count {
            Step::Ask { index: done }
        } else {
            Step::End(Ok(()))
        },
    }
}

/// The payment at `index` of a batch: the recipient and the amount that the
/// batch pairs at that position.
pub fn payment_at<'a>(recipients: &'a Vec<Address>, amounts: &Vec<i128>, index: usize) -> (request:
    (&'a Address, i128))
    requires
        index < recipients.len(),
        recipients.len() == amounts.len(),
    ensures
        *request.0 == recipients@[index as int],
        request.1 == amounts@[index as int],
{
    (&recipients[index], amounts[index])
}

/// How [`pay`] ends where the token refuses no transfer.
pub open spec fn paid_out(token: Address, recipients: Seq<Address>, amounts: Seq<i128>) -> Result<
    (),
    ContractError,
> {
    match batch_verdict(recipients.len(), amounts) {
        Err(error) => Err(error),
        Ok(_) => if is_contract(token) {
            Ok(())
        } else {
            Err(ContractError::TransferFailure)
        },
    }
}

/// Makes the payments of a batch: it asks the token for the payment that
/// [`payment_at`] gives, in the order and for as long as [`next_step`] says,
/// so from the first to the last, stopping at the first that the token
/// refuses. A batch that breaks a rule is refused before any payment is asked
/// for, and so is every batch with a `token` that is no contract's address.
///
/// The payments made before a refused one stay made when `pay` returns: the
/// host undoes them only when the invocation fails, so the caller has to fail
/// the invocation on every error.
pub fn pay(
    env: &Env,
    token: &Address,
    from: &Address,
    recipients: &Vec<Address>,
    amounts: &Vec<i128>,
) -> (outcome: Result<(), ContractError>)
    ensures
        match paid_out(*token, recipients@, amounts@) {
            Err(error) => outcome == Err::<(), ContractError>(error),
            Ok(_) => outcome is Ok || outcome == Err::<(), ContractError>(
                ContractError::TransferFailure,
            ),
        },
{
    match check_batch(recipients.len(), amounts) {
        Ok(_) => {},
        Err(error) => {
            return Err(error);
        },
    }
    if !names_contract(token) {
        return Err(ContractError::TransferFailure);
    }
    let count: usize = recipients.len();
    let mut done: usize = 0;
    let mut last: Result<(), ContractError> = Ok(());
    loop
        invariant
            count == recipients.len(),
            count == amounts.len(),
            done <= count,
            is_contract(*token),
            paid_out(*token, recipients@, amounts@) is Ok,
            last is Ok || last == Err::<(), ContractError>(ContractError::TransferFailure),
        decreases count - done,
    {
        match next_step(count, done, last) {
            Step::End(outcome) => {
                return outcome;
            },
            Step::Ask { index } => {
                let request = payment_at(recipients, amounts, index);
                last = transfer_verdict(try_transfer(env, token, from, request.0, request.1));
                done = done + 1;
            },
        }
    }
}

/// How [`apply`] ends where the token refuses no transfer.
pub open spec fn applied(action: ActionView, authorised: bool) -> Result<Pending, ContractError> {
    if action.authorizer() is Some && !authorised {
        Err(ContractError::AuthorizationFailure)
    } else {
        match action {
            ActionView::Install { admin } => Ok(Pending::Store { key: DataKey::Admin, value: admin }),
            ActionView::Pay { token, recipients, amounts, .. } => match paid_out(
                token,
                recipients,
                amounts,
            ) {
                Ok(_) => Ok(Pending::Nothing),
                Err(error) => Err(error),
            },
            ActionView::Rotate { next, .. } => Ok(Pending::Store { key: DataKey::Admin, value: next }),
            ActionView::Upgrade { code, .. } => Ok(Pending::Code(code)),
            ActionView::ExtendLifetime => Ok(Pending::Lifetime),
        }
    }
}

/// Carries `action` out as far as the token is concerned, and hands back what
/// is left to ask of the host itself. `authorised` tells whether the host has
/// confirmed that the account of [`Action::authorizer`] authorised the
/// running invocation; without that, an action that needs it is refused and
/// nothing is asked for. Of the actions that are authorised and valid, only a
/// payment can fail: where the token refuses a transfer.
///
/// The payments made before a refused one stay made when `apply` returns: the
/// host undoes them only when the invocation fails, so the caller has to fail
/// the invocation on every error, and where the host refuses what was left
/// to ask.
pub fn apply(env: &Env, action: Action, authorised: bool) -> (outcome: Result<
    Pending,
    ContractError,
>)
    ensures
        match applied(action@, authorised) {
            Err(error) => outcome == Err::<Pending, ContractError>(error),
            Ok(pending) => outcome == Ok::<Pending, ContractError>(pending) || (action@ is Pay
                && outcome == Err::<Pending, ContractError>(ContractError::TransferFailure)),
        },
{
    if action.authorizer().is_some() && !authorised {
        return Err(ContractError::AuthorizationFailure);
    }
    match action {
        Action::Install { admin } => Ok(Pending::Store { key: DataKey::Admin, value: admin }),
        Action::Pay { token, from, recipients, amounts } => match pay(
            env,
            &token,
            &from,
            &recipients,
            &amounts,
        ) {
            Ok(_) => Ok(Pending::Nothing),
            Err(error) => Err(error),
        },
        Action::Rotate { current: _, next } => Ok(Pending::Store { key: DataKey::Admin, value: next }),
        Action::Upgrade { admin: _, code } => Ok(Pending::Code(code)),
        Action::ExtendLifetime => Ok(Pending::Lifetime),
    }
}

} // verus!
