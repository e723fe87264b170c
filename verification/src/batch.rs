//! The rules that a batch of payments has to meet before anything is moved.

use vstd::prelude::*;
use crate::error::ContractError;

verus! {

/// Every amount is strictly positive.
pub open spec fn all_positive(amounts: Seq<i128>) -> bool {
    forall|i: int| 0 <= i < amounts.len() ==> amounts[i] > 0
}

/// `index` is the first position of `amounts` that holds zero or a negative
/// amount.
pub open spec fn is_first_non_positive(amounts: Seq<i128>, index: int) -> bool {
    &&& 0 <= index < amounts.len()
    &&& amounts[index] <= 0
    &&& forall|j: int| 0 <= j < index ==> amounts[j] > 0
}

/// The sum of the first `upto` amounts.
pub open spec fn paid(amounts: Seq<i128>, upto: nat) -> int
    recommends
        upto <= amounts.len(),
    decreases upto,
{
    if upto == 0 {
        0
    } else {
        paid(amounts, (upto - 1) as nat) + amounts[upto - 1]
    }
}

/// The sum of all the amounts.
pub open spec fn total(amounts: Seq<i128>) -> int {
    paid(amounts, amounts.len())
}

/// What the service answers to a batch of `recipients` recipients paired with
/// `amounts`: the checks are made in this order, and the first that fails
/// names the error.
pub open spec fn batch_verdict(recipients: nat, amounts: Seq<i128>) -> Result<(), ContractError> {
    if recipients == 0 {
        Err(ContractError::EmptyBatch)
    } else if recipients != amounts.len() {
        Err(ContractError::LengthMismatch)
    } else if !all_positive(amounts) {
        Err(ContractError::NonPositiveAmount)
    } else {
        Ok(())
    }
}

/// A batch that the service accepts: at least one recipient, one amount for
/// each, every amount positive.
pub open spec fn valid_batch(recipients: nat, amounts: Seq<i128>) -> bool {
    &&& recipients > 0
    &&& recipients == amounts.len()
    &&& all_positive(amounts)
}

/// The position of the first amount that is not positive, if there is one.
pub fn first_non_positive(amounts: &Vec<i128>) -> (found: Option<usize>)
    ensures
        match found {
            Some(index) => is_first_non_positive(amounts@, index as int),
            None => all_positive(amounts@),
        },
{
    let mut i: usize = 0;
    while i < amounts.len()
        invariant
            i <= amounts.len(),
            forall|j: int| 0 <= j < i ==> amounts@[j] > 0,
        decreases amounts.len() - i,
    {
        if amounts[i] <= 0 {
            return Some(i);
        }
        i += 1;
    }
    None
}

/// Checks a batch of `recipients` recipients against its `amounts`.
pub fn check_batch(recipients: usize, amounts: &Vec<i128>) -> (verdict: Result<(), ContractError>)
    ensures
        verdict == batch_verdict(recipients as nat, amounts@),
        verdict is Ok <==> valid_batch(recipients as nat, amounts@),
{
    if recipients == 0 {
        return Err(ContractError::EmptyBatch);
    }
    if recipients != amounts.len() {
        return Err(ContractError::LengthMismatch);
    }
    match first_non_positive(amounts) {
        Some(_) => Err(ContractError::NonPositiveAmount),
        None => Ok(()),
    }
}

} // verus!
