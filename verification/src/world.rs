//! A model of what the host keeps for the service, and of what an invocation
//! does to it. The laws of the service are stated over this model.

use vstd::prelude::*;
use soroban_sdk::{Address, BytesN};
use crate::action::ActionView;
use crate::batch::paid;
use crate::contract::{
    decide_admin, decide_batch_transfer, decide_initialize, decide_set_admin, decide_upgrade,
};
use crate::error::ContractError;
use crate::host::{is_contract, request_for};

verus! {

/// The balances of the tokens: what each account holds of each token. An
/// account that the map does not name holds nothing.
pub type Balances = Map<(Address, Address), int>;

/// What the host keeps: the administrator record, the code that the service
/// runs (`None` for the code it was deployed with), the modules that were
/// uploaded to it, the balances of the tokens, the lifetime that the
/// service's storage has left and the longest lifetime that the host gives,
/// both in ledgers, and whether the host's own limits let it extend a
/// lifetime.
pub struct World {
    pub admin: Option<Address>,
    pub code: Option<BytesN<32>>,
    pub modules: Set<BytesN<32>>,
    pub balances: Balances,
    pub lifetime: u32,
    pub longest: u32,
    pub extends: bool,
}

/// The lifetime that the host leaves an entry with `lifetime` ledgers to
/// live when it is asked to extend to `extend_to` ledgers below the threshold
/// `threshold`: it extends only an entry at or below the threshold, never
/// beyond the `longest` lifetime it gives, and it never shortens.
pub open spec fn extended(lifetime: u32, longest: u32, threshold: u32, extend_to: u32) -> u32 {
    let target = if extend_to <= longest {
        extend_to
    } else {
        longest
    };
    if lifetime <= threshold && lifetime < target {
        target
    } else {
        lifetime
    }
}

/// What `account` holds of `token`.
pub open spec fn holding(balances: Balances, token: Address, account: Address) -> int {
    if balances.contains_key((token, account)) {
        balances[(token, account)]
    } else {
        0
    }
}

/// The token's transfer: it moves `amount` of `token` from `from` to `to`,
/// and fails where `token` is no contract or `from` holds less than that.
pub open spec fn transfer(
    balances: Balances,
    token: Address,
    from: Address,
    to: Address,
    amount: int,
) -> Option<Balances> {
    if !is_contract(token) || amount < 0 || holding(balances, token, from) < amount {
        None
    } else {
        let debited = balances.insert((token, from), holding(balances, token, from) - amount);
        Some(debited.insert((token, to), holding(debited, token, to) + amount))
    }
}

/// The first `upto` payments of a batch, made in order; `None` as soon as one
/// of them fails.
pub open spec fn settle(
    balances: Balances,
    token: Address,
    from: Address,
    recipients: Seq<Address>,
    amounts: Seq<i128>,
    upto: nat,
) -> Option<Balances>
    recommends
        upto <= recipients.len(),
        upto <= amounts.len(),
    decreases upto,
{
    if upto == 0 {
        Some(balances)
    } else {
        match settle(balances, token, from, recipients, amounts, (upto - 1) as nat) {
            Some(before) => transfer(
                before,
                token,
                from,
                recipients[upto - 1],
                amounts[upto - 1] as int,
            ),
            None => None,
        }
    }
}

/// What `account` is paid by the first `upto` payments of a batch.
pub open spec fn received(
    recipients: Seq<Address>,
    amounts: Seq<i128>,
    account: Address,
    upto: nat,
) -> int
    recommends
        upto <= recipients.len(),
        upto <= amounts.len(),
    decreases upto,
{
    if upto == 0 {
        0
    } else {
        received(recipients, amounts, account, (upto - 1) as nat) + if recipients[upto - 1]
            == account {
            amounts[upto - 1] as int
        } else {
            0
        }
    }
}

/// The world after `action`, or the reason for which the host could not
/// apply it: a transfer that the token refuses, new code that was never
/// uploaded, or a lifetime that the host's limits do not let it extend.
pub open spec fn effect(action: ActionView, world: World) -> Result<World, ContractError> {
    match action {
        ActionView::Install { .. } => Ok(World { admin: action.record(), ..world }),
        ActionView::Pay { token, from, recipients, amounts } => match settle(
            world.balances,
            token,
            from,
            recipients,
            amounts,
            recipients.len(),
        ) {
            Some(balances) => Ok(World { balances, ..world }),
            None => Err(ContractError::TransferFailure),
        },
        ActionView::Rotate { .. } => Ok(World { admin: action.record(), ..world }),
        ActionView::Upgrade { code, .. } => if world.modules.contains(code) {
            Ok(World { code: Some(code), ..world })
        } else {
            Err(ContractError::HostResourceFailure)
        },
        ActionView::ExtendLifetime => if world.extends {
            Ok(
                World {
                    lifetime: extended(
                        world.lifetime,
                        world.longest,
                        request_for(world.longest).0,
                        request_for(world.longest).1,
                    ),
                    ..world
                },
            )
        } else {
            Err(ContractError::HostResourceFailure)
        },
    }
}

/// How an invocation ends, given the accounts that authorised it
/// (`authorised`) and what the service decided: with the new world, or with
/// the reason for which nothing was changed.
pub open spec fn invoke(
    world: World,
    authorised: Set<Address>,
    decided: Result<ActionView, ContractError>,
) -> Result<World, ContractError> {
    match decided {
        Err(error) => Err(error),
        Ok(action) => {
            if action.authorizer() is Some && !authorised.contains(action.authorizer().unwrap()) {
                Err(ContractError::AuthorizationFailure)
            } else {
                effect(action, world)
            }
        },
    }
}

/// The world that an invocation leaves: it is all or nothing.
pub open spec fn after(world: World, outcome: Result<World, ContractError>) -> World {
    match outcome {
        Ok(next) => next,
        Err(_) => world,
    }
}

/// An invocation of one of the operations that can change the world.
pub enum Call {
    Initialize { admin: Address },
    BatchTransfer { token: Address, from: Address, recipients: Seq<Address>, amounts: Seq<i128> },
    SetAdmin { new_admin: Address },
    Upgrade { new_wasm_hash: BytesN<32> },
    ExtendTtl,
}

/// What the service decides on `call` in `world`.
pub open spec fn decide(world: World, call: Call) -> Result<ActionView, ContractError> {
    match call {
        Call::Initialize { admin } => decide_initialize(world.admin is Some, admin),
        Call::BatchTransfer { token, from, recipients, amounts } => decide_batch_transfer(
            token,
            from,
            recipients,
            amounts,
        ),
        Call::SetAdmin { new_admin } => decide_set_admin(world.admin, new_admin),
        Call::Upgrade { new_wasm_hash } => decide_upgrade(world.admin, new_wasm_hash),
        Call::ExtendTtl => Ok(ActionView::ExtendLifetime),
    }
}

/// How `call` ends in `world` when the accounts of `authorised` have
/// authorised it.
pub open spec fn run(world: World, authorised: Set<Address>, call: Call) -> Result<World, ContractError> {
    invoke(world, authorised, decide(world, call))
}

/// One invocation: the accounts that authorised it, and what it asks for.
pub struct Invocation {
    pub authorised: Set<Address>,
    pub call: Call,
}

/// The world after the first `upto` of the invocations `history`, made one
/// after the other.
pub open spec fn world_after(world: World, history: Seq<Invocation>, upto: nat) -> World
    recommends
        upto <= history.len(),
    decreases upto,
{
    if upto == 0 {
        world
    } else {
        let before = world_after(world, history, (upto - 1) as nat);
        after(before, run(before, history[upto - 1].authorised, history[upto - 1].call))
    }
}

/// The administrator that the last successful `set_admin` among the first
/// `upto` invocations of `history` named; `None` where none of them was a
/// `set_admin` that succeeded.
pub open spec fn last_accepted(world: World, history: Seq<Invocation>, upto: nat) -> Option<
    Address,
>
    recommends
        upto <= history.len(),
    decreases upto,
{
    if upto == 0 {
        None
    } else {
        let before = world_after(world, history, (upto - 1) as nat);
        let last = history[upto - 1];
        if last.call is SetAdmin && run(before, last.authorised, last.call) is Ok {
            Some(last.call->new_admin)
        } else {
            last_accepted(world, history, (upto - 1) as nat)
        }
    }
}

/// What `admin` answers in `world`.
pub open spec fn read_admin(world: World) -> Result<Address, ContractError> {
    decide_admin(world.admin)
}

/// What the first `upto` payments of a batch that settles do to the
/// balances: `from` is debited what was paid, each account is credited what
/// it received, and nothing else changes.
pub proof fn lemma_settle(
    balances: Balances,
    token: Address,
    from: Address,
    recipients: Seq<Address>,
    amounts: Seq<i128>,
    upto: nat,
)
    requires
        settle(balances, token, from, recipients, amounts, upto) is Some,
    ensures
        forall|other: Address, account: Address|
            #![trigger holding(settle(balances, token, from, recipients, amounts, upto).unwrap(), other, account)]
            holding(
                settle(balances, token, from, recipients, amounts, upto).unwrap(),
                other,
                account,
            ) == holding(balances, other, account) + if other == token {
                received(recipients, amounts, account, upto) - if account == from {
                    paid(amounts, upto)
                } else {
                    0
                }
            } else {
                0
            },
    decreases upto,
{
    if upto > 0 {
        lemma_settle(balances, token, from, recipients, amounts, (upto - 1) as nat);
        let before = settle(balances, token, from, recipients, amounts, (upto - 1) as nat).unwrap();
        let to = recipients[upto - 1];
        let amount = amounts[upto - 1] as int;
        let debited = before.insert((token, from), holding(before, token, from) - amount);
        let end = settle(balances, token, from, recipients, amounts, upto).unwrap();
        assert(end == debited.insert((token, to), holding(debited, token, to) + amount));
        assert forall|other: Address, account: Address|
            holding(end, other, account) == holding(balances, other, account) + if other
                == token {
                received(recipients, amounts, account, upto) - if account == from {
                    paid(amounts, upto)
                } else {
                    0
                }
            } else {
                0
            } by {
            assert(holding(before, other, account) == holding(balances, other, account) + if other
                == token {
                received(recipients, amounts, account, (upto - 1) as nat) - if account == from {
                    paid(amounts, (upto - 1) as nat)
                } else {
                    0
                }
            } else {
                0
            });
        }
    }
}

} // verus!
