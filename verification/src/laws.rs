//! What holds of the service in every world, whatever is asked of it.

use vstd::prelude::*;
use soroban_sdk::Address;
use crate::batch::{all_positive, total, valid_batch};
use crate::error::ContractError;
use crate::action::{ActionView, Pending};
use crate::contract::DataKey;
use crate::host::{applied, is_contract};
use crate::world::{
    after, effect, holding, invoke, last_accepted, lemma_settle, read_admin, received, run,
    world_after, Call, Invocation, World,
};

verus! {

/// Initialisation succeeds at most once. After a first `initialize`, whether
/// it succeeded or not, every further one fails with `AlreadyInitialized`,
/// whatever its argument, and leaves the world as it was.
pub proof fn law_initialize_once(
    world: World,
    first: Address,
    second: Address,
    authorised_first: Set<Address>,
    authorised_second: Set<Address>,
)
    ensures
        ({
            let then = after(world, run(world, authorised_first, Call::Initialize { admin: first }));
            let again = run(then, authorised_second, Call::Initialize { admin: second });
            &&& again == Err::<World, ContractError>(ContractError::AlreadyInitialized)
            &&& after(then, again) == then
        }),
{
}

/// `initialize` needs nobody's authorisation: in a world without an
/// administrator it succeeds and records its argument, and nothing else
/// changes.
pub proof fn law_initialize_records(world: World, admin: Address, authorised: Set<Address>)
    requires
        world.admin is None,
    ensures
        run(world, authorised, Call::Initialize { admin }) == Ok::<World, ContractError>(
            World { admin: Some(admin), ..world },
        ),
        read_admin(after(world, run(world, authorised, Call::Initialize { admin }))) == Ok::<
            Address,
            ContractError,
        >(admin),
{
}

/// A batch that succeeds takes the sum of its amounts from `from` and gives
/// every account what the batch pairs it with; no other balance, of this
/// token or of another, changes, and neither does the administrator or the
/// code. A batch succeeds only if it is valid, `token` is a contract and
/// `from` has authorised it.
pub proof fn law_batch_moves_funds(
    world: World,
    authorised: Set<Address>,
    token: Address,
    from: Address,
    recipients: Seq<Address>,
    amounts: Seq<i128>,
)
    requires
        run(world, authorised, Call::BatchTransfer { token, from, recipients, amounts }) is Ok,
    ensures
        valid_batch(recipients.len(), amounts),
        is_contract(token),
        authorised.contains(from),
        ({
            let end = run(
                world,
                authorised,
                Call::BatchTransfer { token, from, recipients, amounts },
            ).unwrap();
            &&& end.admin == world.admin
            &&& end.code == world.code
            &&& forall|account: Address| #[trigger]
                holding(end.balances, token, account) == holding(world.balances, token, account)
                    + received(recipients, amounts, account, recipients.len()) - if account
                    == from {
                    total(amounts)
                } else {
                    0
                }
            &&& forall|other: Address, account: Address|
                other != token ==> #[trigger] holding(end.balances, other, account) == holding(
                    world.balances,
                    other,
                    account,
                )
        }),
{
    lemma_settle(world.balances, token, from, recipients, amounts, recipients.len());
}

/// A batch with as many amounts as recipients, one of them zero or negative,
/// fails with `NonPositiveAmount`, whoever authorised it, and changes
/// nothing.
pub proof fn law_non_positive_amount_refused(
    world: World,
    authorised: Set<Address>,
    token: Address,
    from: Address,
    recipients: Seq<Address>,
    amounts: Seq<i128>,
)
    requires
        recipients.len() == amounts.len(),
        !all_positive(amounts),
    ensures
        ({
            let outcome = run(
                world,
                authorised,
                Call::BatchTransfer { token, from, recipients, amounts },
            );
            &&& outcome == Err::<World, ContractError>(ContractError::NonPositiveAmount)
            &&& after(world, outcome) == world
        }),
{
}

/// A batch that names a recipient and has another number of amounts than of
/// recipients fails with `LengthMismatch`, whoever authorised it, and changes
/// nothing.
pub proof fn law_length_mismatch_refused(
    world: World,
    authorised: Set<Address>,
    token: Address,
    from: Address,
    recipients: Seq<Address>,
    amounts: Seq<i128>,
)
    requires
        recipients.len() > 0,
        recipients.len() != amounts.len(),
    ensures
        ({
            let outcome = run(
                world,
                authorised,
                Call::BatchTransfer { token, from, recipients, amounts },
            );
            &&& outcome == Err::<World, ContractError>(ContractError::LengthMismatch)
            &&& after(world, outcome) == world
        }),
{
}

/// A batch without recipients fails with `EmptyBatch`, whoever authorised
/// it, and changes nothing.
pub proof fn law_empty_batch_refused(
    world: World,
    authorised: Set<Address>,
    token: Address,
    from: Address,
    recipients: Seq<Address>,
    amounts: Seq<i128>,
)
    requires
        recipients.len() == 0,
    ensures
        ({
            let outcome = run(
                world,
                authorised,
                Call::BatchTransfer { token, from, recipients, amounts },
            );
            &&& outcome == Err::<World, ContractError>(ContractError::EmptyBatch)
            &&& after(world, outcome) == world
        }),
{
}

/// `admin` answers with the administrator that the last successful
/// `set_admin` named: after a `set_admin` that succeeded it returns the new
/// administrator, and after one that failed it answers as before.
pub proof fn law_admin_reads_last_accepted(
    world: World,
    authorised: Set<Address>,
    new_admin: Address,
)
    ensures
        ({
            let outcome = run(world, authorised, Call::SetAdmin { new_admin });
            let then = after(world, outcome);
            &&& outcome is Ok ==> read_admin(then) == Ok::<Address, ContractError>(new_admin)
            &&& outcome is Err ==> read_admin(then) == read_admin(world)
        }),
{
}

/// `admin` fails with `NotInitialized` exactly where no administrator was
/// ever recorded.
pub proof fn law_admin_needs_record(world: World)
    ensures
        read_admin(world) == Err::<Address, ContractError>(ContractError::NotInitialized) <==> world.admin is None,
        world.admin is Some ==> read_admin(world) == Ok::<Address, ContractError>(world.admin.unwrap()),
{
}

/// `set_admin` succeeds exactly where an administrator is recorded and has
/// authorised the invocation. Without a record it fails with
/// `NotInitialized`; where the administrator is not among those who
/// authorised it, with `AuthorizationFailure`. A `set_admin` that fails
/// changes nothing, and one that succeeds changes the record alone.
pub proof fn law_set_admin_by_admin_only(
    world: World,
    authorised: Set<Address>,
    new_admin: Address,
)
    ensures
        ({
            let outcome = run(world, authorised, Call::SetAdmin { new_admin });
            &&& world.admin is None ==> outcome == Err::<World, ContractError>(ContractError::NotInitialized)
            &&& world.admin is Some && !authorised.contains(world.admin.unwrap()) ==> outcome
                == Err::<World, ContractError>(ContractError::AuthorizationFailure)
            &&& world.admin is Some && authorised.contains(world.admin.unwrap()) ==> outcome
                == Ok::<World, ContractError>(World { admin: Some(new_admin), ..world })
            &&& outcome is Err ==> after(world, outcome) == world
        }),
{
}

/// `upgrade` succeeds exactly where an administrator is recorded, has
/// authorised the invocation, and the host holds the module that the hash
/// identifies; it then replaces the code and nothing else. Without a record
/// it fails with `NotInitialized`, without the administrator's authority with
/// `AuthorizationFailure`, and for a module that the host does not hold with
/// `HostResourceFailure`. One that fails changes nothing.
pub proof fn law_upgrade_by_admin_only(
    world: World,
    authorised: Set<Address>,
    new_wasm_hash: soroban_sdk::BytesN<32>,
)
    ensures
        ({
            let outcome = run(world, authorised, Call::Upgrade { new_wasm_hash });
            let permitted = world.admin is Some && authorised.contains(world.admin.unwrap());
            &&& world.admin is None ==> outcome == Err::<World, ContractError>(
                ContractError::NotInitialized,
            )
            &&& world.admin is Some && !authorised.contains(world.admin.unwrap()) ==> outcome
                == Err::<World, ContractError>(ContractError::AuthorizationFailure)
            &&& permitted && !world.modules.contains(new_wasm_hash) ==> outcome == Err::<
                World,
                ContractError,
            >(ContractError::HostResourceFailure)
            &&& permitted && world.modules.contains(new_wasm_hash) ==> outcome == Ok::<
                World,
                ContractError,
            >(World { code: Some(new_wasm_hash), ..world })
            &&& outcome is Err ==> after(world, outcome) == world
        }),
{
}

/// An action that the host applies leaves the administrator record that
/// [`ActionView::record`] names, and the record as it was where that names
/// none.
pub proof fn law_record_stored(action: ActionView, world: World)
    requires
        effect(action, world) is Ok,
    ensures
        effect(action, world).unwrap().admin == if action.record() is Some {
            action.record()
        } else {
            world.admin
        },
{
}

/// What [`apply`](crate::host::apply) answers agrees with the model. It
/// refuses an action for want of authority exactly where the host would. What
/// it hands back to be asked of the host is what the model has the host do:
/// the record to store is the record of the world after, the code to put in
/// place is its code, and a lifetime is left to extend exactly for the action
/// that extends it.
pub proof fn law_apply_follows_model(
    action: ActionView,
    world: World,
    authorised: Set<Address>,
    confirmed: bool,
)
    requires
        action.authorizer() is Some ==> (confirmed <==> authorised.contains(
            action.authorizer().unwrap(),
        )),
    ensures
        applied(action, confirmed) == Err::<Pending, ContractError>(
            ContractError::AuthorizationFailure,
        ) <==> invoke(world, authorised, Ok(action)) == Err::<World, ContractError>(
            ContractError::AuthorizationFailure,
        ),
        applied(action, confirmed) is Ok ==> invoke(world, authorised, Ok(action)) == effect(
            action,
            world,
        ),
        applied(action, confirmed) matches Ok(Pending::Store { key, value }) ==> {
            &&& key == DataKey::Admin
            &&& effect(action, world) == Ok::<World, ContractError>(
                World { admin: Some(value), ..world },
            )
        },
        applied(action, confirmed) matches Ok(Pending::Code(code)) ==> {
            &&& world.modules.contains(code) ==> effect(action, world) == Ok::<
                World,
                ContractError,
            >(World { code: Some(code), ..world })
            &&& !world.modules.contains(code) ==> effect(action, world) == Err::<
                World,
                ContractError,
            >(ContractError::HostResourceFailure)
        },
        applied(action, confirmed) == Ok::<Pending, ContractError>(Pending::Lifetime)
            <==> action is ExtendLifetime,
        applied(action, confirmed) == Ok::<Pending, ContractError>(Pending::Nothing) ==> action
            is Pay,
{
}

/// `extend_ttl` needs nobody's authorisation. Where the host's limits let it
/// extend, the service's storage then lives for the longest lifetime that the
/// host gives, unless it lived longer already, and nothing else changes.
/// Where they do not, it fails with `HostResourceFailure` and changes
/// nothing.
pub proof fn law_extend_ttl(world: World, authorised: Set<Address>)
    ensures
        ({
            let outcome = run(world, authorised, Call::ExtendTtl);
            &&& world.extends ==> outcome == Ok::<World, ContractError>(
                World {
                    lifetime: if world.lifetime < world.longest {
                        world.longest
                    } else {
                        world.lifetime
                    },
                    ..world
                },
            )
            &&& !world.extends ==> outcome == Err::<World, ContractError>(
                ContractError::HostResourceFailure,
            )
            &&& after(world, outcome).admin == world.admin
            &&& after(world, outcome).balances == world.balances
            &&& after(world, outcome).code == world.code
        }),
{
}

/// Over any history of invocations, `admin` answers with the administrator
/// that the last successful `set_admin` named.
pub proof fn law_admin_reads_last_accepted_of_history(
    world: World,
    history: Seq<Invocation>,
    upto: nat,
)
    requires
        upto <= history.len(),
        last_accepted(world, history, upto) is Some,
    ensures
        read_admin(world_after(world, history, upto)) == Ok::<Address, ContractError>(
            last_accepted(world, history, upto).unwrap(),
        ),
    decreases upto,
{
    if upto > 0 {
        let before = world_after(world, history, (upto - 1) as nat);
        let last = history[upto - 1];
        if last.call is SetAdmin && run(before, last.authorised, last.call) is Ok {
        } else {
            law_admin_reads_last_accepted_of_history(world, history, (upto - 1) as nat);
            law_record_is_kept(before, last.authorised, last.call);
        }
    }
}

/// Over any history of invocations without a `set_admin` that succeeded,
/// `admin` answers with the administrator that the world began with or, in
/// a world that began without one, with the one that the first `initialize`
/// named; and it fails with `NotInitialized` exactly where the world began
/// without an administrator and `initialize` was never asked for.
pub proof fn law_admin_of_history_without_rotation(
    world: World,
    history: Seq<Invocation>,
    upto: nat,
)
    requires
        upto <= history.len(),
        last_accepted(world, history, upto) is None,
    ensures
        world.admin is Some ==> read_admin(world_after(world, history, upto)) == Ok::<
            Address,
            ContractError,
        >(world.admin.unwrap()),
        world.admin is None ==> (read_admin(world_after(world, history, upto)) == Err::<
            Address,
            ContractError,
        >(ContractError::NotInitialized) <==> forall|i: int|
            0 <= i < upto ==> !(#[trigger] history[i].call is Initialize)),
        world.admin is None ==> forall|i: int|
            0 <= i < upto && #[trigger] history[i].call is Initialize && (forall|j: int|
                0 <= j < i ==> !(#[trigger] history[j].call is Initialize)) ==> read_admin(
                world_after(world, history, upto),
            ) == Ok::<Address, ContractError>(history[i].call->admin),
    decreases upto,
{
    if upto > 0 {
        let before = world_after(world, history, (upto - 1) as nat);
        let last = history[upto - 1];
        law_admin_of_history_without_rotation(world, history, (upto - 1) as nat);
        if before.admin is Some {
            law_record_is_kept(before, last.authorised, last.call);
        }
    }
}

/// The program's code changes only by an `upgrade` that the administrator
/// has authorised, and only to a module that the host holds.
pub proof fn law_code_changes_by_upgrade_only(
    world: World,
    authorised: Set<Address>,
    call: Call,
)
    ensures
        ({
            let then = after(world, run(world, authorised, call));
            then.code != world.code ==> {
                &&& call is Upgrade
                &&& world.admin is Some
                &&& authorised.contains(world.admin.unwrap())
                &&& world.modules.contains(call->new_wasm_hash)
                &&& then.code == Some(call->new_wasm_hash)
            }
        }),
{
}

/// Once an administrator is recorded, no invocation removes the record, and
/// only a `set_admin` that the recorded administrator has authorised
/// replaces it.
pub proof fn law_record_is_kept(world: World, authorised: Set<Address>, call: Call)
    requires
        world.admin is Some,
    ensures
        ({
            let then = after(world, run(world, authorised, call));
            &&& then.admin is Some
            &&& then.admin != world.admin ==> call is SetAdmin && authorised.contains(
                world.admin.unwrap(),
            )
        }),
{
}

/// Only a batch transfer that its source has authorised changes a balance.
pub proof fn law_balances_change_by_batch_only(
    world: World,
    authorised: Set<Address>,
    call: Call,
)
    ensures
        ({
            let then = after(world, run(world, authorised, call));
            then.balances != world.balances ==> call is BatchTransfer && authorised.contains(
                call->from,
            )
        }),
{
}

} // verus!
