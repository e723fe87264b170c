use batch_transfer::action::Action;
use batch_transfer::batch::{check_batch, first_non_positive};
use batch_transfer::contract::BatchTransferContract;
use batch_transfer::error::ContractError;
use batch_transfer::host::{
    lifetime_request, next_step, payment_at, stored_admin, transfer_verdict, Step,
};
use soroban_sdk::testutils::Address as _;
use soroban_sdk::testutils::EnvTestConfig;
use soroban_sdk::{Address, BytesN, ConversionError, Env, InvokeError};

fn test_env() -> Env {
    Env::new_with_config(EnvTestConfig { capture_snapshot_at_drop: false })
}

fn refusal<T>(outcome: Result<T, ContractError>) -> Option<ContractError> {
    match outcome {
        Ok(_) => None,
        Err(error) => Some(error),
    }
}

#[test]
fn first_non_positive_finds_the_first_offender() {
    assert_eq!(first_non_positive(&vec![]), None);
    assert_eq!(first_non_positive(&vec![1, 2, 3]), None);
    assert_eq!(first_non_positive(&vec![0]), Some(0));
    assert_eq!(first_non_positive(&vec![5, -1, 0]), Some(1));
    assert_eq!(first_non_positive(&vec![5, 7, 0, -3]), Some(2));
    assert_eq!(first_non_positive(&vec![i128::MAX, i128::MIN]), Some(1));
}

#[test]
fn check_batch_accepts_a_valid_batch() {
    assert_eq!(check_batch(1, &vec![1]), Ok(()));
    assert_eq!(check_batch(3, &vec![10, 20, i128::MAX]), Ok(()));
}

#[test]
fn check_batch_names_the_first_rule_that_is_broken() {
    assert_eq!(check_batch(0, &vec![]), Err(ContractError::EmptyBatch));
    assert_eq!(check_batch(0, &vec![5]), Err(ContractError::EmptyBatch));
    assert_eq!(check_batch(0, &vec![-5]), Err(ContractError::EmptyBatch));
    assert_eq!(check_batch(2, &vec![5]), Err(ContractError::LengthMismatch));
    assert_eq!(check_batch(1, &vec![5, -1]), Err(ContractError::LengthMismatch));
    assert_eq!(check_batch(1, &vec![]), Err(ContractError::LengthMismatch));
    assert_eq!(check_batch(2, &vec![10, -1]), Err(ContractError::NonPositiveAmount));
    assert_eq!(check_batch(2, &vec![0, 10]), Err(ContractError::NonPositiveAmount));
}

#[test]
fn initialize_installs_the_first_admin() {
    let env = test_env();
    let admin = Address::generate(&env);
    match BatchTransferContract::initialize(false, admin.clone()) {
        Ok(Action::Install { admin: installed }) => assert_eq!(installed, admin),
        _ => panic!("the first initialisation installs the administrator"),
    }
}

#[test]
fn initialize_is_refused_once_a_record_exists() {
    let env = test_env();
    let admin = Address::generate(&env);
    assert_eq!(
        refusal(BatchTransferContract::initialize(true, admin)),
        Some(ContractError::AlreadyInitialized)
    );
}

#[test]
fn initialize_needs_no_authorisation() {
    let env = test_env();
    let admin = Address::generate(&env);
    let action = BatchTransferContract::initialize(false, admin).ok().unwrap();
    assert!(action.authorizer().is_none());
}

#[test]
fn batch_transfer_keeps_the_batch_as_given() {
    let env = test_env();
    let token = Address::generate(&env);
    let from = Address::generate(&env);
    let b = Address::generate(&env);
    let c = Address::generate(&env);
    let decided = BatchTransferContract::batch_transfer(
        token.clone(),
        from.clone(),
        vec![b.clone(), c.clone()],
        vec![10, 20],
    );
    match decided {
        Ok(Action::Pay { token: t, from: f, recipients, amounts }) => {
            assert_eq!(t, token);
            assert_eq!(f, from);
            assert_eq!(recipients, vec![b, c]);
            assert_eq!(amounts, vec![10, 20]);
        }
        _ => panic!("a valid batch is paid"),
    }
}

#[test]
fn batch_transfer_is_authorised_by_its_source() {
    let env = test_env();
    let token = Address::generate(&env);
    let from = Address::generate(&env);
    let to = Address::generate(&env);
    let action =
        BatchTransferContract::batch_transfer(token, from.clone(), vec![to], vec![1]).ok().unwrap();
    assert_eq!(action.authorizer(), Some(&from));
}

#[test]
fn batch_transfer_refuses_an_empty_batch() {
    let env = test_env();
    let token = Address::generate(&env);
    let from = Address::generate(&env);
    assert_eq!(
        refusal(BatchTransferContract::batch_transfer(token.clone(), from.clone(), vec![], vec![])),
        Some(ContractError::EmptyBatch)
    );
    assert_eq!(
        refusal(BatchTransferContract::batch_transfer(token, from, vec![], vec![5])),
        Some(ContractError::EmptyBatch)
    );
}

#[test]
fn batch_transfer_refuses_a_length_mismatch() {
    let env = test_env();
    let token = Address::generate(&env);
    let from = Address::generate(&env);
    let b = Address::generate(&env);
    let c = Address::generate(&env);
    assert_eq!(
        refusal(BatchTransferContract::batch_transfer(
            token.clone(),
            from.clone(),
            vec![b.clone(), c],
            vec![10]
        )),
        Some(ContractError::LengthMismatch)
    );
    assert_eq!(
        refusal(BatchTransferContract::batch_transfer(token, from, vec![b], vec![10, -1])),
        Some(ContractError::LengthMismatch)
    );
}

#[test]
fn batch_transfer_refuses_a_non_positive_amount() {
    let env = test_env();
    let token = Address::generate(&env);
    let from = Address::generate(&env);
    let b = Address::generate(&env);
    let c = Address::generate(&env);
    assert_eq!(
        refusal(BatchTransferContract::batch_transfer(
            token.clone(),
            from.clone(),
            vec![b.clone(), c.clone()],
            vec![10, -1]
        )),
        Some(ContractError::NonPositiveAmount)
    );
    assert_eq!(
        refusal(BatchTransferContract::batch_transfer(token, from, vec![b, c], vec![0, 20])),
        Some(ContractError::NonPositiveAmount)
    );
}

#[test]
fn admin_reads_the_record() {
    let env = test_env();
    let admin = Address::generate(&env);
    assert_eq!(BatchTransferContract::admin(Some(admin.clone())), Ok(admin));
}

#[test]
fn admin_fails_without_a_record() {
    assert_eq!(BatchTransferContract::admin(None), Err(ContractError::NotInitialized));
}

#[test]
fn set_admin_rotates_on_the_current_admins_authority() {
    let env = test_env();
    let current = Address::generate(&env);
    let next = Address::generate(&env);
    let action = BatchTransferContract::set_admin(Some(current.clone()), next.clone()).ok().unwrap();
    assert_eq!(action.authorizer(), Some(&current));
    match action {
        Action::Rotate { current: c, next: n } => {
            assert_eq!(c, current);
            assert_eq!(n, next);
        }
        _ => panic!("set_admin rotates the administrator"),
    }
}

#[test]
fn set_admin_fails_without_a_record() {
    let env = test_env();
    let next = Address::generate(&env);
    assert_eq!(
        refusal(BatchTransferContract::set_admin(None, next)),
        Some(ContractError::NotInitialized)
    );
}

#[test]
fn upgrade_hands_the_hash_on_under_the_admins_authority() {
    let env = test_env();
    let admin = Address::generate(&env);
    let hash = BytesN::from_array(&env, &[7u8; 32]);
    let action = BatchTransferContract::upgrade(Some(admin.clone()), hash.clone()).ok().unwrap();
    assert_eq!(action.authorizer(), Some(&admin));
    match action {
        Action::Upgrade { admin: a, code } => {
            assert_eq!(a, admin);
            assert_eq!(code, hash);
        }
        _ => panic!("upgrade replaces the code"),
    }
}

#[test]
fn upgrade_fails_without_a_record() {
    let env = test_env();
    let hash = BytesN::from_array(&env, &[7u8; 32]);
    assert_eq!(
        refusal(BatchTransferContract::upgrade(None, hash)),
        Some(ContractError::NotInitialized)
    );
}

#[test]
fn extend_ttl_needs_no_authorisation() {
    let action = BatchTransferContract::extend_ttl();
    assert!(matches!(action, Action::ExtendLifetime));
    assert!(action.authorizer().is_none());
}

#[test]
fn a_stored_value_that_is_no_address_is_no_record() {
    let env = test_env();
    let admin = Address::generate(&env);
    assert_eq!(stored_admin(None), None);
    assert_eq!(stored_admin(Some(Err(ConversionError))), None);
    assert_eq!(stored_admin(Some(Ok(admin.clone()))), Some(admin));
}

#[test]
fn only_a_completed_transfer_counts_as_done() {
    assert_eq!(transfer_verdict(Ok(Ok(()))), Ok(()));
    assert_eq!(transfer_verdict(Ok(Err(ConversionError))), Err(ContractError::TransferFailure));
    assert_eq!(
        transfer_verdict(Err(Ok(soroban_sdk::Error::from_contract_error(10)))),
        Err(ContractError::TransferFailure)
    );
    assert_eq!(
        transfer_verdict(Err(Err(InvokeError::Abort))),
        Err(ContractError::TransferFailure)
    );
}

#[test]
fn every_error_is_reported_in_its_own_words() {
    assert_eq!(ContractError::AlreadyInitialized.message(), "already initialized");
    assert_eq!(ContractError::NotInitialized.message(), "not initialized");
    assert_eq!(ContractError::EmptyBatch.message(), "no recipients provided");
    assert_eq!(ContractError::LengthMismatch.message(), "recipients and amounts length mismatch");
    assert_eq!(ContractError::NonPositiveAmount.message(), "amount must be positive");
    assert_eq!(ContractError::AuthorizationFailure.message(), "not authorized");
    assert_eq!(ContractError::TransferFailure.message(), "transfer failed");
    assert_eq!(ContractError::HostResourceFailure.message(), "host failure");
}

#[test]
fn the_lifetime_is_extended_whenever_and_as_far_as_the_host_allows() {
    assert_eq!(lifetime_request(0), (0, 0));
    assert_eq!(lifetime_request(6_312_000), (6_312_000, 6_312_000));
    assert_eq!(lifetime_request(u32::MAX), (u32::MAX, u32::MAX));
}

#[test]
fn a_batch_goes_on_while_a_payment_is_left_and_none_has_failed() {
    assert_eq!(next_step(3, 0, Ok(())), Step::Ask { index: 0 });
    assert_eq!(next_step(3, 1, Ok(())), Step::Ask { index: 1 });
    assert_eq!(next_step(3, 2, Ok(())), Step::Ask { index: 2 });
    assert_eq!(next_step(3, 3, Ok(())), Step::End(Ok(())));
    assert_eq!(next_step(0, 0, Ok(())), Step::End(Ok(())));
}

#[test]
fn a_batch_ends_at_the_first_payment_that_failed() {
    let failed = Err(ContractError::TransferFailure);
    assert_eq!(next_step(3, 1, failed), Step::End(failed));
    assert_eq!(next_step(3, 3, failed), Step::End(failed));
    assert_eq!(next_step(3, 0, failed), Step::End(failed));
}

#[test]
fn a_payment_pairs_the_recipient_and_the_amount_of_one_position() {
    let env = test_env();
    let b = Address::generate(&env);
    let c = Address::generate(&env);
    let d = Address::generate(&env);
    let recipients = vec![b.clone(), c.clone(), d.clone()];
    let amounts = vec![10, 20, 30];
    assert_eq!(payment_at(&recipients, &amounts, 0), (&b, 10));
    assert_eq!(payment_at(&recipients, &amounts, 1), (&c, 20));
    assert_eq!(payment_at(&recipients, &amounts, 2), (&d, 30));
}
