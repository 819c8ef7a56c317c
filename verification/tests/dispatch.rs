use swap_proxy::api::{Abort, Action, Api, ForwardCall, Step, SwapMethod};
use swap_proxy::data::{Amount, ArgValue, ContractRef, Hash32, Key, PublicKey, Purse, TransferError};
use swap_proxy::dispatch::{incentive_amount, settle_transfer, swap_hash_name};
use swap_proxy::error::Error;

fn text(s: &str) -> ArgValue {
    ArgValue::Text(String::from(s))
}

fn amount(n: u64) -> ArgValue {
    ArgValue::Amount(Amount::from_u64(n))
}

fn hash(n: u64) -> Hash32 {
    Hash32 { w0: n, w1: 0, w2: 0, w3: 0 }
}

fn pubkey_a() -> PublicKey {
    PublicKey { w0: 0xA, w1: 0, w2: 0, w3: 0 }
}

fn texts(items: &[&str]) -> Vec<String> {
    items.iter().map(|s| String::from(*s)).collect()
}

/// Drives a swap-service command through a successful conversation and
/// returns every action the proxy asked for, in order.
fn run_to_completion(cmd: &Api, swap_key: Key, purse: Purse) -> Vec<Action> {
    let mut actions = Vec::new();
    let mut step = cmd.invoke();
    loop {
        match step {
            Step::Done => return actions,
            Step::Fail(abort) => panic!("unexpected abort: {:?}", abort),
            Step::Do(action) => {
                actions.push(action.clone());
                step = match action {
                    Action::LookupSwapContract => cmd.on_key(Some(swap_key)),
                    Action::Forward(target, _, _) => cmd.on_forwarded(target),
                    Action::FetchPurse(_, _) => cmd.on_purse(purse),
                    Action::TransferFromMainPurse(_, _) => settle_transfer(Ok(())),
                    Action::TransferToAccount(_, _) => settle_transfer(Ok(())),
                };
            }
        }
    }
}

#[test]
fn snapshot_record_end_to_end_moves_exactly_the_amount() {
    let args = vec![text("insert_snapshot_record"), text("legacy1xqq"), amount(500)];
    let cmd = Api::from_args(&args).expect("well-shaped arguments must decode");
    let swap_ref = ContractRef { hash: hash(1) };
    let purse = Purse { addr: hash(77) };
    let actions = run_to_completion(&cmd, Key::Hash(hash(1)), purse);
    assert_eq!(
        actions,
        vec![
            Action::LookupSwapContract,
            Action::Forward(
                swap_ref,
                SwapMethod::InsertSnapshotRecord,
                ForwardCall::SnapshotRecord(String::from("legacy1xqq"), Amount::from_u64(500)),
            ),
            Action::FetchPurse(swap_ref, SwapMethod::GetContractPurse),
            Action::TransferFromMainPurse(purse, Amount::from_u64(500)),
        ]
    );
}

#[test]
fn register_account_end_to_end_pays_the_fixed_incentive() {
    let args = vec![text("insert_kyc_data"), ArgValue::PubKey(pubkey_a()), amount(2)];
    let cmd = Api::from_args(&args).expect("well-shaped arguments must decode");
    let swap_ref = ContractRef { hash: hash(1) };
    let actions = run_to_completion(&cmd, Key::Hash(hash(1)), Purse { addr: hash(0) });
    assert_eq!(
        actions,
        vec![
            Action::LookupSwapContract,
            Action::Forward(
                swap_ref,
                SwapMethod::InsertKycData,
                ForwardCall::KycData(pubkey_a(), Amount::from_u64(2)),
            ),
            Action::TransferToAccount(pubkey_a(), Amount::from_u64(100_000_000_000_000_000)),
        ]
    );
}

#[test]
fn incentive_amount_is_independent_of_the_level() {
    let swap_ref = ContractRef { hash: hash(1) };
    for level in [0_u64, 1, 9_999_999_999] {
        let cmd = Api::InsertKYCData(pubkey_a(), Amount::from_u64(level));
        assert_eq!(
            cmd.on_forwarded(swap_ref),
            Step::Do(Action::TransferToAccount(pubkey_a(), incentive_amount()))
        );
    }
    assert_eq!(incentive_amount(), Amount::from_u64(100_000_000_000_000_000));
}

#[test]
fn repeated_registration_is_not_suppressed_by_the_proxy() {
    let args = vec![text("insert_kyc_data"), ArgValue::PubKey(pubkey_a()), amount(2)];
    let first = Api::from_args(&args).expect("well-shaped arguments must decode");
    let second = Api::from_args(&args).expect("well-shaped arguments must decode");
    let first_actions = run_to_completion(&first, Key::Hash(hash(1)), Purse { addr: hash(0) });
    let second_actions = run_to_completion(&second, Key::Hash(hash(1)), Purse { addr: hash(0) });
    assert_eq!(first_actions, second_actions);
}

#[test]
fn update_kyc_level_is_forward_only() {
    let cmd = Api::UpdateKYCLevel(pubkey_a(), Amount::from_u64(3));
    let swap_ref = ContractRef { hash: hash(1) };
    let actions = run_to_completion(&cmd, Key::Hash(hash(1)), Purse { addr: hash(0) });
    assert_eq!(
        actions,
        vec![
            Action::LookupSwapContract,
            Action::Forward(
                swap_ref,
                SwapMethod::UpdateKycLevel,
                ForwardCall::KycLevel(pubkey_a(), Amount::from_u64(3)),
            ),
        ]
    );
}

#[test]
fn allowance_cap_is_forward_only() {
    let cmd = Api::InsertKYCAllowanceCap(Amount::from_u64(42));
    let swap_ref = ContractRef { hash: hash(5) };
    let actions = run_to_completion(&cmd, Key::Hash(hash(5)), Purse { addr: hash(0) });
    assert_eq!(
        actions,
        vec![
            Action::LookupSwapContract,
            Action::Forward(
                swap_ref,
                SwapMethod::InsertKycAllowanceCap,
                ForwardCall::AllowanceCap(Amount::from_u64(42)),
            ),
        ]
    );
}

#[test]
fn get_token_forwards_unequal_length_sequences_unchanged() {
    let cmd = Api::GetToken(
        Key::Hash(hash(9)),
        texts(&["addr1", "addr2", "addr3"]),
        texts(&["msg1"]),
        texts(&["sig1", "sig2"]),
    );
    let actions = run_to_completion(&cmd, Key::Hash(hash(1)), Purse { addr: hash(0) });
    assert_eq!(
        actions,
        vec![Action::Forward(
            ContractRef { hash: hash(9) },
            SwapMethod::GetToken,
            ForwardCall::TokenRedemption(
                texts(&["addr1", "addr2", "addr3"]),
                texts(&["msg1"]),
                texts(&["sig1", "sig2"]),
            ),
        )]
    );
}

#[test]
fn get_token_with_uncallable_key_fails_before_any_call() {
    let cmd = Api::GetToken(Key::Account(hash(9)), texts(&["a"]), texts(&["m"]), texts(&["s"]));
    assert_eq!(cmd.invoke(), Step::Fail(Abort::UnresolvedContract));
}

#[test]
fn missing_swap_key_fails_the_lookup() {
    let cmd = Api::InsertKYCAllowanceCap(Amount::from_u64(1));
    assert_eq!(cmd.invoke(), Step::Do(Action::LookupSwapContract));
    assert_eq!(cmd.on_key(None), Step::Fail(Abort::GetKey));
}

#[test]
fn uncallable_swap_key_fails_the_resolution() {
    let cmd = Api::InsertKYCAllowanceCap(Amount::from_u64(1));
    assert_eq!(
        cmd.on_key(Some(Key::Account(hash(3)))),
        Step::Fail(Abort::UnresolvedContract)
    );
    assert_eq!(
        cmd.on_key(Some(Key::URef(Purse { addr: hash(3) }))),
        Step::Fail(Abort::UnresolvedContract)
    );
}

#[test]
fn failed_transfer_relays_the_host_error() {
    assert_eq!(
        settle_transfer(Err(TransferError { code: 12 })),
        Step::Fail(Abort::Transfer(TransferError { code: 12 }))
    );
    assert_eq!(settle_transfer(Ok(())), Step::Done);
}

#[test]
fn bogus_method_aborts_without_any_action() {
    let args = vec![text("bogus_method")];
    let decoded = Api::from_args(&args);
    assert_eq!(decoded, Err(Abort::User(Error::UnknownProxyApi)));
    assert_eq!(Error::UnknownProxyApi.code(), 65_546);
}

#[test]
fn error_codes_follow_declaration_order() {
    let expected: [(Error, u32); 10] = [
        (Error::NotAdmin, 65_537),
        (Error::ExceededSwapRange, 65_538),
        (Error::ExceededSwapAllowanceByKyc, 65_539),
        (Error::InsufficientNumOfSwapParams, 65_540),
        (Error::NotRegisteredKYC, 65_541),
        (Error::AlreadyRegisteredAndReceivedSmallToken, 65_542),
        (Error::InvalidKYCLevelValue, 65_543),
        (Error::InvalidSignature, 65_544),
        (Error::AlreadySwapProceeded, 65_545),
        (Error::UnknownProxyApi, 65_546),
    ];
    for (error, code) in expected {
        assert_eq!(error.code(), code);
    }
}

#[test]
fn wire_names_are_exact() {
    assert_eq!(swap_hash_name(), "swap_hash");
    assert_eq!(SwapMethod::InsertKycAllowanceCap.name(), "insert_kyc_allowance_cap");
    assert_eq!(SwapMethod::InsertSnapshotRecord.name(), "insert_snapshot_record");
    assert_eq!(SwapMethod::InsertKycData.name(), "insert_kyc_data");
    assert_eq!(SwapMethod::UpdateKycLevel.name(), "update_kyc_level");
    assert_eq!(SwapMethod::GetToken.name(), "get_token");
    assert_eq!(SwapMethod::GetContractPurse.name(), "get_contract_purse");
}
