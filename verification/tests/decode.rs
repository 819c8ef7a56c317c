use swap_proxy::api::{Abort, Api};
use swap_proxy::data::{Amount, ArgValue, Hash32, Key, PublicKey};
use swap_proxy::error::Error;

fn text(s: &str) -> ArgValue {
    ArgValue::Text(String::from(s))
}

fn amount(n: u64) -> ArgValue {
    ArgValue::Amount(Amount::from_u64(n))
}

fn pubkey(n: u64) -> PublicKey {
    PublicKey { w0: n, w1: 0, w2: 0, w3: 0 }
}

fn hash_key(n: u64) -> Key {
    Key::Hash(Hash32 { w0: n, w1: 0, w2: 0, w3: 0 })
}

fn texts(items: &[&str]) -> ArgValue {
    ArgValue::TextList(items.iter().map(|s| String::from(*s)).collect())
}

#[test]
fn decode_insert_kyc_allowance_cap() {
    let args = vec![text("insert_kyc_allowance_cap"), amount(7_000)];
    assert_eq!(
        Api::from_args(&args),
        Ok(Api::InsertKYCAllowanceCap(Amount::from_u64(7_000)))
    );
}

#[test]
fn decode_insert_snapshot_record() {
    let args = vec![text("insert_snapshot_record"), text("legacy1xqq"), amount(500)];
    assert_eq!(
        Api::from_args(&args),
        Ok(Api::InsertSnapshotRecord(String::from("legacy1xqq"), Amount::from_u64(500)))
    );
}

#[test]
fn decode_insert_kyc_data() {
    let args = vec![text("insert_kyc_data"), ArgValue::PubKey(pubkey(11)), amount(2)];
    assert_eq!(
        Api::from_args(&args),
        Ok(Api::InsertKYCData(pubkey(11), Amount::from_u64(2)))
    );
}

#[test]
fn decode_update_kyc_level() {
    let args = vec![text("update_kyc_level"), ArgValue::PubKey(pubkey(4)), amount(3)];
    assert_eq!(
        Api::from_args(&args),
        Ok(Api::UpdateKYCLevel(pubkey(4), Amount::from_u64(3)))
    );
}

#[test]
fn decode_get_token() {
    let args = vec![
        text("get_token"),
        ArgValue::ServiceKey(hash_key(9)),
        texts(&["addr1", "addr2"]),
        texts(&["msg1", "msg2"]),
        texts(&["sig1", "sig2"]),
    ];
    assert_eq!(
        Api::from_args(&args),
        Ok(Api::GetToken(
            hash_key(9),
            vec![String::from("addr1"), String::from("addr2")],
            vec![String::from("msg1"), String::from("msg2")],
            vec![String::from("sig1"), String::from("sig2")],
        ))
    );
}

#[test]
fn decode_unknown_method_aborts_with_unknown_proxy_api() {
    let args = vec![text("bogus_method")];
    assert_eq!(Api::from_args(&args), Err(Abort::User(Error::UnknownProxyApi)));
}

#[test]
fn decode_empty_argument_list_is_missing() {
    let args: Vec<ArgValue> = Vec::new();
    assert_eq!(Api::from_args(&args), Err(Abort::MissingArgument));
}

#[test]
fn decode_non_text_method_name_is_invalid() {
    let args = vec![amount(1), amount(2)];
    assert_eq!(Api::from_args(&args), Err(Abort::InvalidArgument));
}

#[test]
fn decode_missing_cap_argument() {
    let args = vec![text("insert_kyc_allowance_cap")];
    assert_eq!(Api::from_args(&args), Err(Abort::MissingArgument));
}

#[test]
fn decode_mistyped_cap_argument() {
    let args = vec![text("insert_kyc_allowance_cap"), text("not_a_number")];
    assert_eq!(Api::from_args(&args), Err(Abort::InvalidArgument));
}

#[test]
fn decode_missing_snapshot_amount() {
    let args = vec![text("insert_snapshot_record"), text("legacy1xqq")];
    assert_eq!(Api::from_args(&args), Err(Abort::MissingArgument));
}

#[test]
fn decode_mistyped_snapshot_address() {
    let args = vec![text("insert_snapshot_record"), amount(500), amount(500)];
    assert_eq!(Api::from_args(&args), Err(Abort::InvalidArgument));
}

#[test]
fn decode_missing_kyc_level() {
    let args = vec![text("insert_kyc_data"), ArgValue::PubKey(pubkey(11))];
    assert_eq!(Api::from_args(&args), Err(Abort::MissingArgument));
}

#[test]
fn decode_mistyped_kyc_pubkey() {
    let args = vec![text("insert_kyc_data"), text("not_a_key"), amount(2)];
    assert_eq!(Api::from_args(&args), Err(Abort::InvalidArgument));
}

#[test]
fn decode_mistyped_update_pubkey() {
    let args = vec![text("update_kyc_level"), amount(1), amount(2)];
    assert_eq!(Api::from_args(&args), Err(Abort::InvalidArgument));
}

#[test]
fn decode_missing_get_token_signatures() {
    let args = vec![
        text("get_token"),
        ArgValue::ServiceKey(hash_key(9)),
        texts(&["addr1"]),
        texts(&["msg1"]),
    ];
    assert_eq!(Api::from_args(&args), Err(Abort::MissingArgument));
}

#[test]
fn decode_mistyped_get_token_key() {
    let args = vec![
        text("get_token"),
        text("not_a_key"),
        texts(&["addr1"]),
        texts(&["msg1"]),
        texts(&["sig1"]),
    ];
    assert_eq!(Api::from_args(&args), Err(Abort::InvalidArgument));
}

#[test]
fn decode_extra_arguments_are_ignored() {
    let args = vec![text("insert_kyc_allowance_cap"), amount(7), amount(8), text("noise")];
    assert_eq!(
        Api::from_args(&args),
        Ok(Api::InsertKYCAllowanceCap(Amount::from_u64(7)))
    );
}
