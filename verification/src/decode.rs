//! Decoding the raw argument list of an invocation into a typed command.
//!
//! Argument zero is the method name; it is matched verbatim against the five
//! known names. The matched variant then reads its remaining fixed-position
//! arguments in order. Decoding is strict and fail-fast: the first absent or
//! mistyped argument aborts the decode at once, and an unmatched method name
//! aborts with [`Error::UnknownProxyApi`]. No partial command is ever
//! produced, so a rejected argument list causes no call and no transfer.

use vstd::prelude::*;
use vstd::string::StringExecFns;

use crate::api::{Abort, Api, CommandModel};
use crate::data::{ArgModel, ArgValue};
use crate::error::Error;

verus! {

/// Whether `name` is one of the five method names the proxy routes.
pub open spec fn is_known_method(name: Seq<char>) -> bool {
    ||| name == "insert_kyc_allowance_cap"@
    ||| name == "insert_snapshot_record"@
    ||| name == "insert_kyc_data"@
    ||| name == "update_kyc_level"@
    ||| name == "get_token"@
}

/// Decode of the arguments after a matched `insert_kyc_allowance_cap`.
pub open spec fn spec_decode_allowance_cap(args: Seq<ArgModel>) -> Result<CommandModel, Abort> {
    if args.len() < 2 {
        Err(Abort::MissingArgument)
    } else if !(args[1] is Amount) {
        Err(Abort::InvalidArgument)
    } else {
        Ok(CommandModel::InsertKYCAllowanceCap(args[1]->Amount_0))
    }
}

/// Decode of the arguments after a matched `insert_snapshot_record`.
pub open spec fn spec_decode_snapshot_record(args: Seq<ArgModel>) -> Result<CommandModel, Abort> {
    if args.len() < 2 {
        Err(Abort::MissingArgument)
    } else if !(args[1] is Text) {
        Err(Abort::InvalidArgument)
    } else if args.len() < 3 {
        Err(Abort::MissingArgument)
    } else if !(args[2] is Amount) {
        Err(Abort::InvalidArgument)
    } else {
        Ok(CommandModel::InsertSnapshotRecord(args[1]->Text_0, args[2]->Amount_0))
    }
}

/// Decode of the arguments after a matched `insert_kyc_data`.
pub open spec fn spec_decode_kyc_data(args: Seq<ArgModel>) -> Result<CommandModel, Abort> {
    if args.len() < 2 {
        Err(Abort::MissingArgument)
    } else if !(args[1] is PubKey) {
        Err(Abort::InvalidArgument)
    } else if args.len() < 3 {
        Err(Abort::MissingArgument)
    } else if !(args[2] is Amount) {
        Err(Abort::InvalidArgument)
    } else {
        Ok(CommandModel::InsertKYCData(args[1]->PubKey_0, args[2]->Amount_0))
    }
}

/// Decode of the arguments after a matched `update_kyc_level`.
pub open spec fn spec_decode_kyc_level(args: Seq<ArgModel>) -> Result<CommandModel, Abort> {
    if args.len() < 2 {
        Err(Abort::MissingArgument)
    } else if !(args[1] is PubKey) {
        Err(Abort::InvalidArgument)
    } else if args.len() < 3 {
        Err(Abort::MissingArgument)
    } else if !(args[2] is Amount) {
        Err(Abort::InvalidArgument)
    } else {
        Ok(CommandModel::UpdateKYCLevel(args[1]->PubKey_0, args[2]->Amount_0))
    }
}

/// Decode of the arguments after a matched `get_token`.
pub open spec fn spec_decode_get_token(args: Seq<ArgModel>) -> Result<CommandModel, Abort> {
    if args.len() < 2 {
        Err(Abort::MissingArgument)
    } else if !(args[1] is ServiceKey) {
        Err(Abort::InvalidArgument)
    } else if args.len() < 3 {
        Err(Abort::MissingArgument)
    } else if !(args[2] is TextList) {
        Err(Abort::InvalidArgument)
    } else if args.len() < 4 {
        Err(Abort::MissingArgument)
    } else if !(args[3] is TextList) {
        Err(Abort::InvalidArgument)
    } else if args.len() < 5 {
        Err(Abort::MissingArgument)
    } else if !(args[4] is TextList) {
        Err(Abort::InvalidArgument)
    } else {
        Ok(
            CommandModel::GetToken(
                args[1]->ServiceKey_0,
                args[2]->TextList_0,
                args[3]->TextList_0,
                args[4]->TextList_0,
            ),
        )
    }
}

/// The decode of a raw argument list: argument zero selects the variant, the
/// variant's fixed-position arguments follow. Arguments past the variant's
/// arity are ignored, as the router never reads them.
pub open spec fn spec_from_args(args: Seq<ArgModel>) -> Result<CommandModel, Abort> {
    if args.len() < 1 {
        Err(Abort::MissingArgument)
    } else if !(args[0] is Text) {
        Err(Abort::InvalidArgument)
    } else {
        let name = args[0]->Text_0;
        if name == "insert_kyc_allowance_cap"@ {
            spec_decode_allowance_cap(args)
        } else if name == "insert_snapshot_record"@ {
            spec_decode_snapshot_record(args)
        } else if name == "insert_kyc_data"@ {
            spec_decode_kyc_data(args)
        } else if name == "update_kyc_level"@ {
            spec_decode_kyc_level(args)
        } else if name == "get_token"@ {
            spec_decode_get_token(args)
        } else {
            Err(Abort::User(Error::UnknownProxyApi))
        }
    }
}

/// Reads the amount argument of `insert_kyc_allowance_cap`.
fn decode_allowance_cap(args: &Vec<ArgValue>) -> (r: Result<Api, Abort>)
    ensures
        r matches Ok(cmd) ==> Ok::<CommandModel, Abort>(cmd.deep_view())
            == spec_decode_allowance_cap(args.deep_view()),
        r matches Err(e) ==> Err::<CommandModel, Abort>(e)
            == spec_decode_allowance_cap(args.deep_view()),
{
    if args.len() < 2 {
        return Err(Abort::MissingArgument);
    }
    match &args[1] {
        ArgValue::Amount(cap) => Ok(Api::InsertKYCAllowanceCap(*cap)),
        _ => Err(Abort::InvalidArgument),
    }
}

/// Reads the address and amount arguments of `insert_snapshot_record`.
fn decode_snapshot_record(args: &Vec<ArgValue>) -> (r: Result<Api, Abort>)
    ensures
        r matches Ok(cmd) ==> Ok::<CommandModel, Abort>(cmd.deep_view())
            == spec_decode_snapshot_record(args.deep_view()),
        r matches Err(e) ==> Err::<CommandModel, Abort>(e)
            == spec_decode_snapshot_record(args.deep_view()),
{
    if args.len() < 2 {
        return Err(Abort::MissingArgument);
    }
    let address = match &args[1] {
        ArgValue::Text(address) => address.clone(),
        _ => {
            return Err(Abort::InvalidArgument);
        },
    };
    if args.len() < 3 {
        return Err(Abort::MissingArgument);
    }
    match &args[2] {
        ArgValue::Amount(amount) => Ok(Api::InsertSnapshotRecord(address, *amount)),
        _ => Err(Abort::InvalidArgument),
    }
}

/// Reads the public-key and level arguments of `insert_kyc_data`.
fn decode_kyc_data(args: &Vec<ArgValue>) -> (r: Result<Api, Abort>)
    ensures
        r matches Ok(cmd) ==> Ok::<CommandModel, Abort>(cmd.deep_view())
            == spec_decode_kyc_data(args.deep_view()),
        r matches Err(e) ==> Err::<CommandModel, Abort>(e)
            == spec_decode_kyc_data(args.deep_view()),
{
    if args.len() < 2 {
        return Err(Abort::MissingArgument);
    }
    let pubkey = match &args[1] {
        ArgValue::PubKey(pubkey) => *pubkey,
        _ => {
            return Err(Abort::InvalidArgument);
        },
    };
    if args.len() < 3 {
        return Err(Abort::MissingArgument);
    }
    match &args[2] {
        ArgValue::Amount(level) => Ok(Api::InsertKYCData(pubkey, *level)),
        _ => Err(Abort::InvalidArgument),
    }
}

/// Reads the public-key and level arguments of `update_kyc_level`.
fn decode_kyc_level(args: &Vec<ArgValue>) -> (r: Result<Api, Abort>)
    ensures
        r matches Ok(cmd) ==> Ok::<CommandModel, Abort>(cmd.deep_view())
            == spec_decode_kyc_level(args.deep_view()),
        r matches Err(e) ==> Err::<CommandModel, Abort>(e)
            == spec_decode_kyc_level(args.deep_view()),
{
    if args.len() < 2 {
        return Err(Abort::MissingArgument);
    }
    let pubkey = match &args[1] {
        ArgValue::PubKey(pubkey) => *pubkey,
        _ => {
            return Err(Abort::InvalidArgument);
        },
    };
    if args.len() < 3 {
        return Err(Abort::MissingArgument);
    }
    match &args[2] {
        ArgValue::Amount(level) => Ok(Api::UpdateKYCLevel(pubkey, *level)),
        _ => Err(Abort::InvalidArgument),
    }
}

/// Reads the service key and the three string lists of `get_token`.
fn decode_get_token(args: &Vec<ArgValue>) -> (r: Result<Api, Abort>)
    ensures
        r matches Ok(cmd) ==> Ok::<CommandModel, Abort>(cmd.deep_view())
            == spec_decode_get_token(args.deep_view()),
        r matches Err(e) ==> Err::<CommandModel, Abort>(e)
            == spec_decode_get_token(args.deep_view()),
{
    broadcast use vstd::std_specs::vec::vec_clone_deep_view_proof;

    if args.len() < 2 {
        return Err(Abort::MissingArgument);
    }
    let key = match &args[1] {
        ArgValue::ServiceKey(key) => *key,
        _ => {
            return Err(Abort::InvalidArgument);
        },
    };
    if args.len() < 3 {
        return Err(Abort::MissingArgument);
    }
    let addresses = match &args[2] {
        ArgValue::TextList(addresses) => addresses.clone(),
        _ => {
            return Err(Abort::InvalidArgument);
        },
    };
    if args.len() < 4 {
        return Err(Abort::MissingArgument);
    }
    let messages = match &args[3] {
        ArgValue::TextList(messages) => messages.clone(),
        _ => {
            return Err(Abort::InvalidArgument);
        },
    };
    if args.len() < 5 {
        return Err(Abort::MissingArgument);
    }
    match &args[4] {
        ArgValue::TextList(signatures) => Ok(
            Api::GetToken(key, addresses, messages, signatures.clone()),
        ),
        _ => Err(Abort::InvalidArgument),
    }
}

impl Api {
    /// Decode the raw argument list of an invocation into the command it
    /// names. The first absent argument aborts with
    /// [`Abort::MissingArgument`], the first mistyped one with
    /// [`Abort::InvalidArgument`], and an unknown method name with
    /// [`Error::UnknownProxyApi`]; exactly the well-shaped lists decode.
    pub fn from_args(args: &Vec<ArgValue>) -> (r: Result<Api, Abort>)
        ensures
            r matches Ok(cmd) ==> Ok::<CommandModel, Abort>(cmd.deep_view())
                == spec_from_args(args.deep_view()),
            r matches Err(e) ==> Err::<CommandModel, Abort>(e)
                == spec_from_args(args.deep_view()),
    {
        if args.len() < 1 {
            return Err(Abort::MissingArgument);
        }
        let method_name = match &args[0] {
            ArgValue::Text(method_name) => method_name,
            _ => {
                return Err(Abort::InvalidArgument);
            },
        };
        if *method_name == String::from_str("insert_kyc_allowance_cap") {
            decode_allowance_cap(args)
        } else if *method_name == String::from_str("insert_snapshot_record") {
            decode_snapshot_record(args)
        } else if *method_name == String::from_str("insert_kyc_data") {
            decode_kyc_data(args)
        } else if *method_name == String::from_str("update_kyc_level") {
            decode_kyc_level(args)
        } else if *method_name == String::from_str("get_token") {
            decode_get_token(args)
        } else {
            Err(Abort::User(Error::UnknownProxyApi))
        }
    }
}

} // verus!
