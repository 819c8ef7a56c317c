//! The router's laws: what holds of decoding and dispatch across all inputs,
//! stated over the mathematical models and proved once and for all.

use vstd::prelude::*;

use crate::api::{Abort, ActionModel, CallModel, CommandModel, StepModel, SwapMethod};
use crate::data::{Amount, ArgModel, ContractRef, Key, PublicKey, Purse, TransferError};
use crate::decode::{is_known_method, spec_from_args};
use crate::dispatch::{
    spec_incentive_amount, spec_invoke, spec_on_forwarded, spec_on_key, spec_on_purse,
    spec_settle_transfer,
};
use crate::error::Error;

verus! {

/// The number of arguments each method requires, the method-name argument
/// itself included.
pub open spec fn method_arity(name: Seq<char>) -> int {
    if name == "insert_kyc_allowance_cap"@ {
        2
    } else if name == "insert_snapshot_record"@ {
        3
    } else if name == "insert_kyc_data"@ {
        3
    } else if name == "update_kyc_level"@ {
        3
    } else {
        5
    }
}

/// Whether `arg` carries the wire type that position `i` of method `name`
/// requires.
pub open spec fn arg_well_typed(name: Seq<char>, i: int, arg: ArgModel) -> bool {
    if name == "insert_kyc_allowance_cap"@ {
        arg is Amount
    } else if name == "insert_snapshot_record"@ {
        if i == 1 {
            arg is Text
        } else {
            arg is Amount
        }
    } else if name == "insert_kyc_data"@ || name == "update_kyc_level"@ {
        if i == 1 {
            arg is PubKey
        } else {
            arg is Amount
        }
    } else {
        if i == 1 {
            arg is ServiceKey
        } else {
            arg is TextList
        }
    }
}

/// An argument list that decodes: a known method name followed by that
/// method's full, correctly-typed fixed argument list.
pub open spec fn well_shaped_args(args: Seq<ArgModel>) -> bool {
    &&& args.len() >= 1
    &&& args[0] is Text
    &&& is_known_method(args[0]->Text_0)
    &&& args.len() >= method_arity(args[0]->Text_0)
    &&& forall|i: int|
        1 <= i < method_arity(args[0]->Text_0) ==> arg_well_typed(
            args[0]->Text_0,
            i,
            #[trigger] args[i],
        )
}

/// The five method names are pairwise distinct, so the method-name argument
/// selects at most one variant.
pub proof fn lemma_method_names_distinct()
    ensures
        "insert_kyc_allowance_cap"@ != "insert_snapshot_record"@,
        "insert_kyc_allowance_cap"@ != "insert_kyc_data"@,
        "insert_kyc_allowance_cap"@ != "update_kyc_level"@,
        "insert_kyc_allowance_cap"@ != "get_token"@,
        "insert_snapshot_record"@ != "insert_kyc_data"@,
        "insert_snapshot_record"@ != "update_kyc_level"@,
        "insert_snapshot_record"@ != "get_token"@,
        "insert_kyc_data"@ != "update_kyc_level"@,
        "insert_kyc_data"@ != "get_token"@,
        "update_kyc_level"@ != "get_token"@,
{
    reveal_strlit("insert_kyc_allowance_cap");
    reveal_strlit("insert_snapshot_record");
    reveal_strlit("insert_kyc_data");
    reveal_strlit("update_kyc_level");
    reveal_strlit("get_token");
    assert("insert_kyc_allowance_cap"@.len() == 24);
    assert("insert_snapshot_record"@.len() == 22);
    assert("insert_kyc_data"@.len() == 15);
    assert("update_kyc_level"@.len() == 16);
    assert("get_token"@.len() == 9);
}

/// Each of the five method names, with correctly-typed arguments, decodes to
/// its own command variant and to no other; a first argument naming no known
/// method aborts the decode with [`Error::UnknownProxyApi`].
pub proof fn lemma_decode_selects_matching_variant(args: Seq<ArgModel>)
    requires
        args.len() >= 1,
        args[0] is Text,
    ensures
        spec_from_args(args) matches Ok(cmd) ==> {
            let name = args[0]->Text_0;
            &&& (cmd is InsertKYCAllowanceCap <==> name == "insert_kyc_allowance_cap"@)
            &&& (cmd is InsertSnapshotRecord <==> name == "insert_snapshot_record"@)
            &&& (cmd is InsertKYCData <==> name == "insert_kyc_data"@)
            &&& (cmd is UpdateKYCLevel <==> name == "update_kyc_level"@)
            &&& (cmd is GetToken <==> name == "get_token"@)
        },
        !is_known_method(args[0]->Text_0) ==> spec_from_args(args) == Err::<
            CommandModel,
            Abort,
        >(Abort::User(Error::UnknownProxyApi)),
{
    lemma_method_names_distinct();
}

/// What each well-shaped argument list decodes to: the variant named by the
/// method name, carrying the listed arguments unchanged.
pub proof fn lemma_decode_produces_commands(args: Seq<ArgModel>)
    requires
        args.len() >= 1,
        args[0] is Text,
    ensures
        args[0]->Text_0 == "insert_kyc_allowance_cap"@ && args.len() >= 2 && args[1] is Amount
            ==> spec_from_args(args) == Ok::<CommandModel, Abort>(
            CommandModel::InsertKYCAllowanceCap(args[1]->Amount_0),
        ),
        args[0]->Text_0 == "insert_snapshot_record"@ && args.len() >= 3 && args[1] is Text
            && args[2] is Amount ==> spec_from_args(args) == Ok::<CommandModel, Abort>(
            CommandModel::InsertSnapshotRecord(args[1]->Text_0, args[2]->Amount_0),
        ),
        args[0]->Text_0 == "insert_kyc_data"@ && args.len() >= 3 && args[1] is PubKey && args[2]
            is Amount ==> spec_from_args(args) == Ok::<CommandModel, Abort>(
            CommandModel::InsertKYCData(args[1]->PubKey_0, args[2]->Amount_0),
        ),
        args[0]->Text_0 == "update_kyc_level"@ && args.len() >= 3 && args[1] is PubKey && args[2]
            is Amount ==> spec_from_args(args) == Ok::<CommandModel, Abort>(
            CommandModel::UpdateKYCLevel(args[1]->PubKey_0, args[2]->Amount_0),
        ),
        args[0]->Text_0 == "get_token"@ && args.len() >= 5 && args[1] is ServiceKey && args[2]
            is TextList && args[3] is TextList && args[4] is TextList ==> spec_from_args(args)
            == Ok::<CommandModel, Abort>(
            CommandModel::GetToken(
                args[1]->ServiceKey_0,
                args[2]->TextList_0,
                args[3]->TextList_0,
                args[4]->TextList_0,
            ),
        ),
{
    lemma_method_names_distinct();
}

/// Decoding succeeds exactly on the well-shaped argument lists. Omitting a
/// required argument or supplying one of the wrong wire type aborts the
/// decode — with [`Abort::MissingArgument`] or [`Abort::InvalidArgument`]
/// respectively — before any command exists, so before any call or transfer
/// can be planned.
pub proof fn lemma_decode_ok_iff_well_shaped(args: Seq<ArgModel>)
    ensures
        spec_from_args(args) is Ok <==> well_shaped_args(args),
        args.len() == 0 ==> spec_from_args(args) == Err::<CommandModel, Abort>(
            Abort::MissingArgument,
        ),
        args.len() >= 1 && !(args[0] is Text) ==> spec_from_args(args) == Err::<
            CommandModel,
            Abort,
        >(Abort::InvalidArgument),
        args.len() >= 1 && args[0] is Text && is_known_method(args[0]->Text_0)
            && !well_shaped_args(args) ==> (spec_from_args(args) == Err::<CommandModel, Abort>(
            Abort::MissingArgument,
        ) || spec_from_args(args) == Err::<CommandModel, Abort>(Abort::InvalidArgument)),
{
    lemma_method_names_distinct();
    if args.len() >= 1 && args[0] is Text && is_known_method(args[0]->Text_0) {
        let name = args[0]->Text_0;
        if well_shaped_args(args) {
            assert(arg_well_typed(name, 1, args[1]));
            if method_arity(name) >= 3 {
                assert(arg_well_typed(name, 2, args[2]));
            }
            if method_arity(name) >= 5 {
                assert(arg_well_typed(name, 3, args[3]));
                assert(arg_well_typed(name, 4, args[4]));
            }
        }
    }
}

/// Before a command's forwarded call has returned, no step moves value: the
/// first step of every command and the answer to every directory lookup are
/// lookups, forwards, or aborts, never transfers.
pub proof fn lemma_no_transfer_before_forward(cmd: CommandModel, found: Option<Key>)
    ensures
        !(spec_invoke(cmd) matches StepModel::Do(a) && a.is_transfer()),
        !(spec_on_key(cmd, found) matches StepModel::Do(a) && a.is_transfer()),
{
}

/// The order of operations for recording a legacy balance: the first two
/// steps move no value; only once the snapshot insert has returned is the
/// holding purse fetched, and only once the purse is known is value moved —
/// exactly the recorded amount, from the caller's main purse into that
/// purse. An aborted insert therefore can never be accompanied by a
/// transfer; that an abort after the insert also un-does the insert is the
/// host runtime's all-or-nothing guarantee.
pub proof fn lemma_snapshot_transfer_follows_insert(
    addr: Seq<char>,
    amt: Amount,
    swap_ref: ContractRef,
    purse: Purse,
)
    ensures
        spec_invoke(CommandModel::InsertSnapshotRecord(addr, amt)) == StepModel::Do(
            ActionModel::LookupSwapContract,
        ),
        spec_on_forwarded(CommandModel::InsertSnapshotRecord(addr, amt), swap_ref)
            == StepModel::Do(ActionModel::FetchPurse(swap_ref, SwapMethod::GetContractPurse)),
        spec_on_purse(CommandModel::InsertSnapshotRecord(addr, amt), purse) == StepModel::Do(
            ActionModel::TransferFromMainPurse(purse, amt),
        ),
{
}

/// A successful registration pays exactly one incentive transfer, of the
/// fixed constant amount, to the registered key itself: the step after the
/// forwarded registration is that transfer, the amount does not depend on
/// the registered level, and a settled transfer ends the invocation with no
/// further action.
pub proof fn lemma_registration_incentive_fixed(
    pk: PublicKey,
    level: Amount,
    other_level: Amount,
    swap_ref: ContractRef,
)
    ensures
        spec_on_forwarded(CommandModel::InsertKYCData(pk, level), swap_ref) == StepModel::Do(
            ActionModel::TransferToAccount(pk, spec_incentive_amount()),
        ),
        spec_on_forwarded(CommandModel::InsertKYCData(pk, level), swap_ref) == spec_on_forwarded(
            CommandModel::InsertKYCData(pk, other_level),
            swap_ref,
        ),
        spec_incentive_amount() == Amount::spec_from_u64(100_000_000_000_000_000),
        spec_settle_transfer(Ok::<(), TransferError>(())) == StepModel::Done,
{
}

/// The proxy performs no duplicate-suppression of its own: handling a
/// registration can abort only because the swap service could not be
/// resolved or because the incentive transfer failed. Rejecting a repeated
/// registration — with [`Error::AlreadyRegisteredAndReceivedSmallToken`] —
/// is the swap service's decision alone, relayed through the forwarded
/// call's own abort.
pub proof fn lemma_registration_never_locally_rejected(
    pk: PublicKey,
    level: Amount,
    found: Option<Key>,
    swap_ref: ContractRef,
    outcome: Result<(), TransferError>,
)
    ensures
        spec_invoke(CommandModel::InsertKYCData(pk, level)) == StepModel::Do(
            ActionModel::LookupSwapContract,
        ),
        spec_on_key(CommandModel::InsertKYCData(pk, level), found) matches StepModel::Fail(a)
            ==> (a == Abort::GetKey || a == Abort::UnresolvedContract),
        !(spec_on_forwarded(CommandModel::InsertKYCData(pk, level), swap_ref) is Fail),
        spec_settle_transfer(outcome) matches StepModel::Fail(a) ==> a matches Abort::Transfer(_),
{
}

/// Token redemption is a pure pass-through: whatever the three sequences
/// hold — their lengths equal or not — the proxy forwards them unmodified to
/// the service its key argument names, fails only when that key names no
/// callable service, and is done as soon as the forward returns. All
/// validation is the downstream service's.
pub proof fn lemma_redemption_is_pass_through(
    key: Key,
    addrs: Seq<Seq<char>>,
    msgs: Seq<Seq<char>>,
    sigs: Seq<Seq<char>>,
    target: ContractRef,
)
    ensures
        key.spec_to_contract_ref() matches Some(resolved) ==> spec_invoke(
            CommandModel::GetToken(key, addrs, msgs, sigs),
        ) == StepModel::Do(
            ActionModel::Forward(
                resolved,
                SwapMethod::GetToken,
                CallModel::TokenRedemption(addrs, msgs, sigs),
            ),
        ),
        key.spec_to_contract_ref() is None ==> spec_invoke(
            CommandModel::GetToken(key, addrs, msgs, sigs),
        ) == StepModel::Fail(Abort::UnresolvedContract),
        spec_on_forwarded(CommandModel::GetToken(key, addrs, msgs, sigs), target)
            == StepModel::Done,
{
}

} // verus!
