//! Handling a decoded command: the fixed conversation with the host runtime.
//!
//! Every command first resolves its target — the four swap-service commands
//! through a directory lookup of the well-known swap key, the redemption
//! command from its own service-key argument — then forwards its payload to
//! the target. Two commands move value afterwards, and only afterwards:
//! recording a legacy balance deposits the recorded amount into the service's
//! holding purse once that purse is known, and a first-time registration pays
//! the fixed incentive to the new account. The ordering is load-bearing: a
//! transfer step is offered only after the forwarded call has returned, so an
//! aborted forward can never be accompanied by a movement of value.

use vstd::prelude::*;

use crate::api::{
    Abort, Action, ActionModel, Api, CallModel, CommandModel, ForwardCall, Step, StepModel,
    SwapMethod,
};
use crate::data::{Amount, ContractRef, Key, Purse, TransferError};

verus! {

/// One whole unit of the migrated currency, in the smallest indivisible
/// denomination.
pub const BIGSUN_TO_HDAC: u64 = 1_000_000_000_000_000_000;

/// The fixed one-time registration incentive: one tenth of one whole unit. It
/// does not depend on the registered KYC level.
pub open spec fn spec_incentive_amount() -> Amount {
    Amount::spec_from_u64(BIGSUN_TO_HDAC / 10)
}

/// The fixed one-time registration incentive: one tenth of one whole unit.
pub fn incentive_amount() -> (r: Amount)
    ensures
        r == spec_incentive_amount(),
{
    Amount::from_u64(BIGSUN_TO_HDAC / 10)
}

/// The directory name under which the swap service's key is registered.
pub open spec fn spec_swap_hash_name() -> Seq<char> {
    "swap_hash"@
}

/// The directory name under which the swap service's key is registered.
pub fn swap_hash_name() -> (r: &'static str)
    ensures
        r@ == spec_swap_hash_name(),
{
    "swap_hash"
}

/// The swap-service method a command forwards to.
pub open spec fn spec_forward_method(cmd: CommandModel) -> SwapMethod {
    match cmd {
        CommandModel::InsertKYCAllowanceCap(_) => SwapMethod::InsertKycAllowanceCap,
        CommandModel::InsertSnapshotRecord(_, _) => SwapMethod::InsertSnapshotRecord,
        CommandModel::InsertKYCData(_, _) => SwapMethod::InsertKycData,
        CommandModel::UpdateKYCLevel(_, _) => SwapMethod::UpdateKycLevel,
        CommandModel::GetToken(_, _, _, _) => SwapMethod::GetToken,
    }
}

/// The payload a command forwards: its own arguments, unchanged.
pub open spec fn spec_forward_call(cmd: CommandModel) -> CallModel {
    match cmd {
        CommandModel::InsertKYCAllowanceCap(cap) => CallModel::AllowanceCap(cap),
        CommandModel::InsertSnapshotRecord(addr, amt) => CallModel::SnapshotRecord(addr, amt),
        CommandModel::InsertKYCData(pk, level) => CallModel::KycData(pk, level),
        CommandModel::UpdateKYCLevel(pk, level) => CallModel::KycLevel(pk, level),
        CommandModel::GetToken(_, addrs, msgs, sigs) => CallModel::TokenRedemption(
            addrs,
            msgs,
            sigs,
        ),
    }
}

/// The first step of handling a command. The four swap-service commands ask
/// for the directory lookup; the redemption command resolves its own
/// service-key argument and forwards at once, or fails when the key names no
/// callable service.
pub open spec fn spec_invoke(cmd: CommandModel) -> StepModel {
    match cmd {
        CommandModel::GetToken(key, _, _, _) => match key.spec_to_contract_ref() {
            Some(target) => StepModel::Do(
                ActionModel::Forward(target, SwapMethod::GetToken, spec_forward_call(cmd)),
            ),
            None => StepModel::Fail(Abort::UnresolvedContract),
        },
        _ => StepModel::Do(ActionModel::LookupSwapContract),
    }
}

/// The step after the directory lookup: forward the command's payload to the
/// resolved swap service, or fail when the key is absent or not callable.
pub open spec fn spec_on_key(cmd: CommandModel, found: Option<Key>) -> StepModel {
    match found {
        None => StepModel::Fail(Abort::GetKey),
        Some(key) => match key.spec_to_contract_ref() {
            None => StepModel::Fail(Abort::UnresolvedContract),
            Some(target) => StepModel::Do(
                ActionModel::Forward(target, spec_forward_method(cmd), spec_forward_call(cmd)),
            ),
        },
    }
}

/// The step after the forwarded call has returned. Recording a legacy
/// balance goes on to fetch the service's holding purse; a first-time
/// registration pays the fixed incentive, whatever the registered level was;
/// every other command is complete.
pub open spec fn spec_on_forwarded(cmd: CommandModel, swap_ref: ContractRef) -> StepModel {
    match cmd {
        CommandModel::InsertSnapshotRecord(_, _) => StepModel::Do(
            ActionModel::FetchPurse(swap_ref, SwapMethod::GetContractPurse),
        ),
        CommandModel::InsertKYCData(pk, _) => StepModel::Do(
            ActionModel::TransferToAccount(pk, spec_incentive_amount()),
        ),
        _ => StepModel::Done,
    }
}

/// The step after the holding purse arrived: deposit exactly the recorded
/// amount into it from the caller's main purse.
pub open spec fn spec_on_purse(cmd: CommandModel, purse: Purse) -> StepModel
    recommends
        cmd is InsertSnapshotRecord,
{
    StepModel::Do(ActionModel::TransferFromMainPurse(purse, cmd->InsertSnapshotRecord_1))
}

/// The step after a transfer settled: done on success, otherwise abort with
/// the transfer's own error, relayed unchanged.
pub open spec fn spec_settle_transfer(outcome: Result<(), TransferError>) -> StepModel {
    match outcome {
        Ok(_) => StepModel::Done,
        Err(e) => StepModel::Fail(Abort::Transfer(e)),
    }
}

/// The step after a transfer settled: done on success, otherwise abort with
/// the transfer's own error, relayed unchanged.
pub fn settle_transfer(outcome: Result<(), TransferError>) -> (r: Step)
    ensures
        r.deep_view() == spec_settle_transfer(outcome),
{
    match outcome {
        Ok(_) => Step::Done,
        Err(e) => Step::Fail(Abort::Transfer(e)),
    }
}

impl Api {
    /// The swap-service method this command forwards to.
    pub fn forward_method(&self) -> (r: SwapMethod)
        ensures
            r == spec_forward_method(self.deep_view()),
    {
        match self {
            Api::InsertKYCAllowanceCap(_) => SwapMethod::InsertKycAllowanceCap,
            Api::InsertSnapshotRecord(_, _) => SwapMethod::InsertSnapshotRecord,
            Api::InsertKYCData(_, _) => SwapMethod::InsertKycData,
            Api::UpdateKYCLevel(_, _) => SwapMethod::UpdateKycLevel,
            Api::GetToken(_, _, _, _) => SwapMethod::GetToken,
        }
    }

    /// The payload this command forwards: its own arguments, unchanged.
    pub fn forward_call(&self) -> (r: ForwardCall)
        ensures
            r.deep_view() == spec_forward_call(self.deep_view()),
    {
        broadcast use vstd::std_specs::vec::vec_clone_deep_view_proof;

        match self {
            Api::InsertKYCAllowanceCap(cap) => ForwardCall::AllowanceCap(*cap),
            Api::InsertSnapshotRecord(addr, amt) => ForwardCall::SnapshotRecord(
                addr.clone(),
                *amt,
            ),
            Api::InsertKYCData(pk, level) => ForwardCall::KycData(*pk, *level),
            Api::UpdateKYCLevel(pk, level) => ForwardCall::KycLevel(*pk, *level),
            Api::GetToken(_, addrs, msgs, sigs) => ForwardCall::TokenRedemption(
                addrs.clone(),
                msgs.clone(),
                sigs.clone(),
            ),
        }
    }

    /// The first step of handling this command. The four swap-service
    /// commands ask for the directory lookup; the redemption command resolves
    /// its own service-key argument and forwards at once, or fails when the
    /// key names no callable service. No value moves in this step.
    pub fn invoke(&self) -> (r: Step)
        ensures
            r.deep_view() == spec_invoke(self.deep_view()),
    {
        match self {
            Api::GetToken(key, _, _, _) => match key.to_contract_ref() {
                Some(target) => Step::Do(
                    Action::Forward(target, SwapMethod::GetToken, self.forward_call()),
                ),
                None => Step::Fail(Abort::UnresolvedContract),
            },
            _ => Step::Do(Action::LookupSwapContract),
        }
    }

    /// The step after the directory lookup: forward this command's payload to
    /// the resolved swap service, or fail when the key is absent or not
    /// callable. No value moves in this step.
    pub fn on_key(&self, found: Option<Key>) -> (r: Step)
        requires
            !(self.deep_view() is GetToken),
        ensures
            r.deep_view() == spec_on_key(self.deep_view(), found),
    {
        match found {
            None => Step::Fail(Abort::GetKey),
            Some(key) => match key.to_contract_ref() {
                None => Step::Fail(Abort::UnresolvedContract),
                Some(target) => Step::Do(
                    Action::Forward(target, self.forward_method(), self.forward_call()),
                ),
            },
        }
    }

    /// The step after the forwarded call has returned. Recording a legacy
    /// balance goes on to fetch the service's holding purse; a first-time
    /// registration pays the fixed incentive, whatever the registered level
    /// was; every other command is complete.
    pub fn on_forwarded(&self, swap_ref: ContractRef) -> (r: Step)
        ensures
            r.deep_view() == spec_on_forwarded(self.deep_view(), swap_ref),
    {
        match self {
            Api::InsertSnapshotRecord(_, _) => Step::Do(
                Action::FetchPurse(swap_ref, SwapMethod::GetContractPurse),
            ),
            Api::InsertKYCData(pk, _) => Step::Do(
                Action::TransferToAccount(*pk, incentive_amount()),
            ),
            _ => Step::Done,
        }
    }

    /// The step after the holding purse arrived: deposit exactly the
    /// recorded amount into it from the caller's main purse.
    pub fn on_purse(&self, purse: Purse) -> (r: Step)
        requires
            self.deep_view() is InsertSnapshotRecord,
        ensures
            r.deep_view() == spec_on_purse(self.deep_view(), purse),
    {
        match self {
            Api::InsertSnapshotRecord(_, amt) => Step::Do(
                Action::TransferFromMainPurse(purse, *amt),
            ),
            _ => vstd::pervasive::unreached(),
        }
    }
}

} // verus!
