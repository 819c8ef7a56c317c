//! The proxy's command type and the vocabulary of one invocation.
//!
//! An invocation is decoded into an [`Api`] command, and handling the command
//! is a short, fixed conversation with the host runtime: the proxy emits a
//! [`Step`], the driver performs the named [`Action`] and reports what came
//! back, and the proxy answers with the next step until the step is
//! [`Step::Done`] or [`Step::Fail`]. The host aborts the whole invocation and
//! rolls back every state change when a step fails, so the proxy performs no
//! compensation of its own.

use vstd::prelude::*;

use crate::data::{Amount, ContractRef, Key, PublicKey, Purse, TransferError};
use crate::error::Error;

verus! {

/// A decoded proxy command, one variant per supported operation.
#[derive(Clone, Debug, PartialEq, Eq)]
pub enum Api {
    /// Set the global per-account swap allowance ceiling.
    InsertKYCAllowanceCap(Amount),
    /// Record a snapshot of a legacy-chain balance for later swap; the same
    /// amount is then deposited into the service's holding purse.
    InsertSnapshotRecord(String, Amount),
    /// Bind a new-chain identity to a KYC level for the first time; a fixed
    /// one-time incentive is then paid to that identity.
    InsertKYCData(PublicKey, Amount),
    /// Change the KYC level of an already-registered identity.
    UpdateKYCLevel(PublicKey, Amount),
    /// Batch redemption routed to a caller-chosen service: legacy addresses,
    /// messages, and signatures, positionally correlated.
    GetToken(Key, Vec<String>, Vec<String>, Vec<String>),
}

/// Mathematical view of an [`Api`] command.
#[verifier::ext_equal]
pub enum CommandModel {
    /// Set the global per-account swap allowance ceiling.
    InsertKYCAllowanceCap(Amount),
    /// Record a snapshot of a legacy-chain balance for later swap.
    InsertSnapshotRecord(Seq<char>, Amount),
    /// Bind a new-chain identity to a KYC level for the first time.
    InsertKYCData(PublicKey, Amount),
    /// Change the KYC level of an already-registered identity.
    UpdateKYCLevel(PublicKey, Amount),
    /// Batch redemption routed to a caller-chosen service.
    GetToken(Key, Seq<Seq<char>>, Seq<Seq<char>>, Seq<Seq<char>>),
}

impl DeepView for Api {
    type V = CommandModel;

    open spec fn deep_view(&self) -> CommandModel {
        match self {
            Api::InsertKYCAllowanceCap(cap) => CommandModel::InsertKYCAllowanceCap(*cap),
            Api::InsertSnapshotRecord(addr, amt) => CommandModel::InsertSnapshotRecord(
                addr@,
                *amt,
            ),
            Api::InsertKYCData(pk, level) => CommandModel::InsertKYCData(*pk, *level),
            Api::UpdateKYCLevel(pk, level) => CommandModel::UpdateKYCLevel(*pk, *level),
            Api::GetToken(key, addrs, msgs, sigs) => CommandModel::GetToken(
                *key,
                addrs.deep_view(),
                msgs.deep_view(),
                sigs.deep_view(),
            ),
        }
    }
}

/// A method of the swap service's call surface, by wire name.
#[derive(Clone, Copy, Debug, PartialEq, Eq, Structural)]
pub enum SwapMethod {
    /// `insert_kyc_allowance_cap`
    InsertKycAllowanceCap,
    /// `insert_snapshot_record`
    InsertSnapshotRecord,
    /// `insert_kyc_data`
    InsertKycData,
    /// `update_kyc_level`
    UpdateKycLevel,
    /// `get_token`
    GetToken,
    /// `get_contract_purse`
    GetContractPurse,
}

impl SwapMethod {
    /// The method's wire name.
    pub open spec fn spec_name(&self) -> Seq<char> {
        match *self {
            SwapMethod::InsertKycAllowanceCap => "insert_kyc_allowance_cap"@,
            SwapMethod::InsertSnapshotRecord => "insert_snapshot_record"@,
            SwapMethod::InsertKycData => "insert_kyc_data"@,
            SwapMethod::UpdateKycLevel => "update_kyc_level"@,
            SwapMethod::GetToken => "get_token"@,
            SwapMethod::GetContractPurse => "get_contract_purse"@,
        }
    }

    /// The method's wire name.
    pub fn name(&self) -> (r: &'static str)
        ensures
            r@ == self.spec_name(),
    {
        match *self {
            SwapMethod::InsertKycAllowanceCap => "insert_kyc_allowance_cap",
            SwapMethod::InsertSnapshotRecord => "insert_snapshot_record",
            SwapMethod::InsertKycData => "insert_kyc_data",
            SwapMethod::UpdateKycLevel => "update_kyc_level",
            SwapMethod::GetToken => "get_token",
            SwapMethod::GetContractPurse => "get_contract_purse",
        }
    }
}

/// The typed payload forwarded with a cross-service call.
#[derive(Clone, Debug, PartialEq, Eq)]
pub enum ForwardCall {
    /// The new allowance ceiling.
    AllowanceCap(Amount),
    /// A legacy-chain address and the snapshot amount.
    SnapshotRecord(String, Amount),
    /// A public key and its first KYC level.
    KycData(PublicKey, Amount),
    /// A public key and its new KYC level.
    KycLevel(PublicKey, Amount),
    /// Legacy addresses, messages, and signatures, forwarded as given.
    TokenRedemption(Vec<String>, Vec<String>, Vec<String>),
}

/// Mathematical view of a [`ForwardCall`].
#[verifier::ext_equal]
pub enum CallModel {
    /// The new allowance ceiling.
    AllowanceCap(Amount),
    /// A legacy-chain address and the snapshot amount.
    SnapshotRecord(Seq<char>, Amount),
    /// A public key and its first KYC level.
    KycData(PublicKey, Amount),
    /// A public key and its new KYC level.
    KycLevel(PublicKey, Amount),
    /// Legacy addresses, messages, and signatures, forwarded as given.
    TokenRedemption(Seq<Seq<char>>, Seq<Seq<char>>, Seq<Seq<char>>),
}

impl DeepView for ForwardCall {
    type V = CallModel;

    open spec fn deep_view(&self) -> CallModel {
        match self {
            ForwardCall::AllowanceCap(cap) => CallModel::AllowanceCap(*cap),
            ForwardCall::SnapshotRecord(addr, amt) => CallModel::SnapshotRecord(addr@, *amt),
            ForwardCall::KycData(pk, level) => CallModel::KycData(*pk, *level),
            ForwardCall::KycLevel(pk, level) => CallModel::KycLevel(*pk, *level),
            ForwardCall::TokenRedemption(addrs, msgs, sigs) => CallModel::TokenRedemption(
                addrs.deep_view(),
                msgs.deep_view(),
                sigs.deep_view(),
            ),
        }
    }
}

/// One host-runtime action the driver must perform on the proxy's behalf.
#[derive(Clone, Debug, PartialEq, Eq)]
pub enum Action {
    /// Look the swap service's key up in the naming directory, under the
    /// well-known name [`crate::dispatch::swap_hash_name`].
    LookupSwapContract,
    /// Call the method on the service, forwarding the payload; the call has
    /// no result and aborts the invocation itself if the callee aborts.
    Forward(ContractRef, SwapMethod, ForwardCall),
    /// Call the method on the service and collect its holding purse.
    FetchPurse(ContractRef, SwapMethod),
    /// Move the amount from the caller's main purse into the purse.
    TransferFromMainPurse(Purse, Amount),
    /// Move the amount from the proxy's account to the key's account.
    TransferToAccount(PublicKey, Amount),
}

/// Mathematical view of an [`Action`].
#[verifier::ext_equal]
pub enum ActionModel {
    /// Look the swap service's key up in the naming directory.
    LookupSwapContract,
    /// Call the method on the service, forwarding the payload.
    Forward(ContractRef, SwapMethod, CallModel),
    /// Call the method on the service and collect its holding purse.
    FetchPurse(ContractRef, SwapMethod),
    /// Move the amount from the caller's main purse into the purse.
    TransferFromMainPurse(Purse, Amount),
    /// Move the amount from the proxy's account to the key's account.
    TransferToAccount(PublicKey, Amount),
}

impl DeepView for Action {
    type V = ActionModel;

    open spec fn deep_view(&self) -> ActionModel {
        match self {
            Action::LookupSwapContract => ActionModel::LookupSwapContract,
            Action::Forward(target, method, call) => ActionModel::Forward(
                *target,
                *method,
                call.deep_view(),
            ),
            Action::FetchPurse(target, method) => ActionModel::FetchPurse(*target, *method),
            Action::TransferFromMainPurse(purse, amt) => ActionModel::TransferFromMainPurse(
                *purse,
                *amt,
            ),
            Action::TransferToAccount(pk, amt) => ActionModel::TransferToAccount(*pk, *amt),
        }
    }
}

impl ActionModel {
    /// Whether the action moves value.
    pub open spec fn is_transfer(&self) -> bool {
        match *self {
            ActionModel::TransferFromMainPurse(_, _) => true,
            ActionModel::TransferToAccount(_, _) => true,
            _ => false,
        }
    }
}

/// Every way an invocation aborts before completing.
#[derive(Clone, Copy, Debug, PartialEq, Eq, Structural)]
pub enum Abort {
    /// A required argument was absent.
    MissingArgument,
    /// A required argument had the wrong wire type.
    InvalidArgument,
    /// The swap service's key is not in the naming directory.
    GetKey,
    /// A directory key does not name a callable service.
    UnresolvedContract,
    /// A domain error, surfaced with code `65536 + ordinal`.
    User(Error),
    /// A transfer failed; the host's error is relayed unchanged.
    Transfer(TransferError),
}

/// What the proxy asks of the driver next.
#[derive(Clone, Debug, PartialEq, Eq)]
pub enum Step {
    /// Perform this action and report its result.
    Do(Action),
    /// The invocation is complete.
    Done,
    /// Abort the invocation; the host rolls back every state change made so
    /// far.
    Fail(Abort),
}

/// Mathematical view of a [`Step`].
#[verifier::ext_equal]
pub enum StepModel {
    /// Perform this action and report its result.
    Do(ActionModel),
    /// The invocation is complete.
    Done,
    /// Abort the invocation.
    Fail(Abort),
}

impl DeepView for Step {
    type V = StepModel;

    open spec fn deep_view(&self) -> StepModel {
        match self {
            Step::Do(action) => StepModel::Do(action.deep_view()),
            Step::Done => StepModel::Done,
            Step::Fail(abort) => StepModel::Fail(*abort),
        }
    }
}

} // verus!
