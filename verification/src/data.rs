//! Plain-value models of the handles and payloads that cross the proxy's
//! boundary: 512-bit amounts, public keys, directory keys, contract
//! references, purses, and the typed argument values of an invocation.
//!
//! The host runtime hands the proxy each argument already carrying one of a
//! fixed set of wire types; [`ArgValue`] is that tagged value. [`ArgModel`] is
//! its mathematical view, with sequences in place of strings and vectors.

use vstd::prelude::*;

verus! {

/// A 256-bit identifier, as four 64-bit words, least significant first. Used
/// for contract hashes and purse identities.
#[derive(Clone, Copy, Debug, PartialEq, Eq, Structural)]
pub struct Hash32 {
    pub w0: u64,
    pub w1: u64,
    pub w2: u64,
    pub w3: u64,
}

/// A new-chain account identity: a 256-bit public key, as four 64-bit words,
/// least significant first.
#[derive(Clone, Copy, Debug, PartialEq, Eq, Structural)]
pub struct PublicKey {
    pub w0: u64,
    pub w1: u64,
    pub w2: u64,
    pub w3: u64,
}

/// An unsigned 512-bit amount, as four 128-bit words, least significant
/// first. The proxy never computes with amounts; it carries them between the
/// caller, the swap service, and the transfer primitive.
#[derive(Clone, Copy, Debug, PartialEq, Eq, Structural)]
pub struct Amount {
    pub w0: u128,
    pub w1: u128,
    pub w2: u128,
    pub w3: u128,
}

impl Amount {
    /// The amount whose value is `n`.
    pub open spec fn spec_from_u64(n: u64) -> Amount {
        Amount { w0: n as u128, w1: 0, w2: 0, w3: 0 }
    }

    /// The amount whose value is `n`.
    pub fn from_u64(n: u64) -> (r: Amount)
        ensures
            r == Amount::spec_from_u64(n),
    {
        Amount { w0: n as u128, w1: 0, w2: 0, w3: 0 }
    }
}

/// A value-holding purse controlled by an account or a service.
#[derive(Clone, Copy, Debug, PartialEq, Eq, Structural)]
pub struct Purse {
    pub addr: Hash32,
}

/// A reference to a callable service, resolved from a directory key.
#[derive(Clone, Copy, Debug, PartialEq, Eq, Structural)]
pub struct ContractRef {
    pub hash: Hash32,
}

/// A key in the host runtime's naming directory. Only a `Hash` key names a
/// callable service.
#[derive(Clone, Copy, Debug, PartialEq, Eq, Structural)]
pub enum Key {
    /// An account identity.
    Account(Hash32),
    /// A stored contract's hash.
    Hash(Hash32),
    /// A purse.
    URef(Purse),
}

impl Key {
    /// The callable reference this key names, if any: only a contract hash is
    /// callable.
    pub open spec fn spec_to_contract_ref(&self) -> Option<ContractRef> {
        match *self {
            Key::Hash(h) => Some(ContractRef { hash: h }),
            _ => None,
        }
    }

    /// The callable reference this key names, if any: only a contract hash is
    /// callable.
    pub fn to_contract_ref(&self) -> (r: Option<ContractRef>)
        ensures
            r == self.spec_to_contract_ref(),
    {
        match *self {
            Key::Hash(h) => Some(ContractRef { hash: h }),
            _ => None,
        }
    }
}

/// The error a failed transfer reports, carried as the host's numeric code
/// and relayed to the caller unchanged.
#[derive(Clone, Copy, Debug, PartialEq, Eq, Structural)]
pub struct TransferError {
    pub code: u32,
}

/// One argument of an invocation, tagged with its wire type.
#[derive(Clone, Debug, PartialEq, Eq)]
pub enum ArgValue {
    /// A string.
    Text(String),
    /// An unsigned 512-bit amount.
    Amount(Amount),
    /// A new-chain public key.
    PubKey(PublicKey),
    /// A directory key naming a service.
    ServiceKey(Key),
    /// An ordered list of strings.
    TextList(Vec<String>),
}

/// Mathematical view of an [`ArgValue`].
pub enum ArgModel {
    /// A string.
    Text(Seq<char>),
    /// An unsigned 512-bit amount.
    Amount(Amount),
    /// A new-chain public key.
    PubKey(PublicKey),
    /// A directory key naming a service.
    ServiceKey(Key),
    /// An ordered list of strings.
    TextList(Seq<Seq<char>>),
}

impl DeepView for ArgValue {
    type V = ArgModel;

    open spec fn deep_view(&self) -> ArgModel {
        match self {
            ArgValue::Text(s) => ArgModel::Text(s@),
            ArgValue::Amount(a) => ArgModel::Amount(*a),
            ArgValue::PubKey(k) => ArgModel::PubKey(*k),
            ArgValue::ServiceKey(k) => ArgModel::ServiceKey(*k),
            ArgValue::TextList(v) => ArgModel::TextList(v.deep_view()),
        }
    }
}

} // verus!
