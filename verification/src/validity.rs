//! Which unsigned transactions the state machine takes, and on what terms
//! the transaction pool may keep them.

use vstd::prelude::*;
use crate::commands::{Call, CallView};

verus! {

/// The prefix of the tags of the transactions of this state machine.
pub const TAG_PREFIX: &'static str = "iris";

/// For how many blocks an accepted unsigned transaction stays valid.
pub const UNSIGNED_LONGEVITY: u64 = 5;

/// The terms on which the transaction pool may keep a valid transaction.
#[derive(Clone, Debug, PartialEq, Eq)]
pub struct ValidTransaction {
    /// Priority of the transaction.
    pub priority: u64,
    /// The tags that other transactions must provide first.
    pub requires: Vec<Vec<u8>>,
    /// The tags that this transaction provides.
    pub provides: Vec<Vec<u8>>,
    /// For how many blocks the transaction stays valid.
    pub longevity: u64,
    /// Whether the transaction is to be sent on to other nodes.
    pub propagate: bool,
}

/// Why a transaction is not valid.
#[derive(Clone, Copy, Debug, PartialEq, Eq, Structural)]
pub enum InvalidTransaction {
    /// The call of the transaction is not expected.
    Call,
}

/// Whether a transaction is valid, and if so on what terms.
pub type TransactionValidity = Result<ValidTransaction, InvalidTransaction>;

/// The valid transaction of priority 0 that neither requires nor provides a tag.
pub open spec fn plain_validity(validity: TransactionValidity, longevity: u64, propagate: bool) -> bool {
    &&& validity matches Ok(valid)
    &&& valid.priority == 0
    &&& valid.requires@.len() == 0
    &&& valid.provides@.len() == 0
    &&& valid.longevity == longevity
    &&& valid.propagate == propagate
}

/// `sp_runtime::transaction_validity::ValidTransaction::with_tag_prefix`,
/// followed by `longevity`, `propagate` and `build` of the builder it
/// returns: a valid transaction of priority 0 that neither requires nor
/// provides a tag, with the longevity and the propagation that were given.
/// The builder never fails.
#[verifier::external_body]
fn build_valid_transaction(prefix: &'static str, longevity: u64, propagate: bool) -> (validity: TransactionValidity)
    ensures
        plain_validity(validity, longevity, propagate),
{
    match sp_runtime::transaction_validity::ValidTransaction::with_tag_prefix(prefix)
        .longevity(longevity)
        .propagate(propagate)
        .build() {
        Ok(valid) => Ok(
            ValidTransaction {
                priority: valid.priority,
                requires: valid.requires,
                provides: valid.provides,
                longevity: valid.longevity,
                propagate: valid.propagate,
            },
        ),
        Err(_) => Err(InvalidTransaction::Call),
    }
}

/// The terms for the unsigned transactions that are taken.
pub fn validate_transaction_parameters() -> (validity: TransactionValidity)
    ensures
        plain_validity(validity, UNSIGNED_LONGEVITY, true),
{
    build_valid_transaction(TAG_PREFIX, UNSIGNED_LONGEVITY, true)
}

/// Tells whether a call may come unsigned: only the announcement that
/// content is ready and the publication of an identity may.
pub open spec fn unsigned_eligible(call: CallView) -> bool {
    call is SubmitRpcReady || call is SubmitIpfsIdentity
}

/// Validates an unsigned transaction by its call. The two calls that may
/// come unsigned are valid for five blocks and are propagated; every other
/// call is rejected outright.
pub fn validate_unsigned(call: &Call) -> (validity: TransactionValidity)
    ensures
        unsigned_eligible(call@) ==> plain_validity(validity, UNSIGNED_LONGEVITY, true),
        !unsigned_eligible(call@) ==> validity == Err::<ValidTransaction, InvalidTransaction>(InvalidTransaction::Call),
{
    match call {
        Call::SubmitRpcReady { .. } => validate_transaction_parameters(),
        Call::SubmitIpfsIdentity { .. } => validate_transaction_parameters(),
        _ => Err(InvalidTransaction::Call),
    }
}

} // verus!
