//! Identifiers, origins, errors and events shared by every component.

use vstd::prelude::*;

verus! {

/// Identity of a participant. A validator is always an account.
pub type AccountId = u64;

/// Identity of a storage pool, owned by the asset ledger.
pub type AssetId = u32;

/// Counter for the number of eras that have passed.
pub type EraIndex = u32;

/// Counter for the reward points earned by an account.
pub type RewardPoint = u32;

/// Amount of an asset, carried through to the asset ledger untouched.
pub type Balance = u128;

/// A storage-network address, kept as an opaque blob.
pub type Multiaddr = Vec<u8>;

/// A content address on the storage network.
pub type Cid = Vec<u8>;

/// The public key by which the storage network knows a node.
pub type PublicKey = Vec<u8>;

/// Who asks for an operation.
#[derive(Clone, Copy, Debug, PartialEq, Eq, Structural)]
pub enum Origin {
    /// The privileged origin that may add and remove validators.
    Root,
    /// An account that signed the request.
    Signed(AccountId),
    /// Nobody: the request is unsigned.
    Unsigned,
}

/// Why an operation was rejected.
#[derive(Clone, Copy, Debug, PartialEq, Eq, Structural)]
pub enum Error {
    /// Target (post-removal) validator count is below the minimum.
    TooLowValidatorCount,
    /// Validator is already in the validator set.
    Duplicate,
    /// Validator is not approved for re-addition.
    ValidatorNotApproved,
    /// The caller is not the one the operation asks for.
    BadOrigin,
    /// The request could not be created.
    CantCreateRequest,
    /// The request to the storage node timed out.
    RequestTimeout,
    /// The request to the storage node failed.
    RequestFailed,
    /// The asset id does not correspond to any owned content.
    NoSuchOwnedContent,
    /// The balance is insufficient to complete the operation.
    InsufficientBalance,
    /// The account is already a candidate for the storage pool.
    AlreadyACandidate,
    /// The account has already pinned the content.
    AlreadyPinned,
    /// The account is not a candidate storage provider for the asset.
    NotACandidate,
}

/// What the state machine announces to the outside.
#[derive(Clone, Copy, Debug, PartialEq, Eq, Structural)]
pub enum Event {
    /// New validator addition initiated.
    ValidatorAdditionInitiated(AccountId),
    /// Validator removal initiated.
    ValidatorRemovalInitiated(AccountId),
    /// A node published its storage-network public key and addresses.
    PublishedIdentity(AccountId),
    /// An account requested to join a storage pool.
    RequestJoinStoragePoolSuccess(AccountId, AssetId),
}

/// The limits that govern automatic removal of validators.
#[derive(Clone, Copy, Debug, PartialEq, Eq, Structural)]
pub struct Config {
    /// Minimum number of validators to leave in the validator set.
    pub min_authorities: u32,
    /// Number of unproductive eras a validator may collect before removal is attempted.
    pub max_dead_session: u32,
}

impl Config {
    /// The unproductive-era counter must be able to pass the limit by one.
    pub open spec fn wf(&self) -> bool {
        self.max_dead_session < u32::MAX
    }

    /// Tells whether the limits can be used, that is whether `wf` holds.
    pub fn is_usable(&self) -> (usable: bool)
        ensures
            usable == self.wf(),
    {
        self.max_dead_session < u32::MAX
    }
}

/// Information regarding the active era.
#[derive(Clone, Copy, Debug, PartialEq, Eq, Structural)]
pub struct ActiveEraInfo {
    /// Index of the era.
    pub index: EraIndex,
    /// Moment of start in milliseconds since the epoch, if it has been set.
    pub start: Option<u64>,
}

/// Maps a validator id to the account that stands for it: the two coincide.
pub struct ValidatorOf;

impl ValidatorOf {
    /// Every account is its own validator id.
    pub fn convert(account: AccountId) -> (validator: Option<AccountId>)
        ensures
            validator == Some(account),
    {
        Some(account)
    }
}

/// Every key has an entry: a key that was never written reads as the
/// default of its kind.
pub open spec fn is_total<K, V>(map: Map<K, V>) -> bool {
    forall|key: K| #[trigger] map.dom().contains(key)
}

/// Copies a byte string.
pub fn clone_bytes(bytes: &Vec<u8>) -> (copy: Vec<u8>)
    ensures
        copy@ == bytes@,
{
    let mut copy: Vec<u8> = Vec::new();
    let mut i: usize = 0;
    while i < bytes.len()
        invariant
            i <= bytes.len(),
            copy@ == bytes@.take(i as int),
        decreases bytes.len() - i,
    {
        copy.push(bytes[i]);
        i += 1;
    }
    copy
}

/// Tells whether two byte strings hold the same bytes.
pub fn bytes_eq(left: &Vec<u8>, right: &Vec<u8>) -> (same: bool)
    ensures
        same == (left@ == right@),
{
    if left.len() != right.len() {
        return false;
    }
    let mut i: usize = 0;
    while i < left.len()
        invariant
            i <= left.len(),
            left.len() == right.len(),
            left@.take(i as int) == right@.take(i as int),
        decreases left.len() - i,
    {
        if left[i] != right[i] {
            return false;
        }
        assert(left@.take(i + 1) == left@.take(i as int).push(left@[i as int]));
        assert(right@.take(i + 1) == right@.take(i as int).push(right@[i as int]));
        i += 1;
    }
    assert(left@.take(left.len() as int) == left@);
    assert(right@.take(right.len() as int) == right@);
    true
}

/// What a list of byte strings holds.
pub open spec fn byte_strings(list: Seq<Vec<u8>>) -> Seq<Seq<u8>> {
    Seq::new(list.len(), |i: int| list[i]@)
}

/// Copies a list of byte strings.
pub fn clone_byte_strings(list: &Vec<Vec<u8>>) -> (copy: Vec<Vec<u8>>)
    ensures
        byte_strings(copy@) == byte_strings(list@),
{
    let mut copy: Vec<Vec<u8>> = Vec::new();
    let mut i: usize = 0;
    while i < list.len()
        invariant
            i <= list.len(),
            copy@.len() == i,
            forall|j: int| 0 <= j < i ==> copy@[j]@ == list@[j]@,
        decreases list.len() - i,
    {
        copy.push(clone_bytes(&list[i]));
        i += 1;
    }
    assert(byte_strings(copy@) =~= byte_strings(list@));
    copy
}

} // verus!
