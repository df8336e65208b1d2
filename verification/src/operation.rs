//! Operations and block headers as the protocol lays them out.

use vstd::prelude::*;

verus! {

/// Bytes written as hexadecimal digits.
#[derive(Debug, Clone, PartialEq, Eq)]
pub struct HexString {
    pub value: String,
}

/// The encoded hash of an Ed25519 public key.
#[derive(Debug, Clone, PartialEq, Eq)]
pub struct Ed25519PublicKeyHash {
    pub value: String,
}

/// The encoded hash of a block.
#[derive(Debug, Clone, PartialEq, Eq)]
pub struct BlockHash {
    pub value: String,
}

/// The encoded hash of a block's payload.
#[derive(Debug, Clone, PartialEq, Eq)]
pub struct BlockPayloadHash {
    pub value: String,
}

/// The encoded hash of a context.
#[derive(Debug, Clone, PartialEq, Eq)]
pub struct ContextHash {
    pub value: String,
}

/// The encoded hash of a nonce.
#[derive(Debug, Clone, PartialEq, Eq)]
pub struct NonceHash {
    pub value: String,
}

/// The encoded hash of the list of operation lists of a block.
#[derive(Debug, Clone, PartialEq, Eq)]
pub struct OperationListListHash {
    pub value: String,
}

/// An encoded signature.
#[derive(Debug, Clone, PartialEq, Eq)]
pub struct Signature {
    pub value: String,
}

/// A point in time without a time zone: whole seconds since the first
/// second of 1970, and the nanoseconds into the second.
#[derive(Debug, Clone, Copy, PartialEq, Eq)]
pub struct Timestamp {
    pub seconds: i64,
    pub nanoseconds: u32,
}

/// The header of a block.
pub struct BlockHeader {
    pub level: i32,
    pub proto: u8,
    pub predecessor: BlockHash,
    pub timestamp: Timestamp,
    pub validation_pass: u8,
    pub operations_hash: OperationListListHash,
    pub fitness: Vec<HexString>,
    pub context: ContextHash,
    pub payload_hash: BlockPayloadHash,
    pub payload_round: i32,
    pub proof_of_work_nonce: HexString,
    pub seed_nonce_hash: Option<NonceHash>,
    pub liquidity_baking_escape_vote: bool,
    pub signature: Signature,
}

/// The operation that activates an account of the genesis allocation.
pub struct ActivateAccount {
    pkh: Ed25519PublicKeyHash,
    secret: HexString,
}

impl ActivateAccount {
    /// The hash of the public key that the spec-level value holds.
    pub closed spec fn spec_pkh(&self) -> Ed25519PublicKeyHash {
        self.pkh
    }

    /// The activation secret that the spec-level value holds.
    pub closed spec fn spec_secret(&self) -> HexString {
        self.secret
    }

    pub fn pkh(&self) -> (pkh: &Ed25519PublicKeyHash)
        ensures
            *pkh == self.spec_pkh(),
    {
        &self.pkh
    }

    pub fn secret(&self) -> (secret: &HexString)
        ensures
            *secret == self.spec_secret(),
    {
        &self.secret
    }

    pub fn new(pkh: Ed25519PublicKeyHash, secret: HexString) -> (operation: Self)
        ensures
            operation.spec_pkh() == pkh,
            operation.spec_secret() == secret,
    {
        Self { pkh, secret }
    }

    /// The tag that stands in front of an activation among the contents of
    /// an operation.
    pub fn tag() -> (tag: u8)
        ensures
            tag == 4,
    {
        4
    }
}

} // verus!
