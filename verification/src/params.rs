//! Parameters of the protocol.
use vstd::prelude::*;

verus! {

/// Domain separator for nullifier-key derivation:
/// `nk = H(DS_NULLIFIER_KEY || private_identifier)`.
pub const DS_NULLIFIER_KEY: u64 = 12;

/// Domain separator for public-identifier derivation:
/// `public_id = H(DS_PUBLIC_IDENTIFIER || private_identifier)`.
pub const DS_PUBLIC_IDENTIFIER: u64 = 13;

/// Domain separator for Account State Tree leaf hashing:
/// `leaf = H(DS_ACC_AST_LEAF || asset_id || amount_limbs[8])`.
pub const DS_ACC_AST_LEAF: u64 = 1312;

/// Hash value of an empty AST leaf (all-zero field elements).
/// Used as the default leaf for uninitialised asset slots.
pub const AST_DEFAULT_LEAF: [u64; 4] = [0, 0, 0, 0];

/// Root of a default Account State Tree of depth [`ACC_AST_DEPTH`] under the
/// Poseidon hash.
pub const AST_DEFAULT_ROOT: [u64; 4] = [
    2537328717772714990,
    1534150781011785517,
    14977255124160483673,
    9325839111461431495,
];

/// Placeholder consume-key stored in an account commitment when
/// `consume_auth.config = false` (subpool-delegated consume).
/// It only pads the commitment hash to a fixed width and must never be used as an
/// actual public key.
pub const DEFAULT_ACC_COMM_CONSUME_PK_PLACEHOLDER: [u64; 5] = [
    7613690455422068269,
    12930951591626745075,
    16103143792840800039,
    4657200339622395349,
    3857357297380158342,
];

/// Default spend-auth public key used in account commitments before a real
/// spend key has been set.
pub const DEFAULT_SPEND_AUTH_PK: [u64; 5] = [
    7613690455422068269,
    12930951591626745075,
    16103143792840800039,
    4657200339622395349,
    3857357297380158342,
];

/// Number of input/output note slots per private transaction.
/// All note arrays are padded to this length with dummy entries.
pub const NOTE_BATCH: usize = 7;

/// Number of proof slots per batch of private transactions.
pub const PRIV_TX_BATCH_SIZE: usize = 64;

/// Number of proof slots per bridge batch (deposit + withdraw combined).
pub const BRIDGE_TX_BATCH_SIZE: usize = 512;

/// Size of the subtree to be inserted on chain.
pub const SUBTREE_BATCHSIZE: usize = 512;

/// Depth of the per-account Asset State Tree (supports 2^10 = 1024 assets).
pub const ACC_AST_DEPTH: usize = 10;

/// Depth of the global Account Commitment Tree (supports 2^32 accounts).
pub const STATE_TREE_DEPTH: usize = 32;

/// Depth of each per-subpool authority-key configuration tree
/// (3 leaves: approval / rejection / consume keys).
pub const SUBPOOL_CONFIG_DEPTH: usize = 2;

/// Depth of the main pool configuration tree (supports 2^20 subpools).
pub const MAIN_POOL_CONFIG_DEPTH: usize = 20;

} // verus!
