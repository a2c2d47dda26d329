//! Deterministic wallet derivation and transaction scanning for a chain with a
//! transparent pool and two shielded pools (Sapling and Orchard).

pub mod decrypt;
pub mod encoding;
pub mod network;
pub mod scanner;
pub mod transaction;
pub mod viewing_key;
pub mod wallet;

pub use encoding::{decode_memo, trim_memo};
pub use network::{network_name, Network};
pub use scanner::{
    nullifier_records, orchard_note, push_orchard_notes, push_sapling_notes, scan_contents,
    transparent_outputs_of, DecryptedNote, ScanResult, ScannedNote, SpentNullifier,
    TransactionContents, TransparentOutput,
};
pub use transaction::{
    decrypt_actions, extract_nullifiers, parse_transaction, read_with_fallback, scan_transaction,
    transaction_contents, Branch,
};
pub use viewing_key::{
    capabilities_of_fvk_items, capabilities_of_ivk_items, extract_orchard_fvk, extract_orchard_ivk,
    parse_viewing_key_capabilities, starts_with_legacy_prefix, viewing_key_capabilities,
    Capabilities, FvkItem, IvkItem, ScanError,
};
pub use wallet::{derive_wallet, generate_wallet, restore_wallet, WalletError, WalletInfo};
