//! Transaction receipts of a Starknet devnet: the receipt data model, its
//! equality (which deliberately ignores the finality status of a receipt),
//! and the execution resources that a receipt reports, computed from what the
//! blockifier recorded while executing the transaction.

pub mod felt;
pub mod event;
pub mod receipt;
pub mod resources;
pub mod status;
