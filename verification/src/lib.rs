//! Escrow of payment between a buyer and a farmer.
//!
//! The buyer's funds are locked in the contract's custody account when an order
//! is created. They are released to the farmer when the buyer confirms receipt,
//! or returned to the buyer once the expiry window has passed without a
//! confirmation.
//!
//! The contract ([`EscrowContract`]) runs against an [`Env`]: the keyed records
//! it keeps ([`Storage`]), the token balances it moves ([`TokenCustody`]), the
//! ledger's clock ([`Ledger`]) and the authorizations of the current call
//! ([`Authorizations`]). A call either completes or returns an
//! [`EscrowError`] and leaves the environment as it was.
//!
//! - [`model`] states every operation as a transition of the environment's
//!   [`State`]; the contract of each operation is that it makes exactly this
//!   transition.
//! - [`consistency`] says when a state is well formed, and proves that every
//!   operation keeps it so.
//! - [`laws`] proves what holds across operations: an order is settled at most
//!   once, ids are dense, the lists follow the roles, the custody account
//!   holds exactly what the pending orders account for.

pub mod types;
mod table;
pub mod storage;
pub mod custody;
pub mod env;
pub mod model;
pub mod consistency;
pub mod contract;
pub mod laws;

pub use contract::EscrowContract;
pub use custody::{Account, CustodyError, CustodyView, TokenCustody};
pub use env::{AuthView, Authorizations, Env, Ledger};
pub use model::{State, EXPIRY_WINDOW};
pub use storage::{Storage, StorageView};
pub use types::{Address, AddressKind, DataKey, EscrowError, Order, OrderStatus};
