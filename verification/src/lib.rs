//! A bridging ledger between two token representations of one asset.
//!
//! Two independently administered token contracts (an OEP4 token on the
//! Ontology side and an ORC20 token on the EVM side) stand for the same
//! asset at possibly different decimal precisions.  This crate holds the
//! verified core: the admin handover state machine, the token-pair
//! registry, the conversion engine with its precision truncation and
//! balance-delta accounting, and the migration sweep planner.
//!
//! The durable singletons (admin, pending admin, the pair index) are
//! modelled as fields of an explicit [`state::BridgeState`] value, and the
//! authorization oracle as the set of addresses the current invocation is
//! witnessed as.  The host-side collaborators — the key-value store, the
//! two asset adapters, the notification sink and the contract-migration
//! primitive — stay outside: every operation that needs them either takes
//! their observations as plain arguments (observed balances) or returns
//! the actions the host must perform (transfers, notifications).

pub mod admin;
pub mod convert;
pub mod events;
pub mod migration;
pub mod registry;
pub mod state;
