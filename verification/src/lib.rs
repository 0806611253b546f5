//! Verified core of the Alian Structure aid-distribution contracts.
//!
//! Each contract is modelled as a state machine over the ledger entries that
//! it owns. The ledger itself, authorization, token transfers and event
//! publication belong to the host that runs the contracts; the functions here
//! decide every outcome and say exactly how the stored state changes.
pub mod shared;
pub mod aid;
pub mod governance;
pub mod oracle;
pub mod referral;
pub mod treasury;
pub mod registry;
