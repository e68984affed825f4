//! Verified logic of the Hyperledger Fabric asset-transfer gateway samples:
//! the chaincode calls that the samples make, how their outcomes are
//! reported, how asset identifiers are formed, how the first credential file
//! of a directory is chosen, and how chaincode events are replayed.
pub mod text;
pub mod asset_id;
pub mod json;
pub mod report;
pub mod ledger;
pub mod basic;
pub mod events;
pub mod directory;
