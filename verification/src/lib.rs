//! Bank statement import: parsers for Australian bank CSV exports, OFX and
//! QIF statements, the mapping of bank transactions to portfolio activities,
//! and the models and decisions of the Bank Connect feature.

pub mod text;
pub mod amount;
pub mod hashing;
pub mod bank_mapper;
pub mod errors;
pub mod bank_csv;
pub mod dates;
pub mod qif;
pub mod ofx;
pub mod bank_connect;
pub mod automation;
pub mod connect;
