//! The agents of the economy and the rules by which each evolves.

pub mod bank;
pub mod firm;
pub mod household;
pub mod label;

pub use bank::{BankAgent, BankData, CentralBankData, GovernmentData};
pub use firm::{FirmAgent, FirmData};
pub use household::{HouseholdAgent, HouseholdData};
