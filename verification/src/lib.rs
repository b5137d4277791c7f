//! A discrete-time agent-based model of a small macroeconomy.
//!
//! Firms, households, banks, a central bank and a government interact
//! through a credit, a labour and a goods market. One call of
//! [`state::EconomyState::advance`] moves the economy forward by one period,
//! through a fixed sequence of phases, and appends one record of aggregate
//! statistics; [`state::EconomyState::run`] does so for a number of periods.
//!
//! All quantities are fixed-point numbers ([`fixed::Fixed`]), so that a run
//! is reproducible to the last digit wherever it is made. The only source of
//! chance is one stream of uniform draws ([`random::RandomStream`]), used by
//! the labour market alone; what a period does is stated as a function of
//! the economy it starts from and of the draws it takes.

pub mod agents;
pub mod config;
pub mod fixed;
pub mod markets;
pub mod population;
pub mod random;
pub mod state;
