//! A probe that watches one HTTP endpoint and decides when its operator
//! should hear about it: classification of each probe, the up/down state
//! machine, and where each alert is delivered.
pub mod config;
pub mod monitor;
pub mod outcome;
