//! Orchestration core for acquiring limited-inventory tickets under heavy
//! contention: fault classification, countdown to the sale opening, the
//! acquisition state machine, the three mode strategies built on it, and the
//! task supervisor's bookkeeping. Everything that talks to the network or
//! to the clock is driven from outside through events and actions.

pub mod text;
pub mod classifier;
pub mod ticket;
pub mod countdown;
pub mod machine;
pub mod runs;
pub mod account;
pub mod config;
pub mod login;
pub mod taskmanager;
pub mod attempt;
pub mod leak;
pub mod modes;
pub mod job;
pub mod supervisor;
pub mod supervisor_laws;
pub mod record_log;
pub mod utils;
pub mod click;
pub mod protocol;
pub mod notice;
pub mod risk;
pub mod push;
pub mod state;
