//! Verified core of the money-transfer worker: the transfer workflows'
//! decisions, the approval handlers, the simulated banking activities, the
//! payload encryption codec and the connection settings.
use vstd::prelude::*;

pub mod shared;
pub mod transfer;
pub mod activities;
pub mod account_transfer_workflow;
pub mod account_transfer_workflow_scenarios;
pub mod codec;
pub mod connection;
