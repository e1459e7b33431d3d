//! Token metadata resolution: chain-agnostic account identifiers, token
//! records and their stored rows, an in-memory repository, and the
//! cache-aside resolution state machine.

pub mod caip;
pub mod evm;
pub mod token;
pub mod repository;
pub mod service;
