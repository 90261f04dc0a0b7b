//! Tools for starting a network: keys and accounts in the text forms that operators exchange, the
//! making of the zerostates, and the flow of the command line.
//!
//! Cells, contracts, cryptography and files are beyond this library. Where it needs them it asks for
//! one action at a time and goes on from the event that answers it: see [`masterchain`],
//! [`publication`], [`zerostates`] and [`command`].
pub mod accounts;
pub mod base64_text;
pub mod command;
pub mod config;
pub mod gather;
pub mod hex_text;
pub mod json;
pub mod keys;
pub mod masterchain;
pub mod masterchain_run;
pub mod plan;
pub mod plan_read;
pub mod publication;
pub mod publication_run;
pub mod steps;
pub mod zerostates;
pub mod zerostates_run;
