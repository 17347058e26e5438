//! Fetches an installer and verifies its checksum, without touching the network or the
//! disk itself.
//!
//! A run is a [`pipeline::Pipeline`]. It is handed what the outside world answered, as a
//! [`pipeline::Event`], and says what to do next, as a [`pipeline::Action`]: it chooses
//! the file for its platform out of the metadata ([`selector`]), has the file fetched
//! unless it is there already ([`transfer`]), has it read back and compares its MD5
//! checksum with the expected one ([`integrity`]), and ends with an
//! [`outcome::Outcome`] that has an exit code of its own for every kind of failure.
//! What holds of every run is proved in [`laws`].

pub mod checksum;
pub mod configuration;
pub mod integrity;
pub mod laws;
pub mod models;
pub mod notes;
pub mod outcome;
pub mod pipeline;
pub mod selector;
pub mod transfer;
pub mod utils;
