//! A relay for bridged token transfers.
//!
//! A message attests that a transfer happened on another chain. The forwarder
//! hands it to a transmitter, which mints the attested amount to the
//! forwarder, and then pays that amount out to the recipient named in the
//! message's trailer.

pub mod address;
pub mod error;
pub mod forwarder;
pub mod hook_data;
pub mod message;
pub mod message_transmitter;
