//! A stand-in transmitter.
//!
//! It takes a message at its word: once the destination caller has
//! authorized the call, it mints the attested amount of its asset to the
//! mint recipient. Checking the authorization and minting are the host's
//! work; what is decided here is who must authorize and what is minted.

use vstd::prelude::*;
use crate::address::{Address, AddressView};
use crate::error::ForwardError;
use crate::message::{decoded, parse_message};

verus! {

/// The name of the configuration slot.
#[derive(Clone, Copy, Debug, PartialEq, Eq, Structural)]
pub enum DataKey {
    /// The address of the token that is minted.
    Asset,
}

/// The transmitter's configuration: the asset, fixed when it is made.
#[derive(Clone, Copy, Debug, PartialEq, Eq)]
pub struct MessageTransmitter {
    asset: Address,
}

impl View for MessageTransmitter {
    type V = AddressView;

    closed spec fn view(&self) -> AddressView {
        self.asset@
    }
}

/// What receiving a message comes to: a mint, once `authorizer` has
/// authorized the call.
#[derive(Clone, Copy, Debug, PartialEq, Eq)]
pub struct Mint {
    /// Who must have authorized the call.
    pub authorizer: Address,
    /// The token to mint.
    pub asset: Address,
    /// Who receives what is minted.
    pub to: Address,
    /// How much is minted.
    pub amount: i128,
}

/// The mathematical value of a [`Mint`].
pub struct MintView {
    pub authorizer: AddressView,
    pub asset: AddressView,
    pub to: AddressView,
    pub amount: i128,
}

impl View for Mint {
    type V = MintView;

    open spec fn view(&self) -> MintView {
        MintView {
            authorizer: self.authorizer@,
            asset: self.asset@,
            to: self.to@,
            amount: self.amount,
        }
    }
}

/// The mint that a message asks of a transmitter for `asset`; `None` where
/// the message does not decode.
pub open spec fn mint_for(asset: AddressView, message: Seq<u8>) -> Option<MintView> {
    match decoded(message) {
        None => None,
        Some(m) => Some(
            MintView {
                authorizer: m.destination_caller,
                asset,
                to: m.message_body.mint_recipient,
                amount: m.message_body.amount,
            },
        ),
    }
}

impl MessageTransmitter {
    /// A transmitter that mints `asset`.
    pub fn new(asset: Address) -> (t: MessageTransmitter)
        ensures
            t@ == asset@,
    {
        MessageTransmitter { asset }
    }

    /// The address kept in a configuration slot.
    pub fn get(&self, key: DataKey) -> (a: Address)
        ensures
            a@ == self@,
    {
        match key {
            DataKey::Asset => self.asset,
        }
    }

    /// The token that is minted.
    pub fn asset(&self) -> (a: Address)
        ensures
            a@ == self@,
    {
        self.asset
    }

    /// Decides what a message asks for: the destination caller must have
    /// authorized the call, and then the attested amount is minted to the
    /// mint recipient. A message that does not decode is malformed.
    pub fn receive_message(&self, message: &[u8]) -> (r: Result<Mint, ForwardError>)
        ensures
            match r {
                Ok(mint) => mint_for(self@, message@) == Some(mint@),
                Err(e) => e == ForwardError::MalformedMessage && mint_for(self@, message@) is None,
            },
    {
        match parse_message(message) {
            Ok(m) => Ok(
                Mint {
                    authorizer: m.destination_caller,
                    asset: self.asset,
                    to: m.message_body.mint_recipient,
                    amount: m.message_body.amount,
                },
            ),
            Err(e) => Err(e),
        }
    }
}

} // verus!
