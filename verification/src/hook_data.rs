//! The recipient resolver.
//!
//! The hook data of a message names who is paid in the end, in one of two
//! encodings: the text of an address string of 56 characters, or the XDR
//! form of an address value that carries a sub-account number.
//!
//! Reading address strings and XDR is left to the crates that define them.
//! What they return is turned into a [`DecodedAddress`]; which of these a
//! mode accepts, and what recipient it stands for, is decided here.

use vstd::prelude::*;
use soroban_sdk::xdr::{AccountId, ContractId, Limits, PublicKey, ReadXdr, ScAddress, ScVal};
use stellar_strkey::Strkey;
use crate::address::{account_address, contract_address, Address, Recipient, RecipientView};
use crate::error::ForwardError;

verus! {

/// Number of characters in an address string.
pub const STRKEY_LEN: usize = 56;

/// How deep a serialized value may nest before it is given up as malformed.
pub const XDR_DEPTH_LIMIT: u32 = 500;

/// The encoding under which hook data is read.
#[derive(Clone, Copy, Debug, PartialEq, Eq, Structural)]
pub enum ResolveMode {
    /// The text of an address string.
    StringEncoded,
    /// The XDR form of an address value with a sub-account number.
    SerializedExtended,
}

/// What a decoder made of its input.
#[derive(Clone, Copy, Debug, PartialEq, Eq)]
pub enum DecodedAddress {
    /// An account, by its public key.
    Account([u8; 32]),
    /// A contract, by its id hash.
    Contract([u8; 32]),
    /// A sub-account: the account's public key and the sub-account number.
    Muxed([u8; 32], u64),
    /// Well-formed input that is none of the three above.
    Unsupported,
    /// Input that the decoder rejected.
    Malformed,
}

/// What `stellar_strkey::Strkey::from_string` makes of `text`, the text
/// first read as UTF-8 with every invalid sequence replaced.
pub uninterp spec fn strkey_decoding(text: Seq<u8>) -> DecodedAddress;

/// What `ScVal::from_xdr` makes of `data`, reading no deeper than `depth`
/// levels and no further than the end of `data`.
pub uninterp spec fn xdr_decoding(data: Seq<u8>, depth: u32) -> DecodedAddress;

/// Calls `stellar_strkey::Strkey::from_string` on `text`.
///
/// Not proved: that the result is the same for the same text. The three
/// kinds of key that stand for an address are told apart and their fields
/// handed on; any other key is `Unsupported`, a decode error `Malformed`.
#[verifier::external_body]
fn decode_strkey(text: &[u8]) -> (d: DecodedAddress)
    ensures
        d == strkey_decoding(text@),
{
    match Strkey::from_string(&String::from_utf8_lossy(text)) {
        Ok(Strkey::PublicKeyEd25519(key)) => DecodedAddress::Account(key.0),
        Ok(Strkey::Contract(id)) => DecodedAddress::Contract(id.0),
        Ok(Strkey::MuxedAccountEd25519(m)) => DecodedAddress::Muxed(m.ed25519, m.id),
        Ok(_) => DecodedAddress::Unsupported,
        Err(_) => DecodedAddress::Malformed,
    }
}

/// Calls `soroban_sdk::xdr::ScVal::from_xdr` on `data`, with `depth` as
/// the nesting limit and the length of `data` as the length limit.
///
/// Not proved: that the result is the same for the same arguments. The
/// three kinds of address value that name an account, a contract or a
/// sub-account are told apart and their fields handed on; any other value is
/// `Unsupported`, a decode error `Malformed`.
#[verifier::external_body]
fn decode_xdr_address(data: &[u8], depth: u32) -> (d: DecodedAddress)
    ensures
        d == xdr_decoding(data@, depth),
{
    match ScVal::from_xdr(data, Limits { depth, len: data.len() }) {
        Ok(ScVal::Address(ScAddress::Account(AccountId(PublicKey::PublicKeyTypeEd25519(key))))) => {
            DecodedAddress::Account(key.0)
        },
        Ok(ScVal::Address(ScAddress::Contract(ContractId(soroban_sdk::xdr::Hash(id))))) => {
            DecodedAddress::Contract(id)
        },
        Ok(ScVal::Address(ScAddress::MuxedAccount(m))) => DecodedAddress::Muxed(m.ed25519.0, m.id),
        Ok(_) => DecodedAddress::Unsupported,
        Err(_) => DecodedAddress::Malformed,
    }
}

/// The recipient that a decoded address string stands for: an account or a
/// contract is a plain recipient, a sub-account an extended one.
pub open spec fn string_recipient(d: DecodedAddress) -> Option<RecipientView> {
    match d {
        DecodedAddress::Account(key) => Some(RecipientView::Plain(account_address(key@))),
        DecodedAddress::Contract(id) => Some(RecipientView::Plain(contract_address(id@))),
        DecodedAddress::Muxed(key, sub_id) => Some(
            RecipientView::Extended(account_address(key@), sub_id),
        ),
        DecodedAddress::Unsupported => None,
        DecodedAddress::Malformed => None,
    }
}

/// The recipient that a decoded serialized value stands for: only a
/// sub-account is accepted.
pub open spec fn serialized_recipient(d: DecodedAddress) -> Option<RecipientView> {
    match d {
        DecodedAddress::Muxed(key, sub_id) => Some(
            RecipientView::Extended(account_address(key@), sub_id),
        ),
        _ => None,
    }
}

/// The recipient that hook data names under a mode, if any.
///
/// An address string has exactly 56 characters. Empty hook data names
/// nobody, under either mode.
pub open spec fn resolved(hook_data: Seq<u8>, mode: ResolveMode) -> Option<RecipientView> {
    match mode {
        ResolveMode::StringEncoded => if hook_data.len() == STRKEY_LEN {
            string_recipient(strkey_decoding(hook_data))
        } else {
            None
        },
        ResolveMode::SerializedExtended => if hook_data.len() > 0 {
            serialized_recipient(xdr_decoding(hook_data, XDR_DEPTH_LIMIT))
        } else {
            None
        },
    }
}

/// Turns a decoded address string into the recipient it stands for.
pub fn recipient_from_strkey(d: DecodedAddress) -> (r: Result<Recipient, ForwardError>)
    ensures
        match r {
            Ok(recipient) => string_recipient(d) == Some(recipient@),
            Err(e) => e == ForwardError::InvalidRecipientEncoding && string_recipient(d) is None,
        },
{
    match d {
        DecodedAddress::Account(key) => Ok(Recipient::Plain(Address::account(key))),
        DecodedAddress::Contract(id) => Ok(Recipient::Plain(Address::contract(id))),
        DecodedAddress::Muxed(key, sub_id) => Ok(Recipient::Extended(Address::account(key), sub_id)),
        DecodedAddress::Unsupported => Err(ForwardError::InvalidRecipientEncoding),
        DecodedAddress::Malformed => Err(ForwardError::InvalidRecipientEncoding),
    }
}

/// Turns a decoded serialized value into the recipient it stands for.
pub fn recipient_from_xdr(d: DecodedAddress) -> (r: Result<Recipient, ForwardError>)
    ensures
        match r {
            Ok(recipient) => serialized_recipient(d) == Some(recipient@),
            Err(e) => e == ForwardError::InvalidRecipientEncoding && serialized_recipient(d)
                is None,
        },
{
    match d {
        DecodedAddress::Muxed(key, sub_id) => Ok(Recipient::Extended(Address::account(key), sub_id)),
        _ => Err(ForwardError::InvalidRecipientEncoding),
    }
}

/// Reads hook data as the text of an address string.
///
/// Hook data of any length other than 56 is rejected without being decoded.
pub fn parse_hook_data(hook_data: &[u8]) -> (r: Result<Recipient, ForwardError>)
    ensures
        match r {
            Ok(recipient) => resolved(hook_data@, ResolveMode::StringEncoded) == Some(recipient@),
            Err(e) => e == ForwardError::InvalidRecipientEncoding && resolved(
                hook_data@,
                ResolveMode::StringEncoded,
            ) is None,
        },
        hook_data@.len() != STRKEY_LEN ==> r is Err,
{
    if hook_data.len() != STRKEY_LEN {
        return Err(ForwardError::InvalidRecipientEncoding);
    }
    recipient_from_strkey(decode_strkey(hook_data))
}

/// Reads hook data as the XDR form of an address value with a sub-account
/// number.
pub fn parse_hook_data_xdr(hook_data: &[u8]) -> (r: Result<Recipient, ForwardError>)
    ensures
        match r {
            Ok(recipient) => resolved(hook_data@, ResolveMode::SerializedExtended) == Some(
                recipient@,
            ),
            Err(e) => e == ForwardError::InvalidRecipientEncoding && resolved(
                hook_data@,
                ResolveMode::SerializedExtended,
            ) is None,
        },
        r matches Ok(recipient) ==> recipient is Extended,
        hook_data@.len() == 0 ==> r is Err,
{
    if hook_data.len() == 0 {
        return Err(ForwardError::InvalidRecipientEncoding);
    }
    recipient_from_xdr(decode_xdr_address(hook_data, XDR_DEPTH_LIMIT))
}

/// Resolves hook data to a recipient under the given mode.
pub fn resolve(hook_data: &[u8], mode: ResolveMode) -> (r: Result<Recipient, ForwardError>)
    ensures
        match r {
            Ok(recipient) => resolved(hook_data@, mode) == Some(recipient@),
            Err(e) => e == ForwardError::InvalidRecipientEncoding && resolved(hook_data@, mode)
                is None,
        },
        hook_data@.len() == 0 ==> r is Err,
{
    match mode {
        ResolveMode::StringEncoded => parse_hook_data(hook_data),
        ResolveMode::SerializedExtended => parse_hook_data_xdr(hook_data),
    }
}

} // verus!
