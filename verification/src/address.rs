//! Addresses and recipients, held as plain values.
//!
//! An address is a kind and a 32-byte identifier. A recipient is an address,
//! alone or together with the number of a sub-account under it.

use vstd::prelude::*;

verus! {

/// What an address identifies.
#[derive(Clone, Copy, Debug, PartialEq, Eq, Structural)]
pub enum AddressKind {
    /// An account; the identifier is its ed25519 public key.
    Account,
    /// A contract; the identifier is its contract id hash.
    Contract,
}

/// An address: a kind and a 32-byte identifier.
#[derive(Clone, Copy, Debug, PartialEq, Eq)]
pub struct Address {
    pub kind: AddressKind,
    pub id: [u8; 32],
}

/// The mathematical value of an [`Address`].
pub struct AddressView {
    pub kind: AddressKind,
    pub id: Seq<u8>,
}

impl View for Address {
    type V = AddressView;

    open spec fn view(&self) -> AddressView {
        AddressView { kind: self.kind, id: self.id@ }
    }
}

impl Address {
    /// The account whose public key is `id`.
    pub fn account(id: [u8; 32]) -> (a: Address)
        ensures
            a@ == account_address(id@),
    {
        Address { kind: AddressKind::Account, id }
    }

    /// The contract whose id hash is `id`.
    pub fn contract(id: [u8; 32]) -> (a: Address)
        ensures
            a@ == contract_address(id@),
    {
        Address { kind: AddressKind::Contract, id }
    }
}

/// The account address with identifier `id`.
pub open spec fn account_address(id: Seq<u8>) -> AddressView {
    AddressView { kind: AddressKind::Account, id }
}

/// The contract address with identifier `id`.
pub open spec fn contract_address(id: Seq<u8>) -> AddressView {
    AddressView { kind: AddressKind::Contract, id }
}

/// Who is paid in the end.
#[derive(Clone, Copy, Debug, PartialEq, Eq)]
pub enum Recipient {
    /// A plain address.
    Plain(Address),
    /// An address together with the number of a sub-account under it.
    Extended(Address, u64),
}

/// The mathematical value of a [`Recipient`].
pub enum RecipientView {
    Plain(AddressView),
    Extended(AddressView, u64),
}

impl View for Recipient {
    type V = RecipientView;

    open spec fn view(&self) -> RecipientView {
        match *self {
            Recipient::Plain(a) => RecipientView::Plain(a@),
            Recipient::Extended(a, sub_id) => RecipientView::Extended(a@, sub_id),
        }
    }
}

impl Recipient {
    /// The address that holds the balance.
    pub fn address(&self) -> (a: Address)
        ensures
            a@ == self@.address(),
    {
        match self {
            Recipient::Plain(a) => *a,
            Recipient::Extended(a, _) => *a,
        }
    }

    /// The sub-account number, where there is one.
    pub fn sub_id(&self) -> (id: Option<u64>)
        ensures
            id == self@.sub_id(),
    {
        match self {
            Recipient::Plain(_) => None,
            Recipient::Extended(_, sub_id) => Some(*sub_id),
        }
    }
}

impl RecipientView {
    /// The address that holds the balance.
    pub open spec fn address(self) -> AddressView {
        match self {
            RecipientView::Plain(a) => a,
            RecipientView::Extended(a, _) => a,
        }
    }

    /// The sub-account number, where there is one.
    pub open spec fn sub_id(self) -> Option<u64> {
        match self {
            RecipientView::Plain(_) => None,
            RecipientView::Extended(_, sub_id) => Some(sub_id),
        }
    }
}

} // verus!
