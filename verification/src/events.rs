//! The events that the two registries emit, the metadata of the log that
//! carried one, and the canonical state that a read of a registry returns.

use crate::encoding::{hex_with_prefix, prefixed_hex};
use vstd::prelude::*;

verus! {

/// The two registries.
#[derive(Clone, Copy, Debug, PartialEq, Eq, Structural)]
pub enum Domain {
    Authenticity,
    Ownership,
}

/// Every kind of event, over both registries.
#[derive(Clone, Copy, Debug, PartialEq, Eq, Structural)]
pub enum EventKind {
    ManufacturerRegistered,
    ContractCreated,
    AuthenticityDomainChanged,
    OwnershipCreated,
    UserRegistered,
    OwnershipCode,
    ItemCreated,
    OwnershipClaimed,
    CodeRevoked,
    AuthenticitySet,
    OwnershipDomainChanged,
}

/// What the log that carried an event says of its place on the chain.
#[derive(Clone, Copy, Debug, PartialEq, Eq)]
pub struct LogMeta {
    pub transaction_hash: Option<[u8; 32]>,
    pub block_number: u64,
}

/// A manufacturer registered itself; the log carries its address only.
#[derive(Clone, Copy, Debug, PartialEq, Eq)]
pub struct ManufacturerRegisteredFilter {
    pub manufacturer_address: [u8; 20],
}

/// The authenticity registry announced a contract and its owner.
#[derive(Clone, Copy, Debug, PartialEq, Eq)]
pub struct ContractCreatedFilter {
    pub contract_address: [u8; 20],
    pub owner: [u8; 20],
}

/// The events of the authenticity registry.
#[derive(Clone, Copy, Debug, PartialEq, Eq)]
pub enum AuthenticityEvents {
    ManufacturerRegisteredFilter(ManufacturerRegisteredFilter),
    ContractCreatedFilter(ContractCreatedFilter),
    Eip712DomainChangedFilter,
}

/// The ownership registry announced a contract and its owner.
#[derive(Clone, Copy, Debug, PartialEq, Eq)]
pub struct OwnershipCreatedFilter {
    pub contract_address: [u8; 20],
    pub owner: [u8; 20],
}

/// A user registered under a name.
#[derive(Clone, Debug, PartialEq, Eq)]
pub struct UserRegisteredFilter {
    pub user_address: [u8; 20],
    pub username: String,
}

/// A temporary owner was given an ownership code.
#[derive(Clone, Copy, Debug, PartialEq, Eq)]
pub struct OwnershipCodeFilter {
    pub ownership_code: [u8; 32],
    pub temp_owner: [u8; 20],
}

/// An item was created; the log carries its identifier and owner only.
#[derive(Clone, Debug, PartialEq, Eq)]
pub struct ItemCreatedFilter {
    pub item_id: String,
    pub owner: [u8; 20],
}

/// Ownership passed from one address to another; the log names no item.
#[derive(Clone, Copy, Debug, PartialEq, Eq)]
pub struct OwnershipClaimedFilter {
    pub new_owner: [u8; 20],
    pub old_owner: [u8; 20],
}

/// The code of an item, known by its hash, was revoked.
#[derive(Clone, Copy, Debug, PartialEq, Eq)]
pub struct CodeRevokedFilter {
    pub item_hash: [u8; 32],
}

/// The ownership registry was pointed at an authenticity registry.
#[derive(Clone, Copy, Debug, PartialEq, Eq)]
pub struct AuthenticitySetFilter {
    pub authenticity_address: [u8; 20],
}

/// The events of the ownership registry.
#[derive(Clone, Debug, PartialEq, Eq)]
pub enum OwnershipEvents {
    OwnershipCreatedFilter(OwnershipCreatedFilter),
    UserRegisteredFilter(UserRegisteredFilter),
    OwnershipCodeFilter(OwnershipCodeFilter),
    ItemCreatedFilter(ItemCreatedFilter),
    OwnershipClaimedFilter(OwnershipClaimedFilter),
    CodeRevokedFilter(CodeRevokedFilter),
    AuthenticitySetFilter(AuthenticitySetFilter),
    Eip712DomainChangedFilter,
}

/// A manufacturer as the authenticity registry holds it.
#[derive(Clone, Debug, PartialEq, Eq)]
pub struct ManufacturerState {
    pub manufacturer_address: [u8; 20],
    pub name: String,
}

/// An item as the ownership registry holds it. `date` is a 256-bit unsigned
/// number in four 64-bit limbs, least significant first.
#[derive(Clone, Debug, PartialEq, Eq)]
pub struct ItemState {
    pub name: String,
    pub serial: String,
    pub date: [u64; 4],
    pub owner: [u8; 20],
    pub manufacturer: String,
    pub metadata: Vec<String>,
}

impl AuthenticityEvents {
    /// The kind of the event.
    pub open spec fn spec_kind(&self) -> EventKind {
        match *self {
            AuthenticityEvents::ManufacturerRegisteredFilter(_) => {
                EventKind::ManufacturerRegistered
            },
            AuthenticityEvents::ContractCreatedFilter(_) => EventKind::ContractCreated,
            AuthenticityEvents::Eip712DomainChangedFilter => EventKind::AuthenticityDomainChanged,
        }
    }

    /// The kind of the event.
    #[verifier::when_used_as_spec(spec_kind)]
    pub fn kind(&self) -> (kind: EventKind)
        ensures
            kind == self.spec_kind(),
    {
        match *self {
            AuthenticityEvents::ManufacturerRegisteredFilter(_) => {
                EventKind::ManufacturerRegistered
            },
            AuthenticityEvents::ContractCreatedFilter(_) => EventKind::ContractCreated,
            AuthenticityEvents::Eip712DomainChangedFilter => EventKind::AuthenticityDomainChanged,
        }
    }
}

impl OwnershipEvents {
    /// The kind of the event.
    pub open spec fn spec_kind(&self) -> EventKind {
        match *self {
            OwnershipEvents::OwnershipCreatedFilter(_) => EventKind::OwnershipCreated,
            OwnershipEvents::UserRegisteredFilter(_) => EventKind::UserRegistered,
            OwnershipEvents::OwnershipCodeFilter(_) => EventKind::OwnershipCode,
            OwnershipEvents::ItemCreatedFilter(_) => EventKind::ItemCreated,
            OwnershipEvents::OwnershipClaimedFilter(_) => EventKind::OwnershipClaimed,
            OwnershipEvents::CodeRevokedFilter(_) => EventKind::CodeRevoked,
            OwnershipEvents::AuthenticitySetFilter(_) => EventKind::AuthenticitySet,
            OwnershipEvents::Eip712DomainChangedFilter => EventKind::OwnershipDomainChanged,
        }
    }

    /// The kind of the event.
    #[verifier::when_used_as_spec(spec_kind)]
    pub fn kind(&self) -> (kind: EventKind)
        ensures
            kind == self.spec_kind(),
    {
        match *self {
            OwnershipEvents::OwnershipCreatedFilter(_) => EventKind::OwnershipCreated,
            OwnershipEvents::UserRegisteredFilter(_) => EventKind::UserRegistered,
            OwnershipEvents::OwnershipCodeFilter(_) => EventKind::OwnershipCode,
            OwnershipEvents::ItemCreatedFilter(_) => EventKind::ItemCreated,
            OwnershipEvents::OwnershipClaimedFilter(_) => EventKind::OwnershipClaimed,
            OwnershipEvents::CodeRevokedFilter(_) => EventKind::CodeRevoked,
            OwnershipEvents::AuthenticitySetFilter(_) => EventKind::AuthenticitySet,
            OwnershipEvents::Eip712DomainChangedFilter => EventKind::OwnershipDomainChanged,
        }
    }
}

/// The transaction hash of a log as rows carry it: prefixed hexadecimal
/// text, or nothing where the log names no transaction.
pub open spec fn transaction_text(meta: LogMeta) -> Option<Seq<char>> {
    match meta.transaction_hash {
        Some(hash) => Some(prefixed_hex(hash@)),
        None => None,
    }
}

/// The view of an optional text.
pub open spec fn text_of(text: Option<String>) -> Option<Seq<char>> {
    match text {
        Some(t) => Some(t@),
        None => None,
    }
}

impl LogMeta {
    /// The transaction hash in the form that rows carry.
    pub fn transaction_hash_text(&self) -> (text: Option<String>)
        ensures
            text_of(text) == transaction_text(*self),
    {
        match &self.transaction_hash {
            Some(hash) => Some(hex_with_prefix(hash.as_slice())),
            None => None,
        }
    }
}

} // verus!
