//! The rows of the read-model, one type per table, each with the
//! mathematical value that contracts speak of.

use crate::encoding::is_address_text;
use chrono::NaiveDateTime;
use vstd::prelude::*;

verus! {

/// The tables of the read-model.
#[derive(Clone, Copy, Debug, PartialEq, Eq, Structural)]
pub enum Table {
    ManufacturersInfo,
    ContractsCreated,
    Contracts,
    UsersInfo,
    Items,
    OwnershipClaims,
    CodeRevokations,
    AuthenticitySettings,
}

/// A manufacturer, keyed by its checksummed address.
#[derive(Clone, Debug, PartialEq, Eq)]
pub struct NewManufacturer {
    pub manufacturer_address: String,
    pub manufacturer_name: String,
    pub tnx_hash: String,
    pub registered_at: NaiveDateTime,
}

/// The value of a `NewManufacturer` in contracts: each text as its sequence of characters.
pub struct NewManufacturerView {
    pub manufacturer_address: Seq<char>,
    pub manufacturer_name: Seq<char>,
    pub tnx_hash: Seq<char>,
    pub registered_at: NaiveDateTime,
}

impl View for NewManufacturer {
    type V = NewManufacturerView;

    open spec fn view(&self) -> NewManufacturerView {
        NewManufacturerView {
            manufacturer_address: self.manufacturer_address@,
            manufacturer_name: self.manufacturer_name@,
            tnx_hash: self.tnx_hash@,
            registered_at: self.registered_at,
        }
    }
}

/// A contract announced by the authenticity registry, keyed by its
/// checksummed address.
#[derive(Clone, Debug, PartialEq, Eq)]
pub struct NewContractCreated {
    pub contract_address: String,
    pub owner: String,
    pub tnx_hash: String,
}

/// The value of a `NewContractCreated` in contracts: each text as its sequence of characters.
pub struct NewContractCreatedView {
    pub contract_address: Seq<char>,
    pub owner: Seq<char>,
    pub tnx_hash: Seq<char>,
}

impl View for NewContractCreated {
    type V = NewContractCreatedView;

    open spec fn view(&self) -> NewContractCreatedView {
        NewContractCreatedView {
            contract_address: self.contract_address@,
            owner: self.owner@,
            tnx_hash: self.tnx_hash@,
        }
    }
}

/// A contract announced by the ownership registry, keyed by its checksummed
/// address.
#[derive(Clone, Debug, PartialEq, Eq)]
pub struct NewContract {
    pub contract_address: String,
    pub owner: String,
    pub tnx_hash: String,
    pub created_at: NaiveDateTime,
}

/// The value of a `NewContract` in contracts: each text as its sequence of characters.
pub struct NewContractView {
    pub contract_address: Seq<char>,
    pub owner: Seq<char>,
    pub tnx_hash: Seq<char>,
    pub created_at: NaiveDateTime,
}

impl View for NewContract {
    type V = NewContractView;

    open spec fn view(&self) -> NewContractView {
        NewContractView {
            contract_address: self.contract_address@,
            owner: self.owner@,
            tnx_hash: self.tnx_hash@,
            created_at: self.created_at,
        }
    }
}

/// A registered user, keyed by the checksummed user address.
#[derive(Clone, Debug, PartialEq, Eq)]
pub struct NewUserInfo {
    pub user_address: String,
    pub username: String,
    pub is_registered: bool,
    pub created_at: NaiveDateTime,
    pub tnx_hash: String,
}

/// The value of a `NewUserInfo` in contracts: each text as its sequence of characters.
pub struct NewUserInfoView {
    pub user_address: Seq<char>,
    pub username: Seq<char>,
    pub is_registered: bool,
    pub created_at: NaiveDateTime,
    pub tnx_hash: Seq<char>,
}

impl View for NewUserInfo {
    type V = NewUserInfoView;

    open spec fn view(&self) -> NewUserInfoView {
        NewUserInfoView {
            user_address: self.user_address@,
            username: self.username@,
            is_registered: self.is_registered,
            created_at: self.created_at,
            tnx_hash: self.tnx_hash@,
        }
    }
}

/// An item, keyed by its identifier; everything but the identifier and the
/// owner comes from the registry's canonical state.
#[derive(Clone, Debug, PartialEq, Eq)]
pub struct NewItem {
    pub item_id: String,
    pub name: String,
    pub serial: String,
    pub date: i64,
    pub owner: String,
    pub manufacturer: String,
    pub metadata: Vec<String>,
    pub created_at: NaiveDateTime,
    pub tnx_hash: String,
}

/// The value of a `NewItem` in contracts: each text as its sequence of characters.
pub struct NewItemView {
    pub item_id: Seq<char>,
    pub name: Seq<char>,
    pub serial: Seq<char>,
    pub date: i64,
    pub owner: Seq<char>,
    pub manufacturer: Seq<char>,
    pub metadata: Seq<Seq<char>>,
    pub created_at: NaiveDateTime,
    pub tnx_hash: Seq<char>,
}

impl View for NewItem {
    type V = NewItemView;

    open spec fn view(&self) -> NewItemView {
        NewItemView {
            item_id: self.item_id@,
            name: self.name@,
            serial: self.serial@,
            date: self.date,
            owner: self.owner@,
            manufacturer: self.manufacturer@,
            metadata: self.metadata.deep_view(),
            created_at: self.created_at,
            tnx_hash: self.tnx_hash@,
        }
    }
}

/// A change of owner. The event that announces it names no item, so
/// `item_id` is empty; the row is found again by its transaction hash and
/// its two owners.
#[derive(Clone, Debug, PartialEq, Eq)]
pub struct NewOwnershipClaim {
    pub item_id: String,
    pub new_owner: String,
    pub old_owner: String,
    pub tnx_hash: String,
    pub created_at: NaiveDateTime,
}

/// The value of a `NewOwnershipClaim` in contracts: each text as its sequence of characters.
pub struct NewOwnershipClaimView {
    pub item_id: Seq<char>,
    pub new_owner: Seq<char>,
    pub old_owner: Seq<char>,
    pub tnx_hash: Seq<char>,
    pub created_at: NaiveDateTime,
}

impl View for NewOwnershipClaim {
    type V = NewOwnershipClaimView;

    open spec fn view(&self) -> NewOwnershipClaimView {
        NewOwnershipClaimView {
            item_id: self.item_id@,
            new_owner: self.new_owner@,
            old_owner: self.old_owner@,
            tnx_hash: self.tnx_hash@,
            created_at: self.created_at,
        }
    }
}

/// A revoked ownership code, keyed by the item hash in prefixed hexadecimal.
#[derive(Clone, Debug, PartialEq, Eq)]
pub struct NewCodeRevokation {
    pub item_hash: String,
    pub tnx_hash: String,
    pub created_at: NaiveDateTime,
}

/// The value of a `NewCodeRevokation` in contracts: each text as its sequence of characters.
pub struct NewCodeRevokationView {
    pub item_hash: Seq<char>,
    pub tnx_hash: Seq<char>,
    pub created_at: NaiveDateTime,
}

impl View for NewCodeRevokation {
    type V = NewCodeRevokationView;

    open spec fn view(&self) -> NewCodeRevokationView {
        NewCodeRevokationView {
            item_hash: self.item_hash@,
            tnx_hash: self.tnx_hash@,
            created_at: self.created_at,
        }
    }
}

/// The authenticity registry that the ownership registry trusts, keyed by
/// its checksummed address.
#[derive(Clone, Debug, PartialEq, Eq)]
pub struct NewAuthenticitySetting {
    pub authenticity_address: String,
    pub tnx_hash: String,
    pub created_at: NaiveDateTime,
}

/// The value of a `NewAuthenticitySetting` in contracts: each text as its sequence of characters.
pub struct NewAuthenticitySettingView {
    pub authenticity_address: Seq<char>,
    pub tnx_hash: Seq<char>,
    pub created_at: NaiveDateTime,
}

impl View for NewAuthenticitySetting {
    type V = NewAuthenticitySettingView;

    open spec fn view(&self) -> NewAuthenticitySettingView {
        NewAuthenticitySettingView {
            authenticity_address: self.authenticity_address@,
            tnx_hash: self.tnx_hash@,
            created_at: self.created_at,
        }
    }
}

/// The key of a claim of ownership: its transaction hash, its new owner and
/// its old owner, joined by colons.
pub open spec fn claim_key(
    tnx_hash: Seq<char>,
    new_owner: Seq<char>,
    old_owner: Seq<char>,
) -> Seq<char> {
    tnx_hash + seq![':'] + new_owner + seq![':'] + old_owner
}

/// The key of a claim of ownership.
pub fn claim_key_text(tnx_hash: &String, new_owner: &String, old_owner: &String) -> (key: String)
    ensures
        key@ == claim_key(tnx_hash@, new_owner@, old_owner@),
{
    proof {
        reveal_strlit(":");
        assert(":"@ =~= seq![':']);
    }
    let mut key = tnx_hash.clone();
    key.append(":");
    key.append(new_owner.as_str());
    key.append(":");
    key.append(old_owner.as_str());
    key
}

/// A row together with the table that it belongs to.
#[derive(Clone, Debug, PartialEq, Eq)]
pub enum Record {
    Manufacturer(NewManufacturer),
    ContractCreated(NewContractCreated),
    Contract(NewContract),
    User(NewUserInfo),
    Item(NewItem),
    OwnershipClaim(NewOwnershipClaim),
    CodeRevokation(NewCodeRevokation),
    AuthenticitySetting(NewAuthenticitySetting),
}

/// The value of a `Record` in contracts: each text as its sequence of characters.
pub enum RecordView {
    Manufacturer(NewManufacturerView),
    ContractCreated(NewContractCreatedView),
    Contract(NewContractView),
    User(NewUserInfoView),
    Item(NewItemView),
    OwnershipClaim(NewOwnershipClaimView),
    CodeRevokation(NewCodeRevokationView),
    AuthenticitySetting(NewAuthenticitySettingView),
}

impl View for Record {
    type V = RecordView;

    open spec fn view(&self) -> RecordView {
        match *self {
            Record::Manufacturer(row) => RecordView::Manufacturer(row@),
            Record::ContractCreated(row) => RecordView::ContractCreated(row@),
            Record::Contract(row) => RecordView::Contract(row@),
            Record::User(row) => RecordView::User(row@),
            Record::Item(row) => RecordView::Item(row@),
            Record::OwnershipClaim(row) => RecordView::OwnershipClaim(row@),
            Record::CodeRevokation(row) => RecordView::CodeRevokation(row@),
            Record::AuthenticitySetting(row) => RecordView::AuthenticitySetting(row@),
        }
    }
}

impl RecordView {
    /// The table that the row belongs to.
    pub open spec fn table(self) -> Table {
        match self {
            RecordView::Manufacturer(_) => Table::ManufacturersInfo,
            RecordView::ContractCreated(_) => Table::ContractsCreated,
            RecordView::Contract(_) => Table::Contracts,
            RecordView::User(_) => Table::UsersInfo,
            RecordView::Item(_) => Table::Items,
            RecordView::OwnershipClaim(_) => Table::OwnershipClaims,
            RecordView::CodeRevokation(_) => Table::CodeRevokations,
            RecordView::AuthenticitySetting(_) => Table::AuthenticitySettings,
        }
    }

    /// The text by which the row is found again in its table. A claim of
    /// ownership names no item; it is found by its transaction hash and its
    /// two owners.
    pub open spec fn key(self) -> Seq<char> {
        match self {
            RecordView::Manufacturer(row) => row.manufacturer_address,
            RecordView::ContractCreated(row) => row.contract_address,
            RecordView::Contract(row) => row.contract_address,
            RecordView::User(row) => row.user_address,
            RecordView::Item(row) => row.item_id,
            RecordView::OwnershipClaim(row) => claim_key(
                row.tnx_hash,
                row.new_owner,
                row.old_owner,
            ),
            RecordView::CodeRevokation(row) => row.item_hash,
            RecordView::AuthenticitySetting(row) => row.authenticity_address,
        }
    }

    /// The fields of the row that hold an address.
    pub open spec fn addresses(self) -> Seq<Seq<char>> {
        match self {
            RecordView::Manufacturer(row) => seq![row.manufacturer_address],
            RecordView::ContractCreated(row) => seq![row.contract_address, row.owner],
            RecordView::Contract(row) => seq![row.contract_address, row.owner],
            RecordView::User(row) => seq![row.user_address],
            RecordView::Item(row) => seq![row.owner],
            RecordView::OwnershipClaim(row) => seq![row.new_owner, row.old_owner],
            RecordView::CodeRevokation(_) => Seq::empty(),
            RecordView::AuthenticitySetting(row) => seq![row.authenticity_address],
        }
    }

    /// Whether every address of the row is in textual form: `0x` and the
    /// forty hexadecimal digits of an address, letters in either case.
    pub open spec fn addresses_are_text(self) -> bool {
        forall|i: int|
            0 <= i < self.addresses().len() ==> is_address_text(#[trigger] self.addresses()[i])
    }

    /// The transaction hash that the row carries.
    pub open spec fn tnx_hash(self) -> Seq<char> {
        match self {
            RecordView::Manufacturer(row) => row.tnx_hash,
            RecordView::ContractCreated(row) => row.tnx_hash,
            RecordView::Contract(row) => row.tnx_hash,
            RecordView::User(row) => row.tnx_hash,
            RecordView::Item(row) => row.tnx_hash,
            RecordView::OwnershipClaim(row) => row.tnx_hash,
            RecordView::CodeRevokation(row) => row.tnx_hash,
            RecordView::AuthenticitySetting(row) => row.tnx_hash,
        }
    }
}

impl Record {
    /// The text by which the row is found again in its table.
    pub fn key(&self) -> (key: String)
        ensures
            key@ == self@.key(),
    {
        match self {
            Record::Manufacturer(row) => row.manufacturer_address.clone(),
            Record::ContractCreated(row) => row.contract_address.clone(),
            Record::Contract(row) => row.contract_address.clone(),
            Record::User(row) => row.user_address.clone(),
            Record::Item(row) => row.item_id.clone(),
            Record::OwnershipClaim(row) => claim_key_text(
                &row.tnx_hash,
                &row.new_owner,
                &row.old_owner,
            ),
            Record::CodeRevokation(row) => row.item_hash.clone(),
            Record::AuthenticitySetting(row) => row.authenticity_address.clone(),
        }
    }

    /// The table that the row is inserted into.
    pub fn table(&self) -> (table: Table)
        ensures
            table == self@.table(),
    {
        match self {
            Record::Manufacturer(_) => Table::ManufacturersInfo,
            Record::ContractCreated(_) => Table::ContractsCreated,
            Record::Contract(_) => Table::Contracts,
            Record::User(_) => Table::UsersInfo,
            Record::Item(_) => Table::Items,
            Record::OwnershipClaim(_) => Table::OwnershipClaims,
            Record::CodeRevokation(_) => Table::CodeRevokations,
            Record::AuthenticitySetting(_) => Table::AuthenticitySettings,
        }
    }
}

} // verus!
