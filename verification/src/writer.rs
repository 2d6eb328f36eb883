//! The idempotent writer: for one event, what to ask of the store or of the
//! registry next, given what has been learned so far, and in the end the row
//! to insert or the reason why none is written.
//!
//! A handler never touches the store. It is called with what the caller has
//! observed for this event so far and answers with the next request; the
//! caller carries the request out, records the answer in `Observed` and calls
//! again, until the request is an insert, a skip or a failure.

use crate::encoding::{checksum_text, hex_with_prefix, is_cased_hex, prefixed_hex, to_checksum};
use crate::events::{
    text_of, AuthenticitySetFilter, CodeRevokedFilter, ContractCreatedFilter, ItemCreatedFilter,
    ItemState, ManufacturerRegisteredFilter, ManufacturerState, OwnershipClaimedFilter,
    OwnershipCreatedFilter, UserRegisteredFilter,
};
use crate::records::{
    claim_key, claim_key_text, NewAuthenticitySetting, NewAuthenticitySettingView,
    NewCodeRevokation, NewCodeRevokationView, NewContract, NewContractCreated,
    NewContractCreatedView, NewContractView, NewItem, NewItemView, NewManufacturer,
    NewManufacturerView, NewOwnershipClaim, NewOwnershipClaimView, NewUserInfo, NewUserInfoView,
    Record, RecordView, Table,
};
use chrono::NaiveDateTime;
use vstd::prelude::*;

verus! {

/// Why an event leaves the store as it was.
#[derive(Clone, Copy, Debug, PartialEq, Eq, Structural)]
pub enum Skip {
    /// A row with the event's natural key is already there.
    Duplicate,
    /// The kind carries nothing that the read-model holds.
    Informational,
    /// The log names no transaction, so no row may be written for it.
    Malformed,
}

/// Why the processing of an event fails.
#[derive(Clone, Copy, Debug, PartialEq, Eq, Structural)]
pub enum EventError {
    /// The manufacture date of an item does not fit the signed 64-bit
    /// column that holds it.
    ItemDateOutOfRange,
}

/// A read of a registry's canonical state.
#[derive(Clone, Debug, PartialEq, Eq)]
pub enum ReadCall {
    GetManufacturer { address: [u8; 20] },
    GetItem { item_id: String },
}

/// The value of a `ReadCall` in contracts: each text as its sequence of characters.
pub enum ReadCallView {
    GetManufacturer { address: Seq<u8> },
    GetItem { item_id: Seq<char> },
}

impl View for ReadCall {
    type V = ReadCallView;

    open spec fn view(&self) -> ReadCallView {
        match *self {
            ReadCall::GetManufacturer { address } => ReadCallView::GetManufacturer {
                address: address@,
            },
            ReadCall::GetItem { item_id } => ReadCallView::GetItem { item_id: item_id@ },
        }
    }
}

/// The next thing to do for an event. `Insert`, `Skip` and `Fail` end its
/// processing.
#[derive(Clone, Debug, PartialEq, Eq)]
pub enum Request {
    /// Ask the store whether `table` holds a row with this key.
    Exists { table: Table, key: String },
    /// Read the registry's canonical state.
    Read(ReadCall),
    /// Insert the row.
    Insert(Record),
    /// Write nothing; the event is dealt with.
    Skip(Skip),
    /// Give the event up and report the failure.
    Fail(EventError),
}

/// The value of a `Request` in contracts: each text as its sequence of characters.
pub enum RequestView {
    Exists { table: Table, key: Seq<char> },
    Read(ReadCallView),
    Insert(RecordView),
    Skip(Skip),
    Fail(EventError),
}

impl View for Request {
    type V = RequestView;

    open spec fn view(&self) -> RequestView {
        match *self {
            Request::Exists { table, key } => RequestView::Exists { table, key: key@ },
            Request::Read(call) => RequestView::Read(call@),
            Request::Insert(record) => RequestView::Insert(record@),
            Request::Skip(skip) => RequestView::Skip(skip),
            Request::Fail(error) => RequestView::Fail(error),
        }
    }
}

/// What the caller has learned for the event at hand: the store's answer to
/// the existence check and the registry's answers to reads, each absent
/// until the request for it has been carried out.
#[derive(Clone, Debug, PartialEq, Eq)]
pub struct Observed {
    pub exists: Option<bool>,
    pub manufacturer: Option<ManufacturerState>,
    pub item: Option<ItemState>,
}

impl Observed {
    /// Nothing observed yet.
    pub open spec fn spec_nothing() -> Observed {
        Observed { exists: None, manufacturer: None, item: None }
    }

    /// The observations at the start of an event's processing.
    #[verifier::when_used_as_spec(spec_nothing)]
    pub fn nothing() -> (observed: Observed)
        ensures
            observed == Observed::spec_nothing(),
    {
        Observed { exists: None, manufacturer: None, item: None }
    }
}

/// The request of a kind whose row is built from the event alone: check the
/// key, skip a duplicate, skip an event without a transaction, else insert.
pub open spec fn keyed_request(
    observed: Observed,
    table: Table,
    key: Seq<char>,
    txn_hash: Option<Seq<char>>,
    record: RecordView,
) -> RequestView {
    match observed.exists {
        None => RequestView::Exists { table, key },
        Some(true) => RequestView::Skip(Skip::Duplicate),
        Some(false) => match txn_hash {
            None => RequestView::Skip(Skip::Malformed),
            Some(_) => RequestView::Insert(record),
        },
    }
}

/// The value of a 256-bit number given by four limbs, least significant
/// first.
pub open spec fn limbs_value(limbs: Seq<u64>) -> int
    recommends
        limbs.len() == 4,
{
    limbs[0] + 0x1_0000_0000_0000_0000 * (limbs[1] + 0x1_0000_0000_0000_0000 * (limbs[2]
        + 0x1_0000_0000_0000_0000 * limbs[3]))
}

/// A 256-bit date as a signed 64-bit number, where it fits.
pub open spec fn date_seconds(limbs: Seq<u64>) -> Option<i64>
    recommends
        limbs.len() == 4,
{
    if limbs_value(limbs) <= i64::MAX {
        Some(limbs_value(limbs) as i64)
    } else {
        None
    }
}

/// Converts the manufacture date that the registry holds to the column's
/// type; `None` exactly where the date exceeds `i64::MAX`.
pub fn item_date(date: &[u64; 4]) -> (seconds: Option<i64>)
    ensures
        seconds == date_seconds(date@),
{
    if date[1] == 0 && date[2] == 0 && date[3] == 0 && date[0] <= 0x7fff_ffff_ffff_ffff {
        let low: u64 = date[0];
        Some(low as i64)
    } else {
        None
    }
}

/// A copy of a list of texts.
pub fn clone_texts(texts: &Vec<String>) -> (copy: Vec<String>)
    ensures
        copy.deep_view() == texts.deep_view(),
{
    let mut copy: Vec<String> = Vec::new();
    let mut i: usize = 0;
    while i < texts.len()
        invariant
            i <= texts.len(),
            copy.len() == i,
            forall|j: int| 0 <= j < i ==> copy[j]@ == texts[j]@,
        decreases texts.len() - i,
    {
        copy.push(texts[i].clone());
        i += 1;
    }
    assert(copy.deep_view() =~= texts.deep_view());
    copy
}

/// The row of a manufacturer: its checksummed address, the name that the
/// registry holds for it, and the transaction and time of the registration.
pub open spec fn manufacturer_row(
    manufacturer_address: Seq<char>,
    state: ManufacturerState,
    tnx_hash: Seq<char>,
    registered_at: NaiveDateTime,
) -> RecordView {
    RecordView::Manufacturer(
        NewManufacturerView {
            manufacturer_address,
            manufacturer_name: state.name@,
            tnx_hash,
            registered_at,
        },
    )
}

/// What a manufacturer registration asks for, given the text of its
/// address: the existence check by that text; for a new address the
/// registry's record of the manufacturer; then the row, with the name that
/// the registry returned.
pub open spec fn manufacturer_registered_request_from(
    manufacturer_address: Seq<char>,
    event: ManufacturerRegisteredFilter,
    observed: Observed,
    txn_hash: Option<Seq<char>>,
    registered_at: NaiveDateTime,
) -> RequestView {
    match observed.exists {
        None => RequestView::Exists { table: Table::ManufacturersInfo, key: manufacturer_address },
        Some(true) => RequestView::Skip(Skip::Duplicate),
        Some(false) => match observed.manufacturer {
            None => RequestView::Read(
                ReadCallView::GetManufacturer { address: event.manufacturer_address@ },
            ),
            Some(state) => match txn_hash {
                None => RequestView::Skip(Skip::Malformed),
                Some(hash) => RequestView::Insert(
                    manufacturer_row(manufacturer_address, state, hash, registered_at),
                ),
            },
        },
    }
}

/// What a manufacturer registration asks for: as above, by the checksummed
/// address of the event.
pub open spec fn manufacturer_registered_request(
    event: ManufacturerRegisteredFilter,
    observed: Observed,
    txn_hash: Option<Seq<char>>,
    registered_at: NaiveDateTime,
) -> RequestView {
    manufacturer_registered_request_from(
        checksum_text(event.manufacturer_address@),
        event,
        observed,
        txn_hash,
        registered_at,
    )
}

/// Handles a manufacturer registration whose address has been put into
/// text.
pub fn manufacturer_registered_request_with(
    manufacturer_address: String,
    event: &ManufacturerRegisteredFilter,
    observed: &Observed,
    txn_hash: Option<String>,
    registered_at: NaiveDateTime,
) -> (request: Request)
    ensures
        request@ == manufacturer_registered_request_from(
            manufacturer_address@,
            *event,
            *observed,
            text_of(txn_hash),
            registered_at,
        ),
{
    match observed.exists {
        None => Request::Exists { table: Table::ManufacturersInfo, key: manufacturer_address },
        Some(true) => Request::Skip(Skip::Duplicate),
        Some(false) => match &observed.manufacturer {
            None => Request::Read(
                ReadCall::GetManufacturer { address: event.manufacturer_address },
            ),
            Some(state) => match txn_hash {
                None => Request::Skip(Skip::Malformed),
                Some(hash) => Request::Insert(
                    Record::Manufacturer(
                        NewManufacturer {
                            manufacturer_address,
                            manufacturer_name: state.name.clone(),
                            tnx_hash: hash,
                            registered_at,
                        },
                    ),
                ),
            },
        },
    }
}

/// Handles a manufacturer registration. The address that is checked and
/// stored is `0x` and the forty hexadecimal digits of the event's address,
/// letters in either case.
pub fn process_manufacturer_registered_event(
    event: &ManufacturerRegisteredFilter,
    observed: &Observed,
    txn_hash: Option<String>,
    registered_at: NaiveDateTime,
) -> (request: Request)
    ensures
        request@ == manufacturer_registered_request(
            *event,
            *observed,
            text_of(txn_hash),
            registered_at,
        ),
        is_cased_hex(checksum_text(event.manufacturer_address@), event.manufacturer_address@),
{
    let manufacturer_address = to_checksum(&event.manufacturer_address);
    manufacturer_registered_request_with(
        manufacturer_address,
        event,
        observed,
        txn_hash,
        registered_at,
    )
}

/// The row of a contract that the authenticity registry announced.
pub open spec fn contract_created_row(
    contract_address: Seq<char>,
    owner: Seq<char>,
    tnx_hash: Seq<char>,
) -> RecordView {
    RecordView::ContractCreated(NewContractCreatedView { contract_address, owner, tnx_hash })
}

/// What the creation of a contract, as the authenticity registry announces
/// it, asks for, given the texts of its two addresses.
pub open spec fn contract_created_request_from(
    contract_address: Seq<char>,
    owner: Seq<char>,
    observed: Observed,
    txn_hash: Option<Seq<char>>,
) -> RequestView {
    keyed_request(
        observed,
        Table::ContractsCreated,
        contract_address,
        txn_hash,
        contract_created_row(contract_address, owner, txn_hash.unwrap()),
    )
}

/// What the creation of a contract, as the authenticity registry announces
/// it, asks for.
pub open spec fn contract_created_request(
    event: ContractCreatedFilter,
    observed: Observed,
    txn_hash: Option<Seq<char>>,
) -> RequestView {
    contract_created_request_from(
        checksum_text(event.contract_address@),
        checksum_text(event.owner@),
        observed,
        txn_hash,
    )
}

/// Handles the creation of a contract that the authenticity registry
/// announces, with its two addresses put into text.
pub fn contract_created_request_with(
    contract_address: String,
    owner: String,
    observed: &Observed,
    txn_hash: Option<String>,
) -> (request: Request)
    ensures
        request@ == contract_created_request_from(
            contract_address@,
            owner@,
            *observed,
            text_of(txn_hash),
        ),
{
    match observed.exists {
        None => Request::Exists { table: Table::ContractsCreated, key: contract_address },
        Some(true) => Request::Skip(Skip::Duplicate),
        Some(false) => match txn_hash {
            None => Request::Skip(Skip::Malformed),
            Some(hash) => Request::Insert(
                Record::ContractCreated(
                    NewContractCreated { contract_address, owner, tnx_hash: hash },
                ),
            ),
        },
    }
}

/// Handles the creation of a contract that the authenticity registry
/// announces.
pub fn process_contract_created_event(
    event: &ContractCreatedFilter,
    observed: &Observed,
    txn_hash: Option<String>,
) -> (request: Request)
    ensures
        request@ == contract_created_request(*event, *observed, text_of(txn_hash)),
        is_cased_hex(checksum_text(event.contract_address@), event.contract_address@),
        is_cased_hex(checksum_text(event.owner@), event.owner@),
{
    let contract_address = to_checksum(&event.contract_address);
    let owner = to_checksum(&event.owner);
    contract_created_request_with(contract_address, owner, observed, txn_hash)
}

/// The row of a contract that the ownership registry announced.
pub open spec fn contract_row(
    contract_address: Seq<char>,
    owner: Seq<char>,
    tnx_hash: Seq<char>,
    created_at: NaiveDateTime,
) -> RecordView {
    RecordView::Contract(NewContractView { contract_address, owner, tnx_hash, created_at })
}

/// What the creation of an ownership contract asks for, given the texts of
/// its two addresses.
pub open spec fn ownership_created_request_from(
    contract_address: Seq<char>,
    owner: Seq<char>,
    observed: Observed,
    txn_hash: Option<Seq<char>>,
    created_at: NaiveDateTime,
) -> RequestView {
    keyed_request(
        observed,
        Table::Contracts,
        contract_address,
        txn_hash,
        contract_row(contract_address, owner, txn_hash.unwrap(), created_at),
    )
}

/// What the creation of an ownership contract asks for.
pub open spec fn ownership_created_request(
    event: OwnershipCreatedFilter,
    observed: Observed,
    txn_hash: Option<Seq<char>>,
    created_at: NaiveDateTime,
) -> RequestView {
    ownership_created_request_from(
        checksum_text(event.contract_address@),
        checksum_text(event.owner@),
        observed,
        txn_hash,
        created_at,
    )
}

/// Handles the creation of an ownership contract whose two addresses have
/// been put into text.
pub fn ownership_created_request_with(
    contract_address: String,
    owner: String,
    observed: &Observed,
    txn_hash: Option<String>,
    created_at: NaiveDateTime,
) -> (request: Request)
    ensures
        request@ == ownership_created_request_from(
            contract_address@,
            owner@,
            *observed,
            text_of(txn_hash),
            created_at,
        ),
{
    match observed.exists {
        None => Request::Exists { table: Table::Contracts, key: contract_address },
        Some(true) => Request::Skip(Skip::Duplicate),
        Some(false) => match txn_hash {
            None => Request::Skip(Skip::Malformed),
            Some(hash) => Request::Insert(
                Record::Contract(
                    NewContract { contract_address, owner, tnx_hash: hash, created_at },
                ),
            ),
        },
    }
}

/// Handles the creation of an ownership contract.
pub fn process_ownership_created_event(
    event: &OwnershipCreatedFilter,
    observed: &Observed,
    txn_hash: Option<String>,
    created_at: NaiveDateTime,
) -> (request: Request)
    ensures
        request@ == ownership_created_request(*event, *observed, text_of(txn_hash), created_at),
        is_cased_hex(checksum_text(event.contract_address@), event.contract_address@),
        is_cased_hex(checksum_text(event.owner@), event.owner@),
{
    let contract_address = to_checksum(&event.contract_address);
    let owner = to_checksum(&event.owner);
    ownership_created_request_with(contract_address, owner, observed, txn_hash, created_at)
}

/// The row of a registered user.
pub open spec fn user_row(
    user_address: Seq<char>,
    event: UserRegisteredFilter,
    tnx_hash: Seq<char>,
    created_at: NaiveDateTime,
) -> RecordView {
    RecordView::User(
        NewUserInfoView {
            user_address,
            username: event.username@,
            is_registered: true,
            created_at,
            tnx_hash,
        },
    )
}

/// What the registration of a user asks for, given the text of the user's
/// address.
pub open spec fn user_registered_request_from(
    user_address: Seq<char>,
    event: UserRegisteredFilter,
    observed: Observed,
    txn_hash: Option<Seq<char>>,
    created_at: NaiveDateTime,
) -> RequestView {
    keyed_request(
        observed,
        Table::UsersInfo,
        user_address,
        txn_hash,
        user_row(user_address, event, txn_hash.unwrap(), created_at),
    )
}

/// What the registration of a user asks for.
pub open spec fn user_registered_request(
    event: UserRegisteredFilter,
    observed: Observed,
    txn_hash: Option<Seq<char>>,
    created_at: NaiveDateTime,
) -> RequestView {
    user_registered_request_from(
        checksum_text(event.user_address@),
        event,
        observed,
        txn_hash,
        created_at,
    )
}

/// Handles the registration of a user whose address has been put into text.
pub fn user_registered_request_with(
    user_address: String,
    event: &UserRegisteredFilter,
    observed: &Observed,
    txn_hash: Option<String>,
    created_at: NaiveDateTime,
) -> (request: Request)
    ensures
        request@ == user_registered_request_from(
            user_address@,
            *event,
            *observed,
            text_of(txn_hash),
            created_at,
        ),
{
    match observed.exists {
        None => Request::Exists { table: Table::UsersInfo, key: user_address },
        Some(true) => Request::Skip(Skip::Duplicate),
        Some(false) => match txn_hash {
            None => Request::Skip(Skip::Malformed),
            Some(hash) => Request::Insert(
                Record::User(
                    NewUserInfo {
                        user_address,
                        username: event.username.clone(),
                        is_registered: true,
                        created_at,
                        tnx_hash: hash,
                    },
                ),
            ),
        },
    }
}

/// Handles the registration of a user.
pub fn process_user_registered_event(
    event: &UserRegisteredFilter,
    observed: &Observed,
    txn_hash: Option<String>,
    created_at: NaiveDateTime,
) -> (request: Request)
    ensures
        request@ == user_registered_request(*event, *observed, text_of(txn_hash), created_at),
        is_cased_hex(checksum_text(event.user_address@), event.user_address@),
{
    let user_address = to_checksum(&event.user_address);
    user_registered_request_with(user_address, event, observed, txn_hash, created_at)
}

/// The row of an item, for a registry date that fits the column.
pub open spec fn item_row(
    owner: Seq<char>,
    event: ItemCreatedFilter,
    state: ItemState,
    tnx_hash: Seq<char>,
    created_at: NaiveDateTime,
) -> RecordView {
    RecordView::Item(
        NewItemView {
            item_id: event.item_id@,
            name: state.name@,
            serial: state.serial@,
            date: date_seconds(state.date@).unwrap(),
            owner,
            manufacturer: state.manufacturer@,
            metadata: state.metadata.deep_view(),
            created_at,
            tnx_hash,
        },
    )
}

/// What the creation of an item asks for, given the text of the owner's
/// address: first the registry's record of the item, then the existence
/// check by the item identifier, then the row. The owner is the event's;
/// the name, serial, date, manufacturer and metadata are the registry's. A
/// date beyond `i64::MAX` fails the event.
pub open spec fn item_created_request_from(
    owner: Seq<char>,
    event: ItemCreatedFilter,
    observed: Observed,
    txn_hash: Option<Seq<char>>,
    created_at: NaiveDateTime,
) -> RequestView {
    match observed.item {
        None => RequestView::Read(ReadCallView::GetItem { item_id: event.item_id@ }),
        Some(state) => match observed.exists {
            None => RequestView::Exists { table: Table::Items, key: event.item_id@ },
            Some(true) => RequestView::Skip(Skip::Duplicate),
            Some(false) => if date_seconds(state.date@).is_none() {
                RequestView::Fail(EventError::ItemDateOutOfRange)
            } else {
                match txn_hash {
                    None => RequestView::Skip(Skip::Malformed),
                    Some(hash) => RequestView::Insert(
                        item_row(owner, event, state, hash, created_at),
                    ),
                }
            },
        },
    }
}

/// What the creation of an item asks for.
pub open spec fn item_created_request(
    event: ItemCreatedFilter,
    observed: Observed,
    txn_hash: Option<Seq<char>>,
    created_at: NaiveDateTime,
) -> RequestView {
    item_created_request_from(checksum_text(event.owner@), event, observed, txn_hash, created_at)
}

/// Handles the creation of an item whose owner's address has been put into
/// text.
pub fn item_created_request_with(
    owner: String,
    event: &ItemCreatedFilter,
    observed: &Observed,
    txn_hash: Option<String>,
    created_at: NaiveDateTime,
) -> (request: Request)
    ensures
        request@ == item_created_request_from(
            owner@,
            *event,
            *observed,
            text_of(txn_hash),
            created_at,
        ),
{
    match &observed.item {
        None => Request::Read(ReadCall::GetItem { item_id: event.item_id.clone() }),
        Some(state) => match observed.exists {
            None => Request::Exists { table: Table::Items, key: event.item_id.clone() },
            Some(true) => Request::Skip(Skip::Duplicate),
            Some(false) => match item_date(&state.date) {
                None => Request::Fail(EventError::ItemDateOutOfRange),
                Some(date) => match txn_hash {
                    None => Request::Skip(Skip::Malformed),
                    Some(hash) => Request::Insert(
                        Record::Item(
                            NewItem {
                                item_id: event.item_id.clone(),
                                name: state.name.clone(),
                                serial: state.serial.clone(),
                                date,
                                owner,
                                manufacturer: state.manufacturer.clone(),
                                metadata: clone_texts(&state.metadata),
                                created_at,
                                tnx_hash: hash,
                            },
                        ),
                    ),
                },
            },
        },
    }
}

/// Handles the creation of an item.
pub fn process_item_created_event(
    event: &ItemCreatedFilter,
    observed: &Observed,
    txn_hash: Option<String>,
    created_at: NaiveDateTime,
) -> (request: Request)
    ensures
        request@ == item_created_request(*event, *observed, text_of(txn_hash), created_at),
        is_cased_hex(checksum_text(event.owner@), event.owner@),
{
    let owner = to_checksum(&event.owner);
    item_created_request_with(owner, event, observed, txn_hash, created_at)
}

/// The row of a claim of ownership; its item identifier is empty.
pub open spec fn ownership_claim_row(
    new_owner: Seq<char>,
    old_owner: Seq<char>,
    tnx_hash: Seq<char>,
    created_at: NaiveDateTime,
) -> RecordView {
    RecordView::OwnershipClaim(
        NewOwnershipClaimView { item_id: Seq::empty(), new_owner, old_owner, tnx_hash, created_at },
    )
}

/// What a claim of ownership asks for, given the texts of its two owners.
/// The event names no item, so the claim is known by its transaction hash
/// and its owners: a claim without a transaction is skipped, one whose key
/// the store holds is a duplicate, any other is inserted with an empty item
/// identifier.
pub open spec fn ownership_claimed_request_from(
    new_owner: Seq<char>,
    old_owner: Seq<char>,
    observed: Observed,
    txn_hash: Option<Seq<char>>,
    created_at: NaiveDateTime,
) -> RequestView {
    match txn_hash {
        None => RequestView::Skip(Skip::Malformed),
        Some(hash) => match observed.exists {
            None => RequestView::Exists {
                table: Table::OwnershipClaims,
                key: claim_key(hash, new_owner, old_owner),
            },
            Some(true) => RequestView::Skip(Skip::Duplicate),
            Some(false) => RequestView::Insert(
                ownership_claim_row(new_owner, old_owner, hash, created_at),
            ),
        },
    }
}

/// What a claim of ownership asks for.
pub open spec fn ownership_claimed_request(
    event: OwnershipClaimedFilter,
    observed: Observed,
    txn_hash: Option<Seq<char>>,
    created_at: NaiveDateTime,
) -> RequestView {
    ownership_claimed_request_from(
        checksum_text(event.new_owner@),
        checksum_text(event.old_owner@),
        observed,
        txn_hash,
        created_at,
    )
}

/// Handles a claim of ownership whose two owners have been put into text.
pub fn ownership_claimed_request_with(
    new_owner: String,
    old_owner: String,
    observed: &Observed,
    txn_hash: Option<String>,
    created_at: NaiveDateTime,
) -> (request: Request)
    ensures
        request@ == ownership_claimed_request_from(
            new_owner@,
            old_owner@,
            *observed,
            text_of(txn_hash),
            created_at,
        ),
{
    match txn_hash {
        None => Request::Skip(Skip::Malformed),
        Some(hash) => match observed.exists {
            None => Request::Exists {
                table: Table::OwnershipClaims,
                key: claim_key_text(&hash, &new_owner, &old_owner),
            },
            Some(true) => Request::Skip(Skip::Duplicate),
            Some(false) => Request::Insert(
                Record::OwnershipClaim(
                    NewOwnershipClaim {
                        item_id: String::new(),
                        new_owner,
                        old_owner,
                        tnx_hash: hash,
                        created_at,
                    },
                ),
            ),
        },
    }
}

/// Handles a claim of ownership.
pub fn process_ownership_claimed_event(
    event: &OwnershipClaimedFilter,
    observed: &Observed,
    txn_hash: Option<String>,
    created_at: NaiveDateTime,
) -> (request: Request)
    ensures
        request@ == ownership_claimed_request(*event, *observed, text_of(txn_hash), created_at),
        is_cased_hex(checksum_text(event.new_owner@), event.new_owner@),
        is_cased_hex(checksum_text(event.old_owner@), event.old_owner@),
{
    let new_owner = to_checksum(&event.new_owner);
    let old_owner = to_checksum(&event.old_owner);
    ownership_claimed_request_with(new_owner, old_owner, observed, txn_hash, created_at)
}

/// The row of a revoked code.
pub open spec fn code_revokation_row(
    event: CodeRevokedFilter,
    tnx_hash: Seq<char>,
    created_at: NaiveDateTime,
) -> RecordView {
    RecordView::CodeRevokation(
        NewCodeRevokationView { item_hash: prefixed_hex(event.item_hash@), tnx_hash, created_at },
    )
}

/// What the revocation of a code asks for; the key is the item hash in
/// prefixed hexadecimal.
pub open spec fn code_revoked_request(
    event: CodeRevokedFilter,
    observed: Observed,
    txn_hash: Option<Seq<char>>,
    created_at: NaiveDateTime,
) -> RequestView {
    keyed_request(
        observed,
        Table::CodeRevokations,
        prefixed_hex(event.item_hash@),
        txn_hash,
        code_revokation_row(event, txn_hash.unwrap(), created_at),
    )
}

/// Handles the revocation of a code.
pub fn process_code_revoked_event(
    event: &CodeRevokedFilter,
    observed: &Observed,
    txn_hash: Option<String>,
    created_at: NaiveDateTime,
) -> (request: Request)
    ensures
        request@ == code_revoked_request(*event, *observed, text_of(txn_hash), created_at),
{
    let item_hash = hex_with_prefix(event.item_hash.as_slice());
    match observed.exists {
        None => Request::Exists { table: Table::CodeRevokations, key: item_hash },
        Some(true) => Request::Skip(Skip::Duplicate),
        Some(false) => match txn_hash {
            None => Request::Skip(Skip::Malformed),
            Some(hash) => Request::Insert(
                Record::CodeRevokation(NewCodeRevokation { item_hash, tnx_hash: hash, created_at }),
            ),
        },
    }
}

/// The row of a setting of the authenticity registry.
pub open spec fn authenticity_setting_row(
    authenticity_address: Seq<char>,
    tnx_hash: Seq<char>,
    created_at: NaiveDateTime,
) -> RecordView {
    RecordView::AuthenticitySetting(
        NewAuthenticitySettingView { authenticity_address, tnx_hash, created_at },
    )
}

/// What the setting of the authenticity registry asks for, given the text
/// of the registry's address.
pub open spec fn authenticity_set_request_from(
    authenticity_address: Seq<char>,
    observed: Observed,
    txn_hash: Option<Seq<char>>,
    created_at: NaiveDateTime,
) -> RequestView {
    keyed_request(
        observed,
        Table::AuthenticitySettings,
        authenticity_address,
        txn_hash,
        authenticity_setting_row(authenticity_address, txn_hash.unwrap(), created_at),
    )
}

/// What the setting of the authenticity registry asks for.
pub open spec fn authenticity_set_request(
    event: AuthenticitySetFilter,
    observed: Observed,
    txn_hash: Option<Seq<char>>,
    created_at: NaiveDateTime,
) -> RequestView {
    authenticity_set_request_from(
        checksum_text(event.authenticity_address@),
        observed,
        txn_hash,
        created_at,
    )
}

/// Handles the setting of the authenticity registry whose address has been
/// put into text.
pub fn authenticity_set_request_with(
    authenticity_address: String,
    observed: &Observed,
    txn_hash: Option<String>,
    created_at: NaiveDateTime,
) -> (request: Request)
    ensures
        request@ == authenticity_set_request_from(
            authenticity_address@,
            *observed,
            text_of(txn_hash),
            created_at,
        ),
{
    match observed.exists {
        None => Request::Exists { table: Table::AuthenticitySettings, key: authenticity_address },
        Some(true) => Request::Skip(Skip::Duplicate),
        Some(false) => match txn_hash {
            None => Request::Skip(Skip::Malformed),
            Some(hash) => Request::Insert(
                Record::AuthenticitySetting(
                    NewAuthenticitySetting { authenticity_address, tnx_hash: hash, created_at },
                ),
            ),
        },
    }
}

/// Handles the setting of the authenticity registry.
pub fn process_authenticity_set_event(
    event: &AuthenticitySetFilter,
    observed: &Observed,
    txn_hash: Option<String>,
    created_at: NaiveDateTime,
) -> (request: Request)
    ensures
        request@ == authenticity_set_request(*event, *observed, text_of(txn_hash), created_at),
        is_cased_hex(checksum_text(event.authenticity_address@), event.authenticity_address@),
{
    let authenticity_address = to_checksum(&event.authenticity_address);
    authenticity_set_request_with(authenticity_address, observed, txn_hash, created_at)
}

} // verus!
