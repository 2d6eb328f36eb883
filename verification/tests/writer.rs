use chrono::NaiveDateTime;
use event_indexer::encoding::hex_with_prefix;
use event_indexer::events::{
    AuthenticityEvents, AuthenticitySetFilter, CodeRevokedFilter, ContractCreatedFilter,
    EventKind, ItemCreatedFilter, ItemState, LogMeta, ManufacturerRegisteredFilter,
    ManufacturerState, OwnershipClaimedFilter, OwnershipCodeFilter, OwnershipCreatedFilter,
    OwnershipEvents, UserRegisteredFilter,
};
use event_indexer::records::{
    claim_key_text, NewAuthenticitySetting, NewCodeRevokation, NewContract, NewContractCreated, NewItem,
    NewManufacturer, NewOwnershipClaim, NewUserInfo, Record, Table,
};
use event_indexer::router::{
    route_authenticity_event, route_authenticity_event_at, route_ownership_event,
    route_ownership_event_at,
};
use event_indexer::router_path::RouterPath;
use event_indexer::writer::{
    authenticity_set_request_with, clone_texts, contract_created_request_with,
    item_created_request_with, item_date, manufacturer_registered_request_with,
    ownership_claimed_request_with, ownership_created_request_with,
    process_authenticity_set_event, process_code_revoked_event,
    process_contract_created_event, process_item_created_event,
    process_manufacturer_registered_event, process_ownership_claimed_event,
    process_ownership_created_event, process_user_registered_event,
    user_registered_request_with, EventError, Observed, ReadCall, Request, Skip,
};

const ADDRESS_A: &str = "0x5aAeb6053F3E94C9b9A09f33669435E7Ef1BeAed";
const ADDRESS_B: &str = "0xfB6916095ca1df60bB79Ce92cE3Ea74c37c5d359";
const ADDRESS_C: &str = "0xdbF03B407c01E7cD3CBea99509d93f8DDDC8C6FB";
const ADDRESS_D: &str = "0xD1220A0cf47c7B9Be7A2E6BA89F429762e7b9aDb";

fn address(text: &str) -> [u8; 20] {
    let bytes = hex::decode(&text[2..]).unwrap();
    let mut address = [0u8; 20];
    address.copy_from_slice(&bytes);
    address
}

fn at(seconds: i64) -> NaiveDateTime {
    chrono::DateTime::from_timestamp(seconds, 0).unwrap().naive_utc()
}

fn hash(fill: u8) -> Option<String> {
    Some(hex_with_prefix(&[fill; 32]))
}

fn seen(exists: Option<bool>) -> Observed {
    Observed { exists, manufacturer: None, item: None }
}

fn check(table: Table, key: &str) -> Request {
    Request::Exists { table, key: key.to_string() }
}

fn item_state(date: [u64; 4]) -> ItemState {
    ItemState {
        name: "Watch".to_string(),
        serial: "SN-1".to_string(),
        date,
        owner: address(ADDRESS_D),
        manufacturer: "Acme".to_string(),
        metadata: vec!["steel".to_string(), "42mm".to_string()],
    }
}

#[test]
fn hex_with_prefix_writes_lower_case_digits() {
    assert_eq!(hex_with_prefix(&[]), "0x");
    assert_eq!(hex_with_prefix(&[0x00]), "0x00");
    assert_eq!(hex_with_prefix(&[0x01, 0x02, 0x03, 0x0f, 0x10]), "0x0102030f10");
    assert_eq!(hex_with_prefix(&[0xAB, 0xCD, 0xEF, 0xff, 0x9a]), "0xabcdefff9a");
}

#[test]
fn transaction_hash_text_is_prefixed_hex() {
    let mut bytes = [0u8; 32];
    bytes[0] = 0xde;
    bytes[31] = 0x01;
    let meta = LogMeta { transaction_hash: Some(bytes), block_number: 7 };
    assert_eq!(
        meta.transaction_hash_text(),
        Some("0xde00000000000000000000000000000000000000000000000000000000000001".to_string())
    );
    let bare = LogMeta { transaction_hash: None, block_number: 7 };
    assert_eq!(bare.transaction_hash_text(), None);
}

#[test]
fn manufacturer_key_is_the_checksummed_address() {
    let event = ManufacturerRegisteredFilter { manufacturer_address: address(ADDRESS_A) };
    let request =
        process_manufacturer_registered_event(&event, &Observed::nothing(), hash(1), at(0));
    assert_eq!(request, check(Table::ManufacturersInfo, ADDRESS_A));
}

#[test]
fn manufacturer_duplicate_is_skipped() {
    let event = ManufacturerRegisteredFilter { manufacturer_address: address(ADDRESS_A) };
    let request = process_manufacturer_registered_event(&event, &seen(Some(true)), hash(1), at(0));
    assert_eq!(request, Request::Skip(Skip::Duplicate));
    let request = process_manufacturer_registered_event(&event, &seen(Some(true)), None, at(0));
    assert_eq!(request, Request::Skip(Skip::Duplicate));
}

#[test]
fn manufacturer_name_is_read_from_the_registry() {
    let event = ManufacturerRegisteredFilter { manufacturer_address: address(ADDRESS_B) };
    let request =
        process_manufacturer_registered_event(&event, &seen(Some(false)), hash(1), at(0));
    assert_eq!(request, Request::Read(ReadCall::GetManufacturer { address: address(ADDRESS_B) }));
    let observed = Observed {
        exists: Some(false),
        manufacturer: Some(ManufacturerState {
            manufacturer_address: address(ADDRESS_B),
            name: "Acme".to_string(),
        }),
        item: None,
    };
    let request = process_manufacturer_registered_event(&event, &observed, hash(0x11), at(1234));
    assert_eq!(
        request,
        Request::Insert(Record::Manufacturer(NewManufacturer {
            manufacturer_address: ADDRESS_B.to_string(),
            manufacturer_name: "Acme".to_string(),
            tnx_hash: "0x1111111111111111111111111111111111111111111111111111111111111111"
                .to_string(),
            registered_at: at(1234),
        }))
    );
}

#[test]
fn manufacturer_without_transaction_is_malformed() {
    let event = ManufacturerRegisteredFilter { manufacturer_address: address(ADDRESS_B) };
    let observed = Observed {
        exists: Some(false),
        manufacturer: Some(ManufacturerState {
            manufacturer_address: address(ADDRESS_B),
            name: "Acme".to_string(),
        }),
        item: None,
    };
    let request = process_manufacturer_registered_event(&event, &observed, None, at(0));
    assert_eq!(request, Request::Skip(Skip::Malformed));
}

#[test]
fn contract_created_requests() {
    let event =
        ContractCreatedFilter { contract_address: address(ADDRESS_C), owner: address(ADDRESS_D) };
    assert_eq!(
        process_contract_created_event(&event, &Observed::nothing(), hash(2)),
        check(Table::ContractsCreated, ADDRESS_C)
    );
    assert_eq!(
        process_contract_created_event(&event, &seen(Some(true)), hash(2)),
        Request::Skip(Skip::Duplicate)
    );
    assert_eq!(
        process_contract_created_event(&event, &seen(Some(false)), None),
        Request::Skip(Skip::Malformed)
    );
    assert_eq!(
        process_contract_created_event(&event, &seen(Some(false)), hash(0x22)),
        Request::Insert(Record::ContractCreated(NewContractCreated {
            contract_address: ADDRESS_C.to_string(),
            owner: ADDRESS_D.to_string(),
            tnx_hash: "0x2222222222222222222222222222222222222222222222222222222222222222"
                .to_string(),
        }))
    );
}

#[test]
fn ownership_created_requests() {
    let event =
        OwnershipCreatedFilter { contract_address: address(ADDRESS_A), owner: address(ADDRESS_B) };
    assert_eq!(
        process_ownership_created_event(&event, &Observed::nothing(), hash(3), at(5)),
        check(Table::Contracts, ADDRESS_A)
    );
    assert_eq!(
        process_ownership_created_event(&event, &seen(Some(true)), hash(3), at(5)),
        Request::Skip(Skip::Duplicate)
    );
    assert_eq!(
        process_ownership_created_event(&event, &seen(Some(false)), None, at(5)),
        Request::Skip(Skip::Malformed)
    );
    assert_eq!(
        process_ownership_created_event(&event, &seen(Some(false)), hash(0x33), at(5)),
        Request::Insert(Record::Contract(NewContract {
            contract_address: ADDRESS_A.to_string(),
            owner: ADDRESS_B.to_string(),
            tnx_hash: "0x3333333333333333333333333333333333333333333333333333333333333333"
                .to_string(),
            created_at: at(5),
        }))
    );
}

#[test]
fn user_registered_requests() {
    let event =
        UserRegisteredFilter { user_address: address(ADDRESS_D), username: "alice".to_string() };
    assert_eq!(
        process_user_registered_event(&event, &Observed::nothing(), hash(4), at(9)),
        check(Table::UsersInfo, ADDRESS_D)
    );
    assert_eq!(
        process_user_registered_event(&event, &seen(Some(true)), hash(4), at(9)),
        Request::Skip(Skip::Duplicate)
    );
    assert_eq!(
        process_user_registered_event(&event, &seen(Some(false)), None, at(9)),
        Request::Skip(Skip::Malformed)
    );
    assert_eq!(
        process_user_registered_event(&event, &seen(Some(false)), hash(0x44), at(9)),
        Request::Insert(Record::User(NewUserInfo {
            user_address: ADDRESS_D.to_string(),
            username: "alice".to_string(),
            is_registered: true,
            created_at: at(9),
            tnx_hash: "0x4444444444444444444444444444444444444444444444444444444444444444"
                .to_string(),
        }))
    );
}

#[test]
fn item_is_read_before_the_existence_check() {
    let event = ItemCreatedFilter { item_id: "item-7".to_string(), owner: address(ADDRESS_A) };
    assert_eq!(
        process_item_created_event(&event, &Observed::nothing(), hash(5), at(1)),
        Request::Read(ReadCall::GetItem { item_id: "item-7".to_string() })
    );
    assert_eq!(
        process_item_created_event(&event, &seen(Some(false)), hash(5), at(1)),
        Request::Read(ReadCall::GetItem { item_id: "item-7".to_string() })
    );
    let read = Observed { exists: None, manufacturer: None, item: Some(item_state([1, 0, 0, 0])) };
    assert_eq!(
        process_item_created_event(&event, &read, hash(5), at(1)),
        check(Table::Items, "item-7")
    );
}

#[test]
fn item_row_takes_its_attributes_from_the_registry() {
    let event = ItemCreatedFilter { item_id: "item-7".to_string(), owner: address(ADDRESS_A) };
    let observed = Observed {
        exists: Some(false),
        manufacturer: None,
        item: Some(item_state([1_700_000_000, 0, 0, 0])),
    };
    assert_eq!(
        process_item_created_event(&event, &observed, hash(0x55), at(77)),
        Request::Insert(Record::Item(NewItem {
            item_id: "item-7".to_string(),
            name: "Watch".to_string(),
            serial: "SN-1".to_string(),
            date: 1_700_000_000,
            owner: ADDRESS_A.to_string(),
            manufacturer: "Acme".to_string(),
            metadata: vec!["steel".to_string(), "42mm".to_string()],
            created_at: at(77),
            tnx_hash: "0x5555555555555555555555555555555555555555555555555555555555555555"
                .to_string(),
        }))
    );
}

#[test]
fn item_duplicate_and_malformed() {
    let event = ItemCreatedFilter { item_id: "item-7".to_string(), owner: address(ADDRESS_A) };
    let duplicate =
        Observed { exists: Some(true), manufacturer: None, item: Some(item_state([u64::MAX; 4])) };
    assert_eq!(
        process_item_created_event(&event, &duplicate, hash(5), at(1)),
        Request::Skip(Skip::Duplicate)
    );
    let fresh =
        Observed { exists: Some(false), manufacturer: None, item: Some(item_state([5, 0, 0, 0])) };
    assert_eq!(
        process_item_created_event(&event, &fresh, None, at(1)),
        Request::Skip(Skip::Malformed)
    );
}

#[test]
fn item_date_beyond_the_column_fails_the_event() {
    let event = ItemCreatedFilter { item_id: "item-7".to_string(), owner: address(ADDRESS_A) };
    for date in [[1u64 << 63, 0, 0, 0], [0, 1, 0, 0], [0, 0, 1, 0], [0, 0, 0, 1], [u64::MAX; 4]] {
        let observed =
            Observed { exists: Some(false), manufacturer: None, item: Some(item_state(date)) };
        assert_eq!(
            process_item_created_event(&event, &observed, hash(5), at(1)),
            Request::Fail(EventError::ItemDateOutOfRange)
        );
        assert_eq!(
            process_item_created_event(&event, &observed, None, at(1)),
            Request::Fail(EventError::ItemDateOutOfRange)
        );
    }
}

#[test]
fn item_date_converts_exactly() {
    assert_eq!(item_date(&[0, 0, 0, 0]), Some(0));
    assert_eq!(item_date(&[1_700_000_000, 0, 0, 0]), Some(1_700_000_000));
    assert_eq!(item_date(&[i64::MAX as u64, 0, 0, 0]), Some(i64::MAX));
    assert_eq!(item_date(&[i64::MAX as u64 + 1, 0, 0, 0]), None);
    assert_eq!(item_date(&[u64::MAX, 0, 0, 0]), None);
    assert_eq!(item_date(&[0, 1, 0, 0]), None);
    assert_eq!(item_date(&[7, 0, 1, 0]), None);
    assert_eq!(item_date(&[7, 0, 0, 1]), None);
}

#[test]
fn clone_texts_copies_every_text() {
    assert_eq!(clone_texts(&vec![]), Vec::<String>::new());
    let texts = vec!["a".to_string(), String::new(), "caf\u{e9}".to_string()];
    assert_eq!(clone_texts(&texts), texts);
}

#[test]
fn ownership_claim_is_checked_by_hash_and_owners() {
    let event =
        OwnershipClaimedFilter { new_owner: address(ADDRESS_A), old_owner: address(ADDRESS_B) };
    let tnx_hash = "0x6666666666666666666666666666666666666666666666666666666666666666";
    let key = format!("{}:{}:{}", tnx_hash, ADDRESS_A, ADDRESS_B);
    assert_eq!(
        process_ownership_claimed_event(&event, &Observed::nothing(), hash(0x66), at(3)),
        check(Table::OwnershipClaims, &key)
    );
    assert_eq!(
        process_ownership_claimed_event(&event, &seen(Some(true)), hash(0x66), at(3)),
        Request::Skip(Skip::Duplicate)
    );
    let row = NewOwnershipClaim {
        item_id: String::new(),
        new_owner: ADDRESS_A.to_string(),
        old_owner: ADDRESS_B.to_string(),
        tnx_hash: tnx_hash.to_string(),
        created_at: at(3),
    };
    assert_eq!(Record::OwnershipClaim(row.clone()).key(), key);
    assert_eq!(
        process_ownership_claimed_event(&event, &seen(Some(false)), hash(0x66), at(3)),
        Request::Insert(Record::OwnershipClaim(row))
    );
}

#[test]
fn ownership_claim_without_transaction_is_malformed() {
    let event =
        OwnershipClaimedFilter { new_owner: address(ADDRESS_A), old_owner: address(ADDRESS_B) };
    for observed in [Observed::nothing(), seen(Some(false)), seen(Some(true))] {
        assert_eq!(
            process_ownership_claimed_event(&event, &observed, None, at(3)),
            Request::Skip(Skip::Malformed)
        );
    }
}

#[test]
fn claims_of_other_transactions_or_owners_have_other_keys() {
    let event =
        OwnershipClaimedFilter { new_owner: address(ADDRESS_A), old_owner: address(ADDRESS_B) };
    let back =
        OwnershipClaimedFilter { new_owner: address(ADDRESS_B), old_owner: address(ADDRESS_A) };
    let nothing = Observed::nothing();
    let first = process_ownership_claimed_event(&event, &nothing, hash(1), at(3));
    assert_ne!(first, process_ownership_claimed_event(&event, &nothing, hash(2), at(3)));
    assert_ne!(first, process_ownership_claimed_event(&back, &nothing, hash(1), at(3)));
    assert_eq!(first, process_ownership_claimed_event(&event, &nothing, hash(1), at(9)));
}

#[test]
fn requests_with_a_given_address_text() {
    let fresh = seen(Some(false));
    let user = UserRegisteredFilter { user_address: [0; 20], username: "carol".to_string() };
    assert_eq!(
        user_registered_request_with("0xUser".to_string(), &user, &Observed::nothing(), None, at(1)),
        check(Table::UsersInfo, "0xUser")
    );
    assert_eq!(
        user_registered_request_with("0xUser".to_string(), &user, &fresh, hash(0x44), at(1)),
        Request::Insert(Record::User(NewUserInfo {
            user_address: "0xUser".to_string(),
            username: "carol".to_string(),
            is_registered: true,
            created_at: at(1),
            tnx_hash: "0x4444444444444444444444444444444444444444444444444444444444444444"
                .to_string(),
        }))
    );
    assert_eq!(
        contract_created_request_with("0xC".to_string(), "0xO".to_string(), &fresh, hash(0x22)),
        Request::Insert(Record::ContractCreated(NewContractCreated {
            contract_address: "0xC".to_string(),
            owner: "0xO".to_string(),
            tnx_hash: "0x2222222222222222222222222222222222222222222222222222222222222222"
                .to_string(),
        }))
    );
    assert_eq!(
        ownership_created_request_with("0xC".to_string(), "0xO".to_string(), &fresh, None, at(2)),
        Request::Skip(Skip::Malformed)
    );
    assert_eq!(
        ownership_created_request_with(
            "0xC".to_string(),
            "0xO".to_string(),
            &Observed::nothing(),
            hash(1),
            at(2)
        ),
        check(Table::Contracts, "0xC")
    );
    assert_eq!(
        authenticity_set_request_with("0xAuth".to_string(), &fresh, hash(0x88), at(4)),
        Request::Insert(Record::AuthenticitySetting(NewAuthenticitySetting {
            authenticity_address: "0xAuth".to_string(),
            tnx_hash: "0x8888888888888888888888888888888888888888888888888888888888888888"
                .to_string(),
            created_at: at(4),
        }))
    );
    let registered = ManufacturerRegisteredFilter { manufacturer_address: [7; 20] };
    assert_eq!(
        manufacturer_registered_request_with(
            "0xMaker".to_string(),
            &registered,
            &Observed::nothing(),
            hash(1),
            at(0)
        ),
        check(Table::ManufacturersInfo, "0xMaker")
    );
    assert_eq!(
        manufacturer_registered_request_with("0xMaker".to_string(), &registered, &fresh, hash(1), at(0)),
        Request::Read(ReadCall::GetManufacturer { address: [7; 20] })
    );
    let item = ItemCreatedFilter { item_id: "item-9".to_string(), owner: [0; 20] };
    let read =
        Observed { exists: Some(false), manufacturer: None, item: Some(item_state([8, 0, 0, 0])) };
    match item_created_request_with("0xOwner".to_string(), &item, &read, hash(5), at(6)) {
        Request::Insert(Record::Item(row)) => {
            assert_eq!(row.owner, "0xOwner");
            assert_eq!(row.item_id, "item-9");
            assert_eq!(row.date, 8);
        }
        other => panic!("unexpected request {:?}", other),
    }
    assert_eq!(
        ownership_claimed_request_with(
            "0xNew".to_string(),
            "0xOld".to_string(),
            &Observed::nothing(),
            Some("0xhash".to_string()),
            at(7)
        ),
        check(Table::OwnershipClaims, "0xhash:0xNew:0xOld")
    );
    assert_eq!(
        ownership_claimed_request_with(
            "0xNew".to_string(),
            "0xOld".to_string(),
            &fresh,
            Some("0xhash".to_string()),
            at(7)
        ),
        Request::Insert(Record::OwnershipClaim(NewOwnershipClaim {
            item_id: String::new(),
            new_owner: "0xNew".to_string(),
            old_owner: "0xOld".to_string(),
            tnx_hash: "0xhash".to_string(),
            created_at: at(7),
        }))
    );
}

#[test]
fn stored_addresses_are_prefixed_hex_in_some_case() {
    for text in [ADDRESS_A, ADDRESS_B, ADDRESS_C, ADDRESS_D] {
        let event = AuthenticitySetFilter { authenticity_address: address(text) };
        match process_authenticity_set_event(&event, &seen(Some(false)), hash(8), at(4)) {
            Request::Insert(Record::AuthenticitySetting(row)) => {
                assert_eq!(row.authenticity_address.len(), 42);
                assert!(row.authenticity_address.starts_with("0x"));
                assert_eq!(
                    row.authenticity_address.to_lowercase(),
                    hex_with_prefix(&address(text))
                );
            }
            other => panic!("unexpected request {:?}", other),
        }
    }
}

#[test]
fn claim_key_joins_hash_and_owners() {
    assert_eq!(claim_key_text(&"h".to_string(), &"n".to_string(), &"o".to_string()), "h:n:o");
    assert_eq!(claim_key_text(&String::new(), &String::new(), &String::new()), "::");
}

#[test]
fn code_revoked_requests() {
    let mut item_hash = [0u8; 32];
    item_hash[0] = 0xAB;
    item_hash[31] = 0x0c;
    let key = "0xab0000000000000000000000000000000000000000000000000000000000000c";
    let event = CodeRevokedFilter { item_hash };
    assert_eq!(
        process_code_revoked_event(&event, &Observed::nothing(), hash(7), at(2)),
        check(Table::CodeRevokations, key)
    );
    assert_eq!(
        process_code_revoked_event(&event, &seen(Some(true)), hash(7), at(2)),
        Request::Skip(Skip::Duplicate)
    );
    assert_eq!(
        process_code_revoked_event(&event, &seen(Some(false)), None, at(2)),
        Request::Skip(Skip::Malformed)
    );
    assert_eq!(
        process_code_revoked_event(&event, &seen(Some(false)), hash(0x77), at(2)),
        Request::Insert(Record::CodeRevokation(NewCodeRevokation {
            item_hash: key.to_string(),
            tnx_hash: "0x7777777777777777777777777777777777777777777777777777777777777777"
                .to_string(),
            created_at: at(2),
        }))
    );
}

#[test]
fn authenticity_set_requests() {
    let event = AuthenticitySetFilter { authenticity_address: address(ADDRESS_C) };
    assert_eq!(
        process_authenticity_set_event(&event, &Observed::nothing(), hash(8), at(4)),
        check(Table::AuthenticitySettings, ADDRESS_C)
    );
    assert_eq!(
        process_authenticity_set_event(&event, &seen(Some(true)), hash(8), at(4)),
        Request::Skip(Skip::Duplicate)
    );
    assert_eq!(
        process_authenticity_set_event(&event, &seen(Some(false)), None, at(4)),
        Request::Skip(Skip::Malformed)
    );
    assert_eq!(
        process_authenticity_set_event(&event, &seen(Some(false)), hash(0x88), at(4)),
        Request::Insert(Record::AuthenticitySetting(NewAuthenticitySetting {
            authenticity_address: ADDRESS_C.to_string(),
            tnx_hash: "0x8888888888888888888888888888888888888888888888888888888888888888"
                .to_string(),
            created_at: at(4),
        }))
    );
}

#[test]
fn checksum_differs_from_plain_hex() {
    let event = AuthenticitySetFilter { authenticity_address: address(ADDRESS_A) };
    let request = process_authenticity_set_event(&event, &Observed::nothing(), hash(8), at(4));
    match request {
        Request::Exists { key, .. } => {
            assert_eq!(key, ADDRESS_A);
            assert_ne!(key, ADDRESS_A.to_lowercase());
            assert_ne!(key, hex_with_prefix(&address(ADDRESS_A)));
        }
        other => panic!("unexpected request {:?}", other),
    }
}

#[test]
fn router_discards_informational_kinds() {
    let meta = LogMeta { transaction_hash: Some([9; 32]), block_number: 1 };
    let nothing = Observed::nothing();
    assert_eq!(
        route_authenticity_event(&AuthenticityEvents::Eip712DomainChangedFilter, &meta, &nothing),
        Request::Skip(Skip::Informational)
    );
    assert_eq!(
        route_ownership_event(&OwnershipEvents::Eip712DomainChangedFilter, &meta, &nothing),
        Request::Skip(Skip::Informational)
    );
    let code = OwnershipEvents::OwnershipCodeFilter(OwnershipCodeFilter {
        ownership_code: [1; 32],
        temp_owner: address(ADDRESS_A),
    });
    assert_eq!(route_ownership_event(&code, &meta, &nothing), Request::Skip(Skip::Informational));
    assert_eq!(code.kind(), EventKind::OwnershipCode);
    assert!(code.kind().is_discarded());
}

#[test]
fn router_dispatches_each_authenticity_kind() {
    let meta = LogMeta { transaction_hash: Some([0x11; 32]), block_number: 1 };
    let nothing = Observed::nothing();
    let registered = ManufacturerRegisteredFilter { manufacturer_address: address(ADDRESS_A) };
    let event = AuthenticityEvents::ManufacturerRegisteredFilter(registered);
    assert_eq!(event.kind(), EventKind::ManufacturerRegistered);
    assert_eq!(
        route_authenticity_event_at(&event, &meta, &nothing, at(1)),
        process_manufacturer_registered_event(&registered, &nothing, hash(0x11), at(1))
    );
    let created =
        ContractCreatedFilter { contract_address: address(ADDRESS_B), owner: address(ADDRESS_C) };
    let event = AuthenticityEvents::ContractCreatedFilter(created);
    assert_eq!(event.kind(), EventKind::ContractCreated);
    assert_eq!(
        route_authenticity_event_at(&event, &meta, &seen(Some(false)), at(1)),
        process_contract_created_event(&created, &seen(Some(false)), hash(0x11))
    );
    assert_eq!(
        AuthenticityEvents::Eip712DomainChangedFilter.kind(),
        EventKind::AuthenticityDomainChanged
    );
}

#[test]
fn router_dispatches_each_ownership_kind() {
    let meta = LogMeta { transaction_hash: Some([0x12; 32]), block_number: 1 };
    let fresh = seen(Some(false));
    let now = at(50);
    let created =
        OwnershipCreatedFilter { contract_address: address(ADDRESS_A), owner: address(ADDRESS_B) };
    let event = OwnershipEvents::OwnershipCreatedFilter(created);
    assert_eq!(event.kind(), EventKind::OwnershipCreated);
    assert_eq!(
        route_ownership_event_at(&event, &meta, &fresh, now),
        process_ownership_created_event(&created, &fresh, hash(0x12), now)
    );
    let user =
        UserRegisteredFilter { user_address: address(ADDRESS_B), username: "bob".to_string() };
    let event = OwnershipEvents::UserRegisteredFilter(user.clone());
    assert_eq!(event.kind(), EventKind::UserRegistered);
    assert_eq!(
        route_ownership_event_at(&event, &meta, &fresh, now),
        process_user_registered_event(&user, &fresh, hash(0x12), now)
    );
    let item = ItemCreatedFilter { item_id: "i".to_string(), owner: address(ADDRESS_C) };
    let event = OwnershipEvents::ItemCreatedFilter(item.clone());
    assert_eq!(event.kind(), EventKind::ItemCreated);
    let read =
        Observed { exists: Some(false), manufacturer: None, item: Some(item_state([3, 0, 0, 0])) };
    assert_eq!(
        route_ownership_event_at(&event, &meta, &read, now),
        process_item_created_event(&item, &read, hash(0x12), now)
    );
    let claimed =
        OwnershipClaimedFilter { new_owner: address(ADDRESS_C), old_owner: address(ADDRESS_D) };
    let event = OwnershipEvents::OwnershipClaimedFilter(claimed);
    assert_eq!(event.kind(), EventKind::OwnershipClaimed);
    assert_eq!(
        route_ownership_event_at(&event, &meta, &fresh, now),
        process_ownership_claimed_event(&claimed, &fresh, hash(0x12), now)
    );
    let revoked = CodeRevokedFilter { item_hash: [0x5a; 32] };
    let event = OwnershipEvents::CodeRevokedFilter(revoked);
    assert_eq!(event.kind(), EventKind::CodeRevoked);
    assert_eq!(
        route_ownership_event_at(&event, &meta, &fresh, now),
        process_code_revoked_event(&revoked, &fresh, hash(0x12), now)
    );
    let set = AuthenticitySetFilter { authenticity_address: address(ADDRESS_D) };
    let event = OwnershipEvents::AuthenticitySetFilter(set);
    assert_eq!(event.kind(), EventKind::AuthenticitySet);
    assert_eq!(
        route_ownership_event_at(&event, &meta, &fresh, now),
        process_authenticity_set_event(&set, &fresh, hash(0x12), now)
    );
    assert_eq!(
        OwnershipEvents::Eip712DomainChangedFilter.kind(),
        EventKind::OwnershipDomainChanged
    );
}

#[test]
fn routed_rows_bear_the_time_of_routing() {
    let meta = LogMeta { transaction_hash: Some([0x13; 32]), block_number: 1 };
    let claimed =
        OwnershipClaimedFilter { new_owner: address(ADDRESS_C), old_owner: address(ADDRESS_D) };
    let before = chrono::Utc::now().naive_utc();
    let request = route_ownership_event(
        &OwnershipEvents::OwnershipClaimedFilter(claimed),
        &meta,
        &seen(Some(false)),
    );
    let after = chrono::Utc::now().naive_utc();
    match request {
        Request::Insert(Record::OwnershipClaim(row)) => {
            assert!(before <= row.created_at && row.created_at <= after);
            assert_eq!(row.item_id, "");
            assert_eq!(row.new_owner, ADDRESS_C);
        }
        other => panic!("unexpected request {:?}", other),
    }
}

#[test]
fn record_table_and_key() {
    let user = Record::User(NewUserInfo {
        user_address: "u".to_string(),
        username: "n".to_string(),
        is_registered: true,
        created_at: at(0),
        tnx_hash: "t".to_string(),
    });
    assert_eq!(user.table(), Table::UsersInfo);
    assert_eq!(user.key(), "u");
    let claim = Record::OwnershipClaim(NewOwnershipClaim {
        item_id: String::new(),
        new_owner: "a".to_string(),
        old_owner: "b".to_string(),
        tnx_hash: "t".to_string(),
        created_at: at(0),
    });
    assert_eq!(claim.table(), Table::OwnershipClaims);
    assert_eq!(claim.key(), "t:a:b");
    let revoked = Record::CodeRevokation(NewCodeRevokation {
        item_hash: "0x01".to_string(),
        tnx_hash: "t".to_string(),
        created_at: at(0),
    });
    assert_eq!(revoked.table(), Table::CodeRevokations);
    assert_eq!(revoked.key(), "0x01");
    assert_eq!(revoked.clone(), revoked);
}

#[test]
fn router_paths_are_the_standard_ones() {
    let paths = RouterPath::init();
    assert_eq!(paths.generate_signature, "/generate_signature");
    assert_eq!(paths.verify_authenticity, "/verify_authenticity");
    assert_eq!(paths.sign_up, "/manufacturer_registers");
    assert_eq!(paths.get_owner, "/get_owner/{address}");
    assert_eq!(paths.verify_signature, "/verify_signature");
    assert_eq!(paths.create_certificate, "/create_certificate");
    assert_eq!(paths.qr_code, "/qr_code");
    assert_eq!(paths.get_manufacturer, "/api/manufacturer");
    assert_eq!(paths.manufacturer_name_exists, "/api/manufacturer/exists");
    assert_eq!(paths.get_user, "/api/user/get");
    assert_eq!(paths.is_user_exist, "/api/user/exists");
    assert_eq!(paths.get_my_items, "/api/items/owner");
    assert_eq!(paths.transfer_ownership, "/api/transfer_ownership");
    assert_eq!(paths.transfer_code, "/api/get_transfer_code");
}
