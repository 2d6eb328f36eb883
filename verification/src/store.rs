//! A mathematical model of the relational store and of the delivery of one
//! event to it, and what the idempotent writer guarantees over that model.

use crate::events::{
    transaction_text, AuthenticityEvents, ItemState, LogMeta, ManufacturerState, OwnershipEvents,
};
use crate::encoding::{checksum_text, prefixed_hex};
use crate::records::{claim_key, RecordView, Table};
use crate::router::{authenticity_request, ownership_request};
use crate::writer::{
    date_seconds, manufacturer_row, ownership_claim_row, Observed, ReadCallView, RequestView,
};
use chrono::NaiveDateTime;
use vstd::prelude::*;

verus! {

/// The rows of the read-model, in the order of their insertion.
pub struct Store {
    pub rows: Seq<RecordView>,
}

/// What the registries answer to the reads that an event's handler asks for.
pub struct Registries {
    pub manufacturer: ManufacturerState,
    pub item: ItemState,
}

/// The number of rows of `table` with the key `key`.
pub open spec fn count_rows(rows: Seq<RecordView>, table: Table, key: Seq<char>) -> nat
    decreases rows.len(),
{
    if rows.len() == 0 {
        0
    } else {
        let rest = count_rows(rows.drop_last(), table, key);
        if rows.last().table() == table && rows.last().key() == key {
            rest + 1
        } else {
            rest
        }
    }
}

impl Store {
    /// The number of rows of `table` with the key `key`.
    pub open spec fn count(self, table: Table, key: Seq<char>) -> nat {
        count_rows(self.rows, table, key)
    }

    /// The existence check: whether the count of rows with the key exceeds
    /// zero.
    pub open spec fn holds(self, table: Table, key: Seq<char>) -> bool {
        self.count(table, key) > 0
    }

    /// The store with one more row.
    pub open spec fn insert(self, record: RecordView) -> Store {
        Store { rows: self.rows.push(record) }
    }

    /// No key occurs twice in a table.
    pub open spec fn keys_unique(self) -> bool {
        forall|table: Table, key: Seq<char>| #[trigger] self.count(table, key) <= 1
    }
}

/// The observations after the store and the registries have answered a
/// request.
pub open spec fn answered(
    store: Store,
    registries: Registries,
    observed: Observed,
    request: RequestView,
) -> Observed {
    match request {
        RequestView::Exists { table, key } => Observed {
            exists: Some(store.holds(table, key)),
            manufacturer: observed.manufacturer,
            item: observed.item,
        },
        RequestView::Read(ReadCallView::GetManufacturer { .. }) => Observed {
            exists: observed.exists,
            manufacturer: Some(registries.manufacturer),
            item: observed.item,
        },
        RequestView::Read(ReadCallView::GetItem { .. }) => Observed {
            exists: observed.exists,
            manufacturer: observed.manufacturer,
            item: Some(registries.item),
        },
        _ => observed,
    }
}

/// Whether a request ends the processing of its event.
pub open spec fn is_final(request: RequestView) -> bool {
    request is Insert || request is Skip || request is Fail
}

/// The request that a handler arrives at when each of its questions is
/// answered and the handler asked again, for at most `rounds` questions.
pub open spec fn final_request(
    store: Store,
    registries: Registries,
    handler: spec_fn(Observed) -> RequestView,
    observed: Observed,
    rounds: nat,
) -> RequestView
    decreases rounds,
{
    let request = handler(observed);
    if is_final(request) || rounds == 0 {
        request
    } else {
        final_request(
            store,
            registries,
            handler,
            answered(store, registries, observed, request),
            (rounds - 1) as nat,
        )
    }
}

/// The store after a handler has been followed to its end: an insert adds
/// its row, a skip or a failure leaves the store as it was.
pub open spec fn delivered(
    store: Store,
    registries: Registries,
    handler: spec_fn(Observed) -> RequestView,
    observed: Observed,
    rounds: nat,
) -> Store {
    match final_request(store, registries, handler, observed, rounds) {
        RequestView::Insert(record) => store.insert(record),
        _ => store,
    }
}

/// The store after an event of the authenticity registry has been routed
/// and its requests carried out.
pub open spec fn deliver_authenticity(
    store: Store,
    registries: Registries,
    event: AuthenticityEvents,
    meta: LogMeta,
    now: NaiveDateTime,
) -> Store {
    delivered(
        store,
        registries,
        |observed: Observed| authenticity_request(event, meta, observed, now),
        Observed::spec_nothing(),
        2,
    )
}

/// The store after an event of the ownership registry has been routed and
/// its requests carried out.
pub open spec fn deliver_ownership(
    store: Store,
    registries: Registries,
    event: OwnershipEvents,
    meta: LogMeta,
    now: NaiveDateTime,
) -> Store {
    delivered(
        store,
        registries,
        |observed: Observed| ownership_request(event, meta, observed, now),
        Observed::spec_nothing(),
        2,
    )
}

/// The table and key by which an event of the authenticity registry is
/// found again; none for a kind that writes nothing.
pub open spec fn authenticity_key(event: AuthenticityEvents) -> Option<(Table, Seq<char>)> {
    match event {
        AuthenticityEvents::ManufacturerRegisteredFilter(e) => Some(
            (Table::ManufacturersInfo, checksum_text(e.manufacturer_address@)),
        ),
        AuthenticityEvents::ContractCreatedFilter(e) => Some(
            (Table::ContractsCreated, checksum_text(e.contract_address@)),
        ),
        AuthenticityEvents::Eip712DomainChangedFilter => None,
    }
}

/// The table and key by which an event of the ownership registry is found
/// again; none for a kind that writes nothing. A claim of ownership names
/// no item: it is found by the transaction hash of its log and its two
/// owners, and has no key where the log names no transaction.
pub open spec fn ownership_key(event: OwnershipEvents, meta: LogMeta) -> Option<
    (Table, Seq<char>),
> {
    match event {
        OwnershipEvents::OwnershipCreatedFilter(e) => Some(
            (Table::Contracts, checksum_text(e.contract_address@)),
        ),
        OwnershipEvents::UserRegisteredFilter(e) => Some(
            (Table::UsersInfo, checksum_text(e.user_address@)),
        ),
        OwnershipEvents::ItemCreatedFilter(e) => Some((Table::Items, e.item_id@)),
        OwnershipEvents::OwnershipClaimedFilter(e) => match transaction_text(meta) {
            Some(hash) => Some(
                (
                    Table::OwnershipClaims,
                    claim_key(hash, checksum_text(e.new_owner@), checksum_text(e.old_owner@)),
                ),
            ),
            None => None,
        },
        OwnershipEvents::CodeRevokedFilter(e) => Some(
            (Table::CodeRevokations, prefixed_hex(e.item_hash@)),
        ),
        OwnershipEvents::AuthenticitySetFilter(e) => Some(
            (Table::AuthenticitySettings, checksum_text(e.authenticity_address@)),
        ),
        OwnershipEvents::OwnershipCodeFilter(_) => None,
        OwnershipEvents::Eip712DomainChangedFilter => None,
    }
}

/// An inserted row counts once for its own table and key and for no other.
pub proof fn lemma_count_after_insert(
    store: Store,
    record: RecordView,
    table: Table,
    key: Seq<char>,
)
    ensures
        store.insert(record).count(table, key) == store.count(table, key) + if record.table()
            == table && record.key() == key {
            1nat
        } else {
            0nat
        },
{
    assert(store.rows.push(record).drop_last() =~= store.rows);
}

/// Inserting a row whose key its table does not hold keeps the keys unique.
pub proof fn lemma_insert_keeps_keys_unique(store: Store, record: RecordView)
    requires
        store.keys_unique(),
        !store.holds(record.table(), record.key()),
    ensures
        store.insert(record).keys_unique(),
        store.insert(record).count(record.table(), record.key()) == 1,
{
    assert forall|table: Table, key: Seq<char>| (#[trigger] store.insert(record).count(
        table,
        key,
    )) <= 1 by {
        lemma_count_after_insert(store, record, table, key);
        assert(store.count(table, key) <= 1);
    }
    lemma_count_after_insert(store, record, record.table(), record.key());
}

/// Delivering an event of the authenticity registry twice leaves exactly
/// what delivering it once leaves. After the first delivery the keys are
/// still unique, the event's key occurs at most once, and exactly once where
/// the log names its transaction; an event without a key changes nothing.
/// The second delivery changes nothing where the registry answers as
/// before, nor, whatever it answers, where the store holds the event's key.
pub proof fn lemma_authenticity_delivery_idempotent(
    store: Store,
    first: Registries,
    second: Registries,
    event: AuthenticityEvents,
    meta: LogMeta,
    now: NaiveDateTime,
    later: NaiveDateTime,
)
    requires
        store.keys_unique(),
    ensures
        ({
            let once = deliver_authenticity(store, first, event, meta, now);
            let twice = deliver_authenticity(once, second, event, meta, later);
            &&& once.keys_unique()
            &&& match authenticity_key(event) {
                Some((table, key)) => {
                    &&& once.count(table, key) <= 1
                    &&& meta.transaction_hash.is_some() ==> once.count(table, key) == 1
                    &&& once.holds(table, key) || second == first ==> twice == once
                },
                None => once == store && twice == store,
            }
        }),
{
    reveal_with_fuel(final_request, 3);
    let once = deliver_authenticity(store, first, event, meta, now);
    match authenticity_key(event) {
        Some((table, key)) => {
            if !store.holds(table, key) && once != store {
                let record = once.rows.last();
                assert(once == store.insert(record));
                lemma_insert_keeps_keys_unique(store, record);
            }
        },
        None => {},
    }
}

/// Delivering an event of the ownership registry twice leaves exactly what
/// delivering it once leaves, for every kind. After the first delivery the
/// keys are still unique and the event's key occurs at most once, and
/// exactly once where the log names its transaction and, for an item, the
/// registry's date fits the column. The second delivery changes nothing
/// where the registry answers as before, nor, whatever it answers, where the
/// store holds the event's key.
pub proof fn lemma_ownership_delivery_idempotent(
    store: Store,
    first: Registries,
    second: Registries,
    event: OwnershipEvents,
    meta: LogMeta,
    now: NaiveDateTime,
    later: NaiveDateTime,
)
    requires
        store.keys_unique(),
    ensures
        ({
            let once = deliver_ownership(store, first, event, meta, now);
            let twice = deliver_ownership(once, second, event, meta, later);
            &&& once.keys_unique()
            &&& match ownership_key(event, meta) {
                Some((table, key)) => {
                    &&& once.count(table, key) <= 1
                    &&& meta.transaction_hash.is_some() && (event is ItemCreatedFilter
                        ==> date_seconds(first.item.date@).is_some()) ==> once.count(table, key)
                        == 1
                    &&& once.holds(table, key) || second == first ==> twice == once
                },
                None => once == store && twice == store,
            }
        }),
{
    reveal_with_fuel(final_request, 3);
    let once = deliver_ownership(store, first, event, meta, now);
    match ownership_key(event, meta) {
        Some((table, key)) => {
            if !store.holds(table, key) && once != store {
                let record = once.rows.last();
                assert(once == store.insert(record));
                lemma_insert_keeps_keys_unique(store, record);
            }
        },
        None => {},
    }
}

/// The name of a newly written manufacturer is the one that the registry
/// returned for the event's address: the event itself carries no name.
pub proof fn lemma_manufacturer_name_is_canonical(
    store: Store,
    registries: Registries,
    event: AuthenticityEvents,
    meta: LogMeta,
    now: NaiveDateTime,
)
    requires
        event is ManufacturerRegisteredFilter,
        meta.transaction_hash.is_some(),
        !store.holds(
            Table::ManufacturersInfo,
            checksum_text(event->ManufacturerRegisteredFilter_0.manufacturer_address@),
        ),
    ensures
        ({
            let row = manufacturer_row(
                checksum_text(event->ManufacturerRegisteredFilter_0.manufacturer_address@),
                registries.manufacturer,
                transaction_text(meta).unwrap(),
                now,
            );
            &&& deliver_authenticity(store, registries, event, meta, now) == store.insert(row)
            &&& row->Manufacturer_0.manufacturer_name == registries.manufacturer.name@
        }),
{
    reveal_with_fuel(final_request, 3);
}

/// A claim of ownership whose log names its transaction is recorded once,
/// with an empty item identifier: the event names no item. Delivered to a
/// store that does not hold its key it adds one row; delivered again,
/// whenever and whatever the registries answer, it adds none.
pub proof fn lemma_claim_is_recorded_once(
    store: Store,
    first: Registries,
    second: Registries,
    event: OwnershipEvents,
    meta: LogMeta,
    now: NaiveDateTime,
    later: NaiveDateTime,
)
    requires
        event is OwnershipClaimedFilter,
        meta.transaction_hash.is_some(),
        store.keys_unique(),
    ensures
        ({
            let claim = event->OwnershipClaimedFilter_0;
            let row = ownership_claim_row(
                checksum_text(claim.new_owner@),
                checksum_text(claim.old_owner@),
                transaction_text(meta).unwrap(),
                now,
            );
            let once = deliver_ownership(store, first, event, meta, now);
            &&& row->OwnershipClaim_0.item_id == Seq::<char>::empty()
            &&& row.table() == Table::OwnershipClaims
            &&& once == if store.holds(row.table(), row.key()) {
                store
            } else {
                store.insert(row)
            }
            &&& once.count(row.table(), row.key()) == 1
            &&& deliver_ownership(once, second, event, meta, later) == once
        }),
{
    lemma_ownership_delivery_idempotent(store, first, second, event, meta, now, later);
    reveal_with_fuel(final_request, 3);
}

/// Every row that a handler asks to insert carries the transaction hash of
/// the event's log; no row is asked for where the log names no transaction.
pub proof fn lemma_inserted_rows_carry_hash(
    authenticity: AuthenticityEvents,
    ownership: OwnershipEvents,
    meta: LogMeta,
    observed: Observed,
    now: NaiveDateTime,
)
    ensures
        authenticity_request(authenticity, meta, observed, now) matches RequestView::Insert(record)
            ==> transaction_text(meta) == Some(record.tnx_hash()),
        ownership_request(ownership, meta, observed, now) matches RequestView::Insert(record)
            ==> transaction_text(meta) == Some(record.tnx_hash()),
{
}

/// No handler asks more than two questions: with both answered, the
/// request of every event is an insert, a skip or a failure, whatever the
/// store holds and the registries answer.
pub proof fn lemma_handlers_end(
    store: Store,
    registries: Registries,
    authenticity: AuthenticityEvents,
    ownership: OwnershipEvents,
    meta: LogMeta,
    now: NaiveDateTime,
)
    ensures
        is_final(
            final_request(
                store,
                registries,
                |observed: Observed| authenticity_request(authenticity, meta, observed, now),
                Observed::spec_nothing(),
                2,
            ),
        ),
        is_final(
            final_request(
                store,
                registries,
                |observed: Observed| ownership_request(ownership, meta, observed, now),
                Observed::spec_nothing(),
                2,
            ),
        ),
{
    reveal_with_fuel(final_request, 3);
}

} // verus!
