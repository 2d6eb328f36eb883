//! The event router: one handler, or an explicit discard, for every kind of
//! event of each registry.

use crate::clock::current_time;
use crate::events::{
    transaction_text, AuthenticityEvents, Domain, EventKind, LogMeta, OwnershipEvents,
};
use crate::writer::{
    authenticity_set_request, code_revoked_request, contract_created_request,
    item_created_request, manufacturer_registered_request, ownership_claimed_request,
    ownership_created_request, process_authenticity_set_event, process_code_revoked_event,
    process_contract_created_event, process_item_created_event,
    process_manufacturer_registered_event, process_ownership_claimed_event,
    process_ownership_created_event, process_user_registered_event, user_registered_request,
    Observed, Request, RequestView, Skip,
};
use chrono::NaiveDateTime;
use vstd::prelude::*;

verus! {

impl EventKind {
    /// The registry that emits events of this kind.
    pub open spec fn spec_domain(&self) -> Domain {
        match *self {
            EventKind::ManufacturerRegistered => Domain::Authenticity,
            EventKind::ContractCreated => Domain::Authenticity,
            EventKind::AuthenticityDomainChanged => Domain::Authenticity,
            EventKind::OwnershipCreated => Domain::Ownership,
            EventKind::UserRegistered => Domain::Ownership,
            EventKind::OwnershipCode => Domain::Ownership,
            EventKind::ItemCreated => Domain::Ownership,
            EventKind::OwnershipClaimed => Domain::Ownership,
            EventKind::CodeRevoked => Domain::Ownership,
            EventKind::AuthenticitySet => Domain::Ownership,
            EventKind::OwnershipDomainChanged => Domain::Ownership,
        }
    }

    /// The registry that emits events of this kind.
    #[verifier::when_used_as_spec(spec_domain)]
    pub fn domain(&self) -> (domain: Domain)
        ensures
            domain == self.spec_domain(),
    {
        match self {
            EventKind::ManufacturerRegistered
            | EventKind::ContractCreated
            | EventKind::AuthenticityDomainChanged => Domain::Authenticity,
            _ => Domain::Ownership,
        }
    }

    /// Whether a historical scan queries events of this kind: every kind
    /// but the two typed-data domain changes, which are heard on the live
    /// stream only.
    pub open spec fn spec_is_scanned(&self) -> bool {
        match *self {
            EventKind::AuthenticityDomainChanged => false,
            EventKind::OwnershipDomainChanged => false,
            _ => true,
        }
    }

    /// Whether a historical scan queries events of this kind.
    #[verifier::when_used_as_spec(spec_is_scanned)]
    pub fn is_scanned(&self) -> (scanned: bool)
        ensures
            scanned == self.spec_is_scanned(),
    {
        match self {
            EventKind::AuthenticityDomainChanged | EventKind::OwnershipDomainChanged => false,
            _ => true,
        }
    }

    /// Whether events of this kind are acknowledged and dropped. The two
    /// typed-data domain changes say nothing of the registries' entities.
    /// An ownership code is dropped too: the read-model has no table for
    /// codes, so there is nothing to write for one. It is still queried by
    /// the historical scan, as every kind of its registry's entities is.
    pub open spec fn spec_is_discarded(&self) -> bool {
        match *self {
            EventKind::AuthenticityDomainChanged => true,
            EventKind::OwnershipDomainChanged => true,
            EventKind::OwnershipCode => true,
            _ => false,
        }
    }

    /// Whether events of this kind are acknowledged and dropped.
    #[verifier::when_used_as_spec(spec_is_discarded)]
    pub fn is_discarded(&self) -> (discarded: bool)
        ensures
            discarded == self.spec_is_discarded(),
    {
        match self {
            EventKind::AuthenticityDomainChanged
            | EventKind::OwnershipDomainChanged
            | EventKind::OwnershipCode => true,
            _ => false,
        }
    }
}

/// The kinds that a historical scan queries for a registry, in query order.
pub open spec fn backfill_kinds(domain: Domain) -> Seq<EventKind> {
    match domain {
        Domain::Authenticity => seq![EventKind::ManufacturerRegistered, EventKind::ContractCreated],
        Domain::Ownership => seq![
            EventKind::OwnershipCreated,
            EventKind::UserRegistered,
            EventKind::OwnershipCode,
            EventKind::ItemCreated,
            EventKind::OwnershipClaimed,
            EventKind::CodeRevoked,
            EventKind::AuthenticitySet,
        ],
    }
}

/// The number of kinds that a historical scan queries for a registry.
pub fn backfill_kind_count(domain: Domain) -> (count: usize)
    ensures
        count == backfill_kinds(domain).len(),
        count >= 1,
{
    match domain {
        Domain::Authenticity => 2,
        Domain::Ownership => 7,
    }
}

/// The kind at a position of a registry's query order; none beyond its end.
pub fn backfill_kind(domain: Domain, index: usize) -> (kind: Option<EventKind>)
    ensures
        index < backfill_kinds(domain).len() ==> kind == Some(backfill_kinds(domain)[index as int]),
        index >= backfill_kinds(domain).len() ==> kind.is_none(),
{
    match domain {
        Domain::Authenticity => if index == 0 {
            Some(EventKind::ManufacturerRegistered)
        } else if index == 1 {
            Some(EventKind::ContractCreated)
        } else {
            None
        },
        Domain::Ownership => if index == 0 {
            Some(EventKind::OwnershipCreated)
        } else if index == 1 {
            Some(EventKind::UserRegistered)
        } else if index == 2 {
            Some(EventKind::OwnershipCode)
        } else if index == 3 {
            Some(EventKind::ItemCreated)
        } else if index == 4 {
            Some(EventKind::OwnershipClaimed)
        } else if index == 5 {
            Some(EventKind::CodeRevoked)
        } else if index == 6 {
            Some(EventKind::AuthenticitySet)
        } else {
            None
        },
    }
}

/// What an event of the authenticity registry asks for, at one reading of
/// the clock.
pub open spec fn authenticity_request(
    event: AuthenticityEvents,
    meta: LogMeta,
    observed: Observed,
    now: NaiveDateTime,
) -> RequestView {
    match event {
        AuthenticityEvents::ManufacturerRegisteredFilter(e) => manufacturer_registered_request(
            e,
            observed,
            transaction_text(meta),
            now,
        ),
        AuthenticityEvents::ContractCreatedFilter(e) => contract_created_request(
            e,
            observed,
            transaction_text(meta),
        ),
        AuthenticityEvents::Eip712DomainChangedFilter => RequestView::Skip(Skip::Informational),
    }
}

/// What an event of the ownership registry asks for, at one reading of the
/// clock.
pub open spec fn ownership_request(
    event: OwnershipEvents,
    meta: LogMeta,
    observed: Observed,
    now: NaiveDateTime,
) -> RequestView {
    match event {
        OwnershipEvents::OwnershipCreatedFilter(e) => ownership_created_request(
            e,
            observed,
            transaction_text(meta),
            now,
        ),
        OwnershipEvents::UserRegisteredFilter(e) => user_registered_request(
            e,
            observed,
            transaction_text(meta),
            now,
        ),
        OwnershipEvents::OwnershipCodeFilter(_) => RequestView::Skip(Skip::Informational),
        OwnershipEvents::ItemCreatedFilter(e) => item_created_request(
            e,
            observed,
            transaction_text(meta),
            now,
        ),
        OwnershipEvents::OwnershipClaimedFilter(e) => ownership_claimed_request(
            e,
            observed,
            transaction_text(meta),
            now,
        ),
        OwnershipEvents::CodeRevokedFilter(e) => code_revoked_request(
            e,
            observed,
            transaction_text(meta),
            now,
        ),
        OwnershipEvents::AuthenticitySetFilter(e) => authenticity_set_request(
            e,
            observed,
            transaction_text(meta),
            now,
        ),
        OwnershipEvents::Eip712DomainChangedFilter => RequestView::Skip(Skip::Informational),
    }
}

/// Dispatches an event of the authenticity registry to its handler, with
/// the time that a new row is to carry.
pub fn route_authenticity_event_at(
    event: &AuthenticityEvents,
    meta: &LogMeta,
    observed: &Observed,
    now: NaiveDateTime,
) -> (request: Request)
    ensures
        request@ == authenticity_request(*event, *meta, *observed, now),
        request@ matches RequestView::Insert(record) ==> record.addresses_are_text(),
{
    match event {
        AuthenticityEvents::ManufacturerRegisteredFilter(e) => {
            process_manufacturer_registered_event(e, observed, meta.transaction_hash_text(), now)
        },
        AuthenticityEvents::ContractCreatedFilter(e) => {
            process_contract_created_event(e, observed, meta.transaction_hash_text())
        },
        AuthenticityEvents::Eip712DomainChangedFilter => Request::Skip(Skip::Informational),
    }
}

/// Dispatches an event of the ownership registry to its handler, with the
/// time that a new row is to carry.
pub fn route_ownership_event_at(
    event: &OwnershipEvents,
    meta: &LogMeta,
    observed: &Observed,
    now: NaiveDateTime,
) -> (request: Request)
    ensures
        request@ == ownership_request(*event, *meta, *observed, now),
        request@ matches RequestView::Insert(record) ==> record.addresses_are_text(),
{
    match event {
        OwnershipEvents::OwnershipCreatedFilter(e) => {
            process_ownership_created_event(e, observed, meta.transaction_hash_text(), now)
        },
        OwnershipEvents::UserRegisteredFilter(e) => {
            process_user_registered_event(e, observed, meta.transaction_hash_text(), now)
        },
        OwnershipEvents::OwnershipCodeFilter(_) => Request::Skip(Skip::Informational),
        OwnershipEvents::ItemCreatedFilter(e) => {
            process_item_created_event(e, observed, meta.transaction_hash_text(), now)
        },
        OwnershipEvents::OwnershipClaimedFilter(e) => {
            process_ownership_claimed_event(e, observed, meta.transaction_hash_text(), now)
        },
        OwnershipEvents::CodeRevokedFilter(e) => {
            process_code_revoked_event(e, observed, meta.transaction_hash_text(), now)
        },
        OwnershipEvents::AuthenticitySetFilter(e) => {
            process_authenticity_set_event(e, observed, meta.transaction_hash_text(), now)
        },
        OwnershipEvents::Eip712DomainChangedFilter => Request::Skip(Skip::Informational),
    }
}

/// Routes an event of the authenticity registry. A row that the request
/// carries bears the time of this call.
pub fn route_authenticity_event(
    event: &AuthenticityEvents,
    meta: &LogMeta,
    observed: &Observed,
) -> (request: Request)
    ensures
        exists|now: NaiveDateTime|
            request@ == #[trigger] authenticity_request(*event, *meta, *observed, now),
        request@ matches RequestView::Insert(record) ==> record.addresses_are_text(),
{
    let now = current_time();
    route_authenticity_event_at(event, meta, observed, now)
}

/// Routes an event of the ownership registry. A row that the request
/// carries bears the time of this call.
pub fn route_ownership_event(
    event: &OwnershipEvents,
    meta: &LogMeta,
    observed: &Observed,
) -> (request: Request)
    ensures
        exists|now: NaiveDateTime|
            request@ == #[trigger] ownership_request(*event, *meta, *observed, now),
        request@ matches RequestView::Insert(record) ==> record.addresses_are_text(),
{
    let now = current_time();
    route_ownership_event_at(event, meta, observed, now)
}

/// The historical scan of a registry queries each kind of that registry
/// but its typed-data domain change, once, and no kind of the other
/// registry. So every kind that has a handler is scanned, and the only kind
/// that is scanned and then dropped is the ownership code.
pub proof fn lemma_every_kind_routed(kind: EventKind)
    ensures
        backfill_kinds(kind.spec_domain()).contains(kind) <==> kind.spec_is_scanned(),
        !kind.spec_is_discarded() ==> kind.spec_is_scanned(),
        kind.spec_is_discarded() && kind.spec_is_scanned() <==> kind == EventKind::OwnershipCode,
        forall|i: int, j: int|
            0 <= i < j < backfill_kinds(kind.spec_domain()).len() ==> backfill_kinds(
                kind.spec_domain(),
            )[i] != backfill_kinds(kind.spec_domain())[j],
        forall|i: int|
            0 <= i < backfill_kinds(kind.spec_domain()).len() ==> (#[trigger] backfill_kinds(
                kind.spec_domain(),
            )[i]).spec_domain() == kind.spec_domain(),
{
    let kinds = backfill_kinds(kind.spec_domain());
    match kind {
        EventKind::ManufacturerRegistered => assert(kinds[0] == kind),
        EventKind::ContractCreated => assert(kinds[1] == kind),
        EventKind::OwnershipCreated => assert(kinds[0] == kind),
        EventKind::UserRegistered => assert(kinds[1] == kind),
        EventKind::OwnershipCode => assert(kinds[2] == kind),
        EventKind::ItemCreated => assert(kinds[3] == kind),
        EventKind::OwnershipClaimed => assert(kinds[4] == kind),
        EventKind::CodeRevoked => assert(kinds[5] == kind),
        EventKind::AuthenticitySet => assert(kinds[6] == kind),
        _ => {},
    }
}

/// The router drops an event at once exactly where its kind is a discarded
/// one; an event of any other kind is handed to that kind's handler, whose
/// first request is never an informational skip.
pub proof fn lemma_discard_is_explicit(
    authenticity: AuthenticityEvents,
    ownership: OwnershipEvents,
    meta: LogMeta,
    observed: Observed,
    now: NaiveDateTime,
)
    ensures
        authenticity_request(authenticity, meta, observed, now) == RequestView::Skip(
            Skip::Informational,
        ) <==> authenticity.spec_kind().spec_is_discarded(),
        ownership_request(ownership, meta, observed, now) == RequestView::Skip(Skip::Informational)
            <==> ownership.spec_kind().spec_is_discarded(),
        authenticity.spec_kind().spec_domain() == Domain::Authenticity,
        ownership.spec_kind().spec_domain() == Domain::Ownership,
{
}

} // verus!
