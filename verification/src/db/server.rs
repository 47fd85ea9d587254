//! The requests that the database answers.
//!
//! Writes become replicated operations, and what comes of them becomes the reply. Reads look into
//! storage at once.

use vstd::prelude::*;

use crate::bytes::{from_be8, read_be8};
use crate::cluster::{
    applied_index, commit_index, healthy, id_or_nothing, ids_in_decimal, is_healthy, leader_text,
    member_ids, role, role_name,
};
use crate::db::log::{LogEntry, LogEntryView};
use crate::db::rows::{
    StoredTicket, StoredUser, TicketIndexFields, TicketIndexView, TicketView, UserIndexFields,
    UserIndexView, UserView,
};
use crate::db::storage::{
    answer, are_candidates, at_most, failure_text, lookup_ticket, lookup_user, tickets_of, Lookup,
    Storage, StorageError, TicketQuery,
};
use crate::raft::types::NodeMetrics;
use crate::status::{says, status, Code, Status};
use crate::store::{is_listing, pairs_of, starting_with};
use crate::text::{copy_bytes, copy_text, dec, decimal, text_of, texts_of};

verus! {

// ---- Messages ----

/// The index fields of a ticket on the wire.
#[derive(Debug, Clone)]
pub struct WireTicketIndex {
    pub status: u32,
    pub account_uuid: String,
    pub assigned_to_uuid: Option<String>,
    pub project: String,
    pub tracking_url: Option<String>,
    pub created_at_unix: i64,
    pub updated_at_unix: i64,
}

/// The index fields of a user on the wire.
#[derive(Debug, Clone)]
pub struct WireUserIndex {
    pub username: String,
    pub email: String,
    pub role: u32,
}

/// A ticket to write.
#[derive(Debug, Clone)]
pub struct TicketWrite {
    pub ticket_id: u64,
    pub encrypted_body: Vec<u8>,
    pub index: Option<WireTicketIndex>,
}

/// A ticket to look up.
#[derive(Debug, Clone, Copy, PartialEq, Eq, Structural)]
pub struct TicketLookup {
    pub ticket_id: u64,
    pub include_deleted: bool,
}

/// A ticket as it is kept.
#[derive(Debug, Clone)]
pub struct TicketRecord {
    pub ticket_id: u64,
    pub encrypted_body: Vec<u8>,
    pub deleted: bool,
    pub deleted_at_unix: i64,
}

/// A query for tickets on the wire.
#[derive(Debug, Clone)]
pub struct WireTicketQuery {
    pub status: Option<u32>,
    pub assigned_to_uuid: Option<String>,
    pub account_uuid: Option<String>,
    pub project: Option<String>,
    pub include_deleted: bool,
    pub limit: u32,
}

/// A user to write.
#[derive(Debug, Clone)]
pub struct UserWrite {
    pub user_uuid: String,
    pub encrypted_body: Vec<u8>,
    pub index: Option<WireUserIndex>,
}

/// A user to look up.
#[derive(Debug, Clone)]
pub struct UserLookup {
    pub user_uuid: String,
    pub include_deleted: bool,
}

/// A user as it is kept.
#[derive(Debug, Clone)]
pub struct UserRecord {
    pub user_uuid: String,
    pub encrypted_body: Vec<u8>,
    pub deleted: bool,
    pub deleted_at_unix: i64,
}

/// A pair of a collection.
#[derive(Debug, Clone)]
pub struct KeyValue {
    pub key: Vec<u8>,
    pub value: Vec<u8>,
}

/// The value of a key, if it has one.
#[derive(Debug, Clone)]
pub struct GetReply {
    pub found: bool,
    pub value: Vec<u8>,
}

/// How a node does.
#[derive(Debug, Clone)]
pub struct HealthReply {
    pub healthy: bool,
    pub node_id: String,
    pub role: String,
}

/// How the cluster stands.
#[derive(Debug, Clone)]
pub struct ClusterReply {
    pub leader_id: String,
    pub member_ids: Vec<String>,
    pub term: u64,
    pub commit_index: u64,
}

// ---- What the messages mean ----

/// A number that may not fit, or zero.
pub open spec fn byte_or_zero(n: u32) -> u8 {
    if n <= u8::MAX {
        n as u8
    } else {
        0
    }
}

/// The index fields that a ticket's message carries; a missing message counts as an empty one.
pub open spec fn ticket_index_of(idx: Option<WireTicketIndex>) -> TicketIndexView {
    match idx {
        Some(ix) => TicketIndexView {
            status: byte_or_zero(ix.status),
            account_uuid: ix.account_uuid@,
            assigned_to_uuid: text_of(ix.assigned_to_uuid),
            project: ix.project@,
            tracking_url: text_of(ix.tracking_url),
            created_at_unix: ix.created_at_unix,
            updated_at_unix: ix.updated_at_unix,
        },
        None => TicketIndexView {
            status: 0,
            account_uuid: Seq::empty(),
            assigned_to_uuid: None,
            project: Seq::empty(),
            tracking_url: None,
            created_at_unix: 0,
            updated_at_unix: 0,
        },
    }
}

/// The index fields that a user's message carries; a missing message counts as an empty one.
pub open spec fn user_index_of(idx: Option<WireUserIndex>) -> UserIndexView {
    match idx {
        Some(ix) => UserIndexView {
            username: ix.username@,
            email: ix.email@,
            role: byte_or_zero(ix.role),
        },
        None => UserIndexView { username: Seq::empty(), email: Seq::empty(), role: 0 },
    }
}

/// The record shows the ticket.
pub open spec fn shows_ticket(record: TicketRecord, id: u64, t: TicketView) -> bool {
    &&& record.ticket_id == id
    &&& record.encrypted_body@ == t.body
    &&& record.deleted == t.deleted
    &&& record.deleted_at_unix == t.deleted_at_unix
}

/// The record shows the user.
pub open spec fn shows_user(record: UserRecord, user_uuid: Seq<char>, u: UserView) -> bool {
    &&& record.user_uuid@ == user_uuid
    &&& record.encrypted_body@ == u.body
    &&& record.deleted == u.deleted
    &&& record.deleted_at_unix == u.deleted_at_unix
}

/// A query as storage takes it: a status that is no byte asks for any status.
pub open spec fn query_of(req: WireTicketQuery) -> TicketQuery {
    TicketQuery {
        status: match req.status {
            Some(n) => if n <= u8::MAX {
                Some(n as u8)
            } else {
                None
            },
            None => None,
        },
        assigned_to_uuid: req.assigned_to_uuid,
        account_uuid: req.account_uuid,
        project: req.project,
        include_deleted: req.include_deleted,
        limit: req.limit as usize,
    }
}

/// The outcome of a replicated write that failed.
pub open spec fn write_failed(text: Seq<char>) -> crate::status::StatusView {
    status(Code::Internal, "Raft write failed: "@ + text)
}

// ---- Tickets ----

/// Reads the index fields of a ticket from its message.
pub fn ticket_index_from_proto(idx: Option<WireTicketIndex>) -> (out: TicketIndexFields)
    ensures
        out@ == ticket_index_of(idx),
{
    match idx {
        Some(ix) => TicketIndexFields {
            status: if ix.status <= 255 {
                ix.status as u8
            } else {
                0
            },
            account_uuid: ix.account_uuid,
            assigned_to_uuid: ix.assigned_to_uuid,
            project: ix.project,
            tracking_url: ix.tracking_url,
            created_at_unix: ix.created_at_unix,
            updated_at_unix: ix.updated_at_unix,
        },
        None => TicketIndexFields::default(),
    }
}

/// Reads the index fields of a user from its message.
pub fn user_index_from_proto(idx: Option<WireUserIndex>) -> (out: UserIndexFields)
    ensures
        out@ == user_index_of(idx),
{
    match idx {
        Some(ix) => UserIndexFields {
            username: ix.username,
            email: ix.email,
            role: if ix.role <= 255 {
                ix.role as u8
            } else {
                0
            },
        },
        None => UserIndexFields::default(),
    }
}

/// The record of a stored ticket.
pub fn ticket_record(id: u64, stored: &StoredTicket) -> (out: TicketRecord)
    ensures
        shows_ticket(out, id, stored@),
{
    TicketRecord {
        ticket_id: id,
        encrypted_body: copy_bytes(stored.body.as_slice()),
        deleted: stored.deleted,
        deleted_at_unix: stored.deleted_at_unix,
    }
}

/// The record of a stored user.
pub fn user_record(uuid: String, stored: &StoredUser) -> (out: UserRecord)
    ensures
        shows_user(out, uuid@, stored@),
{
    UserRecord {
        user_uuid: uuid,
        encrypted_body: copy_bytes(stored.body.as_slice()),
        deleted: stored.deleted,
        deleted_at_unix: stored.deleted_at_unix,
    }
}

/// The operation that creates a ticket; the id that the request carries is not looked at.
pub fn create_ticket_entry(req: &TicketWrite) -> (out: LogEntry)
    ensures
        out@ == (LogEntryView::CreateTicket {
            body: req.encrypted_body@,
            index: ticket_index_of(req.index),
        }),
{
    let index: Option<WireTicketIndex> = match &req.index {
        Some(ix) => Some(
            WireTicketIndex {
                status: ix.status,
                account_uuid: ix.account_uuid.clone(),
                assigned_to_uuid: copy_text(&ix.assigned_to_uuid),
                project: ix.project.clone(),
                tracking_url: copy_text(&ix.tracking_url),
                created_at_unix: ix.created_at_unix,
                updated_at_unix: ix.updated_at_unix,
            },
        ),
        None => None,
    };
    LogEntry::CreateTicket {
        body: copy_bytes(req.encrypted_body.as_slice()),
        index: ticket_index_from_proto(index),
    }
}

/// The reply to the creation of a ticket: the id comes back as eight big-endian bytes.
pub fn create_ticket_reply(
    req: TicketWrite,
    outcome: Result<Option<Vec<u8>>, String>,
) -> (out: Result<TicketRecord, Status>)
    ensures
        match outcome {
            Err(text) => out matches Err(e) && e@ == write_failed(text@),
            Ok(value) => if value is Some && value->0@.len() == 8 {
                out matches Ok(record) && record == (TicketRecord {
                    ticket_id: from_be8(value->0@),
                    encrypted_body: req.encrypted_body,
                    deleted: false,
                    deleted_at_unix: 0,
                })
            } else {
                out matches Err(e) && e@ == status(
                    Code::Internal,
                    "create_ticket did not return an id"@,
                )
            },
        },
{
    let value: Option<Vec<u8>> = match outcome {
        Ok(value) => value,
        Err(text) => {
            return Err(Status::with(Code::Internal, "Raft write failed: ", text.as_str()));
        },
    };
    let id: Option<u64> = match value {
        Some(bytes) => read_be8(bytes.as_slice()),
        None => None,
    };
    match id {
        Some(ticket_id) => Ok(
            TicketRecord {
                ticket_id,
                encrypted_body: req.encrypted_body,
                deleted: false,
                deleted_at_unix: 0,
            },
        ),
        None => Err(Status::new(Code::Internal, "create_ticket did not return an id")),
    }
}

/// The status of a read that failed.
pub open spec fn read_failed(e: StorageError) -> crate::status::StatusView {
    status(Code::Internal, "Storage read failed: "@ + failure_text(e))
}

/// The reply to a lookup of a ticket, from what storage found.
pub fn ticket_reply(ticket_id: u64, found: Result<Option<StoredTicket>, StorageError>) -> (out: Result<
    TicketRecord,
    Status,
>)
    ensures
        match found {
            Ok(Some(stored)) => out matches Ok(record) && shows_ticket(record, ticket_id, stored@),
            Ok(None) => out matches Err(e) && e@ == status(Code::NotFound, "ticket not found"@),
            Err(failure) => out matches Err(e) && e@ == read_failed(failure),
        },
{
    match found {
        Ok(Some(stored)) => Ok(ticket_record(ticket_id, &stored)),
        Ok(None) => Err(Status::new(Code::NotFound, "ticket not found")),
        Err(e) => Err(
            Status::with(Code::Internal, "Storage read failed: ", e.message().as_str()),
        ),
    }
}

/// Looks a ticket up.
pub fn get_ticket(storage: &Storage, req: &TicketLookup) -> (out: Result<TicketRecord, Status>)
    ensures
        match out {
            Ok(record) => lookup_ticket(storage@, req.ticket_id) matches Lookup::Found(t) && (t.deleted
                ==> req.include_deleted) && shows_ticket(record, req.ticket_id, t),
            Err(e) => {
                ||| e@ == status(Code::NotFound, "ticket not found"@) && (lookup_ticket(
                    storage@,
                    req.ticket_id,
                ) is Missing || (lookup_ticket(storage@, req.ticket_id) matches Lookup::Found(t)
                    && t.deleted && !req.include_deleted))
                ||| says(e, Code::Internal, "Storage read failed: "@)
            },
        },
{
    ticket_reply(req.ticket_id, storage.get_ticket(req.ticket_id, req.include_deleted))
}

/// The operation that updates a ticket.
pub fn update_ticket_entry(req: TicketWrite) -> (out: Result<LogEntry, Status>)
    ensures
        if req.ticket_id == 0 {
            out matches Err(e) && e@ == status(
                Code::InvalidArgument,
                "update_ticket requires a ticket_id"@,
            )
        } else {
            out matches Ok(entry) && entry@ == (LogEntryView::UpdateTicket {
                ticket_id: req.ticket_id,
                body: req.encrypted_body@,
                index: ticket_index_of(req.index),
            })
        },
{
    if req.ticket_id == 0 {
        return Err(Status::new(Code::InvalidArgument, "update_ticket requires a ticket_id"));
    }
    Ok(
        LogEntry::UpdateTicket {
            ticket_id: req.ticket_id,
            body: req.encrypted_body,
            index: ticket_index_from_proto(req.index),
        },
    )
}

/// The reply to the update of a ticket: the ticket is read again, so that its deletion shows.
pub fn update_ticket_reply(
    storage: &Storage,
    ticket_id: u64,
    outcome: Result<(), String>,
) -> (out: Result<TicketRecord, Status>)
    ensures
        match outcome {
            Err(text) => out matches Err(e) && e@ == write_failed(text@),
            Ok(()) => match out {
                Ok(record) => lookup_ticket(storage@, ticket_id) matches Lookup::Found(t)
                    && shows_ticket(record, ticket_id, t),
                Err(e) => {
                    ||| e@ == status(Code::NotFound, "ticket not found"@) && lookup_ticket(
                        storage@,
                        ticket_id,
                    ) is Missing
                    ||| says(e, Code::Internal, "Storage read failed: "@)
                },
            },
        },
{
    match outcome {
        Ok(()) => get_ticket(storage, &TicketLookup { ticket_id, include_deleted: true }),
        Err(text) => Err(Status::with(Code::Internal, "Raft write failed: ", text.as_str())),
    }
}

/// The operation that deletes a ticket at the time `now`.
pub fn soft_delete_ticket_entry(req: &TicketLookup, now: i64) -> (out: LogEntry)
    ensures
        out@ == (LogEntryView::SoftDeleteTicket { ticket_id: req.ticket_id, at_unix: now }),
{
    LogEntry::SoftDeleteTicket { ticket_id: req.ticket_id, at_unix: now }
}

/// The reply to a write that has nothing to tell but whether it was done.
pub fn write_reply(outcome: Result<(), String>) -> (out: Result<bool, Status>)
    ensures
        match outcome {
            Ok(()) => out == Ok::<bool, Status>(true),
            Err(text) => out matches Err(e) && e@ == write_failed(text@),
        },
{
    match outcome {
        Ok(()) => Ok(true),
        Err(text) => Err(Status::with(Code::Internal, "Raft write failed: ", text.as_str())),
    }
}

/// The records show the tickets, one for one.
pub open spec fn shows_tickets(records: Seq<TicketRecord>, found: Seq<(u64, TicketView)>) -> bool {
    &&& records.len() == found.len()
    &&& forall|i: int|
        0 <= i < records.len() ==> shows_ticket(#[trigger] records[i], found[i].0, found[i].1)
}

/// The records show the answer to a query.
pub open spec fn are_answer_records(
    held: crate::db::storage::Held,
    query: TicketQuery,
    records: Seq<TicketRecord>,
) -> bool {
    exists|found: Seq<(u64, TicketView)>| #[trigger]
        crate::db::consistency::is_answer(held, query, found) && shows_tickets(records, found)
}

/// The reply to a query, from what storage found.
pub fn query_reply(found: Result<Vec<(u64, StoredTicket)>, StorageError>) -> (out: Result<
    Vec<TicketRecord>,
    Status,
>)
    ensures
        match found {
            Ok(tickets) => out matches Ok(records) && shows_tickets(
                records@,
                tickets_of(tickets@),
            ),
            Err(failure) => out matches Err(e) && e@ == status(
                Code::Internal,
                "Storage query failed: "@ + failure_text(failure),
            ),
        },
{
    let found: Vec<(u64, StoredTicket)> = match found {
        Ok(found) => found,
        Err(e) => {
            return Err(
                Status::with(Code::Internal, "Storage query failed: ", e.message().as_str()),
            );
        },
    };
    let mut records: Vec<TicketRecord> = Vec::new();
    let ghost all = tickets_of(found@);
    let mut i: usize = 0;
    while i < found.len()
        invariant
            i <= found@.len(),
            all == tickets_of(found@),
            records@.len() == i,
            forall|j: int|
                0 <= j < i ==> shows_ticket(#[trigger] records@[j], all[j].0, all[j].1),
        decreases found@.len() - i,
    {
        records.push(ticket_record(found[i].0, &found[i].1));
        i = i + 1;
    }
    assert(shows_tickets(records@, all));
    Ok(records)
}

/// Queries tickets.
pub fn query_tickets(storage: &Storage, req: WireTicketQuery) -> (out: Result<
    Vec<TicketRecord>,
    Status,
>)
    ensures
        match out {
            Ok(records) => exists|ids: Seq<u64>|
                are_candidates(storage@, query_of(req), ids) && (#[trigger] answer(
                    storage@,
                    query_of(req),
                    ids,
                    ids.len(),
                ) matches Some(found) && shows_tickets(records@, found)),
            Err(e) => says(e, Code::Internal, "Storage query failed: "@),
        },
        crate::db::consistency::tickets_consistent(storage@) ==> (out matches Ok(records)
            ==> are_answer_records(storage@, query_of(req), records@)),
{
    let wanted: Option<u8> = match req.status {
        Some(n) => if n <= 255 {
            Some(n as u8)
        } else {
            None
        },
        None => None,
    };
    let query = TicketQuery {
        status: wanted,
        assigned_to_uuid: req.assigned_to_uuid,
        account_uuid: req.account_uuid,
        project: req.project,
        include_deleted: req.include_deleted,
        limit: req.limit as usize,
    };
    assert(query == query_of(req));
    query_reply(storage.query_tickets(&query))
}

// ---- Users ----

/// The operation that creates a user.
pub fn create_user_entry(req: &UserWrite) -> (out: Result<LogEntry, Status>)
    ensures
        if req.user_uuid@.len() == 0 {
            out matches Err(e) && e@ == status(
                Code::InvalidArgument,
                "create_user requires a user_uuid"@,
            )
        } else {
            out matches Ok(entry) && entry@ == (LogEntryView::CreateUser {
                user_uuid: req.user_uuid@,
                body: req.encrypted_body@,
                index: user_index_of(req.index),
            })
        },
{
    if req.user_uuid.as_str().is_empty() {
        return Err(Status::new(Code::InvalidArgument, "create_user requires a user_uuid"));
    }
    let index: Option<WireUserIndex> = match &req.index {
        Some(ix) => Some(
            WireUserIndex {
                username: ix.username.clone(),
                email: ix.email.clone(),
                role: ix.role,
            },
        ),
        None => None,
    };
    Ok(
        LogEntry::CreateUser {
            user_uuid: req.user_uuid.clone(),
            body: copy_bytes(req.encrypted_body.as_slice()),
            index: user_index_from_proto(index),
        },
    )
}

/// The reply to the creation of a user.
pub fn create_user_reply(req: UserWrite, outcome: Result<(), String>) -> (out: Result<
    UserRecord,
    Status,
>)
    ensures
        match outcome {
            Ok(()) => out == Ok::<UserRecord, Status>(
                UserRecord {
                    user_uuid: req.user_uuid,
                    encrypted_body: req.encrypted_body,
                    deleted: false,
                    deleted_at_unix: 0,
                },
            ),
            Err(text) => out matches Err(e) && e@ == write_failed(text@),
        },
{
    match outcome {
        Ok(()) => Ok(
            UserRecord {
                user_uuid: req.user_uuid,
                encrypted_body: req.encrypted_body,
                deleted: false,
                deleted_at_unix: 0,
            },
        ),
        Err(text) => Err(Status::with(Code::Internal, "Raft write failed: ", text.as_str())),
    }
}

/// The reply to a lookup of a user, from what storage found.
pub fn user_reply(user_uuid: String, found: Result<Option<StoredUser>, StorageError>) -> (out: Result<
    UserRecord,
    Status,
>)
    ensures
        match found {
            Ok(Some(stored)) => out matches Ok(record) && shows_user(record, user_uuid@, stored@),
            Ok(None) => out matches Err(e) && e@ == status(Code::NotFound, "user not found"@),
            Err(failure) => out matches Err(e) && e@ == read_failed(failure),
        },
{
    match found {
        Ok(Some(stored)) => Ok(user_record(user_uuid, &stored)),
        Ok(None) => Err(Status::new(Code::NotFound, "user not found")),
        Err(e) => Err(
            Status::with(Code::Internal, "Storage read failed: ", e.message().as_str()),
        ),
    }
}

/// Looks a user up.
pub fn get_user(storage: &Storage, req: UserLookup) -> (out: Result<UserRecord, Status>)
    ensures
        match out {
            Ok(record) => lookup_user(storage@, req.user_uuid@) matches Lookup::Found(u) && (u.deleted
                ==> req.include_deleted) && shows_user(record, req.user_uuid@, u),
            Err(e) => {
                ||| e@ == status(Code::NotFound, "user not found"@) && (lookup_user(
                    storage@,
                    req.user_uuid@,
                ) is Missing || (lookup_user(storage@, req.user_uuid@) matches Lookup::Found(u)
                    && u.deleted && !req.include_deleted))
                ||| says(e, Code::Internal, "Storage read failed: "@)
            },
        },
{
    let found: Result<Option<StoredUser>, StorageError> = storage.get_user(
        req.user_uuid.as_str(),
        req.include_deleted,
    );
    user_reply(req.user_uuid, found)
}

/// The operation that updates a user.
pub fn update_user_entry(req: UserWrite) -> (out: Result<LogEntry, Status>)
    ensures
        if req.user_uuid@.len() == 0 {
            out matches Err(e) && e@ == status(
                Code::InvalidArgument,
                "update_user requires a user_uuid"@,
            )
        } else {
            out matches Ok(entry) && entry@ == (LogEntryView::UpdateUser {
                user_uuid: req.user_uuid@,
                body: req.encrypted_body@,
                index: user_index_of(req.index),
            })
        },
{
    if req.user_uuid.as_str().is_empty() {
        return Err(Status::new(Code::InvalidArgument, "update_user requires a user_uuid"));
    }
    Ok(
        LogEntry::UpdateUser {
            user_uuid: req.user_uuid,
            body: req.encrypted_body,
            index: user_index_from_proto(req.index),
        },
    )
}

/// The reply to the update of a user: the user is read again, so that its deletion shows.
pub fn update_user_reply(storage: &Storage, user_uuid: String, outcome: Result<(), String>) -> (out:
    Result<UserRecord, Status>)
    ensures
        match outcome {
            Err(text) => out matches Err(e) && e@ == write_failed(text@),
            Ok(()) => match out {
                Ok(record) => lookup_user(storage@, user_uuid@) matches Lookup::Found(u)
                    && shows_user(record, user_uuid@, u),
                Err(e) => {
                    ||| e@ == status(Code::NotFound, "user not found"@) && lookup_user(
                        storage@,
                        user_uuid@,
                    ) is Missing
                    ||| says(e, Code::Internal, "Storage read failed: "@)
                },
            },
        },
{
    match outcome {
        Ok(()) => get_user(storage, UserLookup { user_uuid, include_deleted: true }),
        Err(text) => Err(Status::with(Code::Internal, "Raft write failed: ", text.as_str())),
    }
}

/// The operation that deletes a user at the time `now`.
pub fn soft_delete_user_entry(req: UserLookup, now: i64) -> (out: LogEntry)
    ensures
        out@ == (LogEntryView::SoftDeleteUser { user_uuid: req.user_uuid@, at_unix: now }),
{
    LogEntry::SoftDeleteUser { user_uuid: req.user_uuid, at_unix: now }
}

// ---- Collections ----

/// The reply to a read of a key, from what storage found.
pub fn get_reply(found: Result<Option<Vec<u8>>, StorageError>) -> (out: Result<GetReply, Status>)
    ensures
        match found {
            Ok(Some(value)) => out matches Ok(reply) && reply.found && reply.value == value,
            Ok(None) => out matches Ok(reply) && !reply.found && reply.value@.len() == 0,
            Err(failure) => out matches Err(e) && e@ == read_failed(failure),
        },
{
    match found {
        Ok(Some(value)) => Ok(GetReply { found: true, value }),
        Ok(None) => Ok(GetReply { found: false, value: Vec::new() }),
        Err(e) => Err(
            Status::with(Code::Internal, "Storage read failed: ", e.message().as_str()),
        ),
    }
}

/// Reads the value of a key.
pub fn get(storage: &Storage, collection: &str, key: &[u8]) -> (out: Result<GetReply, Status>)
    ensures
        match out {
            Ok(reply) => reply.found == storage@.contains_key((collection@, key@)) && reply.value@ == (
            if reply.found {
                storage@[(collection@, key@)]
            } else {
                Seq::empty()
            }),
            Err(e) => says(e, Code::Internal, "Storage read failed: "@),
        },
{
    let out: Result<GetReply, Status> = get_reply(storage.get(collection, key));
    assert(out matches Ok(reply) && !reply.found ==> out->Ok_0.value@ =~= Seq::empty());
    out
}

/// The most pairs a listing gives; zero asks for all.
pub open spec fn limit_of(limit: u32) -> Option<usize> {
    if limit > 0 {
        Some(limit as usize)
    } else {
        None
    }
}

/// The pairs of a listing.
pub open spec fn key_values(v: Seq<KeyValue>) -> Seq<(Seq<u8>, Seq<u8>)> {
    Seq::new(v.len(), |i: int| (v[i].key@, v[i].value@))
}

/// The reply to a listing, from what storage found.
pub fn list_reply(found: Result<Vec<(Vec<u8>, Vec<u8>)>, StorageError>) -> (out: Result<
    Vec<KeyValue>,
    Status,
>)
    ensures
        match found {
            Ok(pairs) => out matches Ok(items) && key_values(items@) == pairs_of(pairs@),
            Err(failure) => out matches Err(e) && e@ == status(
                Code::Internal,
                "Storage list failed: "@ + failure_text(failure),
            ),
        },
{
    let pairs: Vec<(Vec<u8>, Vec<u8>)> = match found {
        Ok(pairs) => pairs,
        Err(e) => {
            return Err(
                Status::with(Code::Internal, "Storage list failed: ", e.message().as_str()),
            );
        },
    };
    let mut items: Vec<KeyValue> = Vec::new();
    let mut i: usize = 0;
    while i < pairs.len()
        invariant
            i <= pairs@.len(),
            items@.len() == i,
            forall|j: int|
                0 <= j < i ==> (#[trigger] items@[j]).key@ == pairs@[j].0@ && items@[j].value@
                    == pairs@[j].1@,
        decreases pairs@.len() - i,
    {
        items.push(
            KeyValue {
                key: copy_bytes(pairs[i].0.as_slice()),
                value: copy_bytes(pairs[i].1.as_slice()),
            },
        );
        i = i + 1;
    }
    assert(key_values(items@) =~= pairs_of(pairs@));
    Ok(items)
}

/// Lists the pairs of a collection whose keys begin with `prefix`.
pub fn list(storage: &Storage, collection: &str, prefix: &[u8], limit: u32) -> (out: Result<
    Vec<KeyValue>,
    Status,
>)
    ensures
        match out {
            Ok(items) => exists|all: Seq<(Seq<u8>, Seq<u8>)>|
                is_listing(storage@, collection@, starting_with(prefix@), all) && key_values(items@)
                    == #[trigger] at_most(all, limit_of(limit)),
            Err(e) => says(e, Code::Internal, "Storage list failed: "@),
        },
{
    let most: Option<usize> = if limit > 0 {
        Some(limit as usize)
    } else {
        None
    };
    list_reply(storage.list(collection, prefix, most))
}

/// The reply to a question for a key, from what storage found.
pub fn exists_reply(found: Result<bool, StorageError>) -> (out: Result<bool, Status>)
    ensures
        match found {
            Ok(there) => out == Ok::<bool, Status>(there),
            Err(failure) => out matches Err(e) && e@ == status(
                Code::Internal,
                "Storage check failed: "@ + failure_text(failure),
            ),
        },
{
    match found {
        Ok(there) => Ok(there),
        Err(e) => Err(
            Status::with(Code::Internal, "Storage check failed: ", e.message().as_str()),
        ),
    }
}

/// Whether a key exists.
pub fn exists_key(storage: &Storage, collection: &str, key: &[u8]) -> (out: Result<bool, Status>)
    ensures
        match out {
            Ok(found) => found == storage@.contains_key((collection@, key@)),
            Err(e) => says(e, Code::Internal, "Storage check failed: "@),
        },
{
    exists_reply(storage.has_key(collection, key))
}

/// The operation that stores a pair.
pub fn put_entry(collection: String, key: Vec<u8>, value: Vec<u8>) -> (out: LogEntry)
    ensures
        out@ == (LogEntryView::Put { collection: collection@, key: key@, value: value@ }),
{
    LogEntry::Put { collection, key, value }
}

/// The operation that deletes a key.
pub fn delete_entry(collection: String, key: Vec<u8>) -> (out: LogEntry)
    ensures
        out@ == (LogEntryView::Delete { collection: collection@, key: key@ }),
{
    LogEntry::Delete { collection, key }
}

/// The operation that stores pairs at once, and how many it reports as written.
pub fn batch_put_entry(collection: String, items: &Vec<KeyValue>) -> (out: (LogEntry, u32))
    ensures
        out.0@ == (LogEntryView::BatchPut { collection: collection@, pairs: key_values(items@) }),
        out.1 == (if items@.len() <= u32::MAX {
            items@.len() as u32
        } else {
            u32::MAX
        }),
{
    let mut pairs: Vec<(Vec<u8>, Vec<u8>)> = Vec::new();
    let mut i: usize = 0;
    while i < items.len()
        invariant
            i <= items@.len(),
            pairs@.len() == i,
            forall|j: int|
                0 <= j < i ==> (#[trigger] pairs@[j]).0@ == items@[j].key@ && pairs@[j].1@
                    == items@[j].value@,
        decreases items@.len() - i,
    {
        pairs.push(
            (copy_bytes(items[i].key.as_slice()), copy_bytes(items[i].value.as_slice())),
        );
        i = i + 1;
    }
    assert(pairs_of(pairs@) =~= key_values(items@));
    let count: u32 = if items.len() as u64 <= 0xffff_ffff {
        items.len() as u32
    } else {
        u32::MAX
    };
    (LogEntry::BatchPut { collection, pairs }, count)
}

/// The reply to a batch of pairs: how many were written.
pub fn batch_put_reply(count: u32, outcome: Result<(), String>) -> (out: Result<u32, Status>)
    ensures
        match outcome {
            Ok(()) => out == Ok::<u32, Status>(count),
            Err(text) => out matches Err(e) && e@ == write_failed(text@),
        },
{
    match outcome {
        Ok(()) => Ok(count),
        Err(text) => Err(Status::with(Code::Internal, "Raft write failed: ", text.as_str())),
    }
}

// ---- The cluster ----

/// How the node does.
pub fn health(metrics: &NodeMetrics) -> (out: HealthReply)
    ensures
        out.healthy == is_healthy(metrics.state),
        out.node_id@ == dec(metrics.id as nat),
        out.role@ == role_name(metrics.state),
{
    HealthReply {
        healthy: healthy(metrics.state),
        node_id: decimal(metrics.id),
        role: role(metrics.state),
    }
}

/// How the cluster stands.
pub fn cluster_status(metrics: &NodeMetrics) -> (out: ClusterReply)
    ensures
        out.leader_id@ == id_or_nothing(metrics.current_leader),
        texts_of(out.member_ids@) == ids_in_decimal(metrics.node_ids@),
        out.term == metrics.current_term,
        out.commit_index == applied_index(metrics.last_applied),
{
    ClusterReply {
        leader_id: leader_text(metrics),
        member_ids: member_ids(metrics),
        term: metrics.current_term,
        commit_index: commit_index(metrics),
    }
}

} // verus!
