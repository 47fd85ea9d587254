//! The ticket service: what it asks of the database and the cluster, and what it answers.
//!
//! Ticket bodies are encrypted before they go to the database. The functions here take a body as
//! it was opened, or why it could not be.

use vstd::prelude::*;
use vstd::string::*;

use crate::cluster::{
    applied_index, commit_index, follower_ids, healthy, id_or_nothing, ids_in_decimal, is_healthy,
    leader_text, role, role_name, without_leader,
};
use crate::custodian::db_client::{create_ticket_write, update_ticket_write};
use crate::custodian::locks::{expired, lookup_lock, LockCommand, LockInfo, LockResponse};
use crate::custodian::ticket::{
    action_of, domain_to_proto, is_new_ticket, priority_of, proto_to_next_action, shows_index,
    shows_ticket_message, status_number, status_of, status_word, ticket_index, ticket_valid,
    NextActionMessage, Resolution, Symptom, Ticket, TicketMessage, TicketPriority, TicketStatus,
};
use crate::db::server::{TicketRecord, TicketWrite, WireTicketQuery};
use crate::db::storage::{Lookup, Storage};
use crate::ids::{parse_uuid, show_uuid, uuid_parsed, uuid_text};
use crate::policy::may_follow;
use crate::raft::types::NodeMetrics;
use crate::status::{says, status, Code, Status, StatusView};
use crate::text::{parse_signed, read_i64, text_of, texts_of};
use crate::time::{is_moment, Moment};

verus! {

/// How long a lock lasts where nothing else is said: fifteen minutes.
pub const DEFAULT_LOCK_TTL_SECS: i64 = 900;

/// How long a lock lasts, from the setting as it is written.
pub open spec fn ttl_of(raw: Option<Seq<char>>) -> i64 {
    match raw {
        Some(text) => match parse_signed(text, i64::MIN as int, i64::MAX as int) {
            Some(n) => n as i64,
            None => DEFAULT_LOCK_TTL_SECS,
        },
        None => DEFAULT_LOCK_TTL_SECS,
    }
}

/// How long a lock lasts, from the setting as it is written; zero means until it is released.
pub fn lock_ttl_secs(raw: Option<String>) -> (out: i64)
    ensures
        out == ttl_of(text_of(raw)),
{
    match raw {
        Some(text) => match read_i64(text.as_str()) {
            Some(n) => n,
            None => DEFAULT_LOCK_TTL_SECS,
        },
        None => DEFAULT_LOCK_TTL_SECS,
    }
}

// ---- Messages ----

/// A request to create a ticket.
#[derive(Debug, Clone)]
pub struct CreateTicketCall {
    pub title: String,
    pub project: String,
    pub account_uuid: String,
    pub symptom: i32,
    pub priority: i32,
    pub created_by_uuid: String,
    pub customer_ticket_number: Option<String>,
    pub isp_ticket_number: Option<String>,
    pub other_ticket_number: Option<String>,
    pub ebond: Option<String>,
    pub tracking_url: Option<String>,
}

/// A request to update a ticket; what is not given stays.
#[derive(Debug, Clone)]
pub struct UpdateTicketCall {
    pub ticket_id: u64,
    pub title: Option<String>,
    pub project: Option<String>,
    pub symptom: Option<i32>,
    pub priority: Option<i32>,
    pub status: Option<i32>,
    pub next_action: Option<NextActionMessage>,
    pub resolution: Option<i32>,
    pub assigned_to_uuid: Option<String>,
    pub updated_by_uuid: Option<String>,
}

/// A request for a lock, or to release one.
#[derive(Debug, Clone)]
pub struct LockCall {
    pub ticket_id: u64,
    pub user_uuid: String,
}

/// The answer to a request for a lock.
#[derive(Debug, Clone)]
pub struct LockReply {
    pub success: bool,
    pub error: String,
    pub current_holder: Option<String>,
}

/// How a node does.
#[derive(Debug, Clone)]
pub struct CustodianHealth {
    pub healthy: bool,
    pub status: String,
}

/// How the cluster stands.
#[derive(Debug, Clone)]
pub struct CustodianCluster {
    pub leader_id: String,
    pub follower_ids: Vec<String>,
    pub term: u64,
    pub commit_index: u64,
}

/// Why the body of a ticket could not be opened.
#[derive(Debug)]
pub enum BodyError {
    /// It is no encrypted body.
    Sealed(String),
    /// It cannot be decrypted.
    Decryption(String),
    /// It holds no ticket.
    Content(String),
}

/// Why a ticket could not be sealed.
#[derive(Debug)]
pub enum SealError {
    /// The ticket cannot be written.
    Content(String),
    /// It cannot be encrypted.
    Encryption(String),
    /// The encrypted ticket cannot be written.
    Envelope(String),
}

// ---- Reading tickets ----

/// What is said of a body that could not be opened.
pub open spec fn body_status(e: BodyError) -> StatusView {
    match e {
        BodyError::Sealed(text) => status(
            Code::Internal,
            "deserialize encrypted data error: "@ + text@,
        ),
        BodyError::Decryption(text) => status(Code::Internal, "decryption error: "@ + text@),
        BodyError::Content(text) => status(Code::Internal, "deserialize ticket error: "@ + text@),
    }
}

fn body_failure(e: BodyError) -> (out: Status)
    ensures
        out@ == body_status(e),
{
    match e {
        BodyError::Sealed(text) => Status::with(
            Code::Internal,
            "deserialize encrypted data error: ",
            text.as_str(),
        ),
        BodyError::Decryption(text) => Status::with(
            Code::Internal,
            "decryption error: ",
            text.as_str(),
        ),
        BodyError::Content(text) => Status::with(
            Code::Internal,
            "deserialize ticket error: ",
            text.as_str(),
        ),
    }
}

/// The ticket of a body that was opened. Its contents are the body's, its id is the database's.
pub fn decrypt_ticket(ticket_id: u64, body: Result<Ticket, BodyError>) -> (out: Result<
    Ticket,
    Status,
>)
    ensures
        match body {
            Ok(ticket) => out == Ok::<Ticket, Status>(Ticket { ticket_id, ..ticket }),
            Err(e) => out matches Err(s) && s@ == body_status(e),
        },
{
    match body {
        Ok(ticket) => {
            let mut ticket: Ticket = ticket;
            ticket.ticket_id = ticket_id;
            Ok(ticket)
        },
        Err(e) => Err(body_failure(e)),
    }
}

/// Whether the service can reach the database.
pub fn require_client(configured: bool) -> (out: Result<(), Status>)
    ensures
        if configured {
            out is Ok
        } else {
            out matches Err(e) && e@ == status(Code::Unavailable, "no db client configured"@)
        },
{
    if configured {
        Ok(())
    } else {
        Err(Status::new(Code::Unavailable, "no db client configured"))
    }
}

/// The record that the database gave for a ticket.
pub fn fetched_record(outcome: Result<Option<TicketRecord>, String>) -> (out: Result<
    TicketRecord,
    Status,
>)
    ensures
        match outcome {
            Ok(Some(record)) => out == Ok::<TicketRecord, Status>(record),
            Ok(None) => out matches Err(e) && e@ == status(Code::NotFound, "ticket not found"@),
            Err(text) => out matches Err(e) && e@ == status(
                Code::Internal,
                "db get error: "@ + text@,
            ),
        },
{
    match outcome {
        Ok(Some(record)) => Ok(record),
        Ok(None) => Err(Status::new(Code::NotFound, "ticket not found")),
        Err(text) => Err(Status::with(Code::Internal, "db get error: ", text.as_str())),
    }
}

/// Every point in time of an opened ticket is one.
pub open spec fn body_valid(body: Result<Ticket, BodyError>) -> bool {
    body matches Ok(t) ==> ticket_valid(t)
}

/// The reply to a request for a ticket.
pub fn get_ticket_reply(ticket_id: u64, body: Result<Ticket, BodyError>) -> (out: Result<
    TicketMessage,
    Status,
>)
    requires
        body_valid(body),
    ensures
        match body {
            Ok(ticket) => out matches Ok(m) && shows_ticket_message(
                m,
                Ticket { ticket_id, ..ticket },
            ),
            Err(e) => out matches Err(s) && s@ == body_status(e),
        },
{
    match decrypt_ticket(ticket_id, body) {
        Ok(ticket) => Ok(domain_to_proto(&ticket)),
        Err(e) => Err(e),
    }
}

/// What the database is asked for by a query.
pub fn query_call(
    wanted: Option<u32>,
    assigned_to_uuid: Option<String>,
    account_uuid: Option<String>,
    project: Option<String>,
    include_deleted: bool,
    limit: u32,
) -> (out: WireTicketQuery)
    ensures
        out == (WireTicketQuery {
            status: wanted,
            assigned_to_uuid,
            account_uuid,
            project,
            include_deleted,
            limit,
        }),
{
    WireTicketQuery {
        status: wanted,
        assigned_to_uuid,
        account_uuid,
        project,
        include_deleted,
        limit,
    }
}

/// The records that the database gave for a query.
pub fn queried_records(outcome: Result<Vec<TicketRecord>, String>) -> (out: Result<
    Vec<TicketRecord>,
    Status,
>)
    ensures
        match outcome {
            Ok(records) => out == Ok::<Vec<TicketRecord>, Status>(records),
            Err(text) => out matches Err(e) && e@ == status(
                Code::Internal,
                "db query_tickets error: "@ + text@,
            ),
        },
{
    match outcome {
        Ok(records) => Ok(records),
        Err(text) => Err(Status::with(Code::Internal, "db query_tickets error: ", text.as_str())),
    }
}

/// The first body that could not be opened is the one at `n`.
pub open spec fn first_failure(bodies: Seq<(u64, Result<Ticket, BodyError>)>, n: int) -> bool {
    0 <= n < bodies.len() && bodies[n].1 is Err && forall|i: int|
        0 <= i < n ==> (#[trigger] bodies[i]).1 is Ok
}

/// The reply to a query: every ticket in order, or the first failure.
pub fn query_reply(bodies: Vec<(u64, Result<Ticket, BodyError>)>) -> (out: Result<
    Vec<TicketMessage>,
    Status,
>)
    requires
        forall|i: int| 0 <= i < bodies@.len() ==> body_valid((#[trigger] bodies@[i]).1),
    ensures
        match out {
            Ok(messages) => messages@.len() == bodies@.len() && forall|i: int|
                0 <= i < bodies@.len() ==> (bodies@[i].1 matches Ok(t) && shows_ticket_message(
                    #[trigger] messages@[i],
                    Ticket { ticket_id: bodies@[i].0, ..t },
                )),
            Err(e) => exists|n: int| #[trigger]
                first_failure(bodies@, n) && e@ == body_status(bodies@[n].1->Err_0),
        },
{
    let mut messages: Vec<TicketMessage> = Vec::new();
    let ghost all = bodies@;
    let mut rest: Vec<(u64, Result<Ticket, BodyError>)> = bodies;
    let n: usize = rest.len();
    let mut i: usize = 0;
    while i < n
        invariant
            i <= n,
            n == all.len(),
            all == bodies@,
            rest@ == all.skip(i as int),
            messages@.len() == i,
            forall|j: int| 0 <= j < all.len() ==> body_valid((#[trigger] all[j]).1),
            forall|j: int| 0 <= j < i ==> (#[trigger] all[j]).1 is Ok,
            forall|j: int|
                0 <= j < i ==> (all[j].1 matches Ok(t) && shows_ticket_message(
                    #[trigger] messages@[j],
                    Ticket { ticket_id: all[j].0, ..t },
                )),
        decreases n - i,
    {
        let (ticket_id, body) = rest.remove(0);
        assert(rest@ =~= all.skip(i + 1));
        assert((ticket_id, body) == all[i as int]);
        match get_ticket_reply(ticket_id, body) {
            Ok(message) => {
                messages.push(message);
            },
            Err(e) => {
                assert(first_failure(all, i as int));
                return Err(e);
            },
        }
        i = i + 1;
    }
    Ok(messages)
}

// ---- Creating tickets ----

/// The number of a request as a byte, or zero.
pub open spec fn code_of(n: i32) -> u8 {
    if 0 <= n <= 255 {
        n as u8
    } else {
        0
    }
}

fn code(n: i32) -> (out: u8)
    ensures
        out == code_of(n),
{
    if 0 <= n && n <= 255 {
        n as u8
    } else {
        0
    }
}

/// The ticket is the one that the request asks for, by the given ids, at `now`, before the
/// database has given it an id.
pub open spec fn is_created(
    t: Ticket,
    req: CreateTicketCall,
    account: u128,
    created_by: u128,
    now: Moment,
) -> bool {
    &&& t.priority == priority_of(code_of(req.priority))
    &&& t.customer_ticket_number == req.customer_ticket_number
    &&& t.isp_ticket_number == req.isp_ticket_number
    &&& t.other_ticket_number == req.other_ticket_number
    &&& t.ebond == req.ebond
    &&& t.tracking_url == req.tracking_url
    &&& is_new_ticket(
        Ticket {
            priority: TicketPriority::Unknown,
            customer_ticket_number: None,
            isp_ticket_number: None,
            other_ticket_number: None,
            ebond: None,
            tracking_url: None,
            ..t
        },
        0,
        req.title@,
        req.project@,
        account,
        Symptom { code: code_of(req.symptom) },
        created_by,
        now,
    )
}

/// Builds the ticket that a request asks for, from the ids as they were read.
pub fn build_ticket(
    req: CreateTicketCall,
    account: Option<u128>,
    created_by: Option<u128>,
    now: Moment,
) -> (out: Result<Ticket, Status>)
    requires
        is_moment(now.secs as int, now.nanos as int),
    ensures
        if req.title@.len() == 0 {
            out matches Err(e) && e@ == status(Code::InvalidArgument, "title is required"@)
        } else if account is None {
            out matches Err(e) && e@ == status(Code::InvalidArgument, "Invalid account UUID"@)
        } else if created_by is None {
            out matches Err(e) && e@ == status(Code::InvalidArgument, "Invalid created_by UUID"@)
        } else {
            out matches Ok(t) && is_created(t, req, account->0, created_by->0, now) && ticket_valid(
                t,
            )
        },
{
    if req.title.as_str().is_empty() {
        return Err(Status::new(Code::InvalidArgument, "title is required"));
    }
    let account: u128 = match account {
        Some(id) => id,
        None => {
            return Err(Status::new(Code::InvalidArgument, "Invalid account UUID"));
        },
    };
    let created_by: u128 = match created_by {
        Some(id) => id,
        None => {
            return Err(Status::new(Code::InvalidArgument, "Invalid created_by UUID"));
        },
    };
    let symptom = Symptom { code: code(req.symptom) };
    let mut ticket: Ticket = Ticket::new(
        0,
        req.title,
        req.project,
        account,
        symptom,
        created_by,
        now,
    );
    ticket.priority = TicketPriority::from_u8(code(req.priority));
    ticket.customer_ticket_number = req.customer_ticket_number;
    ticket.isp_ticket_number = req.isp_ticket_number;
    ticket.other_ticket_number = req.other_ticket_number;
    ticket.ebond = req.ebond;
    ticket.tracking_url = req.tracking_url;
    Ok(ticket)
}

/// Builds the ticket that a request asks for.
pub fn create_ticket(req: CreateTicketCall, now: Moment) -> (out: Result<Ticket, Status>)
    requires
        is_moment(now.secs as int, now.nanos as int),
    ensures
        ({
            let account = uuid_parsed(req.account_uuid@);
            let created_by = uuid_parsed(req.created_by_uuid@);
            if req.title@.len() == 0 {
                out matches Err(e) && e@ == status(Code::InvalidArgument, "title is required"@)
            } else if account is None {
                out matches Err(e) && e@ == status(
                    Code::InvalidArgument,
                    "Invalid account UUID"@,
                )
            } else if created_by is None {
                out matches Err(e) && e@ == status(
                    Code::InvalidArgument,
                    "Invalid created_by UUID"@,
                )
            } else {
                out matches Ok(t) && is_created(t, req, account->0, created_by->0, now)
                    && ticket_valid(t)
            }
        }),
{
    let account: Option<u128> = parse_uuid(req.account_uuid.as_str());
    let created_by: Option<u128> = parse_uuid(req.created_by_uuid.as_str());
    build_ticket(req, account, created_by, now)
}

/// The id of a created ticket: the database's, or without a database one made of the time.
pub open spec fn assigned_id(outcome: Option<Result<u64, String>>, now_millis: i64) -> Option<u64> {
    match outcome {
        Some(Ok(id)) => Some(id),
        Some(Err(_)) => None,
        None => Some(
            if now_millis >= 0 {
                now_millis as u64
            } else {
                0
            },
        ),
    }
}

/// The reply to the creation of a ticket. `outcome` is what the database said, or nothing where
/// there is none.
pub fn create_ticket_reply(
    ticket: Ticket,
    outcome: Option<Result<u64, String>>,
    now_millis: i64,
) -> (out: Result<TicketMessage, Status>)
    requires
        ticket_valid(ticket),
    ensures
        match assigned_id(outcome, now_millis) {
            Some(ticket_id) => out matches Ok(m) && shows_ticket_message(
                m,
                Ticket { ticket_id, ..ticket },
            ),
            None => out matches Err(e) && (outcome matches Some(Err(text)) && e@ == status(
                Code::Internal,
                "db create_ticket error: "@ + text@,
            )),
        },
{
    let ticket_id: u64 = match outcome {
        Some(Ok(id)) => id,
        Some(Err(text)) => {
            return Err(Status::with(Code::Internal, "db create_ticket error: ", text.as_str()));
        },
        None => if now_millis >= 0 {
            now_millis as u64
        } else {
            0
        },
    };
    let mut ticket: Ticket = ticket;
    ticket.ticket_id = ticket_id;
    Ok(domain_to_proto(&ticket))
}

// ---- Sealing tickets ----

/// What is said of a ticket that could not be sealed.
pub open spec fn seal_status(e: SealError) -> StatusView {
    match e {
        SealError::Content(text) => status(Code::Internal, "serialize error: "@ + text@),
        SealError::Encryption(text) => status(Code::Internal, "encryption error: "@ + text@),
        SealError::Envelope(text) => status(
            Code::Internal,
            "serialize encrypted data error: "@ + text@,
        ),
    }
}

/// The body of a ticket that was sealed.
pub fn encrypt_ticket(sealed: Result<Vec<u8>, SealError>) -> (out: Result<Vec<u8>, Status>)
    ensures
        match sealed {
            Ok(body) => out == Ok::<Vec<u8>, Status>(body),
            Err(e) => out matches Err(s) && s@ == seal_status(e),
        },
{
    match sealed {
        Ok(body) => Ok(body),
        Err(SealError::Content(text)) => Err(
            Status::with(Code::Internal, "serialize error: ", text.as_str()),
        ),
        Err(SealError::Encryption(text)) => Err(
            Status::with(Code::Internal, "encryption error: ", text.as_str()),
        ),
        Err(SealError::Envelope(text)) => Err(
            Status::with(Code::Internal, "serialize encrypted data error: ", text.as_str()),
        ),
    }
}

/// The request to the database that keeps a new ticket, with the ticket as it was sealed.
pub fn created_ticket_write(ticket: &Ticket, sealed: Result<Vec<u8>, SealError>) -> (out: Result<
    TicketWrite,
    Status,
>)
    ensures
        match sealed {
            Ok(body) => out matches Ok(w) && w.ticket_id == 0 && w.encrypted_body == body
                && (w.index matches Some(index) && shows_index(index, *ticket)),
            Err(e) => out matches Err(s) && s@ == seal_status(e),
        },
{
    match encrypt_ticket(sealed) {
        Ok(body) => Ok(create_ticket_write(body, ticket_index(ticket))),
        Err(e) => Err(e),
    }
}

/// The request to the database that keeps a changed ticket, with the ticket as it was sealed.
pub fn updated_ticket_write(
    ticket_id: u64,
    ticket: &Ticket,
    sealed: Result<Vec<u8>, SealError>,
) -> (out: Result<TicketWrite, Status>)
    ensures
        match sealed {
            Ok(body) => out matches Ok(w) && w.ticket_id == ticket_id && w.encrypted_body == body
                && (w.index matches Some(index) && shows_index(index, *ticket)),
            Err(e) => out matches Err(s) && s@ == seal_status(e),
        },
{
    match encrypt_ticket(sealed) {
        Ok(body) => Ok(update_ticket_write(ticket_id, body, ticket_index(ticket))),
        Err(e) => Err(e),
    }
}

// ---- Locks ----

/// The command that acquires a lock for the user that was read from the request.
pub fn acquire_command(ticket_id: u64, user: Option<u128>, at_unix: i64, ttl_secs: i64) -> (out:
    Result<LockCommand, Status>)
    ensures
        match user {
            Some(user_id) => out == Ok::<LockCommand, Status>(
                LockCommand::AcquireLock { ticket_id, user_id, at_unix, ttl_secs },
            ),
            None => out matches Err(e) && e@ == status(Code::InvalidArgument, "Invalid user UUID"@),
        },
{
    match user {
        Some(user_id) => Ok(LockCommand::AcquireLock { ticket_id, user_id, at_unix, ttl_secs }),
        None => Err(Status::new(Code::InvalidArgument, "Invalid user UUID")),
    }
}

/// The command that a request for a lock stands for.
pub fn acquire_lock(req: &LockCall, at_unix: i64, ttl_secs: i64) -> (out: Result<
    LockCommand,
    Status,
>)
    ensures
        match uuid_parsed(req.user_uuid@) {
            Some(user_id) => out == Ok::<LockCommand, Status>(
                LockCommand::AcquireLock {
                    ticket_id: req.ticket_id,
                    user_id,
                    at_unix,
                    ttl_secs,
                },
            ),
            None => out matches Err(e) && e@ == status(Code::InvalidArgument, "Invalid user UUID"@),
        },
{
    acquire_command(req.ticket_id, parse_uuid(req.user_uuid.as_str()), at_unix, ttl_secs)
}

/// The command that releases the lock of the user that was read from the request.
pub fn release_command(ticket_id: u64, user: Option<u128>) -> (out: Result<LockCommand, Status>)
    ensures
        match user {
            Some(user_id) => out == Ok::<LockCommand, Status>(
                LockCommand::ReleaseLock { ticket_id, user_id },
            ),
            None => out matches Err(e) && e@ == status(Code::InvalidArgument, "Invalid user UUID"@),
        },
{
    match user {
        Some(user_id) => Ok(LockCommand::ReleaseLock { ticket_id, user_id }),
        None => Err(Status::new(Code::InvalidArgument, "Invalid user UUID")),
    }
}

/// The command that a request to release a lock stands for.
pub fn release_lock(req: &LockCall) -> (out: Result<LockCommand, Status>)
    ensures
        match uuid_parsed(req.user_uuid@) {
            Some(user_id) => out == Ok::<LockCommand, Status>(
                LockCommand::ReleaseLock { ticket_id: req.ticket_id, user_id },
            ),
            None => out matches Err(e) && e@ == status(Code::InvalidArgument, "Invalid user UUID"@),
        },
{
    release_command(req.ticket_id, parse_uuid(req.user_uuid.as_str()))
}

/// The text of an optional error, or nothing.
pub open spec fn error_or_nothing(error: Option<String>) -> Seq<char> {
    match error {
        Some(text) => text@,
        None => Seq::empty(),
    }
}

/// The answer to a request for a lock, from what the cluster said and from the lock as it stands.
/// Only one who was refused learns who holds the lock.
pub fn lock_reply(response: LockResponse, holder: Option<LockInfo>) -> (out: LockReply)
    ensures
        out.success == response.success,
        out.error@ == error_or_nothing(response.error),
        match out.current_holder {
            Some(text) => !response.success && holder is Some && text@ == uuid_text(
                holder->0.user_id,
            ),
            None => response.success || holder is None,
        },
{
    let error: String = match response.error {
        Some(text) => text,
        None => String::new(),
    };
    let current_holder: Option<String> = if response.success {
        None
    } else {
        match holder {
            Some(lock) => Some(show_uuid(lock.user_id)),
            None => None,
        }
    };
    LockReply { success: response.success, error, current_holder }
}

/// The answer to a request for a lock.
pub fn acquire_lock_reply(
    storage: &Storage,
    ticket_id: u64,
    outcome: Result<LockResponse, String>,
) -> (out: Result<LockReply, Status>)
    ensures
        match outcome {
            Err(text) => out matches Err(e) && e@ == status(
                Code::Internal,
                "Raft write failed: "@ + text@,
            ),
            Ok(response) => out matches Ok(reply) && {
                &&& reply.success == response.success
                &&& reply.error@ == error_or_nothing(response.error)
                &&& reply.current_holder matches Some(text) ==> !response.success && (lookup_lock(
                    storage@,
                    ticket_id,
                ) matches Lookup::Found(lock) && text@ == uuid_text(lock.user_id))
            },
        },
{
    let response: LockResponse = match outcome {
        Ok(response) => response,
        Err(text) => {
            return Err(Status::with(Code::Internal, "Raft write failed: ", text.as_str()));
        },
    };
    let holder: Option<LockInfo> = if response.success {
        None
    } else {
        match storage.get_lock_info(ticket_id) {
            Ok(holder) => holder,
            Err(_) => None,
        }
    };
    Ok(lock_reply(response, holder))
}

/// The answer to a request to release a lock.
pub fn release_lock_reply(outcome: Result<LockResponse, String>) -> (out: Result<LockReply, Status>)
    ensures
        match outcome {
            Err(text) => out matches Err(e) && e@ == status(
                Code::Internal,
                "Raft write failed: "@ + text@,
            ),
            Ok(response) => out matches Ok(reply) && reply.success == response.success
                && reply.error@ == error_or_nothing(response.error) && reply.current_holder is None,
        },
{
    match outcome {
        Ok(response) => Ok(lock_reply(response, None)),
        Err(text) => Err(Status::with(Code::Internal, "Raft write failed: ", text.as_str())),
    }
}

// ---- Updating tickets ----

/// Whether a user may update a ticket with the given lock at the time `now`: only one who holds a
/// lock that has not expired may.
pub open spec fn refusal(lock: Option<LockInfo>, updater: u128, now: i64) -> Option<StatusView> {
    match lock {
        Some(l) => if expired(l, now) {
            Some(status(Code::PermissionDenied, "ticket lock has expired"@))
        } else if l.user_id != updater {
            Some(status(Code::PermissionDenied, "user does not hold lock"@))
        } else {
            None
        },
        None => Some(status(Code::PermissionDenied, "ticket is not locked"@)),
    }
}

/// Checks that a user may update a ticket with the given lock.
pub fn check_lock(lock: Option<LockInfo>, updater: u128, now: i64) -> (out: Result<(), Status>)
    ensures
        match refusal(lock, updater, now) {
            None => out is Ok,
            Some(s) => out matches Err(e) && e@ == s,
        },
{
    match lock {
        Some(l) => if l.is_expired(now) {
            Err(Status::new(Code::PermissionDenied, "ticket lock has expired"))
        } else if l.user_id != updater {
            Err(Status::new(Code::PermissionDenied, "user does not hold lock"))
        } else {
            Ok(())
        },
        None => Err(Status::new(Code::PermissionDenied, "ticket is not locked")),
    }
}

/// The user who updates, as it was read from the request.
pub fn read_updater(given: bool, parsed: Option<u128>) -> (out: Result<u128, Status>)
    ensures
        if !given {
            out matches Err(e) && e@ == status(
                Code::InvalidArgument,
                "updated_by_uuid is required"@,
            )
        } else {
            match parsed {
                Some(id) => out == Ok::<u128, Status>(id),
                None => out matches Err(e) && e@ == status(
                    Code::InvalidArgument,
                    "Invalid updated_by_uuid"@,
                ),
            }
        },
{
    if !given {
        return Err(Status::new(Code::InvalidArgument, "updated_by_uuid is required"));
    }
    match parsed {
        Some(id) => Ok(id),
        None => Err(Status::new(Code::InvalidArgument, "Invalid updated_by_uuid")),
    }
}

/// Checks a request to update a ticket before the ticket is fetched, and says who updates: the
/// user must be named, hold the lock at `now`, and there must be a database.
pub fn begin_update(req: &UpdateTicketCall, storage: &Storage, now: i64, configured: bool) -> (out:
    Result<u128, Status>)
    ensures
        match req.updated_by_uuid {
            None => out matches Err(e) && e@ == status(
                Code::InvalidArgument,
                "updated_by_uuid is required"@,
            ),
            Some(text) => match uuid_parsed(text@) {
                None => out matches Err(e) && e@ == status(
                    Code::InvalidArgument,
                    "Invalid updated_by_uuid"@,
                ),
                Some(updater) => {
                    let lock = match lookup_lock(storage@, req.ticket_id) {
                        Lookup::Found(l) => Some(l),
                        _ => None,
                    };
                    match out {
                        Ok(id) => id == updater && refusal(lock, updater, now) is None && configured,
                        Err(e) => {
                            ||| says(e, Code::Internal, "storage error: "@)
                            ||| !(lookup_lock(storage@, req.ticket_id) is Corrupt) && refusal(
                                lock,
                                updater,
                                now,
                            ) == Some(e@)
                            ||| refusal(lock, updater, now) is None && !configured && e@ == status(
                                Code::Unavailable,
                                "no db client configured"@,
                            )
                        },
                    }
                },
            },
        },
{
    let (given, parsed): (bool, Option<u128>) = match &req.updated_by_uuid {
        Some(text) => (true, parse_uuid(text.as_str())),
        None => (false, None),
    };
    let updater: u128 = match read_updater(given, parsed) {
        Ok(id) => id,
        Err(e) => {
            return Err(e);
        },
    };
    let lock: Option<LockInfo> = match storage.get_lock_info(req.ticket_id) {
        Ok(lock) => lock,
        Err(e) => {
            return Err(Status::with(Code::Internal, "storage error: ", e.message().as_str()));
        },
    };
    match check_lock(lock, updater, now) {
        Ok(()) => {},
        Err(e) => {
            return Err(e);
        },
    }
    match require_client(configured) {
        Ok(()) => Ok(updater),
        Err(e) => Err(e),
    }
}

/// What comes of a request to update a ticket.
pub enum UpdateOutcome {
    /// The policy does not let the ticket go to the status asked for.
    BadTransition(TicketStatus),
    /// The assignee is no id.
    BadAssignee,
    /// The ticket as it is afterwards.
    Done(Ticket),
}

/// The status that a request asks for, or the one the ticket has.
pub open spec fn asked_status(t: Ticket, req: UpdateTicketCall) -> TicketStatus {
    match req.status {
        Some(n) => status_of(code_of(n)),
        None => t.status,
    }
}

/// What comes of a request to update a ticket, with the assignee as it was read.
pub open spec fn update_outcome(
    t: Ticket,
    req: UpdateTicketCall,
    assignee: Option<u128>,
    updater: u128,
    now: Moment,
) -> UpdateOutcome {
    if !may_follow(status_number(t.status), status_number(asked_status(t, req))) {
        UpdateOutcome::BadTransition(asked_status(t, req))
    } else if req.assigned_to_uuid is Some && assignee is None {
        UpdateOutcome::BadAssignee
    } else {
        UpdateOutcome::Done(
            Ticket {
                title: match req.title {
                    Some(title) => title,
                    None => t.title,
                },
                project: match req.project {
                    Some(project) => project,
                    None => t.project,
                },
                symptom: match req.symptom {
                    Some(n) => Symptom { code: code_of(n) },
                    None => t.symptom,
                },
                priority: match req.priority {
                    Some(n) => priority_of(code_of(n)),
                    None => t.priority,
                },
                status: asked_status(t, req),
                next_action: match req.next_action {
                    Some(message) => action_of(message),
                    None => t.next_action,
                },
                resolution: match req.resolution {
                    Some(n) => Some(Resolution { code: code_of(n) }),
                    None => t.resolution,
                },
                assigned_to: match req.assigned_to_uuid {
                    Some(_) => assignee,
                    None => t.assigned_to,
                },
                updated_by: updater,
                updated_at: now,
                ..t
            },
        )
    }
}

/// What is said of a transition that the policy does not allow.
pub open spec fn transition_text(from: TicketStatus, to: TicketStatus) -> Seq<char> {
    "invalid status transition: "@ + status_word(from) + " -> "@ + status_word(to)
}

/// Updates a ticket as a request asks, with the assignee as it was read from the request.
pub fn apply_update(
    ticket: Ticket,
    req: UpdateTicketCall,
    assignee: Option<u128>,
    updater: u128,
    now: Moment,
) -> (out: Result<Ticket, Status>)
    requires
        ticket_valid(ticket),
        is_moment(now.secs as int, now.nanos as int),
    ensures
        match update_outcome(ticket, req, assignee, updater, now) {
            UpdateOutcome::Done(after) => out == Ok::<Ticket, Status>(after) && ticket_valid(after),
            UpdateOutcome::BadTransition(to) => out matches Err(e) && e@ == status(
                Code::FailedPrecondition,
                transition_text(ticket.status, to),
            ),
            UpdateOutcome::BadAssignee => out matches Err(e) && e@ == status(
                Code::InvalidArgument,
                "Invalid assigned_to UUID"@,
            ),
        },
{
    let mut ticket: Ticket = ticket;
    if let Some(title) = req.title {
        ticket.title = title;
    }
    if let Some(project) = req.project {
        ticket.project = project;
    }
    if let Some(n) = req.symptom {
        ticket.symptom = Symptom { code: code(n) };
    }
    if let Some(n) = req.priority {
        ticket.priority = TicketPriority::from_u8(code(n));
    }
    if let Some(n) = req.status {
        let next: TicketStatus = TicketStatus::from_u8(code(n));
        if !ticket.status.can_transition_to(next) {
            let mut text: String = "invalid status transition: ".to_owned();
            text.append(ticket.status.word());
            text.append(" -> ");
            text.append(next.word());
            return Err(Status { code: Code::FailedPrecondition, message: text });
        }
        ticket.status = next;
    }
    if let Some(message) = req.next_action {
        ticket.next_action = proto_to_next_action(&message);
    }
    if let Some(n) = req.resolution {
        ticket.resolution = Some(Resolution { code: code(n) });
    }
    if let Some(_) = req.assigned_to_uuid {
        match assignee {
            Some(id) => {
                ticket.assigned_to = Some(id);
            },
            None => {
                return Err(Status::new(Code::InvalidArgument, "Invalid assigned_to UUID"));
            },
        }
    }
    ticket.updated_by = updater;
    ticket.updated_at = now;
    Ok(ticket)
}

/// The assignee that a request names, if it names one.
pub open spec fn named_assignee(req: UpdateTicketCall) -> Option<u128> {
    match req.assigned_to_uuid {
        Some(text) => uuid_parsed(text@),
        None => None,
    }
}

/// Updates a ticket as a request asks.
pub fn update_ticket(ticket: Ticket, req: UpdateTicketCall, updater: u128, now: Moment) -> (out:
    Result<Ticket, Status>)
    requires
        ticket_valid(ticket),
        is_moment(now.secs as int, now.nanos as int),
    ensures
        match update_outcome(ticket, req, named_assignee(req), updater, now) {
            UpdateOutcome::Done(after) => out == Ok::<Ticket, Status>(after) && ticket_valid(after),
            UpdateOutcome::BadTransition(to) => out matches Err(e) && e@ == status(
                Code::FailedPrecondition,
                transition_text(ticket.status, to),
            ),
            UpdateOutcome::BadAssignee => out matches Err(e) && e@ == status(
                Code::InvalidArgument,
                "Invalid assigned_to UUID"@,
            ),
        },
{
    let assignee: Option<u128> = match &req.assigned_to_uuid {
        Some(text) => parse_uuid(text.as_str()),
        None => None,
    };
    apply_update(ticket, req, assignee, updater, now)
}

/// The reply to the update of a ticket.
pub fn update_ticket_reply(ticket: &Ticket, outcome: Result<(), String>) -> (out: Result<
    TicketMessage,
    Status,
>)
    requires
        ticket_valid(*ticket),
    ensures
        match outcome {
            Ok(()) => out matches Ok(m) && shows_ticket_message(m, *ticket),
            Err(text) => out matches Err(e) && e@ == status(
                Code::Internal,
                "db update_ticket error: "@ + text@,
            ),
        },
{
    match outcome {
        Ok(()) => Ok(domain_to_proto(ticket)),
        Err(text) => Err(Status::with(Code::Internal, "db update_ticket error: ", text.as_str())),
    }
}

/// An update that was done went by the policy, and one that asks for nothing changes nothing but
/// who updated and when.
pub proof fn updates_keep_the_policy(
    t: Ticket,
    req: UpdateTicketCall,
    assignee: Option<u128>,
    updater: u128,
    now: Moment,
)
    ensures
        update_outcome(t, req, assignee, updater, now) matches UpdateOutcome::Done(after) ==> may_follow(
            status_number(t.status),
            status_number(after.status),
        ) && after.ticket_id == t.ticket_id && after.created_by == t.created_by && after.created_at
            == t.created_at && after.history == t.history,
        req.title is None && req.project is None && req.symptom is None && req.priority is None
            && req.status is None && req.next_action is None && req.resolution is None
            && req.assigned_to_uuid is None ==> update_outcome(t, req, assignee, updater, now)
            == UpdateOutcome::Done(Ticket { updated_by: updater, updated_at: now, ..t }),
{
}

/// Of two users no more than one may update a ticket at any time.
pub proof fn one_updater_at_a_time(lock: Option<LockInfo>, a: u128, b: u128, now: i64)
    requires
        refusal(lock, a, now) is None,
        refusal(lock, b, now) is None,
    ensures
        a == b,
{
}

// ---- The cluster ----

/// How the node does.
pub fn health(metrics: &NodeMetrics) -> (out: CustodianHealth)
    ensures
        out.healthy == is_healthy(metrics.state),
        out.status@ == role_name(metrics.state),
{
    CustodianHealth { healthy: healthy(metrics.state), status: role(metrics.state) }
}

/// How the cluster stands.
pub fn cluster_status(metrics: &NodeMetrics) -> (out: CustodianCluster)
    ensures
        out.leader_id@ == id_or_nothing(metrics.current_leader),
        texts_of(out.follower_ids@) == ids_in_decimal(
            without_leader(metrics.node_ids@, metrics.current_leader),
        ),
        out.term == metrics.current_term,
        out.commit_index == applied_index(metrics.last_applied),
{
    CustodianCluster {
        leader_id: leader_text(metrics),
        follower_ids: follower_ids(metrics),
        term: metrics.current_term,
        commit_index: commit_index(metrics),
    }
}

} // verus!
