//! What the custodian asks of the database, and what it makes of the replies.

use vstd::prelude::*;

use crate::db::server::{GetReply, TicketLookup, TicketRecord, TicketWrite, WireTicketIndex};
use crate::status::{Code, Status};

verus! {

/// What comes of a request to keep a value.
pub fn put_reply(success: bool, error: String) -> (out: Result<(), String>)
    ensures
        if success {
            out is Ok
        } else {
            out == Err::<(), String>(error)
        },
{
    if success {
        Ok(())
    } else {
        Err(error)
    }
}

/// The value that a reply carries, if it carries one.
pub open spec fn value_in(reply: GetReply) -> Option<Vec<u8>> {
    if reply.found {
        Some(reply.value)
    } else {
        None
    }
}

/// The value that was asked for, if there is one.
pub fn get_reply(reply: GetReply) -> (out: Option<Vec<u8>>)
    ensures
        out == value_in(reply),
{
    if reply.found {
        Some(reply.value)
    } else {
        None
    }
}

/// The request to keep a new ticket; the database chooses its number.
pub fn create_ticket_write(encrypted_body: Vec<u8>, index: WireTicketIndex) -> (out: TicketWrite)
    ensures
        out == (TicketWrite { ticket_id: 0, encrypted_body, index: Some(index) }),
{
    TicketWrite { ticket_id: 0, encrypted_body, index: Some(index) }
}

/// The request to keep a changed ticket.
pub fn update_ticket_write(ticket_id: u64, encrypted_body: Vec<u8>, index: WireTicketIndex) -> (out:
    TicketWrite)
    ensures
        out == (TicketWrite { ticket_id, encrypted_body, index: Some(index) }),
{
    TicketWrite { ticket_id, encrypted_body, index: Some(index) }
}

/// The ticket that was asked for. That there is none is no failure; any other refusal is.
pub fn get_ticket_outcome(reply: Result<TicketRecord, Status>) -> (out: Result<
    Option<TicketRecord>,
    Status,
>)
    ensures
        match reply {
            Ok(record) => out == Ok::<Option<TicketRecord>, Status>(Some(record)),
            Err(refusal) => if refusal.code is NotFound {
                out == Ok::<Option<TicketRecord>, Status>(None)
            } else {
                out == Err::<Option<TicketRecord>, Status>(refusal)
            },
        },
{
    match reply {
        Ok(record) => Ok(Some(record)),
        Err(refusal) => {
            if matches!(refusal.code, Code::NotFound) {
                Ok(None)
            } else {
                Err(refusal)
            }
        },
    }
}

/// The request to delete a ticket.
pub fn soft_delete_lookup(ticket_id: u64) -> (out: TicketLookup)
    ensures
        out == (TicketLookup { ticket_id, include_deleted: false }),
{
    TicketLookup { ticket_id, include_deleted: false }
}

} // verus!
