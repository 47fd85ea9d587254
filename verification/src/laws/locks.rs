//! Locks: one user at a time holds a ticket, for as long as was asked, and only that user updates it.

use vstd::prelude::*;

use crate::bytes::be8_injective;
use crate::custodian::locks::{
    decide, lock_at, read_lock, CustodianStateMachine, LockCommand, LockDecision, LockInfo,
    LockResponse, TREE_LOCKS,
};
use crate::custodian::server::{
    acquire_command, acquire_lock, acquire_lock_reply, begin_update, check_lock, lock_reply,
    read_updater, release_command, release_lock, release_lock_reply, LockCall, LockReply,
    UpdateTicketCall,
};
use crate::db::storage::{Storage, StorageError};
use crate::ids::{uuid_parsed, uuid_text};
use crate::status::{Code, Status};
use crate::text::dec;

verus! {

/// The lock is in force at the time: it has no end, or the end has not come.
pub open spec fn in_force(lock: LockInfo, now: i64) -> bool {
    lock.expires_at_unix == 0 || now < lock.expires_at_unix
}

/// A lock has expired exactly when it is no longer in force.
pub proof fn a_lock_expires_at_its_end(lock: LockInfo, now: i64, expired: bool)
    requires
        call_ensures(LockInfo::is_expired, (&lock, now), expired),
    ensures
        expired <==> !in_force(lock, now),
{
}

/// Only the holder of a lock that is in force may update the ticket, and whoever may not is told
/// why.
pub proof fn only_the_holder_updates(
    lock: Option<LockInfo>,
    updater: u128,
    now: i64,
    out: Result<(), Status>,
)
    requires
        call_ensures(check_lock, (lock, updater, now), out),
    ensures
        out is Ok <==> (lock matches Some(l) && l.user_id == updater && in_force(l, now)),
        out matches Err(e) ==> e.code == Code::PermissionDenied && e.message@ == (match lock {
            None => "ticket is not locked"@,
            Some(l) => if !in_force(l, now) {
                "ticket lock has expired"@
            } else {
                "user does not hold lock"@
            },
        }),
{
}

/// An update begins only for the user that it names, who then holds the lock that storage holds,
/// and only where there is a database.
pub proof fn an_update_begins_for_the_holder(
    req: UpdateTicketCall,
    storage: Storage,
    now: i64,
    configured: bool,
    out: Result<u128, Status>,
    lock: Option<LockInfo>,
)
    requires
        call_ensures(begin_update, (&req, &storage, now, configured), out),
        call_ensures(
            Storage::get_lock_info,
            (&storage, req.ticket_id),
            Ok::<Option<LockInfo>, StorageError>(lock),
        ),
    ensures
        out matches Ok(user) ==> configured && (req.updated_by_uuid matches Some(text)
            && uuid_parsed(text@) == Some(user)) && (lock matches Some(l) && l.user_id == user
            && in_force(l, now)),
        out matches Err(e) ==> match req.updated_by_uuid {
            None => e.code == Code::InvalidArgument && e.message@ == "updated_by_uuid is required"@,
            Some(text) => match uuid_parsed(text@) {
                None => e.code == Code::InvalidArgument && e.message@ == "Invalid updated_by_uuid"@,
                Some(user) => e.code == Code::PermissionDenied || e.code == Code::Internal || (
                e.code == Code::Unavailable && !configured && (lock matches Some(l) && l.user_id
                    == user && in_force(l, now))),
            },
        },
        out matches Err(e) ==> e.code == Code::PermissionDenied ==> !(lock matches Some(l)
            && Some(l.user_id) == uuid_parsed((req.updated_by_uuid->0)@) && in_force(l, now)),
{
}

/// The updater is the id that was given, and must be one.
pub proof fn the_updater_is_named(given: bool, parsed: Option<u128>, out: Result<u128, Status>)
    requires
        call_ensures(read_updater, (given, parsed), out),
    ensures
        out is Ok <==> given && parsed is Some,
        out matches Ok(id) ==> parsed == Some(id),
        out matches Err(e) ==> e.code == Code::InvalidArgument && e.message@ == (if given {
            "Invalid updated_by_uuid"@
        } else {
            "updated_by_uuid is required"@
        }),
{
}

/// The end of a lock that was acquired: none without a time to live, else the sum, or the last
/// second there is where it would lie beyond.
pub open spec fn end_of_lock(at: i64, ttl: i64) -> int {
    if ttl <= 0 {
        0
    } else if at + ttl > i64::MAX {
        i64::MAX as int
    } else {
        at + ttl
    }
}

/// A user gets a lock exactly where nobody else holds it in force, and then holds it from when it
/// was asked for, for as long as was asked. One who is refused changes nothing and is told the
/// holder.
pub proof fn a_lock_goes_to_one_user(
    machine: &mut CustodianStateMachine,
    ticket_id: u64,
    user_id: u128,
    at_unix: i64,
    ttl_secs: i64,
    response: LockResponse,
    before: Option<LockInfo>,
    after: Option<LockInfo>,
)
    requires
        call_ensures(
            CustodianStateMachine::apply,
            (machine, &LockCommand::AcquireLock { ticket_id, user_id, at_unix, ttl_secs }),
            Ok::<LockResponse, StorageError>(response),
        ),
        call_ensures(
            Storage::get_lock_info,
            (&old(machine).storage, ticket_id),
            Ok::<Option<LockInfo>, StorageError>(before),
        ),
        call_ensures(
            Storage::get_lock_info,
            (&final(machine).storage, ticket_id),
            Ok::<Option<LockInfo>, StorageError>(after),
        ),
    ensures
        response.success <==> !(before matches Some(l) && l.user_id != user_id && in_force(
            l,
            at_unix,
        )),
        response.success ==> (after matches Some(l) && l.ticket_id == ticket_id && l.user_id
            == user_id && l.acquired_at_unix == at_unix && l.expires_at_unix == end_of_lock(
            at_unix,
            ttl_secs,
        )) && response.error is None,
        !response.success ==> after == before && (response.error matches Some(text) && text@
            == "ticket "@ + dec(ticket_id as nat) + " is locked by "@ + uuid_text(
            before->0.user_id,
        )),
        response.value is None,
{
}

/// Only the holder releases a lock, expired or not; a ticket without one stays free.
pub proof fn a_lock_is_released_by_its_holder(
    machine: &mut CustodianStateMachine,
    ticket_id: u64,
    user_id: u128,
    response: LockResponse,
    before: Option<LockInfo>,
    after: Option<LockInfo>,
)
    requires
        call_ensures(
            CustodianStateMachine::apply,
            (machine, &LockCommand::ReleaseLock { ticket_id, user_id }),
            Ok::<LockResponse, StorageError>(response),
        ),
        call_ensures(
            Storage::get_lock_info,
            (&old(machine).storage, ticket_id),
            Ok::<Option<LockInfo>, StorageError>(before),
        ),
        call_ensures(
            Storage::get_lock_info,
            (&final(machine).storage, ticket_id),
            Ok::<Option<LockInfo>, StorageError>(after),
        ),
    ensures
        response.success <==> (before matches Some(l) ==> l.user_id == user_id),
        response.success ==> after is None && response.error is None,
        !response.success ==> after == before && (response.error matches Some(text) && text@
            == "ticket "@ + dec(ticket_id as nat) + " is held by another user"@),
        response.value is None,
{
}

/// A command on a ticket leaves everything else in storage as it was.
pub proof fn a_command_touches_one_ticket(
    machine: &mut CustodianStateMachine,
    command: LockCommand,
    response: LockResponse,
    tree: &str,
    key: &[u8],
    before: Option<Vec<u8>>,
    after: Option<Vec<u8>>,
)
    requires
        call_ensures(
            CustodianStateMachine::apply,
            (machine, &command),
            Ok::<LockResponse, StorageError>(response),
        ),
        call_ensures(
            Storage::get,
            (&old(machine).storage, tree, key),
            Ok::<Option<Vec<u8>>, StorageError>(before),
        ),
        call_ensures(
            Storage::get,
            (&final(machine).storage, tree, key),
            Ok::<Option<Vec<u8>>, StorageError>(after),
        ),
        (tree@, key@) != lock_at(
            match command {
                LockCommand::AcquireLock { ticket_id, .. } => ticket_id,
                LockCommand::ReleaseLock { ticket_id, .. } => ticket_id,
            },
        ),
    ensures
        before is Some <==> after is Some,
        before matches Some(v) ==> v@ == (after->0)@,
        final(machine).last_applied_log == old(machine).last_applied_log,
        final(machine).last_membership == old(machine).last_membership,
{
}

/// The locks of two tickets stand apart.
pub proof fn locks_stand_apart(a: u64, b: u64)
    requires
        a != b,
    ensures
        lock_at(a) != lock_at(b),
        lock_at(a).0 == TREE_LOCKS@,
{
    if lock_at(a) == lock_at(b) {
        be8_injective(a, b);
    }
}

/// What is decided on a command is what comes of it: a user takes a lock that is free, expired or
/// theirs, and frees one that is theirs or none.
pub proof fn commands_are_decided(existing: Option<LockInfo>, command: LockCommand, out: LockDecision)
    requires
        call_ensures(decide, (existing, &command), out),
    ensures
        match command {
            LockCommand::AcquireLock { ticket_id, user_id, at_unix, ttl_secs } => (out is Refuse
                <==> (existing matches Some(l) && l.user_id != user_id && in_force(l, at_unix)))
                && !(out is Free),
            LockCommand::ReleaseLock { ticket_id, user_id } => (out is Refuse <==> (existing matches Some(
                l,
            ) && l.user_id != user_id)) && !(out is Take),
        },
{
}

/// A lock that is given outright is held by the one it was given to.
pub proof fn a_lock_given_is_held(
    storage: &mut Storage,
    ticket_id: u64,
    user_id: u128,
    at_unix: i64,
    ttl_secs: i64,
    after: Option<LockInfo>,
    locked: bool,
)
    requires
        call_ensures(
            Storage::acquire_lock_at,
            (storage, ticket_id, user_id, at_unix, ttl_secs),
            Ok::<(), StorageError>(()),
        ),
        call_ensures(
            Storage::get_lock_info,
            (&*final(storage), ticket_id),
            Ok::<Option<LockInfo>, StorageError>(after),
        ),
        call_ensures(
            Storage::is_locked,
            (&*final(storage), ticket_id),
            Ok::<bool, StorageError>(locked),
        ),
    ensures
        locked,
        after matches Some(l) && l.ticket_id == ticket_id && l.user_id == user_id
            && l.acquired_at_unix == at_unix && l.expires_at_unix == end_of_lock(at_unix, ttl_secs),
{
}

/// A lock that is given without a time to live has no end.
pub proof fn a_lock_given_for_good_has_no_end(
    storage: &mut Storage,
    ticket_id: u64,
    user_id: u128,
    at_unix: i64,
    after: Option<LockInfo>,
)
    requires
        call_ensures(
            Storage::acquire_lock,
            (storage, ticket_id, user_id, at_unix),
            Ok::<(), StorageError>(()),
        ),
        call_ensures(
            Storage::get_lock_info,
            (&*final(storage), ticket_id),
            Ok::<Option<LockInfo>, StorageError>(after),
        ),
    ensures
        after matches Some(l) && l.ticket_id == ticket_id && l.user_id == user_id
            && l.acquired_at_unix == at_unix && l.expires_at_unix == 0,
{
}

/// A lock that is taken away is gone, and there is a lock exactly where one is found.
pub proof fn a_lock_taken_away_is_gone(
    storage: &mut Storage,
    ticket_id: u64,
    after: Option<LockInfo>,
    locked: bool,
)
    requires
        call_ensures(Storage::release_lock, (storage, ticket_id), Ok::<(), StorageError>(())),
        call_ensures(
            Storage::get_lock_info,
            (&*final(storage), ticket_id),
            Ok::<Option<LockInfo>, StorageError>(after),
        ),
        call_ensures(
            Storage::is_locked,
            (&*final(storage), ticket_id),
            Ok::<bool, StorageError>(locked),
        ),
    ensures
        after is None,
        !locked,
{
}

/// A request for a lock becomes the command for that ticket and that user, at the time and for as
/// long as was said; one whose user is no id becomes none.
pub proof fn requests_become_commands(
    req: LockCall,
    at_unix: i64,
    ttl_secs: i64,
    acquire: Result<LockCommand, Status>,
    release: Result<LockCommand, Status>,
)
    requires
        call_ensures(acquire_lock, (&req, at_unix, ttl_secs), acquire),
        call_ensures(release_lock, (&req,), release),
    ensures
        match uuid_parsed(req.user_uuid@) {
            Some(user) => {
                &&& acquire matches Ok(LockCommand::AcquireLock {
                    ticket_id,
                    user_id,
                    at_unix: at,
                    ttl_secs: ttl,
                }) && ticket_id == req.ticket_id && user_id == user && at == at_unix && ttl == ttl_secs
                &&& release matches Ok(LockCommand::ReleaseLock { ticket_id, user_id }) && ticket_id
                    == req.ticket_id && user_id == user
            },
            None => {
                &&& acquire matches Err(e) && e.code == Code::InvalidArgument && e.message@
                    == "Invalid user UUID"@
                &&& release matches Err(e) && e.code == Code::InvalidArgument && e.message@
                    == "Invalid user UUID"@
            },
        },
{
}

/// Commands are made for the user that was read, and for none where none was.
pub proof fn commands_name_the_user(
    ticket_id: u64,
    user: Option<u128>,
    at_unix: i64,
    ttl_secs: i64,
    acquire: Result<LockCommand, Status>,
    release: Result<LockCommand, Status>,
)
    requires
        call_ensures(acquire_command, (ticket_id, user, at_unix, ttl_secs), acquire),
        call_ensures(release_command, (ticket_id, user), release),
    ensures
        acquire is Ok <==> user is Some,
        release is Ok <==> user is Some,
        user matches Some(user_id) ==> acquire == Ok::<LockCommand, Status>(
            LockCommand::AcquireLock { ticket_id, user_id, at_unix, ttl_secs },
        ) && release == Ok::<LockCommand, Status>(LockCommand::ReleaseLock { ticket_id, user_id }),
{
}

/// The answer to a request for a lock tells whether it was granted, why not, and to one who was
/// refused the holder.
pub proof fn the_refused_learn_the_holder(
    response: LockResponse,
    holder: Option<LockInfo>,
    reply: LockReply,
)
    requires
        call_ensures(lock_reply, (response, holder), reply),
    ensures
        reply.success == response.success,
        match response.error {
            Some(text) => reply.error@ == text@,
            None => reply.error@.len() == 0,
        },
        reply.current_holder is Some <==> !response.success && holder is Some,
        reply.current_holder matches Some(text) ==> text@ == uuid_text(holder->0.user_id),
{
}

/// What the cluster said of a lock is passed on, and a failure of the cluster is told.
pub proof fn the_cluster_s_word_is_passed_on(
    storage: Storage,
    ticket_id: u64,
    outcome: Result<LockResponse, String>,
    acquired: Result<LockReply, Status>,
    released: Result<LockReply, Status>,
    lock: Option<LockInfo>,
)
    requires
        call_ensures(acquire_lock_reply, (&storage, ticket_id, outcome), acquired),
        call_ensures(release_lock_reply, (outcome,), released),
        call_ensures(
            Storage::get_lock_info,
            (&storage, ticket_id),
            Ok::<Option<LockInfo>, StorageError>(lock),
        ),
    ensures
        acquired is Ok <==> outcome is Ok,
        released is Ok <==> outcome is Ok,
        outcome matches Err(text) ==> (acquired->Err_0).code == Code::Internal && (
        acquired->Err_0).message@ == "Raft write failed: "@ + text@ && (released->Err_0)@ == (
        acquired->Err_0)@,
        outcome matches Ok(response) ==> {
            let a = acquired->Ok_0;
            let r = released->Ok_0;
            &&& a.success == response.success && r.success == response.success
            &&& response.error matches Some(text) ==> a.error@ == text@ && r.error@ == text@
            &&& response.error is None ==> a.error@.len() == 0 && r.error@.len() == 0
            &&& r.current_holder is None
            &&& response.success ==> a.current_holder is None
            &&& a.current_holder matches Some(text) ==> (lock matches Some(l) && text@ == uuid_text(
                l.user_id,
            ))
        },
{
}

/// A lock's row is read as the lock that storage gives; no row is no lock.
pub proof fn a_row_of_a_lock_is_the_lock(
    s: &mut Storage,
    id: u64,
    user: u128,
    at: i64,
    ttl: i64,
    lock: Option<LockInfo>,
    none: Result<Option<LockInfo>, StorageError>,
)
    requires
        call_ensures(Storage::acquire_lock_at, (s, id, user, at, ttl), Ok::<(), StorageError>(())),
        call_ensures(
            Storage::get_lock_info,
            (final(s), id),
            Ok::<Option<LockInfo>, StorageError>(lock),
        ),
        call_ensures(read_lock, (None::<Vec<u8>>,), none),
    ensures
        lock matches Some(l) && l.ticket_id == id && l.user_id == user,
        none matches Ok(None),
{
}

} // verus!
