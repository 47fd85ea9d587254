//! The database: what a request asks for is what storage then holds, and what the reply shows.

use vstd::prelude::*;
use vstd::utf8::encode_utf8;

use crate::bytes::{be8, be8_round_trip};
use crate::cluster::{
    commit_index, follower_ids, healthy, leader_text, member_ids, role, without_leader,
};
use crate::custodian::server::{CustodianCluster, CustodianHealth};
use crate::db::consistency::other_rows_stay;
use crate::db::log::LogEntry;
use crate::db::rows::{
    StoredTicket, StoredUser, TicketIndexFields, TicketView, UserIndexFields, UserView,
};
use crate::db::server::{
    batch_put_entry, batch_put_reply, cluster_status, create_ticket_entry, create_ticket_reply,
    create_user_entry, create_user_reply, delete_entry, exists_key, exists_reply, get, get_reply,
    get_ticket, get_user, health, list, list_reply, put_entry, query_reply,
    soft_delete_ticket_entry, soft_delete_user_entry, ticket_index_from_proto, ticket_record,
    ticket_reply, update_ticket_entry, update_ticket_reply, update_user_entry, update_user_reply,
    user_index_from_proto, user_record, user_reply, write_reply, ClusterReply, GetReply,
    HealthReply, KeyValue, TicketLookup, TicketRecord, TicketWrite, UserLookup, UserRecord,
    UserWrite, WireTicketIndex, WireUserIndex,
};
use crate::db::storage::{lookup_ticket, lookup_user, Storage, StorageError};
use crate::db::tickets::{row_trees_apart, ticket_entries_in_indexes};
use crate::db::user_consistency::other_users_stay;
use crate::db::users::user_entries_in_indexes;
use crate::laws::storage::{
    gets, gets_ticket, gets_user, same_ticket, same_ticket_fields, same_user, same_user_fields,
};
use crate::raft::types::{NodeMetrics, ServerState};
use crate::status::{Code, Status};
use crate::store::pairs_of;
use crate::text::{blob_of, dec, decimal_stands_for_its_number, text_of, texts_of, utf8_injective};

verus! {

// ---- Operations ----

/// Applying the creation of a ticket is creating it: the payload is its number in eight bytes, the
/// highest first, and the ticket is then got as it was given. No other ticket changes.
pub proof fn applying_a_creation_creates(
    s: &mut Storage,
    body: Vec<u8>,
    index: TicketIndexFields,
    payload: Option<Vec<u8>>,
    id: u64,
    before: Option<StoredTicket>,
    after: Option<StoredTicket>,
)
    requires
        call_ensures(
            LogEntry::apply,
            (&(LogEntry::CreateTicket { body, index }), s),
            Ok::<Option<Vec<u8>>, StorageError>(payload),
        ),
        gets_ticket(*old(s), id, before),
        gets_ticket(*final(s), id, after),
    ensures
        payload matches Some(bytes) && bytes@.len() == 8 && (bytes@ == be8(id) ==> (after matches Some(
            t,
        ) && t.body@ == body@ && same_ticket_fields(t.index, index) && !t.deleted
            && t.deleted_at_unix == 0)),
        payload matches Some(bytes) && (bytes@ != be8(id) ==> same_ticket(before, after)),
{
    row_trees_apart();
    let new = crate::db::storage::next_counter_value(
        old(s)@,
        encode_utf8(crate::db::storage::SEQ_TICKET@),
    );
    be8_round_trip(new);
    be8_round_trip(id);
    if be8(new) != be8(id) {
        let at = crate::db::storage::ticket_at(id);
        if crate::db::storage::is_entry(
            crate::db::rows::ticket_index_values(index@),
            be8(new),
            at,
        ) {
            ticket_entries_in_indexes(index@, be8(new), at);
        }
    }
}

/// Applying a change of a ticket, or its deletion, does that to that ticket and to no other.
pub proof fn applying_a_change_changes(
    s: &mut Storage,
    t: &mut Storage,
    id: u64,
    body: Vec<u8>,
    index: TicketIndexFields,
    at: i64,
    other: u64,
    before: Option<StoredTicket>,
    changed: Option<StoredTicket>,
    deleted: Option<StoredTicket>,
    payload: Option<Vec<u8>>,
    nothing: Option<Vec<u8>>,
)
    requires
        *old(t) == *old(s),
        call_ensures(
            LogEntry::apply,
            (&(LogEntry::UpdateTicket { ticket_id: id, body, index }), s),
            Ok::<Option<Vec<u8>>, StorageError>(payload),
        ),
        call_ensures(
            LogEntry::apply,
            (&(LogEntry::SoftDeleteTicket { ticket_id: id, at_unix: at }), t),
            Ok::<Option<Vec<u8>>, StorageError>(nothing),
        ),
        gets_ticket(*old(s), other, before),
        gets_ticket(*final(s), other, changed),
        gets_ticket(*final(t), other, deleted),
    ensures
        payload is None && nothing is None,
        other != id ==> same_ticket(before, changed) && same_ticket(before, deleted),
        other == id ==> {
            &&& before is Some && changed is Some && deleted is Some
            &&& changed->0.body@ == body@ && same_ticket_fields(changed->0.index, index)
            &&& changed->0.deleted == before->0.deleted
            &&& changed->0.deleted_at_unix == before->0.deleted_at_unix
            &&& deleted->0.body@ == before->0.body@
            &&& same_ticket_fields(deleted->0.index, before->0.index)
            &&& deleted->0.deleted && deleted->0.deleted_at_unix == at
        },
{
    let b = lookup_ticket(old(s)@, id)->Found_0;
    if other != id {
        other_rows_stay(old(s)@, id, b, TicketView { body: body@, index: index@, ..b }, other);
        other_rows_stay(
            old(s)@,
            id,
            b,
            TicketView { deleted: true, deleted_at_unix: at, ..b },
            other,
        );
    }
}

/// Applying the creation of a user is creating it: it is then got as given, and no other changes.
pub proof fn applying_a_creation_of_a_user_creates(
    s: &mut Storage,
    user_uuid: String,
    body: Vec<u8>,
    index: UserIndexFields,
    payload: Option<Vec<u8>>,
    other: &str,
    before: Option<StoredUser>,
    after: Option<StoredUser>,
)
    requires
        call_ensures(
            LogEntry::apply,
            (&(LogEntry::CreateUser { user_uuid, body, index }), s),
            Ok::<Option<Vec<u8>>, StorageError>(payload),
        ),
        gets_user(*old(s), other, before),
        gets_user(*final(s), other, after),
    ensures
        payload is None,
        other@ == user_uuid@ ==> (after matches Some(u) && u.body@ == body@ && same_user_fields(
            u.index,
            index,
        ) && !u.deleted && u.deleted_at_unix == 0),
        other@ != user_uuid@ ==> same_user(before, after),
{
    row_trees_apart();
    if other@ != user_uuid@ {
        let d = encode_utf8(user_uuid@);
        if d == encode_utf8(other@) {
            utf8_injective(user_uuid@, other@);
        }
        let at = crate::db::storage::user_at(other@);
        if crate::db::storage::is_entry(crate::db::rows::user_index_values(index@), d, at) {
            user_entries_in_indexes(index@, d, at);
        }
    }
}

/// Applying a change of a user, or its deletion, does that to that user and to no other.
pub proof fn applying_a_change_of_a_user_changes(
    s: &mut Storage,
    t: &mut Storage,
    user_uuid: String,
    body: Vec<u8>,
    index: UserIndexFields,
    at: i64,
    other: &str,
    before: Option<StoredUser>,
    changed: Option<StoredUser>,
    deleted: Option<StoredUser>,
    payload: Option<Vec<u8>>,
    nothing: Option<Vec<u8>>,
)
    requires
        *old(t) == *old(s),
        call_ensures(
            LogEntry::apply,
            (&(LogEntry::UpdateUser { user_uuid, body, index }), s),
            Ok::<Option<Vec<u8>>, StorageError>(payload),
        ),
        call_ensures(
            LogEntry::apply,
            (&(LogEntry::SoftDeleteUser { user_uuid, at_unix: at }), t),
            Ok::<Option<Vec<u8>>, StorageError>(nothing),
        ),
        gets_user(*old(s), other, before),
        gets_user(*final(s), other, changed),
        gets_user(*final(t), other, deleted),
    ensures
        payload is None && nothing is None,
        other@ != user_uuid@ ==> same_user(before, changed) && same_user(before, deleted),
        other@ == user_uuid@ ==> {
            &&& before is Some && changed is Some && deleted is Some
            &&& changed->0.body@ == body@ && same_user_fields(changed->0.index, index)
            &&& changed->0.deleted == before->0.deleted
            &&& changed->0.deleted_at_unix == before->0.deleted_at_unix
            &&& deleted->0.body@ == before->0.body@
            &&& same_user_fields(deleted->0.index, before->0.index)
            &&& deleted->0.deleted && deleted->0.deleted_at_unix == at
        },
{
    let b = lookup_user(old(s)@, user_uuid@)->Found_0;
    if other@ != user_uuid@ {
        other_users_stay(
            old(s)@,
            user_uuid@,
            b,
            UserView { body: body@, index: index@, ..b },
            other@,
        );
        other_users_stay(
            old(s)@,
            user_uuid@,
            b,
            UserView { deleted: true, deleted_at_unix: at, ..b },
            other@,
        );
    }
}

/// Applying a write of a pair writes it, applying a deletion deletes the key, and applying a read
/// does nothing. Other keys keep their values, and none of these has a payload.
pub proof fn applying_to_a_collection(
    s: &mut Storage,
    t: &mut Storage,
    r: &mut Storage,
    collection: String,
    key: Vec<u8>,
    value: Vec<u8>,
    tree: &str,
    k: &[u8],
    before: Option<Vec<u8>>,
    put: Option<Vec<u8>>,
    deleted: Option<Vec<u8>>,
    read: Option<Vec<u8>>,
    p: Option<Vec<u8>>,
    d: Option<Vec<u8>>,
    g: Option<Vec<u8>>,
)
    requires
        *old(t) == *old(s),
        *old(r) == *old(s),
        call_ensures(
            LogEntry::apply,
            (&(LogEntry::Put { collection, key, value }), s),
            Ok::<Option<Vec<u8>>, StorageError>(p),
        ),
        call_ensures(
            LogEntry::apply,
            (&(LogEntry::Delete { collection, key }), t),
            Ok::<Option<Vec<u8>>, StorageError>(d),
        ),
        call_ensures(
            LogEntry::apply,
            (&(LogEntry::Get { collection, key }), r),
            Ok::<Option<Vec<u8>>, StorageError>(g),
        ),
        gets(*old(s), tree, k, before),
        gets(*final(s), tree, k, put),
        gets(*final(t), tree, k, deleted),
        gets(*final(r), tree, k, read),
    ensures
        p is None && d is None && g is None,
        blob_of(read) == blob_of(before),
        tree@ == collection@ && k@ == key@ ==> blob_of(put) == Some(value@) && deleted is None,
        !(tree@ == collection@ && k@ == key@) ==> blob_of(put) == blob_of(before) && blob_of(deleted)
            == blob_of(before),
{
}

/// Applying a batch does what writing its pairs at once does.
pub proof fn applying_a_batch(
    s: &mut Storage,
    t: &mut Storage,
    collection: String,
    pairs: Vec<(Vec<u8>, Vec<u8>)>,
    tree: &str,
    count: usize,
    k: &[u8],
    applied: Option<Vec<u8>>,
    put: Option<Vec<u8>>,
    payload: Option<Vec<u8>>,
    u: &str,
)
    requires
        *old(t) == *old(s),
        tree@ == collection@,
        call_ensures(
            LogEntry::apply,
            (&(LogEntry::BatchPut { collection, pairs }), s),
            Ok::<Option<Vec<u8>>, StorageError>(payload),
        ),
        call_ensures(Storage::batch_put, (t, tree, &pairs), Ok::<usize, StorageError>(count)),
        gets(*final(s), u, k, applied),
        gets(*final(t), u, k, put),
    ensures
        payload is None,
        blob_of(applied) == blob_of(put),
{
}

// ---- Messages ----

/// The fields of a ticket's message are taken as they are; a status that is no byte counts as zero,
/// and a missing message as an empty one.
pub proof fn ticket_fields_are_taken_over(idx: Option<WireTicketIndex>, out: TicketIndexFields)
    requires
        call_ensures(ticket_index_from_proto, (idx,), out),
    ensures
        idx is None ==> out.status == 0 && out.account_uuid@.len() == 0 && out.assigned_to_uuid
            is None && out.project@.len() == 0 && out.tracking_url is None && out.created_at_unix
            == 0 && out.updated_at_unix == 0,
        idx matches Some(ix) ==> {
            &&& ix.status < 256 ==> out.status == ix.status
            &&& ix.status >= 256 ==> out.status == 0
            &&& out.account_uuid@ == ix.account_uuid@
            &&& text_of(out.assigned_to_uuid) == text_of(ix.assigned_to_uuid)
            &&& out.project@ == ix.project@
            &&& text_of(out.tracking_url) == text_of(ix.tracking_url)
            &&& out.created_at_unix == ix.created_at_unix
            &&& out.updated_at_unix == ix.updated_at_unix
        },
{
}

/// The fields of a user's message are taken as they are; a role that is no byte counts as zero, and
/// a missing message as an empty one.
pub proof fn user_fields_are_taken_over(idx: Option<WireUserIndex>, out: UserIndexFields)
    requires
        call_ensures(user_index_from_proto, (idx,), out),
    ensures
        idx is None ==> out.username@.len() == 0 && out.email@.len() == 0 && out.role == 0,
        idx matches Some(ix) ==> {
            &&& out.username@ == ix.username@
            &&& out.email@ == ix.email@
            &&& ix.role < 256 ==> out.role == ix.role
            &&& ix.role >= 256 ==> out.role == 0
        },
{
}

/// A created ticket is answered with the number it was given, and looking that number up shows the
/// body that was sent.
pub proof fn a_created_ticket_is_looked_up(
    s: &mut Storage,
    req: TicketWrite,
    entry: LogEntry,
    payload: Option<Vec<u8>>,
    record: TicketRecord,
    include_deleted: bool,
    shown: TicketRecord,
    fields: TicketIndexFields,
    kept: Option<StoredTicket>,
)
    requires
        call_ensures(create_ticket_entry, (&req,), entry),
        call_ensures(LogEntry::apply, (&entry, s), Ok::<Option<Vec<u8>>, StorageError>(payload)),
        call_ensures(
            create_ticket_reply,
            (req, Ok::<Option<Vec<u8>>, String>(payload)),
            Ok::<TicketRecord, Status>(record),
        ),
        call_ensures(
            get_ticket,
            (final(s), &(TicketLookup { ticket_id: record.ticket_id, include_deleted })),
            Ok::<TicketRecord, Status>(shown),
        ),
        call_ensures(ticket_index_from_proto, (req.index,), fields),
        gets_ticket(*final(s), record.ticket_id, kept),
    ensures
        record.encrypted_body@ == req.encrypted_body@,
        !record.deleted && record.deleted_at_unix == 0,
        shown.ticket_id == record.ticket_id,
        shown.encrypted_body@ == req.encrypted_body@,
        !shown.deleted && shown.deleted_at_unix == 0,
        kept matches Some(t) && same_ticket_fields(t.index, fields),
{
    let new = crate::db::storage::next_counter_value(
        old(s)@,
        encode_utf8(crate::db::storage::SEQ_TICKET@),
    );
    be8_round_trip(new);
}

/// An updated ticket is answered as it is then kept: with the body that was sent, and deleted if it
/// was deleted before.
pub proof fn an_updated_ticket_is_looked_up(
    s: &mut Storage,
    req: TicketWrite,
    entry: LogEntry,
    payload: Option<Vec<u8>>,
    record: TicketRecord,
    before: Option<StoredTicket>,
    fields: TicketIndexFields,
    kept: Option<StoredTicket>,
)
    requires
        call_ensures(update_ticket_entry, (req,), Ok::<LogEntry, Status>(entry)),
        gets_ticket(*old(s), req.ticket_id, before),
        call_ensures(LogEntry::apply, (&entry, s), Ok::<Option<Vec<u8>>, StorageError>(payload)),
        call_ensures(
            update_ticket_reply,
            (final(s), req.ticket_id, Ok::<(), String>(())),
            Ok::<TicketRecord, Status>(record),
        ),
        call_ensures(ticket_index_from_proto, (req.index,), fields),
        gets_ticket(*final(s), req.ticket_id, kept),
    ensures
        req.ticket_id != 0,
        record.ticket_id == req.ticket_id,
        record.encrypted_body@ == req.encrypted_body@,
        before matches Some(b) && record.deleted == b.deleted && record.deleted_at_unix
            == b.deleted_at_unix,
        kept matches Some(t) && same_ticket_fields(t.index, fields),
{
}

/// A ticket that was deleted is not found, except by those who ask for deleted ones.
pub proof fn a_deleted_ticket_is_looked_up(
    s: &mut Storage,
    req: TicketLookup,
    now: i64,
    entry: LogEntry,
    payload: Option<Vec<u8>>,
    live: Result<TicketRecord, Status>,
    any: Result<TicketRecord, Status>,
    before: Option<StoredTicket>,
)
    requires
        call_ensures(soft_delete_ticket_entry, (&req, now), entry),
        gets_ticket(*old(s), req.ticket_id, before),
        call_ensures(LogEntry::apply, (&entry, s), Ok::<Option<Vec<u8>>, StorageError>(payload)),
        call_ensures(
            get_ticket,
            (final(s), &(TicketLookup { ticket_id: req.ticket_id, include_deleted: false })),
            live,
        ),
        call_ensures(
            get_ticket,
            (final(s), &(TicketLookup { ticket_id: req.ticket_id, include_deleted: true })),
            any,
        ),
    ensures
        live is Err,
        live matches Err(e) ==> e.code == Code::Internal || (e.code == Code::NotFound && e.message@
            == "ticket not found"@),
        any matches Err(e) ==> e.code == Code::Internal,
        any matches Ok(record) ==> record.deleted && record.deleted_at_unix == now && (before matches Some(
            b,
        ) && record.encrypted_body@ == b.body@),
{
}

/// A created user is answered with what was sent, and looking it up shows the same.
pub proof fn a_created_user_is_looked_up(
    s: &mut Storage,
    req: UserWrite,
    entry: LogEntry,
    payload: Option<Vec<u8>>,
    record: UserRecord,
    ask: UserLookup,
    shown: UserRecord,
    fields: UserIndexFields,
    uuid: &str,
    kept: Option<StoredUser>,
)
    requires
        call_ensures(create_user_entry, (&req,), Ok::<LogEntry, Status>(entry)),
        call_ensures(LogEntry::apply, (&entry, s), Ok::<Option<Vec<u8>>, StorageError>(payload)),
        call_ensures(
            create_user_reply,
            (req, Ok::<(), String>(())),
            Ok::<UserRecord, Status>(record),
        ),
        ask.user_uuid@ == record.user_uuid@,
        call_ensures(get_user, (final(s), ask), Ok::<UserRecord, Status>(shown)),
        call_ensures(user_index_from_proto, (req.index,), fields),
        uuid@ == req.user_uuid@,
        gets_user(*final(s), uuid, kept),
    ensures
        req.user_uuid@.len() > 0,
        record.user_uuid@ == req.user_uuid@ && record.encrypted_body@ == req.encrypted_body@,
        !record.deleted && record.deleted_at_unix == 0,
        shown.user_uuid@ == req.user_uuid@ && shown.encrypted_body@ == req.encrypted_body@,
        !shown.deleted && shown.deleted_at_unix == 0,
        kept matches Some(u) && same_user_fields(u.index, fields),
{
}

/// An updated user is answered as it is then kept, deleted if it was deleted before.
pub proof fn an_updated_user_is_looked_up(
    s: &mut Storage,
    req: UserWrite,
    entry: LogEntry,
    payload: Option<Vec<u8>>,
    uuid: &str,
    name: String,
    record: UserRecord,
    before: Option<StoredUser>,
    fields: UserIndexFields,
    kept: Option<StoredUser>,
)
    requires
        call_ensures(update_user_entry, (req,), Ok::<LogEntry, Status>(entry)),
        uuid@ == req.user_uuid@ && name@ == req.user_uuid@,
        gets_user(*old(s), uuid, before),
        call_ensures(LogEntry::apply, (&entry, s), Ok::<Option<Vec<u8>>, StorageError>(payload)),
        call_ensures(
            update_user_reply,
            (final(s), name, Ok::<(), String>(())),
            Ok::<UserRecord, Status>(record),
        ),
        call_ensures(user_index_from_proto, (req.index,), fields),
        gets_user(*final(s), uuid, kept),
    ensures
        req.user_uuid@.len() > 0,
        record.user_uuid@ == req.user_uuid@,
        record.encrypted_body@ == req.encrypted_body@,
        before matches Some(b) && record.deleted == b.deleted && record.deleted_at_unix
            == b.deleted_at_unix,
        kept matches Some(u) && same_user_fields(u.index, fields),
{
}

/// A user that was deleted is not found, except by those who ask for deleted ones.
pub proof fn a_deleted_user_is_looked_up(
    s: &mut Storage,
    req: UserLookup,
    now: i64,
    entry: LogEntry,
    payload: Option<Vec<u8>>,
    ask: UserLookup,
    out: Result<UserRecord, Status>,
    uuid: &str,
    before: Option<StoredUser>,
)
    requires
        call_ensures(soft_delete_user_entry, (req, now), entry),
        uuid@ == req.user_uuid@,
        gets_user(*old(s), uuid, before),
        call_ensures(LogEntry::apply, (&entry, s), Ok::<Option<Vec<u8>>, StorageError>(payload)),
        ask.user_uuid@ == req.user_uuid@,
        call_ensures(get_user, (final(s), ask), out),
    ensures
        !ask.include_deleted ==> out is Err,
        out matches Err(e) ==> e.code == Code::Internal || (!ask.include_deleted && e.code
            == Code::NotFound && e.message@ == "user not found"@),
        out matches Ok(record) ==> record.deleted && record.deleted_at_unix == now && (before matches Some(
            b,
        ) && record.encrypted_body@ == b.body@),
{
}

/// An update needs to name what it updates, and a creation of a user the user; the status says so.
pub proof fn what_a_write_needs(
    t: TicketWrite,
    u: UserWrite,
    updated: Result<LogEntry, Status>,
    user_created: Result<LogEntry, Status>,
    user_updated: Result<LogEntry, Status>,
)
    requires
        call_ensures(update_ticket_entry, (t,), updated),
        call_ensures(create_user_entry, (&u,), user_created),
        call_ensures(update_user_entry, (u,), user_updated),
    ensures
        updated is Err <==> t.ticket_id == 0,
        user_created is Err <==> u.user_uuid@.len() == 0,
        user_updated is Err <==> u.user_uuid@.len() == 0,
        updated matches Err(e) ==> e.code == Code::InvalidArgument && e.message@
            == "update_ticket requires a ticket_id"@,
        user_created matches Err(e) ==> e.code == Code::InvalidArgument && e.message@
            == "create_user requires a user_uuid"@,
        user_updated matches Err(e) ==> e.code == Code::InvalidArgument && e.message@
            == "update_user requires a user_uuid"@,
{
}

/// A write that failed is told as the cluster told it.
pub proof fn a_failed_write_is_told(
    s: Storage,
    t: TicketWrite,
    u: UserWrite,
    name: String,
    id: u64,
    count: u32,
    text: String,
    a: Result<TicketRecord, Status>,
    b: Result<TicketRecord, Status>,
    c: Result<UserRecord, Status>,
    d: Result<UserRecord, Status>,
    e: Result<bool, Status>,
    f: Result<u32, Status>,
)
    requires
        call_ensures(create_ticket_reply, (t, Err::<Option<Vec<u8>>, String>(text)), a),
        call_ensures(update_ticket_reply, (&s, id, Err::<(), String>(text)), b),
        call_ensures(create_user_reply, (u, Err::<(), String>(text)), c),
        call_ensures(update_user_reply, (&s, name, Err::<(), String>(text)), d),
        call_ensures(write_reply, (Err::<(), String>(text),), e),
        call_ensures(batch_put_reply, (count, Err::<(), String>(text)), f),
    ensures
        a is Err && b is Err && c is Err && d is Err && e is Err && f is Err,
        a->Err_0.code == Code::Internal && a->Err_0.message@ == "Raft write failed: "@ + text@,
        b->Err_0.code == Code::Internal && b->Err_0.message@ == "Raft write failed: "@ + text@,
        c->Err_0.code == Code::Internal && c->Err_0.message@ == "Raft write failed: "@ + text@,
        d->Err_0.code == Code::Internal && d->Err_0.message@ == "Raft write failed: "@ + text@,
        e->Err_0.code == Code::Internal && e->Err_0.message@ == "Raft write failed: "@ + text@,
        f->Err_0.code == Code::Internal && f->Err_0.message@ == "Raft write failed: "@ + text@,
{
}

/// A write that was done is told as done: a deletion with yes, a batch with how many were written.
pub proof fn a_write_is_told(
    count: u32,
    value: Option<Vec<u8>>,
    t: TicketWrite,
    done: Result<bool, Status>,
    written: Result<u32, Status>,
    created: Result<TicketRecord, Status>,
)
    requires
        call_ensures(write_reply, (Ok::<(), String>(()),), done),
        call_ensures(batch_put_reply, (count, Ok::<(), String>(())), written),
        call_ensures(create_ticket_reply, (t, Ok::<Option<Vec<u8>>, String>(value)), created),
    ensures
        done matches Ok(yes) && yes,
        written matches Ok(n) && n == count,
        created is Ok <==> (value matches Some(bytes) && bytes@.len() == 8),
        created matches Err(e) ==> e.code == Code::Internal && e.message@
            == "create_ticket did not return an id"@,
        created matches Ok(record) ==> value->0@ == be8(record.ticket_id),
{
    if created is Ok {
        crate::bytes::from_be8_round_trip(value->0@);
    }
}

/// What storage found is shown as it is kept, what it did not find is not found, and why it failed
/// is told.
pub proof fn a_lookup_is_told(
    id: u64,
    uuid: String,
    t: Option<StoredTicket>,
    u: Option<StoredUser>,
    found: Result<TicketRecord, Status>,
    user_found: Result<UserRecord, Status>,
)
    requires
        call_ensures(ticket_reply, (id, Ok::<Option<StoredTicket>, StorageError>(t)), found),
        call_ensures(user_reply, (uuid, Ok::<Option<StoredUser>, StorageError>(u)), user_found),
    ensures
        t is None ==> (found matches Err(e) && e.code == Code::NotFound && e.message@
            == "ticket not found"@),
        t matches Some(k) ==> (found matches Ok(r) && r.ticket_id == id && r.encrypted_body@
            == k.body@ && r.deleted == k.deleted && r.deleted_at_unix == k.deleted_at_unix),
        u is None ==> (user_found matches Err(e) && e.code == Code::NotFound && e.message@
            == "user not found"@),
        u matches Some(k) ==> (user_found matches Ok(r) && r.user_uuid@ == uuid@
            && r.encrypted_body@ == k.body@ && r.deleted == k.deleted && r.deleted_at_unix
            == k.deleted_at_unix),
{
}

/// A record shows what is kept.
pub proof fn a_record_shows_what_is_kept(
    id: u64,
    uuid: String,
    t: StoredTicket,
    u: StoredUser,
    record: TicketRecord,
    user: UserRecord,
)
    requires
        call_ensures(ticket_record, (id, &t), record),
        call_ensures(user_record, (uuid, &u), user),
    ensures
        record.ticket_id == id && record.encrypted_body@ == t.body@,
        record.deleted == t.deleted && record.deleted_at_unix == t.deleted_at_unix,
        user.user_uuid@ == uuid@ && user.encrypted_body@ == u.body@,
        user.deleted == u.deleted && user.deleted_at_unix == u.deleted_at_unix,
{
}

/// Why a read failed is told after what failed: a lookup, a query, a listing or a check.
pub proof fn a_failed_read_is_told(
    text: String,
    id: u64,
    uuid: String,
    a: Result<TicketRecord, Status>,
    b: Result<UserRecord, Status>,
    c: Result<GetReply, Status>,
    d: Result<Vec<TicketRecord>, Status>,
    e: Result<Vec<KeyValue>, Status>,
    f: Result<bool, Status>,
)
    requires
        call_ensures(
            ticket_reply,
            (id, Err::<Option<StoredTicket>, StorageError>(StorageError::Backend(text))),
            a,
        ),
        call_ensures(
            user_reply,
            (uuid, Err::<Option<StoredUser>, StorageError>(StorageError::Corrupt(text))),
            b,
        ),
        call_ensures(
            get_reply,
            (Err::<Option<Vec<u8>>, StorageError>(StorageError::Backend(text)),),
            c,
        ),
        call_ensures(
            query_reply,
            (Err::<Vec<(u64, StoredTicket)>, StorageError>(StorageError::NotFound(text)),),
            d,
        ),
        call_ensures(
            list_reply,
            (Err::<Vec<(Vec<u8>, Vec<u8>)>, StorageError>(StorageError::Backend(text)),),
            e,
        ),
        call_ensures(exists_reply, (Err::<bool, StorageError>(StorageError::Backend(text)),), f),
    ensures
        a is Err && b is Err && c is Err && d is Err && e is Err && f is Err,
        a->Err_0.code == Code::Internal && a->Err_0.message@ == "Storage read failed: "@ + text@,
        b->Err_0.code == Code::Internal && b->Err_0.message@ == "Storage read failed: "@ + text@,
        c->Err_0.code == Code::Internal && c->Err_0.message@ == "Storage read failed: "@ + text@,
        d->Err_0.code == Code::Internal && d->Err_0.message@ == "Storage query failed: "@ + text@,
        e->Err_0.code == Code::Internal && e->Err_0.message@ == "Storage list failed: "@ + text@,
        f->Err_0.code == Code::Internal && f->Err_0.message@ == "Storage check failed: "@ + text@,
{
}

/// A query is answered with one record for each ticket found, in the same order.
pub proof fn a_query_is_told(found: Vec<(u64, StoredTicket)>, out: Result<Vec<TicketRecord>, Status>, i: int)
    requires
        call_ensures(
            query_reply,
            (Ok::<Vec<(u64, StoredTicket)>, StorageError>(found),),
            out,
        ),
    ensures
        out matches Ok(records) && records@.len() == found@.len() && (0 <= i < found@.len() ==> {
            &&& records@[i].ticket_id == found@[i].0
            &&& records@[i].encrypted_body@ == found@[i].1.body@
            &&& records@[i].deleted == found@[i].1.deleted
            &&& records@[i].deleted_at_unix == found@[i].1.deleted_at_unix
        }),
{
    let all = crate::db::storage::tickets_of(found@);
    if 0 <= i < found@.len() {
        assert(crate::db::server::shows_ticket(out->Ok_0@[i], all[i].0, all[i].1));
    }
}

// ---- Collections ----

/// A pair that was put is read back, a key that was deleted is not found, and both are told of when
/// one asks whether the key is there.
pub proof fn a_collection_is_read_as_written(
    s: &mut Storage,
    t: &mut Storage,
    collection: String,
    tree: &str,
    key: Vec<u8>,
    k: &[u8],
    value: Vec<u8>,
    entry: LogEntry,
    removal: LogEntry,
    p: Option<Vec<u8>>,
    d: Option<Vec<u8>>,
    read: GetReply,
    there: bool,
    gone: GetReply,
    still: bool,
)
    requires
        tree@ == collection@ && k@ == key@,
        call_ensures(put_entry, (collection, key, value), entry),
        call_ensures(LogEntry::apply, (&entry, s), Ok::<Option<Vec<u8>>, StorageError>(p)),
        call_ensures(get, (final(s), tree, k), Ok::<GetReply, Status>(read)),
        call_ensures(exists_key, (final(s), tree, k), Ok::<bool, Status>(there)),
        call_ensures(delete_entry, (collection, key), removal),
        call_ensures(LogEntry::apply, (&removal, t), Ok::<Option<Vec<u8>>, StorageError>(d)),
        call_ensures(get, (final(t), tree, k), Ok::<GetReply, Status>(gone)),
        call_ensures(exists_key, (final(t), tree, k), Ok::<bool, Status>(still)),
    ensures
        read.found && read.value@ == value@ && there,
        !gone.found && gone.value@.len() == 0 && !still,
{
}

/// A read is told as storage found it, and so is a check.
pub proof fn a_read_is_told(
    value: Option<Vec<u8>>,
    out: Result<GetReply, Status>,
    there: bool,
    check: Result<bool, Status>,
)
    requires
        call_ensures(get_reply, (Ok::<Option<Vec<u8>>, StorageError>(value),), out),
        call_ensures(exists_reply, (Ok::<bool, StorageError>(there),), check),
    ensures
        check matches Ok(b) && b == there,
        out matches Ok(reply) && reply.found == (value is Some),
        value matches Some(v) ==> out->Ok_0.value@ == v@,
        value is None ==> out->Ok_0.value@.len() == 0,
{
}

/// A batch is the pairs of the request in their order, and counts them.
pub proof fn a_batch_is_the_pairs(
    collection: String,
    items: Vec<KeyValue>,
    out: (LogEntry, u32),
    i: int,
)
    requires
        call_ensures(batch_put_entry, (collection, &items), out),
        items@.len() <= u32::MAX,
    ensures
        out.1 == items@.len(),
        out.0 matches LogEntry::BatchPut { collection: c, pairs } && c@ == collection@ && pairs@.len()
            == items@.len() && (0 <= i < items@.len() ==> pairs@[i].0@ == items@[i].key@
            && pairs@[i].1@ == items@[i].value@),
{
    let all = crate::db::server::key_values(items@);
    let pairs = out.0->BatchPut_pairs;
    assert(pairs_of(pairs@) == all);
    assert(pairs_of(pairs@).len() == pairs@.len());
    if 0 <= i < items@.len() {
        assert(pairs_of(pairs@)[i] == all[i]);
    }
}

/// A listing shows what storage lists, pair for pair.
pub proof fn a_listing_is_told(
    pairs: Vec<(Vec<u8>, Vec<u8>)>,
    out: Result<Vec<KeyValue>, Status>,
    i: int,
)
    requires
        call_ensures(
            list_reply,
            (Ok::<Vec<(Vec<u8>, Vec<u8>)>, StorageError>(pairs),),
            out,
        ),
    ensures
        out matches Ok(items) && items@.len() == pairs@.len() && (0 <= i < pairs@.len()
            ==> items@[i].key@ == pairs@[i].0@ && items@[i].value@ == pairs@[i].1@),
{
    let all = crate::db::server::key_values(out->Ok_0@);
    assert(all == pairs_of(pairs@));
    assert(all.len() == out->Ok_0@.len());
    if 0 <= i < pairs@.len() {
        assert(all[i] == pairs_of(pairs@)[i]);
    }
}

/// A listing is of the pairs whose keys begin as asked, with their values; it is cut off at the
/// limit, and a limit of zero cuts nothing off.
pub proof fn a_listing_is_limited(
    s: Storage,
    tree: &str,
    prefix: &[u8],
    limit: u32,
    items: Vec<KeyValue>,
    i: int,
    key: &[u8],
    value: Option<Vec<u8>>,
)
    requires
        call_ensures(list, (&s, tree, prefix, limit), Ok::<Vec<KeyValue>, Status>(items)),
        gets(s, tree, key, value),
    ensures
        0 <= i < items@.len() ==> prefix@.is_prefix_of(items@[i].key@) && (items@[i].key@ == key@
            ==> blob_of(value) == Some(items@[i].value@)),
        limit > 0 ==> items@.len() <= limit,
        value is Some && prefix@.is_prefix_of(key@) && (limit == 0 || items@.len() < limit) ==> exists|
            a: int,
        | 0 <= a < items@.len() && (#[trigger] items@[a]).key@ == key@,
{
    let most = crate::db::server::limit_of(limit);
    let all = choose|all: Seq<(Seq<u8>, Seq<u8>)>|
        crate::store::is_listing(s@, tree@, crate::store::starting_with(prefix@), all)
            && crate::db::server::key_values(items@) == #[trigger] crate::db::storage::at_most(
            all,
            most,
        );
    let shown = crate::db::server::key_values(items@);
    assert(shown.len() == items@.len());
    if 0 <= i < items@.len() {
        assert(shown[i] == all[i]);
        assert(crate::store::starting_with(prefix@)(all[i].0));
        assert(prefix@ =~= all[i].0.take(prefix@.len() as int));
    }
    if value is Some && prefix@.is_prefix_of(key@) {
        assert(prefix@ =~= key@.take(prefix@.len() as int));
        assert(crate::store::starting_with(prefix@)(key@));
        assert(s@.dom().contains((tree@, key@)));
        let n = choose|n: int| 0 <= n < all.len() && (#[trigger] all[n]).0 == key@;
        if n < items@.len() {
            assert(shown[n] == all[n]);
            assert(items@[n].key@ == key@);
        }
    }
}

// ---- The cluster ----

/// What a node does goes by its name, and a node is healthy while it leads or follows.
pub proof fn nodes_go_by_what_they_do(
    a: String,
    b: String,
    c: String,
    d: String,
    e: String,
    state: ServerState,
    well: bool,
)
    requires
        call_ensures(role, (ServerState::Leader,), a),
        call_ensures(role, (ServerState::Follower,), b),
        call_ensures(role, (ServerState::Candidate,), c),
        call_ensures(role, (ServerState::Learner,), d),
        call_ensures(role, (ServerState::Shutdown,), e),
        call_ensures(healthy, (state,), well),
    ensures
        a@ == "leader"@ && b@ == "follower"@ && c@ == "candidate"@ && d@ == "learner"@ && e@
            == "shutdown"@,
        well <==> state == ServerState::Leader || state == ServerState::Follower,
{
}

/// How a node does is what its metrics say.
pub proof fn a_node_tells_of_itself(m: NodeMetrics, out: HealthReply, name: String, well: bool)
    requires
        call_ensures(health, (&m,), out),
        call_ensures(role, (m.state,), name),
        call_ensures(healthy, (m.state,), well),
    ensures
        out.healthy == well,
        out.role@ == name@,
        out.node_id@ == dec(m.id as nat),
{
}

/// The nodes but the leader are the nodes without the leader.
proof fn leader_left_out(ids: Seq<u64>, leader: Option<u64>, id: u64)
    ensures
        without_leader(ids, leader).contains(id) <==> ids.contains(id) && leader != Some(id),
    decreases ids.len(),
{
    if ids.len() > 0 {
        let rest = without_leader(ids.drop_last(), leader);
        leader_left_out(ids.drop_last(), leader, id);
        let all = without_leader(ids, leader);
        assert(ids =~= ids.drop_last().push(ids.last()));
        if ids.contains(id) && leader != Some(id) {
            if id == ids.last() {
                assert(all == rest.push(id));
                assert(all[rest.len() as int] == id);
            } else {
                let k = choose|k: int| 0 <= k < ids.len() && ids[k] == id;
                assert(ids.drop_last()[k] == id);
                let j = choose|j: int| 0 <= j < rest.len() && rest[j] == id;
                assert(all[j] == id);
            }
        }
        if all.contains(id) {
            let j = choose|j: int| 0 <= j < all.len() && all[j] == id;
            if j < rest.len() {
                assert(rest[j] == id);
                let k = choose|k: int| 0 <= k < ids.drop_last().len() && ids.drop_last()[k] == id;
                assert(ids[k] == id);
            } else {
                assert(ids[ids.len() - 1] == id);
            }
        }
    }
}

/// How the cluster stands is what the metrics say: its leader, its members in order, its term, and
/// what was applied last. The followers are the members but the leader.
pub proof fn a_cluster_tells_of_itself(
    m: NodeMetrics,
    out: ClusterReply,
    members: Vec<String>,
    followers: Vec<String>,
    i: int,
    id: u64,
)
    requires
        call_ensures(cluster_status, (&m,), out),
        call_ensures(member_ids, (&m,), members),
        call_ensures(follower_ids, (&m,), followers),
    ensures
        m.current_leader matches Some(leader) ==> out.leader_id@ == dec(leader as nat),
        m.current_leader is None ==> out.leader_id@.len() == 0,
        out.member_ids@.len() == m.node_ids@.len() && members@.len() == m.node_ids@.len(),
        0 <= i < m.node_ids@.len() ==> out.member_ids@[i]@ == dec(m.node_ids@[i] as nat)
            && members@[i]@ == dec(m.node_ids@[i] as nat),
        out.term == m.current_term,
        m.last_applied matches Some(last) ==> out.commit_index == last.index,
        m.last_applied is None ==> out.commit_index == 0,
        m.node_ids@.contains(id) && m.current_leader != Some(id) ==> exists|k: int|
            0 <= k < followers@.len() && (#[trigger] followers@[k])@ == dec(id as nat),
        m.current_leader == Some(id) ==> forall|k: int|
            0 <= k < followers@.len() ==> (#[trigger] followers@[k])@ != dec(id as nat),
{
    let texts = texts_of(out.member_ids@);
    assert(texts.len() == out.member_ids@.len());
    assert(texts_of(members@).len() == members@.len());
    if 0 <= i < m.node_ids@.len() {
        assert(texts[i] == dec(m.node_ids@[i] as nat));
        assert(texts_of(members@)[i] == dec(m.node_ids@[i] as nat));
    }
    leader_left_out(m.node_ids@, m.current_leader, id);
    let rest = without_leader(m.node_ids@, m.current_leader);
    let shown = texts_of(followers@);
    assert(shown.len() == followers@.len());
    if m.node_ids@.contains(id) && m.current_leader != Some(id) {
        let k = choose|k: int| 0 <= k < rest.len() && rest[k] == id;
        assert(shown[k] == dec(id as nat));
        assert(followers@[k]@ == dec(id as nat));
    }
    if m.current_leader == Some(id) {
        assert forall|k: int| 0 <= k < followers@.len() implies (#[trigger] followers@[k])@ != dec(
            id as nat,
        ) by {
            assert(shown[k] == dec(rest[k] as nat));
            if dec(rest[k] as nat) == dec(id as nat) {
                decimal_stands_for_its_number(rest[k] as nat);
                decimal_stands_for_its_number(id as nat);
                assert(rest.contains(id));
            }
        }
    }
}

/// The leader is told by its number, and what was applied last by its index; nothing is told of what
/// there is not.
pub proof fn the_leader_is_told_by_number(m: NodeMetrics, leader: String, index: u64)
    requires
        call_ensures(leader_text, (&m,), leader),
        call_ensures(commit_index, (&m,), index),
    ensures
        m.current_leader matches Some(id) ==> leader@ == dec(id as nat),
        m.current_leader is None ==> leader@.len() == 0,
        m.last_applied matches Some(last) ==> index == last.index,
        m.last_applied is None ==> index == 0,
{
}

/// The custodian tells of itself and its cluster what the metrics say.
pub proof fn the_custodian_tells_of_itself(
    m: NodeMetrics,
    state: CustodianHealth,
    name: String,
    well: bool,
    out: CustodianCluster,
    leader: String,
    index: u64,
    followers: Vec<String>,
    i: int,
)
    requires
        call_ensures(crate::custodian::server::health, (&m,), state),
        call_ensures(role, (m.state,), name),
        call_ensures(healthy, (m.state,), well),
        call_ensures(crate::custodian::server::cluster_status, (&m,), out),
        call_ensures(leader_text, (&m,), leader),
        call_ensures(commit_index, (&m,), index),
        call_ensures(follower_ids, (&m,), followers),
    ensures
        state.healthy == well && state.status@ == name@,
        out.leader_id@ == leader@ && out.term == m.current_term && out.commit_index == index,
        out.follower_ids@.len() == followers@.len(),
        0 <= i < followers@.len() ==> out.follower_ids@[i]@ == followers@[i]@,
{
    let (a, b) = (texts_of(out.follower_ids@), texts_of(followers@));
    assert(a == b);
    assert(a.len() == out.follower_ids@.len() && b.len() == followers@.len());
    if 0 <= i < followers@.len() {
        assert(a[i] == out.follower_ids@[i]@ && b[i] == followers@[i]@);
    }
}

// ---- What is not there ----

/// A change of what is not there fails, says so unless the database itself failed, and changes
/// nothing.
pub proof fn what_is_not_there_is_not_changed(
    a: &mut Storage,
    b: &mut Storage,
    c: &mut Storage,
    d: &mut Storage,
    id: u64,
    user_uuid: String,
    uuid: &str,
    body: Vec<u8>,
    index: TicketIndexFields,
    fields: UserIndexFields,
    at: i64,
    w: Result<Option<Vec<u8>>, StorageError>,
    x: Result<Option<Vec<u8>>, StorageError>,
    y: Result<Option<Vec<u8>>, StorageError>,
    z: Result<Option<Vec<u8>>, StorageError>,
)
    requires
        *old(b) == *old(a) && *old(c) == *old(a) && *old(d) == *old(a),
        uuid@ == user_uuid@,
        gets_ticket(*old(a), id, None),
        gets_user(*old(a), uuid, None),
        call_ensures(
            LogEntry::apply,
            (&(LogEntry::UpdateTicket { ticket_id: id, body, index }), a),
            w,
        ),
        call_ensures(
            LogEntry::apply,
            (&(LogEntry::SoftDeleteTicket { ticket_id: id, at_unix: at }), b),
            x,
        ),
        call_ensures(
            LogEntry::apply,
            (&(LogEntry::UpdateUser { user_uuid, body, index: fields }), c),
            y,
        ),
        call_ensures(
            LogEntry::apply,
            (&(LogEntry::SoftDeleteUser { user_uuid, at_unix: at }), d),
            z,
        ),
    ensures
        w is Err && x is Err && y is Err && z is Err,
        w->Err_0 is NotFound || w->Err_0 is Backend,
        x->Err_0 is NotFound || x->Err_0 is Backend,
        y->Err_0 is NotFound || y->Err_0 is Backend,
        z->Err_0 is NotFound || z->Err_0 is Backend,
        w->Err_0 is NotFound ==> final(a)@ == old(a)@,
        x->Err_0 is NotFound ==> final(b)@ == old(b)@,
        y->Err_0 is NotFound ==> final(c)@ == old(c)@,
        z->Err_0 is NotFound ==> final(d)@ == old(d)@,
{
}

/// Applying the same operation to storages that hold the same makes them hold the same again, and
/// answers the same.
pub proof fn replicas_stay_the_same(
    a: &mut Storage,
    b: &mut Storage,
    entry: LogEntry,
    x: Option<Vec<u8>>,
    y: Option<Vec<u8>>,
)
    requires
        old(a)@ == old(b)@,
        call_ensures(LogEntry::apply, (&entry, a), Ok::<Option<Vec<u8>>, StorageError>(x)),
        call_ensures(LogEntry::apply, (&entry, b), Ok::<Option<Vec<u8>>, StorageError>(y)),
    ensures
        final(a)@ == final(b)@,
        blob_of(x) == blob_of(y),
{
}

} // verus!
