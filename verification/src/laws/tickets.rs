//! Tickets: from the request to the reply.

use vstd::prelude::*;

use crate::custodian::db_client::{
    create_ticket_write, get_reply, get_ticket_outcome, put_reply, soft_delete_lookup,
    update_ticket_write,
};
use crate::custodian::server::{
    apply_update, build_ticket, create_ticket, create_ticket_reply, created_ticket_write,
    decrypt_ticket, encrypt_ticket, fetched_record, get_ticket_reply, lock_ttl_secs,
    queried_records, query_call, query_reply, require_client, update_ticket, update_ticket_reply,
    updated_ticket_write, BodyError, CreateTicketCall, SealError, UpdateTicketCall,
};
use crate::custodian::ticket::{
    auto_close_to_proto, domain_to_proto, map_history_entry, map_network_device, map_next_action,
    proto_to_auto_close, proto_to_next_action, ticket_index, AutoCloseSchedule, DeviceMessage,
    DeviceType, HistoryEntry, HistoryMessage, NetworkDevice, NextAction, NextActionKind,
    NextActionMessage, Symptom, Ticket, TicketMessage, TicketPriority, TicketStatus,
};
use crate::db::server::{
    GetReply, TicketLookup, TicketRecord, TicketWrite, WireTicketIndex, WireTicketQuery,
};
use crate::ids::{uuid_parsed, uuid_text};
use crate::laws::workflow::is_status_number;
use crate::policy::can_transition;
use crate::status::{Code, Status};
use crate::text::{dec_int, read_i64, signed_round_trip};
use crate::time::{dt_to_proto, is_moment, proto_to_dt, Moment, Timestamp};

verus! {

/// The number of a request as it is shown again: itself where it fits, else nought.
pub open spec fn shown_number(n: i32, greatest: i32) -> i32 {
    if 0 <= n <= greatest {
        n
    } else {
        0
    }
}

/// The point in time that stands on the wire, where that is one: the start of 1970 otherwise.
pub open spec fn is_read_moment(ts: Timestamp, at: Moment) -> bool {
    let nanos = if ts.nanos < 0 {
        0
    } else {
        ts.nanos as int
    };
    if is_moment(ts.seconds as int, nanos) {
        at.secs == ts.seconds && at.nanos == nanos
    } else {
        at.secs == 0 && at.nanos == 0
    }
}

// ---- Creating ----

/// The reply to the creation of a ticket shows what the request said, an open ticket that nobody
/// has worked on, and the number that the database gave.
pub proof fn a_created_ticket_is_shown_as_asked(
    req: CreateTicketCall,
    now: Moment,
    ticket: Ticket,
    outcome: Option<Result<u64, String>>,
    now_millis: i64,
    m: TicketMessage,
)
    requires
        is_moment(now.secs as int, now.nanos as int),
        call_ensures(create_ticket, (req, now), Ok::<Ticket, Status>(ticket)),
        call_ensures(
            create_ticket_reply,
            (ticket, outcome, now_millis),
            Ok::<TicketMessage, Status>(m),
        ),
    ensures
        m.title@ == req.title@,
        m.project@ == req.project@,
        m.symptom == shown_number(req.symptom, 255),
        m.priority == shown_number(req.priority, 5),
        uuid_parsed(req.account_uuid@) matches Some(id) && m.account_uuid@ == uuid_text(id),
        uuid_parsed(req.created_by_uuid@) matches Some(id) && m.created_by_uuid@ == uuid_text(id),
        m.updated_by_uuid@ == m.created_by_uuid@,
        match req.customer_ticket_number {
            Some(text) => m.customer_ticket_number matches Some(shown) && shown@ == text@,
            None => m.customer_ticket_number is None,
        },
        match req.isp_ticket_number {
            Some(text) => m.isp_ticket_number matches Some(shown) && shown@ == text@,
            None => m.isp_ticket_number is None,
        },
        match req.other_ticket_number {
            Some(text) => m.other_ticket_number matches Some(shown) && shown@ == text@,
            None => m.other_ticket_number is None,
        },
        match req.ebond {
            Some(text) => m.ebond matches Some(shown) && shown@ == text@,
            None => m.ebond is None,
        },
        match req.tracking_url {
            Some(text) => m.tracking_url matches Some(shown) && shown@ == text@,
            None => m.tracking_url is None,
        },
        m.status == 0,
        m.next_action is None,
        m.resolution is None,
        m.locked_by_uuid is None,
        m.assigned_to_uuid is None,
        m.history@.len() == 0,
        m.network_devices@.len() == 0,
        m.schema_version == 1,
        m.updated_at == m.created_at,
        now.nanos < 1_000_000_000 ==> m.created_at == Some(
            Timestamp { seconds: now.secs, nanos: now.nanos as i32 },
        ),
        match outcome {
            Some(given) => given == Ok::<u64, String>(m.ticket_id),
            None => m.ticket_id == (if now_millis < 0 {
                0
            } else {
                now_millis as int
            }),
        },
{
}

/// A ticket is created exactly where it has a title and both ids are ids, and the first of these
/// that is missing is what is said.
pub proof fn what_a_ticket_needs(
    req: CreateTicketCall,
    now: Moment,
    out: Result<Ticket, Status>,
)
    requires
        is_moment(now.secs as int, now.nanos as int),
        call_ensures(create_ticket, (req, now), out),
    ensures
        out is Ok <==> req.title@.len() > 0 && uuid_parsed(req.account_uuid@) is Some
            && uuid_parsed(req.created_by_uuid@) is Some,
        out matches Err(e) ==> {
            &&& e.code == Code::InvalidArgument
            &&& req.title@.len() == 0 ==> e.message@ == "title is required"@
            &&& req.title@.len() > 0 && uuid_parsed(req.account_uuid@) is None ==> e.message@
                == "Invalid account UUID"@
            &&& req.title@.len() > 0 && uuid_parsed(req.account_uuid@) is Some ==> e.message@
                == "Invalid created_by UUID"@
        },
{
}

/// To create by request is to build with the ids that the request names: both fail together, and
/// the tickets say the same.
pub proof fn creating_is_building(
    req: CreateTicketCall,
    now: Moment,
    a: Result<Ticket, Status>,
    b: Result<Ticket, Status>,
)
    requires
        is_moment(now.secs as int, now.nanos as int),
        call_ensures(create_ticket, (req, now), a),
        call_ensures(
            build_ticket,
            (req, uuid_parsed(req.account_uuid@), uuid_parsed(req.created_by_uuid@), now),
            b,
        ),
    ensures
        a is Ok <==> b is Ok,
        a matches Err(e) ==> e@ == (b->Err_0)@,
        a matches Ok(t) ==> {
            let u = b->Ok_0;
            &&& t.title@ == u.title@
            &&& t.project@ == u.project@
            &&& t.priority == u.priority
            &&& t.symptom == u.symptom
            &&& t.status == u.status
            &&& t.account_uuid == u.account_uuid
            &&& t.created_by == u.created_by
            &&& t.updated_by == u.updated_by
            &&& t.created_at == u.created_at
            &&& t.updated_at == u.updated_at
            &&& t.customer_ticket_number == u.customer_ticket_number
            &&& t.isp_ticket_number == u.isp_ticket_number
            &&& t.other_ticket_number == u.other_ticket_number
            &&& t.ebond == u.ebond
            &&& t.tracking_url == u.tracking_url
        },
{
}

/// A failure of the database is passed on, and without a database there is none.
pub proof fn a_failed_creation_is_told(
    ticket: Ticket,
    outcome: Option<Result<u64, String>>,
    now_millis: i64,
    out: Result<TicketMessage, Status>,
)
    requires
        call_ensures(create_ticket_reply, (ticket, outcome, now_millis), out),
    ensures
        out is Err <==> (outcome matches Some(Err(_))),
        out matches Err(e) ==> e.code == Code::Internal && (outcome matches Some(Err(text)) && e.message@
            == "db create_ticket error: "@ + text@),
{
}

// ---- Updating ----

/// When an update is done, each field that the request names has the value that it gives, each
/// other field is as it was, and the ticket says who updated it and when.
pub proof fn an_update_does_what_it_names(
    t: Ticket,
    req: UpdateTicketCall,
    assignee: Option<u128>,
    updater: u128,
    now: Moment,
    after: Ticket,
)
    requires
        call_ensures(
            apply_update,
            (t, req, assignee, updater, now),
            Ok::<Ticket, Status>(after),
        ),
    ensures
        match req.title {
            Some(title) => after.title@ == title@,
            None => after.title == t.title,
        },
        match req.project {
            Some(project) => after.project@ == project@,
            None => after.project == t.project,
        },
        match req.symptom {
            Some(n) => after.symptom.code == shown_number(n, 255),
            None => after.symptom == t.symptom,
        },
        req.priority is None ==> after.priority == t.priority,
        req.status is None ==> after.status == t.status,
        match req.next_action {
            Some(message) => match message.kind {
                None => after.next_action == NextAction::NoAction,
                Some(NextActionKind::FollowUp(ts)) => after.next_action matches NextAction::FollowUp(
                    at,
                ) && is_read_moment(ts, at),
                Some(NextActionKind::Appointment(ts)) => after.next_action matches NextAction::Appointment(
                    at,
                ) && is_read_moment(ts, at),
                Some(NextActionKind::AutoClose(_)) => after.next_action is AutoClose,
            },
            None => after.next_action == t.next_action,
        },
        match req.resolution {
            Some(n) => after.resolution matches Some(r) && r.code == shown_number(n, 255),
            None => after.resolution == t.resolution,
        },
        match req.assigned_to_uuid {
            Some(_) => assignee is Some && after.assigned_to == assignee,
            None => after.assigned_to == t.assigned_to,
        },
        after.updated_by == updater,
        after.updated_at == now,
        after.ticket_id == t.ticket_id,
        after.customer_ticket_number == t.customer_ticket_number,
        after.isp_ticket_number == t.isp_ticket_number,
        after.other_ticket_number == t.other_ticket_number,
        after.account_uuid == t.account_uuid,
        after.locked_by == t.locked_by,
        after.created_by == t.created_by,
        after.created_at == t.created_at,
        after.history == t.history,
        after.ebond == t.ebond,
        after.tracking_url == t.tracking_url,
        after.network_devices == t.network_devices,
        after.schema_version == t.schema_version,
{
}

/// The reply to an update shows the numbers, the text and the plan that the request named.
pub proof fn an_updated_ticket_is_shown_as_asked(
    t: Ticket,
    req: UpdateTicketCall,
    assignee: Option<u128>,
    updater: u128,
    now: Moment,
    after: Ticket,
    m: TicketMessage,
)
    requires
        call_ensures(
            apply_update,
            (t, req, assignee, updater, now),
            Ok::<Ticket, Status>(after),
        ),
        call_ensures(
            update_ticket_reply,
            (&after, Ok::<(), String>(())),
            Ok::<TicketMessage, Status>(m),
        ),
    ensures
        m.ticket_id == t.ticket_id,
        req.title matches Some(title) ==> m.title@ == title@,
        req.title is None ==> m.title@ == t.title@,
        req.project matches Some(project) ==> m.project@ == project@,
        req.project is None ==> m.project@ == t.project@,
        req.symptom matches Some(n) ==> m.symptom == shown_number(n, 255),
        req.priority matches Some(n) ==> m.priority == shown_number(n, 5),
        req.status matches Some(n) ==> m.status == (if is_status_number(n) {
            n
        } else {
            0
        }),
        req.resolution matches Some(n) ==> m.resolution == Some(shown_number(n, 255)),
        req.resolution is None && t.resolution is None ==> m.resolution is None,
        req.assigned_to_uuid is Some ==> (assignee matches Some(id) && (m.assigned_to_uuid matches Some(
            text,
        ) && text@ == uuid_text(id))),
        m.updated_by_uuid@ == uuid_text(updater),
        now.nanos < 1_000_000_000 ==> m.updated_at == Some(
            Timestamp { seconds: now.secs, nanos: now.nanos as i32 },
        ),
        req.next_action matches Some(message) ==> match message.kind {
            None => m.next_action is None,
            Some(NextActionKind::AutoClose(n)) => m.next_action == Some(
                NextActionMessage {
                    kind: Some(
                        NextActionKind::AutoClose(
                            if 2 <= n <= 4 {
                                n
                            } else {
                                1
                            },
                        ),
                    ),
                },
            ),
            Some(NextActionKind::FollowUp(ts)) => is_moment(ts.seconds as int, ts.nanos as int)
                && ts.nanos < 1_000_000_000 ==> m.next_action == Some(message),
            Some(NextActionKind::Appointment(ts)) => is_moment(ts.seconds as int, ts.nanos as int)
                && ts.nanos < 1_000_000_000 ==> m.next_action == Some(message),
        },
{
}

/// An update is refused exactly where the policy does not let the ticket go to the status that is
/// asked for, or the assignee is no id; the first is looked at first.
pub proof fn what_an_update_needs(
    t: Ticket,
    req: UpdateTicketCall,
    assignee: Option<u128>,
    updater: u128,
    now: Moment,
    out: Result<Ticket, Status>,
    from: i32,
    byte: u8,
    asked: TicketStatus,
    to: i32,
    allowed: bool,
)
    requires
        call_ensures(apply_update, (t, req, assignee, updater, now), out),
        call_ensures(TicketStatus::number, (&t.status,), from),
        req.status matches Some(n) ==> byte == shown_number(n, 255),
        call_ensures(TicketStatus::from_u8, (byte,), asked),
        call_ensures(TicketStatus::number, (&asked,), to),
        call_ensures(can_transition, (from, to), allowed),
    ensures
        out is Ok <==> (req.status is None || allowed) && (req.assigned_to_uuid is None || assignee is Some),
        out matches Ok(after) ==> req.status is Some ==> after.status == asked,
        out matches Err(e) ==> if req.status is Some && !allowed {
            e.code == Code::FailedPrecondition && "invalid status transition: "@.is_prefix_of(
                e.message@,
            )
        } else {
            e.code == Code::InvalidArgument && e.message@ == "Invalid assigned_to UUID"@
        },
{
    let prefix = "invalid status transition: "@;
    let text = crate::custodian::server::transition_text(t.status, asked);
    assert(text.take(prefix.len() as int) =~= prefix);
}

/// To update by request is to update with the assignee that the request names.
pub proof fn updating_reads_the_assignee(
    t: Ticket,
    req: UpdateTicketCall,
    updater: u128,
    now: Moment,
    a: Result<Ticket, Status>,
    b: Result<Ticket, Status>,
    assignee: Option<u128>,
)
    requires
        call_ensures(update_ticket, (t, req, updater, now), a),
        call_ensures(apply_update, (t, req, assignee, updater, now), b),
        req.assigned_to_uuid matches Some(text) ==> assignee == uuid_parsed(text@),
    ensures
        a is Ok <==> b is Ok,
        a matches Ok(after) ==> after == b->Ok_0,
        a matches Err(e) ==> e@ == (b->Err_0)@,
{
}

/// A failure to keep an updated ticket is passed on.
pub proof fn a_failed_update_is_told(
    ticket: Ticket,
    outcome: Result<(), String>,
    out: Result<TicketMessage, Status>,
)
    requires
        call_ensures(update_ticket_reply, (&ticket, outcome), out),
    ensures
        out is Ok <==> outcome is Ok,
        out matches Err(e) ==> e.code == Code::Internal && e.message@ == "db update_ticket error: "@
            + (outcome->Err_0)@,
{
}

// ---- Showing ----

/// What is shown of a ticket is what it says, under the number that the database knows it by.
pub proof fn a_ticket_is_shown_as_it_is(
    ticket_id: u64,
    t: Ticket,
    m: TicketMessage,
    status: i32,
    priority: u8,
    plan: Option<NextActionMessage>,
    made: Timestamp,
    changed: Timestamp,
)
    requires
        call_ensures(
            get_ticket_reply,
            (ticket_id, Ok::<Ticket, BodyError>(t)),
            Ok::<TicketMessage, Status>(m),
        ),
        call_ensures(TicketStatus::number, (&t.status,), status),
        call_ensures(crate::custodian::ticket::TicketPriority::number, (&t.priority,), priority),
        call_ensures(map_next_action, (&t.next_action,), plan),
        call_ensures(dt_to_proto, (t.created_at,), made),
        call_ensures(dt_to_proto, (t.updated_at,), changed),
    ensures
        m.ticket_id == ticket_id,
        m.title@ == t.title@,
        m.project@ == t.project@,
        m.account_uuid@ == uuid_text(t.account_uuid),
        m.symptom == t.symptom.code,
        m.priority == priority,
        m.status == status,
        m.next_action == plan,
        match t.resolution {
            Some(r) => m.resolution == Some(r.code as i32),
            None => m.resolution is None,
        },
        match t.locked_by {
            Some(id) => m.locked_by_uuid matches Some(text) && text@ == uuid_text(id),
            None => m.locked_by_uuid is None,
        },
        match t.assigned_to {
            Some(id) => m.assigned_to_uuid matches Some(text) && text@ == uuid_text(id),
            None => m.assigned_to_uuid is None,
        },
        m.created_by_uuid@ == uuid_text(t.created_by),
        m.updated_by_uuid@ == uuid_text(t.updated_by),
        m.created_at == Some(made),
        m.updated_at == Some(changed),
        m.schema_version == t.schema_version,
        match t.customer_ticket_number {
            Some(text) => m.customer_ticket_number matches Some(shown) && shown@ == text@,
            None => m.customer_ticket_number is None,
        },
        match t.isp_ticket_number {
            Some(text) => m.isp_ticket_number matches Some(shown) && shown@ == text@,
            None => m.isp_ticket_number is None,
        },
        match t.other_ticket_number {
            Some(text) => m.other_ticket_number matches Some(shown) && shown@ == text@,
            None => m.other_ticket_number is None,
        },
        match t.ebond {
            Some(text) => m.ebond matches Some(shown) && shown@ == text@,
            None => m.ebond is None,
        },
        match t.tracking_url {
            Some(text) => m.tracking_url matches Some(shown) && shown@ == text@,
            None => m.tracking_url is None,
        },
        m.history@.len() == t.history@.len(),
        m.network_devices@.len() == t.network_devices@.len(),
        forall|i: int|
            0 <= i < t.history@.len() ==> (#[trigger] m.history@[i]).action@
                == t.history@[i].field_changed@ && m.history@[i].user_uuid@ == uuid_text(
                t.history@[i].user_id,
            ),
{
    assert forall|i: int| 0 <= i < t.history@.len() implies (#[trigger] m.history@[i]).action@
        == t.history@[i].field_changed@ && m.history@[i].user_uuid@ == uuid_text(
        t.history@[i].user_id,
    ) by {
        assert(crate::custodian::ticket::shows_change(m.history@[i], t.history@[i]));
    }
}

/// A body that cannot be opened is told with what went wrong, whichever way it is asked for.
pub proof fn a_sealed_body_is_told(
    ticket_id: u64,
    e: BodyError,
    shown: Result<TicketMessage, Status>,
    opened: Result<Ticket, Status>,
)
    requires
        call_ensures(get_ticket_reply, (ticket_id, Err::<Ticket, BodyError>(e)), shown),
        call_ensures(decrypt_ticket, (ticket_id, Err::<Ticket, BodyError>(e)), opened),
    ensures
        shown matches Err(s) && s.code == Code::Internal && s.message@ == (match e {
            BodyError::Sealed(text) => "deserialize encrypted data error: "@ + text@,
            BodyError::Decryption(text) => "decryption error: "@ + text@,
            BodyError::Content(text) => "deserialize ticket error: "@ + text@,
        }),
        opened matches Err(s) && s@ == (shown->Err_0)@,
{
}

/// An opened ticket is the body's, with the database's number.
pub proof fn an_opened_ticket_has_the_record_s_number(
    ticket_id: u64,
    t: Ticket,
    out: Result<Ticket, Status>,
)
    requires
        call_ensures(decrypt_ticket, (ticket_id, Ok::<Ticket, BodyError>(t)), out),
    ensures
        out matches Ok(opened) && opened.ticket_id == ticket_id && opened == (Ticket {
            ticket_id,
            ..t
        }),
{
}

/// The answer to a query shows each ticket as a request for it alone would, in order, or fails with
/// the first that cannot be opened.
pub proof fn a_query_shows_each_ticket(
    bodies: Vec<(u64, Result<Ticket, BodyError>)>,
    out: Result<Vec<TicketMessage>, Status>,
    i: int,
)
    requires
        call_ensures(query_reply, (bodies,), out),
        0 <= i < bodies@.len(),
    ensures
        out is Ok <==> forall|j: int| 0 <= j < bodies@.len() ==> (#[trigger] bodies@[j]).1 is Ok,
        out matches Ok(messages) ==> messages@.len() == bodies@.len() && messages@[i].ticket_id
            == bodies@[i].0 && (bodies@[i].1 matches Ok(t) && messages@[i].title@ == t.title@
            && messages@[i].project@ == t.project@ && messages@[i].symptom == t.symptom.code),
        out is Err && bodies@[i].1 is Err && (forall|j: int|
            0 <= j < i ==> (#[trigger] bodies@[j]).1 is Ok) ==> (out->Err_0).code == Code::Internal
            && (out->Err_0)@ == crate::custodian::server::body_status(bodies@[i].1->Err_0),
{
    if out is Ok {
        let messages = out->Ok_0;
        assert forall|j: int| 0 <= j < bodies@.len() implies (#[trigger] bodies@[j]).1 is Ok by {
            let shown = Ticket { ticket_id: bodies@[j].0, ..bodies@[j].1->Ok_0 };
            assert(crate::custodian::ticket::shows_ticket_message(messages@[j], shown));
        }
    }
}


/// A change is shown by who made it and when, under the name of the field, and what is said of it
/// tells the old value and the new one.
pub proof fn a_change_is_shown_as_it_was(entry: HistoryEntry, m: HistoryMessage, at: Timestamp)
    requires
        call_ensures(map_history_entry, (&entry,), m),
        call_ensures(dt_to_proto, (entry.timestamp,), at),
    ensures
        m.user_uuid@ == uuid_text(entry.user_id),
        m.timestamp == Some(at),
        m.action@ == entry.field_changed@,
        m.details@ == entry.field_changed@ + (match (entry.old_value, entry.new_value) {
            (None, None) => ""@,
            (Some(o), None) => ": "@ + o@ + " \u{2192} (removed)"@,
            (None, Some(n)) => ": (new) \u{2192} "@ + n@,
            (Some(o), Some(n)) => ": "@ + o@ + " \u{2192} "@ + n@,
        }),
{
    let field = entry.field_changed@;
    reveal_strlit("");
    match (entry.old_value, entry.new_value) {
        (None, None) => {
            assert(m.details@ =~= field + ""@);
        },
        (Some(o), None) => {
            assert(m.details@ =~= field + (": "@ + o@ + " \u{2192} (removed)"@));
        },
        (None, Some(n)) => {
            assert(m.details@ =~= field + (": (new) \u{2192} "@ + n@));
        },
        (Some(o), Some(n)) => {
            assert(m.details@ =~= field + (": "@ + o@ + " \u{2192} "@ + n@));
        },
    }
}

/// The text of a field of a device on the wire is that of the device.
pub open spec fn same_text(shown: Option<String>, known: Option<String>) -> bool {
    match known {
        Some(text) => shown matches Some(t) && t@ == text@,
        None => shown is None,
    }
}

/// A device is shown as one of its own kind, with what is known of it.
pub proof fn a_device_is_shown_as_it_is(device: NetworkDevice, m: DeviceMessage)
    requires
        call_ensures(map_network_device, (&device,), m),
    ensures
        device is DslModem <==> m.device_type matches Some(DeviceType::DslModem(_)),
        device is CoaxModem <==> m.device_type matches Some(DeviceType::CoaxModem(_)),
        device is Ont <==> m.device_type matches Some(DeviceType::Ont(_)),
        device is FixedWirelessAntenna <==> m.device_type matches Some(
            DeviceType::FixedWirelessAntenna(_),
        ),
        device is VpnGw <==> m.device_type matches Some(DeviceType::VpnGw(_)),
        device is Switch <==> m.device_type matches Some(DeviceType::Switch(_)),
        device is Router <==> m.device_type matches Some(DeviceType::Router(_)),
        device is Firewall <==> m.device_type matches Some(DeviceType::Firewall(_)),
        ({
            let (make, model, mac, serial) = match device {
                NetworkDevice::DslModem { make, model, mac_address, serial_number } => (
                    make,
                    model,
                    mac_address,
                    serial_number,
                ),
                NetworkDevice::CoaxModem { make, model, mac_address, serial_number } => (
                    make,
                    model,
                    mac_address,
                    serial_number,
                ),
                NetworkDevice::Ont { make, model, mac_address, serial_number } => (
                    make,
                    model,
                    mac_address,
                    serial_number,
                ),
                NetworkDevice::FixedWirelessAntenna { make, model, mac_address, serial_number } => (
                    make,
                    model,
                    mac_address,
                    serial_number,
                ),
                NetworkDevice::VpnGw { make, model, mac_address, serial_number } => (
                    make,
                    model,
                    mac_address,
                    serial_number,
                ),
                NetworkDevice::Switch { make, model, mac_address, serial_number } => (
                    make,
                    model,
                    mac_address,
                    serial_number,
                ),
                NetworkDevice::Router { make, model, mac_address, serial_number } => (
                    make,
                    model,
                    mac_address,
                    serial_number,
                ),
                NetworkDevice::Firewall { make, model, mac_address, serial_number } => (
                    make,
                    model,
                    mac_address,
                    serial_number,
                ),
            };
            let f = match m.device_type->0 {
                DeviceType::DslModem(f) => f,
                DeviceType::CoaxModem(f) => f,
                DeviceType::Ont(f) => f,
                DeviceType::FixedWirelessAntenna(f) => f,
                DeviceType::VpnGw(f) => f,
                DeviceType::Switch(f) => f,
                DeviceType::Router(f) => f,
                DeviceType::Firewall(f) => f,
            };
            &&& f.make@ == make@
            &&& f.model@ == model@
            &&& same_text(f.mac_address, mac)
            &&& same_text(f.serial_number, serial)
        }),
{
}

/// A plan crosses the wire: its kind stays, its time stays where it is no leap second, and a
/// schedule keeps its length. No plan is no message.
pub proof fn a_plan_crosses_the_wire(a: NextAction, m: Option<NextActionMessage>, back: NextAction)
    requires
        crate::custodian::ticket::action_valid(a),
        call_ensures(map_next_action, (&a,), m),
        m matches Some(message) ==> call_ensures(proto_to_next_action, (&message,), back),
    ensures
        m is None <==> a == NextAction::NoAction,
        m is Some ==> match a {
            NextAction::FollowUp(at) => back matches NextAction::FollowUp(b) && (at.nanos
                < 1_000_000_000 ==> b == at),
            NextAction::Appointment(at) => back matches NextAction::Appointment(b) && (at.nanos
                < 1_000_000_000 ==> b == at),
            _ => back == a,
        },
        m matches Some(message) ==> message.kind matches Some(kind) && (a is FollowUp <==> kind
            is FollowUp) && (a is Appointment <==> kind is Appointment) && (a is AutoClose <==> kind
            is AutoClose),
{
}

/// Schedules go by number on the wire, from the shortest to the longest; what is no schedule's
/// number is the end of the day.
pub proof fn schedules_are_their_numbers(s: AutoCloseSchedule, n: i32, k: i32, read: AutoCloseSchedule)
    requires
        call_ensures(auto_close_to_proto, (s,), n),
        call_ensures(proto_to_auto_close, (k,), read),
    ensures
        1 <= n <= 4,
        k == n ==> read == s,
        n == 1 <==> s == AutoCloseSchedule::EndOfDay,
        n == 2 <==> s == AutoCloseSchedule::Hours24,
        n == 3 <==> s == AutoCloseSchedule::Hours48,
        n == 4 <==> s == AutoCloseSchedule::Hours72,
        !(1 <= k <= 4) ==> read == AutoCloseSchedule::EndOfDay,
{
}

/// A point in time crosses the wire; a leap second is shown as the second after it.
pub proof fn time_crosses_the_wire(m: Moment, ts: Timestamp, back: Moment)
    requires
        is_moment(m.secs as int, m.nanos as int),
        call_ensures(dt_to_proto, (m,), ts),
        call_ensures(proto_to_dt, (&ts,), back),
    ensures
        0 <= ts.nanos < 1_000_000_000,
        ts.seconds * 1_000_000_000 + ts.nanos == m.secs * 1_000_000_000 + m.nanos,
        m.nanos < 1_000_000_000 ==> back == m,
{
}

// ---- Keeping ----

/// A ticket is kept under the fields that it is shown by, sealed as it was sealed: a new one
/// without a number, a changed one under its own.
pub proof fn a_ticket_is_kept_under_its_fields(
    ticket_id: u64,
    t: Ticket,
    body: Vec<u8>,
    new: Result<TicketWrite, Status>,
    changed: Result<TicketWrite, Status>,
    m: TicketMessage,
)
    requires
        call_ensures(created_ticket_write, (&t, Ok::<Vec<u8>, SealError>(body)), new),
        call_ensures(updated_ticket_write, (ticket_id, &t, Ok::<Vec<u8>, SealError>(body)), changed),
        call_ensures(domain_to_proto, (&t,), m),
    ensures
        new matches Ok(w) && w.ticket_id == 0 && w.encrypted_body@ == body@ && (w.index matches Some(
            ix,
        ) && is_index_of(ix, m, t)),
        changed matches Ok(w) && w.ticket_id == ticket_id && w.encrypted_body@ == body@ && (w.index matches Some(
            ix,
        ) && is_index_of(ix, m, t)),
{
}

/// The index fields are those that the message shows, and the seconds of the ticket's times.
pub open spec fn is_index_of(ix: WireTicketIndex, m: TicketMessage, t: Ticket) -> bool {
    &&& ix.status == m.status
    &&& ix.account_uuid@ == m.account_uuid@
    &&& same_text(ix.assigned_to_uuid, m.assigned_to_uuid)
    &&& ix.project@ == m.project@
    &&& same_text(ix.tracking_url, m.tracking_url)
    &&& ix.created_at_unix == t.created_at.secs
    &&& ix.updated_at_unix == t.updated_at.secs
}

/// The fields of a ticket that it is kept under are those of the writes that keep it.
pub proof fn index_fields_are_shown(t: Ticket, ix: WireTicketIndex, m: TicketMessage)
    requires
        call_ensures(ticket_index, (&t,), ix),
        call_ensures(domain_to_proto, (&t,), m),
    ensures
        is_index_of(ix, m, t),
{
}

/// A ticket that could not be sealed is not kept, and what went wrong is told alike for a new
/// ticket and a changed one.
pub proof fn an_unsealed_ticket_is_not_kept(
    ticket_id: u64,
    t: Ticket,
    e: SealError,
    new: Result<TicketWrite, Status>,
    changed: Result<TicketWrite, Status>,
    sealed: Result<Vec<u8>, Status>,
)
    requires
        call_ensures(created_ticket_write, (&t, Err::<Vec<u8>, SealError>(e)), new),
        call_ensures(updated_ticket_write, (ticket_id, &t, Err::<Vec<u8>, SealError>(e)), changed),
        call_ensures(encrypt_ticket, (Err::<Vec<u8>, SealError>(e),), sealed),
    ensures
        new matches Err(s) && s.code == Code::Internal && s.message@ == (match e {
            SealError::Content(text) => "serialize error: "@ + text@,
            SealError::Encryption(text) => "encryption error: "@ + text@,
            SealError::Envelope(text) => "serialize encrypted data error: "@ + text@,
        }),
        changed matches Err(s) && s@ == (new->Err_0)@,
        sealed matches Err(s) && s@ == (new->Err_0)@,
{
}

/// A sealed body is kept as it is.
pub proof fn a_sealed_body_stays(body: Vec<u8>, out: Result<Vec<u8>, Status>)
    requires
        call_ensures(encrypt_ticket, (Ok::<Vec<u8>, SealError>(body),), out),
    ensures
        out == Ok::<Vec<u8>, Status>(body),
{
}

/// What the database is asked, it is asked with what was given.
pub proof fn requests_carry_what_was_given(
    ticket_id: u64,
    body: Vec<u8>,
    index: WireTicketIndex,
    new: TicketWrite,
    changed: TicketWrite,
    gone: TicketLookup,
)
    requires
        call_ensures(create_ticket_write, (body, index), new),
        call_ensures(update_ticket_write, (ticket_id, body, index), changed),
        call_ensures(soft_delete_lookup, (ticket_id,), gone),
    ensures
        new.ticket_id == 0,
        changed.ticket_id == ticket_id,
        new.encrypted_body == body && changed.encrypted_body == body,
        new.index == Some(index) && changed.index == Some(index),
        gone.ticket_id == ticket_id && !gone.include_deleted,
{
}

/// A query is handed on as it was asked.
pub proof fn a_query_is_handed_on(
    status: Option<u32>,
    assignee: Option<String>,
    account: Option<String>,
    project: Option<String>,
    include_deleted: bool,
    limit: u32,
    q: WireTicketQuery,
)
    requires
        call_ensures(query_call, (status, assignee, account, project, include_deleted, limit), q),
    ensures
        q.status == status,
        q.assigned_to_uuid == assignee,
        q.account_uuid == account,
        q.project == project,
        q.include_deleted == include_deleted,
        q.limit == limit,
{
}

/// What the database answers is handed on: a record, that there is none, or what went wrong.
pub proof fn replies_are_handed_on(
    reply: Result<TicketRecord, Status>,
    outcome: Result<Option<TicketRecord>, Status>,
    got: Result<Option<TicketRecord>, String>,
    fetched: Result<TicketRecord, Status>,
    listed: Result<Vec<TicketRecord>, String>,
    queried: Result<Vec<TicketRecord>, Status>,
    success: bool,
    error: String,
    put: Result<(), String>,
    value: GetReply,
    found: Option<Vec<u8>>,
    configured: bool,
    reached: Result<(), Status>,
)
    requires
        call_ensures(get_ticket_outcome, (reply,), outcome),
        call_ensures(fetched_record, (got,), fetched),
        call_ensures(queried_records, (listed,), queried),
        call_ensures(put_reply, (success, error), put),
        call_ensures(get_reply, (value,), found),
        call_ensures(require_client, (configured,), reached),
    ensures
        match reply {
            Ok(record) => outcome == Ok::<Option<TicketRecord>, Status>(Some(record)),
            Err(e) => (e.code == Code::NotFound <==> outcome is Ok) && (outcome matches Ok(none)
                ==> none is None) && (outcome matches Err(f) ==> f == e),
        },
        fetched is Ok <==> (got matches Ok(Some(_))),
        fetched matches Ok(record) ==> got == Ok::<Option<TicketRecord>, String>(Some(record)),
        fetched matches Err(e) ==> match got {
            Ok(_) => e.code == Code::NotFound && e.message@ == "ticket not found"@,
            Err(text) => e.code == Code::Internal && e.message@ == "db get error: "@ + text@,
        },
        match listed {
            Ok(records) => queried == Ok::<Vec<TicketRecord>, Status>(records),
            Err(text) => queried matches Err(e) && e.code == Code::Internal && e.message@
                == "db query_tickets error: "@ + text@,
        },
        put is Ok <==> success,
        put matches Err(text) ==> text == error,
        found is Some <==> value.found,
        found matches Some(v) ==> v == value.value,
        reached is Ok <==> configured,
        reached matches Err(e) ==> e.code == Code::Unavailable && e.message@
            == "no db client configured"@,
{
}

/// A lock lasts as long as the setting says in seconds, and a quarter of an hour where it says
/// nothing or no number.
pub proof fn locks_last_as_set(
    n: i64,
    text: String,
    words: &str,
    read: Option<i64>,
    set: i64,
    unset: i64,
)
    requires
        words@ == text@,
        call_ensures(read_i64, (words,), read),
        call_ensures(lock_ttl_secs, (Some(text),), set),
        call_ensures(lock_ttl_secs, (None::<String>,), unset),
    ensures
        read matches Some(k) ==> set == k,
        read is None ==> set == 15 * 60,
        text@ == dec_int(n as int) ==> set == n,
        unset == 15 * 60,
{
    signed_round_trip(n as int, i64::MIN as int, i64::MAX as int);
}

/// A new ticket is open, with what it is made of and nothing else, made and changed by its maker at
/// the same moment; and a ticket is sound where its times are points in time.
pub proof fn a_new_ticket_is_open(
    id: u64,
    title: String,
    project: String,
    account: u128,
    symptom: Symptom,
    maker: u128,
    now: Moment,
    t: Ticket,
    sound: bool,
    moment: bool,
)
    requires
        call_ensures(Ticket::new, (id, title, project, account, symptom, maker, now), t),
        call_ensures(Ticket::is_valid, (&t,), sound),
        call_ensures(Moment::is_valid, (&now,), moment),
    ensures
        t.ticket_id == id && t.title@ == title@ && t.project@ == project@,
        t.account_uuid == account && t.symptom == symptom,
        t.created_by == maker && t.updated_by == maker && t.created_at == now && t.updated_at == now,
        t.status == TicketStatus::Open && t.priority == TicketPriority::Unknown,
        t.next_action == NextAction::NoAction && t.resolution is None,
        t.assigned_to is None && t.locked_by is None && t.ebond is None && t.tracking_url is None,
        t.customer_ticket_number is None && t.isp_ticket_number is None && t.other_ticket_number
            is None,
        t.history@.len() == 0 && t.network_devices@.len() == 0 && t.schema_version == 1,
        sound <==> moment,
{
}

/// A status goes by its word.
pub proof fn statuses_go_by_their_words(s: TicketStatus, out: &'static str)
    requires
        call_ensures(TicketStatus::word, (&s,), out),
    ensures
        s is Open ==> out@ == "Open"@,
        s is AwaitingCustomer ==> out@ == "AwaitingCustomer"@,
        s is AwaitingIsp ==> out@ == "AwaitingIsp"@,
        s is AwaitingPartner ==> out@ == "AwaitingPartner"@,
        s is SupportHold ==> out@ == "SupportHold"@,
        s is HandedOff ==> out@ == "HandedOff"@,
        s is AppointmentScheduled ==> out@ == "AppointmentScheduled"@,
        s is EbondReceived ==> out@ == "EbondReceived"@,
        s is VoicemailReceived ==> out@ == "VoicemailReceived"@,
        s is AutoClose ==> out@ == "AutoClose"@,
        s is Closed ==> out@ == "Closed"@,
{
}

} // verus!
