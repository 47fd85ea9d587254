//! Tickets: what they are, and how they go over the wire.

use vstd::prelude::*;
use vstd::string::*;

use crate::db::server::WireTicketIndex;
use crate::ids::{opt_uuid_text, show_opt_uuid, show_uuid, uuid_text};
use crate::policy::{
    can_transition, may_follow, APPOINTMENT_SCHEDULED, AUTO_CLOSE, AWAITING_CUSTOMER, AWAITING_ISP,
    AWAITING_PARTNER, CLOSED, EBOND_RECEIVED, HANDED_OFF, OPEN, SUPPORT_HOLD, VOICEMAIL_RECEIVED,
};
use crate::text::{copy_text, text_of};
use crate::time::{dt_to_proto, is_moment, moment_of, proto_to_dt, timestamp_of, Moment, Timestamp};

verus! {

// ---- Numbers with names ----

/// What a customer complains of, by its number.
#[derive(Debug, Clone, Copy, PartialEq, Eq, Structural)]
pub struct Symptom {
    pub code: u8,
}

/// How a ticket was resolved, by its number.
#[derive(Debug, Clone, Copy, PartialEq, Eq, Structural)]
pub struct Resolution {
    pub code: u8,
}

/// How urgent a ticket is.
#[derive(Debug, Clone, Copy, PartialEq, Eq, Structural)]
pub enum TicketPriority {
    Unknown,
    HardDown,
    PrimaryDown,
    BackupDown,
    Intermittent,
    PacketLoss,
}

/// Where a ticket stands in its life.
#[derive(Debug, Clone, Copy, PartialEq, Eq, Structural)]
pub enum TicketStatus {
    Open,
    AwaitingCustomer,
    AwaitingIsp,
    AwaitingPartner,
    SupportHold,
    HandedOff,
    AppointmentScheduled,
    EbondReceived,
    VoicemailReceived,
    AutoClose,
    Closed,
}

/// The number of a priority.
pub open spec fn priority_number(p: TicketPriority) -> u8 {
    match p {
        TicketPriority::Unknown => 0,
        TicketPriority::HardDown => 1,
        TicketPriority::PrimaryDown => 2,
        TicketPriority::BackupDown => 3,
        TicketPriority::Intermittent => 4,
        TicketPriority::PacketLoss => 5,
    }
}

/// The priority with the given number; any other number is the unknown priority.
pub open spec fn priority_of(n: u8) -> TicketPriority {
    if n == 1 {
        TicketPriority::HardDown
    } else if n == 2 {
        TicketPriority::PrimaryDown
    } else if n == 3 {
        TicketPriority::BackupDown
    } else if n == 4 {
        TicketPriority::Intermittent
    } else if n == 5 {
        TicketPriority::PacketLoss
    } else {
        TicketPriority::Unknown
    }
}

/// The number of a status.
pub open spec fn status_number(s: TicketStatus) -> i32 {
    match s {
        TicketStatus::Open => OPEN,
        TicketStatus::AwaitingCustomer => AWAITING_CUSTOMER,
        TicketStatus::AwaitingIsp => AWAITING_ISP,
        TicketStatus::AwaitingPartner => AWAITING_PARTNER,
        TicketStatus::SupportHold => SUPPORT_HOLD,
        TicketStatus::HandedOff => HANDED_OFF,
        TicketStatus::AppointmentScheduled => APPOINTMENT_SCHEDULED,
        TicketStatus::EbondReceived => EBOND_RECEIVED,
        TicketStatus::VoicemailReceived => VOICEMAIL_RECEIVED,
        TicketStatus::AutoClose => AUTO_CLOSE,
        TicketStatus::Closed => CLOSED,
    }
}

/// The status with the given number; any other number is an open ticket.
pub open spec fn status_of(n: u8) -> TicketStatus {
    if n == AWAITING_CUSTOMER {
        TicketStatus::AwaitingCustomer
    } else if n == AWAITING_ISP {
        TicketStatus::AwaitingIsp
    } else if n == AWAITING_PARTNER {
        TicketStatus::AwaitingPartner
    } else if n == SUPPORT_HOLD {
        TicketStatus::SupportHold
    } else if n == HANDED_OFF {
        TicketStatus::HandedOff
    } else if n == APPOINTMENT_SCHEDULED {
        TicketStatus::AppointmentScheduled
    } else if n == EBOND_RECEIVED {
        TicketStatus::EbondReceived
    } else if n == VOICEMAIL_RECEIVED {
        TicketStatus::VoicemailReceived
    } else if n == AUTO_CLOSE {
        TicketStatus::AutoClose
    } else if n == CLOSED {
        TicketStatus::Closed
    } else {
        TicketStatus::Open
    }
}

/// The name of a status as it stands in messages.
pub open spec fn status_word(s: TicketStatus) -> Seq<char> {
    match s {
        TicketStatus::Open => "Open"@,
        TicketStatus::AwaitingCustomer => "AwaitingCustomer"@,
        TicketStatus::AwaitingIsp => "AwaitingIsp"@,
        TicketStatus::AwaitingPartner => "AwaitingPartner"@,
        TicketStatus::SupportHold => "SupportHold"@,
        TicketStatus::HandedOff => "HandedOff"@,
        TicketStatus::AppointmentScheduled => "AppointmentScheduled"@,
        TicketStatus::EbondReceived => "EbondReceived"@,
        TicketStatus::VoicemailReceived => "VoicemailReceived"@,
        TicketStatus::AutoClose => "AutoClose"@,
        TicketStatus::Closed => "Closed"@,
    }
}

impl TicketPriority {
    /// The priority with the given number.
    pub fn from_u8(n: u8) -> (out: Self)
        ensures
            out == priority_of(n),
    {
        match n {
            1 => TicketPriority::HardDown,
            2 => TicketPriority::PrimaryDown,
            3 => TicketPriority::BackupDown,
            4 => TicketPriority::Intermittent,
            5 => TicketPriority::PacketLoss,
            _ => TicketPriority::Unknown,
        }
    }

    /// The number of the priority.
    pub fn number(&self) -> (out: u8)
        ensures
            out == priority_number(*self),
    {
        match self {
            TicketPriority::Unknown => 0,
            TicketPriority::HardDown => 1,
            TicketPriority::PrimaryDown => 2,
            TicketPriority::BackupDown => 3,
            TicketPriority::Intermittent => 4,
            TicketPriority::PacketLoss => 5,
        }
    }
}

impl TicketStatus {
    /// The status with the given number.
    pub fn from_u8(n: u8) -> (out: Self)
        ensures
            out == status_of(n),
    {
        match n {
            1 => TicketStatus::AwaitingCustomer,
            2 => TicketStatus::AwaitingIsp,
            3 => TicketStatus::AwaitingPartner,
            4 => TicketStatus::SupportHold,
            5 => TicketStatus::HandedOff,
            6 => TicketStatus::AppointmentScheduled,
            7 => TicketStatus::EbondReceived,
            8 => TicketStatus::VoicemailReceived,
            254 => TicketStatus::AutoClose,
            255 => TicketStatus::Closed,
            _ => TicketStatus::Open,
        }
    }

    /// The number of the status.
    pub fn number(&self) -> (out: i32)
        ensures
            out == status_number(*self),
            0 <= out <= 255,
    {
        match self {
            TicketStatus::Open => OPEN,
            TicketStatus::AwaitingCustomer => AWAITING_CUSTOMER,
            TicketStatus::AwaitingIsp => AWAITING_ISP,
            TicketStatus::AwaitingPartner => AWAITING_PARTNER,
            TicketStatus::SupportHold => SUPPORT_HOLD,
            TicketStatus::HandedOff => HANDED_OFF,
            TicketStatus::AppointmentScheduled => APPOINTMENT_SCHEDULED,
            TicketStatus::EbondReceived => EBOND_RECEIVED,
            TicketStatus::VoicemailReceived => VOICEMAIL_RECEIVED,
            TicketStatus::AutoClose => AUTO_CLOSE,
            TicketStatus::Closed => CLOSED,
        }
    }

    /// The name of the status as it stands in messages.
    pub fn word(&self) -> (out: &'static str)
        ensures
            out@ == status_word(*self),
    {
        match self {
            TicketStatus::Open => "Open",
            TicketStatus::AwaitingCustomer => "AwaitingCustomer",
            TicketStatus::AwaitingIsp => "AwaitingIsp",
            TicketStatus::AwaitingPartner => "AwaitingPartner",
            TicketStatus::SupportHold => "SupportHold",
            TicketStatus::HandedOff => "HandedOff",
            TicketStatus::AppointmentScheduled => "AppointmentScheduled",
            TicketStatus::EbondReceived => "EbondReceived",
            TicketStatus::VoicemailReceived => "VoicemailReceived",
            TicketStatus::AutoClose => "AutoClose",
            TicketStatus::Closed => "Closed",
        }
    }

    /// Whether the policy lets a ticket go from this status to `next`.
    pub fn can_transition_to(&self, next: TicketStatus) -> (out: bool)
        ensures
            out == may_follow(status_number(*self), status_number(next)),
    {
        can_transition(self.number(), next.number())
    }
}

/// A status can be read back from its number.
pub proof fn status_number_round_trip(s: TicketStatus)
    ensures
        0 <= status_number(s) <= 255,
        status_of(status_number(s) as u8) == s,
{
}

/// A priority can be read back from its number.
pub proof fn priority_number_round_trip(p: TicketPriority)
    ensures
        priority_of(priority_number(p)) == p,
{
}

// ---- Next actions ----

/// When a ticket closes by itself.
#[derive(Debug, Clone, Copy, PartialEq, Eq, Structural)]
pub enum AutoCloseSchedule {
    EndOfDay,
    Hours24,
    Hours48,
    Hours72,
}

/// What is to happen next with a ticket.
#[derive(Debug, Clone, Copy, PartialEq, Eq, Structural)]
pub enum NextAction {
    NoAction,
    FollowUp(Moment),
    Appointment(Moment),
    AutoClose(AutoCloseSchedule),
}

/// What is to happen next, on the wire.
#[derive(Debug, Clone, Copy, PartialEq, Eq, Structural)]
pub enum NextActionKind {
    FollowUp(Timestamp),
    Appointment(Timestamp),
    AutoClose(i32),
}

/// The message of a next action; without a kind there is none.
#[derive(Debug, Clone, Copy, PartialEq, Eq, Structural)]
pub struct NextActionMessage {
    pub kind: Option<NextActionKind>,
}

/// The number of the end of the day on the wire.
pub const SCHEDULE_END_OF_DAY: i32 = 1;

/// The number of twenty-four hours on the wire.
pub const SCHEDULE_HOURS_24: i32 = 2;

/// The number of forty-eight hours on the wire.
pub const SCHEDULE_HOURS_48: i32 = 3;

/// The number of seventy-two hours on the wire.
pub const SCHEDULE_HOURS_72: i32 = 4;

/// The number of a schedule on the wire.
pub open spec fn schedule_number(s: AutoCloseSchedule) -> i32 {
    match s {
        AutoCloseSchedule::EndOfDay => SCHEDULE_END_OF_DAY,
        AutoCloseSchedule::Hours24 => SCHEDULE_HOURS_24,
        AutoCloseSchedule::Hours48 => SCHEDULE_HOURS_48,
        AutoCloseSchedule::Hours72 => SCHEDULE_HOURS_72,
    }
}

/// The schedule with the given number; any other number is the end of the day.
pub open spec fn schedule_of(n: i32) -> AutoCloseSchedule {
    if n == SCHEDULE_HOURS_24 {
        AutoCloseSchedule::Hours24
    } else if n == SCHEDULE_HOURS_48 {
        AutoCloseSchedule::Hours48
    } else if n == SCHEDULE_HOURS_72 {
        AutoCloseSchedule::Hours72
    } else {
        AutoCloseSchedule::EndOfDay
    }
}

/// The points in time of a next action are points in time.
pub open spec fn action_valid(a: NextAction) -> bool {
    match a {
        NextAction::FollowUp(m) => is_moment(m.secs as int, m.nanos as int),
        NextAction::Appointment(m) => is_moment(m.secs as int, m.nanos as int),
        _ => true,
    }
}

/// The message of a next action; none for no action.
pub open spec fn action_message(a: NextAction) -> Option<NextActionMessage> {
    match a {
        NextAction::NoAction => None,
        NextAction::FollowUp(m) => Some(
            NextActionMessage { kind: Some(NextActionKind::FollowUp(timestamp_of(m))) },
        ),
        NextAction::Appointment(m) => Some(
            NextActionMessage { kind: Some(NextActionKind::Appointment(timestamp_of(m))) },
        ),
        NextAction::AutoClose(s) => Some(
            NextActionMessage { kind: Some(NextActionKind::AutoClose(schedule_number(s))) },
        ),
    }
}

/// The next action that a message carries.
pub open spec fn action_of(m: NextActionMessage) -> NextAction {
    match m.kind {
        None => NextAction::NoAction,
        Some(NextActionKind::FollowUp(ts)) => NextAction::FollowUp(moment_of(ts)),
        Some(NextActionKind::Appointment(ts)) => NextAction::Appointment(moment_of(ts)),
        Some(NextActionKind::AutoClose(n)) => NextAction::AutoClose(schedule_of(n)),
    }
}

/// The number of a schedule on the wire.
pub fn auto_close_to_proto(schedule: AutoCloseSchedule) -> (out: i32)
    ensures
        out == schedule_number(schedule),
{
    match schedule {
        AutoCloseSchedule::EndOfDay => SCHEDULE_END_OF_DAY,
        AutoCloseSchedule::Hours24 => SCHEDULE_HOURS_24,
        AutoCloseSchedule::Hours48 => SCHEDULE_HOURS_48,
        AutoCloseSchedule::Hours72 => SCHEDULE_HOURS_72,
    }
}

/// The schedule with the given number on the wire.
pub fn proto_to_auto_close(value: i32) -> (out: AutoCloseSchedule)
    ensures
        out == schedule_of(value),
{
    if value == SCHEDULE_HOURS_24 {
        AutoCloseSchedule::Hours24
    } else if value == SCHEDULE_HOURS_48 {
        AutoCloseSchedule::Hours48
    } else if value == SCHEDULE_HOURS_72 {
        AutoCloseSchedule::Hours72
    } else {
        AutoCloseSchedule::EndOfDay
    }
}

/// Writes a next action for the wire.
pub fn map_next_action(next_action: &NextAction) -> (out: Option<NextActionMessage>)
    requires
        action_valid(*next_action),
    ensures
        out == action_message(*next_action),
{
    let kind = match next_action {
        NextAction::NoAction => {
            return None;
        },
        NextAction::FollowUp(m) => NextActionKind::FollowUp(dt_to_proto(*m)),
        NextAction::Appointment(m) => NextActionKind::Appointment(dt_to_proto(*m)),
        NextAction::AutoClose(s) => NextActionKind::AutoClose(auto_close_to_proto(*s)),
    };
    Some(NextActionMessage { kind: Some(kind) })
}

/// Reads a next action from the wire.
pub fn proto_to_next_action(message: &NextActionMessage) -> (out: NextAction)
    ensures
        out == action_of(*message),
        action_valid(out),
{
    match &message.kind {
        Some(NextActionKind::FollowUp(ts)) => NextAction::FollowUp(proto_to_dt(ts)),
        Some(NextActionKind::Appointment(ts)) => NextAction::Appointment(proto_to_dt(ts)),
        Some(NextActionKind::AutoClose(n)) => NextAction::AutoClose(proto_to_auto_close(*n)),
        None => NextAction::NoAction,
    }
}

/// A next action crosses the wire as it is, but for one at a leap second; a missing message is no
/// action.
pub proof fn next_action_crosses_the_wire(a: NextAction)
    requires
        action_valid(a),
        match a {
            NextAction::FollowUp(m) => m.nanos < 1_000_000_000,
            NextAction::Appointment(m) => m.nanos < 1_000_000_000,
            _ => true,
        },
    ensures
        match action_message(a) {
            Some(message) => action_of(message) == a,
            None => a == action_of(NextActionMessage { kind: None }),
        },
{
}

// ---- History ----

/// A change in a ticket's life.
#[derive(Debug, Clone)]
pub struct HistoryEntry {
    pub timestamp: Moment,
    pub user_id: u128,
    pub field_changed: String,
    pub old_value: Option<String>,
    pub new_value: Option<String>,
}

/// A change in a ticket's life, on the wire.
#[derive(Debug, Clone)]
pub struct HistoryMessage {
    pub user_uuid: String,
    pub timestamp: Option<Timestamp>,
    pub action: String,
    pub details: String,
}

/// What a change was, in words.
pub open spec fn change_text(
    field: Seq<char>,
    old_value: Option<Seq<char>>,
    new_value: Option<Seq<char>>,
) -> Seq<char> {
    match (old_value, new_value) {
        (Some(o), Some(n)) => field + ": "@ + o + " \u{2192} "@ + n,
        (Some(o), None) => field + ": "@ + o + " \u{2192} (removed)"@,
        (None, Some(n)) => field + ": (new) \u{2192} "@ + n,
        (None, None) => field,
    }
}

/// The message shows the change.
pub open spec fn shows_change(message: HistoryMessage, entry: HistoryEntry) -> bool {
    &&& message.user_uuid@ == uuid_text(entry.user_id)
    &&& message.timestamp == Some(timestamp_of(entry.timestamp))
    &&& message.action@ == entry.field_changed@
    &&& message.details@ == change_text(
        entry.field_changed@,
        text_of(entry.old_value),
        text_of(entry.new_value),
    )
}

/// Writes a change for the wire.
pub fn map_history_entry(entry: &HistoryEntry) -> (out: HistoryMessage)
    requires
        is_moment(entry.timestamp.secs as int, entry.timestamp.nanos as int),
    ensures
        shows_change(out, *entry),
{
    let mut details: String = entry.field_changed.clone();
    match (&entry.old_value, &entry.new_value) {
        (Some(o), Some(n)) => {
            details.append(": ");
            details.append(o.as_str());
            details.append(" \u{2192} ");
            details.append(n.as_str());
        },
        (Some(o), None) => {
            details.append(": ");
            details.append(o.as_str());
            details.append(" \u{2192} (removed)");
        },
        (None, Some(n)) => {
            details.append(": (new) \u{2192} ");
            details.append(n.as_str());
        },
        (None, None) => {},
    }
    HistoryMessage {
        user_uuid: show_uuid(entry.user_id),
        timestamp: Some(dt_to_proto(entry.timestamp)),
        action: entry.field_changed.clone(),
        details,
    }
}

// ---- Devices ----

/// A network device of a ticket.
#[derive(Debug, Clone)]
pub enum NetworkDevice {
    DslModem {
        make: String,
        model: String,
        mac_address: Option<String>,
        serial_number: Option<String>,
    },
    CoaxModem {
        make: String,
        model: String,
        mac_address: Option<String>,
        serial_number: Option<String>,
    },
    Ont {
        make: String,
        model: String,
        mac_address: Option<String>,
        serial_number: Option<String>,
    },
    FixedWirelessAntenna {
        make: String,
        model: String,
        mac_address: Option<String>,
        serial_number: Option<String>,
    },
    VpnGw {
        make: String,
        model: String,
        mac_address: Option<String>,
        serial_number: Option<String>,
    },
    Switch {
        make: String,
        model: String,
        mac_address: Option<String>,
        serial_number: Option<String>,
    },
    Router {
        make: String,
        model: String,
        mac_address: Option<String>,
        serial_number: Option<String>,
    },
    Firewall {
        make: String,
        model: String,
        mac_address: Option<String>,
        serial_number: Option<String>,
    },
}

/// What is known of a network device on the wire.
#[derive(Debug, Clone)]
pub struct DeviceFields {
    pub make: String,
    pub model: String,
    pub mac_address: Option<String>,
    pub serial_number: Option<String>,
}

/// What is known of a network device, as text.
pub struct DeviceView {
    pub make: Seq<char>,
    pub model: Seq<char>,
    pub mac_address: Option<Seq<char>>,
    pub serial_number: Option<Seq<char>>,
}

impl View for DeviceFields {
    type V = DeviceView;

    open spec fn view(&self) -> DeviceView {
        device_view(self.make, self.model, self.mac_address, self.serial_number)
    }
}

/// What is known of a network device, as text.
pub open spec fn device_view(
    make: String,
    model: String,
    mac_address: Option<String>,
    serial_number: Option<String>,
) -> DeviceView {
    DeviceView {
        make: make@,
        model: model@,
        mac_address: text_of(mac_address),
        serial_number: text_of(serial_number),
    }
}

/// A network device on the wire, by its kind.
#[derive(Debug, Clone)]
pub enum DeviceType {
    DslModem(DeviceFields),
    CoaxModem(DeviceFields),
    Ont(DeviceFields),
    FixedWirelessAntenna(DeviceFields),
    VpnGw(DeviceFields),
    Switch(DeviceFields),
    Router(DeviceFields),
    Firewall(DeviceFields),
}

/// The message of a network device.
#[derive(Debug, Clone)]
pub struct DeviceMessage {
    pub device_type: Option<DeviceType>,
}

/// The message shows the device: the same kind, with the same fields.
pub open spec fn shows_device(message: DeviceMessage, device: NetworkDevice) -> bool {
    match device {
        NetworkDevice::DslModem { make, model, mac_address, serial_number } => message.device_type
            matches Some(DeviceType::DslModem(f)) && f@ == device_view(
            make,
            model,
            mac_address,
            serial_number,
        ),
        NetworkDevice::CoaxModem { make, model, mac_address, serial_number } => message.device_type
            matches Some(DeviceType::CoaxModem(f)) && f@ == device_view(
            make,
            model,
            mac_address,
            serial_number,
        ),
        NetworkDevice::Ont { make, model, mac_address, serial_number } => message.device_type
            matches Some(DeviceType::Ont(f)) && f@ == device_view(
            make,
            model,
            mac_address,
            serial_number,
        ),
        NetworkDevice::FixedWirelessAntenna { make, model, mac_address, serial_number } => message.device_type
            matches Some(DeviceType::FixedWirelessAntenna(f)) && f@ == device_view(
            make,
            model,
            mac_address,
            serial_number,
        ),
        NetworkDevice::VpnGw { make, model, mac_address, serial_number } => message.device_type
            matches Some(DeviceType::VpnGw(f)) && f@ == device_view(
            make,
            model,
            mac_address,
            serial_number,
        ),
        NetworkDevice::Switch { make, model, mac_address, serial_number } => message.device_type
            matches Some(DeviceType::Switch(f)) && f@ == device_view(
            make,
            model,
            mac_address,
            serial_number,
        ),
        NetworkDevice::Router { make, model, mac_address, serial_number } => message.device_type
            matches Some(DeviceType::Router(f)) && f@ == device_view(
            make,
            model,
            mac_address,
            serial_number,
        ),
        NetworkDevice::Firewall { make, model, mac_address, serial_number } => message.device_type
            matches Some(DeviceType::Firewall(f)) && f@ == device_view(
            make,
            model,
            mac_address,
            serial_number,
        ),
    }
}

fn device_fields(
    make: &String,
    model: &String,
    mac_address: &Option<String>,
    serial_number: &Option<String>,
) -> (out: DeviceFields)
    ensures
        out@ == device_view(*make, *model, *mac_address, *serial_number),
{
    DeviceFields {
        make: make.clone(),
        model: model.clone(),
        mac_address: copy_text(mac_address),
        serial_number: copy_text(serial_number),
    }
}

/// Writes a device for the wire.
pub fn map_network_device(device: &NetworkDevice) -> (out: DeviceMessage)
    ensures
        shows_device(out, *device),
{
    let device_type: DeviceType = match device {
        NetworkDevice::DslModem { make, model, mac_address, serial_number } => DeviceType::DslModem(
            device_fields(make, model, mac_address, serial_number),
        ),
        NetworkDevice::CoaxModem { make, model, mac_address, serial_number } => DeviceType::CoaxModem(
            device_fields(make, model, mac_address, serial_number),
        ),
        NetworkDevice::Ont { make, model, mac_address, serial_number } => DeviceType::Ont(
            device_fields(make, model, mac_address, serial_number),
        ),
        NetworkDevice::FixedWirelessAntenna { make, model, mac_address, serial_number } => DeviceType::FixedWirelessAntenna(
            device_fields(make, model, mac_address, serial_number),
        ),
        NetworkDevice::VpnGw { make, model, mac_address, serial_number } => DeviceType::VpnGw(
            device_fields(make, model, mac_address, serial_number),
        ),
        NetworkDevice::Switch { make, model, mac_address, serial_number } => DeviceType::Switch(
            device_fields(make, model, mac_address, serial_number),
        ),
        NetworkDevice::Router { make, model, mac_address, serial_number } => DeviceType::Router(
            device_fields(make, model, mac_address, serial_number),
        ),
        NetworkDevice::Firewall { make, model, mac_address, serial_number } => DeviceType::Firewall(
            device_fields(make, model, mac_address, serial_number),
        ),
    };
    DeviceMessage { device_type: Some(device_type) }
}

// ---- Tickets ----

/// The form in which tickets are kept today.
pub const SCHEMA_VERSION: u32 = 1;

/// A ticket.
#[derive(Debug, Clone)]
pub struct Ticket {
    pub ticket_id: u64,
    pub customer_ticket_number: Option<String>,
    pub isp_ticket_number: Option<String>,
    pub other_ticket_number: Option<String>,
    pub title: String,
    pub project: String,
    pub account_uuid: u128,
    pub symptom: Symptom,
    pub priority: TicketPriority,
    pub status: TicketStatus,
    pub next_action: NextAction,
    pub resolution: Option<Resolution>,
    pub locked_by: Option<u128>,
    pub assigned_to: Option<u128>,
    pub created_by: u128,
    pub created_at: Moment,
    pub updated_by: u128,
    pub updated_at: Moment,
    pub history: Vec<HistoryEntry>,
    pub ebond: Option<String>,
    pub tracking_url: Option<String>,
    pub network_devices: Vec<NetworkDevice>,
    pub schema_version: u32,
}

/// A ticket on the wire.
#[derive(Debug, Clone, Default)]
pub struct TicketMessage {
    pub ticket_id: u64,
    pub customer_ticket_number: Option<String>,
    pub isp_ticket_number: Option<String>,
    pub other_ticket_number: Option<String>,
    pub title: String,
    pub project: String,
    pub account_uuid: String,
    pub symptom: i32,
    pub priority: i32,
    pub status: i32,
    pub next_action: Option<NextActionMessage>,
    pub resolution: Option<i32>,
    pub locked_by_uuid: Option<String>,
    pub assigned_to_uuid: Option<String>,
    pub created_by_uuid: String,
    pub created_at: Option<Timestamp>,
    pub updated_by_uuid: String,
    pub updated_at: Option<Timestamp>,
    pub history: Vec<HistoryMessage>,
    pub ebond: Option<String>,
    pub tracking_url: Option<String>,
    pub network_devices: Vec<DeviceMessage>,
    pub schema_version: u32,
}

/// Every point in time of the ticket is one.
pub open spec fn ticket_valid(t: Ticket) -> bool {
    &&& action_valid(t.next_action)
    &&& is_moment(t.created_at.secs as int, t.created_at.nanos as int)
    &&& is_moment(t.updated_at.secs as int, t.updated_at.nanos as int)
    &&& forall|i: int|
        0 <= i < t.history@.len() ==> is_moment(
            (#[trigger] t.history@[i]).timestamp.secs as int,
            t.history@[i].timestamp.nanos as int,
        )
}

/// The message shows the ticket.
pub open spec fn shows_ticket_message(m: TicketMessage, t: Ticket) -> bool {
    &&& m.ticket_id == t.ticket_id
    &&& text_of(m.customer_ticket_number) == text_of(t.customer_ticket_number)
    &&& text_of(m.isp_ticket_number) == text_of(t.isp_ticket_number)
    &&& text_of(m.other_ticket_number) == text_of(t.other_ticket_number)
    &&& m.title@ == t.title@
    &&& m.project@ == t.project@
    &&& m.account_uuid@ == uuid_text(t.account_uuid)
    &&& m.symptom == t.symptom.code
    &&& m.priority == priority_number(t.priority)
    &&& m.status == status_number(t.status)
    &&& m.next_action == action_message(t.next_action)
    &&& m.resolution == (match t.resolution {
        Some(r) => Some(r.code as i32),
        None => None,
    })
    &&& text_of(m.locked_by_uuid) == opt_uuid_text(t.locked_by)
    &&& text_of(m.assigned_to_uuid) == opt_uuid_text(t.assigned_to)
    &&& m.created_by_uuid@ == uuid_text(t.created_by)
    &&& m.created_at == Some(timestamp_of(t.created_at))
    &&& m.updated_by_uuid@ == uuid_text(t.updated_by)
    &&& m.updated_at == Some(timestamp_of(t.updated_at))
    &&& m.history@.len() == t.history@.len()
    &&& forall|i: int|
        0 <= i < t.history@.len() ==> shows_change(#[trigger] m.history@[i], t.history@[i])
    &&& text_of(m.ebond) == text_of(t.ebond)
    &&& text_of(m.tracking_url) == text_of(t.tracking_url)
    &&& m.network_devices@.len() == t.network_devices@.len()
    &&& forall|i: int|
        0 <= i < t.network_devices@.len() ==> shows_device(
            #[trigger] m.network_devices@[i],
            t.network_devices@[i],
        )
    &&& m.schema_version == t.schema_version
}

/// The ticket is a new one with the given parts, made at `now`.
pub open spec fn is_new_ticket(
    t: Ticket,
    ticket_id: u64,
    title: Seq<char>,
    project: Seq<char>,
    account_uuid: u128,
    symptom: Symptom,
    created_by: u128,
    now: Moment,
) -> bool {
    &&& t.ticket_id == ticket_id
    &&& t.customer_ticket_number is None
    &&& t.isp_ticket_number is None
    &&& t.other_ticket_number is None
    &&& t.title@ == title
    &&& t.project@ == project
    &&& t.account_uuid == account_uuid
    &&& t.symptom == symptom
    &&& t.priority == TicketPriority::Unknown
    &&& t.status == TicketStatus::Open
    &&& t.next_action == NextAction::NoAction
    &&& t.resolution is None
    &&& t.locked_by is None
    &&& t.assigned_to is None
    &&& t.created_by == created_by
    &&& t.created_at == now
    &&& t.updated_by == created_by
    &&& t.updated_at == now
    &&& t.history@.len() == 0
    &&& t.ebond is None
    &&& t.tracking_url is None
    &&& t.network_devices@.len() == 0
    &&& t.schema_version == SCHEMA_VERSION
}

impl Ticket {
    /// Whether every point in time of the ticket is one.
    pub fn is_valid(&self) -> (out: bool)
        ensures
            out == ticket_valid(*self),
    {
        let action_ok: bool = match &self.next_action {
            NextAction::FollowUp(m) => m.is_valid(),
            NextAction::Appointment(m) => m.is_valid(),
            _ => true,
        };
        if !action_ok || !self.created_at.is_valid() || !self.updated_at.is_valid() {
            return false;
        }
        let mut i: usize = 0;
        while i < self.history.len()
            invariant
                i <= self.history@.len(),
                forall|j: int|
                    0 <= j < i ==> is_moment(
                        (#[trigger] self.history@[j]).timestamp.secs as int,
                        self.history@[j].timestamp.nanos as int,
                    ),
            decreases self.history@.len() - i,
        {
            if !self.history[i].timestamp.is_valid() {
                return false;
            }
            i = i + 1;
        }
        true
    }

    /// A new open ticket, made at `now`.
    pub fn new(
        ticket_id: u64,
        title: String,
        project: String,
        account_uuid: u128,
        symptom: Symptom,
        created_by: u128,
        now: Moment,
    ) -> (out: Ticket)
        ensures
            is_new_ticket(
                out,
                ticket_id,
                title@,
                project@,
                account_uuid,
                symptom,
                created_by,
                now,
            ),
    {
        Ticket {
            ticket_id,
            customer_ticket_number: None,
            isp_ticket_number: None,
            other_ticket_number: None,
            title,
            project,
            account_uuid,
            symptom,
            priority: TicketPriority::Unknown,
            status: TicketStatus::Open,
            next_action: NextAction::NoAction,
            resolution: None,
            locked_by: None,
            assigned_to: None,
            created_by,
            created_at: now,
            updated_by: created_by,
            updated_at: now,
            history: Vec::new(),
            ebond: None,
            tracking_url: None,
            network_devices: Vec::new(),
            schema_version: SCHEMA_VERSION,
        }
    }
}

/// Writes a ticket for the wire.
pub fn domain_to_proto(ticket: &Ticket) -> (out: TicketMessage)
    requires
        ticket_valid(*ticket),
    ensures
        shows_ticket_message(out, *ticket),
{
    let mut history: Vec<HistoryMessage> = Vec::new();
    let mut i: usize = 0;
    while i < ticket.history.len()
        invariant
            i <= ticket.history@.len(),
            history@.len() == i,
            ticket_valid(*ticket),
            forall|j: int| 0 <= j < i ==> shows_change(#[trigger] history@[j], ticket.history@[j]),
        decreases ticket.history@.len() - i,
    {
        let entry = &ticket.history[i];
        assert(*entry == ticket.history@[i as int]);
        history.push(map_history_entry(entry));
        i = i + 1;
    }
    let mut network_devices: Vec<DeviceMessage> = Vec::new();
    let mut k: usize = 0;
    while k < ticket.network_devices.len()
        invariant
            k <= ticket.network_devices@.len(),
            network_devices@.len() == k,
            forall|j: int|
                0 <= j < k ==> shows_device(
                    #[trigger] network_devices@[j],
                    ticket.network_devices@[j],
                ),
        decreases ticket.network_devices@.len() - k,
    {
        network_devices.push(map_network_device(&ticket.network_devices[k]));
        k = k + 1;
    }
    let resolution: Option<i32> = match ticket.resolution {
        Some(r) => Some(r.code as i32),
        None => None,
    };
    TicketMessage {
        ticket_id: ticket.ticket_id,
        customer_ticket_number: copy_text(&ticket.customer_ticket_number),
        isp_ticket_number: copy_text(&ticket.isp_ticket_number),
        other_ticket_number: copy_text(&ticket.other_ticket_number),
        title: ticket.title.clone(),
        project: ticket.project.clone(),
        account_uuid: show_uuid(ticket.account_uuid),
        symptom: ticket.symptom.code as i32,
        priority: ticket.priority.number() as i32,
        status: ticket.status.number(),
        next_action: map_next_action(&ticket.next_action),
        resolution,
        locked_by_uuid: show_opt_uuid(&ticket.locked_by),
        assigned_to_uuid: show_opt_uuid(&ticket.assigned_to),
        created_by_uuid: show_uuid(ticket.created_by),
        created_at: Some(dt_to_proto(ticket.created_at)),
        updated_by_uuid: show_uuid(ticket.updated_by),
        updated_at: Some(dt_to_proto(ticket.updated_at)),
        history,
        ebond: copy_text(&ticket.ebond),
        tracking_url: copy_text(&ticket.tracking_url),
        network_devices,
        schema_version: ticket.schema_version,
    }
}

/// The index fields tell what the ticket says.
pub open spec fn shows_index(ix: WireTicketIndex, t: Ticket) -> bool {
    &&& ix.status == status_number(t.status)
    &&& ix.account_uuid@ == uuid_text(t.account_uuid)
    &&& text_of(ix.assigned_to_uuid) == opt_uuid_text(t.assigned_to)
    &&& ix.project@ == t.project@
    &&& text_of(ix.tracking_url) == text_of(t.tracking_url)
    &&& ix.created_at_unix == t.created_at.secs
    &&& ix.updated_at_unix == t.updated_at.secs
}

/// The index fields of a ticket.
pub fn ticket_index(ticket: &Ticket) -> (out: WireTicketIndex)
    ensures
        shows_index(out, *ticket),
{
    WireTicketIndex {
        status: ticket.status.number() as u32,
        account_uuid: show_uuid(ticket.account_uuid),
        assigned_to_uuid: show_opt_uuid(&ticket.assigned_to),
        project: ticket.project.clone(),
        tracking_url: copy_text(&ticket.tracking_url),
        created_at_unix: ticket.created_at.secs,
        updated_at_unix: ticket.updated_at.secs,
    }
}

} // verus!
