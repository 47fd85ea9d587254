//! The workflow: which status may follow which, and what statuses, priorities and roles are called.

use vstd::prelude::*;

use crate::custodian::ticket::{TicketPriority, TicketStatus};
use crate::policy::{
    allowed_transitions, can_transition, is_terminal, priorities, priority_label, roles,
    status_label, statuses,
};
use crate::text::dec_int;

verus! {

/// The number stands for a status: the working ones count up from nought, the ends count down from
/// the greatest byte.
pub open spec fn is_status_number(n: i32) -> bool {
    0 <= n <= 8 || n == 254 || n == 255
}

/// A ticket may stay as it is. From an end it goes nowhere; from everywhere else it may end, be
/// opened again, and from the beginning go anywhere. Beyond that, seventeen steps lead from one
/// working status to another.
pub proof fn the_workflow(from: i32, to: i32, allowed: bool)
    requires
        call_ensures(can_transition, (from, to), allowed),
    ensures
        from == to ==> allowed,
        from != to && !(is_status_number(from) && is_status_number(to)) ==> !allowed,
        from != to && (from == 254 || from == 255) ==> !allowed,
        is_status_number(from) && from <= 8 && (to == 0 || to == 254 || to == 255) ==> allowed,
        from == 0 && is_status_number(to) ==> allowed,
        from == 1 && 1 < to <= 8 ==> (allowed <==> to == 4 || to == 6 || to == 7 || to == 8),
        from == 2 && 1 <= to <= 8 && to != 2 ==> (allowed <==> to == 4 || to == 7),
        from == 3 && 1 <= to <= 8 && to != 3 ==> (allowed <==> to == 4 || to == 5),
        from == 4 && 1 <= to <= 8 && to != 4 ==> (allowed <==> to <= 3 || to == 6),
        from == 5 && 1 <= to <= 8 && to != 5 ==> (allowed <==> to == 3),
        from == 6 && 1 <= to <= 8 && to != 6 ==> (allowed <==> to == 1 || to == 4),
        from == 7 && 1 <= to <= 8 && to != 7 ==> (allowed <==> to == 2),
        from == 8 && 1 <= to < 8 ==> (allowed <==> to == 1),
{
    let list = crate::policy::successors(from as int);
    if crate::policy::may_follow(from, to) && from != to {
        let i = choose|i: int| 0 <= i < list.len() && list[i] == to;
    }
    if from == 0 {
        assert(list.len() == 10);
        assert(list[0] == 1 && list[1] == 2 && list[2] == 3 && list[3] == 4 && list[4] == 5
            && list[5] == 6 && list[6] == 7 && list[7] == 8 && list[8] == 255 && list[9] == 254);
    } else if from == 1 {
        assert(list[0] == 0 && list[1] == 4 && list[2] == 6 && list[3] == 7 && list[4] == 8
            && list[5] == 255 && list[6] == 254);
    } else if from == 2 {
        assert(list[0] == 0 && list[1] == 4 && list[2] == 7 && list[3] == 255 && list[4] == 254);
    } else if from == 3 {
        assert(list[0] == 0 && list[1] == 4 && list[2] == 5 && list[3] == 255 && list[4] == 254);
    } else if from == 4 {
        assert(list[0] == 0 && list[1] == 1 && list[2] == 2 && list[3] == 3 && list[4] == 6
            && list[5] == 255 && list[6] == 254);
    } else if from == 5 {
        assert(list[0] == 0 && list[1] == 3 && list[2] == 255 && list[3] == 254);
    } else if from == 6 {
        assert(list[0] == 0 && list[1] == 1 && list[2] == 4 && list[3] == 255 && list[4] == 254);
    } else if from == 7 {
        assert(list[0] == 0 && list[1] == 2 && list[2] == 255 && list[3] == 254);
    } else if from == 8 {
        assert(list[0] == 0 && list[1] == 1 && list[2] == 255 && list[3] == 254);
    }
}

/// What is offered is what is allowed: every other status that may follow, each once, the working
/// ones in ascending order and then the two ends, by hand before by itself.
pub proof fn what_is_offered_is_allowed(from: i32, offered: Vec<i32>, to: i32, allowed: bool)
    requires
        call_ensures(allowed_transitions, (from,), offered),
        call_ensures(can_transition, (from, to), allowed),
    ensures
        offered@.contains(to) <==> allowed && from != to,
        offered@.len() > 0 <==> 0 <= from <= 8,
        offered@.len() > 0 ==> offered@.len() >= 3 && offered@[offered@.len() - 2] == 255
            && offered@.last() == 254,
        forall|i: int, j: int|
            0 <= i < j < offered@.len() - 2 ==> #[trigger] offered@[i] < #[trigger] offered@[j],
        forall|i: int| 0 <= i < offered@.len() - 2 ==> 0 <= #[trigger] offered@[i] <= 8,
{
    assert(!offered@.contains(from));
}

/// A status ends a ticket's life exactly where nothing else may follow it.
pub proof fn ends_are_where_nothing_follows(value: i32, ends: bool, offered: Vec<i32>)
    requires
        call_ensures(is_terminal, (value,), ends),
        call_ensures(allowed_transitions, (value,), offered),
    ensures
        ends <==> is_status_number(value) && offered@.len() == 0,
        ends <==> value == 254 || value == 255,
{
}

/// A status and its number are two names for one thing: no two statuses share a number, every
/// status's number is read back as it, and every other number is an open ticket. The policy on
/// statuses is the policy on their numbers.
pub proof fn statuses_are_their_numbers(
    s: TicketStatus,
    n: i32,
    byte: u8,
    read: TicketStatus,
    number: i32,
)
    requires
        call_ensures(TicketStatus::number, (&s,), n),
        call_ensures(TicketStatus::from_u8, (byte,), read),
        call_ensures(TicketStatus::number, (&read,), number),
    ensures
        is_status_number(n),
        byte == n ==> read == s,
        is_status_number(byte as i32) ==> number == byte,
        !is_status_number(byte as i32) ==> read == TicketStatus::Open && number == 0,
        n == 0 <==> s == TicketStatus::Open,
        n == 1 <==> s == TicketStatus::AwaitingCustomer,
        n == 2 <==> s == TicketStatus::AwaitingIsp,
        n == 3 <==> s == TicketStatus::AwaitingPartner,
        n == 4 <==> s == TicketStatus::SupportHold,
        n == 5 <==> s == TicketStatus::HandedOff,
        n == 6 <==> s == TicketStatus::AppointmentScheduled,
        n == 7 <==> s == TicketStatus::EbondReceived,
        n == 8 <==> s == TicketStatus::VoicemailReceived,
        n == 254 <==> s == TicketStatus::AutoClose,
        n == 255 <==> s == TicketStatus::Closed,
{
}

/// Statuses follow each other as their numbers do.
pub proof fn statuses_follow_as_numbers(
    from: TicketStatus,
    to: TicketStatus,
    m: i32,
    n: i32,
    allowed: bool,
    by_number: bool,
)
    requires
        call_ensures(TicketStatus::number, (&from,), m),
        call_ensures(TicketStatus::number, (&to,), n),
        call_ensures(TicketStatus::can_transition_to, (&from, to), allowed),
        call_ensures(can_transition, (m, n), by_number),
    ensures
        allowed == by_number,
{
}

/// A priority and its number are two names for one thing, and every number that is no priority's is
/// the unknown priority.
pub proof fn priorities_are_their_numbers(
    p: TicketPriority,
    n: u8,
    byte: u8,
    read: TicketPriority,
    number: u8,
)
    requires
        call_ensures(TicketPriority::number, (&p,), n),
        call_ensures(TicketPriority::from_u8, (byte,), read),
        call_ensures(TicketPriority::number, (&read,), number),
    ensures
        n <= 5,
        byte == n ==> read == p,
        byte <= 5 ==> number == byte,
        byte > 5 ==> read == TicketPriority::Unknown && number == 0,
        n == 0 <==> p == TicketPriority::Unknown,
        n == 1 <==> p == TicketPriority::HardDown,
        n == 2 <==> p == TicketPriority::PrimaryDown,
        n == 3 <==> p == TicketPriority::BackupDown,
        n == 4 <==> p == TicketPriority::Intermittent,
        n == 5 <==> p == TicketPriority::PacketLoss,
{
}

/// A status is called by its name, and a number that is no status's by the number.
pub proof fn statuses_are_called_by_name(value: i32, label: String)
    requires
        call_ensures(status_label, (value,), label),
    ensures
        value == 0 ==> label@ == "Open"@,
        value == 1 ==> label@ == "Awaiting Customer"@,
        value == 2 ==> label@ == "Awaiting ISP"@,
        value == 3 ==> label@ == "Awaiting Partner"@,
        value == 4 ==> label@ == "Support Hold"@,
        value == 5 ==> label@ == "Handed Off"@,
        value == 6 ==> label@ == "Appointment Scheduled"@,
        value == 7 ==> label@ == "Ebond Received"@,
        value == 8 ==> label@ == "Voicemail Received"@,
        value == 254 ==> label@ == "Auto-Close"@,
        value == 255 ==> label@ == "Closed"@,
        !is_status_number(value) ==> label@ == "Status "@ + dec_int(value as int),
{
}

/// A priority is called by its name, and a number that is no priority's by the number.
pub proof fn priorities_are_called_by_name(value: i32, label: String)
    requires
        call_ensures(priority_label, (value,), label),
    ensures
        value == 0 ==> label@ == "Unknown"@,
        value == 1 ==> label@ == "Hard Down"@,
        value == 2 ==> label@ == "Primary Down"@,
        value == 3 ==> label@ == "Backup Down"@,
        value == 4 ==> label@ == "Intermittent"@,
        value == 5 ==> label@ == "Packet Loss"@,
        !(0 <= value <= 5) ==> label@ == "Priority "@ + dec_int(value as int),
{
}

/// The choices of a form are the statuses and priorities, each once, in the order of their numbers,
/// under the names that they are shown by.
pub proof fn choices_are_shown_by_name(
    choices: Vec<(i32, &'static str)>,
    levels: Vec<(i32, &'static str)>,
    i: int,
    label: String,
    level: String,
)
    requires
        call_ensures(statuses, (), choices),
        call_ensures(priorities, (), levels),
        0 <= i < choices@.len() ==> call_ensures(status_label, (choices@[i].0,), label),
        0 <= i < levels@.len() ==> call_ensures(priority_label, (levels@[i].0,), level),
    ensures
        choices@.len() == 11,
        levels@.len() == 6,
        0 <= i < 11 ==> choices@[i].1@ == label@ && choices@[i].0 == (if i < 9 {
            i
        } else {
            i + 245
        }),
        0 <= i < 6 ==> levels@[i].1@ == level@ && levels@[i].0 == i,
{
    let n = crate::policy::numbers_of(choices@);
    let m = crate::policy::numbers_of(levels@);
    assert(n.len() == choices@.len() && m.len() == levels@.len());
    if 0 <= i < 11 {
        assert(choices@[i].0 == n[i]);
    }
    if 0 <= i < 6 {
        assert(levels@[i].0 == m[i]);
    }
}

/// The roles that a form offers, by number.
pub proof fn roles_are_offered_by_name(choices: Vec<(i32, &'static str)>)
    requires
        call_ensures(roles, (), choices),
    ensures
        choices@.len() == 6,
        forall|i: int| 0 <= i < 6 ==> (#[trigger] choices@[i]).0 == i,
        choices@[0].1@ == "Admin"@,
        choices@[1].1@ == "Manager"@,
        choices@[2].1@ == "Supervisor"@,
        choices@[3].1@ == "Technician"@,
        choices@[4].1@ == "Ebond Partner"@,
        choices@[5].1@ == "Read Only"@,
{
    let n = crate::policy::numbers_of(choices@);
    assert(n.len() == choices@.len());
    assert forall|i: int| 0 <= i < 6 implies (#[trigger] choices@[i]).0 == i by {
        assert(choices@[i].0 == n[i]);
    }
    assert(choices@[0].0 == 0 && choices@[1].0 == 1 && choices@[2].0 == 2 && choices@[3].0 == 3
        && choices@[4].0 == 4 && choices@[5].0 == 5);
}

} // verus!
