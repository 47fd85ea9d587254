//! The vocabulary of tickets: statuses, priorities and roles as numbers, their labels, and the
//! policy of which status may follow which.

use vstd::prelude::*;
use vstd::string::*;

use crate::text::{dec_int, decimal_signed};

verus! {

pub const OPEN: i32 = 0;

pub const AWAITING_CUSTOMER: i32 = 1;

pub const AWAITING_ISP: i32 = 2;

pub const AWAITING_PARTNER: i32 = 3;

pub const SUPPORT_HOLD: i32 = 4;

pub const HANDED_OFF: i32 = 5;

pub const APPOINTMENT_SCHEDULED: i32 = 6;

pub const EBOND_RECEIVED: i32 = 7;

pub const VOICEMAIL_RECEIVED: i32 = 8;

pub const AUTO_CLOSE: i32 = 254;

pub const CLOSED: i32 = 255;

/// The name of a status, if it is one.
pub open spec fn status_name(value: int) -> Option<Seq<char>> {
    if value == OPEN {
        Some("Open"@)
    } else if value == AWAITING_CUSTOMER {
        Some("Awaiting Customer"@)
    } else if value == AWAITING_ISP {
        Some("Awaiting ISP"@)
    } else if value == AWAITING_PARTNER {
        Some("Awaiting Partner"@)
    } else if value == SUPPORT_HOLD {
        Some("Support Hold"@)
    } else if value == HANDED_OFF {
        Some("Handed Off"@)
    } else if value == APPOINTMENT_SCHEDULED {
        Some("Appointment Scheduled"@)
    } else if value == EBOND_RECEIVED {
        Some("Ebond Received"@)
    } else if value == VOICEMAIL_RECEIVED {
        Some("Voicemail Received"@)
    } else if value == AUTO_CLOSE {
        Some("Auto-Close"@)
    } else if value == CLOSED {
        Some("Closed"@)
    } else {
        None
    }
}

/// The name of a priority, if it is one.
pub open spec fn priority_name(value: int) -> Option<Seq<char>> {
    if value == 0 {
        Some("Unknown"@)
    } else if value == 1 {
        Some("Hard Down"@)
    } else if value == 2 {
        Some("Primary Down"@)
    } else if value == 3 {
        Some("Backup Down"@)
    } else if value == 4 {
        Some("Intermittent"@)
    } else if value == 5 {
        Some("Packet Loss"@)
    } else {
        None
    }
}

/// The name of a role, if it is one.
pub open spec fn role_label(value: int) -> Option<Seq<char>> {
    if value == 0 {
        Some("Admin"@)
    } else if value == 1 {
        Some("Manager"@)
    } else if value == 2 {
        Some("Supervisor"@)
    } else if value == 3 {
        Some("Technician"@)
    } else if value == 4 {
        Some("Ebond Partner"@)
    } else if value == 5 {
        Some("Read Only"@)
    } else {
        None
    }
}

/// The numbers of a list of choices.
pub open spec fn numbers_of(v: Seq<(i32, &'static str)>) -> Seq<i32> {
    Seq::new(v.len(), |i: int| v[i].0)
}

/// All statuses with their names, in the order of the workflow.
pub fn statuses() -> (out: Vec<(i32, &'static str)>)
    ensures
        numbers_of(out@) == seq![
            OPEN,
            AWAITING_CUSTOMER,
            AWAITING_ISP,
            AWAITING_PARTNER,
            SUPPORT_HOLD,
            HANDED_OFF,
            APPOINTMENT_SCHEDULED,
            EBOND_RECEIVED,
            VOICEMAIL_RECEIVED,
            AUTO_CLOSE,
            CLOSED,
        ],
        forall|i: int|
            0 <= i < out@.len() ==> status_name((#[trigger] out@[i]).0 as int) == Some(out@[i].1@),
{
    let out: Vec<(i32, &'static str)> = vec![
        (OPEN, "Open"),
        (AWAITING_CUSTOMER, "Awaiting Customer"),
        (AWAITING_ISP, "Awaiting ISP"),
        (AWAITING_PARTNER, "Awaiting Partner"),
        (SUPPORT_HOLD, "Support Hold"),
        (HANDED_OFF, "Handed Off"),
        (APPOINTMENT_SCHEDULED, "Appointment Scheduled"),
        (EBOND_RECEIVED, "Ebond Received"),
        (VOICEMAIL_RECEIVED, "Voicemail Received"),
        (AUTO_CLOSE, "Auto-Close"),
        (CLOSED, "Closed"),
    ];
    assert(numbers_of(out@) =~= seq![
        OPEN,
        AWAITING_CUSTOMER,
        AWAITING_ISP,
        AWAITING_PARTNER,
        SUPPORT_HOLD,
        HANDED_OFF,
        APPOINTMENT_SCHEDULED,
        EBOND_RECEIVED,
        VOICEMAIL_RECEIVED,
        AUTO_CLOSE,
        CLOSED,
    ]);
    out
}

/// All priorities with their names.
pub fn priorities() -> (out: Vec<(i32, &'static str)>)
    ensures
        numbers_of(out@) == seq![0i32, 1, 2, 3, 4, 5],
        forall|i: int|
            0 <= i < out@.len() ==> priority_name((#[trigger] out@[i]).0 as int) == Some(out@[i].1@),
{
    let out: Vec<(i32, &'static str)> = vec![
        (0, "Unknown"),
        (1, "Hard Down"),
        (2, "Primary Down"),
        (3, "Backup Down"),
        (4, "Intermittent"),
        (5, "Packet Loss"),
    ];
    assert(numbers_of(out@) =~= seq![0i32, 1, 2, 3, 4, 5]);
    out
}

/// All roles with their names.
pub fn roles() -> (out: Vec<(i32, &'static str)>)
    ensures
        numbers_of(out@) == seq![0i32, 1, 2, 3, 4, 5],
        forall|i: int|
            0 <= i < out@.len() ==> role_label((#[trigger] out@[i]).0 as int) == Some(out@[i].1@),
{
    let out: Vec<(i32, &'static str)> = vec![
        (0, "Admin"),
        (1, "Manager"),
        (2, "Supervisor"),
        (3, "Technician"),
        (4, "Ebond Partner"),
        (5, "Read Only"),
    ];
    assert(numbers_of(out@) =~= seq![0i32, 1, 2, 3, 4, 5]);
    out
}

/// The label of a status: its name, or its number.
pub open spec fn label_of_status(value: int) -> Seq<char> {
    match status_name(value) {
        Some(name) => name,
        None => "Status "@ + dec_int(value),
    }
}

/// The label of a priority: its name, or its number.
pub open spec fn label_of_priority(value: int) -> Seq<char> {
    match priority_name(value) {
        Some(name) => name,
        None => "Priority "@ + dec_int(value),
    }
}

fn find_label(choices: &Vec<(i32, &'static str)>, value: i32) -> (out: Option<&'static str>)
    ensures
        match out {
            Some(label) => exists|i: int|
                0 <= i < choices@.len() && (#[trigger] choices@[i]).0 == value && choices@[i].1@
                    == label@,
            None => forall|i: int| 0 <= i < choices@.len() ==> (#[trigger] choices@[i]).0 != value,
        },
{
    let mut i: usize = 0;
    while i < choices.len()
        invariant
            i <= choices@.len(),
            forall|j: int| 0 <= j < i ==> (#[trigger] choices@[j]).0 != value,
        decreases choices@.len() - i,
    {
        if choices[i].0 == value {
            assert(choices@[i as int].0 == value);
            return Some(choices[i].1);
        }
        i = i + 1;
    }
    None
}

/// The label of a status: its name, or its number.
pub fn status_label(value: i32) -> (out: String)
    ensures
        out@ == label_of_status(value as int),
{
    let choices: Vec<(i32, &'static str)> = statuses();
    match find_label(&choices, value) {
        Some(label) => label.to_owned(),
        None => {
            proof {
                let n = numbers_of(choices@);
                assert forall|i: int| 0 <= i < n.len() implies #[trigger] n[i] != value by {
                    assert(choices@[i].0 != value);
                }
                assert(n[0] != value && n[1] != value && n[2] != value && n[3] != value && n[4]
                    != value && n[5] != value && n[6] != value && n[7] != value && n[8] != value
                    && n[9] != value && n[10] != value);
            }
            let mut out: String = "Status ".to_owned();
            out.append(decimal_signed(value as i64).as_str());
            out
        },
    }
}

/// The label of a priority: its name, or its number.
pub fn priority_label(value: i32) -> (out: String)
    ensures
        out@ == label_of_priority(value as int),
{
    let choices: Vec<(i32, &'static str)> = priorities();
    match find_label(&choices, value) {
        Some(label) => label.to_owned(),
        None => {
            proof {
                let n = numbers_of(choices@);
                assert forall|i: int| 0 <= i < n.len() implies #[trigger] n[i] != value by {
                    assert(choices@[i].0 != value);
                }
                assert(n[0] != value && n[1] != value && n[2] != value && n[3] != value && n[4]
                    != value && n[5] != value);
            }
            let mut out: String = "Priority ".to_owned();
            out.append(decimal_signed(value as i64).as_str());
            out
        },
    }
}

// ---- Transitions ----

/// The status ends a ticket's life.
pub open spec fn is_sink(value: int) -> bool {
    value == CLOSED || value == AUTO_CLOSE
}

/// The statuses that may follow `from`, in the order in which they are offered.
pub open spec fn successors(from: int) -> Seq<i32> {
    if from == OPEN {
        seq![
            AWAITING_CUSTOMER,
            AWAITING_ISP,
            AWAITING_PARTNER,
            SUPPORT_HOLD,
            HANDED_OFF,
            APPOINTMENT_SCHEDULED,
            EBOND_RECEIVED,
            VOICEMAIL_RECEIVED,
            CLOSED,
            AUTO_CLOSE,
        ]
    } else if from == AWAITING_CUSTOMER {
        seq![
            OPEN,
            SUPPORT_HOLD,
            APPOINTMENT_SCHEDULED,
            EBOND_RECEIVED,
            VOICEMAIL_RECEIVED,
            CLOSED,
            AUTO_CLOSE,
        ]
    } else if from == AWAITING_ISP {
        seq![OPEN, SUPPORT_HOLD, EBOND_RECEIVED, CLOSED, AUTO_CLOSE]
    } else if from == AWAITING_PARTNER {
        seq![OPEN, SUPPORT_HOLD, HANDED_OFF, CLOSED, AUTO_CLOSE]
    } else if from == SUPPORT_HOLD {
        seq![
            OPEN,
            AWAITING_CUSTOMER,
            AWAITING_ISP,
            AWAITING_PARTNER,
            APPOINTMENT_SCHEDULED,
            CLOSED,
            AUTO_CLOSE,
        ]
    } else if from == HANDED_OFF {
        seq![OPEN, AWAITING_PARTNER, CLOSED, AUTO_CLOSE]
    } else if from == APPOINTMENT_SCHEDULED {
        seq![OPEN, AWAITING_CUSTOMER, SUPPORT_HOLD, CLOSED, AUTO_CLOSE]
    } else if from == EBOND_RECEIVED {
        seq![OPEN, AWAITING_ISP, CLOSED, AUTO_CLOSE]
    } else if from == VOICEMAIL_RECEIVED {
        seq![OPEN, AWAITING_CUSTOMER, CLOSED, AUTO_CLOSE]
    } else {
        Seq::empty()
    }
}

/// A ticket may go from `from` to `to`; staying is always allowed.
pub open spec fn may_follow(from: i32, to: i32) -> bool {
    from == to || successors(from as int).contains(to)
}

/// Whether a status ends a ticket's life.
pub fn is_terminal(value: i32) -> (out: bool)
    ensures
        out == is_sink(value as int),
{
    value == CLOSED || value == AUTO_CLOSE
}

/// The statuses that may follow `from`, in the order in which they are offered. A status that ends
/// a ticket's life, or that is none, has no successors.
pub fn allowed_transitions(from: i32) -> (out: Vec<i32>)
    ensures
        out@ == successors(from as int),
{
    let out: Vec<i32> = if from == OPEN {
        vec![
            AWAITING_CUSTOMER,
            AWAITING_ISP,
            AWAITING_PARTNER,
            SUPPORT_HOLD,
            HANDED_OFF,
            APPOINTMENT_SCHEDULED,
            EBOND_RECEIVED,
            VOICEMAIL_RECEIVED,
            CLOSED,
            AUTO_CLOSE,
        ]
    } else if from == AWAITING_CUSTOMER {
        vec![
            OPEN,
            SUPPORT_HOLD,
            APPOINTMENT_SCHEDULED,
            EBOND_RECEIVED,
            VOICEMAIL_RECEIVED,
            CLOSED,
            AUTO_CLOSE,
        ]
    } else if from == AWAITING_ISP {
        vec![OPEN, SUPPORT_HOLD, EBOND_RECEIVED, CLOSED, AUTO_CLOSE]
    } else if from == AWAITING_PARTNER {
        vec![OPEN, SUPPORT_HOLD, HANDED_OFF, CLOSED, AUTO_CLOSE]
    } else if from == SUPPORT_HOLD {
        vec![
            OPEN,
            AWAITING_CUSTOMER,
            AWAITING_ISP,
            AWAITING_PARTNER,
            APPOINTMENT_SCHEDULED,
            CLOSED,
            AUTO_CLOSE,
        ]
    } else if from == HANDED_OFF {
        vec![OPEN, AWAITING_PARTNER, CLOSED, AUTO_CLOSE]
    } else if from == APPOINTMENT_SCHEDULED {
        vec![OPEN, AWAITING_CUSTOMER, SUPPORT_HOLD, CLOSED, AUTO_CLOSE]
    } else if from == EBOND_RECEIVED {
        vec![OPEN, AWAITING_ISP, CLOSED, AUTO_CLOSE]
    } else if from == VOICEMAIL_RECEIVED {
        vec![OPEN, AWAITING_CUSTOMER, CLOSED, AUTO_CLOSE]
    } else {
        Vec::new()
    };
    assert(out@ =~= successors(from as int));
    out
}

/// Whether a ticket may go from `from` to `to`.
pub fn can_transition(from: i32, to: i32) -> (out: bool)
    ensures
        out == may_follow(from, to),
{
    if from == to {
        return true;
    }
    let next: Vec<i32> = allowed_transitions(from);
    let mut i: usize = 0;
    while i < next.len()
        invariant
            i <= next@.len(),
            next@ == successors(from as int),
            forall|j: int| 0 <= j < i ==> next@[j] != to,
        decreases next@.len() - i,
    {
        if next[i] == to {
            assert(next@.contains(to));
            return true;
        }
        i = i + 1;
    }
    false
}

/// A ticket that has ended stays as it is.
pub proof fn ended_tickets_stay(from: i32, to: i32)
    requires
        is_sink(from as int),
    ensures
        successors(from as int).len() == 0,
        may_follow(from, to) <==> from == to,
{
}

/// A ticket that has not ended can be closed, by hand and by itself, and any but an open one can
/// be opened again.
pub proof fn living_tickets_can_end(from: i32)
    requires
        status_name(from as int) is Some,
        !is_sink(from as int),
    ensures
        may_follow(from, CLOSED),
        may_follow(from, AUTO_CLOSE),
        may_follow(from, OPEN),
{
    let next = successors(from as int);
    if from == OPEN {
        assert(next[8] == CLOSED && next[9] == AUTO_CLOSE);
    } else {
        assert(next[0] == OPEN);
        assert(next[next.len() - 2] == CLOSED && next[next.len() - 1] == AUTO_CLOSE);
    }
}

/// Only statuses follow statuses, and none follows itself by the list.
pub proof fn successors_are_statuses(from: int, i: int)
    requires
        0 <= i < successors(from).len(),
    ensures
        status_name(successors(from)[i] as int) is Some,
        successors(from)[i] != from,
        status_name(from) is Some,
{
}

// ---- Tallies ----

/// How often `v` occurs in `values`.
pub open spec fn occurrences(values: Seq<i32>, v: i32) -> nat
    decreases values.len(),
{
    if values.len() == 0 {
        0
    } else {
        occurrences(values.drop_last(), v) + if values.last() == v {
            1nat
        } else {
            0
        }
    }
}

/// `counts` holds each distinct value once, in ascending order, with how often it occurs.
pub open spec fn is_tally(values: Seq<i32>, counts: Seq<(i32, usize)>) -> bool {
    &&& forall|i: int, j: int| 0 <= i < j < counts.len() ==> (#[trigger] counts[i]).0 < (#[trigger] counts[j]).0
    &&& forall|i: int|
        0 <= i < counts.len() ==> (#[trigger] counts[i]).1 == occurrences(values, counts[i].0)
            && counts[i].1 > 0
    &&& forall|v: i32| #[trigger]
        occurrences(values, v) > 0 ==> exists|i: int| 0 <= i < counts.len() && (#[trigger] counts[i]).0 == v
}

/// No value occurs more often than there are values.
proof fn occurrences_bounded(values: Seq<i32>, v: i32)
    ensures
        occurrences(values, v) <= values.len(),
    decreases values.len(),
{
    if values.len() > 0 {
        occurrences_bounded(values.drop_last(), v);
    }
}

/// Counts how often each distinct value occurs, in ascending order of the values.
pub fn tally(values: &[i32]) -> (out: Vec<(i32, usize)>)
    ensures
        is_tally(values@, out@),
{
    let mut counts: Vec<(i32, usize)> = Vec::new();
    let mut n: usize = 0;
    assert(values@.take(0) =~= Seq::empty());
    while n < values.len()
        invariant
            n <= values@.len(),
            is_tally(values@.take(n as int), counts@),
        decreases values@.len() - n,
    {
        let v: i32 = values[n];
        let ghost before = values@.take(n as int);
        let ghost now = values@.take(n + 1);
        assert(now.drop_last() =~= before);
        assert(now.last() == v);
        let mut at: usize = 0;
        while at < counts.len() && counts[at].0 < v
            invariant
                at <= counts@.len(),
                forall|i: int| 0 <= i < at ==> (#[trigger] counts@[i]).0 < v,
            decreases counts@.len() - at,
        {
            at = at + 1;
        }
        let ghost old_counts = counts@;
        if at < counts.len() && counts[at].0 == v {
            proof {
                occurrences_bounded(before, v);
            }
            let count: usize = counts[at].1 + 1;
            counts.set(at, (v, count));
            proof {
                assert forall|w: i32| #[trigger] occurrences(now, w) > 0 implies exists|i: int|
                    0 <= i < counts@.len() && (#[trigger] counts@[i]).0 == w by {
                    if w == v {
                        assert(counts@[at as int].0 == v);
                    } else {
                        assert(occurrences(before, w) > 0);
                        let i = choose|i: int| 0 <= i < old_counts.len() && (#[trigger] old_counts[i]).0 == w;
                        assert(counts@[i].0 == w);
                    }
                }
                assert forall|i: int| 0 <= i < counts@.len() implies (#[trigger] counts@[i]).1
                    == occurrences(now, counts@[i].0) && counts@[i].1 > 0 by {
                    assert(old_counts[i].1 == occurrences(before, old_counts[i].0));
                    if i != at {
                        if i < at {
                            assert(old_counts[i].0 < old_counts[at as int].0);
                        } else {
                            assert(old_counts[at as int].0 < old_counts[i].0);
                        }
                    }
                }
                assert forall|i: int, j: int| 0 <= i < j < counts@.len() implies (#[trigger] counts@[i]).0
                    < (#[trigger] counts@[j]).0 by {
                    assert(old_counts[i].0 < old_counts[j].0);
                }
            }
        } else {
            counts.insert(at, (v, 1));
            proof {
                assert(occurrences(before, v) == 0) by {
                    if occurrences(before, v) > 0 {
                        let i = choose|i: int| 0 <= i < old_counts.len() && (#[trigger] old_counts[i]).0 == v;
                        if i > at {
                            assert(old_counts[at as int].0 < old_counts[i].0);
                        }
                        assert(false);
                    }
                }
                assert forall|i: int| 0 <= i < counts@.len() implies (#[trigger] counts@[i]).1
                    == occurrences(now, counts@[i].0) && counts@[i].1 > 0 by {
                    if i < at {
                        assert(counts@[i] == old_counts[i]);
                    } else if i > at {
                        assert(counts@[i] == old_counts[i - 1]);
                        if i - 1 > at {
                            assert(old_counts[at as int].0 < old_counts[i - 1].0);
                        }
                    }
                }
                assert forall|i: int, j: int| 0 <= i < j < counts@.len() implies (#[trigger] counts@[i]).0
                    < (#[trigger] counts@[j]).0 by {
                    if i < at && j > at {
                        assert(old_counts[i].0 < old_counts[j - 1].0);
                    } else if i > at {
                        assert(old_counts[i - 1].0 < old_counts[j - 1].0);
                    } else if j < at {
                        assert(old_counts[i].0 < old_counts[j].0);
                    } else if i == at {
                        assert(counts@[j] == old_counts[j - 1]);
                        if j - 1 > at {
                            assert(old_counts[at as int].0 < old_counts[j - 1].0);
                        }
                    }
                }
                assert forall|w: i32| #[trigger] occurrences(now, w) > 0 implies exists|i: int|
                    0 <= i < counts@.len() && (#[trigger] counts@[i]).0 == w by {
                    if w == v {
                        assert(counts@[at as int].0 == v);
                    } else {
                        assert(occurrences(before, w) > 0);
                        let i = choose|i: int| 0 <= i < old_counts.len() && (#[trigger] old_counts[i]).0 == w;
                        if i < at {
                            assert(counts@[i].0 == w);
                        } else {
                            assert(counts@[i + 1].0 == w);
                        }
                    }
                }
            }
        }
        n = n + 1;
    }
    assert(values@.take(n as int) =~= values@);
    counts
}

} // verus!
