//! Plain values: numbers as text and as bytes, and the order and the joining of texts.

use vstd::prelude::*;
use vstd::utf8::encode_utf8;

use crate::bytes::{before, lex_lt, next_counter, read_be8, same_bytes, to_be8};
use crate::echo::EchoService;
use crate::loopback::{make_request, raft_config, wait_step, ClientRequest, Cluster, Timings, Wait};
use crate::status::{Code, Status};
use crate::text::{
    blank, concat2, copy_bytes, copy_text, dec, decimal, decimal_signed,
    decimal_stands_for_its_number, digit_value, digits_value, join, read_i32, read_i64,
    read_unsigned, same, text_before, texts_of, trim, trim_end, trim_start,
};
use crate::time::Moment;

verus! {

// ---- Numbers as text ----

/// The text is one or more digits from 0 to 9.
pub open spec fn is_number(s: Seq<char>) -> bool {
    s.len() > 0 && forall|i: int| 0 <= i < s.len() ==> 48 <= #[trigger] s[i] as int <= 57
}

/// The number that digits stand for, each worth ten times the next.
pub open spec fn worth(s: Seq<char>) -> int
    decreases s.len(),
{
    if s.len() == 0 {
        0
    } else {
        10 * worth(s.drop_last()) + (s.last() as int - 48)
    }
}

proof fn worth_is_value(s: Seq<char>)
    requires
        forall|i: int| 0 <= i < s.len() ==> 48 <= #[trigger] s[i] as int <= 57,
    ensures
        digits_value(s) == worth(s),
    decreases s.len(),
{
    if s.len() > 0 {
        let t = s.drop_last();
        assert forall|i: int| 0 <= i < t.len() implies 48 <= #[trigger] t[i] as int <= 57 by {
            assert(t[i] == s[i]);
        }
        worth_is_value(t);
        assert(48 <= s[s.len() - 1] as int <= 57);
        assert(digit_value(s.last()) == Some((s.last() as int - 48) as nat));
    }
}

proof fn digits_are_a_number(s: Seq<char>)
    requires
        s.len() > 0,
    ensures
        crate::text::all_digits(s) <==> is_number(s),
{
    if crate::text::all_digits(s) {
        assert forall|i: int| 0 <= i < s.len() implies 48 <= #[trigger] s[i] as int <= 57 by {
            assert(digit_value(s[i]) is Some);
        }
    }
    if is_number(s) {
        assert forall|i: int| 0 <= i < s.len() implies digit_value(#[trigger] s[i]) is Some by {
            assert(48 <= s[i] as int <= 57);
        }
    }
}

proof fn no_zero_in_front(n: nat)
    ensures
        n > 0 ==> dec(n)[0] != '0',
        n == 0 ==> dec(n) =~= seq!['0'],
    decreases n,
{
    if n >= 10 {
        no_zero_in_front(n / 10);
        decimal_stands_for_its_number(n / 10);
        assert(dec(n)[0] == dec(n / 10)[0]);
    }
}

/// A number is written in digits that stand for it, without a zero in front; a negative one with a
/// minus sign before the digits of its size.
pub proof fn numbers_are_written_in_digits(n: u64, out: String, m: i64, signed: String)
    requires
        call_ensures(decimal, (n,), out),
        call_ensures(decimal_signed, (m,), signed),
    ensures
        is_number(out@),
        worth(out@) == n,
        n > 0 ==> out@[0] != '0',
        n == 0 ==> out@ == seq!['0'],
        m >= 0 ==> is_number(signed@) && worth(signed@) == m,
        m < 0 ==> signed@.len() > 1 && signed@[0] == '-' && is_number(signed@.drop_first()) && worth(
            signed@.drop_first(),
        ) == -m,
{
    decimal_stands_for_its_number(n as nat);
    digits_are_a_number(out@);
    worth_is_value(out@);
    no_zero_in_front(n as nat);
    let size = if m < 0 {
        (-m) as nat
    } else {
        m as nat
    };
    decimal_stands_for_its_number(size);
    digits_are_a_number(dec(size));
    worth_is_value(dec(size));
    if m < 0 {
        assert(signed@.drop_first() =~= dec(size));
    }
}

/// A number is read from digits, with or without a plus sign before them, if it is not too large.
pub proof fn numbers_are_read_from_digits(s: &str, max: u64, out: Option<u64>)
    requires
        call_ensures(read_unsigned, (s, max), out),
    ensures
        ({
            let body = if s@.len() > 0 && s@[0] == '+' {
                s@.drop_first()
            } else {
                s@
            };
            &&& out is Some <==> is_number(body) && worth(body) <= max
            &&& out matches Some(n) ==> worth(body) == n
        }),
{
    let body = if s@.len() > 0 && s@[0] == '+' {
        s@.drop_first()
    } else {
        s@
    };
    if body.len() > 0 {
        digits_are_a_number(body);
        if is_number(body) {
            worth_is_value(body);
        }
    }
}

/// Signed numbers are read from digits too; after a minus sign they stand for a negative number.
/// What does not fit is not read.
pub proof fn signed_numbers_are_read_from_digits(s: &str, out: Option<i64>, half: Option<i32>)
    requires
        call_ensures(read_i64, (s,), out),
        call_ensures(read_i32, (s,), half),
    ensures
        ({
            let signed = s@.len() > 0 && (s@[0] == '+' || s@[0] == '-');
            let body = if signed {
                s@.drop_first()
            } else {
                s@
            };
            let n = if signed && s@[0] == '-' {
                -worth(body)
            } else {
                worth(body)
            };
            &&& out is Some <==> is_number(body) && i64::MIN <= n <= i64::MAX
            &&& out matches Some(k) ==> k == n
            &&& half is Some <==> is_number(body) && i32::MIN <= n <= i32::MAX
            &&& half matches Some(k) ==> k == n
        }),
{
    let signed = s@.len() > 0 && (s@[0] == '+' || s@[0] == '-');
    let body = if signed {
        s@.drop_first()
    } else {
        s@
    };
    if body.len() > 0 {
        digits_are_a_number(body);
        if is_number(body) {
            worth_is_value(body);
            worth_is_not_negative(body);
        }
    }
}

proof fn worth_is_not_negative(s: Seq<char>)
    requires
        forall|i: int| 0 <= i < s.len() ==> 48 <= #[trigger] s[i] as int <= 57,
    ensures
        worth(s) >= 0,
{
    worth_is_value(s);
}

// ---- Texts ----

/// The characters of white space.
pub open spec fn is_space(c: char) -> bool {
    let n = c as int;
    9 <= n <= 13 || n == 32 || n == 133 || n == 160 || n == 5760 || 8192 <= n <= 8202 || n == 8232
        || n == 8233 || n == 8239 || n == 8287 || n == 12288
}

/// Every character is white space.
pub open spec fn all_space(s: Seq<char>) -> bool {
    forall|i: int| 0 <= i < s.len() ==> is_space(#[trigger] s[i])
}

pub proof fn space_goes_in_front(s: Seq<char>) -> (front: Seq<char>)
    ensures
        s == front + trim_start(s),
        all_space(front),
        trim_start(s).len() > 0 ==> !is_space(trim_start(s)[0]),
    decreases s.len(),
{
    if s.len() > 0 && crate::text::is_white_space(s[0]) {
        let rest = space_goes_in_front(s.drop_first());
        let front = seq![s[0]] + rest;
        assert(trim_start(s) == trim_start(s.drop_first()));
        assert(s =~= seq![s[0]] + s.drop_first());
        assert(s =~= front + trim_start(s));
        assert forall|i: int| 0 <= i < front.len() implies is_space(#[trigger] front[i]) by {
            if i > 0 {
                assert(front[i] == rest[i - 1]);
            }
        }
        front
    } else {
        let front: Seq<char> = Seq::empty();
        assert(s =~= front + trim_start(s));
        front
    }
}

pub proof fn space_goes_behind(s: Seq<char>) -> (back: Seq<char>)
    ensures
        s == trim_end(s) + back,
        all_space(back),
        trim_end(s).len() > 0 ==> !is_space(trim_end(s).last()) && trim_end(s)[0] == s[0],
    decreases s.len(),
{
    if s.len() > 0 && crate::text::is_white_space(s.last()) {
        let rest = space_goes_behind(s.drop_last());
        let back = rest.push(s.last());
        assert(trim_end(s) == trim_end(s.drop_last()));
        assert(s =~= s.drop_last().push(s.last()));
        assert(s =~= trim_end(s) + back);
        assert forall|i: int| 0 <= i < back.len() implies is_space(#[trigger] back[i]) by {
            if i < rest.len() {
                assert(back[i] == rest[i]);
            }
        }
        back
    } else {
        let back: Seq<char> = Seq::empty();
        assert(s =~= trim_end(s) + back);
        back
    }
}

/// Trimming takes white space off both ends, all of it, and nothing else. A text of which nothing
/// is left is blank.
pub proof fn trimming_takes_space_off(s: &str, out: &str, empty: bool)
    requires
        call_ensures(trim, (s,), out),
        call_ensures(blank, (s,), empty),
    ensures
        exists|front: Seq<char>, back: Seq<char>|
            s@ == #[trigger] (front + out@ + back) && all_space(front) && all_space(back),
        out@.len() > 0 ==> !is_space(out@[0]) && !is_space(out@.last()),
        empty <==> all_space(s@),
{
    let front = space_goes_in_front(s@);
    let back = space_goes_behind(trim_start(s@));
    assert(s@ =~= front + out@ + back);
    if out@.len() == 0 {
        assert forall|i: int| 0 <= i < s@.len() implies is_space(#[trigger] s@[i]) by {
            if i < front.len() {
                assert(front[i] == s@[i]);
            } else {
                assert(back[i - front.len()] == s@[i]);
            }
        }
    } else {
        assert(s@[front.len() as int] == out@[0]);
    }
}

/// Texts are the same where they read the same, and so are bytes; copies read the same.
pub proof fn sameness_is_of_what_is_read(
    a: &str,
    b: &str,
    out: bool,
    x: &[u8],
    y: &[u8],
    equal: bool,
    copy: Vec<u8>,
    text: Option<String>,
    kept: Option<String>,
)
    requires
        call_ensures(same, (a, b), out),
        call_ensures(same_bytes, (x, y), equal),
        call_ensures(copy_bytes, (x,), copy),
        call_ensures(copy_text, (&text,), kept),
    ensures
        out <==> a@ == b@,
        equal <==> x@ == y@,
        copy@ == x@,
        kept is Some <==> text is Some,
        text matches Some(t) ==> kept->0@ == t@,
{
}

proof fn order_is_at_the_first_difference(a: Seq<u8>, b: Seq<u8>, k: int)
    requires
        0 <= k <= a.len() && k <= b.len(),
        forall|i: int| 0 <= i < k ==> #[trigger] a[i] == b[i],
        k < a.len() && k < b.len() ==> a[k] != b[k],
    ensures
        lex_lt(a, b) <==> k < b.len() && (k == a.len() || a[k] < b[k]),
    decreases k,
{
    if k > 0 {
        let (x, y) = (a.drop_first(), b.drop_first());
        assert forall|i: int| 0 <= i < k - 1 implies #[trigger] x[i] == y[i] by {
            assert(a[i + 1] == b[i + 1]);
        }
        assert(a[0] == b[0]);
        order_is_at_the_first_difference(x, y, k - 1);
    }
}

/// Of two byte strings the one that is smaller where they first differ comes first, and of two that
/// do not differ the shorter one.
pub proof fn bytes_are_in_order(a: &[u8], b: &[u8], out: bool, k: int)
    requires
        call_ensures(before, (a, b), out),
        0 <= k <= a@.len() && k <= b@.len(),
        forall|i: int| 0 <= i < k ==> #[trigger] a@[i] == b@[i],
        k < a@.len() && k < b@.len() ==> a@[k] != b@[k],
    ensures
        out <==> k < b@.len() && (k == a@.len() || a@[k] < b@[k]),
{
    order_is_at_the_first_difference(a@, b@, k);
}

/// Texts are in the order of their bytes.
pub proof fn texts_are_in_order(a: &str, b: &str, out: bool, x: &[u8], y: &[u8], first: bool)
    requires
        call_ensures(text_before, (a, b), out),
        x@ == encode_utf8(a@) && y@ == encode_utf8(b@),
        call_ensures(before, (x, y), first),
    ensures
        out == first,
{
}

/// Joining one text more puts the separator and the text behind; joining none gives nothing.
pub proof fn joining_goes_on(
    parts: Vec<String>,
    more: Vec<String>,
    sep: &str,
    out: String,
    longer: String,
    a: &str,
    b: &str,
    both: String,
)
    requires
        more@.len() == parts@.len() + 1,
        forall|i: int| 0 <= i < parts@.len() ==> (#[trigger] parts@[i])@ == more@[i]@,
        call_ensures(join, (&parts, sep), out),
        call_ensures(join, (&more, sep), longer),
        call_ensures(concat2, (a, b), both),
    ensures
        parts@.len() == 0 ==> out@.len() == 0 && longer@ == more@[0]@,
        parts@.len() > 0 ==> longer@ == out@ + sep@ + more@.last()@,
        both@ == a@ + b@,
{
    let (few, all) = (texts_of(parts@), texts_of(more@));
    assert(all.drop_last() =~= few);
    assert(all.last() == more@.last()@);
}

// ---- Numbers as bytes ----

/// A number is kept in eight bytes, each worth two hundred and fifty-six times the next, and is
/// read back from them. Other lengths are not read.
pub proof fn numbers_are_kept_in_eight_bytes(n: u64, out: Vec<u8>, bytes: &[u8], read: Option<u64>)
    requires
        call_ensures(to_be8, (n,), out),
        call_ensures(read_be8, (bytes,), read),
    ensures
        out@.len() == 8,
        n == out@[0] * 0x100_0000_0000_0000 + out@[1] * 0x1_0000_0000_0000 + out@[2]
            * 0x100_0000_0000 + out@[3] * 0x1_0000_0000 + out@[4] * 0x100_0000 + out@[5] * 0x1_0000
            + out@[6] * 0x100 + out@[7],
        bytes@ == out@ ==> read == Some(n),
        read is Some <==> bytes@.len() == 8,
{
    assert(n == (n >> 56u64) as u8 * 0x100_0000_0000_0000 + (n >> 48u64) as u8 * 0x1_0000_0000_0000
        + (n >> 40u64) as u8 * 0x100_0000_0000 + (n >> 32u64) as u8 * 0x1_0000_0000 + (n
        >> 24u64) as u8 * 0x100_0000 + (n >> 16u64) as u8 * 0x1_0000 + (n >> 8u64) as u8 * 0x100
        + n as u8) by (bit_vector);
    crate::bytes::be8_round_trip(n);
}

/// A counter goes up by one each time, from one, and stays at the end. What is no counter counts as
/// zero.
pub proof fn counters_go_up(
    previous: Option<&[u8]>,
    out: Vec<u8>,
    seen: Option<u64>,
    next: &[u8],
    read: Option<u64>,
)
    requires
        call_ensures(next_counter, (previous,), out),
        previous matches Some(bytes) ==> call_ensures(read_be8, (bytes,), seen),
        next@ == out@,
        call_ensures(read_be8, (next,), read),
    ensures
        previous is None ==> read == Some(1u64),
        previous is Some && seen is None ==> read == Some(1u64),
        previous is Some && seen is Some && seen->0 < u64::MAX ==> (read matches Some(n) && n
            == seen->0 + 1),
        previous is Some && seen == Some(u64::MAX) ==> read == Some(u64::MAX),
{
    let counted = crate::bytes::counter_after(
        match previous {
            Some(bytes) => Some(bytes@),
            None => None,
        },
    );
    crate::bytes::be8_round_trip(counted);
}

// ---- Nodes in one process ----

/// A node that was added is reached by its number, one that was taken out is not, and others stay
/// as they are.
pub proof fn nodes_are_reached_by_number<R>(
    c: &mut Cluster<R>,
    d: &mut Cluster<R>,
    id: u64,
    node: R,
    other: u64,
    was: Result<&R, String>,
    added: Result<&R, String>,
    removed: Result<&R, String>,
)
    requires
        *old(d) == *old(c),
        call_ensures(Cluster::<R>::insert, (c, id, node), ()),
        call_ensures(Cluster::<R>::remove, (d, id), ()),
        call_ensures(Cluster::<R>::peer, (old(c), other), was),
        call_ensures(Cluster::<R>::peer, (final(c), other), added),
        call_ensures(Cluster::<R>::peer, (final(d), other), removed),
    ensures
        other == id ==> added == Ok::<&R, String>(&node) && removed is Err,
        other != id ==> (was is Ok <==> added is Ok) && (was is Ok <==> removed is Ok),
        other != id ==> (was matches Ok(n) ==> added == Ok::<&R, String>(n) && removed == Ok::<
            &R,
            String,
        >(n)),
        removed matches Err(text) ==> text@ == "node "@ + dec(other as nat) + " not in cluster"@,
{
}

/// No node is in a new cluster.
pub proof fn a_new_cluster_has_no_nodes<R>(c: Cluster<R>, id: u64, out: Result<&R, String>)
    requires
        call_ensures(Cluster::<R>::new, (), c),
        call_ensures(Cluster::<R>::peer, (&c, id), out),
    ensures
        out is Err,
{
}

/// A request carries what it is made of, and what is said is said back.
pub proof fn requests_are_as_made(
    client: &str,
    serial: u64,
    status: &str,
    out: ClientRequest,
    service: EchoService,
    text: String,
    said: String,
)
    requires
        call_ensures(make_request, (client, serial, status), out),
        call_ensures(EchoService::say, (&service, text), said),
    ensures
        out.client@ == client@ && out.serial == serial && out.status@ == status@,
        said@ == text@,
{
}

/// Nodes send heartbeats more often than they lose patience, and do not lose it all at once.
pub proof fn heartbeats_come_in_time(t: Timings)
    requires
        call_ensures(raft_config, (), t),
    ensures
        t.cluster_name@ == "spike-toy"@,
        0 < t.heartbeat_interval && 3 * t.heartbeat_interval <= t.election_timeout_min,
        t.election_timeout_max == 2 * t.election_timeout_min,
        t.election_timeout_max == 600,
        t.heartbeat_interval == 100,
{
}

/// One waits until what is waited for holds, or the time is over, and never past the deadline.
pub proof fn waiting_ends(holds: bool, now: u64, deadline: u64, out: Wait)
    requires
        call_ensures(wait_step, (holds, now, deadline), out),
    ensures
        out == Wait::Done <==> holds,
        out == Wait::TimedOut <==> !holds && now >= deadline,
        out matches Wait::Again(left) ==> now + left == deadline && left > 0,
{
}

// ---- Failures and times ----

/// A status has the code and the words that it is made with.
pub proof fn a_status_says_what_it_is_made_with(
    code: Code,
    prefix: &str,
    text: &str,
    a: Status,
    b: Status,
)
    requires
        call_ensures(Status::new, (code, text), a),
        call_ensures(Status::with, (code, prefix, text), b),
    ensures
        a.code == code && a.message@ == text@,
        b.code == code && b.message@ == prefix@ + text@,
{
}

/// There are points in time from the first second to the last, each a thousand million nanoseconds
/// long, and twice as long where a leap second may follow.
pub proof fn points_in_time(m: Moment, out: bool)
    requires
        call_ensures(Moment::is_valid, (&m,), out),
    ensures
        m.secs < -8_334_601_228_800 || m.secs > 8_210_266_876_799 ==> !out,
        -8_334_601_228_800 <= m.secs <= 8_210_266_876_799 && m.nanos < 1_000_000_000 ==> out,
        m.nanos >= 2_000_000_000 ==> !out,
        -8_334_601_228_800 <= m.secs <= 8_210_266_876_799 && 1_000_000_000 <= m.nanos
            < 2_000_000_000 ==> (out <==> m.secs % 60 == 59),
{
}

} // verus!
