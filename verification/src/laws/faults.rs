//! Injected faults and traps: what is started is active until it ends, and what a trap catches is
//! kept as it came.

use vstd::prelude::*;

use crate::chaos::{
    authorize, parameter, parse_scenario, ChaosAck, ChaosRequest, ChaosScenario, ChaosServiceImpl,
    ScenarioCatalog,
};
use crate::honeypot::{
    capture, capture_at, download_backup, generate_fake_backup_list, generate_fake_wallet,
    generate_junk_data, get_wallet_balance, list_backups, listen_address, BackupMetadata,
    IntrusionEvent, IntrusionMessage, WalletReply,
};
use crate::status::{Code, Status};
use crate::text::{decimal, read_unsigned, text_of, texts_of};

verus! {

// ---- Who may ---

/// Without a token to expect everyone may; otherwise only those who give that token.
pub proof fn only_the_token_opens(
    expected: &str,
    provided: &str,
    anyone: Result<(), Status>,
    nobody: Result<(), Status>,
    none: Result<(), Status>,
    out: Result<(), Status>,
)
    requires
        call_ensures(authorize, (None::<&str>, Some(provided)), anyone),
        call_ensures(authorize, (None::<&str>, None::<&str>), nobody),
        call_ensures(authorize, (Some(expected), None::<&str>), none),
        call_ensures(authorize, (Some(expected), Some(provided)), out),
    ensures
        anyone is Ok && nobody is Ok,
        none is Err,
        out is Ok <==> provided@ == expected@,
        out matches Err(e) ==> e.code == Code::PermissionDenied && e.message@
            == "chaos: missing or invalid admin token"@,
        none matches Err(e) ==> e.code == Code::PermissionDenied && e.message@
            == "chaos: missing or invalid admin token"@,
{
}

// ---- What is asked for ----

/// The parameter has this value: that of the first with the name, or none.
pub open spec fn is_set(params: Seq<(String, String)>, name: Seq<char>, value: Option<Seq<char>>) -> bool {
    match value {
        Some(text) => exists|i: int|
            0 <= i < params.len() && (#[trigger] params[i]).0@ == name && params[i].1@ == text && (
            forall|j: int| 0 <= j < i ==> (#[trigger] params[j]).0@ != name),
        None => forall|j: int| 0 <= j < params.len() ==> (#[trigger] params[j]).0@ != name,
    }
}

proof fn what_is_set_is_found(
    params: Seq<(String, String)>,
    name: Seq<char>,
    value: Option<Seq<char>>,
)
    requires
        is_set(params, name, value),
    ensures
        parameter(params, name) == value,
    decreases params.len(),
{
    if params.len() > 0 && params[0].0@ != name {
        let rest = params.drop_first();
        match value {
            Some(text) => {
                let i = choose|i: int|
                    0 <= i < params.len() && (#[trigger] params[i]).0@ == name && params[i].1@
                        == text && (forall|j: int| 0 <= j < i ==> (#[trigger] params[j]).0@ != name);
                assert(i > 0);
                assert(rest[i - 1] == params[i]);
                assert forall|j: int| 0 <= j < i - 1 implies (#[trigger] rest[j]).0@ != name by {
                    assert(rest[j] == params[j + 1]);
                }
            },
            None => {
                assert forall|j: int| 0 <= j < rest.len() implies (#[trigger] rest[j]).0@ != name by {
                    assert(rest[j] == params[j + 1]);
                }
            },
        }
        what_is_set_is_found(rest, name, value);
    } else if params.len() > 0 {
        match value {
            Some(text) => {
                let i = choose|i: int|
                    0 <= i < params.len() && (#[trigger] params[i]).0@ == name && params[i].1@
                        == text && (forall|j: int| 0 <= j < i ==> (#[trigger] params[j]).0@ != name);
                if i > 0 {
                    assert(params[0].0@ != name);
                }
            },
            None => {
                assert(params[0].0@ != name);
            },
        }
    }
}

/// The number that a parameter writes, if it is set and writes one.
pub open spec fn writes(value: Option<Seq<char>>, word: &str, n: Option<u64>) -> bool {
    match value {
        Some(text) => word@ == text && call_ensures(read_unsigned, (word, u64::MAX), n),
        None => n is None,
    }
}

/// The number, or the usual one.
pub open spec fn or_usual(n: Option<u64>, usual: u64) -> u64 {
    match n {
        Some(k) => k,
        None => usual,
    }
}

/// A request is for the fault that it names, with the parameters that it sets; what it does not set,
/// or does not set to a number, is as usual. A fault without a known name is refused.
pub proof fn a_fault_is_as_asked_for(
    req: ChaosRequest,
    out: Result<ChaosScenario, Status>,
    target: Option<Seq<char>>,
    likely: Option<Seq<char>>,
    delay: Option<Seq<char>>,
    delay_word: &str,
    delay_read: Option<u64>,
    time: Option<Seq<char>>,
    time_word: &str,
    time_read: Option<u64>,
    node: Option<Seq<char>>,
    node_word: &str,
    node_read: Option<u64>,
)
    requires
        call_ensures(parse_scenario, (&req,), out),
        is_set(req.parameters@, "target_service"@, target),
        is_set(req.parameters@, "crash_probability"@, likely),
        is_set(req.parameters@, "delay_ms"@, delay),
        is_set(req.parameters@, "duration_ms"@, time),
        is_set(req.parameters@, "node_id"@, node),
        writes(delay, delay_word, delay_read),
        writes(time, time_word, time_read),
        writes(node, node_word, node_read),
    ensures
        req.scenario_type@ == "network_latency"@ ==> (out matches Ok(
            ChaosScenario::NetworkLatency { target_service, delay_ms, duration_ms },
        ) && target_service@ == (if target is Some {
            target->0
        } else {
            "all"@
        }) && delay_ms == or_usual(delay_read, 100) && duration_ms == or_usual(time_read, 30_000)),
        req.scenario_type@ == "service_crash"@ ==> (out matches Ok(
            ChaosScenario::ServiceCrash { target_service, crash_probability, duration_ms },
        ) && target_service@ == (if target is Some {
            target->0
        } else {
            "random"@
        }) && text_of(crash_probability) == likely && duration_ms == or_usual(time_read, 30_000)),
        req.scenario_type@ == "disk_io_delay"@ ==> (out matches Ok(
            ChaosScenario::DiskIODelay { target_service, delay_ms, duration_ms },
        ) && target_service@ == (if target is Some {
            target->0
        } else {
            "db"@
        }) && delay_ms == or_usual(delay_read, 50) && duration_ms == or_usual(time_read, 30_000)),
        req.scenario_type@ == "raft_leader_failure"@ ==> (out matches Ok(
            ChaosScenario::RaftLeaderFailure { node_id, duration_ms },
        ) && node_id == or_usual(node_read, 1) && duration_ms == or_usual(time_read, 10_000)),
        req.scenario_type@ == "network_partition"@ ==> (out matches Ok(
            ChaosScenario::NetworkPartition { partition_groups, duration_ms },
        ) && duration_ms == or_usual(time_read, 15_000) && partition_groups@.len() == 2
            && texts_of(partition_groups@[0]@) == seq!["node-1"@, "node-2"@] && texts_of(
            partition_groups@[1]@,
        ) == seq!["node-3"@, "node-4"@, "node-5"@]),
        out is Err <==> req.scenario_type@ != "network_latency"@ && req.scenario_type@
            != "service_crash"@ && req.scenario_type@ != "disk_io_delay"@ && req.scenario_type@
            != "raft_leader_failure"@ && req.scenario_type@ != "network_partition"@,
        out matches Err(e) ==> e.code == Code::InvalidArgument && e.message@
            == "Unknown scenario type: "@ + req.scenario_type@,
{
    what_is_set_is_found(req.parameters@, "target_service"@, target);
    what_is_set_is_found(req.parameters@, "crash_probability"@, likely);
    what_is_set_is_found(req.parameters@, "delay_ms"@, delay);
    what_is_set_is_found(req.parameters@, "duration_ms"@, time);
    what_is_set_is_found(req.parameters@, "node_id"@, node);
    kinds_differ();
    if req.scenario_type@ == "network_partition"@ {
        let groups = out->Ok_0->NetworkPartition_partition_groups;
        let texts = crate::chaos::groups_texts(groups@);
        assert(texts == crate::chaos::two_groups());
        assert(texts.len() == groups@.len());
        assert(texts[0] == texts_of(groups@[0]@));
        assert(texts[1] == texts_of(groups@[1]@));
    }
}

proof fn kinds_differ()
    ensures
        "network_latency"@ != "service_crash"@,
        "network_latency"@ != "disk_io_delay"@,
        "network_latency"@ != "raft_leader_failure"@,
        "network_latency"@ != "network_partition"@,
        "service_crash"@ != "disk_io_delay"@,
        "service_crash"@ != "raft_leader_failure"@,
        "service_crash"@ != "network_partition"@,
        "disk_io_delay"@ != "raft_leader_failure"@,
        "disk_io_delay"@ != "network_partition"@,
        "raft_leader_failure"@ != "network_partition"@,
{
    reveal_strlit("network_latency");
    reveal_strlit("service_crash");
    reveal_strlit("disk_io_delay");
    reveal_strlit("raft_leader_failure");
    reveal_strlit("network_partition");
    assert("network_latency"@[0] == 'n' && "network_latency"@.len() == 15);
    assert("service_crash"@[0] == 's');
    assert("disk_io_delay"@[0] == 'd');
    assert("raft_leader_failure"@[0] == 'r');
    assert("network_partition"@[0] == 'n' && "network_partition"@.len() == 17);
}

/// A fault lasts as long as it was asked to.
pub proof fn a_fault_lasts_its_time(s: ChaosScenario, out: u64)
    requires
        call_ensures(ChaosScenario::duration_ms, (&s,), out),
    ensures
        s matches ChaosScenario::NetworkLatency { duration_ms, .. } ==> out == duration_ms,
        s matches ChaosScenario::ServiceCrash { duration_ms, .. } ==> out == duration_ms,
        s matches ChaosScenario::DiskIODelay { duration_ms, .. } ==> out == duration_ms,
        s matches ChaosScenario::RaftLeaderFailure { duration_ms, .. } ==> out == duration_ms,
        s matches ChaosScenario::NetworkPartition { duration_ms, .. } ==> out == duration_ms,
{
}

// ---- What is active ----

/// The catalog names the fault as active.
pub open spec fn names(catalog: ScenarioCatalog, id: Seq<char>) -> bool {
    texts_of(catalog.scenario_ids@).contains(id)
}

/// A fault that was started is active under the id that was told, for the time that it was asked
/// for; the other active faults stay.
pub proof fn a_started_fault_is_active(
    service: &mut ChaosServiceImpl,
    expected: Option<&str>,
    provided: Option<&str>,
    req: ChaosRequest,
    ack: ChaosAck,
    lasts: u64,
    scenario: Result<ChaosScenario, Status>,
    time: u64,
    allowed: Result<(), Status>,
    before: ScenarioCatalog,
    after: ScenarioCatalog,
    id: Seq<char>,
)
    requires
        old(service).wf(),
        call_ensures(
            ChaosServiceImpl::inject_scenario,
            (service, expected, provided, &req),
            Ok::<(ChaosAck, u64), Status>((ack, lasts)),
        ),
        call_ensures(parse_scenario, (&req,), scenario),
        scenario matches Ok(s) ==> call_ensures(ChaosScenario::duration_ms, (&s,), time),
        call_ensures(authorize, (expected, provided), allowed),
        call_ensures(ChaosServiceImpl::list_scenarios, (old(service),), before),
        call_ensures(ChaosServiceImpl::list_scenarios, (final(service),), after),
    ensures
        allowed is Ok && scenario is Ok && lasts == time,
        names(after, ack.scenario_id@),
        id != ack.scenario_id@ ==> (names(after, id) <==> names(before, id)),
        ack.status@ == "injected"@,
        ack.message@ == "Chaos scenario "@ + req.scenario_type@ + " injected successfully"@,
{
}

/// The id of a fault is its kind and a number that counts up, from nought: two faults that are
/// started one after the other have different ids.
pub proof fn faults_are_numbered_on(
    a: &mut ChaosServiceImpl,
    b: &mut ChaosServiceImpl,
    x: ChaosRequest,
    y: ChaosRequest,
    first: ChaosAck,
    second: ChaosAck,
    s: u64,
    t: u64,
    new: ChaosServiceImpl,
    zero: String,
    one: String,
)
    requires
        old(a).wf(),
        *old(b) == *final(a),
        call_ensures(
            ChaosServiceImpl::inject_scenario,
            (a, None::<&str>, None::<&str>, &x),
            Ok::<(ChaosAck, u64), Status>((first, s)),
        ),
        call_ensures(
            ChaosServiceImpl::inject_scenario,
            (b, None::<&str>, None::<&str>, &y),
            Ok::<(ChaosAck, u64), Status>((second, t)),
        ),
        call_ensures(ChaosServiceImpl::new, (), new),
        call_ensures(decimal, (0u64,), zero),
        call_ensures(decimal, (1u64,), one),
    ensures
        first.scenario_id@ != second.scenario_id@,
        *old(a) == new ==> first.scenario_id@ == x.scenario_type@ + "_"@ + zero@
            && second.scenario_id@ == y.scenario_type@ + "_"@ + one@,
{
    let n = old(a)@.next_id;
    let m = old(b)@.next_id;
    if first.scenario_id@ == second.scenario_id@ {
        crate::chaos::scenario_ids_are_unique(x.scenario_type@, n, y.scenario_type@, m);
    }
}

/// A fault that was stopped, or whose time is over, is active no more, and the others stay. What is
/// not active cannot be stopped.
pub proof fn an_ended_fault_is_gone(
    a: &mut ChaosServiceImpl,
    b: &mut ChaosServiceImpl,
    expected: Option<&str>,
    provided: Option<&str>,
    id: String,
    word: &str,
    out: Result<ChaosAck, Status>,
    ended: bool,
    allowed: Result<(), Status>,
    before: ScenarioCatalog,
    stopped: ScenarioCatalog,
    expired: ScenarioCatalog,
    other: Seq<char>,
)
    requires
        old(a).wf(),
        *old(b) == *old(a),
        word@ == id@,
        call_ensures(ChaosServiceImpl::stop_scenario, (a, expected, provided, id), out),
        call_ensures(ChaosServiceImpl::expire, (b, word), ended),
        call_ensures(authorize, (expected, provided), allowed),
        call_ensures(ChaosServiceImpl::list_scenarios, (old(a),), before),
        call_ensures(ChaosServiceImpl::list_scenarios, (final(a),), stopped),
        call_ensures(ChaosServiceImpl::list_scenarios, (final(b),), expired),
    ensures
        out is Ok <==> allowed is Ok && names(before, id@),
        ended <==> names(before, id@),
        !names(expired, id@),
        allowed is Ok ==> !names(stopped, id@),
        allowed is Err ==> (names(stopped, id@) <==> names(before, id@)),
        other != id@ ==> (names(stopped, other) <==> names(before, other)) && (names(expired, other)
            <==> names(before, other)),
        out matches Ok(ack) ==> ack.scenario_id@ == id@ && ack.status@ == "stopped"@ && ack.message@
            == "Chaos scenario stopped successfully"@,
        allowed is Ok ==> (out matches Err(e) ==> e.code == Code::NotFound && e.message@
            == "Scenario "@ + id@ + " not found"@),
        allowed is Err ==> (out matches Err(e) && e.code == Code::PermissionDenied),
{
}

/// A request that is refused starts nothing: the one without the token, and the one of an unknown
/// kind.
pub proof fn a_refused_fault_is_not_started(
    service: &mut ChaosServiceImpl,
    expected: Option<&str>,
    provided: Option<&str>,
    req: ChaosRequest,
    out: Result<(ChaosAck, u64), Status>,
    allowed: Result<(), Status>,
    scenario: Result<ChaosScenario, Status>,
    before: ScenarioCatalog,
    after: ScenarioCatalog,
    id: Seq<char>,
)
    requires
        old(service).wf(),
        call_ensures(
            ChaosServiceImpl::inject_scenario,
            (service, expected, provided, &req),
            out,
        ),
        call_ensures(authorize, (expected, provided), allowed),
        call_ensures(parse_scenario, (&req,), scenario),
        call_ensures(ChaosServiceImpl::list_scenarios, (old(service),), before),
        call_ensures(ChaosServiceImpl::list_scenarios, (final(service),), after),
    ensures
        out is Ok <==> allowed is Ok && scenario is Ok,
        out is Err ==> (names(after, id) <==> names(before, id)),
        allowed is Err ==> (out matches Err(e) && e.code == Code::PermissionDenied),
        allowed is Ok && scenario is Err ==> (out matches Err(e) && e.code == Code::InvalidArgument),
{
}

/// Nothing is active at first, and the kinds there are are named.
pub proof fn nothing_is_active_at_first(
    service: ChaosServiceImpl,
    usual: ChaosServiceImpl,
    a: ScenarioCatalog,
    b: ScenarioCatalog,
)
    requires
        call_ensures(ChaosServiceImpl::new, (), service),
        call_ensures(ChaosServiceImpl::default, (), usual),
        call_ensures(ChaosServiceImpl::list_scenarios, (&service,), a),
        call_ensures(ChaosServiceImpl::list_scenarios, (&usual,), b),
    ensures
        a.scenario_ids@.len() == 0 && b.scenario_ids@.len() == 0,
        texts_of(a.available_types@) == seq![
            "network_latency"@,
            "service_crash"@,
            "disk_io_delay"@,
            "raft_leader_failure"@,
            "network_partition"@,
        ],
{
    if a.scenario_ids@.len() > 0 {
        assert(texts_of(a.scenario_ids@)[0] == a.scenario_ids@[0]@);
        assert(texts_of(a.scenario_ids@).contains(a.scenario_ids@[0]@));
    }
    if b.scenario_ids@.len() > 0 {
        assert(texts_of(b.scenario_ids@)[0] == b.scenario_ids@[0]@);
        assert(texts_of(b.scenario_ids@).contains(b.scenario_ids@[0]@));
    }
}

// ---- Traps ----

/// What a trap catches is kept as it came: where from, what with, where to and how. An unknown
/// origin is called that.
pub proof fn what_is_caught_is_kept(
    time: Option<u64>,
    ip: Option<String>,
    agent: Option<String>,
    endpoint: &str,
    method: &str,
    event: IntrusionEvent,
    now: IntrusionEvent,
    message: IntrusionMessage,
)
    requires
        call_ensures(capture_at, (time, ip, agent, endpoint, method), event),
        call_ensures(capture, (ip, agent, endpoint, method), now),
        call_ensures(IntrusionEvent::to_proto, (&event,), message),
    ensures
        event.timestamp == time,
        ip matches Some(from) ==> event.source_ip@ == from@ && now.source_ip@ == from@,
        ip is None ==> event.source_ip@ == "unknown"@ && now.source_ip@ == "unknown"@,
        event.user_agent == agent && now.user_agent == agent,
        event.endpoint_accessed@ == endpoint@ && now.endpoint_accessed@ == endpoint@,
        event.request_method@ == method@ && now.request_method@ == method@,
        event.request_body is None && event.tls_fingerprint is None,
        message.source_ip@ == event.source_ip@,
        message.endpoint_accessed@ == endpoint@,
        message.request_method@ == method@,
        text_of(message.user_agent) == text_of(agent),
{
}

/// An access crosses the wire with all that was seen of it; a time before the count of seconds
/// began is nought, and one past its end is the end.
pub proof fn an_access_crosses_the_wire(
    event: IntrusionEvent,
    message: IntrusionMessage,
    time: Option<u64>,
    ip: String,
    endpoint: String,
    method: String,
    at: IntrusionEvent,
    new: IntrusionEvent,
)
    requires
        call_ensures(IntrusionEvent::to_proto, (&event,), message),
        call_ensures(IntrusionEvent::at, (time, ip, endpoint, method), at),
        call_ensures(IntrusionEvent::new, (ip, endpoint, method), new),
    ensures
        event.timestamp matches Some(n) ==> (n <= i64::MAX ==> message.timestamp_unix == n) && (n
            > i64::MAX ==> message.timestamp_unix == i64::MAX),
        event.timestamp is None ==> message.timestamp_unix == 0,
        message.source_ip@ == event.source_ip@,
        message.endpoint_accessed@ == event.endpoint_accessed@,
        message.request_method@ == event.request_method@,
        text_of(message.user_agent) == text_of(event.user_agent),
        text_of(message.request_body) == text_of(event.request_body),
        text_of(message.tls_fingerprint) == text_of(event.tls_fingerprint),
        at.timestamp == time,
        at.source_ip@ == ip@ && at.endpoint_accessed@ == endpoint@ && at.request_method@ == method@,
        new.source_ip@ == ip@ && new.endpoint_accessed@ == endpoint@ && new.request_method@
            == method@,
        at.user_agent is None && at.request_body is None && at.tls_fingerprint is None,
        new.user_agent is None && new.request_body is None && new.tls_fingerprint is None,
{
}

/// The made-up wallet has the made-up address.
pub proof fn the_wallet_is_made_up(address: String, out: WalletReply)
    requires
        call_ensures(generate_fake_wallet, (), address),
        call_ensures(get_wallet_balance, (), out),
    ensures
        out.address@ == address@,
        address@ == "bc1qxy2kgdygjrsqtzq2n0yrf2493p83kkfjhx0wlh"@,
        out.balance@ == "13.37000000"@ && out.currency@ == "BTC"@,
{
}

/// The made-up backups have the made-up names, and each is larger than the one before by as much.
pub proof fn the_backups_are_made_up(names: Vec<String>, out: Vec<BackupMetadata>, i: int)
    requires
        call_ensures(generate_fake_backup_list, (), names),
        call_ensures(list_backups, (), out),
    ensures
        texts_of(names@) == seq![
            "production_db_2025-12-08.tar.gz"@,
            "user_credentials_backup.zip"@,
            "ssl_certificates_archive.tar.gz"@,
            "admin_passwords.json.enc"@,
        ],
        out@.len() == names@.len(),
        0 <= i < out@.len() ==> out@[i].name@ == names@[i]@ && out@[i].created_at@
            == "2025-12-08T03:14:00Z"@,
        out@.len() > 0 && out@[0].size_bytes == 1024 * 1024 * 1024,
        0 <= i < out@.len() - 1 ==> out@[i + 1].size_bytes - out@[i].size_bytes == 100 * 1024 * 1024,
{
    let texts = texts_of(names@);
    assert(texts.len() == names@.len());
    if 0 <= i < out@.len() {
        assert(out@[i].name@ == texts[i]);
    }
    if 0 <= i < out@.len() - 1 {
        assert(out@[i].size_bytes == 1_073_741_824 + i * 104_857_600);
        assert(out@[i + 1].size_bytes == 1_073_741_824 + (i + 1) * 104_857_600);
    }
    assert(out@[0].size_bytes == 1_073_741_824 + 0 * 104_857_600);
}

/// Filler is as long as asked for, and all the same.
pub proof fn filler_is_as_long_as_asked_for(size: usize, out: Vec<u8>, i: int)
    requires
        call_ensures(generate_junk_data, (size,), out),
    ensures
        out@.len() == size * 1024 * 1024,
        0 <= i < out@.len() ==> out@[i] == 0x42,
{
    assert(size * 1024 * 1024 >= 0) by (nonlinear_arith)
        requires
            size >= 0,
    ;
}

proof fn pieces_are_counted(total: int, offset: int, k: int)
    requires
        0 <= offset <= total,
        total % 65_536 == 0 && offset % 65_536 == 0,
    ensures
        crate::honeypot::pieces(total, offset).len() == (total - offset) / 65_536,
        0 <= k < crate::honeypot::pieces(total, offset).len() ==> crate::honeypot::pieces(
            total,
            offset,
        )[k] == crate::honeypot::filler(65_536),
    decreases total - offset,
{
    if offset < total {
        assert(offset + 65_536 <= total);
        pieces_are_counted(total, offset + 65_536, k - 1);
        let rest = crate::honeypot::pieces(total, offset + 65_536);
        let all = crate::honeypot::pieces(total, offset);
        assert(all == seq![crate::honeypot::filler(65_536)] + rest);
        assert((total - offset) / 65_536 == 1 + (total - offset - 65_536) / 65_536);
    }
}

/// A download is filler in equal pieces, sixteen to a megabyte: as many megabytes as asked for, but
/// at least one and at most eight.
pub proof fn a_download_is_as_long_as_asked_for(size: u32, out: Vec<Vec<u8>>, k: int, i: int)
    requires
        call_ensures(download_backup, (size,), out),
    ensures
        1 <= size <= 8 ==> out@.len() == 16 * size,
        size == 0 ==> out@.len() == 16,
        size > 8 ==> out@.len() == 128,
        0 <= k < out@.len() ==> out@[k]@.len() == 65_536 && (0 <= i < 65_536 ==> out@[k]@[i]
            == 0x42),
{
    let total = crate::honeypot::download_bytes(size);
    assert(total % 65_536 == 0);
    pieces_are_counted(total, 0, k);
    let parts = crate::record::blobs_of(out@);
    assert(parts.len() == out@.len());
    if 0 <= k < out@.len() {
        assert(parts[k] == out@[k]@);
    }
}

/// The trap listens where it is set to, and at its own place otherwise.
pub proof fn the_trap_listens(text: String, a: String, b: String)
    requires
        call_ensures(listen_address, (Some(text),), a),
        call_ensures(listen_address, (None::<String>,), b),
    ensures
        a@ == text@,
        b@ == "0.0.0.0:8085"@,
{
}

/// No fault is active twice, whatever is started and ended.
pub proof fn no_fault_is_active_twice(
    new: ChaosServiceImpl,
    a: &mut ChaosServiceImpl,
    b: &mut ChaosServiceImpl,
    c: &mut ChaosServiceImpl,
    expected: Option<&str>,
    provided: Option<&str>,
    req: ChaosRequest,
    id: String,
    word: &str,
    x: Result<(ChaosAck, u64), Status>,
    y: Result<ChaosAck, Status>,
    z: bool,
    catalog: ScenarioCatalog,
    i: int,
    j: int,
)
    requires
        call_ensures(ChaosServiceImpl::new, (), new),
        old(a).wf(),
        *old(b) == *old(a) && *old(c) == *old(a),
        call_ensures(ChaosServiceImpl::inject_scenario, (a, expected, provided, &req), x),
        call_ensures(ChaosServiceImpl::stop_scenario, (b, expected, provided, id), y),
        call_ensures(ChaosServiceImpl::expire, (c, word), z),
        call_ensures(ChaosServiceImpl::list_scenarios, (final(a),), catalog),
    ensures
        new.wf() && final(a).wf() && final(b).wf() && final(c).wf(),
        0 <= i < j < catalog.scenario_ids@.len() ==> catalog.scenario_ids@[i]@
            != catalog.scenario_ids@[j]@,
{
    let texts = texts_of(catalog.scenario_ids@);
    assert(texts.len() == catalog.scenario_ids@.len());
    if 0 <= i < j < catalog.scenario_ids@.len() {
        assert(texts[i] != texts[j]);
    }
}

} // verus!
