//! Fault injection: scenarios, who may start them, and which are active.

use vstd::prelude::*;
use vstd::string::*;

use crate::status::{status, Code, Status};
use crate::text::{
    concat2, dec, decimal, decimal_stands_for_its_number, digit_value, parse_unsigned,
    read_unsigned, same, str_of, text_of, texts_of,
};

verus! {

/// A fault to inject.
#[derive(Debug, Clone)]
pub enum ChaosScenario {
    NetworkLatency { target_service: String, delay_ms: u64, duration_ms: u64 },
    ServiceCrash {
        target_service: String,
        /// How likely a crash is, as it was written; nothing for the usual likelihood.
        crash_probability: Option<String>,
        duration_ms: u64,
    },
    DiskIODelay { target_service: String, delay_ms: u64, duration_ms: u64 },
    RaftLeaderFailure { node_id: u64, duration_ms: u64 },
    NetworkPartition { partition_groups: Vec<Vec<String>>, duration_ms: u64 },
}

/// What a fault is.
pub enum ScenarioView {
    NetworkLatency { target_service: Seq<char>, delay_ms: u64, duration_ms: u64 },
    ServiceCrash {
        target_service: Seq<char>,
        crash_probability: Option<Seq<char>>,
        duration_ms: u64,
    },
    DiskIODelay { target_service: Seq<char>, delay_ms: u64, duration_ms: u64 },
    RaftLeaderFailure { node_id: u64, duration_ms: u64 },
    NetworkPartition { partition_groups: Seq<Seq<Seq<char>>>, duration_ms: u64 },
}

/// The texts of a list of groups.
pub open spec fn groups_texts(v: Seq<Vec<String>>) -> Seq<Seq<Seq<char>>> {
    Seq::new(v.len(), |i: int| texts_of(v[i]@))
}

impl View for ChaosScenario {
    type V = ScenarioView;

    open spec fn view(&self) -> ScenarioView {
        match *self {
            ChaosScenario::NetworkLatency { target_service, delay_ms, duration_ms } =>
                ScenarioView::NetworkLatency {
                target_service: target_service@,
                delay_ms,
                duration_ms,
            },
            ChaosScenario::ServiceCrash { target_service, crash_probability, duration_ms } =>
                ScenarioView::ServiceCrash {
                target_service: target_service@,
                crash_probability: text_of(crash_probability),
                duration_ms,
            },
            ChaosScenario::DiskIODelay { target_service, delay_ms, duration_ms } =>
                ScenarioView::DiskIODelay {
                target_service: target_service@,
                delay_ms,
                duration_ms,
            },
            ChaosScenario::RaftLeaderFailure { node_id, duration_ms } =>
                ScenarioView::RaftLeaderFailure { node_id, duration_ms },
            ChaosScenario::NetworkPartition { partition_groups, duration_ms } =>
                ScenarioView::NetworkPartition {
                partition_groups: groups_texts(partition_groups@),
                duration_ms,
            },
        }
    }
}

/// How long a fault lasts.
pub open spec fn duration_of(s: ScenarioView) -> u64 {
    match s {
        ScenarioView::NetworkLatency { duration_ms, .. } => duration_ms,
        ScenarioView::ServiceCrash { duration_ms, .. } => duration_ms,
        ScenarioView::DiskIODelay { duration_ms, .. } => duration_ms,
        ScenarioView::RaftLeaderFailure { duration_ms, .. } => duration_ms,
        ScenarioView::NetworkPartition { duration_ms, .. } => duration_ms,
    }
}

impl ChaosScenario {
    /// How long the fault lasts before it ends by itself.
    pub fn duration_ms(&self) -> (out: u64)
        ensures
            out == duration_of(self@),
    {
        match self {
            ChaosScenario::NetworkLatency { duration_ms, .. } => *duration_ms,
            ChaosScenario::ServiceCrash { duration_ms, .. } => *duration_ms,
            ChaosScenario::DiskIODelay { duration_ms, .. } => *duration_ms,
            ChaosScenario::RaftLeaderFailure { duration_ms, .. } => *duration_ms,
            ChaosScenario::NetworkPartition { duration_ms, .. } => *duration_ms,
        }
    }
}

// ---- Requests ----

/// A request to inject a fault. No parameter occurs twice.
#[derive(Debug, Clone)]
pub struct ChaosRequest {
    pub scenario_type: String,
    pub parameters: Vec<(String, String)>,
}

/// The answer to a request.
#[derive(Debug, Clone)]
pub struct ChaosAck {
    pub scenario_id: String,
    pub status: String,
    pub message: String,
}

/// The active faults and the kinds there are.
#[derive(Debug, Clone)]
pub struct ScenarioCatalog {
    pub scenario_ids: Vec<String>,
    pub available_types: Vec<String>,
}

/// Decides on a request by its token: without a token to expect, everyone may.
pub fn authorize(expected: Option<&str>, provided: Option<&str>) -> (out: Result<(), Status>)
    ensures
        if expected is None || str_of(provided) == str_of(expected) {
            out is Ok
        } else {
            out matches Err(e) && e@ == status(
                Code::PermissionDenied,
                "chaos: missing or invalid admin token"@,
            )
        },
{
    let allowed: bool = match (expected, provided) {
        (None, _) => true,
        (Some(e), Some(p)) => same(e, p),
        (Some(_), None) => false,
    };
    if allowed {
        Ok(())
    } else {
        Err(Status::new(Code::PermissionDenied, "chaos: missing or invalid admin token"))
    }
}

/// The value of a parameter: the first with that name.
pub open spec fn parameter(params: Seq<(String, String)>, name: Seq<char>) -> Option<Seq<char>>
    decreases params.len(),
{
    if params.len() == 0 {
        None
    } else if params[0].0@ == name {
        Some(params[0].1@)
    } else {
        parameter(params.drop_first(), name)
    }
}

/// The value of a parameter, or a text in its place.
pub open spec fn text_or(params: Seq<(String, String)>, name: Seq<char>, usual: Seq<char>) -> Seq<
    char,
> {
    match parameter(params, name) {
        Some(text) => text,
        None => usual,
    }
}

/// The number that a parameter writes, or a number in its place.
pub open spec fn number_or(params: Seq<(String, String)>, name: Seq<char>, usual: u64) -> u64 {
    match parameter(params, name) {
        Some(text) => match parse_unsigned(text, u64::MAX as nat) {
            Some(n) => n as u64,
            None => usual,
        },
        None => usual,
    }
}

/// The groups of a partition.
pub open spec fn two_groups() -> Seq<Seq<Seq<char>>> {
    seq![seq!["node-1"@, "node-2"@], seq!["node-3"@, "node-4"@, "node-5"@]]
}

/// The fault that a request asks for, if there is one of that kind.
pub open spec fn scenario_of(kind: Seq<char>, p: Seq<(String, String)>) -> Option<ScenarioView> {
    if kind == "network_latency"@ {
        Some(
            ScenarioView::NetworkLatency {
                target_service: text_or(p, "target_service"@, "all"@),
                delay_ms: number_or(p, "delay_ms"@, 100),
                duration_ms: number_or(p, "duration_ms"@, 30_000),
            },
        )
    } else if kind == "service_crash"@ {
        Some(
            ScenarioView::ServiceCrash {
                target_service: text_or(p, "target_service"@, "random"@),
                crash_probability: parameter(p, "crash_probability"@),
                duration_ms: number_or(p, "duration_ms"@, 30_000),
            },
        )
    } else if kind == "disk_io_delay"@ {
        Some(
            ScenarioView::DiskIODelay {
                target_service: text_or(p, "target_service"@, "db"@),
                delay_ms: number_or(p, "delay_ms"@, 50),
                duration_ms: number_or(p, "duration_ms"@, 30_000),
            },
        )
    } else if kind == "raft_leader_failure"@ {
        Some(
            ScenarioView::RaftLeaderFailure {
                node_id: number_or(p, "node_id"@, 1),
                duration_ms: number_or(p, "duration_ms"@, 10_000),
            },
        )
    } else if kind == "network_partition"@ {
        Some(
            ScenarioView::NetworkPartition {
                partition_groups: two_groups(),
                duration_ms: number_or(p, "duration_ms"@, 15_000),
            },
        )
    } else {
        None
    }
}

/// The kinds of fault there are.
pub open spec fn scenario_kinds() -> Seq<Seq<char>> {
    seq![
        "network_latency"@,
        "service_crash"@,
        "disk_io_delay"@,
        "raft_leader_failure"@,
        "network_partition"@,
    ]
}

fn find_parameter<'a>(params: &'a Vec<(String, String)>, name: &str) -> (out: Option<&'a str>)
    ensures
        str_of(out) == parameter(params@, name@),
{
    let mut i: usize = 0;
    assert(params@.skip(0) =~= params@);
    while i < params.len()
        invariant
            i <= params@.len(),
            parameter(params@, name@) == parameter(params@.skip(i as int), name@),
        decreases params@.len() - i,
    {
        assert(params@.skip(i as int)[0] == params@[i as int]);
        if same(params[i].0.as_str(), name) {
            return Some(params[i].1.as_str());
        }
        assert(params@.skip(i as int).drop_first() =~= params@.skip(i + 1));
        i = i + 1;
    }
    None
}

fn read_text(params: &Vec<(String, String)>, name: &str, usual: &str) -> (out: String)
    ensures
        out@ == text_or(params@, name@, usual@),
{
    match find_parameter(params, name) {
        Some(text) => text.to_owned(),
        None => usual.to_owned(),
    }
}

fn read_number(params: &Vec<(String, String)>, name: &str, usual: u64) -> (out: u64)
    ensures
        out == number_or(params@, name@, usual),
{
    match find_parameter(params, name) {
        Some(text) => match read_unsigned(text, u64::MAX) {
            Some(n) => n,
            None => usual,
        },
        None => usual,
    }
}

fn partition() -> (out: Vec<Vec<String>>)
    ensures
        groups_texts(out@) == two_groups(),
{
    let first: Vec<String> = vec!["node-1".to_owned(), "node-2".to_owned()];
    let second: Vec<String> = vec![
        "node-3".to_owned(),
        "node-4".to_owned(),
        "node-5".to_owned(),
    ];
    assert(texts_of(first@) =~= seq!["node-1"@, "node-2"@]);
    assert(texts_of(second@) =~= seq!["node-3"@, "node-4"@, "node-5"@]);
    let out: Vec<Vec<String>> = vec![first, second];
    assert(groups_texts(out@) =~= two_groups());
    out
}

/// The fault that a request asks for. What is not given, or cannot be read, is as usual.
pub fn parse_scenario(req: &ChaosRequest) -> (out: Result<ChaosScenario, Status>)
    ensures
        match scenario_of(req.scenario_type@, req.parameters@) {
            Some(s) => out matches Ok(scenario) && scenario@ == s,
            None => out matches Err(e) && e@ == status(
                Code::InvalidArgument,
                "Unknown scenario type: "@ + req.scenario_type@,
            ),
        },
{
    let p = &req.parameters;
    let kind: &str = req.scenario_type.as_str();
    if same(kind, "network_latency") {
        Ok(
            ChaosScenario::NetworkLatency {
                target_service: read_text(p, "target_service", "all"),
                delay_ms: read_number(p, "delay_ms", 100),
                duration_ms: read_number(p, "duration_ms", 30_000),
            },
        )
    } else if same(kind, "service_crash") {
        let crash_probability: Option<String> = match find_parameter(p, "crash_probability") {
            Some(text) => Some(text.to_owned()),
            None => None,
        };
        Ok(
            ChaosScenario::ServiceCrash {
                target_service: read_text(p, "target_service", "random"),
                crash_probability,
                duration_ms: read_number(p, "duration_ms", 30_000),
            },
        )
    } else if same(kind, "disk_io_delay") {
        Ok(
            ChaosScenario::DiskIODelay {
                target_service: read_text(p, "target_service", "db"),
                delay_ms: read_number(p, "delay_ms", 50),
                duration_ms: read_number(p, "duration_ms", 30_000),
            },
        )
    } else if same(kind, "raft_leader_failure") {
        Ok(
            ChaosScenario::RaftLeaderFailure {
                node_id: read_number(p, "node_id", 1),
                duration_ms: read_number(p, "duration_ms", 10_000),
            },
        )
    } else if same(kind, "network_partition") {
        Ok(
            ChaosScenario::NetworkPartition {
                partition_groups: partition(),
                duration_ms: read_number(p, "duration_ms", 15_000),
            },
        )
    } else {
        Err(Status::with(Code::InvalidArgument, "Unknown scenario type: ", kind))
    }
}

// ---- Active faults ----

/// The id of a fault: its kind and its number.
pub open spec fn scenario_id(kind: Seq<char>, n: u64) -> Seq<char> {
    kind + "_"@ + dec(n as nat)
}

/// The ids of the active faults.
pub open spec fn ids_of(active: Seq<(String, ChaosScenario)>) -> Seq<Seq<char>> {
    Seq::new(active.len(), |i: int| active[i].0@)
}

/// The active faults by their ids.
pub open spec fn active_map(active: Seq<(String, ChaosScenario)>) -> Map<Seq<char>, ScenarioView>
    decreases active.len(),
{
    if active.len() == 0 {
        Map::empty()
    } else {
        active_map(active.drop_last()).insert(active.last().0@, active.last().1@)
    }
}

/// The active faults and the number of the next one.
#[derive(Debug)]
pub struct ChaosServiceImpl {
    active: Vec<(String, ChaosScenario)>,
    next_id: u64,
}

/// What the service keeps.
pub struct ChaosView {
    /// The active faults by their ids.
    pub active: Map<Seq<char>, ScenarioView>,
    /// The number of the next fault.
    pub next_id: u64,
}

impl View for ChaosServiceImpl {
    type V = ChaosView;

    closed spec fn view(&self) -> ChaosView {
        ChaosView { active: active_map(self.active@), next_id: self.next_id }
    }
}

/// What the ids of active faults tell of the map of them.
proof fn active_ids(active: Seq<(String, ChaosScenario)>)
    ensures
        forall|id: Seq<char>| #[trigger]
            active_map(active).contains_key(id) <==> ids_of(active).contains(id),
    decreases active.len(),
{
    if active.len() > 0 {
        let rest = active.drop_last();
        active_ids(rest);
        assert forall|id: Seq<char>| #[trigger] active_map(active).contains_key(id) <==> ids_of(
            active,
        ).contains(id) by {
            assert(active_map(rest).contains_key(id) <==> ids_of(rest).contains(id));
            assert(ids_of(active)[active.len() - 1] == active.last().0@);
            if ids_of(rest).contains(id) {
                let i = choose|i: int| 0 <= i < ids_of(rest).len() && ids_of(rest)[i] == id;
                assert(ids_of(active)[i] == id);
            }
            if ids_of(active).contains(id) {
                let i = choose|i: int| 0 <= i < ids_of(active).len() && ids_of(active)[i] == id;
                if i < rest.len() {
                    assert(ids_of(rest)[i] == id);
                }
            }
        }
    }
}

/// Taking out the fault at `at` takes its id out of the map, where no id occurs twice.
proof fn removing_active(active: Seq<(String, ChaosScenario)>, at: int)
    requires
        0 <= at < active.len(),
        ids_of(active).no_duplicates(),
    ensures
        active_map(active.remove(at)) == active_map(active).remove(active[at].0@),
        ids_of(active.remove(at)).no_duplicates(),
    decreases active.len(),
{
    let rest = active.drop_last();
    let gone = active.remove(at);
    let id = active[at].0@;
    assert forall|i: int, j: int| 0 <= i < ids_of(gone).len() && 0 <= j < ids_of(gone).len() && i
        != j implies ids_of(gone)[i] != ids_of(gone)[j] by {
        let a = if i < at { i } else { i + 1 };
        let b = if j < at { j } else { j + 1 };
        assert(ids_of(active)[a] != ids_of(active)[b]);
    }
    if at == active.len() - 1 {
        assert(gone =~= rest);
        active_ids(rest);
        if ids_of(rest).contains(id) {
            let i = choose|i: int| 0 <= i < ids_of(rest).len() && ids_of(rest)[i] == id;
            assert(ids_of(active)[i] == ids_of(active)[at]);
            assert(false);
        }
        assert(active_map(gone) =~= active_map(active).remove(id));
    } else {
        assert forall|i: int, j: int| 0 <= i < ids_of(rest).len() && 0 <= j < ids_of(rest).len() && i
            != j implies ids_of(rest)[i] != ids_of(rest)[j] by {
            assert(ids_of(active)[i] != ids_of(active)[j]);
        }
        removing_active(rest, at);
        assert(gone.drop_last() =~= rest.remove(at));
        assert(gone.last() == active.last());
        assert(ids_of(active)[at] != ids_of(active)[active.len() - 1]);
        assert(active_map(gone) =~= active_map(active).remove(id));
    }
}

impl ChaosServiceImpl {
    /// No id is active twice.
    pub closed spec fn wf(&self) -> bool {
        ids_of(self.active@).no_duplicates()
    }

    /// A service without active faults.
    pub fn new() -> (out: Self)
        ensures
            out.wf(),
            out@.active == Map::<Seq<char>, ScenarioView>::empty(),
            out@.next_id == 0,
    {
        ChaosServiceImpl { active: Vec::new(), next_id: 0 }
    }

    fn position(&self, id: &str) -> (out: Option<usize>)
        requires
            self.wf(),
        ensures
            match out {
                Some(i) => i < self.active@.len() && self.active@[i as int].0@ == id@,
                None => !self@.active.contains_key(id@),
            },
    {
        let mut i: usize = 0;
        while i < self.active.len()
            invariant
                i <= self.active@.len(),
                forall|j: int| 0 <= j < i ==> (#[trigger] self.active@[j]).0@ != id@,
            decreases self.active@.len() - i,
        {
            if same(self.active[i].0.as_str(), id) {
                return Some(i);
            }
            i = i + 1;
        }
        proof {
            active_ids(self.active@);
            assert(!ids_of(self.active@).contains(id@)) by {
                if ids_of(self.active@).contains(id@) {
                    let j = choose|j: int|
                        0 <= j < ids_of(self.active@).len() && ids_of(self.active@)[j] == id@;
                    assert(self.active@[j].0@ == id@);
                }
            }
        }
        None
    }

    /// Ends a fault, if it is active. It is called when a fault's time is over.
    pub fn expire(&mut self, id: &str) -> (out: bool)
        requires
            old(self).wf(),
        ensures
            final(self).wf(),
            out == old(self)@.active.contains_key(id@),
            final(self)@.active == old(self)@.active.remove(id@),
            final(self)@.next_id == old(self)@.next_id,
    {
        match self.position(id) {
            Some(i) => {
                proof {
                    removing_active(self.active@, i as int);
                    active_ids(self.active@);
                    assert(ids_of(self.active@)[i as int] == id@);
                }
                self.active.remove(i);
                true
            },
            None => {
                assert(self@.active.remove(id@) =~= self@.active);
                false
            },
        }
    }

    /// Starts the fault that a request asks for, and says how long it lasts. The fault is to be
    /// ended after that time.
    pub fn inject_scenario(
        &mut self,
        expected: Option<&str>,
        provided: Option<&str>,
        req: &ChaosRequest,
    ) -> (out: Result<(ChaosAck, u64), Status>)
        requires
            old(self).wf(),
        ensures
            final(self).wf(),
            if !(expected is None || str_of(provided) == str_of(expected)) {
                &&& out matches Err(e) && e@ == status(
                    Code::PermissionDenied,
                    "chaos: missing or invalid admin token"@,
                )
                &&& final(self)@ == old(self)@
            } else {
                match scenario_of(req.scenario_type@, req.parameters@) {
                    None => {
                        &&& out matches Err(e) && e@ == status(
                            Code::InvalidArgument,
                            "Unknown scenario type: "@ + req.scenario_type@,
                        )
                        &&& final(self)@ == old(self)@
                    },
                    Some(s) => {
                        let id = scenario_id(req.scenario_type@, old(self)@.next_id);
                        &&& out matches Ok((ack, lasts)) && ack.scenario_id@ == id && ack.status@
                            == "injected"@ && ack.message@ == "Chaos scenario "@ + req.scenario_type@
                            + " injected successfully"@ && lasts == duration_of(s)
                        &&& final(self)@.active == old(self)@.active.insert(id, s)
                        &&& final(self)@.next_id == vstd::wrapping::u64_specs::wrapping_add(
                            old(self)@.next_id,
                            1,
                        )
                    },
                }
            },
    {
        match authorize(expected, provided) {
            Ok(()) => {},
            Err(e) => {
                return Err(e);
            },
        }
        let scenario: ChaosScenario = match parse_scenario(req) {
            Ok(scenario) => scenario,
            Err(e) => {
                return Err(e);
            },
        };
        let lasts: u64 = scenario.duration_ms();
        let mut id: String = concat2(req.scenario_type.as_str(), "_");
        id.append(decimal(self.next_id).as_str());
        self.next_id = self.next_id.wrapping_add(1);
        let mut message: String = concat2("Chaos scenario ", req.scenario_type.as_str());
        message.append(" injected successfully");
        let ack = ChaosAck { scenario_id: id.clone(), status: "injected".to_owned(), message };
        self.expire(id.as_str());
        let ghost before = self.active@;
        let ghost entry = (id, scenario);
        self.active.push((id, scenario));
        proof {
            active_ids(before);
            assert(!active_map(before).contains_key(entry.0@));
            assert(self.active@.drop_last() =~= before);
            let ids = ids_of(self.active@);
            assert forall|i: int, j: int| 0 <= i < ids.len() && 0 <= j < ids.len() && i != j implies ids[i]
                != ids[j] by {
                if i < before.len() {
                    assert(ids[i] == ids_of(before)[i]);
                }
                if j < before.len() {
                    assert(ids[j] == ids_of(before)[j]);
                }
                assert(!ids_of(before).contains(entry.0@));
            }
            assert(self@.active =~= old(self)@.active.insert(entry.0@, entry.1@));
        }
        Ok((ack, lasts))
    }

    /// Stops an active fault before its time is over.
    pub fn stop_scenario(
        &mut self,
        expected: Option<&str>,
        provided: Option<&str>,
        id: String,
    ) -> (out: Result<ChaosAck, Status>)
        requires
            old(self).wf(),
        ensures
            final(self).wf(),
            final(self)@.next_id == old(self)@.next_id,
            if !(expected is None || str_of(provided) == str_of(expected)) {
                &&& out matches Err(e) && e@ == status(
                    Code::PermissionDenied,
                    "chaos: missing or invalid admin token"@,
                )
                &&& final(self)@ == old(self)@
            } else if old(self)@.active.contains_key(id@) {
                &&& out matches Ok(ack) && ack.scenario_id@ == id@ && ack.status@ == "stopped"@
                    && ack.message@ == "Chaos scenario stopped successfully"@
                &&& final(self)@.active == old(self)@.active.remove(id@)
            } else {
                &&& out matches Err(e) && e@ == status(
                    Code::NotFound,
                    "Scenario "@ + id@ + " not found"@,
                )
                &&& final(self)@.active == old(self)@.active
            },
    {
        match authorize(expected, provided) {
            Ok(()) => {},
            Err(e) => {
                return Err(e);
            },
        }
        if self.expire(id.as_str()) {
            Ok(
                ChaosAck {
                    scenario_id: id,
                    status: "stopped".to_owned(),
                    message: "Chaos scenario stopped successfully".to_owned(),
                },
            )
        } else {
            assert(old(self)@.active.remove(id@) =~= old(self)@.active);
            let mut message: String = concat2("Scenario ", id.as_str());
            message.append(" not found");
            Err(Status { code: Code::NotFound, message })
        }
    }

    /// The active faults and the kinds there are.
    pub fn list_scenarios(&self) -> (out: ScenarioCatalog)
        requires
            self.wf(),
        ensures
            texts_of(out.scenario_ids@).no_duplicates(),
            forall|id: Seq<char>| #[trigger]
                texts_of(out.scenario_ids@).contains(id) <==> self@.active.contains_key(id),
            texts_of(out.available_types@) == scenario_kinds(),
    {
        let mut scenario_ids: Vec<String> = Vec::new();
        let mut i: usize = 0;
        while i < self.active.len()
            invariant
                i <= self.active@.len(),
                scenario_ids@.len() == i,
                forall|j: int| 0 <= j < i ==> (#[trigger] scenario_ids@[j])@ == self.active@[j].0@,
            decreases self.active@.len() - i,
        {
            scenario_ids.push(self.active[i].0.clone());
            i = i + 1;
        }
        assert(texts_of(scenario_ids@) =~= ids_of(self.active@));
        proof {
            active_ids(self.active@);
        }
        let available_types: Vec<String> = vec![
            "network_latency".to_owned(),
            "service_crash".to_owned(),
            "disk_io_delay".to_owned(),
            "raft_leader_failure".to_owned(),
            "network_partition".to_owned(),
        ];
        assert(texts_of(available_types@) =~= scenario_kinds());
        ScenarioCatalog { scenario_ids, available_types }
    }
}

impl Default for ChaosServiceImpl {
    fn default() -> (out: Self)
        ensures
            out.wf(),
            out@.active == Map::<Seq<char>, ScenarioView>::empty(),
            out@.next_id == 0,
    {
        ChaosServiceImpl::new()
    }
}

// ---- Laws ----

/// Faults with different numbers have different ids, whatever their kinds: until the numbers run
/// out, no two faults ever have the same id.
pub proof fn scenario_ids_are_unique(kind: Seq<char>, n: u64, other_kind: Seq<char>, m: u64)
    requires
        scenario_id(kind, n) == scenario_id(other_kind, m),
    ensures
        n == m,
        kind == other_kind,
{
    reveal_strlit("_");
    decimal_stands_for_its_number(n as nat);
    decimal_stands_for_its_number(m as nat);
    let a = scenario_id(kind, n);
    let b = scenario_id(other_kind, m);
    let (dn, dm) = (dec(n as nat), dec(m as nat));
    let at = a.len() - dn.len() - 1;
    let bt = b.len() - dm.len() - 1;
    assert(a[at] == '_' && b[bt] == '_');
    if at > bt {
        assert(b[at] == dm[at - bt - 1]);
        assert(digit_value(dm[at - bt - 1]) is Some);
        assert(false);
    }
    if bt > at {
        assert(a[bt] == dn[bt - at - 1]);
        assert(digit_value(dn[bt - at - 1]) is Some);
        assert(false);
    }
    assert(a.skip(at + 1) =~= dn);
    assert(b.skip(bt + 1) =~= dm);
    assert(a.take(at) =~= kind);
    assert(b.take(bt) =~= other_kind);
}

} // verus!
