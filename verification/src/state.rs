//! The registry of agents: for each agent id, the latest processes and
//! system statistics it reported (as JSON text) and the address it reported
//! from.

use vstd::prelude::*;
use vstd::hash_map::StringHashMap;

verus! {

/// What is known of one agent: the JSON text of its latest process list and
/// of its latest system statistics, and its IP address.
pub struct AgentPayload {
    pub processes: String,
    pub system_stats: String,
    pub ip: String,
}

/// The mathematical value of an [`AgentPayload`].
pub struct AgentView {
    pub processes: Seq<char>,
    pub system_stats: Seq<char>,
    pub ip: Seq<char>,
}

impl View for AgentPayload {
    type V = AgentView;

    open spec fn view(&self) -> AgentView {
        AgentView { processes: self.processes@, system_stats: self.system_stats@, ip: self.ip@ }
    }
}

/// Query of the processes route: which agent to show.
pub struct Params {
    pub agent_id: String,
}

/// Integer readings of a statistics report: each is the field's value where
/// the report holds it as an integer that fits in an `i64`, else `None`.
pub struct StatsReadings {
    pub memory_used: Option<i64>,
    pub memory_total: Option<i64>,
    pub network_receive: Option<i64>,
    pub network_transmit: Option<i64>,
}

/// A metrics report pushed by an agent, field by field: the JSON text of its
/// `processes` field and of its `system_stats` field where the report has
/// them, and the integer readings found in the statistics.
pub struct MetricsReport {
    pub processes: Option<String>,
    pub system_stats: Option<String>,
    pub readings: StatsReadings,
}

/// The JSON text kept for a report field: the field's text, or `null` where
/// the report lacks it.
pub open spec fn field_text(field: Option<String>) -> Seq<char> {
    match field {
        Some(text) => text@,
        None => "null"@,
    }
}

/// The integer columns of one stored metrics sample; a reading that is
/// missing or not an integer is stored as 0.
#[derive(Debug, Clone, Copy, PartialEq, Eq, Structural)]
pub struct MetricsSample {
    pub memory_used: i64,
    pub memory_total: i64,
    pub network_receive: i64,
    pub network_transmit: i64,
}

/// What the processes route shows of an agent: the JSON text of its process
/// list and of its system statistics.
pub struct ProcessesView {
    pub processes: String,
    pub system_stats: String,
}

/// The JSON text shown as the process list of an unknown agent.
pub open spec fn empty_processes() -> Seq<char> {
    "[]"@
}

/// The JSON text shown as the statistics of an unknown agent.
pub open spec fn no_stats() -> Seq<char> {
    "null"@
}

/// What the processes route shows for `agent_id`, given the registry `agents`:
/// the stored texts of a known agent, else an empty list and `null`.
pub open spec fn shown(agents: Map<Seq<char>, AgentView>, agent_id: Seq<char>) -> (Seq<char>, Seq<char>) {
    if agents.contains_key(agent_id) {
        (agents[agent_id].processes, agents[agent_id].system_stats)
    } else {
        (empty_processes(), no_stats())
    }
}

/// The registry after `agent_id` pushed a report from `ip`: the agent's
/// entry, new or not, holds the report's texts and that address.
pub open spec fn after_push(
    agents: Map<Seq<char>, AgentView>,
    agent_id: Seq<char>,
    ip: Seq<char>,
    processes: Seq<char>,
    system_stats: Seq<char>,
) -> Map<Seq<char>, AgentView> {
    agents.insert(agent_id, AgentView { processes, system_stats, ip })
}

/// The sample stored for a report's readings: each missing reading as 0.
pub open spec fn sample_of(readings: StatsReadings) -> MetricsSample {
    MetricsSample {
        memory_used: match readings.memory_used { Some(v) => v, None => 0 },
        memory_total: match readings.memory_total { Some(v) => v, None => 0 },
        network_receive: match readings.network_receive { Some(v) => v, None => 0 },
        network_transmit: match readings.network_transmit { Some(v) => v, None => 0 },
    }
}

fn reading_or_zero(reading: Option<i64>) -> (v: i64)
    ensures
        v == (match reading { Some(r) => r, None => 0 }),
{
    match reading {
        Some(r) => r,
        None => 0,
    }
}

/// The agents known to the server, by id.
pub struct AgentStore {
    agents: StringHashMap<AgentPayload>,
}

impl View for AgentStore {
    type V = Map<Seq<char>, AgentView>;

    closed spec fn view(&self) -> Map<Seq<char>, AgentView> {
        self.agents@.map_values(|p: AgentPayload| p@)
    }
}

impl AgentStore {
    /// An empty registry.
    pub fn new() -> (store: Self)
        ensures
            store@ == Map::<Seq<char>, AgentView>::empty(),
    {
        let store = AgentStore { agents: StringHashMap::new() };
        assert(store@ =~= Map::<Seq<char>, AgentView>::empty());
        store
    }

    /// What the processes route answers for `params.agent_id`.
    pub fn processes(&self, params: &Params) -> (view: ProcessesView)
        ensures
            (view.processes@, view.system_stats@) == shown(self@, params.agent_id@),
            self@.contains_key(params.agent_id@) ==> view.processes@ == self@[params.agent_id@].processes
                && view.system_stats@ == self@[params.agent_id@].system_stats,
            !self@.contains_key(params.agent_id@) ==> view.processes@ == "[]"@ && view.system_stats@ == "null"@,
    {
        match self.agents.get(params.agent_id.as_str()) {
            Some(agent) => {
                ProcessesView { processes: agent.processes.clone(), system_stats: agent.system_stats.clone() }
            },
            None => {
                let processes = String::from_str("[]");
                let system_stats = String::from_str("null");
                ProcessesView { processes, system_stats }
            },
        }
    }

    /// Records a report pushed by `agent_id` from `ip`, creating the agent's
    /// entry if it had none: a field missing from the report is kept as
    /// `null`. Returns the metrics sample to store, exactly when the report
    /// has a `system_stats` field.
    pub fn push_metrics(&mut self, agent_id: String, ip: String, report: MetricsReport) -> (sample: Option<MetricsSample>)
        ensures
            final(self)@ == after_push(
                old(self)@,
                agent_id@,
                ip@,
                field_text(report.processes),
                field_text(report.system_stats),
            ),
            sample == (if report.system_stats is Some { Some(sample_of(report.readings)) } else { None::<MetricsSample> }),
            sample is Some <==> report.system_stats is Some,
            final(self)@.contains_key(agent_id@),
            final(self)@[agent_id@].ip == ip@,
            report.processes matches Some(text) ==> final(self)@[agent_id@].processes == text@,
            report.processes is None ==> final(self)@[agent_id@].processes == "null"@,
            report.system_stats matches Some(text) ==> final(self)@[agent_id@].system_stats == text@,
            report.system_stats is None ==> final(self)@[agent_id@].system_stats == "null"@,
            forall|other: Seq<char>| other != agent_id@ ==> (#[trigger] final(self)@.contains_key(other)
                == old(self)@.contains_key(other) && final(self)@[other] == old(self)@[other]),
            sample matches Some(s) ==> {
                &&& (report.readings.memory_used matches Some(v) ==> s.memory_used == v)
                &&& (report.readings.memory_used is None ==> s.memory_used == 0)
                &&& (report.readings.memory_total matches Some(v) ==> s.memory_total == v)
                &&& (report.readings.memory_total is None ==> s.memory_total == 0)
                &&& (report.readings.network_receive matches Some(v) ==> s.network_receive == v)
                &&& (report.readings.network_receive is None ==> s.network_receive == 0)
                &&& (report.readings.network_transmit matches Some(v) ==> s.network_transmit == v)
                &&& (report.readings.network_transmit is None ==> s.network_transmit == 0)
            },
    {
        let sample = if report.system_stats.is_some() {
            Some(MetricsSample {
                memory_used: reading_or_zero(report.readings.memory_used),
                memory_total: reading_or_zero(report.readings.memory_total),
                network_receive: reading_or_zero(report.readings.network_receive),
                network_transmit: reading_or_zero(report.readings.network_transmit),
            })
        } else {
            None
        };
        let processes = match report.processes {
            Some(text) => text,
            None => String::from_str("null"),
        };
        let system_stats = match report.system_stats {
            Some(text) => text,
            None => String::from_str("null"),
        };
        let ghost key = agent_id@;
        let payload = AgentPayload { processes, system_stats, ip };
        self.agents.insert(agent_id, payload);
        assert(self@ =~= after_push(old(self)@, key, payload.ip@, payload.processes@, payload.system_stats@));
        sample
    }
}

/// Each column of a stored sample is the reading of the same name, whatever
/// its value, and 0 where the report lacks that reading.
pub proof fn sample_takes_each_reading(readings: StatsReadings)
    ensures
        readings.memory_used matches Some(v) ==> sample_of(readings).memory_used == v,
        readings.memory_used is None ==> sample_of(readings).memory_used == 0,
        readings.memory_total matches Some(v) ==> sample_of(readings).memory_total == v,
        readings.memory_total is None ==> sample_of(readings).memory_total == 0,
        readings.network_receive matches Some(v) ==> sample_of(readings).network_receive == v,
        readings.network_receive is None ==> sample_of(readings).network_receive == 0,
        readings.network_transmit matches Some(v) ==> sample_of(readings).network_transmit == v,
        readings.network_transmit is None ==> sample_of(readings).network_transmit == 0,
{
}

/// What an agent pushed is what the processes route then shows for it.
pub proof fn pushed_report_is_shown(
    agents: Map<Seq<char>, AgentView>,
    agent_id: Seq<char>,
    ip: Seq<char>,
    processes: Seq<char>,
    system_stats: Seq<char>,
)
    ensures
        shown(after_push(agents, agent_id, ip, processes, system_stats), agent_id) == (processes, system_stats),
{
}

/// A report pushed by one agent changes nothing of any other agent.
pub proof fn push_leaves_other_agents(
    agents: Map<Seq<char>, AgentView>,
    agent_id: Seq<char>,
    other: Seq<char>,
    ip: Seq<char>,
    processes: Seq<char>,
    system_stats: Seq<char>,
)
    requires
        other != agent_id,
    ensures
        after_push(agents, agent_id, ip, processes, system_stats).contains_key(other) == agents.contains_key(other),
        after_push(agents, agent_id, ip, processes, system_stats)[other] == agents[other],
        shown(after_push(agents, agent_id, ip, processes, system_stats), other) == shown(agents, other),
{
}

/// An agent that never pushed a report is shown with an empty process list
/// and no statistics.
pub proof fn unknown_agent_shows_nothing(agents: Map<Seq<char>, AgentView>, agent_id: Seq<char>)
    requires
        !agents.contains_key(agent_id),
    ensures
        shown(agents, agent_id) == (empty_processes(), no_stats()),
        shown(agents, agent_id) == ("[]"@, "null"@),
{
}

} // verus!
