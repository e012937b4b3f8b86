use agent_monitor::commands::{Command, CommandQueues, KillParams};
use agent_monitor::state::{AgentStore, MetricsReport, MetricsSample, Params, StatsReadings};

fn no_readings() -> StatsReadings {
    StatsReadings { memory_used: None, memory_total: None, network_receive: None, network_transmit: None }
}

fn report(processes: &str, stats: &str, readings: StatsReadings) -> MetricsReport {
    MetricsReport { processes: Some(processes.to_string()), system_stats: Some(stats.to_string()), readings }
}

fn params(id: &str) -> Params {
    Params { agent_id: id.to_string() }
}

#[test]
fn unknown_agent_shows_empty_list_and_null() {
    let store = AgentStore::new();
    let view = store.processes(&params("agent-1"));
    assert_eq!(view.processes, "[]");
    assert_eq!(view.system_stats, "null");
}

#[test]
fn pushed_report_is_shown_for_its_agent() {
    let mut store = AgentStore::new();
    let sample = store.push_metrics(
        "agent-1".to_string(),
        "10.0.0.7".to_string(),
        MetricsReport {
            processes: Some("[{\"pid\":1}]".to_string()),
            system_stats: Some("{\"cpu_usage\":3.5}".to_string()),
            readings: no_readings(),
        },
    );
    assert_eq!(
        sample,
        Some(MetricsSample { memory_used: 0, memory_total: 0, network_receive: 0, network_transmit: 0 })
    );
    let view = store.processes(&params("agent-1"));
    assert_eq!(view.processes, "[{\"pid\":1}]");
    assert_eq!(view.system_stats, "{\"cpu_usage\":3.5}");
    let other = store.processes(&params("agent-2"));
    assert_eq!(other.processes, "[]");
    assert_eq!(other.system_stats, "null");
}

#[test]
fn later_report_replaces_earlier_one() {
    let mut store = AgentStore::new();
    store.push_metrics("a".to_string(), "1.1.1.1".to_string(), report("[1]", "{}", no_readings()));
    store.push_metrics("b".to_string(), "2.2.2.2".to_string(), report("[2]", "null", no_readings()));
    store.push_metrics("a".to_string(), "3.3.3.3".to_string(), report("[3]", "{\"x\":1}", no_readings()));
    let a = store.processes(&params("a"));
    assert_eq!(a.processes, "[3]");
    assert_eq!(a.system_stats, "{\"x\":1}");
    let b = store.processes(&params("b"));
    assert_eq!(b.processes, "[2]");
    assert_eq!(b.system_stats, "null");
}

#[test]
fn readings_become_a_sample_with_zero_for_missing_values() {
    let mut store = AgentStore::new();
    let readings = StatsReadings {
        memory_used: Some(512),
        memory_total: None,
        network_receive: Some(-4),
        network_transmit: None,
    };
    let sample = store.push_metrics("a".to_string(), "1.1.1.1".to_string(), report("null", "{}", readings));
    assert_eq!(
        sample,
        Some(MetricsSample { memory_used: 512, memory_total: 0, network_receive: -4, network_transmit: 0 })
    );
}

fn kill(id: &str, pid: u32) -> KillParams {
    KillParams { agent_id: id.to_string(), pid }
}

#[test]
fn kill_commands_are_collected_in_order_once() {
    let mut queues = CommandQueues::new();
    assert!(queues.kill_process(kill("a", 10)));
    assert!(queues.kill_process(kill("b", 99)));
    assert!(queues.kill_process(kill("a", 11)));
    assert_eq!(queues.get_commands("a"), vec![Command::Kill { pid: 10 }, Command::Kill { pid: 11 }]);
    assert_eq!(queues.get_commands("a"), Vec::<Command>::new());
    assert_eq!(queues.get_commands("b"), vec![Command::Kill { pid: 99 }]);
}

#[test]
fn agent_without_commands_gets_an_empty_list() {
    let mut queues = CommandQueues::new();
    assert_eq!(queues.get_commands("nobody"), Vec::<Command>::new());
    assert!(queues.kill_process(kill("nobody", 3)));
    assert_eq!(queues.get_commands("nobody"), vec![Command::Kill { pid: 3 }]);
}

#[test]
fn missing_fields_are_kept_as_null_and_store_no_sample() {
    let mut store = AgentStore::new();
    let sample = store.push_metrics(
        "a".to_string(),
        "1.1.1.1".to_string(),
        MetricsReport { processes: None, system_stats: None, readings: no_readings() },
    );
    assert_eq!(sample, None);
    let view = store.processes(&params("a"));
    assert_eq!(view.processes, "null");
    assert_eq!(view.system_stats, "null");
}

#[test]
fn null_statistics_field_still_stores_a_zero_sample() {
    let mut store = AgentStore::new();
    let sample = store.push_metrics(
        "a".to_string(),
        "1.1.1.1".to_string(),
        MetricsReport { processes: Some("[]".to_string()), system_stats: Some("null".to_string()), readings: no_readings() },
    );
    assert_eq!(
        sample,
        Some(MetricsSample { memory_used: 0, memory_total: 0, network_receive: 0, network_transmit: 0 })
    );
}

#[test]
fn interleaved_commands_keep_each_agents_order() {
    let mut queues = CommandQueues::new();
    for (agent, pid) in [("a", 1), ("b", 2), ("a", 3), ("c", 4), ("b", 5), ("a", 6)] {
        assert!(queues.kill_process(kill(agent, pid)));
    }
    assert_eq!(
        queues.get_commands("a"),
        vec![Command::Kill { pid: 1 }, Command::Kill { pid: 3 }, Command::Kill { pid: 6 }]
    );
    assert_eq!(queues.get_commands("b"), vec![Command::Kill { pid: 2 }, Command::Kill { pid: 5 }]);
    assert_eq!(queues.get_commands("c"), vec![Command::Kill { pid: 4 }]);
    assert_eq!(queues.get_commands("a"), Vec::<Command>::new());
}
