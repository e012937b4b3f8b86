use agent_monitor::agents::{
    agent_listing, assign_agent_to_company, company_listing, create_agent, processes_url, AssignAgentInput,
    AssignStep, CreateAgentInput,
};
use agent_monitor::auth::delete_user;
use agent_monitor::history::{interval, metrics_history, HistoryParams};

const HEAD: &str = "SELECT cpu_usage, memory_used, memory_total,\n                    network_receive, network_transmit, created_at\n             FROM agent_metrics\n             WHERE agent_id = $1\n             AND created_at >= NOW() - INTERVAL '";
const TAIL: &str = "'\n             ORDER BY created_at ASC";

#[test]
fn ranges_select_their_interval() {
    let cases = [
        ("1m", "1 minute"),
        ("1h", "1 hour"),
        ("10h", "10 hours"),
        ("1d", "1 day"),
        ("1month", "1 month"),
        ("1y", "1 minute"),
        ("", "1 minute"),
        ("1 hour'; DROP TABLE users; --", "1 minute"),
    ];
    for (range, expected) in cases {
        assert_eq!(interval(&range.to_string()), expected);
    }
}

#[test]
fn history_query_embeds_the_interval() {
    let query = metrics_history(&HistoryParams { range: "10h".to_string() });
    assert_eq!(query, format!("{}10 hours{}", HEAD, TAIL));
    let query = metrics_history(&HistoryParams { range: "whatever".to_string() });
    assert_eq!(query, format!("{}1 minute{}", HEAD, TAIL));
}

#[test]
fn assignment_steps_and_answers() {
    let input = AssignAgentInput { company_id: 9 };
    assert_eq!(assign_agent_to_company(None, &input), AssignStep::NotFound);
    assert_eq!(assign_agent_to_company(Some(Some(7)), &input), AssignStep::AlreadyAssigned);
    assert_eq!(assign_agent_to_company(Some(None), &input), AssignStep::Assign { company_id: 9 });
    assert_eq!(AssignStep::NotFound.message(), "Agent not found");
    assert_eq!(AssignStep::AlreadyAssigned.message(), "Agent already assigned");
    assert_eq!(AssignStep::Assign { company_id: 9 }.message(), "Agent assigned");
}

#[test]
fn repeated_assignments_change_the_company_once() {
    let mut company: Option<u128> = None;
    let mut answers = Vec::new();
    for requested in [5u128, 6, 5, 7] {
        let step = assign_agent_to_company(Some(company), &AssignAgentInput { company_id: requested });
        if let AssignStep::Assign { company_id } = step {
            company = Some(company_id);
        }
        answers.push(step.message());
    }
    assert_eq!(company, Some(5));
    assert_eq!(answers, vec!["Agent assigned", "Agent already assigned", "Agent already assigned", "Agent already assigned"]);
}

#[test]
fn listings_show_uuids_hyphenated() {
    let row = agent_listing("agent-7".to_string(), "edge".to_string(), Some(0xff), Some("Acme".to_string()));
    assert_eq!(row.id, "agent-7");
    assert_eq!(row.name, "edge");
    assert_eq!(row.company_id.as_deref(), Some("00000000-0000-0000-0000-0000000000ff"));
    assert_eq!(row.company_name.as_deref(), Some("Acme"));
    let lone = agent_listing("x".to_string(), "y".to_string(), None, None);
    assert_eq!(lone.company_id, None);
    assert_eq!(lone.company_name, None);
    let company = company_listing(0xa1a2a3a4_b1b2_c1c2_d1d2_d3d4d5d6d7d8, "Acme".to_string());
    assert_eq!(company.id, "a1a2a3a4-b1b2-c1c2-d1d2-d3d4d5d6d7d8");
    assert_eq!(company.name, "Acme");
}

#[test]
fn deletion_statuses() {
    assert_eq!(delete_user(Some(1)), Ok(204));
    assert_eq!(delete_user(Some(3)), Ok(204));
    assert_eq!(delete_user(Some(0)), Err(404));
    assert_eq!(delete_user(None), Err(500));
}

#[test]
fn processes_url_appends_the_path() {
    assert_eq!(processes_url("http://10.0.0.5:9000"), "http://10.0.0.5:9000/processes");
    assert_eq!(processes_url(""), "/processes");
}

#[test]
fn new_agent_gets_a_random_uuid_as_id() {
    let a = create_agent(CreateAgentInput { name: "edge-1".to_string(), company_id: 42 });
    let b = create_agent(CreateAgentInput { name: "edge-1".to_string(), company_id: 42 });
    assert_eq!(a.name, "edge-1");
    assert_eq!(a.company_id, 42);
    assert_eq!(a.id.len(), 36);
    let parsed = uuid::Uuid::parse_str(&a.id).unwrap();
    assert_eq!(parsed.get_version_num(), 4);
    assert_eq!(parsed.hyphenated().to_string(), a.id);
    let chars: Vec<char> = a.id.chars().collect();
    assert_eq!(chars[14], '4');
    assert!("89ab".contains(chars[19]));
    assert_ne!(a.id, b.id);
}
