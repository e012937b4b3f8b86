//! Agents and companies: request bodies, the creation of an agent, and the
//! rule for assigning an agent to a company.

use vstd::prelude::*;
use crate::text::{hyphenated_uuid, is_random_uuid, new_random_uuid, uuid_text};

verus! {

/// Body of a rename request.
pub struct RenameAgentInput {
    pub name: String,
}

/// Body of a company creation request.
pub struct CreateCompanyInput {
    pub name: String,
}

/// Body of an agent creation request; the company is given by its UUID.
pub struct CreateAgentInput {
    pub name: String,
    pub company_id: u128,
}

/// Body of an assignment request: the company (by UUID) to assign the agent to.
pub struct AssignAgentInput {
    pub company_id: u128,
}

/// An agent ready to be stored: its new id (the text of a fresh random
/// UUID), its name and its company.
pub struct NewAgent {
    pub id: String,
    pub name: String,
    pub company_id: u128,
}

/// Prepares a new agent: a fresh random UUID, as text, becomes its id.
pub fn create_agent(input: CreateAgentInput) -> (agent: NewAgent)
    ensures
        exists|u: u128| is_random_uuid(u) && agent.id@ == hyphenated_uuid(u),
        agent.name@ == input.name@,
        agent.company_id == input.company_id,
{
    let u = new_random_uuid();
    let id = uuid_text(u);
    NewAgent { id, name: input.name, company_id: input.company_id }
}

/// What to do with an assignment request.
#[derive(Debug, Clone, Copy, PartialEq, Eq, Structural)]
pub enum AssignStep {
    /// The agent could not be read: answer so.
    NotFound,
    /// The agent already belongs to a company: answer so and change nothing.
    AlreadyAssigned,
    /// Store this company as the agent's and answer that it was assigned.
    Assign { company_id: u128 },
}

/// The step taken for a request to assign the agent to `requested`, given
/// the lookup of the agent: `None` when it could not be read, else its
/// current company, if any.
pub open spec fn assign_step(current: Option<Option<u128>>, requested: u128) -> AssignStep {
    match current {
        None => AssignStep::NotFound,
        Some(Some(_)) => AssignStep::AlreadyAssigned,
        Some(None) => AssignStep::Assign { company_id: requested },
    }
}

/// Decides an assignment request from the lookup of the agent (`None` when
/// it could not be read, else its current company, if any). An agent that
/// already has a company is never reassigned.
pub fn assign_agent_to_company(current: Option<Option<u128>>, input: &AssignAgentInput) -> (step: AssignStep)
    ensures
        step == assign_step(current, input.company_id),
        current is None ==> step is NotFound,
        current matches Some(Some(_)) ==> step is AlreadyAssigned,
        current matches Some(None) ==> step == (AssignStep::Assign { company_id: input.company_id }),
{
    match current {
        None => AssignStep::NotFound,
        Some(Some(_)) => AssignStep::AlreadyAssigned,
        Some(None) => AssignStep::Assign { company_id: input.company_id },
    }
}

/// The answer text of each assignment step.
pub open spec fn assign_message(step: AssignStep) -> Seq<char> {
    match step {
        AssignStep::NotFound => "Agent not found"@,
        AssignStep::AlreadyAssigned => "Agent already assigned"@,
        AssignStep::Assign { .. } => "Agent assigned"@,
    }
}

impl AssignStep {
    /// The answer to the request once this step is done.
    pub fn message(&self) -> (text: String)
        ensures
            text@ == assign_message(*self),
            *self is NotFound ==> text@ == "Agent not found"@,
            *self is AlreadyAssigned ==> text@ == "Agent already assigned"@,
            *self is Assign ==> text@ == "Agent assigned"@,
    {
        match self {
            AssignStep::NotFound => String::from_str("Agent not found"),
            AssignStep::AlreadyAssigned => String::from_str("Agent already assigned"),
            AssignStep::Assign { .. } => String::from_str("Agent assigned"),
        }
    }
}

/// The agent's company once `step` is carried out, starting from `company`.
pub open spec fn company_after(company: Option<u128>, step: AssignStep) -> Option<u128> {
    match step {
        AssignStep::Assign { company_id } => Some(company_id),
        _ => company,
    }
}

/// The company of an existing agent after the assignment requests
/// `requests` (company ids) were handled one after another, starting from
/// `company`.
pub open spec fn company_after_requests(company: Option<u128>, requests: Seq<u128>) -> Option<u128>
    decreases requests.len(),
{
    if requests.len() == 0 {
        company
    } else {
        company_after_requests(company_after(company, assign_step(Some(company), requests[0])), requests.drop_first())
    }
}

/// The step taken for the `i`-th of the requests `requests` on an existing
/// agent whose company was `company` before the first.
pub open spec fn step_of_request(company: Option<u128>, requests: Seq<u128>, i: int) -> AssignStep {
    assign_step(Some(company_after_requests(company, requests.take(i))), requests[i])
}

/// Over any sequence of requests on an existing agent, its company changes
/// at most once: from none to the company of the first request. Only that
/// first request is answered as an assignment.
pub proof fn company_is_assigned_at_most_once(company: Option<u128>, requests: Seq<u128>)
    ensures
        company_after_requests(company, requests) == (if company is None && requests.len() > 0 {
            Some(requests[0])
        } else {
            company
        }),
        forall|i: int| 0 <= i < requests.len() ==> (#[trigger] step_of_request(company, requests, i) is Assign
            <==> (company is None && i == 0)),
    decreases requests.len(),
{
    if requests.len() > 0 {
        let next = company_after(company, assign_step(Some(company), requests[0]));
        company_is_assigned_at_most_once(next, requests.drop_first());
        assert(next is Some);
        assert forall|i: int| 0 <= i < requests.len() implies (#[trigger] step_of_request(company, requests, i) is Assign
            <==> (company is None && i == 0)) by {
            if i == 0 {
                assert(requests.take(0).len() == 0);
            } else {
                assert(requests.take(i).drop_first() =~= requests.drop_first().take(i - 1));
                assert(requests.take(i)[0] == requests[0]);
                assert(company_after_requests(company, requests.take(i)) == company_after_requests(
                    next,
                    requests.drop_first().take(i - 1),
                ));
                assert(step_of_request(company, requests, i) == step_of_request(next, requests.drop_first(), i - 1));
            }
        }
    }
}

/// One row of the agent listing: the agent's id and name, the text of its
/// company's UUID and the company's name, where it has a company.
pub struct AgentListing {
    pub id: String,
    pub name: String,
    pub company_id: Option<String>,
    pub company_name: Option<String>,
}

/// Builds a row of the agent listing from the stored columns; the company,
/// given by its UUID, is shown in hyphenated form.
pub fn agent_listing(id: String, name: String, company_id: Option<u128>, company_name: Option<String>) -> (row: AgentListing)
    ensures
        row.id@ == id@,
        row.name@ == name@,
        match company_id {
            Some(c) => row.company_id matches Some(text) && text@ == hyphenated_uuid(c),
            None => row.company_id is None,
        },
        row.company_name == company_name,
{
    let company_text = match company_id {
        Some(c) => Some(uuid_text(c)),
        None => None,
    };
    AgentListing { id, name, company_id: company_text, company_name }
}

/// One row of the company listing: the text of the company's UUID and its name.
pub struct CompanyListing {
    pub id: String,
    pub name: String,
}

/// Builds a row of the company listing; the company's UUID is shown in
/// hyphenated form.
pub fn company_listing(id: u128, name: String) -> (row: CompanyListing)
    ensures
        row.id@ == hyphenated_uuid(id),
        row.name@ == name@,
{
    CompanyListing { id: uuid_text(id), name }
}

/// The address of an agent's process list, given the agent's base URL.
pub open spec fn processes_address(agent_url: Seq<char>) -> Seq<char> {
    agent_url + "/processes"@
}

/// The URL from which the process list of the agent at `agent_url` is fetched.
pub fn processes_url(agent_url: &str) -> (url: String)
    ensures
        url@ == processes_address(agent_url@),
        url@ == agent_url@ + "/processes"@,
{
    let mut url = String::from_str(agent_url);
    url.append("/processes");
    url
}

} // verus!
