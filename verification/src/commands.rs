//! Per-agent command queues: commands wait in their agent's queue, in the
//! order they were issued, until the agent collects them.

use vstd::prelude::*;
use vstd::hash_map::StringHashMap;

verus! {

/// A command for an agent to carry out.
#[derive(Debug, Clone, Copy, PartialEq, Eq, Structural)]
pub enum Command {
    /// Kill the process with this id.
    Kill { pid: u32 },
}

/// Body of a kill request: which process of which agent to kill.
pub struct KillParams {
    pub agent_id: String,
    pub pid: u32,
}

/// The commands waiting for `agent_id` in `queues` (none if it has no queue).
pub open spec fn pending(queues: Map<Seq<char>, Seq<Command>>, agent_id: Seq<char>) -> Seq<Command> {
    if queues.contains_key(agent_id) { queues[agent_id] } else { Seq::empty() }
}

/// The queues after `command` was issued to `agent_id`: appended at the end
/// of that agent's queue, which is created if needed.
pub open spec fn after_issue(
    queues: Map<Seq<char>, Seq<Command>>,
    agent_id: Seq<char>,
    command: Command,
) -> Map<Seq<char>, Seq<Command>> {
    queues.insert(agent_id, pending(queues, agent_id).push(command))
}

/// The queues after `agent_id` collected its commands: its queue is gone.
pub open spec fn after_collect(queues: Map<Seq<char>, Seq<Command>>, agent_id: Seq<char>) -> Map<Seq<char>, Seq<Command>> {
    queues.remove(agent_id)
}

/// The command queues of all agents, by agent id.
pub struct CommandQueues {
    queues: StringHashMap<Vec<Command>>,
}

impl View for CommandQueues {
    type V = Map<Seq<char>, Seq<Command>>;

    closed spec fn view(&self) -> Map<Seq<char>, Seq<Command>> {
        self.queues@.map_values(|q: Vec<Command>| q@)
    }
}

fn copy_commands(commands: &Vec<Command>) -> (copy: Vec<Command>)
    ensures
        copy@ == commands@,
{
    let mut copy: Vec<Command> = Vec::new();
    let mut i: usize = 0;
    while i < commands.len()
        invariant
            i <= commands.len(),
            copy@ == commands@.subrange(0, i as int),
        decreases commands.len() - i,
    {
        copy.push(commands[i]);
        i = i + 1;
    }
    assert(commands@.subrange(0, commands@.len() as int) =~= commands@);
    copy
}

impl CommandQueues {
    /// No commands for anyone.
    pub fn new() -> (queues: Self)
        ensures
            queues@ == Map::<Seq<char>, Seq<Command>>::empty(),
    {
        let queues = CommandQueues { queues: StringHashMap::new() };
        assert(queues@ =~= Map::<Seq<char>, Seq<Command>>::empty());
        queues
    }

    /// Queues a command for `params.agent_id` to kill process `params.pid`.
    /// The answer to the request is always `true`.
    pub fn kill_process(&mut self, params: KillParams) -> (accepted: bool)
        ensures
            final(self)@ == after_issue(old(self)@, params.agent_id@, Command::Kill { pid: params.pid }),
            accepted,
            final(self)@.contains_key(params.agent_id@),
            final(self)@[params.agent_id@] == (if old(self)@.contains_key(params.agent_id@) {
                old(self)@[params.agent_id@]
            } else {
                Seq::<Command>::empty()
            }).push(Command::Kill { pid: params.pid }),
            forall|other: Seq<char>| other != params.agent_id@ ==> (#[trigger] final(self)@.contains_key(other)
                == old(self)@.contains_key(other) && final(self)@[other] == old(self)@[other]),
    {
        let mut queue = match self.queues.get(params.agent_id.as_str()) {
            Some(q) => copy_commands(q),
            None => Vec::new(),
        };
        queue.push(Command::Kill { pid: params.pid });
        let ghost key = params.agent_id@;
        let ghost new_queue = queue@;
        self.queues.insert(params.agent_id, queue);
        assert(self@ =~= old(self)@.insert(key, new_queue));
        true
    }

    /// Hands over the commands waiting for `agent_id`, oldest first, and
    /// empties its queue.
    pub fn get_commands(&mut self, agent_id: &str) -> (commands: Vec<Command>)
        ensures
            commands@ == pending(old(self)@, agent_id@),
            final(self)@ == after_collect(old(self)@, agent_id@),
            old(self)@.contains_key(agent_id@) ==> commands@ == old(self)@[agent_id@],
            !old(self)@.contains_key(agent_id@) ==> commands@.len() == 0,
            !final(self)@.contains_key(agent_id@),
            forall|other: Seq<char>| other != agent_id@ ==> (#[trigger] final(self)@.contains_key(other)
                == old(self)@.contains_key(other) && final(self)@[other] == old(self)@[other]),
    {
        let commands = match self.queues.get(agent_id) {
            Some(q) => copy_commands(q),
            None => Vec::new(),
        };
        self.queues.remove(agent_id);
        assert(self@ =~= old(self)@.remove(agent_id@));
        commands
    }
}

/// The queues after the commands `issued` were issued one after another,
/// each to the agent named beside it.
pub open spec fn after_issuing(
    queues: Map<Seq<char>, Seq<Command>>,
    issued: Seq<(Seq<char>, Command)>,
) -> Map<Seq<char>, Seq<Command>>
    decreases issued.len(),
{
    if issued.len() == 0 {
        queues
    } else {
        after_issue(after_issuing(queues, issued.drop_last()), issued.last().0, issued.last().1)
    }
}

/// The commands among `issued` that went to `agent_id`, in issue order.
pub open spec fn issued_to(issued: Seq<(Seq<char>, Command)>, agent_id: Seq<char>) -> Seq<Command>
    decreases issued.len(),
{
    if issued.len() == 0 {
        Seq::empty()
    } else if issued.last().0 == agent_id {
        issued_to(issued.drop_last(), agent_id).push(issued.last().1)
    } else {
        issued_to(issued.drop_last(), agent_id)
    }
}

/// Whatever commands other agents receive in between, an agent collects
/// the commands issued to it in the order they were issued, after those
/// already waiting: none is lost, repeated or reordered.
pub proof fn commands_are_collected_in_order(
    queues: Map<Seq<char>, Seq<Command>>,
    issued: Seq<(Seq<char>, Command)>,
    agent_id: Seq<char>,
)
    ensures
        pending(after_issuing(queues, issued), agent_id) == pending(queues, agent_id) + issued_to(issued, agent_id),
    decreases issued.len(),
{
    if issued.len() == 0 {
        assert(pending(queues, agent_id) + issued_to(issued, agent_id) =~= pending(queues, agent_id));
    } else {
        commands_are_collected_in_order(queues, issued.drop_last(), agent_id);
        if issued.last().0 == agent_id {
            assert(pending(queues, agent_id) + issued_to(issued, agent_id) =~= (pending(queues, agent_id)
                + issued_to(issued.drop_last(), agent_id)).push(issued.last().1));
        }
    }
}

/// Once an agent has collected its commands, nothing waits for it until a
/// new command is issued.
pub proof fn collecting_empties_the_queue(queues: Map<Seq<char>, Seq<Command>>, agent_id: Seq<char>)
    ensures
        pending(after_collect(queues, agent_id), agent_id) == Seq::<Command>::empty(),
{
}

/// Issuing a command to one agent, or collecting one agent's commands,
/// leaves every other agent's queue as it was.
pub proof fn queues_are_per_agent(
    queues: Map<Seq<char>, Seq<Command>>,
    agent_id: Seq<char>,
    other: Seq<char>,
    command: Command,
)
    requires
        other != agent_id,
    ensures
        pending(after_issue(queues, agent_id, command), other) == pending(queues, other),
        pending(after_collect(queues, agent_id), other) == pending(queues, other),
{
}

} // verus!
