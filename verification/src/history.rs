//! The metrics history query: which time window a requested range selects,
//! and the SQL text that reads an agent's samples over that window.

use vstd::prelude::*;

verus! {

/// Query of the history route: the requested range (`1m`, `1h`, `10h`, `1d`
/// or `1month`).
pub struct HistoryParams {
    pub range: String,
}

/// The SQL interval for a requested range; an unknown range selects one
/// minute.
pub open spec fn interval_for(range: Seq<char>) -> Seq<char> {
    if range == "1m"@ {
        "1 minute"@
    } else if range == "1h"@ {
        "1 hour"@
    } else if range == "10h"@ {
        "10 hours"@
    } else if range == "1d"@ {
        "1 day"@
    } else if range == "1month"@ {
        "1 month"@
    } else {
        "1 minute"@
    }
}

/// The range codes that the history route knows.
pub open spec fn known_range(range: Seq<char>) -> bool {
    ||| range == "1m"@
    ||| range == "1h"@
    ||| range == "10h"@
    ||| range == "1d"@
    ||| range == "1month"@
}

/// The intervals that a history query can hold.
pub open spec fn known_interval(interval: Seq<char>) -> bool {
    ||| interval == "1 minute"@
    ||| interval == "1 hour"@
    ||| interval == "10 hours"@
    ||| interval == "1 day"@
    ||| interval == "1 month"@
}

/// The SQL text before the interval.
pub open spec fn query_head() -> Seq<char> {
    "SELECT cpu_usage, memory_used, memory_total,\n                    network_receive, network_transmit, created_at\n             FROM agent_metrics\n             WHERE agent_id = $1\n             AND created_at >= NOW() - INTERVAL '"@
}

/// The SQL text after the interval.
pub open spec fn query_tail() -> Seq<char> {
    "'\n             ORDER BY created_at ASC"@
}

/// The SQL text of a history query over `interval`; the agent id is bound
/// as its first parameter.
pub open spec fn history_query(interval: Seq<char>) -> Seq<char> {
    query_head() + interval + query_tail()
}

/// Whether two strings hold the same characters.
fn same_text(a: &String, b: &str) -> (same: bool)
    ensures
        same == (a@ == b@),
{
    let b = String::from_str(b);
    *a == b
}

/// The SQL interval selected by `range`.
pub fn interval(range: &String) -> (interval: String)
    ensures
        interval@ == interval_for(range@),
{
    if same_text(range, "1m") {
        String::from_str("1 minute")
    } else if same_text(range, "1h") {
        String::from_str("1 hour")
    } else if same_text(range, "10h") {
        String::from_str("10 hours")
    } else if same_text(range, "1d") {
        String::from_str("1 day")
    } else if same_text(range, "1month") {
        String::from_str("1 month")
    } else {
        String::from_str("1 minute")
    }
}

/// The SQL text that reads an agent's samples over the requested range,
/// oldest first.
pub fn metrics_history(params: &HistoryParams) -> (query: String)
    ensures
        query@ == history_query(interval_for(params.range@)),
        query@ == query_head() + interval_for(params.range@) + query_tail(),
        query@ == "SELECT cpu_usage, memory_used, memory_total,\n                    network_receive, network_transmit, created_at\n             FROM agent_metrics\n             WHERE agent_id = $1\n             AND created_at >= NOW() - INTERVAL '"@
            + interval_for(params.range@) + "'\n             ORDER BY created_at ASC"@,
{
    let window = interval(&params.range);
    let mut query = String::from_str(
        "SELECT cpu_usage, memory_used, memory_total,\n                    network_receive, network_transmit, created_at\n             FROM agent_metrics\n             WHERE agent_id = $1\n             AND created_at >= NOW() - INTERVAL '",
    );
    query.append(window.as_str());
    query.append("'\n             ORDER BY created_at ASC");
    query
}

/// The query holds its interval verbatim between the fixed head and tail:
/// the interval text is exactly what follows the head and precedes the tail.
pub proof fn interval_is_placed_verbatim(interval: Seq<char>)
    ensures
        history_query(interval) == query_head() + interval + query_tail(),
        history_query(interval).len() == query_head().len() + interval.len() + query_tail().len(),
        history_query(interval).subrange(
            query_head().len() as int,
            (query_head().len() + interval.len()) as int,
        ) == interval,
{
    let q = history_query(interval);
    assert(q.subrange(query_head().len() as int, (query_head().len() + interval.len()) as int) =~= interval);
}

/// The five range codes are a count followed by a unit (`m`, `h`, `d`,
/// `month`), and each selects that count of that unit, spelled out, in the
/// plural when the count is not one; distinct codes select distinct
/// windows, and any other request selects one minute.
pub proof fn ranges_select_their_own_window(range: Seq<char>, other: Seq<char>)
    ensures
        interval_for("1"@ + "m"@) == "1"@ + " "@ + "minute"@,
        interval_for("1"@ + "h"@) == "1"@ + " "@ + "hour"@,
        interval_for("10"@ + "h"@) == "10"@ + " "@ + "hour"@ + "s"@,
        interval_for("1"@ + "d"@) == "1"@ + " "@ + "day"@,
        interval_for("1"@ + "month"@) == "1"@ + " "@ + "month"@,
        known_range(range) && known_range(other) && range != other ==> interval_for(range) != interval_for(other),
        !known_range(range) ==> interval_for(range) == interval_for("1m"@),
{
    reveal_strlit("1m");
    reveal_strlit("1h");
    reveal_strlit("10h");
    reveal_strlit("1d");
    reveal_strlit("1month");
    reveal_strlit("1 minute");
    reveal_strlit("1 hour");
    reveal_strlit("10 hours");
    reveal_strlit("1 day");
    reveal_strlit("1 month");
    reveal_strlit("1");
    reveal_strlit("10");
    reveal_strlit("m");
    reveal_strlit("h");
    reveal_strlit("d");
    reveal_strlit("month");
    reveal_strlit(" ");
    reveal_strlit("minute");
    reveal_strlit("hour");
    reveal_strlit("s");
    reveal_strlit("day");
    assert("1"@ + "m"@ =~= "1m"@);
    assert("1"@ + "h"@ =~= "1h"@);
    assert("10"@ + "h"@ =~= "10h"@);
    assert("1"@ + "d"@ =~= "1d"@);
    assert("1"@ + "month"@ =~= "1month"@);
    assert("1"@ + " "@ + "minute"@ =~= "1 minute"@);
    assert("1"@ + " "@ + "hour"@ =~= "1 hour"@);
    assert("10"@ + " "@ + "hour"@ + "s"@ =~= "10 hours"@);
    assert("1"@ + " "@ + "day"@ =~= "1 day"@);
    assert("1"@ + " "@ + "month"@ =~= "1 month"@);
    assert("1m"@[1] == 'm' && "1h"@[1] == 'h' && "1d"@[1] == 'd' && "10h"@.len() == 3 && "1month"@.len() == 6);
    assert("10h"@[1] == '0' && "1month"@[1] == 'm' && "1month"@[2] == 'o');
    assert("1m"@ != "1h"@ && "1m"@ != "10h"@ && "1m"@ != "1d"@ && "1m"@ != "1month"@);
    assert("1h"@ != "10h"@ && "1h"@ != "1d"@ && "1h"@ != "1month"@);
    assert("10h"@ != "1d"@ && "10h"@ != "1month"@ && "1d"@ != "1month"@);
    assert("1 minute"@.len() == 8 && "1 hour"@.len() == 6 && "10 hours"@.len() == 8 && "1 day"@.len() == 5);
    assert("1 month"@.len() == 7 && "1 minute"@[1] == ' ' && "10 hours"@[1] == '0');
    assert("1 minute"@ != "1 hour"@ && "1 minute"@ != "10 hours"@ && "1 minute"@ != "1 day"@ && "1 minute"@ != "1 month"@);
    assert("1 hour"@ != "10 hours"@ && "1 hour"@ != "1 day"@ && "1 hour"@ != "1 month"@);
    assert("10 hours"@ != "1 day"@ && "10 hours"@ != "1 month"@ && "1 day"@ != "1 month"@);
}

/// Whatever range is requested, the query's interval is one of five fixed
/// texts: the request never reaches the SQL text.
pub proof fn requested_range_never_reaches_query(range: Seq<char>)
    ensures
        known_interval(interval_for(range)),
{
}

} // verus!
