use vstd::prelude::*;

verus! {

/// One stored log entry.
#[derive(Clone, Debug)]
pub struct LogMessage {
    pub id: i64,
    pub message: String,
    pub log_type: i8,
    pub args: String,
    pub created: String,
}

} // verus!

verus! {

/// `n` comma-separated `?` placeholders.
pub open spec fn placeholders(n: nat) -> Seq<char>
    decreases n,
{
    if n == 0 {
        seq![]
    } else if n == 1 {
        "?"@
    } else {
        placeholders((n - 1) as nat) + ", ?"@
    }
}

/// The query over the log table for a date range, optionally restricted to
/// `type_count` log types and to a search pattern, newest first. Its
/// parameters are, in order: the start and end dates, each log type, the
/// pattern twice (message, then arguments) when searching, and the limit.
pub open spec fn log_history_query_of(type_count: nat, with_search: bool) -> Seq<char> {
    "SELECT * FROM `logs` WHERE `created` BETWEEN ? AND ?"@ + (if type_count > 0 {
        " AND `type` IN ("@ + placeholders(type_count) + ")"@
    } else {
        seq![]
    }) + (if with_search {
        " AND (`message` LIKE ? OR `arguments` LIKE ?)"@
    } else {
        seq![]
    }) + " ORDER BY `created` DESC LIMIT ?"@
}

/// Builds the log-history query for `type_count` log types, with a search
/// clause when `with_search`.
pub fn log_history_query(type_count: usize, with_search: bool) -> (r: String)
    ensures
        r@ == log_history_query_of(type_count as nat, with_search),
{
    let mut q = String::from_str("SELECT * FROM `logs` WHERE `created` BETWEEN ? AND ?");
    let ghost head = q@;
    if type_count > 0 {
        q.append(" AND `type` IN (");
        let ghost open = q@;
        q.append("?");
        let mut i: usize = 1;
        while i < type_count
            invariant
                1 <= i <= type_count,
                q@ == open + placeholders(i as nat),
            decreases type_count - i,
        {
            q.append(", ?");
            i += 1;
        }
        q.append(")");
        assert(q@ =~= head + (" AND `type` IN ("@ + placeholders(type_count as nat) + ")"@));
    } else {
        assert(q@ =~= head + Seq::<char>::empty());
    }
    let ghost mid = q@;
    if with_search {
        q.append(" AND (`message` LIKE ? OR `arguments` LIKE ?)");
    } else {
        assert(q@ =~= mid + Seq::<char>::empty());
    }
    q.append(" ORDER BY `created` DESC LIMIT ?");
    q
}

/// The LIKE pattern that matches any text containing `search`.
pub fn contains_pattern(search: &str) -> (r: String)
    ensures
        r@ == seq!['%'] + search@ + seq!['%'],
{
    proof {
        reveal_strlit("%");
    }
    let mut p = String::from_str("%");
    p.append(search);
    p.append("%");
    p
}

} // verus!
