use vstd::prelude::*;
use vstd::string::StringExecFns;

verus! {

/// The shape of one audit line: `[timestamp] LEVEL: message`, newline
/// terminated. The log is append-only; a line is a single bounded write.
pub open spec fn log_line_format(ts: Seq<char>, level: Seq<char>, msg: Seq<char>) -> Seq<char> {
    "["@ + ts + "] "@ + level + ": "@ + msg + "\n"@
}

/// Render one audit line from its three parts.
pub fn format_log_line(ts: &str, level: &str, msg: &str) -> (r: String)
    ensures
        r@ == log_line_format(ts@, level@, msg@),
{
    let mut line = String::from_str("[");
    line.append(ts);
    line.append("] ");
    line.append(level);
    line.append(": ");
    line.append(msg);
    line.append("\n");
    proof {
        assert(line@ =~= log_line_format(ts@, level@, msg@));
    }
    line
}

/// Relies on chrono's `Utc::now` and `DateTime::format` for the current UTC
/// time rendered as `YYYY-MM-DD HH:MM:SS`. The clock decides the value, so
/// nothing is promised of it.
#[verifier::external_body]
fn current_timestamp() -> (r: String) {
    chrono::Utc::now().format("%Y-%m-%d %H:%M:%S").to_string()
}

/// One audit line for the running clock: the level and message stand in it
/// verbatim, around a timestamp only the clock knows.
pub fn log_line(level: &str, msg: &str) -> (r: String)
    ensures
        exists|ts: Seq<char>| r@ == #[trigger] log_line_format(ts, level@, msg@),
{
    let ts = current_timestamp();
    let line = format_log_line(ts.as_str(), level, msg);
    proof {
        assert(line@ == log_line_format(ts@, level@, msg@));
    }
    line
}

} // verus!
