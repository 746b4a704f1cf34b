//! Kong node logging: the log-line format.  Writing to the console or
//! the LOG file happens outside this crate.

use vstd::prelude::*;
use vstd::string::StringExecFns;

verus! {

/// Kinds of logging.
pub struct Log;

/// A log line: `---+ [{now}]: {message}`.
pub open spec fn spec_log_line(now: Seq<char>, message: Seq<char>) -> Seq<char> {
    "---+ ["@ + now + "]: "@ + message
}

impl Log {
    /// Formats the log line for a message at an instant.
    pub fn format_line(now: &str, message: &str) -> (r: String)
        ensures
            r@ == spec_log_line(now@, message@),
    {
        let mut line = String::new();
        line.append("---+ [");
        line.append(now);
        line.append("]: ");
        line.append(message);
        proof {
            assert(line@ =~= spec_log_line(now@, message@));
        }
        line
    }
}

} // verus!
