//! The decisions made around the loop rather than in it: the shape of a log
//! line, and which screen the application opens on.

use vstd::prelude::*;
use vstd::string::StringExecFns;

verus! {

/// The shape of one log line: `<timestamp> [<target>] [<level>] <message>`.
pub open spec fn spec_log_line(
    timestamp: Seq<char>,
    target: Seq<char>,
    level: Seq<char>,
    message: Seq<char>,
) -> Seq<char> {
    timestamp + " ["@ + target + "] ["@ + level + "] "@ + message
}

/// Format one log line, allocation by allocation, exactly as
/// [`spec_log_line`] lays it out.
pub fn format_log_line(timestamp: &str, target: &str, level: &str, message: &str) -> (r: String)
    ensures
        r@ == spec_log_line(timestamp@, target@, level@, message@),
{
    let mut out = String::new();
    out.append(timestamp);
    out.append(" [");
    out.append(target);
    out.append("] [");
    out.append(level);
    out.append("] ");
    out.append(message);
    proof {
        assert(out@ =~= spec_log_line(timestamp@, target@, level@, message@));
    }
    out
}

/// The screen shown at startup: the configured name where the UI layout
/// knows it, and the library screen otherwise. The second part of the result
/// tells whether the configured name was invalid, so that an error is
/// logged.
pub fn resolve_initial_screen(configured: Option<String>, layout_has_screen: bool) -> (r: (
    String,
    bool,
))
    ensures
        r.1 == !layout_has_screen,
        layout_has_screen ==> r.0@ == (match configured {
            Some(name) => name@,
            None => "library"@,
        }),
        !layout_has_screen ==> r.0@ == "library"@,
{
    let fallback_needed = !layout_has_screen;
    match configured {
        Some(name) => {
            if layout_has_screen {
                (name, false)
            } else {
                (String::from_str("library"), true)
            }
        },
        None => (String::from_str("library"), fallback_needed),
    }
}

} // verus!
