//! Notification of parsed items.  The library renders the line to
//! emit; actually writing it to a log is a side effect left to the
//! caller.

use vstd::prelude::*;
use vstd::string::StringExecFns;

verus! {

/// Renders one notification line per item.
pub struct LoggingNotifier;

/// The line [`LoggingNotifier::notify`] renders: the headline, a
/// colon and a space, then the body.
pub open spec fn notification_line(headline: Seq<char>, body: Seq<char>) -> Seq<char> {
    headline + ": "@ + body
}

impl LoggingNotifier {
    pub fn new() -> (r: Self)
        ensures
            r == (LoggingNotifier {  }),
    {
        Self {  }
    }

    /// The log line for one `(headline, body)` pair.
    pub fn notify(&self, headline: &str, body: &str) -> (r: String)
        ensures
            r@ == notification_line(headline@, body@),
    {
        let mut line = headline.to_owned();
        line.append(": ");
        line.append(body);
        line
    }
}

} // verus!
