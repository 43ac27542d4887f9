//! Logging options: where robocopy writes its log, and how.

use vstd::prelude::*;

verus! {

/// Log file settings: the log path, whether to write unicode output,
/// and whether to append to an existing log.
#[derive(Debug, Clone)]
pub struct LoggingSettings {
    /// Path of the log file.
    pub log: String,
    /// Write unicode output.
    pub unicode: bool,
    /// Append to the log instead of overwriting it.
    pub append: bool,
}

impl LoggingSettings {
    /// The one token these settings render as: `/log:`, `/log+:`,
    /// `/unilog:` or `/unilog+:`, followed by the log path.
    pub open spec fn spec_token(self) -> Seq<char> {
        "/"@ + (if self.unicode { "uni"@ } else { Seq::<char>::empty() }) + "log"@ + (if self.append {
            "+"@
        } else {
            Seq::<char>::empty()
        }) + ":"@ + self.log@
    }

    /// Render these settings as their one token.
    pub fn render(&self) -> (r: String)
        ensures
            r@ == self.spec_token(),
    {
        let mut s = String::from_str("/");
        if self.unicode {
            s.append("uni");
        }
        s.append("log");
        if self.append {
            s.append("+");
        }
        s.append(":");
        s.append(self.log.as_str());
        proof {
            assert(s@ =~= self.spec_token());
        }
        s
    }
}

} // verus!
