//! The command line: `send <FILE>` and `receive`.

use crate::text::same_text;
use vstd::prelude::*;

verus! {

/// The status with which the process exits when it has to give up before a
/// session ran or because it was interrupted.
pub const ABORT_STATUS: i32 = 1;

/// The parsed command line.
pub struct Cli {
    pub command: Commands,
}

/// What the operator asked for.
#[derive(Debug)]
pub enum Commands {
    /// Send the file at this path.
    Send { filepath: String },
    /// Wait for a file.
    Receive,
}

/// What the process does with a command line.
#[derive(Debug)]
pub enum Launch {
    /// Run a sending session for the file at this path.
    Sender(String),
    /// Run a receiving session.
    Receiver,
    /// Say that this system cannot send, and exit with [`ABORT_STATUS`].
    Unsupported,
}

/// The name under which the system that cannot send reports itself.
pub open spec fn macos() -> Seq<char> {
    seq!['m', 'a', 'c', 'o', 's']
}

impl Cli {
    /// Decides what to run on a system that calls itself `os`. Receiving
    /// works everywhere; sending does not work on macOS.
    pub fn launch(self, os: &str) -> (launch: Launch)
        ensures
            match launch {
                Launch::Sender(path) => self.command == (Commands::Send { filepath: path }) && os@
                    != macos(),
                Launch::Receiver => self.command is Receive,
                Launch::Unsupported => self.command is Send && os@ == macos(),
            },
    {
        match self.command {
            Commands::Send { filepath } => {
                proof {
                    reveal_strlit("macos");
                    assert("macos"@ =~= macos());
                }
                if same_text(os, "macos") {
                    Launch::Unsupported
                } else {
                    Launch::Sender(filepath)
                }
            },
            Commands::Receive => Launch::Receiver,
        }
    }
}

} // verus!
