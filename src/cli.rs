use vstd::prelude::*;

use crate::scx_loader::ScxLoaderMode;
use crate::session::Operation;

verus! {

/// A parsed command line.
pub struct Cli {
    pub command: Commands,
}

/// The commands of the command line. On `start` and `switch`, a mode and an
/// argument list are alternatives; where both come, the arguments win.
#[allow(inconsistent_fields)]
pub enum Commands {
    Get,
    List,
    Start { sched: String, mode: Option<ScxLoaderMode>, args: Option<Vec<String>> },
    Switch { sched: Option<String>, mode: Option<ScxLoaderMode>, args: Option<Vec<String>> },
    Stop,
}

impl Commands {
    /// The operation that a command asks of the service.
    pub open spec fn spec_operation(self) -> Operation {
        match self {
            Commands::Get => Operation::Get,
            Commands::List => Operation::List,
            Commands::Start { sched, mode, args } => match args {
                Some(a) => Operation::StartWithArgs { sched, args: a },
                None => Operation::Start { sched, mode },
            },
            Commands::Switch { sched, mode, args } => match args {
                Some(a) => Operation::SwitchWithArgs { sched, args: a },
                None => Operation::Switch { sched, mode },
            },
            Commands::Stop => Operation::Stop,
        }
    }

    pub fn into_operation(self) -> (r: Operation)
        ensures
            r == self.spec_operation(),
    {
        match self {
            Commands::Get => Operation::Get,
            Commands::List => Operation::List,
            Commands::Start { sched, mode, args } => match args {
                Some(a) => Operation::StartWithArgs { sched, args: a },
                None => Operation::Start { sched, mode },
            },
            Commands::Switch { sched, mode, args } => match args {
                Some(a) => Operation::SwitchWithArgs { sched, args: a },
                None => Operation::Switch { sched, mode },
            },
            Commands::Stop => Operation::Stop,
        }
    }
}

} // verus!
