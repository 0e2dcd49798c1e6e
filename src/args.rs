use vstd::prelude::*;

verus! {

/// Input delay, in ticks, when none is given.
pub const DEFAULT_INPUT_DELAY: usize = 2;

/// The command-line configuration, read once at start-up.
#[derive(Clone, Copy, Debug, PartialEq, Eq)]
pub struct Args {
    /// Run a local synctest session instead of a peer-to-peer one.
    pub synctest: bool,
    /// Ticks of delay applied to local input.
    pub input_delay: usize,
}

/// The kind of session a run uses, fixed at start-up.
#[derive(Clone, Copy, Debug, PartialEq, Eq)]
pub enum RunMode {
    /// Two peers over the network.
    PeerToPeer,
    /// Both players local; recent ticks are replayed every tick to check determinism.
    SyncTest,
}

impl Args {
    pub open spec fn run_mode_spec(&self) -> RunMode {
        if self.synctest {
            RunMode::SyncTest
        } else {
            RunMode::PeerToPeer
        }
    }

    /// The session kind that these arguments select.
    pub fn run_mode(&self) -> (r: RunMode)
        ensures
            r == self.run_mode_spec(),
    {
        if self.synctest {
            RunMode::SyncTest
        } else {
            RunMode::PeerToPeer
        }
    }
}

impl Default for Args {
    fn default() -> (r: Args)
        ensures
            r == (Args { synctest: false, input_delay: DEFAULT_INPUT_DELAY }),
    {
        Args { synctest: false, input_delay: DEFAULT_INPUT_DELAY }
    }
}

} // verus!
