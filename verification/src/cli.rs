//! The caller-supplied resource ceilings for one launch.

use vstd::prelude::*;

verus! {

/// Optional resource ceilings for the launched process.  An unset field
/// means "inherit / unlimited", never zero.  The value is built by the
/// caller and never changed afterwards.
#[derive(Debug, Clone)]
pub struct Limits {
    /// Memory ceiling as a human-readable size string; a trailing `G`/`g`
    /// or `M`/`m` scales the numeric part, anything else is written as a
    /// literal byte count.
    pub memory: Option<String>,
    /// CPU ceiling as a whole number of cores.
    pub cpu: Option<u64>,
    /// Ceiling on the number of processes.
    pub pids: Option<u64>,
}

/// The mathematical reading of `Limits`: the memory string as a character
/// sequence, the numeric fields as they are.
pub ghost struct LimitsView {
    pub memory: Option<Seq<char>>,
    pub cpu: Option<u64>,
    pub pids: Option<u64>,
}

impl View for Limits {
    type V = LimitsView;

    open spec fn view(&self) -> LimitsView {
        LimitsView {
            memory: match self.memory {
                Some(m) => Some(m@),
                None => None,
            },
            cpu: self.cpu,
            pids: self.pids,
        }
    }
}

impl Limits {
    /// A `Limits` with every field unset.
    pub fn unlimited() -> (r: Limits)
        ensures
            r@.memory is None,
            r@.cpu is None,
            r@.pids is None,
    {
        Limits { memory: None, cpu: None, pids: None }
    }
}

} // verus!
