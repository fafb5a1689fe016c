//! The target architectures.

use vstd::prelude::*;

verus! {

/// Target Ethos-U architecture.
#[derive(Debug, Clone, Copy, PartialEq, Eq, Hash, Structural)]
pub enum Architecture {
    EthosU55,
    EthosU65,
    EthosU85,
}

impl Architecture {
    /// The architecture name `regor_create` expects.
    pub open spec fn name(self) -> Seq<char> {
        match self {
            Architecture::EthosU55 => "EthosU55"@,
            Architecture::EthosU65 => "EthosU65"@,
            Architecture::EthosU85 => "EthosU85"@,
        }
    }

    /// The architecture name `regor_create` expects, without the NUL that
    /// terminates it on the C side.
    pub fn as_str(self) -> (s: &'static str)
        ensures
            s@ == self.name(),
    {
        match self {
            Architecture::EthosU55 => "EthosU55",
            Architecture::EthosU65 => "EthosU65",
            Architecture::EthosU85 => "EthosU85",
        }
    }
}

} // verus!
