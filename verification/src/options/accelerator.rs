//! The accelerator variants and their names.

use vstd::prelude::*;
use crate::config::Architecture;
use crate::text::{decimal, str_eq};

verus! {

/// Accelerator variant with MAC count.
#[derive(Debug, Clone, Copy, PartialEq, Eq, Hash, Structural)]
#[allow(non_camel_case_types)]
pub enum AcceleratorConfig {
    EthosU55_32,
    EthosU55_64,
    EthosU55_128,
    EthosU55_256,
    EthosU65_256,
    EthosU65_512,
    EthosU85_128,
    EthosU85_256,
    EthosU85_512,
    EthosU85_1024,
    EthosU85_2048,
}

/// [`AcceleratorConfig::from_str`](std::str::FromStr) was given a name it
/// does not know.
#[derive(Debug, Clone, PartialEq, Eq)]
pub struct UnknownAccelerator(pub String);

impl UnknownAccelerator {
    /// The message this error reads as.
    pub fn message(&self) -> (s: String)
        ensures
            s@ == "unknown accelerator configuration '"@ + self.0@ + "'"@,
    {
        let mut s = String::from_str("unknown accelerator configuration '");
        s.append(self.0.as_str());
        s.append("'");
        s
    }
}

/// The Vela spelling of an architecture's family, which every accelerator
/// name of that architecture starts with.
pub open spec fn family_name(arch: Architecture) -> Seq<char> {
    match arch {
        Architecture::EthosU55 => "ethos-u55"@,
        Architecture::EthosU65 => "ethos-u65"@,
        Architecture::EthosU85 => "ethos-u85"@,
    }
}

/// The accelerator whose Vela name is `s`, if there is one.
pub open spec fn accelerator_named(s: Seq<char>) -> Option<AcceleratorConfig> {
    if exists|a: AcceleratorConfig| a.name() == s {
        Some(choose|a: AcceleratorConfig| a.name() == s)
    } else {
        None
    }
}

impl AcceleratorConfig {
    /// The Vela `--accelerator-config` spelling.
    pub open spec fn name(self) -> Seq<char> {
        match self {
            AcceleratorConfig::EthosU55_32 => "ethos-u55-32"@,
            AcceleratorConfig::EthosU55_64 => "ethos-u55-64"@,
            AcceleratorConfig::EthosU55_128 => "ethos-u55-128"@,
            AcceleratorConfig::EthosU55_256 => "ethos-u55-256"@,
            AcceleratorConfig::EthosU65_256 => "ethos-u65-256"@,
            AcceleratorConfig::EthosU65_512 => "ethos-u65-512"@,
            AcceleratorConfig::EthosU85_128 => "ethos-u85-128"@,
            AcceleratorConfig::EthosU85_256 => "ethos-u85-256"@,
            AcceleratorConfig::EthosU85_512 => "ethos-u85-512"@,
            AcceleratorConfig::EthosU85_1024 => "ethos-u85-1024"@,
            AcceleratorConfig::EthosU85_2048 => "ethos-u85-2048"@,
        }
    }

    /// The architecture an accelerator belongs to.
    pub open spec fn arch(self) -> Architecture {
        match self {
            AcceleratorConfig::EthosU55_32
            | AcceleratorConfig::EthosU55_64
            | AcceleratorConfig::EthosU55_128
            | AcceleratorConfig::EthosU55_256 => Architecture::EthosU55,
            AcceleratorConfig::EthosU65_256 | AcceleratorConfig::EthosU65_512 => Architecture::EthosU65,
            _ => Architecture::EthosU85,
        }
    }

    /// MAC units per cycle.
    pub open spec fn mac_count(self) -> u32 {
        match self {
            AcceleratorConfig::EthosU55_32 => 32,
            AcceleratorConfig::EthosU55_64 => 64,
            AcceleratorConfig::EthosU55_128 | AcceleratorConfig::EthosU85_128 => 128,
            AcceleratorConfig::EthosU55_256
            | AcceleratorConfig::EthosU65_256
            | AcceleratorConfig::EthosU85_256 => 256,
            AcceleratorConfig::EthosU65_512 | AcceleratorConfig::EthosU85_512 => 512,
            AcceleratorConfig::EthosU85_1024 => 1024,
            AcceleratorConfig::EthosU85_2048 => 2048,
        }
    }

    /// NPU cores: the largest U65 and U85 variants are two cores driven
    /// together, every other variant is a single core.
    pub open spec fn core_count(self) -> u32 {
        match self {
            AcceleratorConfig::EthosU65_512 | AcceleratorConfig::EthosU85_2048 => 2,
            _ => 1,
        }
    }

    /// Every accelerator this crate knows about, in declaration order.
    pub open spec fn every() -> Seq<AcceleratorConfig> {
        seq![
            AcceleratorConfig::EthosU55_32,
            AcceleratorConfig::EthosU55_64,
            AcceleratorConfig::EthosU55_128,
            AcceleratorConfig::EthosU55_256,
            AcceleratorConfig::EthosU65_256,
            AcceleratorConfig::EthosU65_512,
            AcceleratorConfig::EthosU85_128,
            AcceleratorConfig::EthosU85_256,
            AcceleratorConfig::EthosU85_512,
            AcceleratorConfig::EthosU85_1024,
            AcceleratorConfig::EthosU85_2048,
        ]
    }

    /// Every accelerator this crate knows about.
    pub const ALL: [AcceleratorConfig; 11] = [
        AcceleratorConfig::EthosU55_32,
        AcceleratorConfig::EthosU55_64,
        AcceleratorConfig::EthosU55_128,
        AcceleratorConfig::EthosU55_256,
        AcceleratorConfig::EthosU65_256,
        AcceleratorConfig::EthosU65_512,
        AcceleratorConfig::EthosU85_128,
        AcceleratorConfig::EthosU85_256,
        AcceleratorConfig::EthosU85_512,
        AcceleratorConfig::EthosU85_1024,
        AcceleratorConfig::EthosU85_2048,
    ];

    /// The Vela `--accelerator-config` spelling.
    pub fn as_str(self) -> (s: &'static str)
        ensures
            s@ == self.name(),
    {
        match self {
            AcceleratorConfig::EthosU55_32 => "ethos-u55-32",
            AcceleratorConfig::EthosU55_64 => "ethos-u55-64",
            AcceleratorConfig::EthosU55_128 => "ethos-u55-128",
            AcceleratorConfig::EthosU55_256 => "ethos-u55-256",
            AcceleratorConfig::EthosU65_256 => "ethos-u65-256",
            AcceleratorConfig::EthosU65_512 => "ethos-u65-512",
            AcceleratorConfig::EthosU85_128 => "ethos-u85-128",
            AcceleratorConfig::EthosU85_256 => "ethos-u85-256",
            AcceleratorConfig::EthosU85_512 => "ethos-u85-512",
            AcceleratorConfig::EthosU85_1024 => "ethos-u85-1024",
            AcceleratorConfig::EthosU85_2048 => "ethos-u85-2048",
        }
    }

    /// The [`Architecture`] this accelerator belongs to.
    pub fn architecture(self) -> (a: Architecture)
        ensures
            a == self.arch(),
    {
        match self {
            AcceleratorConfig::EthosU55_32
            | AcceleratorConfig::EthosU55_64
            | AcceleratorConfig::EthosU55_128
            | AcceleratorConfig::EthosU55_256 => Architecture::EthosU55,
            AcceleratorConfig::EthosU65_256 | AcceleratorConfig::EthosU65_512 => Architecture::EthosU65,
            AcceleratorConfig::EthosU85_128
            | AcceleratorConfig::EthosU85_256
            | AcceleratorConfig::EthosU85_512
            | AcceleratorConfig::EthosU85_1024
            | AcceleratorConfig::EthosU85_2048 => Architecture::EthosU85,
        }
    }

    /// MAC units per cycle.
    ///
    /// This is what actually selects the accelerator inside regor: it matches
    /// the architecture's configuration table on the MAC count alone.
    pub fn macs(self) -> (n: u32)
        ensures
            n == self.mac_count(),
    {
        match self {
            AcceleratorConfig::EthosU55_32 => 32,
            AcceleratorConfig::EthosU55_64 => 64,
            AcceleratorConfig::EthosU55_128 | AcceleratorConfig::EthosU85_128 => 128,
            AcceleratorConfig::EthosU55_256
            | AcceleratorConfig::EthosU65_256
            | AcceleratorConfig::EthosU85_256 => 256,
            AcceleratorConfig::EthosU65_512 | AcceleratorConfig::EthosU85_512 => 512,
            AcceleratorConfig::EthosU85_1024 => 1024,
            AcceleratorConfig::EthosU85_2048 => 2048,
        }
    }

    /// NPU cores in this configuration.
    ///
    /// All but the largest U65 and U85 variants are single-core; those two are
    /// built as two cores driven together.
    pub fn cores(self) -> (n: u32)
        ensures
            n == self.core_count(),
    {
        match self {
            AcceleratorConfig::EthosU65_512 | AcceleratorConfig::EthosU85_2048 => 2,
            _ => 1,
        }
    }

    /// The accelerator with the Vela name `s`.
    pub fn from_name(s: &str) -> (r: Result<AcceleratorConfig, UnknownAccelerator>)
        ensures
            match r {
                Ok(a) => a.name() == s@,
                Err(e) => accelerator_named(s@) is None && e.0@ == s@,
            },
            r is Ok <==> accelerator_named(s@) is Some,
            r matches Ok(a) ==> accelerator_named(s@) == Some(a),
    {
        let mut i: usize = 0;
        while i < Self::ALL.len()
            invariant
                0 <= i <= Self::ALL@.len(),
                Self::ALL@ == Self::every(),
                forall|j: int| 0 <= j < i ==> Self::every()[j].name() != s@,
            decreases Self::ALL@.len() - i,
        {
            let a = Self::ALL[i];
            if str_eq(s, a.as_str()) {
                proof {
                    lemma_accelerator_named(a);
                }
                return Ok(a);
            }
            i += 1;
        }
        proof {
            assert forall|a: AcceleratorConfig| a.name() != s@ by {
                assert(Self::every().contains(a)) by {
                    match a {
                        AcceleratorConfig::EthosU55_32 => assert(Self::every()[0] == a),
                        AcceleratorConfig::EthosU55_64 => assert(Self::every()[1] == a),
                        AcceleratorConfig::EthosU55_128 => assert(Self::every()[2] == a),
                        AcceleratorConfig::EthosU55_256 => assert(Self::every()[3] == a),
                        AcceleratorConfig::EthosU65_256 => assert(Self::every()[4] == a),
                        AcceleratorConfig::EthosU65_512 => assert(Self::every()[5] == a),
                        AcceleratorConfig::EthosU85_128 => assert(Self::every()[6] == a),
                        AcceleratorConfig::EthosU85_256 => assert(Self::every()[7] == a),
                        AcceleratorConfig::EthosU85_512 => assert(Self::every()[8] == a),
                        AcceleratorConfig::EthosU85_1024 => assert(Self::every()[9] == a),
                        AcceleratorConfig::EthosU85_2048 => assert(Self::every()[10] == a),
                    }
                }
            }
        }
        Err(UnknownAccelerator(s.to_owned()))
    }
}

impl std::str::FromStr for AcceleratorConfig {
    type Err = UnknownAccelerator;

    fn from_str(s: &str) -> (r: Result<Self, Self::Err>)
        ensures
            r matches Ok(a) ==> a.name() == s@,
            r is Ok <==> accelerator_named(s@) is Some,
            r matches Err(e) ==> e.0@ == s@,
    {
        Self::from_name(s)
    }
}

/// The length of an accelerator's name and two of its characters, which
/// together tell the accelerators apart.
spec fn name_key(a: AcceleratorConfig) -> (nat, char, char) {
    (a.name().len(), a.name()[7], a.name()[10])
}

proof fn lemma_name_key(a: AcceleratorConfig)
    ensures
        name_key(a) == match a {
            AcceleratorConfig::EthosU55_32 => (12nat, '5', '3'),
            AcceleratorConfig::EthosU55_64 => (12nat, '5', '6'),
            AcceleratorConfig::EthosU55_128 => (13nat, '5', '1'),
            AcceleratorConfig::EthosU55_256 => (13nat, '5', '2'),
            AcceleratorConfig::EthosU65_256 => (13nat, '6', '2'),
            AcceleratorConfig::EthosU65_512 => (13nat, '6', '5'),
            AcceleratorConfig::EthosU85_128 => (13nat, '8', '1'),
            AcceleratorConfig::EthosU85_256 => (13nat, '8', '2'),
            AcceleratorConfig::EthosU85_512 => (13nat, '8', '5'),
            AcceleratorConfig::EthosU85_1024 => (14nat, '8', '1'),
            AcceleratorConfig::EthosU85_2048 => (14nat, '8', '2'),
        },
{
    match a {
        AcceleratorConfig::EthosU55_32 => {
            reveal_strlit("ethos-u55-32");
            assert(a.name().len() == 12 && a.name()[7] == '5' && a.name()[10] == '3');
        },
        AcceleratorConfig::EthosU55_64 => {
            reveal_strlit("ethos-u55-64");
            assert(a.name().len() == 12 && a.name()[7] == '5' && a.name()[10] == '6');
        },
        AcceleratorConfig::EthosU55_128 => {
            reveal_strlit("ethos-u55-128");
            assert(a.name().len() == 13 && a.name()[7] == '5' && a.name()[10] == '1');
        },
        AcceleratorConfig::EthosU55_256 => {
            reveal_strlit("ethos-u55-256");
            assert(a.name().len() == 13 && a.name()[7] == '5' && a.name()[10] == '2');
        },
        AcceleratorConfig::EthosU65_256 => {
            reveal_strlit("ethos-u65-256");
            assert(a.name().len() == 13 && a.name()[7] == '6' && a.name()[10] == '2');
        },
        AcceleratorConfig::EthosU65_512 => {
            reveal_strlit("ethos-u65-512");
            assert(a.name().len() == 13 && a.name()[7] == '6' && a.name()[10] == '5');
        },
        AcceleratorConfig::EthosU85_128 => {
            reveal_strlit("ethos-u85-128");
            assert(a.name().len() == 13 && a.name()[7] == '8' && a.name()[10] == '1');
        },
        AcceleratorConfig::EthosU85_256 => {
            reveal_strlit("ethos-u85-256");
            assert(a.name().len() == 13 && a.name()[7] == '8' && a.name()[10] == '2');
        },
        AcceleratorConfig::EthosU85_512 => {
            reveal_strlit("ethos-u85-512");
            assert(a.name().len() == 13 && a.name()[7] == '8' && a.name()[10] == '5');
        },
        AcceleratorConfig::EthosU85_1024 => {
            reveal_strlit("ethos-u85-1024");
            assert(a.name().len() == 14 && a.name()[7] == '8' && a.name()[10] == '1');
        },
        AcceleratorConfig::EthosU85_2048 => {
            reveal_strlit("ethos-u85-2048");
            assert(a.name().len() == 14 && a.name()[7] == '8' && a.name()[10] == '2');
        },
    }
}

/// No two accelerators share a Vela name.
pub proof fn lemma_accelerator_names_distinct(a: AcceleratorConfig, b: AcceleratorConfig)
    ensures
        a.name() == b.name() ==> a == b,
{
    lemma_name_key(a);
    lemma_name_key(b);
    if a.name() == b.name() {
        assert(name_key(a) == name_key(b));
        match a {
            AcceleratorConfig::EthosU55_32 => {},
            AcceleratorConfig::EthosU55_64 => {},
            AcceleratorConfig::EthosU55_128 => {},
            AcceleratorConfig::EthosU55_256 => {},
            AcceleratorConfig::EthosU65_256 => {},
            AcceleratorConfig::EthosU65_512 => {},
            AcceleratorConfig::EthosU85_128 => {},
            AcceleratorConfig::EthosU85_256 => {},
            AcceleratorConfig::EthosU85_512 => {},
            AcceleratorConfig::EthosU85_1024 => {},
            AcceleratorConfig::EthosU85_2048 => {},
        }
    }
}

/// Parsing an accelerator's name gives that accelerator back.
pub proof fn lemma_accelerator_named(a: AcceleratorConfig)
    ensures
        accelerator_named(a.name()) == Some(a),
{
    let b = choose|b: AcceleratorConfig| b.name() == a.name();
    lemma_accelerator_names_distinct(a, b);
}

/// An accelerator's name is its architecture's family, a dash, and its MAC
/// count in decimal.
pub proof fn lemma_accelerator_name_spells_out(a: AcceleratorConfig)
    ensures
        a.name() == family_name(a.arch()) + "-"@ + decimal(a.mac_count() as nat),
{
    reveal_strlit("-");
    reveal_with_fuel(decimal, 5);
    match a {
        AcceleratorConfig::EthosU55_32 => {
            reveal_strlit("ethos-u55-32");
            reveal_strlit("ethos-u55");
            assert(decimal(32) =~= "ethos-u55-32"@.skip(10));
            assert(a.name() =~= family_name(a.arch()) + "-"@ + decimal(32));
        },
        AcceleratorConfig::EthosU55_64 => {
            reveal_strlit("ethos-u55-64");
            reveal_strlit("ethos-u55");
            assert(decimal(64) =~= "ethos-u55-64"@.skip(10));
            assert(a.name() =~= family_name(a.arch()) + "-"@ + decimal(64));
        },
        AcceleratorConfig::EthosU55_128 => {
            reveal_strlit("ethos-u55-128");
            reveal_strlit("ethos-u55");
            assert(decimal(128) =~= "ethos-u55-128"@.skip(10));
            assert(a.name() =~= family_name(a.arch()) + "-"@ + decimal(128));
        },
        AcceleratorConfig::EthosU55_256 => {
            reveal_strlit("ethos-u55-256");
            reveal_strlit("ethos-u55");
            assert(decimal(256) =~= "ethos-u55-256"@.skip(10));
            assert(a.name() =~= family_name(a.arch()) + "-"@ + decimal(256));
        },
        AcceleratorConfig::EthosU65_256 => {
            reveal_strlit("ethos-u65-256");
            reveal_strlit("ethos-u65");
            assert(decimal(256) =~= "ethos-u65-256"@.skip(10));
            assert(a.name() =~= family_name(a.arch()) + "-"@ + decimal(256));
        },
        AcceleratorConfig::EthosU65_512 => {
            reveal_strlit("ethos-u65-512");
            reveal_strlit("ethos-u65");
            assert(decimal(512) =~= "ethos-u65-512"@.skip(10));
            assert(a.name() =~= family_name(a.arch()) + "-"@ + decimal(512));
        },
        AcceleratorConfig::EthosU85_128 => {
            reveal_strlit("ethos-u85-128");
            reveal_strlit("ethos-u85");
            assert(decimal(128) =~= "ethos-u85-128"@.skip(10));
            assert(a.name() =~= family_name(a.arch()) + "-"@ + decimal(128));
        },
        AcceleratorConfig::EthosU85_256 => {
            reveal_strlit("ethos-u85-256");
            reveal_strlit("ethos-u85");
            assert(decimal(256) =~= "ethos-u85-256"@.skip(10));
            assert(a.name() =~= family_name(a.arch()) + "-"@ + decimal(256));
        },
        AcceleratorConfig::EthosU85_512 => {
            reveal_strlit("ethos-u85-512");
            reveal_strlit("ethos-u85");
            assert(decimal(512) =~= "ethos-u85-512"@.skip(10));
            assert(a.name() =~= family_name(a.arch()) + "-"@ + decimal(512));
        },
        AcceleratorConfig::EthosU85_1024 => {
            reveal_strlit("ethos-u85-1024");
            reveal_strlit("ethos-u85");
            assert(decimal(1024) =~= "ethos-u85-1024"@.skip(10));
            assert(a.name() =~= family_name(a.arch()) + "-"@ + decimal(1024));
        },
        AcceleratorConfig::EthosU85_2048 => {
            reveal_strlit("ethos-u85-2048");
            reveal_strlit("ethos-u85");
            assert(decimal(2048) =~= "ethos-u85-2048"@.skip(10));
            assert(a.name() =~= family_name(a.arch()) + "-"@ + decimal(2048));
        },
    }
}

/// Whether `a` has the most MACs of all accelerators of its architecture.
pub open spec fn largest_of_its_architecture(a: AcceleratorConfig) -> bool {
    forall|b: AcceleratorConfig| b.arch() == a.arch() ==> b.mac_count() <= a.mac_count()
}

/// An accelerator is driven as two cores exactly when it is the largest
/// variant of the Ethos-U65 or of the Ethos-U85 (the Ethos-U65-512 and the
/// Ethos-U85-2048); every other accelerator is a single core.
pub proof fn law_only_the_largest_u65_and_u85_are_dual_core(a: AcceleratorConfig)
    ensures
        a.core_count() == 2 <==> (a == AcceleratorConfig::EthosU65_512 || a
            == AcceleratorConfig::EthosU85_2048),
        a.core_count() == 2 <==> (a.arch() != Architecture::EthosU55
            && largest_of_its_architecture(a)),
        a.core_count() == 1 || a.core_count() == 2,
{
    if a.arch() != Architecture::EthosU55 && largest_of_its_architecture(a) {
        match a {
            AcceleratorConfig::EthosU65_256 => {
                assert(AcceleratorConfig::EthosU65_512.arch() == a.arch());
            },
            AcceleratorConfig::EthosU85_128 | AcceleratorConfig::EthosU85_256
            | AcceleratorConfig::EthosU85_512 | AcceleratorConfig::EthosU85_1024 => {
                assert(AcceleratorConfig::EthosU85_2048.arch() == a.arch());
            },
            _ => {},
        }
    }
    if a == AcceleratorConfig::EthosU65_512 || a == AcceleratorConfig::EthosU85_2048 {
        assert forall|b: AcceleratorConfig| b.arch() == a.arch() implies b.mac_count()
            <= a.mac_count() by {
            match b {
                _ => {},
            }
        }
    }
}

} // verus!
