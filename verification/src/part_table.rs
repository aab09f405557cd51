use vstd::prelude::*;

use crate::str_eq;

verus! {

/// Partition table type, as the native library names it ("dos", "gpt", ...).
///
/// Every name the native library may hand back maps to a value of this type:
/// the known names map to their own variant, and any other name is kept
/// verbatim under `Unknown`, so translation can never fail.
#[derive(Clone, Debug, Eq, PartialEq)]
pub enum PartitionTableType {
    Aix,
    Atari,
    Bsd,
    Dos,
    Gpt,
    Mac,
    Minix,
    Sgi,
    Solaris,
    Sun,
    Ultrix,
    Unixware,
    Unknown(String),
}

impl PartitionTableType {
    /// The name of this table type, as the native library writes it; an
    /// unknown type keeps the name it was made from.
    pub open spec fn spec_name(self) -> Seq<char> {
        match self {
            PartitionTableType::Aix => "aix"@,
            PartitionTableType::Atari => "atari"@,
            PartitionTableType::Bsd => "bsd"@,
            PartitionTableType::Dos => "dos"@,
            PartitionTableType::Gpt => "gpt"@,
            PartitionTableType::Mac => "mac"@,
            PartitionTableType::Minix => "minix"@,
            PartitionTableType::Sgi => "sgi"@,
            PartitionTableType::Solaris => "solaris"@,
            PartitionTableType::Sun => "sun"@,
            PartitionTableType::Ultrix => "ultrix"@,
            PartitionTableType::Unixware => "unixware"@,
            PartitionTableType::Unknown(s) => s@,
        }
    }

    /// Which known variant a name denotes, if any.
    pub open spec fn spec_known_from_name(name: Seq<char>) -> Option<PartitionTableType> {
        if name == "aix"@ {
            Some(PartitionTableType::Aix)
        } else if name == "atari"@ {
            Some(PartitionTableType::Atari)
        } else if name == "bsd"@ {
            Some(PartitionTableType::Bsd)
        } else if name == "dos"@ {
            Some(PartitionTableType::Dos)
        } else if name == "gpt"@ {
            Some(PartitionTableType::Gpt)
        } else if name == "mac"@ {
            Some(PartitionTableType::Mac)
        } else if name == "minix"@ {
            Some(PartitionTableType::Minix)
        } else if name == "sgi"@ {
            Some(PartitionTableType::Sgi)
        } else if name == "solaris"@ {
            Some(PartitionTableType::Solaris)
        } else if name == "sun"@ {
            Some(PartitionTableType::Sun)
        } else if name == "ultrix"@ {
            Some(PartitionTableType::Ultrix)
        } else if name == "unixware"@ {
            Some(PartitionTableType::Unixware)
        } else {
            None
        }
    }

    /// Translates a table-type name: a known name becomes its variant, any
    /// other name is kept verbatim under `Unknown`. Total by construction.
    pub fn from_str(name: &str) -> (r: Self)
        ensures
            match PartitionTableType::spec_known_from_name(name@) {
                Some(t) => r == t,
                None => r matches PartitionTableType::Unknown(s) && s@ == name@,
            },
    {
        if str_eq(name, "aix") {
            PartitionTableType::Aix
        } else if str_eq(name, "atari") {
            PartitionTableType::Atari
        } else if str_eq(name, "bsd") {
            PartitionTableType::Bsd
        } else if str_eq(name, "dos") {
            PartitionTableType::Dos
        } else if str_eq(name, "gpt") {
            PartitionTableType::Gpt
        } else if str_eq(name, "mac") {
            PartitionTableType::Mac
        } else if str_eq(name, "minix") {
            PartitionTableType::Minix
        } else if str_eq(name, "sgi") {
            PartitionTableType::Sgi
        } else if str_eq(name, "solaris") {
            PartitionTableType::Solaris
        } else if str_eq(name, "sun") {
            PartitionTableType::Sun
        } else if str_eq(name, "ultrix") {
            PartitionTableType::Ultrix
        } else if str_eq(name, "unixware") {
            PartitionTableType::Unixware
        } else {
            PartitionTableType::Unknown(name.to_owned())
        }
    }

    /// The name of this table type, as a borrowed string.
    pub fn as_str(&self) -> (r: &str)
        ensures
            r@ == self.spec_name(),
    {
        match self {
            PartitionTableType::Aix => "aix",
            PartitionTableType::Atari => "atari",
            PartitionTableType::Bsd => "bsd",
            PartitionTableType::Dos => "dos",
            PartitionTableType::Gpt => "gpt",
            PartitionTableType::Mac => "mac",
            PartitionTableType::Minix => "minix",
            PartitionTableType::Sgi => "sgi",
            PartitionTableType::Solaris => "solaris",
            PartitionTableType::Sun => "sun",
            PartitionTableType::Ultrix => "ultrix",
            PartitionTableType::Unixware => "unixware",
            PartitionTableType::Unknown(s) => s.as_str(),
        }
    }
}

/// Translating the name of a known table type gives that type back: the
/// name/parse pair is a round trip on every known variant.
pub proof fn lemma_table_type_name_round_trip(t: PartitionTableType)
    requires
        !(t is Unknown),
    ensures
        PartitionTableType::spec_known_from_name(t.spec_name()) == Some(t),
{
    reveal_strlit("aix");
    reveal_strlit("atari");
    reveal_strlit("bsd");
    reveal_strlit("dos");
    reveal_strlit("gpt");
    reveal_strlit("mac");
    reveal_strlit("minix");
    reveal_strlit("sgi");
    reveal_strlit("solaris");
    reveal_strlit("sun");
    reveal_strlit("ultrix");
    reveal_strlit("unixware");
    assert("aix"@.len() == 3);
    assert("atari"@.len() == 5);
    assert("bsd"@.len() == 3);
    assert("dos"@.len() == 3);
    assert("gpt"@.len() == 3);
    assert("mac"@.len() == 3);
    assert("minix"@.len() == 5);
    assert("sgi"@.len() == 3);
    assert("solaris"@.len() == 7);
    assert("sun"@.len() == 3);
    assert("ultrix"@.len() == 6);
    assert("unixware"@.len() == 8);
    assert("aix"@[0] == 'a');
    assert("bsd"@[0] == 'b');
    assert("dos"@[0] == 'd');
    assert("gpt"@[0] == 'g');
    assert("mac"@[0] == 'm');
    assert("sgi"@[0] == 's');
    assert("sun"@[0] == 's');
    assert("sgi"@[1] == 'g');
    assert("sun"@[1] == 'u');
    assert("atari"@[0] == 'a');
    assert("minix"@[0] == 'm');
    match t {
        PartitionTableType::Aix => {
            assert(PartitionTableType::spec_known_from_name("aix"@) == Some(t));
        },
        PartitionTableType::Atari => {
            assert(PartitionTableType::spec_known_from_name("atari"@) == Some(t));
        },
        PartitionTableType::Bsd => {
            assert(PartitionTableType::spec_known_from_name("bsd"@) == Some(t));
        },
        PartitionTableType::Dos => {
            assert(PartitionTableType::spec_known_from_name("dos"@) == Some(t));
        },
        PartitionTableType::Gpt => {
            assert(PartitionTableType::spec_known_from_name("gpt"@) == Some(t));
        },
        PartitionTableType::Mac => {
            assert(PartitionTableType::spec_known_from_name("mac"@) == Some(t));
        },
        PartitionTableType::Minix => {
            assert(PartitionTableType::spec_known_from_name("minix"@) == Some(t));
        },
        PartitionTableType::Sgi => {
            assert(PartitionTableType::spec_known_from_name("sgi"@) == Some(t));
        },
        PartitionTableType::Solaris => {
            assert(PartitionTableType::spec_known_from_name("solaris"@) == Some(t));
        },
        PartitionTableType::Sun => {
            assert(PartitionTableType::spec_known_from_name("sun"@) == Some(t));
        },
        PartitionTableType::Ultrix => {
            assert(PartitionTableType::spec_known_from_name("ultrix"@) == Some(t));
        },
        PartitionTableType::Unixware => {
            assert(PartitionTableType::spec_known_from_name("unixware"@) == Some(t));
        },
        PartitionTableType::Unknown(_) => {
        },
    }
}

} // verus!
