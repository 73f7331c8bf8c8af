//! Smogon tiers.

use vstd::prelude::*;
use crate::text::same_text;

verus! {

/// A Smogon tier, in increasing order of preference.
#[derive(Copy, Clone, Debug, PartialEq, Eq, Structural, PartialOrd, Ord, Hash)]
pub enum Format {
    Unranked,
    Uber,
    NFE,
    LC,
    NUBL,
    RUBL,
    UUBL,
    PU,
    NU,
    RU,
    UU,
    OU,
}

/// The tier that a tier name stands for; any other text stands for `Unranked`.
pub open spec fn format_named(s: Seq<char>) -> Format {
    if s == "OU"@ {
        Format::OU
    } else if s == "NU"@ {
        Format::NU
    } else if s == "RU"@ {
        Format::RU
    } else if s == "UU"@ {
        Format::UU
    } else if s == "PU"@ {
        Format::PU
    } else if s == "Uber"@ {
        Format::Uber
    } else if s == "UUBL"@ {
        Format::UUBL
    } else if s == "NUBL"@ {
        Format::NUBL
    } else if s == "RUBL"@ {
        Format::RUBL
    } else if s == "NFE"@ {
        Format::NFE
    } else if s == "LC"@ {
        Format::LC
    } else {
        Format::Unranked
    }
}

/// The place of a tier in the order of preference (`Unranked` lowest, `OU` highest).
pub open spec fn rank(f: Format) -> nat {
    match f {
        Format::Unranked => 0,
        Format::Uber => 1,
        Format::NFE => 2,
        Format::LC => 3,
        Format::NUBL => 4,
        Format::RUBL => 5,
        Format::UUBL => 6,
        Format::PU => 7,
        Format::NU => 8,
        Format::RU => 9,
        Format::UU => 10,
        Format::OU => 11,
    }
}

/// The name under which a tier is shown.
pub open spec fn format_name(f: Format) -> Seq<char> {
    match f {
        Format::Unranked => "None"@,
        Format::Uber => "Uber"@,
        Format::NFE => "NFE"@,
        Format::LC => "LC"@,
        Format::NUBL => "NUBL"@,
        Format::RUBL => "RUBL"@,
        Format::UUBL => "UUBL"@,
        Format::PU => "PU"@,
        Format::NU => "NU"@,
        Format::RU => "RU"@,
        Format::UU => "UU"@,
        Format::OU => "OU"@,
    }
}

impl Format {
    /// The tier's place in the order of preference.
    pub fn rank(&self) -> (r: u8)
        ensures
            r == rank(*self),
    {
        match self {
            Format::Unranked => 0,
            Format::Uber => 1,
            Format::NFE => 2,
            Format::LC => 3,
            Format::NUBL => 4,
            Format::RUBL => 5,
            Format::UUBL => 6,
            Format::PU => 7,
            Format::NU => 8,
            Format::RU => 9,
            Format::UU => 10,
            Format::OU => 11,
        }
    }

    /// Reads a tier from its name.
    pub fn from_name(value: &str) -> (r: Format)
        ensures
            r == format_named(value@),
    {
        if same_text(value, "OU") {
            Format::OU
        } else if same_text(value, "NU") {
            Format::NU
        } else if same_text(value, "RU") {
            Format::RU
        } else if same_text(value, "UU") {
            Format::UU
        } else if same_text(value, "PU") {
            Format::PU
        } else if same_text(value, "Uber") {
            Format::Uber
        } else if same_text(value, "UUBL") {
            Format::UUBL
        } else if same_text(value, "NUBL") {
            Format::NUBL
        } else if same_text(value, "RUBL") {
            Format::RUBL
        } else if same_text(value, "NFE") {
            Format::NFE
        } else if same_text(value, "LC") {
            Format::LC
        } else {
            Format::Unranked
        }
    }

    /// The name under which the tier is shown.
    pub fn to_string(&self) -> (r: String)
        ensures
            r@ == format_name(*self),
    {
        match self {
            Format::Unranked => String::from_str("None"),
            Format::Uber => String::from_str("Uber"),
            Format::NFE => String::from_str("NFE"),
            Format::LC => String::from_str("LC"),
            Format::NUBL => String::from_str("NUBL"),
            Format::RUBL => String::from_str("RUBL"),
            Format::UUBL => String::from_str("UUBL"),
            Format::PU => String::from_str("PU"),
            Format::NU => String::from_str("NU"),
            Format::RU => String::from_str("RU"),
            Format::UU => String::from_str("UU"),
            Format::OU => String::from_str("OU"),
        }
    }
}

impl<'a> From<&'a str> for Format {
    fn from(value: &'a str) -> (r: Format) {
        Format::from_name(value)
    }
}

impl<'a> vstd::std_specs::convert::FromSpecImpl<&'a str> for Format {
    open spec fn obeys_from_spec() -> bool {
        true
    }

    open spec fn from_spec(value: &'a str) -> Format {
        format_named(value@)
    }
}

/// The length and the first two characters of each tier name, which tell
/// the names apart.
proof fn lemma_tier_names()
    ensures
        "None"@.len() == 4 && "None"@[0] == 'N' && "None"@[1] == 'o',
        "Uber"@.len() == 4 && "Uber"@[0] == 'U' && "Uber"@[1] == 'b',
        "NFE"@.len() == 3 && "NFE"@[0] == 'N' && "NFE"@[1] == 'F',
        "LC"@.len() == 2 && "LC"@[0] == 'L' && "LC"@[1] == 'C',
        "NUBL"@.len() == 4 && "NUBL"@[0] == 'N' && "NUBL"@[1] == 'U',
        "RUBL"@.len() == 4 && "RUBL"@[0] == 'R' && "RUBL"@[1] == 'U',
        "UUBL"@.len() == 4 && "UUBL"@[0] == 'U' && "UUBL"@[1] == 'U',
        "PU"@.len() == 2 && "PU"@[0] == 'P' && "PU"@[1] == 'U',
        "NU"@.len() == 2 && "NU"@[0] == 'N' && "NU"@[1] == 'U',
        "RU"@.len() == 2 && "RU"@[0] == 'R' && "RU"@[1] == 'U',
        "UU"@.len() == 2 && "UU"@[0] == 'U' && "UU"@[1] == 'U',
        "OU"@.len() == 2 && "OU"@[0] == 'O' && "OU"@[1] == 'U',
{
    reveal_strlit("None");
    reveal_strlit("Uber");
    reveal_strlit("NFE");
    reveal_strlit("LC");
    reveal_strlit("NUBL");
    reveal_strlit("RUBL");
    reveal_strlit("UUBL");
    reveal_strlit("PU");
    reveal_strlit("NU");
    reveal_strlit("RU");
    reveal_strlit("UU");
    reveal_strlit("OU");
}

/// A tier's shown name reads back as that tier.
pub proof fn lemma_name_reads_back(f: Format)
    ensures
        format_named(format_name(f)) == f,
{
    lemma_tier_names();
}

} // verus!
