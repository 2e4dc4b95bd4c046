//! The resource versions: which localisation of the original game's data is used.

use crate::text::{failure_view, same_text};
use vstd::prelude::*;
use vstd::string::*;

verus! {

/// A localisation of the original game's resources.
#[allow(non_camel_case_types)]
#[derive(Debug, Clone, Copy, PartialEq, Eq, Structural)]
pub enum ResourceVersion {
    DUTCH,
    ENGLISH,
    FRENCH,
    GERMAN,
    ITALIAN,
    POLISH,
    RUSSIAN,
    RUSSIAN_GOLD,
}

impl ResourceVersion {
    /// The upper-case name under which the version is written and read.
    pub open spec fn name(self) -> Seq<char> {
        match self {
            ResourceVersion::DUTCH => "DUTCH"@,
            ResourceVersion::ENGLISH => "ENGLISH"@,
            ResourceVersion::FRENCH => "FRENCH"@,
            ResourceVersion::GERMAN => "GERMAN"@,
            ResourceVersion::ITALIAN => "ITALIAN"@,
            ResourceVersion::POLISH => "POLISH"@,
            ResourceVersion::RUSSIAN => "RUSSIAN"@,
            ResourceVersion::RUSSIAN_GOLD => "RUSSIAN_GOLD"@,
        }
    }

    /// The version that `name` names, if it names one. Case matters.
    pub open spec fn named(name: Seq<char>) -> Option<ResourceVersion> {
        if name == "DUTCH"@ {
            Some(ResourceVersion::DUTCH)
        } else if name == "ENGLISH"@ {
            Some(ResourceVersion::ENGLISH)
        } else if name == "FRENCH"@ {
            Some(ResourceVersion::FRENCH)
        } else if name == "GERMAN"@ {
            Some(ResourceVersion::GERMAN)
        } else if name == "ITALIAN"@ {
            Some(ResourceVersion::ITALIAN)
        } else if name == "POLISH"@ {
            Some(ResourceVersion::POLISH)
        } else if name == "RUSSIAN"@ {
            Some(ResourceVersion::RUSSIAN)
        } else if name == "RUSSIAN_GOLD"@ {
            Some(ResourceVersion::RUSSIAN_GOLD)
        } else {
            None
        }
    }

    /// What `from_str` answers to a name that names no version.
    pub open spec fn unknown_message(name: Seq<char>) -> Seq<char> {
        "Resource version "@ + name + " is unknown"@
    }

    /// The version that `name` names, or the message that it names none.
    pub open spec fn read(name: Seq<char>) -> Result<ResourceVersion, Seq<char>> {
        match Self::named(name) {
            Some(version) => Ok(version),
            None => Err(Self::unknown_message(name)),
        }
    }

    /// The version's name.
    pub fn to_string(&self) -> (name: String)
        ensures
            name@ == self.name(),
    {
        let name = match self {
            ResourceVersion::DUTCH => "DUTCH",
            ResourceVersion::ENGLISH => "ENGLISH",
            ResourceVersion::FRENCH => "FRENCH",
            ResourceVersion::GERMAN => "GERMAN",
            ResourceVersion::ITALIAN => "ITALIAN",
            ResourceVersion::POLISH => "POLISH",
            ResourceVersion::RUSSIAN => "RUSSIAN",
            ResourceVersion::RUSSIAN_GOLD => "RUSSIAN_GOLD",
        };
        name.to_owned()
    }

    /// The version that `name` names, looked up without a message for the failure.
    pub fn lookup(name: &str) -> (version: Option<ResourceVersion>)
        ensures
            version == Self::named(name@),
    {
        if same_text(name, "DUTCH") {
            Some(ResourceVersion::DUTCH)
        } else if same_text(name, "ENGLISH") {
            Some(ResourceVersion::ENGLISH)
        } else if same_text(name, "FRENCH") {
            Some(ResourceVersion::FRENCH)
        } else if same_text(name, "GERMAN") {
            Some(ResourceVersion::GERMAN)
        } else if same_text(name, "ITALIAN") {
            Some(ResourceVersion::ITALIAN)
        } else if same_text(name, "POLISH") {
            Some(ResourceVersion::POLISH)
        } else if same_text(name, "RUSSIAN") {
            Some(ResourceVersion::RUSSIAN)
        } else if same_text(name, "RUSSIAN_GOLD") {
            Some(ResourceVersion::RUSSIAN_GOLD)
        } else {
            None
        }
    }

    /// Reads a version from its exact upper-case name.
    pub fn from_str(name: &str) -> (version: Result<ResourceVersion, String>)
        ensures
            failure_view(version) == Self::read(name@),
    {
        match Self::lookup(name) {
            Some(version) => Ok(version),
            None => {
                let mut message = "Resource version ".to_owned();
                message.append(name);
                message.append(" is unknown");
                Err(message)
            },
        }
    }
}

/// Reading the name of a version gives that version: the eight names are
/// distinct, and each is read as the version it was written for.
pub proof fn lemma_resource_version_round_trip(version: ResourceVersion)
    ensures
        ResourceVersion::named(version.name()) == Some(version),
{
    reveal_strlit("DUTCH");
    reveal_strlit("ENGLISH");
    reveal_strlit("FRENCH");
    reveal_strlit("GERMAN");
    reveal_strlit("ITALIAN");
    reveal_strlit("POLISH");
    reveal_strlit("RUSSIAN");
    reveal_strlit("RUSSIAN_GOLD");
    match version {
        ResourceVersion::DUTCH => {},
        ResourceVersion::ENGLISH => {
            assert("ENGLISH"@.len() != "DUTCH"@.len());
        },
        ResourceVersion::FRENCH => {
            assert("FRENCH"@.len() != "DUTCH"@.len());
            assert("FRENCH"@.len() != "ENGLISH"@.len());
        },
        ResourceVersion::GERMAN => {
            assert("GERMAN"@.len() != "DUTCH"@.len());
            assert("GERMAN"@.len() != "ENGLISH"@.len());
            assert("GERMAN"@[0] != "FRENCH"@[0]);
        },
        ResourceVersion::ITALIAN => {
            assert("ITALIAN"@.len() != "DUTCH"@.len());
            assert("ITALIAN"@[0] != "ENGLISH"@[0]);
            assert("ITALIAN"@.len() != "FRENCH"@.len());
            assert("ITALIAN"@.len() != "GERMAN"@.len());
        },
        ResourceVersion::POLISH => {
            assert("POLISH"@.len() != "DUTCH"@.len());
            assert("POLISH"@.len() != "ENGLISH"@.len());
            assert("POLISH"@[0] != "FRENCH"@[0]);
            assert("POLISH"@[0] != "GERMAN"@[0]);
            assert("POLISH"@.len() != "ITALIAN"@.len());
        },
        ResourceVersion::RUSSIAN => {
            assert("RUSSIAN"@.len() != "DUTCH"@.len());
            assert("RUSSIAN"@[0] != "ENGLISH"@[0]);
            assert("RUSSIAN"@.len() != "FRENCH"@.len());
            assert("RUSSIAN"@.len() != "GERMAN"@.len());
            assert("RUSSIAN"@[0] != "ITALIAN"@[0]);
            assert("RUSSIAN"@.len() != "POLISH"@.len());
        },
        ResourceVersion::RUSSIAN_GOLD => {
            assert("RUSSIAN_GOLD"@.len() != "DUTCH"@.len());
            assert("RUSSIAN_GOLD"@.len() != "ENGLISH"@.len());
            assert("RUSSIAN_GOLD"@.len() != "FRENCH"@.len());
            assert("RUSSIAN_GOLD"@.len() != "GERMAN"@.len());
            assert("RUSSIAN_GOLD"@.len() != "ITALIAN"@.len());
            assert("RUSSIAN_GOLD"@.len() != "POLISH"@.len());
            assert("RUSSIAN_GOLD"@.len() != "RUSSIAN"@.len());
        },
    }
}

/// A name is read as a version only if it is that version's name.
pub proof fn lemma_resource_version_named(name: Seq<char>, version: ResourceVersion)
    requires
        ResourceVersion::named(name) == Some(version),
    ensures
        version.name() == name,
{
}

} // verus!
