//! The operating platforms a backend can be configured for.

use vstd::prelude::*;

verus! {

/// One of the three platforms that a configuration may hold an entry for.
#[derive(Clone, Copy, Debug, PartialEq, Eq, Structural)]
pub enum Platform {
    Windows,
    Macos,
    Linux,
}

/// Whether a spawned process is placed in an operating-system container that
/// ends it together with the supervisor.
#[derive(Clone, Copy, Debug, PartialEq, Eq, Structural)]
pub enum Containment {
    /// The process is only ever ended by an explicit termination request.
    Unconfined,
    /// The process is assigned to a kill-on-close job object.
    KillOnCloseJob,
}

impl Platform {
    /// The identifier under which this platform's entry stands in a configuration.
    pub open spec fn spec_key(self) -> Seq<char> {
        match self {
            Platform::Windows => "windows"@,
            Platform::Macos => "macos"@,
            Platform::Linux => "linux"@,
        }
    }

    /// The platform that `name` identifies, if it identifies one.
    pub open spec fn spec_from_key(name: Seq<char>) -> Option<Platform> {
        if name == "windows"@ {
            Some(Platform::Windows)
        } else if name == "macos"@ {
            Some(Platform::Macos)
        } else if name == "linux"@ {
            Some(Platform::Linux)
        } else {
            None
        }
    }

    /// The containment that a launch applies on this platform.
    pub open spec fn spec_containment(self) -> Containment {
        match self {
            Platform::Windows => Containment::KillOnCloseJob,
            _ => Containment::Unconfined,
        }
    }

    pub fn key(self) -> (k: &'static str)
        ensures
            k@ == self.spec_key(),
    {
        match self {
            Platform::Windows => "windows",
            Platform::Macos => "macos",
            Platform::Linux => "linux",
        }
    }

    /// Tells the platform from its identifier, as an operating system or a
    /// build reports it.
    pub fn from_key(name: &str) -> (platform: Option<Platform>)
        ensures
            platform == Platform::spec_from_key(name@),
    {
        let name = name.to_owned();
        if name == "windows".to_owned() {
            Some(Platform::Windows)
        } else if name == "macos".to_owned() {
            Some(Platform::Macos)
        } else if name == "linux".to_owned() {
            Some(Platform::Linux)
        } else {
            None
        }
    }

    #[verifier::when_used_as_spec(spec_containment)]
    pub fn containment(self) -> (c: Containment)
        ensures
            c == self.spec_containment(),
    {
        match self {
            Platform::Windows => Containment::KillOnCloseJob,
            _ => Containment::Unconfined,
        }
    }
}

/// Every platform is told again from its own identifier, so no two
/// platforms share one.
pub proof fn lemma_key_identifies_platform(platform: Platform)
    ensures
        Platform::spec_from_key(platform.spec_key()) == Some(platform),
{
    reveal_strlit("windows");
    reveal_strlit("macos");
    reveal_strlit("linux");
    assert("linux"@[0] != "macos"@[0]);
}

} // verus!
