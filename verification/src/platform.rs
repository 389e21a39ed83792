//! Host operating systems and the asset name a project publishes for each.

use vstd::prelude::*;

verus! {

/// The operating system the installer runs on.
#[derive(Clone, Copy, Debug, PartialEq, Eq, Structural)]
pub enum Os {
    Linux,
    Windows,
    MacOs,
    /// Any system for which projects publish no asset.
    Other,
}

impl Os {
    /// The system that the platform's own name for it denotes: `linux`,
    /// `windows` and `macos` are recognised, every other name is `Other`.
    pub open spec fn spec_from_name(name: Seq<char>) -> Os {
        if name == "linux"@ {
            Os::Linux
        } else if name == "windows"@ {
            Os::Windows
        } else if name == "macos"@ {
            Os::MacOs
        } else {
            Os::Other
        }
    }

    /// Reads the name the platform gives itself, as `std::env::consts::OS`
    /// spells it.
    pub fn from_name(name: &str) -> (os: Os)
        ensures
            os == Os::spec_from_name(name@),
    {
        let name = name.to_owned();
        if name == "linux".to_owned() {
            Os::Linux
        } else if name == "windows".to_owned() {
            Os::Windows
        } else if name == "macos".to_owned() {
            Os::MacOs
        } else {
            Os::Other
        }
    }
}

/// The names under which one project publishes its binary, per system.
#[derive(Debug, PartialEq, Eq)]
pub struct GHRelease {
    pub linux_bin_name: String,
    pub win_bin_name: String,
    pub mac_bin_name: String,
}

/// What the contracts see of a `GHRelease`.
pub struct GHReleaseView {
    pub linux_bin_name: Seq<char>,
    pub win_bin_name: Seq<char>,
    pub mac_bin_name: Seq<char>,
}

impl GHReleaseView {
    /// The asset name expected on `os`, if the project publishes one for it.
    pub open spec fn bin_name(self, os: Os) -> Option<Seq<char>> {
        match os {
            Os::Linux => Some(self.linux_bin_name),
            Os::Windows => Some(self.win_bin_name),
            Os::MacOs => Some(self.mac_bin_name),
            Os::Other => None,
        }
    }
}

impl View for GHRelease {
    type V = GHReleaseView;

    open spec fn view(&self) -> GHReleaseView {
        GHReleaseView {
            linux_bin_name: self.linux_bin_name@,
            win_bin_name: self.win_bin_name@,
            mac_bin_name: self.mac_bin_name@,
        }
    }
}

impl GHRelease {
    /// The name of the asset to install on `os`; `None` where the project
    /// publishes nothing for that system.
    pub fn bin_name(&self, os: Os) -> (name: Option<String>)
        ensures
            name.deep_view() == self@.bin_name(os),
    {
        match os {
            Os::Linux => Some(self.linux_bin_name.clone()),
            Os::Windows => Some(self.win_bin_name.clone()),
            Os::MacOs => Some(self.mac_bin_name.clone()),
            Os::Other => None,
        }
    }
}

} // verus!
