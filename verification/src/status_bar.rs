//! The status bar at the bottom of the window, showing the version.

use vstd::prelude::*;

verus! {

/// The status bar.
#[derive(Debug)]
pub struct StatusBar {
    version: String,
}

impl StatusBar {
    /// The version the bar shows.
    pub closed spec fn spec_version(&self) -> Seq<char> {
        self.version@
    }

    /// A status bar showing the default version, `v0.0.1a`.
    pub fn new() -> (res: Self)
        ensures
            res.spec_version() == "v0.0.1a"@,
    {
        StatusBar { version: String::from_str("v0.0.1a") }
    }

    /// A status bar showing `version`.
    pub fn with_version(version: String) -> (res: Self)
        ensures
            res.spec_version() == version@,
    {
        StatusBar { version }
    }

    /// The version the bar shows.
    pub fn version(&self) -> (res: &str)
        ensures
            res@ == self.spec_version(),
    {
        self.version.as_str()
    }
}

impl Default for StatusBar {
    fn default() -> (res: Self)
        ensures
            res.spec_version() == Seq::<char>::empty(),
    {
        StatusBar { version: String::new() }
    }
}

} // verus!
