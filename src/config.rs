//! The one setting of the panel: where it mounts devices.
use vstd::prelude::*;

verus! {

/// Settings of the panel.
#[derive(Clone, Debug, PartialEq, Eq)]
pub struct Config {
    /// The mount root: the directory under which devices get their mount points.
    pub mount_path: String,
}

/// The mount root used when no configuration gives one.
pub open spec fn default_mount_path() -> Seq<char> {
    "./"@
}

impl Default for Config {
    fn default() -> (r: Config)
        ensures
            r.mount_path@ == default_mount_path(),
    {
        Config { mount_path: String::from_str("./") }
    }
}

} // verus!
