//! Persistent client input preferences, independent of host pairing.
use vstd::prelude::*;

verus! {

/// The file, in the configuration directory, that holds the preferences.
pub const SETTINGS_FILE: &'static str = "settings.json";

/// Client preferences. Missing fields retain the original input behavior.
#[derive(Clone, Copy, Debug, PartialEq, Eq, Structural)]
pub struct ClientSettings {
    /// Exchange the gamepad A and B buttons sent to the host.
    pub swap_ab: bool,
}

impl Default for ClientSettings {
    fn default() -> (res: Self)
        ensures
            !res.swap_ab,
    {
        ClientSettings { swap_ab: false }
    }
}

} // verus!
