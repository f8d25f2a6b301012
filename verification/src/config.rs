//! The host-supplied configuration object.

use vstd::prelude::*;

verus! {

/// Configuration handed to each component once at startup. The home screen
/// stores it; none of the menu logic in this fragment reads it.
#[derive(Debug, Clone, Copy, PartialEq, Eq, Structural)]
pub struct Config {}

impl Default for Config {
    fn default() -> (r: Config)
        ensures
            r == (Config {  }),
    {
        Config {  }
    }
}

} // verus!
