//! The small record of user preferences kept between sessions.
use vstd::prelude::*;

verus! {

/// Preferences kept between sessions; a field missing when read back takes its default.
#[derive(Debug, Clone)]
pub struct State {
    pub use_sudo: bool,
    pub snaps_fullscreen: bool,
    pub last_config: Option<String>,
    pub filter: Option<String>,
}

impl Default for State {
    fn default() -> (r: State)
        ensures
            !r.use_sudo,
            !r.snaps_fullscreen,
            r.last_config.is_none(),
            r.filter.is_none(),
    {
        State { use_sudo: false, snaps_fullscreen: false, last_config: None, filter: None }
    }
}

} // verus!
