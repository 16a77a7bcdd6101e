use vstd::prelude::*;

verus! {

/// The menu starts with nothing to set up: it shows the level as it stands.
pub fn init() {
}

} // verus!
