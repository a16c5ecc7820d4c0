use vstd::prelude::*;

verus! {

/// Saved position of a parameter chosen among a fixed number of options
/// by a pot or a CV.
#[derive(Default, PartialEq, Eq, Debug, Clone, Copy, Structural)]
pub struct PersistentConfig {
    pub selected_value: usize,
}

} // verus!
