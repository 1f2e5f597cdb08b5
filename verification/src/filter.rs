//! Filter type of the basic one-pole filter.
use vstd::prelude::*;

verus! {

#[derive(Clone, Copy, Debug, PartialEq, Eq, Structural)]
pub enum FilterType {
    Default,
}

impl Default for FilterType {
    fn default() -> (t: Self)
        ensures
            t == FilterType::Default,
    {
        FilterType::Default
    }
}

} // verus!
