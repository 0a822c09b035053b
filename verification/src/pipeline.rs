use vstd::prelude::*;

verus! {

/// A source stage of a processing pipeline.
pub trait Generator {
    type OutputItem;

    fn run<S>(self) -> S;
}

} // verus!
