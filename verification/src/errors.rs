use vstd::prelude::*;

verus! {

/// The failures that random input generation can report.
#[derive(Clone, Copy, Debug, PartialEq, Eq, Structural)]
pub enum Error {
    /// The generator was configured with a maximum size of zero, so the
    /// length draw would range over an empty interval.
    Configuration,
}

} // verus!
