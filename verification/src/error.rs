use vstd::prelude::*;

verus! {

/// How a request on the library can fail.
#[derive(Clone, Copy, Debug, PartialEq, Eq, Structural)]
pub enum PlotError {
    /// A value handed in (a hex color string) does not have the required
    /// shape.  Construction is rejected; nothing is silently coerced.
    MalformedInput,
    /// The canvas failed to allocate a resource (canvas, path or pen) that
    /// the scene requires.  The render invocation is aborted.
    ResourceAcquisitionFault,
}

} // verus!
