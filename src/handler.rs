use vstd::prelude::*;

verus! {

/// The body returned by the root route: a piece of text fixed for the
/// lifetime of the program.
#[derive(Clone, Copy, Debug)]
pub struct Handler {
    pub content: &'static str,
}

impl Handler {
    /// Wraps `content` without copying it.
    pub fn new(content: &'static str) -> (r: Handler)
        ensures
            r.content == content,
    {
        Handler { content }
    }
}

} // verus!
