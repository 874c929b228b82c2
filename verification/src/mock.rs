use vstd::prelude::*;

verus! {

/// Creator for the mock service: a stand-in backend with no hardware behind
/// it, used by callers that want the uniform device contract without a
/// runtime present.
pub struct MockServiceCreator;

impl MockServiceCreator {
    pub fn new() -> MockServiceCreator {
        MockServiceCreator
    }
}

} // verus!
