use vstd::prelude::*;

verus! {

/// Outcome codes reported by the renderers.
#[derive(Clone, Copy, Debug, PartialEq, Eq, Structural)]
pub enum RendererError {
    UNKNOWN,
    FAIL,
    SUCCESS,
}

impl RendererError {
    /// The numeric code of the outcome: 0 for `UNKNOWN`, 1 for `FAIL`, 2 for `SUCCESS`.
    pub open spec fn code_spec(self) -> int {
        match self {
            RendererError::UNKNOWN => 0,
            RendererError::FAIL => 1,
            RendererError::SUCCESS => 2,
        }
    }

    /// The numeric code of the outcome.
    pub fn code(self) -> (c: u8)
        ensures
            c as int == self.code_spec(),
    {
        match self {
            RendererError::UNKNOWN => 0,
            RendererError::FAIL => 1,
            RendererError::SUCCESS => 2,
        }
    }
}

} // verus!
