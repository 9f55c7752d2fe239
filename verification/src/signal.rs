use vstd::prelude::*;

verus! {

/// The size of one complex sample in bytes: two 64-bit numbers.
pub const COMPLEX_BYTES: usize = 16;

/// The sign of the exponent of a backward transform.
pub const BACKWARD: i32 = 1;

/// The planner flag that asks for a plan by estimate, without measuring.
pub const ESTIMATE: u32 = 64;

/// The parameters of a one-dimensional complex-to-complex transform, as the
/// transform library takes them.
#[derive(Clone, Copy, Debug, PartialEq, Eq, Structural)]
pub struct TransformPlan {
    /// The number of complex samples.
    pub size: i32,
    /// The size in bytes of each of the two scratch buffers.
    pub buffer_bytes: usize,
    /// The sign of the exponent.
    pub sign: i32,
    /// The planner flags.
    pub flags: u32,
}

/// Tells whether a transform of `n` samples can be planned: there is at least one
/// sample, their number fits the library's size type, and a buffer of them can be
/// addressed.
pub open spec fn plannable(n: usize) -> bool {
    1 <= n <= i32::MAX && n * COMPLEX_BYTES <= usize::MAX
}

/// The parameters of the unnormalised backward transform of `n` samples, planned by
/// estimate, or `None` when no such transform can be planned.
pub fn backward_plan(n: usize) -> (plan: Option<TransformPlan>)
    ensures
        plan == if plannable(n) {
            Some(
                TransformPlan {
                    size: n as i32,
                    buffer_bytes: (n * COMPLEX_BYTES) as usize,
                    sign: BACKWARD,
                    flags: ESTIMATE,
                },
            )
        } else {
            None
        },
{
    if n == 0 || n > i32::MAX as usize {
        return None;
    }
    match n.checked_mul(COMPLEX_BYTES) {
        Some(buffer_bytes) => Some(TransformPlan { size: n as i32, buffer_bytes, sign: BACKWARD, flags: ESTIMATE }),
        None => None,
    }
}

} // verus!
