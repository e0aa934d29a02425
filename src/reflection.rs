//! The termination rule of recursive reflection: a reflected ray is traced one level
//! deeper than the ray it came from, and no deeper than the cap.
use vstd::prelude::*;

verus! {

/// The deepest level of reflection traced; a camera ray is at level 0.
pub const MAX_REFLECTION_DEPTH: u32 = 4;

/// The level of the ray reflected from a hit at level `depth`, or `None` where the cap
/// stops the recursion (the reflection then adds nothing).
pub open spec fn next_depth(depth: u32) -> Option<u32> {
    if depth < MAX_REFLECTION_DEPTH {
        Some((depth + 1) as u32)
    } else {
        None
    }
}

/// The level reached after `bounces` reflections of a camera ray, or `None` once the
/// cap has stopped the chain.
pub open spec fn depth_after(bounces: nat) -> Option<u32>
    decreases bounces,
{
    if bounces == 0 {
        Some(0u32)
    } else {
        match depth_after((bounces - 1) as nat) {
            Some(d) => next_depth(d),
            None => None,
        }
    }
}

/// The level at which to trace the reflection of a hit at level `depth`, or `None`
/// where the cap is reached.
pub fn reflection_depth(depth: u32) -> (r: Option<u32>)
    ensures
        r == next_depth(depth),
{
    if depth < MAX_REFLECTION_DEPTH {
        Some(depth + 1)
    } else {
        None
    }
}

/// Recursive reflection terminates: whatever the surfaces, a chain of reflections from a
/// camera ray reaches level `bounces` for at most `MAX_REFLECTION_DEPTH` bounces and
/// stops after that.
pub proof fn lemma_reflection_terminates(bounces: nat)
    ensures
        depth_after(bounces) == (if bounces <= MAX_REFLECTION_DEPTH {
            Some(bounces as u32)
        } else {
            None::<u32>
        }),
    decreases bounces,
{
    if bounces > 0 {
        lemma_reflection_terminates((bounces - 1) as nat);
    }
}

} // verus!
