//! Animation data that is not floating point: how keyframes are
//! interpolated, and the limits of a GPU bone palette.

use vstd::prelude::*;

verus! {

#[derive(Debug, Clone, Copy, PartialEq, Eq, Structural)]
pub enum Interpolation {
    Step,
    Linear,
}

/// Most bones a skinning palette holds.
pub const MAX_BONES: usize = 64;

#[derive(Debug, Clone, PartialEq, Eq, Structural)]
pub enum SkinningError {
    TooManyBones { bones: usize, max: usize },
    PoseCountMismatch { pose: usize, bones: usize },
}

/// A palette of `bone_count` bones can be built from `pose_count` world
/// transforms when the skeleton fits the palette and there is one transform
/// per bone; the bone limit is checked first.
pub fn check_palette(bone_count: usize, pose_count: usize) -> (r: Result<(), SkinningError>)
    ensures
        bone_count > MAX_BONES ==> r == Err::<(), SkinningError>(
            SkinningError::TooManyBones { bones: bone_count, max: MAX_BONES },
        ),
        bone_count <= MAX_BONES && pose_count != bone_count ==> r == Err::<(), SkinningError>(
            SkinningError::PoseCountMismatch { pose: pose_count, bones: bone_count },
        ),
        bone_count <= MAX_BONES && pose_count == bone_count ==> r is Ok,
{
    if bone_count > MAX_BONES {
        return Err(SkinningError::TooManyBones { bones: bone_count, max: MAX_BONES });
    }
    if pose_count != bone_count {
        return Err(SkinningError::PoseCountMismatch { pose: pose_count, bones: bone_count });
    }
    Ok(())
}

} // verus!
