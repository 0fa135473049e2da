use vstd::prelude::*;

use crate::error::{RendererError, Stage};
use crate::immediate::IMMEDIATE_SIZE;

verus! {

/// How the compositor reads the alpha channel of the surface.
#[derive(Clone, Copy, Debug, PartialEq, Eq, Structural)]
pub enum AlphaMode {
    Auto,
    Opaque,
    PreMultiplied,
    PostMultiplied,
    Inherit,
}

/// Preference rank of an alpha mode: lower is preferred.
pub open spec fn rank(mode: AlphaMode) -> nat {
    match mode {
        AlphaMode::Inherit => 1,
        AlphaMode::PreMultiplied => 2,
        AlphaMode::PostMultiplied => 3,
        AlphaMode::Opaque => 4,
        _ => 5,
    }
}

/// `i` is the first position of `modes` whose rank is minimal.
pub open spec fn is_first_preferred(modes: Seq<AlphaMode>, i: int) -> bool {
    &&& 0 <= i < modes.len()
    &&& forall|j: int| 0 <= j < modes.len() ==> rank(#[trigger] modes[j]) >= rank(modes[i])
    &&& forall|j: int| 0 <= j < i ==> rank(#[trigger] modes[j]) > rank(modes[i])
}

pub fn alpha_mode_rank(mode: AlphaMode) -> (r: u8)
    ensures
        r == rank(mode),
{
    match mode {
        AlphaMode::Inherit => 1,
        AlphaMode::PreMultiplied => 2,
        AlphaMode::PostMultiplied => 3,
        AlphaMode::Opaque => 4,
        _ => 5,
    }
}

/// The surface format to configure: the first one the surface reports.
pub fn find_surface_format<F: Copy>(formats: &Vec<F>) -> (r: Result<F, RendererError>)
    ensures
        formats@.len() == 0 <==> r is Err,
        r is Err ==> r == Err::<F, RendererError>(RendererError::CapabilityMissing),
        r matches Ok(f) ==> f == formats@[0],
{
    if formats.len() == 0 {
        Err(RendererError::CapabilityMissing)
    } else {
        Ok(formats[0])
    }
}

/// The alpha mode to configure: the first of the reported modes with the
/// lowest rank.
pub fn find_alpha_mode(modes: &Vec<AlphaMode>) -> (r: Result<AlphaMode, RendererError>)
    ensures
        modes@.len() == 0 <==> r is Err,
        r is Err ==> r == Err::<AlphaMode, RendererError>(RendererError::CapabilityMissing),
        r matches Ok(m) ==> exists|i: int| is_first_preferred(modes@, i) && modes@[i] == m,
{
    if modes.len() == 0 {
        return Err(RendererError::CapabilityMissing);
    }
    let mut best: usize = 0;
    let mut i: usize = 1;
    while i < modes.len()
        invariant
            1 <= i <= modes@.len(),
            best < i,
            forall|j: int| 0 <= j < i ==> rank(#[trigger] modes@[j]) >= rank(modes@[best as int]),
            forall|j: int| 0 <= j < best ==> rank(#[trigger] modes@[j]) > rank(modes@[best as int]),
        decreases modes@.len() - i,
    {
        if alpha_mode_rank(modes[i]) < alpha_mode_rank(modes[best]) {
            best = i;
        }
        i = i + 1;
    }
    assert(is_first_preferred(modes@, best as int));
    Ok(modes[best])
}

/// The outcome of checking an adapter's immediate-constant limit.
pub open spec fn immediate_limit_result(max_immediate_size: u32) -> Result<(), RendererError> {
    if max_immediate_size >= IMMEDIATE_SIZE {
        Ok(())
    } else {
        Err(RendererError::ImmediateLimitTooLow)
    }
}

/// Whether an adapter whose immediate-constant limit is `max_immediate_size`
/// bytes can hold the immediate block.
pub fn check_immediate_limit(max_immediate_size: u32) -> (r: Result<(), RendererError>)
    ensures
        r == immediate_limit_result(max_immediate_size),
        r is Ok <==> max_immediate_size >= IMMEDIATE_SIZE,
{
    if max_immediate_size >= IMMEDIATE_SIZE {
        Ok(())
    } else {
        Err(RendererError::ImmediateLimitTooLow)
    }
}

/// An adapter whose immediate-constant limit is too low fails construction
/// with an error that differs from every failure of the acquisition steps,
/// in particular from finding no adapter at all.
pub proof fn lemma_limit_failure_distinguishable(max_immediate_size: u32, stage: Stage)
    requires
        max_immediate_size < IMMEDIATE_SIZE,
    ensures
        immediate_limit_result(max_immediate_size) == Err::<(), RendererError>(
            RendererError::ImmediateLimitTooLow,
        ),
        immediate_limit_result(max_immediate_size) != Err::<(), RendererError>(
            RendererError::AcquisitionFailed(stage),
        ),
        RendererError::AcquisitionFailed(Stage::Adapter) != RendererError::ImmediateLimitTooLow,
{
}

} // verus!
