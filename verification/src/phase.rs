//! Alpha modes, blend flags and the classification of drawable items into the
//! three render phases of the host's 3D pass.

use vstd::prelude::*;

verus! {

/// How a material's output is combined with what is already in the frame;
/// mirrors the host renderer's alpha modes. The `Mask` payload is the cutoff
/// threshold, carried as the raw bit pattern of an IEEE-754 single — the
/// classification below does not read it.
#[derive(Clone, Copy, PartialEq, Eq, Structural, Debug)]
pub enum AlphaMode {
    Opaque,
    Mask(u32),
    Blend,
    Premultiplied,
    Add,
    Multiply,
}

/// The three render phases of the host's 3D pass. Opaque and AlphaMask are
/// sorted front to back, Transparent back to front; the sorting itself is the
/// host's job.
#[derive(Clone, Copy, PartialEq, Eq, Structural, Debug)]
pub enum Phase {
    Opaque,
    AlphaMask,
    Transparent,
}

/// The extra blend state a specialized pipeline is built with, derived from
/// the alpha mode alone.
#[derive(Clone, Copy, PartialEq, Eq, Structural, Hash, Debug)]
pub enum BlendFlag {
    NoBlend,
    PremultipliedAlpha,
    Multiply,
}

/// The phase a drawable with the given alpha mode belongs to.
pub open spec fn spec_phase(mode: AlphaMode) -> Phase {
    match mode {
        AlphaMode::Opaque => Phase::Opaque,
        AlphaMode::Mask(_) => Phase::AlphaMask,
        AlphaMode::Blend => Phase::Transparent,
        AlphaMode::Premultiplied => Phase::Transparent,
        AlphaMode::Add => Phase::Transparent,
        AlphaMode::Multiply => Phase::Transparent,
    }
}

/// The blend flag a pipeline key carries for the given alpha mode.
pub open spec fn spec_blend_flag(mode: AlphaMode) -> BlendFlag {
    match mode {
        AlphaMode::Blend => BlendFlag::PremultipliedAlpha,
        AlphaMode::Premultiplied => BlendFlag::PremultipliedAlpha,
        AlphaMode::Add => BlendFlag::PremultipliedAlpha,
        AlphaMode::Multiply => BlendFlag::Multiply,
        AlphaMode::Opaque => BlendFlag::NoBlend,
        AlphaMode::Mask(_) => BlendFlag::NoBlend,
    }
}

/// Classifies a drawable item by its material's alpha mode into the one phase
/// it is queued to.
pub fn classify_alpha_mode(mode: &AlphaMode) -> (phase: Phase)
    ensures
        phase == spec_phase(*mode),
{
    match mode {
        AlphaMode::Opaque => Phase::Opaque,
        AlphaMode::Mask(_) => Phase::AlphaMask,
        AlphaMode::Blend => Phase::Transparent,
        AlphaMode::Premultiplied => Phase::Transparent,
        AlphaMode::Add => Phase::Transparent,
        AlphaMode::Multiply => Phase::Transparent,
    }
}

/// The blend flag the pipeline key carries for a material with the given
/// alpha mode.
pub fn blend_flag_of_alpha_mode(mode: &AlphaMode) -> (flag: BlendFlag)
    ensures
        flag == spec_blend_flag(*mode),
{
    match mode {
        AlphaMode::Blend => BlendFlag::PremultipliedAlpha,
        AlphaMode::Premultiplied => BlendFlag::PremultipliedAlpha,
        AlphaMode::Add => BlendFlag::PremultipliedAlpha,
        AlphaMode::Multiply => BlendFlag::Multiply,
        AlphaMode::Opaque => BlendFlag::NoBlend,
        AlphaMode::Mask(_) => BlendFlag::NoBlend,
    }
}

/// Law: phase classification is total and disjoint. Every alpha mode lands in
/// exactly one of the three phases, `Mask` for every threshold value, and the
/// outcome depends on the alpha mode alone.
pub proof fn lemma_phase_classification_total_disjoint(mode: AlphaMode)
    ensures
        (spec_phase(mode) is Opaque) <==> (mode is Opaque),
        (spec_phase(mode) is AlphaMask) <==> (mode is Mask),
        (spec_phase(mode) is Transparent) <==> (mode is Blend || mode is Premultiplied
            || mode is Add || mode is Multiply),
{
}

} // verus!
