use vstd::prelude::*;
use crate::dist::{Curve, DistTypes};
use crate::params::{ParamKey, Smoothing};

verus! {

/// Where the output gain of a frame comes from.
#[derive(Clone, Copy, Debug, PartialEq, Eq, Structural)]
pub enum GainSource {
    /// The next value of the output-gain control's own glide.
    Smoothed,
    /// Derived from the frame's drive so as to undo it: the drive in decibels,
    /// negated, back to amplitude, then limited to `[0, ceiling]`. The
    /// output-gain glide is not advanced for such a frame.
    DriveCompensation,
}

/// What to do for one sample position, the same for every channel.
#[derive(Clone, Copy, Debug, PartialEq, Eq, Structural)]
pub struct FramePlan {
    pub gain: GainSource,
    pub curve: Curve,
}

/// The plan of a frame, given the auto-gain toggle and the selected variant
/// read for that frame.
pub open spec fn frame_plan_spec(autogain: bool, variant: DistTypes) -> FramePlan {
    FramePlan {
        gain: if autogain {
            GainSource::DriveCompensation
        } else {
            GainSource::Smoothed
        },
        curve: variant.curve_spec(),
    }
}

/// Decides a frame: the gain source from the toggle, recomputed for every
/// frame since the drive glides, and the transform from the variant.
pub fn plan_frame(autogain: bool, variant: DistTypes) -> (r: FramePlan)
    ensures
        r == frame_plan_spec(autogain, variant),
{
    let gain = if autogain {
        GainSource::DriveCompensation
    } else {
        GainSource::Smoothed
    };
    FramePlan { gain, curve: variant.curve() }
}

/// Whether the output-gain glide advances in a frame of this plan.
pub open spec fn advances_gain_glide(p: FramePlan) -> bool {
    p.gain == GainSource::Smoothed
}

/// Switching the variant takes effect at the very next frame with no glide:
/// the variant control is not smoothed, and a frame's transform is the one of
/// the variant read for it, whatever was selected before.
pub proof fn lemma_variant_switch_is_immediate(autogain: bool, before: DistTypes, after: DistTypes)
    ensures
        ParamKey::DistType.smoothing_spec() == Smoothing::Off,
        frame_plan_spec(autogain, before).curve == before.curve_spec(),
        frame_plan_spec(autogain, after).curve == after.curve_spec(),
        before != after ==> frame_plan_spec(autogain, before).curve != frame_plan_spec(
            autogain,
            after,
        ).curve,
{
}

/// With auto gain on, the output-gain control has no say: the frame's gain
/// comes from the drive alone and the control's glide stands still; with it
/// off, the glide advances once per frame.
pub proof fn lemma_autogain_bypasses_gain_control(autogain: bool, variant: DistTypes)
    ensures
        advances_gain_glide(frame_plan_spec(autogain, variant)) == !autogain,
        frame_plan_spec(autogain, variant).curve == frame_plan_spec(!autogain, variant).curve,
{
}

} // verus!
