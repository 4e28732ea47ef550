use vstd::prelude::*;

verus! {

/// The distortion curves the effect offers. The set is closed: every match
/// over it is exhaustive, so a new variant cannot slip through unhandled.
#[derive(Clone, Copy, Debug, PartialEq, Eq, Structural)]
pub enum DistTypes {
    HardClip,
    SoftClip,
    SineFold,
    Saturate,
}

/// The transform a variant applies to one driven sample.
#[derive(Clone, Copy, Debug, PartialEq, Eq, Structural)]
pub enum Curve {
    /// Clamp to `[-ceiling, ceiling]`.
    Clamp,
    /// Hyperbolic-tangent saturation, bounded to `(-1, 1)`.
    Tanh,
    /// Sine folding: past a quarter period the wave folds back toward zero.
    Sine,
    /// The sample is left as it is. This is the documented fallback for a
    /// variant that has no transform of its own yet.
    Passthrough,
}

/// How many variants `DistTypes` has.
pub const VARIANT_COUNT: usize = 4;

/// The variant at a position of the declared order, if there is one.
pub open spec fn variant_at(i: int) -> Option<DistTypes> {
    if i == 0 {
        Some(DistTypes::HardClip)
    } else if i == 1 {
        Some(DistTypes::SoftClip)
    } else if i == 2 {
        Some(DistTypes::SineFold)
    } else if i == 3 {
        Some(DistTypes::Saturate)
    } else {
        None
    }
}

impl DistTypes {
    /// Position of the variant in the declared order.
    pub open spec fn index_spec(self) -> nat {
        match self {
            DistTypes::HardClip => 0,
            DistTypes::SoftClip => 1,
            DistTypes::SineFold => 2,
            DistTypes::Saturate => 3,
        }
    }

    /// The transform the variant stands for.
    pub open spec fn curve_spec(self) -> Curve {
        match self {
            DistTypes::HardClip => Curve::Clamp,
            DistTypes::SoftClip => Curve::Passthrough,
            DistTypes::SineFold => Curve::Sine,
            DistTypes::Saturate => Curve::Tanh,
        }
    }

    /// The name shown for the variant.
    pub open spec fn name_spec(self) -> Seq<char> {
        match self {
            DistTypes::HardClip => "HardClip"@,
            DistTypes::SoftClip => "SoftClip"@,
            DistTypes::SineFold => "SineFold"@,
            DistTypes::Saturate => "Saturate"@,
        }
    }

    pub fn index(&self) -> (r: usize)
        ensures
            r == self.index_spec(),
            r < VARIANT_COUNT,
    {
        match self {
            DistTypes::HardClip => 0,
            DistTypes::SoftClip => 1,
            DistTypes::SineFold => 2,
            DistTypes::Saturate => 3,
        }
    }

    /// The variant at position `i` of the declared order. Any other index is
    /// refused rather than mapped to some default curve.
    pub fn from_index(i: usize) -> (r: Option<DistTypes>)
        ensures
            r == variant_at(i as int),
    {
        if i == 0 {
            Some(DistTypes::HardClip)
        } else if i == 1 {
            Some(DistTypes::SoftClip)
        } else if i == 2 {
            Some(DistTypes::SineFold)
        } else if i == 3 {
            Some(DistTypes::Saturate)
        } else {
            None
        }
    }

    /// Every variant, in the declared order.
    pub fn all() -> (r: Vec<DistTypes>)
        ensures
            r@.len() == VARIANT_COUNT,
            forall|i: int| 0 <= i < VARIANT_COUNT ==> variant_at(i) == Some(#[trigger] r@[i]),
    {
        vec![DistTypes::HardClip, DistTypes::SoftClip, DistTypes::SineFold, DistTypes::Saturate]
    }

    /// The transform to apply for this variant.
    pub fn curve(&self) -> (r: Curve)
        ensures
            r == self.curve_spec(),
    {
        match self {
            DistTypes::HardClip => Curve::Clamp,
            DistTypes::SoftClip => Curve::Passthrough,
            DistTypes::SineFold => Curve::Sine,
            DistTypes::Saturate => Curve::Tanh,
        }
    }

    /// False for a variant that is offered but has no transform of its own,
    /// so that a caller can tell it is passed through on purpose.
    pub fn is_implemented(&self) -> (r: bool)
        ensures
            r == (self.curve_spec() != Curve::Passthrough),
            r == (*self != DistTypes::SoftClip),
    {
        match self {
            DistTypes::SoftClip => false,
            _ => true,
        }
    }

    /// The name shown for the variant.
    pub fn name(&self) -> (r: String)
        ensures
            r@ == self.name_spec(),
    {
        match self {
            DistTypes::HardClip => "HardClip".to_owned(),
            DistTypes::SoftClip => "SoftClip".to_owned(),
            DistTypes::SineFold => "SineFold".to_owned(),
            DistTypes::Saturate => "Saturate".to_owned(),
        }
    }
}

impl Default for DistTypes {
    fn default() -> (r: DistTypes)
        ensures
            r == DistTypes::HardClip,
    {
        DistTypes::HardClip
    }
}

/// Position and variant determine each other: reading a variant back from
/// its index gives the same variant, and every index in range names exactly
/// one variant.
pub proof fn lemma_index_round_trip(d: DistTypes, i: int)
    ensures
        variant_at(d.index_spec() as int) == Some(d),
        variant_at(i) is Some <==> 0 <= i < VARIANT_COUNT,
        variant_at(i) is Some ==> variant_at(i).unwrap().index_spec() == i,
{
}

/// Distinct variants have distinct names, so a name read back from the
/// display identifies the variant.
pub proof fn lemma_names_distinct(a: DistTypes, b: DistTypes)
    requires
        a != b,
    ensures
        a.name_spec() != b.name_spec(),
{
    reveal_strlit("HardClip");
    reveal_strlit("SoftClip");
    reveal_strlit("SineFold");
    reveal_strlit("Saturate");
    let sa = a.name_spec();
    let sb = b.name_spec();
    assert(sa.len() != sb.len() || sa[0] != sb[0] || sa[1] != sb[1] || sa[2] != sb[2]);
}

} // verus!
