use vstd::prelude::*;
use crate::dist::DistTypes;

verus! {

/// Length of the glide, in milliseconds, of every smoothed control.
pub const SMOOTHING_MS: u32 = 50;

/// The hard-clip ceiling and the auto-gain limit, in decibels: 0 dB is unity
/// amplitude.
pub const CLIPPING_CEILING_DB: i32 = 0;

/// The controls of the effect.
#[derive(Clone, Copy, Debug, PartialEq, Eq, Structural)]
pub enum ParamKey {
    Clip,
    Gain,
    DistType,
    Mix,
    AutoGain,
}

/// How a control glides toward a new target.
#[derive(Clone, Copy, Debug, PartialEq, Eq, Structural)]
pub enum Smoothing {
    /// The target is taken at once.
    Off,
    /// Equal steps of value per sample over the given milliseconds.
    Linear { millis: u32 },
    /// Equal ratios per sample over the given milliseconds; only for strictly
    /// positive quantities.
    Logarithmic { millis: u32 },
}

/// The starting value of a control.
#[derive(Clone, Copy, Debug, PartialEq, Eq, Structural)]
pub enum DefaultValue {
    /// A gain, in decibels.
    Decibels(i32),
    /// A dry/wet blend, as the percentage of wet signal.
    WetPercent(u32),
    /// A distortion curve.
    Variant(DistTypes),
    /// An on/off switch.
    Toggle(bool),
}

/// The range of a gain control. The value is stored as linear amplitude; the
/// bounds are given here in whole decibels, which map to strictly positive
/// amplitudes.
#[derive(Clone, Copy, Debug, PartialEq, Eq, Structural)]
pub struct GainRangeDb {
    pub min_db: i32,
    pub max_db: i32,
    pub default_db: i32,
}

impl GainRangeDb {
    /// A non-empty range that holds its default.
    pub open spec fn wf(self) -> bool {
        self.min_db < self.max_db && self.min_db <= self.default_db <= self.max_db
    }
}

impl ParamKey {
    /// The identifier under which a host stores and automates the control. It
    /// must never change between versions.
    pub open spec fn id_spec(self) -> Seq<char> {
        match self {
            ParamKey::Clip => "clip"@,
            ParamKey::Gain => "gain"@,
            ParamKey::DistType => "distType"@,
            ParamKey::Mix => "mix"@,
            ParamKey::AutoGain => "autogain"@,
        }
    }

    /// The name shown to the user.
    pub open spec fn display_name_spec(self) -> Seq<char> {
        match self {
            ParamKey::Clip => "clip"@,
            ParamKey::Gain => "Gain"@,
            ParamKey::DistType => "Distortion Type"@,
            ParamKey::Mix => "Mix"@,
            ParamKey::AutoGain => "Auto Gain"@,
        }
    }

    /// The decibel range of a gain control; none for the other controls.
    pub open spec fn gain_range_spec(self) -> Option<GainRangeDb> {
        match self {
            ParamKey::Clip => Some(GainRangeDb { min_db: -10i32, max_db: 40, default_db: 0 }),
            ParamKey::Gain => Some(GainRangeDb { min_db: -60i32, max_db: 5, default_db: 0 }),
            _ => None,
        }
    }

    /// The glide of the control. The gains glide by equal ratios, the mix by
    /// equal steps; the curve choice and the auto-gain toggle switch at once.
    pub open spec fn smoothing_spec(self) -> Smoothing {
        match self {
            ParamKey::Clip => Smoothing::Logarithmic { millis: SMOOTHING_MS },
            ParamKey::Gain => Smoothing::Logarithmic { millis: SMOOTHING_MS },
            ParamKey::Mix => Smoothing::Linear { millis: SMOOTHING_MS },
            _ => Smoothing::Off,
        }
    }

    /// The value the control starts from.
    pub open spec fn default_value_spec(self) -> DefaultValue {
        match self {
            ParamKey::Clip => DefaultValue::Decibels(0),
            ParamKey::Gain => DefaultValue::Decibels(0),
            ParamKey::DistType => DefaultValue::Variant(DistTypes::HardClip),
            ParamKey::Mix => DefaultValue::WetPercent(100),
            ParamKey::AutoGain => DefaultValue::Toggle(false),
        }
    }

    pub fn id(&self) -> (r: String)
        ensures
            r@ == self.id_spec(),
    {
        match self {
            ParamKey::Clip => "clip".to_owned(),
            ParamKey::Gain => "gain".to_owned(),
            ParamKey::DistType => "distType".to_owned(),
            ParamKey::Mix => "mix".to_owned(),
            ParamKey::AutoGain => "autogain".to_owned(),
        }
    }

    pub fn display_name(&self) -> (r: String)
        ensures
            r@ == self.display_name_spec(),
    {
        match self {
            ParamKey::Clip => "clip".to_owned(),
            ParamKey::Gain => "Gain".to_owned(),
            ParamKey::DistType => "Distortion Type".to_owned(),
            ParamKey::Mix => "Mix".to_owned(),
            ParamKey::AutoGain => "Auto Gain".to_owned(),
        }
    }

    pub fn gain_range(&self) -> (r: Option<GainRangeDb>)
        ensures
            r == self.gain_range_spec(),
            r is Some ==> r.unwrap().wf(),
    {
        match self {
            ParamKey::Clip => Some(GainRangeDb { min_db: -10, max_db: 40, default_db: 0 }),
            ParamKey::Gain => Some(GainRangeDb { min_db: -60, max_db: 5, default_db: 0 }),
            _ => None,
        }
    }

    pub fn smoothing(&self) -> (r: Smoothing)
        ensures
            r == self.smoothing_spec(),
    {
        match self {
            ParamKey::Clip => Smoothing::Logarithmic { millis: SMOOTHING_MS },
            ParamKey::Gain => Smoothing::Logarithmic { millis: SMOOTHING_MS },
            ParamKey::Mix => Smoothing::Linear { millis: SMOOTHING_MS },
            _ => Smoothing::Off,
        }
    }

    pub fn default_value(&self) -> (r: DefaultValue)
        ensures
            r == self.default_value_spec(),
    {
        match self {
            ParamKey::Clip => DefaultValue::Decibels(0),
            ParamKey::Gain => DefaultValue::Decibels(0),
            ParamKey::DistType => DefaultValue::Variant(DistTypes::default()),
            ParamKey::Mix => DefaultValue::WetPercent(100),
            ParamKey::AutoGain => DefaultValue::Toggle(false),
        }
    }
}

/// Every control, in the order a host lists them.
pub fn all_params() -> (r: Vec<ParamKey>)
    ensures
        r@ == seq![
            ParamKey::Clip,
            ParamKey::Gain,
            ParamKey::DistType,
            ParamKey::Mix,
            ParamKey::AutoGain,
        ],
{
    vec![ParamKey::Clip, ParamKey::Gain, ParamKey::DistType, ParamKey::Mix, ParamKey::AutoGain]
}

/// Controls are told apart by their stored identifiers: no two share one.
pub proof fn lemma_ids_distinct(a: ParamKey, b: ParamKey)
    requires
        a != b,
    ensures
        a.id_spec() != b.id_spec(),
{
    reveal_strlit("clip");
    reveal_strlit("gain");
    reveal_strlit("distType");
    reveal_strlit("mix");
    reveal_strlit("autogain");
    let sa = a.id_spec();
    let sb = b.id_spec();
    assert(sa.len() != sb.len() || sa[0] != sb[0]);
}

/// Every control starts inside its range: a gain control's starting level is
/// the default of its decibel range, and the mix starts at most fully wet.
pub proof fn lemma_defaults_in_range(k: ParamKey)
    ensures
        k.gain_range_spec() is Some ==> k.gain_range_spec().unwrap().wf()
            && k.default_value_spec() == DefaultValue::Decibels(
            k.gain_range_spec().unwrap().default_db,
        ),
        k.default_value_spec() matches DefaultValue::WetPercent(p) ==> p <= 100,
{
}

/// A control that glides logarithmically is a gain control whose range, and
/// so every target it can be given, is a strictly positive amplitude: such a
/// glide never meets a target at or below zero.
pub proof fn lemma_log_smoothing_only_on_gains(k: ParamKey)
    ensures
        k.smoothing_spec() is Logarithmic ==> k.gain_range_spec() is Some,
{
}

} // verus!
