use vstd::prelude::*;

verus! {

/// The scale mode of the slider.
///
/// `Linear` changes values uniformly across the track and is the default.
/// `Logarithmic` spreads values exponentially, which suits parameters such as
/// volume, frequency or zoom where finer control is wanted at lower values.
#[derive(Debug, Clone, Copy, PartialEq, Eq, Structural)]
pub enum SliderScale {
    Linear,
    Logarithmic,
}

impl Default for SliderScale {
    fn default() -> (s: SliderScale)
        ensures
            s == SliderScale::Linear,
    {
        SliderScale::Linear
    }
}

impl SliderScale {
    /// Whether this is the linear scale.
    pub fn is_linear(&self) -> (b: bool)
        ensures
            b <==> *self == SliderScale::Linear,
    {
        match self {
            SliderScale::Linear => true,
            SliderScale::Logarithmic => false,
        }
    }

    /// Whether this is the logarithmic scale.
    pub fn is_logarithmic(&self) -> (b: bool)
        ensures
            b <==> *self == SliderScale::Logarithmic,
    {
        match self {
            SliderScale::Linear => false,
            SliderScale::Logarithmic => true,
        }
    }
}

/// Every scale is exactly one of linear and logarithmic.
pub proof fn lemma_scale_exactly_one_mode(s: SliderScale)
    ensures
        (s == SliderScale::Linear) != (s == SliderScale::Logarithmic),
{
}

} // verus!
